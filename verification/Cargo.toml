[package]
name = "hypervisor"
version = "0.1.0"
edition = "2021"
publish = false

[dependencies]
axalloc = "=0.3.0-preview.3"
axerrno = "=0.1.2"
cfg-if = "=1.0.5"
cortex-a = "=8.1.1"
kspin = "=0.1.1"
log = "=0.4.34"
memoffset = "=0.9.1"
tock-registers = "=0.8.1"
