//! What the C interface of the user library computes between its
//! pointers and the file system.

pub mod file;
