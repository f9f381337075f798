use hypervisor::arch::context::{Context, ProcessContext, TaskContext};
use hypervisor::arch::frame::{
    GeneralRegisters, ProcessTrapFrame, TrapFrame, HSTATUS_SPV, PROCESS_TRAP_FRAME_SIZE,
    SSTATUS_SPIE, SSTATUS_SPP, SSTATUS_SUM, TP_OFFSET, TRAP_FRAME_SIZE,
};
use hypervisor::mm::{PhysAddr, VirtAddr};

fn busy_frame() -> TrapFrame {
    let mut tf = TrapFrame::new_user(VirtAddr::new(0x1000), VirtAddr::new(0x8000), 42);
    tf.regs.a0 = 0xdead_beef;
    tf.regs.a1 = 11;
    tf.regs.s3 = 33;
    tf.regs.ra = 0x1234;
    tf.sepc = 0x1040;
    tf
}

#[test]
fn status_bits_have_their_places() {
    assert_eq!(SSTATUS_SPIE, 1 << 5);
    assert_eq!(SSTATUS_SPP, 1 << 8);
    assert_eq!(SSTATUS_SUM, 1 << 18);
    assert_eq!(HSTATUS_SPV, 1 << 7);
}

#[test]
fn default_registers_are_zero() {
    let r = GeneralRegisters::default();
    assert_eq!(r.ra, 0);
    assert_eq!(r.sp, 0);
    assert_eq!(r.a0, 0);
    assert_eq!(r.a7, 0);
    assert_eq!(r.t6, 0);
    assert_eq!(r.s11, 0);
}

#[test]
fn new_user_sets_entry_stack_argument_and_status() {
    let tf = TrapFrame::new_user(VirtAddr::new(0x1000), VirtAddr::new(0x8000), 42);
    assert_eq!(tf.sepc, 0x1000);
    assert_eq!(tf.regs.sp, 0x8000);
    assert_eq!(tf.regs.a0, 42);
    assert_eq!(tf.sstatus, 0x4_0020);
    assert_eq!(tf.hstatus, 0);
    assert_eq!(tf.regs.ra, 0);
    assert_eq!(tf.regs.a1, 0);
    assert_eq!(tf.regs.tp, 0);
    assert!(!tf.from_guest());
}

#[test]
fn new_guest_marks_the_guest() {
    let tf = TrapFrame::new_guest(VirtAddr::new(0x8020_0000), VirtAddr::new(0x8030_0000), 7);
    assert_eq!(tf.sepc, 0x8020_0000);
    assert_eq!(tf.regs.sp, 0x8030_0000);
    assert_eq!(tf.regs.a0, 7);
    assert_eq!(tf.sstatus, 0x4_0120);
    assert_eq!(tf.hstatus, 0x80);
    assert!(tf.from_guest());
}

#[test]
fn new_clone_zeroes_the_return_value_and_moves_the_stack() {
    let tf = busy_frame();
    let child = tf.new_clone(VirtAddr::new(0x9000));
    assert_eq!(child.regs.a0, 0);
    assert_eq!(child.regs.sp, 0x9000);
    assert_eq!(child.regs.a1, 11);
    assert_eq!(child.regs.s3, 33);
    assert_eq!(child.regs.ra, 0x1234);
    assert_eq!(child.sepc, 0x1040);
    assert_eq!(child.sstatus, tf.sstatus);
    assert_eq!(child.hstatus, tf.hstatus);
    assert_eq!(tf.regs.a0, 0xdead_beef);
}

#[test]
fn new_fork_zeroes_the_return_value_only() {
    let tf = busy_frame();
    let child = tf.new_fork();
    assert_eq!(child.regs.a0, 0);
    assert_eq!(child.regs.sp, tf.regs.sp);
    assert_eq!(child.regs.a1, 11);
    assert_eq!(child.regs.s3, 33);
    assert_eq!(child.sepc, 0x1040);
    assert_eq!(child.sstatus, tf.sstatus);
}

#[test]
fn new_fork_of_a_frame_with_every_bit_set_returns_zero() {
    let mut tf = busy_frame();
    tf.regs.a0 = usize::MAX;
    assert_eq!(tf.new_fork().regs.a0, 0);
    assert_eq!(tf.new_clone(VirtAddr::new(usize::MAX)).regs.a0, 0);
}

#[test]
fn process_frame_constructors() {
    let tf = ProcessTrapFrame::new_user(VirtAddr::new(0x1000), VirtAddr::new(0x8000), 0);
    assert_eq!(tf.sepc, 0x1000);
    assert_eq!(tf.regs.sp, 0x8000);
    assert_eq!(tf.regs.a0, 0);
    assert_eq!(tf.sstatus, 0x4_0020);
    let mut parent = tf;
    parent.regs.a0 = 99;
    parent.regs.a5 = 5;
    let c = parent.new_clone(VirtAddr::new(0x7000));
    assert_eq!(c.regs.a0, 0);
    assert_eq!(c.regs.sp, 0x7000);
    assert_eq!(c.regs.a5, 5);
    let f = parent.new_fork();
    assert_eq!(f.regs.a0, 0);
    assert_eq!(f.regs.sp, 0x8000);
    assert_eq!(f.regs.a5, 5);
}

#[test]
fn set_return_value_changes_a0_only() {
    let mut tf = busy_frame();
    tf.set_return_value(5);
    assert_eq!(tf.regs.a0, 5);
    assert_eq!(tf.regs.a1, 11);
    assert_eq!(tf.sepc, 0x1040);
}

#[test]
fn exec_prepares_the_entry() {
    let tf = busy_frame();
    let e = tf.exec(VirtAddr::new(0x10_0000));
    assert_eq!(e.sscratch, 0x10_0000);
    assert_eq!(e.sepc, 0x1040);
    assert_eq!(e.sstatus, tf.sstatus);
    assert_eq!(e.kernel_tp_addr, 0x10_0000 - 272 + 24);
    assert_eq!(TRAP_FRAME_SIZE, 34 * 8);
    assert_eq!(TP_OFFSET, 3 * 8);
    let p = ProcessTrapFrame::new_user(VirtAddr::new(0x1000), VirtAddr::new(0x8000), 0);
    let e = p.exec(VirtAddr::new(0x10_0000));
    assert_eq!(e.kernel_tp_addr, 0x10_0000 - 264 + 24);
    assert_eq!(e.sepc, 0x1000);
    assert_eq!(PROCESS_TRAP_FRAME_SIZE, 33 * 8);
}

#[test]
fn exec_on_the_smallest_stack() {
    let tf = busy_frame();
    let e = tf.exec(VirtAddr::new(TRAP_FRAME_SIZE));
    assert_eq!(e.kernel_tp_addr, TP_OFFSET);
}

#[test]
fn task_context_init_sets_three_registers() {
    let mut ctx = TaskContext::default();
    assert_eq!(ctx.ra, 0);
    assert_eq!(ctx.satp, 0);
    ctx.s5 = 55;
    ctx.init(0x4000, VirtAddr::new(0x9000), PhysAddr::new(0x8000_1000), true);
    assert_eq!(ctx.ra, 0x4000);
    assert_eq!(ctx.sp, 0x9000);
    assert_eq!(ctx.satp, 0x8000_1000);
    assert_eq!(ctx.s5, 55);
    assert_eq!(ctx.s0, 0);
}

#[test]
fn switch_to_saves_the_hart_and_loads_the_next() {
    let mut current = TaskContext::default();
    current.satp = 0x100;
    current.ra = 1;
    let mut next = TaskContext::default();
    next.init(0x4000, VirtAddr::new(0x9000), PhysAddr::new(0x200), false);
    next.s7 = 77;
    let mut hart = TaskContext::default();
    hart.ra = 0xaaa;
    hart.sp = 0xbbb;
    hart.s1 = 0xccc;
    hart.satp = 0x100;
    current.switch_to(&next, &mut hart);
    assert_eq!(hart.ra, 0x4000);
    assert_eq!(hart.sp, 0x9000);
    assert_eq!(hart.s7, 77);
    assert_eq!(hart.satp, 0x200);
    assert_eq!(current.ra, 0xaaa);
    assert_eq!(current.sp, 0xbbb);
    assert_eq!(current.s1, 0xccc);
    assert_eq!(current.satp, 0x100);
    assert_eq!(next.ra, 0x4000);
}

#[test]
fn switching_there_and_back_restores_the_hart() {
    let mut a = TaskContext::default();
    a.satp = 0x100;
    let mut b = TaskContext::default();
    b.init(0x4000, VirtAddr::new(0x9000), PhysAddr::new(0x200), false);
    let mut hart = TaskContext::default();
    hart.ra = 0x10;
    hart.sp = 0x20;
    hart.s11 = 0x30;
    hart.satp = 0x100;
    a.switch_to(&b, &mut hart);
    b.switch_to(&a, &mut hart);
    assert_eq!(hart.ra, 0x10);
    assert_eq!(hart.sp, 0x20);
    assert_eq!(hart.s11, 0x30);
    assert_eq!(hart.satp, 0x100);
    assert_eq!(b.ra, 0x4000);
    assert_eq!(b.satp, 0x200);
}

#[test]
fn process_context_through_the_trait() {
    let mut ctx = ProcessContext::default();
    assert!(ctx.is_process());
    ctx.init(0x4000, VirtAddr::new(0x9000), PhysAddr::new(0x300), false);
    assert_eq!(ctx.ra, 0x4000);
    assert_eq!(ctx.sp, 0x9000);
    assert_eq!(ctx.satp, 0x300);
    let mut cur = ProcessContext::default();
    cur.satp = 0x100;
    let mut hart = ProcessContext::default();
    hart.ra = 9;
    hart.satp = 0x100;
    cur.switch_to_process(&ctx, &mut hart);
    assert_eq!(hart.ra, 0x4000);
    assert_eq!(hart.satp, 0x300);
    assert_eq!(cur.ra, 9);
    assert_eq!(cur.satp, 0x100);
}
