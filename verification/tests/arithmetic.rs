use emu8080::i8080::complement_sub;
use emu8080::interconnect::rom::Rom;
use emu8080::Emulator;

const STEPS: u64 = 1000;

#[test]
fn arithmetic_overflow_sub() {
    let m: u8 = 0x3e;
    let s: u8 = 0x3e;
    let t = complement_sub(m, s);
    assert_eq!(t, (0, false));

    let m: u8 = 0x00;
    let s: u8 = 0x01;
    assert_eq!(complement_sub(m, s), (u8::MAX, true));
}

#[test]
fn arithmetic_add() {
    let bytecode = vec![
        0x80, // ADD B
        0x87, // ADD A
    ];
    let mut system = Emulator::new(Rom::new(bytecode));
    system.cpu.a = 0x2e;
    system.cpu.b = 0x6c;
    system.step();
    assert_eq!(system.cpu.a, 0x9a);
    assert_eq!(system.cpu.flags.cy, false);
    assert_eq!(system.cpu.flags.p, true);
    assert_eq!(system.cpu.flags.z, false);
    assert_eq!(system.cpu.flags.s, true);

    system.step();
    assert_eq!(system.cpu.a, 0x34);
    assert_eq!(system.cpu.flags.cy, true);
    assert_eq!(system.cpu.flags.p, false);
    assert_eq!(system.cpu.flags.z, false);
    assert_eq!(system.cpu.flags.s, false);
}

#[test]
fn arithmetic_adi() {
    let bytecode = vec![
        0xc6, 0x6c, // ADI 0x6c
        0xc6, 0x9a, // ADI 0x9a
    ];
    let mut system = Emulator::new(Rom::new(bytecode));
    system.cpu.a = 0x2e;
    system.step();
    assert_eq!(system.cpu.a, 0x9a);
    assert_eq!(system.cpu.flags.cy, false);
    assert_eq!(system.cpu.flags.p, true);
    assert_eq!(system.cpu.flags.z, false);
    assert_eq!(system.cpu.flags.s, true);

    system.step();
    assert_eq!(system.cpu.a, 0x34);
    assert_eq!(system.cpu.flags.cy, true);
    assert_eq!(system.cpu.flags.p, false);
    assert_eq!(system.cpu.flags.z, false);
    assert_eq!(system.cpu.flags.s, false);
}

#[test]
fn arithmetic_sub() {
    let bytecode = vec![
        0x90, // SUB B
        0x97, // SUB A
    ];
    let mut system = Emulator::new(Rom::new(bytecode));
    system.cpu.a = 0x49;
    system.cpu.b = 0x3a;
    system.step();
    assert_eq!(system.cpu.a, 0x0f);
    assert_eq!(system.cpu.flags.cy, false);
    assert_eq!(system.cpu.flags.p, true);
    assert_eq!(system.cpu.flags.z, false);
    assert_eq!(system.cpu.flags.s, false);

    system.cpu.flags.cy = true; // Regression: SUB A must clear the carry bit.
    system.step();
    assert_eq!(system.cpu.a, 0x00);
    assert_eq!(system.cpu.flags.cy, false);
    assert_eq!(system.cpu.flags.p, true);
    assert_eq!(system.cpu.flags.z, true);
    assert_eq!(system.cpu.flags.s, false);
}

#[test]
fn arithmetic_sui() {
    let bytecode = vec![
        0xd6, 0x3a, // SUI 0x3a
        0xd6, 0x0f, // SUI 0x0f
    ];
    let mut system = Emulator::new(Rom::new(bytecode));
    system.cpu.a = 0x49;
    system.step();
    assert_eq!(system.cpu.a, 0x0f);
    assert_eq!(system.cpu.flags.cy, false);
    assert_eq!(system.cpu.flags.p, true);
    assert_eq!(system.cpu.flags.z, false);
    assert_eq!(system.cpu.flags.s, false);

    system.step();
    assert_eq!(system.cpu.a, 0x00);
    assert_eq!(system.cpu.flags.cy, false);
    assert_eq!(system.cpu.flags.p, true);
    assert_eq!(system.cpu.flags.z, true);
    assert_eq!(system.cpu.flags.s, false);
}

#[test]
fn arithmetic_rrc() {
    let bytecode = vec![
        0x0f, // RRC
        0x0f, // RRC
    ];
    let mut system = Emulator::new(Rom::new(bytecode));
    system.cpu.a = 0xf2;
    system.step();
    assert_eq!(system.cpu.a, 0x79);
    assert_eq!(system.cpu.flags.cy, false);
    system.cpu.a = 0x11;
    system.step();
    assert_eq!(system.cpu.a, 0x88);
    assert_eq!(system.cpu.flags.cy, true);
}

#[test]
fn rotates_move_the_carry() {
    // RLC, RAL, RAR on the worked examples of the 8080 manual.
    let bytecode = vec![
        0x07, // RLC
        0x17, // RAL
        0x1f, // RAR
    ];
    let mut system = Emulator::new(Rom::new(bytecode));
    system.cpu.a = 0xf2;
    system.step();
    assert_eq!(system.cpu.a, 0xe5);
    assert_eq!(system.cpu.flags.cy, true);

    system.cpu.a = 0xb5;
    system.cpu.flags.cy = false;
    system.step();
    assert_eq!(system.cpu.a, 0x6a);
    assert_eq!(system.cpu.flags.cy, true);

    system.step();
    assert_eq!(system.cpu.a, 0xb5);
    assert_eq!(system.cpu.flags.cy, false);
}

#[test]
fn carry_borrow_chains() {
    // ACI folds the carry into the sum; SBI folds the borrow into the
    // difference.
    let bytecode = vec![
        0xce, 0x00, // ACI 0x00
        0xde, 0x01, // SBI 0x01
    ];
    let mut system = Emulator::new(Rom::new(bytecode));
    system.cpu.a = 0xff;
    system.cpu.flags.cy = true;
    system.step();
    assert_eq!(system.cpu.a, 0x00);
    assert_eq!(system.cpu.flags.cy, true);
    assert_eq!(system.cpu.flags.z, true);
    assert_eq!(system.cpu.flags.ac, true);

    system.step();
    assert_eq!(system.cpu.a, 0xfe);
    assert_eq!(system.cpu.flags.cy, true);
}

#[test]
fn inr_dcr_leave_the_carry() {
    let bytecode = vec![
        0x04, // INR B
        0x05, // DCR B
    ];
    let mut system = Emulator::new(Rom::new(bytecode));
    system.cpu.b = 0x0f;
    system.cpu.flags.cy = true;
    system.step();
    assert_eq!(system.cpu.b, 0x10);
    assert_eq!(system.cpu.flags.ac, true);
    assert_eq!(system.cpu.flags.cy, true);

    system.step();
    assert_eq!(system.cpu.b, 0x0f);
    // Decrementing 0x10 borrows out of the low nibble, so AC clears.
    assert_eq!(system.cpu.flags.ac, false);
    assert_eq!(system.cpu.flags.cy, true);
}

#[test]
fn inx_dcx_wrap_the_pair() {
    let bytecode = vec![
        0x03, // INX B
        0x1b, // DCX D
        0x33, // INX SP
    ];
    let mut system = Emulator::new(Rom::new(bytecode));
    system.cpu.b = 0xff;
    system.cpu.c = 0xff;
    system.cpu.d = 0x00;
    system.cpu.e = 0x00;
    system.cpu.sp = 0xffff;
    system.run(STEPS);
    assert_eq!((system.cpu.b, system.cpu.c), (0x00, 0x00));
    assert_eq!((system.cpu.d, system.cpu.e), (0xff, 0xff));
    assert_eq!(system.cpu.sp, 0x0000);
}

#[test]
fn dad_sets_only_the_carry() {
    let bytecode = vec![
        0x09, // DAD B
        0x39, // DAD SP
    ];
    let mut system = Emulator::new(Rom::new(bytecode));
    system.cpu.h = 0x01;
    system.cpu.l = 0x00;
    system.cpu.b = 0x00;
    system.cpu.c = 0xff;
    system.cpu.flags.z = true;
    system.step();
    assert_eq!((system.cpu.h, system.cpu.l), (0x01, 0xff));
    assert_eq!(system.cpu.flags.cy, false);
    assert_eq!(system.cpu.flags.z, true);

    system.cpu.sp = 0xfe01;
    system.step();
    assert_eq!((system.cpu.h, system.cpu.l), (0x00, 0x00));
    assert_eq!(system.cpu.flags.cy, true);
}
