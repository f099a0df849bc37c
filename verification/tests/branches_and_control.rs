use emu8080::interconnect::rom::Rom;
use emu8080::Emulator;

#[test]
fn call_ret_round_trip() {
    // CALL 0x0010 at the reset vector; a lone RET waits there.
    let mut bytecode = vec![0u8; 0x11];
    bytecode[0] = 0xcd; // CALL 0x0010
    bytecode[1] = 0x10;
    bytecode[2] = 0x00;
    bytecode[0x10] = 0xc9; // RET
    let mut system = Emulator::new(Rom::new(bytecode));
    system.cpu.sp = 0x2400;

    system.step();
    assert_eq!(system.cpu.pc, 0x0010);
    assert_eq!(system.cpu.sp, 0x23fe);
    assert_eq!(system.interconnect.read_byte(0x23ff), 0x00);
    assert_eq!(system.interconnect.read_byte(0x23fe), 0x03);

    system.step();
    assert_eq!(system.cpu.pc, 0x0003);
    assert_eq!(system.cpu.sp, 0x2400);
}

#[test]
fn jmp_sets_the_program_counter() {
    let bytecode = vec![
        0xc3, 0x08, 0x00, // JMP 0x0008
    ];
    let mut system = Emulator::new(Rom::new(bytecode));
    system.step();
    assert_eq!(system.cpu.pc, 0x0008);
}

#[test]
fn jnz_falls_through_on_zero() {
    let bytecode = vec![
        0xc2, 0x08, 0x00, // JNZ 0x0008
        0xc2, 0x09, 0x00, // JNZ 0x0009
    ];
    let mut system = Emulator::new(Rom::new(bytecode));
    system.cpu.flags.z = true;
    system.step();
    assert_eq!(system.cpu.pc, 0x0003);
    system.cpu.flags.z = false;
    system.step();
    assert_eq!(system.cpu.pc, 0x0009);
}

#[test]
fn conditional_jumps_follow_their_flags() {
    let bytecode = vec![
        0xda, 0x10, 0x00, // JC 0x0010
        0xfa, 0x20, 0x00, // JM 0x0020
    ];
    let mut system = Emulator::new(Rom::new(bytecode));
    system.cpu.flags.cy = false;
    system.cpu.flags.s = true;
    system.step();
    assert_eq!(system.cpu.pc, 0x0003);
    system.step();
    assert_eq!(system.cpu.pc, 0x0020);
}

#[test]
fn conditional_call_and_return() {
    // CZ is not taken, CC is; the routine at 0x0010 returns with RNC
    // refused first and RC taken.
    let mut bytecode = vec![0u8; 0x12];
    bytecode[0] = 0xcc; // CZ 0x0010
    bytecode[1] = 0x10;
    bytecode[2] = 0x00;
    bytecode[3] = 0xdc; // CC 0x0010
    bytecode[4] = 0x10;
    bytecode[5] = 0x00;
    bytecode[0x10] = 0xd0; // RNC
    bytecode[0x11] = 0xd8; // RC
    let mut system = Emulator::new(Rom::new(bytecode));
    system.cpu.sp = 0x2400;
    system.cpu.flags.z = false;
    system.cpu.flags.cy = true;

    system.step();
    assert_eq!(system.cpu.pc, 0x0003);
    assert_eq!(system.cpu.sp, 0x2400);

    system.step();
    assert_eq!(system.cpu.pc, 0x0010);
    assert_eq!(system.cpu.sp, 0x23fe);

    system.step(); // RNC: carry is set, so it falls through.
    assert_eq!(system.cpu.pc, 0x0011);

    system.step(); // RC: taken, back after the CC.
    assert_eq!(system.cpu.pc, 0x0006);
    assert_eq!(system.cpu.sp, 0x2400);
}

#[test]
fn hlt_stops_and_inject_resumes() {
    let bytecode = vec![0x76]; // HLT
    let mut system = Emulator::new(Rom::new(bytecode));
    system.cpu.sp = 0x2400;
    assert!(system.try_step().is_ok());
    assert!(system.cpu.halted);

    // A halted machine does not move.
    assert!(system.try_step().is_ok());
    assert_eq!(system.cpu.pc, 0x0001);

    // RST 1 wakes it, pushes the program counter and restarts at 0x0008.
    let accepted = system.inject(0xcf).unwrap();
    assert!(accepted);
    assert!(!system.cpu.halted);
    assert!(!system.cpu.interrupts_enabled);
    assert_eq!(system.cpu.pc, 0x0008);
    assert_eq!(system.cpu.sp, 0x23fe);
    assert_eq!(system.interconnect.read_byte(0x23fe), 0x01);

    // With interrupts disabled nothing more is accepted until EI.
    assert_eq!(system.inject(0xcf).unwrap(), false);
}

#[test]
fn inject_refuses_multi_byte_opcodes() {
    // A jump or an immediate form cannot arrive through the one-byte
    // interrupt path.
    let bytecode = vec![0x00];
    let mut system = Emulator::new(Rom::new(bytecode));
    system.cpu.sp = 0x2400;
    assert_eq!(system.inject(0xc3).unwrap(), false); // JMP a16
    assert_eq!(system.inject(0xc6).unwrap(), false); // ADI d8
    assert!(system.cpu.interrupts_enabled);
    assert_eq!(system.cpu.pc, 0x0000);
}

#[test]
fn inject_executes_any_one_byte_opcode() {
    // An injected EI runs without a program-counter advance; acceptance
    // then leaves interrupts disabled until the next EI instruction.
    let bytecode = vec![0x00];
    let mut system = Emulator::new(Rom::new(bytecode));
    system.cpu.sp = 0x2400;
    system.cpu.a = 0x10;
    system.cpu.b = 0x07;
    assert_eq!(system.inject(0x80).unwrap(), true); // ADD B
    assert_eq!(system.cpu.a, 0x17);
    assert_eq!(system.cpu.pc, 0x0000);
    assert!(!system.cpu.interrupts_enabled);
    assert_eq!(system.inject(0x80).unwrap(), false);
}

#[test]
fn ei_and_di_toggle_interrupts() {
    let bytecode = vec![
        0xf3, // DI
        0xfb, // EI
    ];
    let mut system = Emulator::new(Rom::new(bytecode));
    system.step();
    assert!(!system.cpu.interrupts_enabled);
    system.step();
    assert!(system.cpu.interrupts_enabled);
}

#[test]
fn rst_pushes_and_restarts() {
    let bytecode = vec![0xd7]; // RST 2
    let mut system = Emulator::new(Rom::new(bytecode));
    system.cpu.sp = 0x2400;
    system.step();
    assert_eq!(system.cpu.pc, 0x0010);
    assert_eq!(system.cpu.sp, 0x23fe);
    assert_eq!(system.interconnect.read_byte(0x23fe), 0x01);
    assert_eq!(system.interconnect.read_byte(0x23ff), 0x00);
}

#[test]
fn out_and_in_move_bytes_through_ports() {
    let bytecode = vec![
        0xd3, 0x05, // OUT 5
        0xdb, 0x03, // IN 3
    ];
    let mut system = Emulator::new(Rom::new(bytecode));
    system.cpu.a = 0x7f;
    system.step();
    assert_eq!(system.cpu.read_device(0x05), 0x7f);

    system.cpu.write_device(0x03, 0x33);
    system.step();
    assert_eq!(system.cpu.a, 0x33);
    assert_eq!(system.cpu.read_device(0x05), 0x7f);
}
