use emu8080::flags::ConditionalFlags;
use emu8080::interconnect::rom::Rom;
use emu8080::Emulator;

const STEPS: u64 = 1000;

#[test]
fn data_transfer_lxi() {
    let bytecode = vec![
        0x01, 0xcc, 0xbb, // LXI B, 0xbbcc
        0x11, 0xee, 0xdd, // LXI D, 0xddee
        0x21, 0x11, 0xff, // LXI H, 0xff11
        0x31, 0xbb, 0xaa, // LXI SP, 0xaabb
    ];
    let mut system = Emulator::new(Rom::new(bytecode));
    system.run(STEPS);
    assert_eq!(system.cpu.b, 0xbb);
    assert_eq!(system.cpu.c, 0xcc);
    assert_eq!(system.cpu.d, 0xdd);
    assert_eq!(system.cpu.e, 0xee);
    assert_eq!(system.cpu.h, 0xff);
    assert_eq!(system.cpu.l, 0x11);
    assert_eq!(system.cpu.sp, 0xaabb);
}

#[test]
fn data_transfer_ldax() {
    let bytecode = vec![
        0x0a, // LDAX B
        0x1a, // LDAX D
    ];
    let mut system = Emulator::new(Rom::new(bytecode));
    system.cpu.b = 0x20;
    system.cpu.d = 0x20;
    system.cpu.e = 0x01;
    system.interconnect.write_byte(0x2000, 0xaa).unwrap();
    system.interconnect.write_byte(0x2001, 0xbb).unwrap();
    system.step();
    assert_eq!(system.cpu.a, 0xaa);
    system.step();
    assert_eq!(system.cpu.a, 0xbb);
}

#[test]
fn data_transfer_mov() {
    let bytecode = vec![
        0x42, // MOV B, D
        0x4e, // MOV C, M
        0x77, // MOV M, A
    ];
    let mut system = Emulator::new(Rom::new(bytecode));
    system.cpu.d = 0xbd;
    system.cpu.a = 0xaa;
    system.cpu.h = 0x20;
    system.interconnect.write_byte(0x2000, 0xcc).unwrap();
    system.step();
    assert_eq!(system.cpu.b, 0xbd);
    system.step();
    assert_eq!(system.cpu.c, 0xcc);
    system.step();
    assert_eq!(system.interconnect.read_byte(0x2000), 0xaa);
}

#[test]
fn data_transfer_mvi() {
    let bytecode = vec![
        0x26, 0x20, // MVI H, 0x20
        0x36, 0xff, // MVI M, 0xff
    ];
    let mut system = Emulator::new(Rom::new(bytecode));
    system.run(STEPS);
    assert_eq!(system.cpu.h, 0x20);
    assert_eq!(system.interconnect.read_byte(0x2000), 0xff);
}

#[test]
fn data_transfer_push() {
    let bytecode = vec![
        0xd5, // PUSH D
        0xf5, // PUSH PSW
    ];
    let mut system = Emulator::new(Rom::new(bytecode));
    system.cpu.sp = 0x2400;
    system.cpu.d = 0x8f;
    system.cpu.e = 0x9d;
    system.cpu.a = 0x1f;
    system.cpu.flags.cy = true;
    system.cpu.flags.z = true;
    system.cpu.flags.p = true;
    system.run(STEPS);
    assert_eq!(system.interconnect.read_byte(0x2400 - 1), 0x8f);
    assert_eq!(system.interconnect.read_byte(0x2400 - 2), 0x9d);
    assert_eq!(system.interconnect.read_byte(0x2400 - 3), 0x1f);
    assert_eq!(system.interconnect.read_byte(0x2400 - 4), 0x47);
    assert_eq!(system.cpu.sp, 0x2400 - 4);
}

#[test]
fn data_transfer_pop() {
    let bytecode = vec![
        0xf5, // PUSH PSW
        0xc5, // PUSH B
        0xd1, // POP D
        0xf1, // POP PSW
    ];
    let mut system = Emulator::new(Rom::new(bytecode));
    system.cpu.sp = 0x2400;
    system.cpu.a = 0xaa;
    system.cpu.b = 0xbb;
    system.cpu.flags.cy = true;
    system.cpu.flags.p = true;
    system.step();
    system.step();
    system.cpu.flags = ConditionalFlags::new();
    system.step();
    assert_eq!(system.cpu.d, 0xbb);
    system.step();
    assert_eq!(
        system.cpu.flags,
        ConditionalFlags { z: false, s: false, ac: false, p: true, cy: true },
    );
    assert_eq!(system.cpu.sp, 0x2400);
}

#[test]
fn data_transfer_xchg() {
    let bytecode = vec![0xeb];
    let mut system = Emulator::new(Rom::new(bytecode));
    system.cpu.h = 0x00;
    system.cpu.l = 0xff;
    system.cpu.d = 0x33;
    system.cpu.e = 0x55;
    system.run(STEPS);
    assert_eq!(system.cpu.h, 0x33);
    assert_eq!(system.cpu.l, 0x55);
    assert_eq!(system.cpu.d, 0x00);
    assert_eq!(system.cpu.e, 0xff);
}

#[test]
fn xchg_twice_is_identity() {
    let bytecode = vec![0xeb, 0xeb];
    let mut system = Emulator::new(Rom::new(bytecode));
    system.cpu.h = 0x12;
    system.cpu.l = 0x34;
    system.cpu.d = 0x56;
    system.cpu.e = 0x78;
    system.run(STEPS);
    assert_eq!(system.cpu.h, 0x12);
    assert_eq!(system.cpu.l, 0x34);
    assert_eq!(system.cpu.d, 0x56);
    assert_eq!(system.cpu.e, 0x78);
}

#[test]
fn push_pop_round_trip() {
    let bytecode = vec![
        0xc5, // PUSH B
        0xc1, // POP B
    ];
    let mut system = Emulator::new(Rom::new(bytecode));
    system.cpu.sp = 0x2400;
    system.cpu.b = 0x12;
    system.cpu.c = 0x34;
    system.run(STEPS);
    assert_eq!(system.cpu.b, 0x12);
    assert_eq!(system.cpu.c, 0x34);
    assert_eq!(system.cpu.sp, 0x2400);
}

#[test]
fn sta_and_lda_round_trip() {
    let bytecode = vec![
        0x32, 0x00, 0x24, // STA 0x2400
        0x3e, 0x00, // MVI A, 0x00
        0x3a, 0x00, 0x24, // LDA 0x2400
    ];
    let mut system = Emulator::new(Rom::new(bytecode));
    system.cpu.a = 0x5a;
    system.run(STEPS);
    assert_eq!(system.interconnect.read_byte(0x2400), 0x5a);
    assert_eq!(system.cpu.a, 0x5a);
}

#[test]
fn stax_stores_through_a_pair() {
    let bytecode = vec![
        0x02, // STAX B
        0x12, // STAX D
    ];
    let mut system = Emulator::new(Rom::new(bytecode));
    system.cpu.a = 0x99;
    system.cpu.b = 0x20;
    system.cpu.c = 0x05;
    system.cpu.d = 0x24;
    system.cpu.e = 0x10;
    system.run(STEPS);
    assert_eq!(system.interconnect.read_byte(0x2005), 0x99);
    assert_eq!(system.interconnect.read_byte(0x2410), 0x99);
}

#[test]
fn shld_lhld_round_trip() {
    let bytecode = vec![
        0x22, 0x00, 0x24, // SHLD 0x2400
        0x21, 0x00, 0x00, // LXI H, 0x0000
        0x2a, 0x00, 0x24, // LHLD 0x2400
    ];
    let mut system = Emulator::new(Rom::new(bytecode));
    system.cpu.h = 0xab;
    system.cpu.l = 0xcd;
    system.run(STEPS);
    assert_eq!(system.interconnect.read_byte(0x2400), 0xcd);
    assert_eq!(system.interconnect.read_byte(0x2401), 0xab);
    assert_eq!((system.cpu.h, system.cpu.l), (0xab, 0xcd));
}

#[test]
fn xthl_swaps_with_the_stack_top() {
    let bytecode = vec![0xe3]; // XTHL
    let mut system = Emulator::new(Rom::new(bytecode));
    system.cpu.sp = 0x2400;
    system.cpu.h = 0x0b;
    system.cpu.l = 0x3c;
    system.interconnect.write_byte(0x2400, 0xf0).unwrap();
    system.interconnect.write_byte(0x2401, 0x0d).unwrap();
    system.step();
    assert_eq!((system.cpu.h, system.cpu.l), (0x0d, 0xf0));
    assert_eq!(system.interconnect.read_byte(0x2400), 0x3c);
    assert_eq!(system.interconnect.read_byte(0x2401), 0x0b);
    assert_eq!(system.cpu.sp, 0x2400);
}

#[test]
fn sphl_and_pchl_load_from_hl() {
    let bytecode = vec![
        0xf9, // SPHL
        0xe9, // PCHL
    ];
    let mut system = Emulator::new(Rom::new(bytecode));
    system.cpu.h = 0x50;
    system.cpu.l = 0x6c;
    system.step();
    assert_eq!(system.cpu.sp, 0x506c);
    system.step();
    assert_eq!(system.cpu.pc, 0x506c);
}

#[test]
fn shld_into_rom_is_refused() {
    let bytecode = vec![
        0x22, 0x00, 0x10, // SHLD 0x1000
    ];
    let mut system = Emulator::new(Rom::new(bytecode));
    system.cpu.h = 0xab;
    system.cpu.l = 0xcd;
    let r = system.try_step();
    assert!(r.is_err());
    assert_eq!(system.cpu.pc, 0x0000);
}
