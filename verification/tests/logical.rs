use emu8080::interconnect::rom::Rom;
use emu8080::Emulator;

#[test]
fn logical_cpi() {
    let bytecode = vec![
        0xfe, 0x6f, // CPI 0x6f
        0xfe, 0x5f, // CPI 0x5f
        0xfe, 0x4f, // CPI 0x4f
    ];
    let mut system = Emulator::new(Rom::new(bytecode));
    system.cpu.a = 0x5f;
    system.step();
    assert_eq!(system.cpu.flags.z, false);
    assert_eq!(system.cpu.flags.s, true);
    assert_eq!(system.cpu.flags.cy, true);
    system.step();
    assert_eq!(system.cpu.flags.z, true);
    assert_eq!(system.cpu.flags.s, false);
    assert_eq!(system.cpu.flags.cy, false);
    system.step();
    assert_eq!(system.cpu.flags.z, false);
    assert_eq!(system.cpu.flags.s, false);
    assert_eq!(system.cpu.flags.cy, false);
}

#[test]
fn logical_ani() {
    let bytecode = vec![
        0xe6, 0x0f, // ANI 0x0f
        0xe6, 0x22, // ANI 0x22
    ];
    let mut system = Emulator::new(Rom::new(bytecode));
    system.cpu.a = 0x3a;
    system.step();
    assert_eq!(system.cpu.a, 0x0a);
    assert_eq!(system.cpu.flags.p, true);
    assert_eq!(system.cpu.flags.z, false);
    assert_eq!(system.cpu.flags.cy, false);
    assert_eq!(system.cpu.flags.s, false);
    system.cpu.a = 0x69;
    system.step();
    assert_eq!(system.cpu.a, 0x20);
}

#[test]
fn logical_ana() {
    let bytecode = vec![
        0xa5, // ANA L
        0xa6, // ANA M
        0xa7, // ANA A
    ];
    let mut system = Emulator::new(Rom::new(bytecode));
    system.cpu.a = 0x0a;
    system.cpu.h = 0x20;
    system.cpu.l = 0xc5;
    system.interconnect.write_byte(0x20c5, 0xd4).unwrap();
    system.step();
    assert_eq!(system.cpu.a, 0x00);
    system.cpu.a = 0xff;
    system.step();
    assert_eq!(system.cpu.a, 0xd4);
    system.step();
    assert_eq!(system.cpu.a, 0xd4);
}

#[test]
fn logical_xra() {
    let bytecode = vec![
        0xad, // XRA L
        0xae, // XRA M
        0xaf, // XRA A
    ];
    let mut system = Emulator::new(Rom::new(bytecode));
    system.cpu.a = 0x0a;
    system.cpu.h = 0x20;
    system.cpu.l = 0xc5;
    system.interconnect.write_byte(0x20c5, 0xd4).unwrap();
    system.step();
    assert_eq!(system.cpu.a, 0xcf);
    system.step();
    assert_eq!(system.cpu.a, 0x1b);
    system.step();
    assert_eq!(system.cpu.a, 0x00);
}

#[test]
fn ora_clears_both_carries() {
    let bytecode = vec![
        0xb1, // ORA C
        0xf6, 0x0f, // ORI 0x0f
    ];
    let mut system = Emulator::new(Rom::new(bytecode));
    system.cpu.a = 0x33;
    system.cpu.c = 0x0f;
    system.cpu.flags.cy = true;
    system.cpu.flags.ac = true;
    system.step();
    assert_eq!(system.cpu.a, 0x3f);
    assert_eq!(system.cpu.flags.cy, false);
    assert_eq!(system.cpu.flags.ac, false);

    system.step();
    assert_eq!(system.cpu.a, 0x3f);
    assert_eq!(system.cpu.flags.p, true);
}

#[test]
fn cmp_leaves_the_accumulator() {
    let bytecode = vec![
        0xbb, // CMP E
        0xb8, // CMP B
    ];
    let mut system = Emulator::new(Rom::new(bytecode));
    system.cpu.a = 0x0a;
    system.cpu.e = 0x05;
    system.cpu.b = 0x0b;
    system.step();
    assert_eq!(system.cpu.a, 0x0a);
    assert_eq!(system.cpu.flags.cy, false);
    assert_eq!(system.cpu.flags.z, false);

    system.step();
    assert_eq!(system.cpu.a, 0x0a);
    assert_eq!(system.cpu.flags.cy, true);
    assert_eq!(system.cpu.flags.z, false);
}

#[test]
fn xri_flips_bits() {
    let bytecode = vec![
        0xee, 0x81, // XRI 0x81
    ];
    let mut system = Emulator::new(Rom::new(bytecode));
    system.cpu.a = 0x3b;
    system.step();
    assert_eq!(system.cpu.a, 0xba);
    assert_eq!(system.cpu.flags.s, true);
    assert_eq!(system.cpu.flags.cy, false);
}
