use emu8080::i8080::error::EmulateError;
use emu8080::i8080::I8080;
use emu8080::instruction::Instruction;
use emu8080::interconnect::rom::Rom;
use emu8080::interconnect::Interconnect;
use emu8080::opcode::Opcode;
use emu8080::register::Register;
use emu8080::Emulator;

#[test]
fn writes_to_rom_are_rejected() {
    let mut ic = Interconnect::new(Rom::new(vec![0xaa, 0xbb]));
    // Every address of the ROM region refuses writes and keeps its byte.
    assert!(matches!(ic.write_byte(0x0000, 0x55), Err(EmulateError::WriteToROM)));
    assert!(matches!(ic.write_byte(0x1fff, 0x55), Err(EmulateError::WriteToROM)));
    assert_eq!(ic.read_byte(0x0000), 0xaa);
    assert_eq!(ic.read_byte(0x0001), 0xbb);
}

#[test]
fn ram_reads_back_what_was_written() {
    let mut ic = Interconnect::new(Rom::new(vec![]));
    ic.write_byte(0x2000, 0x11).unwrap();
    ic.write_byte(0x23ff, 0x22).unwrap();
    ic.write_byte(0x2400, 0x33).unwrap();
    ic.write_byte(0x3fff, 0x44).unwrap();
    assert_eq!(ic.read_byte(0x2000), 0x11);
    assert_eq!(ic.read_byte(0x23ff), 0x22);
    assert_eq!(ic.read_byte(0x2400), 0x33);
    assert_eq!(ic.read_byte(0x3fff), 0x44);
}

#[test]
fn unmapped_addresses_read_zero_and_ignore_writes() {
    let mut ic = Interconnect::new(Rom::new(vec![]));
    assert_eq!(ic.read_byte(0x4000), 0);
    assert_eq!(ic.read_byte(0xffff), 0);
    assert!(ic.write_byte(0x4000, 0x99).is_ok());
    assert_eq!(ic.read_byte(0x4000), 0);
}

#[test]
fn short_rom_reads_zero_beyond_its_end() {
    let ic = Interconnect::new(Rom::new(vec![0x01]));
    assert_eq!(ic.read_byte(0x0000), 0x01);
    assert_eq!(ic.read_byte(0x0001), 0x00);
    assert_eq!(ic.read_byte(0x1fff), 0x00);
    assert_eq!(ic.rom_len(), 1);
}

#[test]
fn sta_into_rom_faults_and_changes_nothing() {
    let bytecode = vec![
        0x32, 0x00, 0x10, // STA 0x1000
    ];
    let mut system = Emulator::new(Rom::new(bytecode));
    system.cpu.a = 0x5a;
    let r = system.try_step();
    assert!(matches!(r, Err(EmulateError::WriteToROM)));
    // The failing instruction commits nothing: even the program counter
    // stays.
    assert_eq!(system.cpu.pc, 0x0000);
    assert_eq!(system.interconnect.read_byte(0x1000), 0x00);
}

#[test]
fn push_below_writable_memory_overflows() {
    let bytecode = vec![0xc5]; // PUSH B
    let mut system = Emulator::new(Rom::new(bytecode));
    system.cpu.sp = 0x2001;
    let r = system.try_step();
    assert!(matches!(r, Err(EmulateError::StackOverflow)));
    assert_eq!(system.cpu.sp, 0x2001);
    assert_eq!(system.cpu.pc, 0x0000);
}

#[test]
fn byte_access_to_m_or_sp_is_refused() {
    let cpu = I8080::new();
    assert!(matches!(
        cpu.get_8bit_register(Register::M),
        Err(EmulateError::RegisterNot8Bit { register: Register::M })
    ));
    assert!(matches!(
        cpu.get_8bit_register(Register::SP),
        Err(EmulateError::RegisterNot8Bit { register: Register::SP })
    ));
    assert_eq!(cpu.get_8bit_register(Register::A).unwrap(), 0);

    let mut cpu = I8080::new();
    assert!(matches!(
        cpu.set_8bit_register(Register::M, 1),
        Err(EmulateError::RegisterNot8Bit { register: Register::M })
    ));
    cpu.set_8bit_register(Register::B, 7).unwrap();
    assert_eq!(cpu.b, 7);
}

#[test]
fn unsupported_registers_are_refused() {
    let mut system = Emulator::new(Rom::new(vec![]));
    let Emulator { cpu, interconnect } = &mut system;

    // LXI accepts only B, D, H and SP.
    let i = Instruction::new_trinary(Opcode::LXI(Register::A), 0x1234).unwrap();
    assert!(matches!(
        cpu.emulate_instruction(i, interconnect),
        Err(EmulateError::UnsupportedRegister { register: Register::A, .. })
    ));

    // MVI never takes SP.
    let i = Instruction::new_binary(Opcode::MVI(Register::SP), 0x12).unwrap();
    assert!(matches!(
        cpu.emulate_instruction(i, interconnect),
        Err(EmulateError::UnsupportedRegister { register: Register::SP, .. })
    ));

    // LDAX addresses through BC or DE only.
    let i = Instruction::new_unary(Opcode::LDAX(Register::H)).unwrap();
    assert!(matches!(
        cpu.emulate_instruction(i, interconnect),
        Err(EmulateError::UnsupportedRegister { register: Register::H, .. })
    ));
}

#[test]
fn mismatched_immediates_are_refused() {
    // The constructors refuse data that does not fit the opcode's size.
    assert!(matches!(
        Instruction::new_binary(Opcode::NOP, 0x12),
        Err(EmulateError::InvalidInstructionData { .. })
    ));
    assert!(matches!(
        Instruction::new_unary(Opcode::JMP),
        Err(EmulateError::InvalidInstructionData { .. })
    ));
    assert!(matches!(
        Instruction::new_trinary(Opcode::ADI, 0x1234),
        Err(EmulateError::InvalidInstructionData { .. })
    ));
    assert!(Instruction::new_trinary(Opcode::JMP, 0x1234).is_ok());
}

#[test]
fn unimplemented_opcodes_fault() {
    let mut system = Emulator::new(Rom::new(vec![]));
    let Emulator { cpu, interconnect } = &mut system;
    let i = Instruction::new_unary(Opcode::DAA).unwrap();
    assert!(matches!(
        cpu.emulate_instruction(i, interconnect),
        Err(EmulateError::UnimplementedInstruction { .. })
    ));
    // The machine is untouched.
    assert_eq!(cpu.pc, 0x0000);
}

#[test]
fn try_run_surfaces_the_first_error() {
    let bytecode = vec![
        0x3e, 0x5a, // MVI A, 0x5a
        0x32, 0x00, 0x00, // STA 0x0000
    ];
    let mut system = Emulator::new(Rom::new(bytecode));
    let r = system.try_run(1000);
    assert!(matches!(r, Err(EmulateError::WriteToROM)));
    assert_eq!(system.cpu.a, 0x5a);
    assert_eq!(system.cpu.pc, 0x0002);
}

#[test]
fn emulator_accessors_reach_both_halves() {
    let mut system = Emulator::new(Rom::new(vec![0x00]));
    system.cpu_mut().a = 0x42;
    assert_eq!(system.cpu().a, 0x42);
    system.interconnect_mut().write_byte(0x2000, 0x17).unwrap();
    assert_eq!(system.interconnect().read_byte(0x2000), 0x17);
    assert!(system.next_instruction().is_some());
    system.cpu_mut().pc = 0x0001;
    assert!(system.next_instruction().is_none());
}
