use emu8080::disassembler::Disassembler;
use emu8080::i8080::I8080;
use emu8080::instruction::{Instruction, InstructionData};
use emu8080::opcode::{Opcode, OpcodeSize};
use emu8080::register::Register;

#[test]
fn decode_covers_the_canonical_table() {
    assert_eq!(Opcode::decode(0x00), Opcode::NOP);
    assert_eq!(Opcode::decode(0x01), Opcode::LXI(Register::B));
    assert_eq!(Opcode::decode(0x36), Opcode::MVI(Register::M));
    assert_eq!(Opcode::decode(0x42), Opcode::MOV(Register::B, Register::D));
    assert_eq!(Opcode::decode(0x76), Opcode::HLT);
    assert_eq!(Opcode::decode(0x80), Opcode::ADD(Register::B));
    assert_eq!(Opcode::decode(0x9e), Opcode::SBB(Register::M));
    assert_eq!(Opcode::decode(0xc3), Opcode::JMP);
    assert_eq!(Opcode::decode(0xcd), Opcode::CALL);
    assert_eq!(Opcode::decode(0xf5), Opcode::PUSH(Register::A));
    assert_eq!(Opcode::decode(0xff), Opcode::RST(7));
    // Bytes the 8080 leaves undefined decode to NOP.
    assert_eq!(Opcode::decode(0x08), Opcode::NOP);
    assert_eq!(Opcode::decode(0xcb), Opcode::NOP);
    assert_eq!(Opcode::decode(0xdd), Opcode::NOP);
}

#[test]
fn every_byte_decodes_with_its_canonical_length() {
    // The canonical size table, written over byte patterns, agrees with
    // the decoder on all 256 bytes.
    let mut b: u16 = 0;
    while b <= 0xff {
        let byte = b as u8;
        let got = Opcode::decode(byte).size().as_u16();
        let expected: u16 = if byte < 0x40 {
            if byte % 8 == 6 {
                2
            } else if byte % 16 == 1 || byte == 0x22 || byte == 0x2a || byte == 0x32 || byte == 0x3a
            {
                3
            } else {
                1
            }
        } else if byte < 0xc0 {
            1
        } else if byte % 8 == 2 || byte % 8 == 4 || byte == 0xc3 || byte == 0xcd {
            3
        } else if byte % 8 == 6 || byte == 0xd3 || byte == 0xdb {
            2
        } else {
            1
        };
        assert_eq!(got, expected, "byte 0x{:02x}", byte);
        b += 1;
    }
}

#[test]
fn opcode_sizes_follow_the_family() {
    assert_eq!(Opcode::LXI(Register::B).size(), OpcodeSize::Trinary);
    assert_eq!(Opcode::MVI(Register::A).size(), OpcodeSize::Binary);
    assert_eq!(Opcode::NOP.size(), OpcodeSize::Unary);
    assert_eq!(OpcodeSize::Unary.as_u16(), 1);
    assert_eq!(OpcodeSize::Binary.as_u16(), 2);
    assert_eq!(OpcodeSize::Trinary.as_u16(), 3);
    assert_eq!(Opcode::MOV(Register::A, Register::B).num_registers(), 2);
    assert_eq!(Opcode::PUSH(Register::B).num_registers(), 1);
    assert_eq!(Opcode::RET.num_registers(), 0);
}

#[test]
fn instruction_constructors_keep_their_data() {
    let i = Instruction::new_trinary(Opcode::JMP, 0xbbcc).unwrap();
    assert_eq!(i.len(), 3);
    assert_eq!(i.opcode(), Opcode::JMP);
    assert_eq!(i.data().addr(), Some(0xbbcc));
    assert_eq!(i.data().tuple(), (Some(0xbb), Some(0xcc)));

    let i = Instruction::new_binary(Opcode::ADI, 0x42).unwrap();
    assert_eq!(i.len(), 2);
    assert_eq!(i.data().first(), Some(0x42));
    assert_eq!(i.data().addr(), None);

    let i = Instruction::new_unary(Opcode::NOP).unwrap();
    assert_eq!(i.len(), 1);
    assert_eq!(i.data().tuple(), (None, None));
}

#[test]
fn instruction_data_normalizes_a_lone_second_byte() {
    let d = InstructionData::new(None, Some(0x7e));
    assert_eq!(d.tuple(), (Some(0x7e), None));
    let d = InstructionData::new(Some(0x11), Some(0x22));
    assert_eq!(d.tuple(), (Some(0x11), Some(0x22)));
}

#[test]
fn register_pairs_and_widths() {
    assert_eq!(Register::B.get_pair(), Some(Register::C));
    assert_eq!(Register::D.get_pair(), Some(Register::E));
    assert_eq!(Register::H.get_pair(), Some(Register::L));
    assert_eq!(Register::A.get_pair(), None);
    assert_eq!(Register::SP.get_pair(), None);
    assert!(Register::A.is_8bit());
    assert!(Register::L.is_8bit());
    assert!(!Register::M.is_8bit());
    assert!(!Register::SP.is_8bit());
}

#[test]
fn cpu_accessors_mirror_the_registers() {
    let mut cpu = I8080::new();
    assert!(cpu.interrupts_enabled());
    cpu.h = 0x12;
    cpu.l = 0x34;
    assert_eq!(cpu.m(), 0x1234);
    cpu.set_m(0xbeef);
    assert_eq!((cpu.h, cpu.l), (0xbe, 0xef));
    cpu.set_sp(0x2400);
    assert_eq!(cpu.sp(), 0x2400);
    cpu.set_pc(0x0100);
    assert_eq!(cpu.pc(), 0x0100);
    assert_eq!(cpu.flags().cy, false);
    assert_eq!(cpu.get_8bit_register(Register::H).unwrap(), 0xbe);
}

#[test]
fn disassembler_walks_the_image() {
    let buf = vec![
        0x01, 0xcc, 0xbb, // LXI B, 0xbbcc
        0x0f, // RRC
        0x3e, // MVI A with its immediate cut off by the image's end
    ];
    let mut dis = Disassembler::new(buf);
    assert_eq!(dis.pc(), 0);
    assert_eq!(dis.value_at(0), 0x01);

    let i = dis.next_instruction().unwrap();
    assert_eq!(i.opcode(), Opcode::LXI(Register::B));
    assert_eq!(i.data().addr(), Some(0xbbcc));
    assert_eq!(dis.pc(), 3);

    let i = dis.next_instruction().unwrap();
    assert_eq!(i.opcode(), Opcode::RRC);
    assert_eq!(dis.pc(), 4);

    // The immediate past the end reads as zero, as a short ROM would.
    let i = dis.next_instruction().unwrap();
    assert_eq!(i.opcode(), Opcode::MVI(Register::A));
    assert_eq!(i.data().first(), Some(0x00));
    assert_eq!(dis.pc(), 6);

    assert!(dis.next_instruction().is_none());

    dis.update_pc(3);
    assert_eq!(dis.pc(), 3);
    assert_eq!(dis.next_instruction().unwrap().opcode(), Opcode::RRC);
}
