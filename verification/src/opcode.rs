//! The 8080 opcode set and the total decoder over all 256 opcode bytes.

use vstd::prelude::*;

use crate::register::Register;

verus! {

/// A decoded 8080 operation. Register operands embedded in the opcode byte
/// are carried inside the variant; `RST` carries its restart number 0..=7.
#[derive(Clone, Copy, Debug, PartialEq, Eq, Structural)]
pub enum Opcode {
    NOP,
    LXI(Register),
    STAX(Register),
    INX(Register),
    INR(Register),
    DCR(Register),
    MVI(Register),
    DAD(Register),
    LDAX(Register),
    DCX(Register),
    MOV(Register, Register),
    PUSH(Register),
    POP(Register),
    ADD(Register),
    ADC(Register),
    SUB(Register),
    SBB(Register),
    ANA(Register),
    XRA(Register),
    ORA(Register),
    CMP(Register),
    RLC,
    RRC,
    RAL,
    RAR,
    RIM,
    SHLD,
    LHLD,
    DAA,
    CMA,
    SIM,
    STA,
    STC,
    LDA,
    CMC,
    RNZ,
    JNZ,
    JMP,
    CNZ,
    ADI,
    RST(u8),
    RZ,
    RET,
    HLT,
    JZ,
    CZ,
    CALL,
    ACI,
    RNC,
    JNC,
    OUT,
    CNC,
    SUI,
    RC,
    JC,
    IN,
    CC,
    SBI,
    RPO,
    JPO,
    XTHL,
    CPO,
    ANI,
    RPE,
    PCHL,
    JPE,
    XCHG,
    CPE,
    XRI,
    RP,
    JP,
    DI,
    CP,
    ORI,
    RM,
    SPHL,
    JM,
    EI,
    CM,
    CPI,
}

/// How many bytes an instruction occupies: the opcode byte alone, one
/// immediate byte, or two immediate bytes.
#[derive(Clone, Copy, Debug, PartialEq, Eq, Structural)]
pub enum OpcodeSize {
    Unary,
    Binary,
    Trinary,
}

/// The canonical 8080 decode table. Bytes the 8080 leaves undefined map
/// to `NOP`.
pub open spec fn spec_decode(byte: u8) -> Opcode {
    match byte {
            0x00 => Opcode::NOP,
            0x01 => Opcode::LXI(Register::B),
            0x02 => Opcode::STAX(Register::B),
            0x03 => Opcode::INX(Register::B),
            0x04 => Opcode::INR(Register::B),
            0x05 => Opcode::DCR(Register::B),
            0x06 => Opcode::MVI(Register::B),
            0x07 => Opcode::RLC,
            0x09 => Opcode::DAD(Register::B),
            0x0a => Opcode::LDAX(Register::B),
            0x0b => Opcode::DCX(Register::B),
            0x0c => Opcode::INR(Register::C),
            0x0d => Opcode::DCR(Register::C),
            0x0e => Opcode::MVI(Register::C),
            0x0f => Opcode::RRC,
            0x11 => Opcode::LXI(Register::D),
            0x12 => Opcode::STAX(Register::D),
            0x13 => Opcode::INX(Register::D),
            0x14 => Opcode::INR(Register::D),
            0x15 => Opcode::DCR(Register::D),
            0x16 => Opcode::MVI(Register::D),
            0x17 => Opcode::RAL,
            0x19 => Opcode::DAD(Register::D),
            0x1a => Opcode::LDAX(Register::D),
            0x1b => Opcode::DCX(Register::D),
            0x1c => Opcode::INR(Register::E),
            0x1d => Opcode::DCR(Register::E),
            0x1e => Opcode::MVI(Register::E),
            0x1f => Opcode::RAR,
            0x20 => Opcode::RIM,
            0x21 => Opcode::LXI(Register::H),
            0x22 => Opcode::SHLD,
            0x23 => Opcode::INX(Register::H),
            0x24 => Opcode::INR(Register::H),
            0x25 => Opcode::DCR(Register::H),
            0x26 => Opcode::MVI(Register::H),
            0x27 => Opcode::DAA,
            0x29 => Opcode::DAD(Register::H),
            0x2a => Opcode::LHLD,
            0x2b => Opcode::DCX(Register::H),
            0x2c => Opcode::INR(Register::L),
            0x2d => Opcode::DCR(Register::L),
            0x2e => Opcode::MVI(Register::L),
            0x2f => Opcode::CMA,
            0x30 => Opcode::SIM,
            0x31 => Opcode::LXI(Register::SP),
            0x32 => Opcode::STA,
            0x33 => Opcode::INX(Register::SP),
            0x34 => Opcode::INR(Register::M),
            0x35 => Opcode::DCR(Register::M),
            0x36 => Opcode::MVI(Register::M),
            0x37 => Opcode::STC,
            0x39 => Opcode::DAD(Register::SP),
            0x3a => Opcode::LDA,
            0x3b => Opcode::DCX(Register::SP),
            0x3c => Opcode::INR(Register::A),
            0x3d => Opcode::DCR(Register::A),
            0x3e => Opcode::MVI(Register::A),
            0x3f => Opcode::CMC,
            0x40 => Opcode::MOV(Register::B, Register::B),
            0x41 => Opcode::MOV(Register::B, Register::C),
            0x42 => Opcode::MOV(Register::B, Register::D),
            0x43 => Opcode::MOV(Register::B, Register::E),
            0x44 => Opcode::MOV(Register::B, Register::H),
            0x45 => Opcode::MOV(Register::B, Register::L),
            0x46 => Opcode::MOV(Register::B, Register::M),
            0x47 => Opcode::MOV(Register::B, Register::A),
            0x48 => Opcode::MOV(Register::C, Register::B),
            0x49 => Opcode::MOV(Register::C, Register::C),
            0x4a => Opcode::MOV(Register::C, Register::D),
            0x4b => Opcode::MOV(Register::C, Register::E),
            0x4c => Opcode::MOV(Register::C, Register::H),
            0x4d => Opcode::MOV(Register::C, Register::L),
            0x4e => Opcode::MOV(Register::C, Register::M),
            0x4f => Opcode::MOV(Register::C, Register::A),
            0x50 => Opcode::MOV(Register::D, Register::B),
            0x51 => Opcode::MOV(Register::D, Register::C),
            0x52 => Opcode::MOV(Register::D, Register::D),
            0x53 => Opcode::MOV(Register::D, Register::E),
            0x54 => Opcode::MOV(Register::D, Register::H),
            0x55 => Opcode::MOV(Register::D, Register::L),
            0x56 => Opcode::MOV(Register::D, Register::M),
            0x57 => Opcode::MOV(Register::D, Register::A),
            0x58 => Opcode::MOV(Register::E, Register::B),
            0x59 => Opcode::MOV(Register::E, Register::C),
            0x5a => Opcode::MOV(Register::E, Register::D),
            0x5b => Opcode::MOV(Register::E, Register::E),
            0x5c => Opcode::MOV(Register::E, Register::H),
            0x5d => Opcode::MOV(Register::E, Register::L),
            0x5e => Opcode::MOV(Register::E, Register::M),
            0x5f => Opcode::MOV(Register::E, Register::A),
            0x60 => Opcode::MOV(Register::H, Register::B),
            0x61 => Opcode::MOV(Register::H, Register::C),
            0x62 => Opcode::MOV(Register::H, Register::D),
            0x63 => Opcode::MOV(Register::H, Register::E),
            0x64 => Opcode::MOV(Register::H, Register::H),
            0x65 => Opcode::MOV(Register::H, Register::L),
            0x66 => Opcode::MOV(Register::H, Register::M),
            0x67 => Opcode::MOV(Register::H, Register::A),
            0x68 => Opcode::MOV(Register::L, Register::B),
            0x69 => Opcode::MOV(Register::L, Register::C),
            0x6a => Opcode::MOV(Register::L, Register::D),
            0x6b => Opcode::MOV(Register::L, Register::E),
            0x6c => Opcode::MOV(Register::L, Register::H),
            0x6d => Opcode::MOV(Register::L, Register::L),
            0x6e => Opcode::MOV(Register::L, Register::M),
            0x6f => Opcode::MOV(Register::L, Register::A),
            0x70 => Opcode::MOV(Register::M, Register::B),
            0x71 => Opcode::MOV(Register::M, Register::C),
            0x72 => Opcode::MOV(Register::M, Register::D),
            0x73 => Opcode::MOV(Register::M, Register::E),
            0x74 => Opcode::MOV(Register::M, Register::H),
            0x75 => Opcode::MOV(Register::M, Register::L),
            0x76 => Opcode::HLT,
            0x77 => Opcode::MOV(Register::M, Register::A),
            0x78 => Opcode::MOV(Register::A, Register::B),
            0x79 => Opcode::MOV(Register::A, Register::C),
            0x7a => Opcode::MOV(Register::A, Register::D),
            0x7b => Opcode::MOV(Register::A, Register::E),
            0x7c => Opcode::MOV(Register::A, Register::H),
            0x7d => Opcode::MOV(Register::A, Register::L),
            0x7e => Opcode::MOV(Register::A, Register::M),
            0x7f => Opcode::MOV(Register::A, Register::A),
            0x80 => Opcode::ADD(Register::B),
            0x81 => Opcode::ADD(Register::C),
            0x82 => Opcode::ADD(Register::D),
            0x83 => Opcode::ADD(Register::E),
            0x84 => Opcode::ADD(Register::H),
            0x85 => Opcode::ADD(Register::L),
            0x86 => Opcode::ADD(Register::M),
            0x87 => Opcode::ADD(Register::A),
            0x88 => Opcode::ADC(Register::B),
            0x89 => Opcode::ADC(Register::C),
            0x8a => Opcode::ADC(Register::D),
            0x8b => Opcode::ADC(Register::E),
            0x8c => Opcode::ADC(Register::H),
            0x8d => Opcode::ADC(Register::L),
            0x8e => Opcode::ADC(Register::M),
            0x8f => Opcode::ADC(Register::A),
            0x90 => Opcode::SUB(Register::B),
            0x91 => Opcode::SUB(Register::C),
            0x92 => Opcode::SUB(Register::D),
            0x93 => Opcode::SUB(Register::E),
            0x94 => Opcode::SUB(Register::H),
            0x95 => Opcode::SUB(Register::L),
            0x96 => Opcode::SUB(Register::M),
            0x97 => Opcode::SUB(Register::A),
            0x98 => Opcode::SBB(Register::B),
            0x99 => Opcode::SBB(Register::C),
            0x9a => Opcode::SBB(Register::D),
            0x9b => Opcode::SBB(Register::E),
            0x9c => Opcode::SBB(Register::H),
            0x9d => Opcode::SBB(Register::L),
            0x9e => Opcode::SBB(Register::M),
            0x9f => Opcode::SBB(Register::A),
            0xa0 => Opcode::ANA(Register::B),
            0xa1 => Opcode::ANA(Register::C),
            0xa2 => Opcode::ANA(Register::D),
            0xa3 => Opcode::ANA(Register::E),
            0xa4 => Opcode::ANA(Register::H),
            0xa5 => Opcode::ANA(Register::L),
            0xa6 => Opcode::ANA(Register::M),
            0xa7 => Opcode::ANA(Register::A),
            0xa8 => Opcode::XRA(Register::B),
            0xa9 => Opcode::XRA(Register::C),
            0xaa => Opcode::XRA(Register::D),
            0xab => Opcode::XRA(Register::E),
            0xac => Opcode::XRA(Register::H),
            0xad => Opcode::XRA(Register::L),
            0xae => Opcode::XRA(Register::M),
            0xaf => Opcode::XRA(Register::A),
            0xb0 => Opcode::ORA(Register::B),
            0xb1 => Opcode::ORA(Register::C),
            0xb2 => Opcode::ORA(Register::D),
            0xb3 => Opcode::ORA(Register::E),
            0xb4 => Opcode::ORA(Register::H),
            0xb5 => Opcode::ORA(Register::L),
            0xb6 => Opcode::ORA(Register::M),
            0xb7 => Opcode::ORA(Register::A),
            0xb8 => Opcode::CMP(Register::B),
            0xb9 => Opcode::CMP(Register::C),
            0xba => Opcode::CMP(Register::D),
            0xbb => Opcode::CMP(Register::E),
            0xbc => Opcode::CMP(Register::H),
            0xbd => Opcode::CMP(Register::L),
            0xbe => Opcode::CMP(Register::M),
            0xbf => Opcode::CMP(Register::A),
            0xc0 => Opcode::RNZ,
            0xc1 => Opcode::POP(Register::B),
            0xc2 => Opcode::JNZ,
            0xc3 => Opcode::JMP,
            0xc4 => Opcode::CNZ,
            0xc5 => Opcode::PUSH(Register::B),
            0xc6 => Opcode::ADI,
            0xc7 => Opcode::RST(0),
            0xc8 => Opcode::RZ,
            0xc9 => Opcode::RET,
            0xca => Opcode::JZ,
            0xcc => Opcode::CZ,
            0xcd => Opcode::CALL,
            0xce => Opcode::ACI,
            0xcf => Opcode::RST(1),
            0xd0 => Opcode::RNC,
            0xd1 => Opcode::POP(Register::D),
            0xd2 => Opcode::JNC,
            0xd3 => Opcode::OUT,
            0xd4 => Opcode::CNC,
            0xd5 => Opcode::PUSH(Register::D),
            0xd6 => Opcode::SUI,
            0xd7 => Opcode::RST(2),
            0xd8 => Opcode::RC,
            0xda => Opcode::JC,
            0xdb => Opcode::IN,
            0xdc => Opcode::CC,
            0xde => Opcode::SBI,
            0xdf => Opcode::RST(3),
            0xe0 => Opcode::RPO,
            0xe1 => Opcode::POP(Register::H),
            0xe2 => Opcode::JPO,
            0xe3 => Opcode::XTHL,
            0xe4 => Opcode::CPO,
            0xe5 => Opcode::PUSH(Register::H),
            0xe6 => Opcode::ANI,
            0xe7 => Opcode::RST(4),
            0xe8 => Opcode::RPE,
            0xe9 => Opcode::PCHL,
            0xea => Opcode::JPE,
            0xeb => Opcode::XCHG,
            0xec => Opcode::CPE,
            0xee => Opcode::XRI,
            0xef => Opcode::RST(5),
            0xf0 => Opcode::RP,
            0xf1 => Opcode::POP(Register::A),
            0xf2 => Opcode::JP,
            0xf3 => Opcode::DI,
            0xf4 => Opcode::CP,
            0xf5 => Opcode::PUSH(Register::A),
            0xf6 => Opcode::ORI,
            0xf7 => Opcode::RST(6),
            0xf8 => Opcode::RM,
            0xf9 => Opcode::SPHL,
            0xfa => Opcode::JM,
            0xfb => Opcode::EI,
            0xfc => Opcode::CM,
            0xfe => Opcode::CPI,
            0xff => Opcode::RST(7),
            _ => Opcode::NOP,
    }
}

/// The size of each mnemonic family, from the canonical 8080 table.
pub open spec fn spec_size(op: Opcode) -> OpcodeSize {
    match op {
        Opcode::LXI(_) => OpcodeSize::Trinary,
        Opcode::MVI(_) => OpcodeSize::Binary,
        Opcode::SHLD => OpcodeSize::Trinary,
        Opcode::LHLD => OpcodeSize::Trinary,
        Opcode::STA => OpcodeSize::Trinary,
        Opcode::LDA => OpcodeSize::Trinary,
        Opcode::JNZ => OpcodeSize::Trinary,
        Opcode::JMP => OpcodeSize::Trinary,
        Opcode::CNZ => OpcodeSize::Trinary,
        Opcode::ADI => OpcodeSize::Binary,
        Opcode::JZ => OpcodeSize::Trinary,
        Opcode::CZ => OpcodeSize::Trinary,
        Opcode::CALL => OpcodeSize::Trinary,
        Opcode::ACI => OpcodeSize::Binary,
        Opcode::JNC => OpcodeSize::Trinary,
        Opcode::OUT => OpcodeSize::Binary,
        Opcode::CNC => OpcodeSize::Trinary,
        Opcode::SUI => OpcodeSize::Binary,
        Opcode::JC => OpcodeSize::Trinary,
        Opcode::IN => OpcodeSize::Binary,
        Opcode::CC => OpcodeSize::Trinary,
        Opcode::SBI => OpcodeSize::Binary,
        Opcode::JPO => OpcodeSize::Trinary,
        Opcode::CPO => OpcodeSize::Trinary,
        Opcode::ANI => OpcodeSize::Binary,
        Opcode::JPE => OpcodeSize::Trinary,
        Opcode::CPE => OpcodeSize::Trinary,
        Opcode::XRI => OpcodeSize::Binary,
        Opcode::JP => OpcodeSize::Trinary,
        Opcode::CP => OpcodeSize::Trinary,
        Opcode::ORI => OpcodeSize::Binary,
        Opcode::JM => OpcodeSize::Trinary,
        Opcode::CM => OpcodeSize::Trinary,
        Opcode::CPI => OpcodeSize::Binary,
        _ => OpcodeSize::Unary,
    }
}

/// The number of bytes an opcode's instruction occupies.
pub open spec fn spec_size_bytes(op: Opcode) -> u16 {
    match spec_size(op) {
        OpcodeSize::Unary => 1,
        OpcodeSize::Binary => 2,
        OpcodeSize::Trinary => 3,
    }
}

/// The instruction length the 8080 manual assigns to each opcode byte,
/// written over the byte's bit patterns alone: immediate-load and direct
/// address forms in the first quarter, the MOV and arithmetic blocks in
/// the middle half, and the branch/immediate forms in the last quarter.
/// Bytes the 8080 leaves undefined count one byte, as a `NOP` does.
pub open spec fn canonical_length(b: u8) -> u16 {
    if b < 0x40 {
        if b % 8 == 6 {
            2
        } else if b % 16 == 1 || b == 0x22 || b == 0x2a || b == 0x32 || b == 0x3a {
            3
        } else {
            1
        }
    } else if b < 0xc0 {
        1
    } else {
        if b % 8 == 2 || b % 8 == 4 || b == 0xc3 || b == 0xcd {
            3
        } else if b % 8 == 6 || b == 0xd3 || b == 0xdb {
            2
        } else {
            1
        }
    }
}

/// The ten opcode bytes with no entry in the decode table: the 8080
/// leaves them undefined, so they fall to the table's `NOP` policy.
pub open spec fn undefined_byte(b: u8) -> bool {
    b == 0x08 || b == 0x10 || b == 0x18 || b == 0x28 || b == 0x38 || b == 0xcb || b == 0xd9 || b
        == 0xdd || b == 0xed || b == 0xfd
}

/// Decoding is total — `spec_decode` yields an opcode for every byte, and
/// the executable decoder is verified against it without a panic path.
/// The length the decoder assigns to each byte agrees with the canonical
/// 8080 size table, and every byte the 8080 leaves undefined decodes to a
/// one-byte `NOP`, this engine's policy.
pub proof fn lemma_decode_length(b: u8)
    ensures
        spec_size_bytes(spec_decode(b)) == canonical_length(b),
        undefined_byte(b) ==> spec_decode(b) == Opcode::NOP,
{
}

impl Opcode {
    /// Decodes one opcode byte; bytes undefined on the 8080 become `NOP`.
    pub fn decode(byte: u8) -> (op: Opcode)
        ensures
            op == spec_decode(byte),
    {
        match byte {
            0x00 => Opcode::NOP,
            0x01 => Opcode::LXI(Register::B),
            0x02 => Opcode::STAX(Register::B),
            0x03 => Opcode::INX(Register::B),
            0x04 => Opcode::INR(Register::B),
            0x05 => Opcode::DCR(Register::B),
            0x06 => Opcode::MVI(Register::B),
            0x07 => Opcode::RLC,
            0x09 => Opcode::DAD(Register::B),
            0x0a => Opcode::LDAX(Register::B),
            0x0b => Opcode::DCX(Register::B),
            0x0c => Opcode::INR(Register::C),
            0x0d => Opcode::DCR(Register::C),
            0x0e => Opcode::MVI(Register::C),
            0x0f => Opcode::RRC,
            0x11 => Opcode::LXI(Register::D),
            0x12 => Opcode::STAX(Register::D),
            0x13 => Opcode::INX(Register::D),
            0x14 => Opcode::INR(Register::D),
            0x15 => Opcode::DCR(Register::D),
            0x16 => Opcode::MVI(Register::D),
            0x17 => Opcode::RAL,
            0x19 => Opcode::DAD(Register::D),
            0x1a => Opcode::LDAX(Register::D),
            0x1b => Opcode::DCX(Register::D),
            0x1c => Opcode::INR(Register::E),
            0x1d => Opcode::DCR(Register::E),
            0x1e => Opcode::MVI(Register::E),
            0x1f => Opcode::RAR,
            0x20 => Opcode::RIM,
            0x21 => Opcode::LXI(Register::H),
            0x22 => Opcode::SHLD,
            0x23 => Opcode::INX(Register::H),
            0x24 => Opcode::INR(Register::H),
            0x25 => Opcode::DCR(Register::H),
            0x26 => Opcode::MVI(Register::H),
            0x27 => Opcode::DAA,
            0x29 => Opcode::DAD(Register::H),
            0x2a => Opcode::LHLD,
            0x2b => Opcode::DCX(Register::H),
            0x2c => Opcode::INR(Register::L),
            0x2d => Opcode::DCR(Register::L),
            0x2e => Opcode::MVI(Register::L),
            0x2f => Opcode::CMA,
            0x30 => Opcode::SIM,
            0x31 => Opcode::LXI(Register::SP),
            0x32 => Opcode::STA,
            0x33 => Opcode::INX(Register::SP),
            0x34 => Opcode::INR(Register::M),
            0x35 => Opcode::DCR(Register::M),
            0x36 => Opcode::MVI(Register::M),
            0x37 => Opcode::STC,
            0x39 => Opcode::DAD(Register::SP),
            0x3a => Opcode::LDA,
            0x3b => Opcode::DCX(Register::SP),
            0x3c => Opcode::INR(Register::A),
            0x3d => Opcode::DCR(Register::A),
            0x3e => Opcode::MVI(Register::A),
            0x3f => Opcode::CMC,
            0x40 => Opcode::MOV(Register::B, Register::B),
            0x41 => Opcode::MOV(Register::B, Register::C),
            0x42 => Opcode::MOV(Register::B, Register::D),
            0x43 => Opcode::MOV(Register::B, Register::E),
            0x44 => Opcode::MOV(Register::B, Register::H),
            0x45 => Opcode::MOV(Register::B, Register::L),
            0x46 => Opcode::MOV(Register::B, Register::M),
            0x47 => Opcode::MOV(Register::B, Register::A),
            0x48 => Opcode::MOV(Register::C, Register::B),
            0x49 => Opcode::MOV(Register::C, Register::C),
            0x4a => Opcode::MOV(Register::C, Register::D),
            0x4b => Opcode::MOV(Register::C, Register::E),
            0x4c => Opcode::MOV(Register::C, Register::H),
            0x4d => Opcode::MOV(Register::C, Register::L),
            0x4e => Opcode::MOV(Register::C, Register::M),
            0x4f => Opcode::MOV(Register::C, Register::A),
            0x50 => Opcode::MOV(Register::D, Register::B),
            0x51 => Opcode::MOV(Register::D, Register::C),
            0x52 => Opcode::MOV(Register::D, Register::D),
            0x53 => Opcode::MOV(Register::D, Register::E),
            0x54 => Opcode::MOV(Register::D, Register::H),
            0x55 => Opcode::MOV(Register::D, Register::L),
            0x56 => Opcode::MOV(Register::D, Register::M),
            0x57 => Opcode::MOV(Register::D, Register::A),
            0x58 => Opcode::MOV(Register::E, Register::B),
            0x59 => Opcode::MOV(Register::E, Register::C),
            0x5a => Opcode::MOV(Register::E, Register::D),
            0x5b => Opcode::MOV(Register::E, Register::E),
            0x5c => Opcode::MOV(Register::E, Register::H),
            0x5d => Opcode::MOV(Register::E, Register::L),
            0x5e => Opcode::MOV(Register::E, Register::M),
            0x5f => Opcode::MOV(Register::E, Register::A),
            0x60 => Opcode::MOV(Register::H, Register::B),
            0x61 => Opcode::MOV(Register::H, Register::C),
            0x62 => Opcode::MOV(Register::H, Register::D),
            0x63 => Opcode::MOV(Register::H, Register::E),
            0x64 => Opcode::MOV(Register::H, Register::H),
            0x65 => Opcode::MOV(Register::H, Register::L),
            0x66 => Opcode::MOV(Register::H, Register::M),
            0x67 => Opcode::MOV(Register::H, Register::A),
            0x68 => Opcode::MOV(Register::L, Register::B),
            0x69 => Opcode::MOV(Register::L, Register::C),
            0x6a => Opcode::MOV(Register::L, Register::D),
            0x6b => Opcode::MOV(Register::L, Register::E),
            0x6c => Opcode::MOV(Register::L, Register::H),
            0x6d => Opcode::MOV(Register::L, Register::L),
            0x6e => Opcode::MOV(Register::L, Register::M),
            0x6f => Opcode::MOV(Register::L, Register::A),
            0x70 => Opcode::MOV(Register::M, Register::B),
            0x71 => Opcode::MOV(Register::M, Register::C),
            0x72 => Opcode::MOV(Register::M, Register::D),
            0x73 => Opcode::MOV(Register::M, Register::E),
            0x74 => Opcode::MOV(Register::M, Register::H),
            0x75 => Opcode::MOV(Register::M, Register::L),
            0x76 => Opcode::HLT,
            0x77 => Opcode::MOV(Register::M, Register::A),
            0x78 => Opcode::MOV(Register::A, Register::B),
            0x79 => Opcode::MOV(Register::A, Register::C),
            0x7a => Opcode::MOV(Register::A, Register::D),
            0x7b => Opcode::MOV(Register::A, Register::E),
            0x7c => Opcode::MOV(Register::A, Register::H),
            0x7d => Opcode::MOV(Register::A, Register::L),
            0x7e => Opcode::MOV(Register::A, Register::M),
            0x7f => Opcode::MOV(Register::A, Register::A),
            0x80 => Opcode::ADD(Register::B),
            0x81 => Opcode::ADD(Register::C),
            0x82 => Opcode::ADD(Register::D),
            0x83 => Opcode::ADD(Register::E),
            0x84 => Opcode::ADD(Register::H),
            0x85 => Opcode::ADD(Register::L),
            0x86 => Opcode::ADD(Register::M),
            0x87 => Opcode::ADD(Register::A),
            0x88 => Opcode::ADC(Register::B),
            0x89 => Opcode::ADC(Register::C),
            0x8a => Opcode::ADC(Register::D),
            0x8b => Opcode::ADC(Register::E),
            0x8c => Opcode::ADC(Register::H),
            0x8d => Opcode::ADC(Register::L),
            0x8e => Opcode::ADC(Register::M),
            0x8f => Opcode::ADC(Register::A),
            0x90 => Opcode::SUB(Register::B),
            0x91 => Opcode::SUB(Register::C),
            0x92 => Opcode::SUB(Register::D),
            0x93 => Opcode::SUB(Register::E),
            0x94 => Opcode::SUB(Register::H),
            0x95 => Opcode::SUB(Register::L),
            0x96 => Opcode::SUB(Register::M),
            0x97 => Opcode::SUB(Register::A),
            0x98 => Opcode::SBB(Register::B),
            0x99 => Opcode::SBB(Register::C),
            0x9a => Opcode::SBB(Register::D),
            0x9b => Opcode::SBB(Register::E),
            0x9c => Opcode::SBB(Register::H),
            0x9d => Opcode::SBB(Register::L),
            0x9e => Opcode::SBB(Register::M),
            0x9f => Opcode::SBB(Register::A),
            0xa0 => Opcode::ANA(Register::B),
            0xa1 => Opcode::ANA(Register::C),
            0xa2 => Opcode::ANA(Register::D),
            0xa3 => Opcode::ANA(Register::E),
            0xa4 => Opcode::ANA(Register::H),
            0xa5 => Opcode::ANA(Register::L),
            0xa6 => Opcode::ANA(Register::M),
            0xa7 => Opcode::ANA(Register::A),
            0xa8 => Opcode::XRA(Register::B),
            0xa9 => Opcode::XRA(Register::C),
            0xaa => Opcode::XRA(Register::D),
            0xab => Opcode::XRA(Register::E),
            0xac => Opcode::XRA(Register::H),
            0xad => Opcode::XRA(Register::L),
            0xae => Opcode::XRA(Register::M),
            0xaf => Opcode::XRA(Register::A),
            0xb0 => Opcode::ORA(Register::B),
            0xb1 => Opcode::ORA(Register::C),
            0xb2 => Opcode::ORA(Register::D),
            0xb3 => Opcode::ORA(Register::E),
            0xb4 => Opcode::ORA(Register::H),
            0xb5 => Opcode::ORA(Register::L),
            0xb6 => Opcode::ORA(Register::M),
            0xb7 => Opcode::ORA(Register::A),
            0xb8 => Opcode::CMP(Register::B),
            0xb9 => Opcode::CMP(Register::C),
            0xba => Opcode::CMP(Register::D),
            0xbb => Opcode::CMP(Register::E),
            0xbc => Opcode::CMP(Register::H),
            0xbd => Opcode::CMP(Register::L),
            0xbe => Opcode::CMP(Register::M),
            0xbf => Opcode::CMP(Register::A),
            0xc0 => Opcode::RNZ,
            0xc1 => Opcode::POP(Register::B),
            0xc2 => Opcode::JNZ,
            0xc3 => Opcode::JMP,
            0xc4 => Opcode::CNZ,
            0xc5 => Opcode::PUSH(Register::B),
            0xc6 => Opcode::ADI,
            0xc7 => Opcode::RST(0),
            0xc8 => Opcode::RZ,
            0xc9 => Opcode::RET,
            0xca => Opcode::JZ,
            0xcc => Opcode::CZ,
            0xcd => Opcode::CALL,
            0xce => Opcode::ACI,
            0xcf => Opcode::RST(1),
            0xd0 => Opcode::RNC,
            0xd1 => Opcode::POP(Register::D),
            0xd2 => Opcode::JNC,
            0xd3 => Opcode::OUT,
            0xd4 => Opcode::CNC,
            0xd5 => Opcode::PUSH(Register::D),
            0xd6 => Opcode::SUI,
            0xd7 => Opcode::RST(2),
            0xd8 => Opcode::RC,
            0xda => Opcode::JC,
            0xdb => Opcode::IN,
            0xdc => Opcode::CC,
            0xde => Opcode::SBI,
            0xdf => Opcode::RST(3),
            0xe0 => Opcode::RPO,
            0xe1 => Opcode::POP(Register::H),
            0xe2 => Opcode::JPO,
            0xe3 => Opcode::XTHL,
            0xe4 => Opcode::CPO,
            0xe5 => Opcode::PUSH(Register::H),
            0xe6 => Opcode::ANI,
            0xe7 => Opcode::RST(4),
            0xe8 => Opcode::RPE,
            0xe9 => Opcode::PCHL,
            0xea => Opcode::JPE,
            0xeb => Opcode::XCHG,
            0xec => Opcode::CPE,
            0xee => Opcode::XRI,
            0xef => Opcode::RST(5),
            0xf0 => Opcode::RP,
            0xf1 => Opcode::POP(Register::A),
            0xf2 => Opcode::JP,
            0xf3 => Opcode::DI,
            0xf4 => Opcode::CP,
            0xf5 => Opcode::PUSH(Register::A),
            0xf6 => Opcode::ORI,
            0xf7 => Opcode::RST(6),
            0xf8 => Opcode::RM,
            0xf9 => Opcode::SPHL,
            0xfa => Opcode::JM,
            0xfb => Opcode::EI,
            0xfc => Opcode::CM,
            0xfe => Opcode::CPI,
            0xff => Opcode::RST(7),
            _ => Opcode::NOP,
        }
    }

    /// The size class of this opcode's instruction.
    pub fn size(&self) -> (s: OpcodeSize)
        ensures
            s == spec_size(*self),
    {
        match self {
            Opcode::LXI(_) => OpcodeSize::Trinary,
            Opcode::MVI(_) => OpcodeSize::Binary,
            Opcode::SHLD => OpcodeSize::Trinary,
            Opcode::LHLD => OpcodeSize::Trinary,
            Opcode::STA => OpcodeSize::Trinary,
            Opcode::LDA => OpcodeSize::Trinary,
            Opcode::JNZ => OpcodeSize::Trinary,
            Opcode::JMP => OpcodeSize::Trinary,
            Opcode::CNZ => OpcodeSize::Trinary,
            Opcode::ADI => OpcodeSize::Binary,
            Opcode::JZ => OpcodeSize::Trinary,
            Opcode::CZ => OpcodeSize::Trinary,
            Opcode::CALL => OpcodeSize::Trinary,
            Opcode::ACI => OpcodeSize::Binary,
            Opcode::JNC => OpcodeSize::Trinary,
            Opcode::OUT => OpcodeSize::Binary,
            Opcode::CNC => OpcodeSize::Trinary,
            Opcode::SUI => OpcodeSize::Binary,
            Opcode::JC => OpcodeSize::Trinary,
            Opcode::IN => OpcodeSize::Binary,
            Opcode::CC => OpcodeSize::Trinary,
            Opcode::SBI => OpcodeSize::Binary,
            Opcode::JPO => OpcodeSize::Trinary,
            Opcode::CPO => OpcodeSize::Trinary,
            Opcode::ANI => OpcodeSize::Binary,
            Opcode::JPE => OpcodeSize::Trinary,
            Opcode::CPE => OpcodeSize::Trinary,
            Opcode::XRI => OpcodeSize::Binary,
            Opcode::JP => OpcodeSize::Trinary,
            Opcode::CP => OpcodeSize::Trinary,
            Opcode::ORI => OpcodeSize::Binary,
            Opcode::JM => OpcodeSize::Trinary,
            Opcode::CM => OpcodeSize::Trinary,
            Opcode::CPI => OpcodeSize::Binary,
            _ => OpcodeSize::Unary,
        }
    }

    /// How many register operands are embedded in the opcode byte.
    pub fn num_registers(&self) -> (n: u8)
        ensures
            n == spec_num_registers(*self),
    {
        match self {
            Opcode::LXI(_) => 1,
            Opcode::STAX(_) => 1,
            Opcode::INX(_) => 1,
            Opcode::INR(_) => 1,
            Opcode::DCR(_) => 1,
            Opcode::MVI(_) => 1,
            Opcode::DAD(_) => 1,
            Opcode::LDAX(_) => 1,
            Opcode::DCX(_) => 1,
            Opcode::MOV(_, _) => 2,
            Opcode::PUSH(_) => 1,
            Opcode::POP(_) => 1,
            Opcode::ADD(_) => 1,
            Opcode::ADC(_) => 1,
            Opcode::SUB(_) => 1,
            Opcode::SBB(_) => 1,
            Opcode::ANA(_) => 1,
            Opcode::XRA(_) => 1,
            Opcode::ORA(_) => 1,
            Opcode::CMP(_) => 1,
            Opcode::RST(_) => 1,
            _ => 0,
        }
    }
}

/// The number of register operands embedded in an opcode byte.
pub open spec fn spec_num_registers(op: Opcode) -> u8 {
    match op {
        Opcode::LXI(_) => 1,
        Opcode::STAX(_) => 1,
        Opcode::INX(_) => 1,
        Opcode::INR(_) => 1,
        Opcode::DCR(_) => 1,
        Opcode::MVI(_) => 1,
        Opcode::DAD(_) => 1,
        Opcode::LDAX(_) => 1,
        Opcode::DCX(_) => 1,
        Opcode::MOV(_, _) => 2,
        Opcode::PUSH(_) => 1,
        Opcode::POP(_) => 1,
        Opcode::ADD(_) => 1,
        Opcode::ADC(_) => 1,
        Opcode::SUB(_) => 1,
        Opcode::SBB(_) => 1,
        Opcode::ANA(_) => 1,
        Opcode::XRA(_) => 1,
        Opcode::ORA(_) => 1,
        Opcode::CMP(_) => 1,
        Opcode::RST(_) => 1,
        _ => 0,
    }
}

impl OpcodeSize {
    /// The size in bytes: 1, 2 or 3.
    pub fn as_u16(&self) -> (n: u16)
        ensures
            *self == OpcodeSize::Unary ==> n == 1,
            *self == OpcodeSize::Binary ==> n == 2,
            *self == OpcodeSize::Trinary ==> n == 3,
    {
        match self {
            OpcodeSize::Unary => 1,
            OpcodeSize::Binary => 2,
            OpcodeSize::Trinary => 3,
        }
    }
}

} // verus!
