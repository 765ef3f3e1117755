//! The opcode table held against the published reference: every documented
//! opcode must decode to the reference instruction kind, addressing mode
//! and base cycle count, and all 256 byte values must decode to something.

use emu6502::instruction::AddrMode;
use emu6502::instruction::InstructionType;
use emu6502::instruction::lookup;

/// The published reference rows for the documented instruction set:
/// `(opcode, kind, mode, base_cycles)`.
fn reference_rows() -> Vec<(u8, InstructionType, AddrMode, u8)> {
    vec![
        (0x00, InstructionType::BRK, AddrMode::IMP, 7),
        (0x01, InstructionType::ORA, AddrMode::IndX, 6),
        (0x05, InstructionType::ORA, AddrMode::ZPG, 3),
        (0x06, InstructionType::ASL, AddrMode::ZPG, 5),
        (0x08, InstructionType::PHP, AddrMode::IMP, 3),
        (0x09, InstructionType::ORA, AddrMode::IMM, 2),
        (0x0A, InstructionType::ASL, AddrMode::A, 2),
        (0x0D, InstructionType::ORA, AddrMode::ABS, 4),
        (0x0E, InstructionType::ASL, AddrMode::ABS, 6),
        (0x10, InstructionType::BPL, AddrMode::REL, 2),
        (0x11, InstructionType::ORA, AddrMode::IndY, 5),
        (0x15, InstructionType::ORA, AddrMode::ZpgX, 4),
        (0x16, InstructionType::ASL, AddrMode::ZpgX, 6),
        (0x18, InstructionType::CLC, AddrMode::IMP, 2),
        (0x19, InstructionType::ORA, AddrMode::AbsY, 4),
        (0x1D, InstructionType::ORA, AddrMode::AbsX, 4),
        (0x1E, InstructionType::ASL, AddrMode::AbsX, 7),
        (0x20, InstructionType::JSR, AddrMode::ABS, 6),
        (0x21, InstructionType::AND, AddrMode::IndX, 6),
        (0x24, InstructionType::BIT, AddrMode::ZPG, 3),
        (0x25, InstructionType::AND, AddrMode::ZPG, 3),
        (0x26, InstructionType::ROL, AddrMode::ZPG, 5),
        (0x28, InstructionType::PLP, AddrMode::IMP, 4),
        (0x29, InstructionType::AND, AddrMode::IMM, 2),
        (0x2A, InstructionType::ROL, AddrMode::A, 2),
        (0x2C, InstructionType::BIT, AddrMode::ABS, 4),
        (0x2D, InstructionType::AND, AddrMode::ABS, 4),
        (0x2E, InstructionType::ROL, AddrMode::ABS, 6),
        (0x30, InstructionType::BMI, AddrMode::REL, 2),
        (0x31, InstructionType::AND, AddrMode::IndY, 5),
        (0x35, InstructionType::AND, AddrMode::ZpgX, 4),
        (0x36, InstructionType::ROL, AddrMode::ZpgX, 6),
        (0x38, InstructionType::SEC, AddrMode::IMP, 2),
        (0x39, InstructionType::AND, AddrMode::AbsY, 4),
        (0x3D, InstructionType::AND, AddrMode::AbsX, 4),
        (0x3E, InstructionType::ROL, AddrMode::AbsX, 7),
        (0x40, InstructionType::RTI, AddrMode::IMP, 6),
        (0x41, InstructionType::EOR, AddrMode::IndX, 6),
        (0x45, InstructionType::EOR, AddrMode::ZPG, 3),
        (0x46, InstructionType::LSR, AddrMode::ZPG, 5),
        (0x48, InstructionType::PHA, AddrMode::IMP, 3),
        (0x49, InstructionType::EOR, AddrMode::IMM, 2),
        (0x4A, InstructionType::LSR, AddrMode::A, 2),
        (0x4C, InstructionType::JMP, AddrMode::ABS, 3),
        (0x4D, InstructionType::EOR, AddrMode::ABS, 4),
        (0x4E, InstructionType::LSR, AddrMode::ABS, 6),
        (0x50, InstructionType::BVC, AddrMode::REL, 2),
        (0x51, InstructionType::EOR, AddrMode::IndY, 5),
        (0x55, InstructionType::EOR, AddrMode::ZpgX, 4),
        (0x56, InstructionType::LSR, AddrMode::ZpgX, 6),
        (0x58, InstructionType::CLI, AddrMode::IMP, 2),
        (0x59, InstructionType::EOR, AddrMode::AbsY, 4),
        (0x5D, InstructionType::EOR, AddrMode::AbsX, 4),
        (0x5E, InstructionType::LSR, AddrMode::AbsX, 7),
        (0x60, InstructionType::RTS, AddrMode::IMP, 6),
        (0x61, InstructionType::ADC, AddrMode::IndX, 6),
        (0x65, InstructionType::ADC, AddrMode::ZPG, 3),
        (0x66, InstructionType::ROR, AddrMode::ZPG, 5),
        (0x68, InstructionType::PLA, AddrMode::IMP, 4),
        (0x69, InstructionType::ADC, AddrMode::IMM, 2),
        (0x6A, InstructionType::ROR, AddrMode::A, 2),
        (0x6C, InstructionType::JMP, AddrMode::IND, 5),
        (0x6D, InstructionType::ADC, AddrMode::ABS, 4),
        (0x6E, InstructionType::ROR, AddrMode::ABS, 6),
        (0x70, InstructionType::BVS, AddrMode::REL, 2),
        (0x71, InstructionType::ADC, AddrMode::IndY, 5),
        (0x75, InstructionType::ADC, AddrMode::ZpgX, 4),
        (0x76, InstructionType::ROR, AddrMode::ZpgX, 6),
        (0x78, InstructionType::SEI, AddrMode::IMP, 2),
        (0x79, InstructionType::ADC, AddrMode::AbsY, 4),
        (0x7D, InstructionType::ADC, AddrMode::AbsX, 4),
        (0x7E, InstructionType::ROR, AddrMode::AbsX, 7),
        (0x81, InstructionType::STA, AddrMode::IndX, 6),
        (0x84, InstructionType::STY, AddrMode::ZPG, 3),
        (0x85, InstructionType::STA, AddrMode::ZPG, 3),
        (0x86, InstructionType::STX, AddrMode::ZPG, 3),
        (0x88, InstructionType::DEY, AddrMode::IMP, 2),
        (0x8A, InstructionType::TXA, AddrMode::IMP, 2),
        (0x8C, InstructionType::STY, AddrMode::ABS, 4),
        (0x8D, InstructionType::STA, AddrMode::ABS, 4),
        (0x8E, InstructionType::STX, AddrMode::ABS, 4),
        (0x90, InstructionType::BCC, AddrMode::REL, 2),
        (0x91, InstructionType::STA, AddrMode::IndY, 6),
        (0x94, InstructionType::STY, AddrMode::ZpgX, 4),
        (0x95, InstructionType::STA, AddrMode::ZpgX, 4),
        (0x96, InstructionType::STX, AddrMode::ZpgY, 4),
        (0x98, InstructionType::TYA, AddrMode::IMP, 2),
        (0x99, InstructionType::STA, AddrMode::AbsY, 5),
        (0x9A, InstructionType::TXS, AddrMode::IMP, 2),
        (0x9D, InstructionType::STA, AddrMode::AbsX, 5),
        (0xA0, InstructionType::LDY, AddrMode::IMM, 2),
        (0xA1, InstructionType::LDA, AddrMode::IndX, 6),
        (0xA2, InstructionType::LDX, AddrMode::IMM, 2),
        (0xA4, InstructionType::LDY, AddrMode::ZPG, 3),
        (0xA5, InstructionType::LDA, AddrMode::ZPG, 3),
        (0xA6, InstructionType::LDX, AddrMode::ZPG, 3),
        (0xA8, InstructionType::TAY, AddrMode::IMP, 2),
        (0xA9, InstructionType::LDA, AddrMode::IMM, 2),
        (0xAA, InstructionType::TAX, AddrMode::IMP, 2),
        (0xAC, InstructionType::LDY, AddrMode::ABS, 4),
        (0xAD, InstructionType::LDA, AddrMode::ABS, 4),
        (0xAE, InstructionType::LDX, AddrMode::ABS, 4),
        (0xB0, InstructionType::BCS, AddrMode::REL, 2),
        (0xB1, InstructionType::LDA, AddrMode::IndY, 5),
        (0xB4, InstructionType::LDY, AddrMode::ZpgX, 4),
        (0xB5, InstructionType::LDA, AddrMode::ZpgX, 4),
        (0xB6, InstructionType::LDX, AddrMode::ZpgY, 4),
        (0xB8, InstructionType::CLV, AddrMode::IMP, 2),
        (0xB9, InstructionType::LDA, AddrMode::AbsY, 4),
        (0xBA, InstructionType::TSX, AddrMode::IMP, 2),
        (0xBC, InstructionType::LDY, AddrMode::AbsX, 4),
        (0xBD, InstructionType::LDA, AddrMode::AbsX, 4),
        (0xBE, InstructionType::LDX, AddrMode::AbsY, 4),
        (0xC0, InstructionType::CPY, AddrMode::IMM, 2),
        (0xC1, InstructionType::CMP, AddrMode::IndX, 6),
        (0xC4, InstructionType::CPY, AddrMode::ZPG, 3),
        (0xC5, InstructionType::CMP, AddrMode::ZPG, 3),
        (0xC6, InstructionType::DEC, AddrMode::ZPG, 5),
        (0xC8, InstructionType::INY, AddrMode::IMP, 2),
        (0xC9, InstructionType::CMP, AddrMode::IMM, 2),
        (0xCA, InstructionType::DEX, AddrMode::IMP, 2),
        (0xCC, InstructionType::CPY, AddrMode::ABS, 4),
        (0xCD, InstructionType::CMP, AddrMode::ABS, 4),
        (0xCE, InstructionType::DEC, AddrMode::ABS, 6),
        (0xD0, InstructionType::BNE, AddrMode::REL, 2),
        (0xD1, InstructionType::CMP, AddrMode::IndY, 5),
        (0xD5, InstructionType::CMP, AddrMode::ZpgX, 4),
        (0xD6, InstructionType::DEC, AddrMode::ZpgX, 6),
        (0xD8, InstructionType::CLD, AddrMode::IMP, 2),
        (0xD9, InstructionType::CMP, AddrMode::AbsY, 4),
        (0xDD, InstructionType::CMP, AddrMode::AbsX, 4),
        (0xDE, InstructionType::DEC, AddrMode::AbsX, 7),
        (0xE0, InstructionType::CPX, AddrMode::IMM, 2),
        (0xE1, InstructionType::SBC, AddrMode::IndX, 6),
        (0xE4, InstructionType::CPX, AddrMode::ZPG, 3),
        (0xE5, InstructionType::SBC, AddrMode::ZPG, 3),
        (0xE6, InstructionType::INC, AddrMode::ZPG, 5),
        (0xE8, InstructionType::INX, AddrMode::IMP, 2),
        (0xE9, InstructionType::SBC, AddrMode::IMM, 2),
        (0xEA, InstructionType::NOP, AddrMode::IMP, 2),
        (0xEC, InstructionType::CPX, AddrMode::ABS, 4),
        (0xED, InstructionType::SBC, AddrMode::ABS, 4),
        (0xEE, InstructionType::INC, AddrMode::ABS, 6),
        (0xF0, InstructionType::BEQ, AddrMode::REL, 2),
        (0xF1, InstructionType::SBC, AddrMode::IndY, 5),
        (0xF5, InstructionType::SBC, AddrMode::ZpgX, 4),
        (0xF6, InstructionType::INC, AddrMode::ZpgX, 6),
        (0xF8, InstructionType::SED, AddrMode::IMP, 2),
        (0xF9, InstructionType::SBC, AddrMode::AbsY, 4),
        (0xFD, InstructionType::SBC, AddrMode::AbsX, 4),
        (0xFE, InstructionType::INC, AddrMode::AbsX, 7),
    ]
}

#[test]
fn lookup_matches_published_reference_for_documented_opcodes() {
    let rows = reference_rows();
    assert_eq!(rows.len(), 151);
    for (op, kind, mode, cycles) in rows {
        let d = lookup(op);
        assert_eq!(d.inst_type, kind, "kind of opcode {:#04x}", op);
        assert_eq!(d.mode, mode, "mode of opcode {:#04x}", op);
        assert_eq!(d.cycles, cycles, "cycles of opcode {:#04x}", op);
    }
}

#[test]
fn lookup_is_total_over_all_byte_values() {
    let mut op: u16 = 0;
    while op < 0x100 {
        let d = lookup(op as u8);
        assert!(d.cycles <= 8);
        op += 1;
    }
}

#[test]
fn jam_slots_decode_to_the_halting_placeholder() {
    for op in [0x02u8, 0x12, 0x22, 0x32, 0x42, 0x52, 0x62, 0x72, 0x92, 0xB2, 0xD2, 0xF2] {
        let d = lookup(op);
        assert_eq!(d.inst_type, InstructionType::JAM);
        assert_eq!(d.mode, AddrMode::JAM);
        assert_eq!(d.cycles, 0);
    }
}
