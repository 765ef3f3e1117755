//! The opcode table: a static, gap-free mapping from each of the 256 opcode
//! byte values to its instruction kind, operand-addressing mode, and base
//! cycle count.  Documented opcodes carry the published reference addressing
//! mode and cycle count; undocumented opcodes map to placeholder kinds whose
//! execution halts the core.

use vstd::prelude::*;

verus! {

/// Operand-addressing schemes.
#[derive(Clone, Copy, PartialEq, Eq, Structural, Debug)]
pub enum AddrMode {
    /// Accumulator: the operand is the accumulator itself.
    A,
    /// Absolute: 16-bit little-endian address follows the opcode.
    ABS,
    /// Absolute, X-indexed; a page crossing owes one extra cycle.
    AbsX,
    /// Absolute, Y-indexed; a page crossing owes one extra cycle.
    AbsY,
    /// Immediate: the operand byte follows the opcode.
    IMM,
    /// Implied: no operand bytes are consumed.
    IMP,
    /// Indirect: a 16-bit pointer to the effective address (jump only).
    IND,
    /// X-indexed, indirect through the zero page.
    IndX,
    /// Indirect through the zero page, then Y-indexed.
    IndY,
    /// Placeholder mode of the halting opcodes: consumes no bytes.
    JAM,
    /// Relative: a signed 8-bit branch displacement follows the opcode.
    REL,
    /// Zero page: a single address byte, masked to `0x00FF`.
    ZPG,
    /// Zero page, X-indexed, wrapping within page zero.
    ZpgX,
    /// Zero page, Y-indexed, wrapping within page zero.
    ZpgY,
}

/// Instruction kinds: the documented instruction set, plus placeholder kinds
/// for the undocumented opcode slots (these halt the core when executed).
#[derive(Clone, Copy, PartialEq, Eq, Structural, Debug)]
pub enum InstructionType {
    ADC,
    ANC,
    AND,
    ANE,
    ALR,
    ARR,
    ASL,
    BCC,
    BCS,
    BEQ,
    BIT,
    BMI,
    BNE,
    BPL,
    BRK,
    BVC,
    BVS,
    CLC,
    CLD,
    CLI,
    CLV,
    CMP,
    CPX,
    CPY,
    DCP,
    DEC,
    DEX,
    DEY,
    EOR,
    INC,
    INX,
    INY,
    ISC,
    JAM,
    JMP,
    JSR,
    LAS,
    LAX,
    LDA,
    LDX,
    LDY,
    LSR,
    LXA,
    NOP,
    ORA,
    PHA,
    PHP,
    PLA,
    PLP,
    RRA,
    RLA,
    ROL,
    ROR,
    RTI,
    RTS,
    SAX,
    SBX,
    SBC,
    SEC,
    SED,
    SEI,
    SHA,
    SHX,
    SHY,
    SLO,
    SRE,
    STA,
    STX,
    STY,
    TAS,
    TAX,
    TAY,
    TSX,
    TXA,
    TXS,
    TYA,
    USBC,
}

/// One opcode descriptor: kind, addressing mode, and base cycle count.
#[derive(Clone, Copy, PartialEq, Eq, Structural, Debug)]
pub struct Instruction {
    pub inst_type: InstructionType,
    pub mode: AddrMode,
    pub cycles: u8,
}

/// Whether `kind` is one of the undocumented placeholder kinds, whose
/// semantics are out of scope: executing one halts the core.
pub open spec fn spec_is_illegal(kind: InstructionType) -> bool {
    match kind {
        InstructionType::ANC => true,
        InstructionType::ANE => true,
        InstructionType::ALR => true,
        InstructionType::ARR => true,
        InstructionType::DCP => true,
        InstructionType::ISC => true,
        InstructionType::JAM => true,
        InstructionType::LAS => true,
        InstructionType::LAX => true,
        InstructionType::LXA => true,
        InstructionType::RRA => true,
        InstructionType::RLA => true,
        InstructionType::SAX => true,
        InstructionType::SBX => true,
        InstructionType::SHA => true,
        InstructionType::SHX => true,
        InstructionType::SHY => true,
        InstructionType::SLO => true,
        InstructionType::SRE => true,
        InstructionType::TAS => true,
        InstructionType::USBC => true,
        _ => false,
    }
}

/// Decide whether `kind` is an undocumented placeholder kind.
pub fn is_illegal(kind: &InstructionType) -> (r: bool)
    ensures
        r == spec_is_illegal(*kind),
{
    match kind {
        InstructionType::ANC => true,
        InstructionType::ANE => true,
        InstructionType::ALR => true,
        InstructionType::ARR => true,
        InstructionType::DCP => true,
        InstructionType::ISC => true,
        InstructionType::JAM => true,
        InstructionType::LAS => true,
        InstructionType::LAX => true,
        InstructionType::LXA => true,
        InstructionType::RRA => true,
        InstructionType::RLA => true,
        InstructionType::SAX => true,
        InstructionType::SBX => true,
        InstructionType::SHA => true,
        InstructionType::SHX => true,
        InstructionType::SHY => true,
        InstructionType::SLO => true,
        InstructionType::SRE => true,
        InstructionType::TAS => true,
        InstructionType::USBC => true,
        _ => false,
    }
}

/// The descriptor for opcode `op`: the decode table as a total function
/// over all 256 byte values.
pub open spec fn spec_lookup(op: u8) -> Instruction {
    match op {
        0x00u8 => Instruction { inst_type: InstructionType::BRK, mode: AddrMode::IMP, cycles: 7 },
        0x01u8 => Instruction { inst_type: InstructionType::ORA, mode: AddrMode::IndX, cycles: 6 },
        0x02u8 => Instruction { inst_type: InstructionType::JAM, mode: AddrMode::JAM, cycles: 0 },
        0x03u8 => Instruction { inst_type: InstructionType::SLO, mode: AddrMode::ZPG, cycles: 5 },
        0x04u8 => Instruction { inst_type: InstructionType::NOP, mode: AddrMode::ZPG, cycles: 3 },
        0x05u8 => Instruction { inst_type: InstructionType::ORA, mode: AddrMode::ZPG, cycles: 3 },
        0x06u8 => Instruction { inst_type: InstructionType::ASL, mode: AddrMode::ZPG, cycles: 5 },
        0x07u8 => Instruction { inst_type: InstructionType::SLO, mode: AddrMode::ZPG, cycles: 5 },
        0x08u8 => Instruction { inst_type: InstructionType::PHP, mode: AddrMode::IMP, cycles: 3 },
        0x09u8 => Instruction { inst_type: InstructionType::ORA, mode: AddrMode::IMM, cycles: 2 },
        0x0Au8 => Instruction { inst_type: InstructionType::ASL, mode: AddrMode::A, cycles: 2 },
        0x0Bu8 => Instruction { inst_type: InstructionType::ANC, mode: AddrMode::IMM, cycles: 2 },
        0x0Cu8 => Instruction { inst_type: InstructionType::NOP, mode: AddrMode::ABS, cycles: 4 },
        0x0Du8 => Instruction { inst_type: InstructionType::ORA, mode: AddrMode::ABS, cycles: 4 },
        0x0Eu8 => Instruction { inst_type: InstructionType::ASL, mode: AddrMode::ABS, cycles: 6 },
        0x0Fu8 => Instruction { inst_type: InstructionType::SLO, mode: AddrMode::ABS, cycles: 6 },
        0x10u8 => Instruction { inst_type: InstructionType::BPL, mode: AddrMode::REL, cycles: 2 },
        0x11u8 => Instruction { inst_type: InstructionType::ORA, mode: AddrMode::IndY, cycles: 5 },
        0x12u8 => Instruction { inst_type: InstructionType::JAM, mode: AddrMode::JAM, cycles: 0 },
        0x13u8 => Instruction { inst_type: InstructionType::SLO, mode: AddrMode::IndY, cycles: 8 },
        0x14u8 => Instruction { inst_type: InstructionType::NOP, mode: AddrMode::ZpgX, cycles: 4 },
        0x15u8 => Instruction { inst_type: InstructionType::ORA, mode: AddrMode::ZpgX, cycles: 4 },
        0x16u8 => Instruction { inst_type: InstructionType::ASL, mode: AddrMode::ZpgX, cycles: 6 },
        0x17u8 => Instruction { inst_type: InstructionType::SLO, mode: AddrMode::ZpgX, cycles: 6 },
        0x18u8 => Instruction { inst_type: InstructionType::CLC, mode: AddrMode::IMP, cycles: 2 },
        0x19u8 => Instruction { inst_type: InstructionType::ORA, mode: AddrMode::AbsY, cycles: 4 },
        0x1Au8 => Instruction { inst_type: InstructionType::NOP, mode: AddrMode::IMP, cycles: 2 },
        0x1Bu8 => Instruction { inst_type: InstructionType::SLO, mode: AddrMode::AbsY, cycles: 7 },
        0x1Cu8 => Instruction { inst_type: InstructionType::NOP, mode: AddrMode::AbsX, cycles: 4 },
        0x1Du8 => Instruction { inst_type: InstructionType::ORA, mode: AddrMode::AbsX, cycles: 4 },
        0x1Eu8 => Instruction { inst_type: InstructionType::ASL, mode: AddrMode::AbsX, cycles: 7 },
        0x1Fu8 => Instruction { inst_type: InstructionType::SLO, mode: AddrMode::AbsX, cycles: 7 },
        0x20u8 => Instruction { inst_type: InstructionType::JSR, mode: AddrMode::ABS, cycles: 6 },
        0x21u8 => Instruction { inst_type: InstructionType::AND, mode: AddrMode::IndX, cycles: 6 },
        0x22u8 => Instruction { inst_type: InstructionType::JAM, mode: AddrMode::JAM, cycles: 0 },
        0x23u8 => Instruction { inst_type: InstructionType::RLA, mode: AddrMode::IndX, cycles: 8 },
        0x24u8 => Instruction { inst_type: InstructionType::BIT, mode: AddrMode::ZPG, cycles: 3 },
        0x25u8 => Instruction { inst_type: InstructionType::AND, mode: AddrMode::ZPG, cycles: 3 },
        0x26u8 => Instruction { inst_type: InstructionType::ROL, mode: AddrMode::ZPG, cycles: 5 },
        0x27u8 => Instruction { inst_type: InstructionType::RLA, mode: AddrMode::ZPG, cycles: 5 },
        0x28u8 => Instruction { inst_type: InstructionType::PLP, mode: AddrMode::IMP, cycles: 4 },
        0x29u8 => Instruction { inst_type: InstructionType::AND, mode: AddrMode::IMM, cycles: 2 },
        0x2Au8 => Instruction { inst_type: InstructionType::ROL, mode: AddrMode::A, cycles: 2 },
        0x2Bu8 => Instruction { inst_type: InstructionType::ANC, mode: AddrMode::IMM, cycles: 2 },
        0x2Cu8 => Instruction { inst_type: InstructionType::BIT, mode: AddrMode::ABS, cycles: 4 },
        0x2Du8 => Instruction { inst_type: InstructionType::AND, mode: AddrMode::ABS, cycles: 4 },
        0x2Eu8 => Instruction { inst_type: InstructionType::ROL, mode: AddrMode::ABS, cycles: 6 },
        0x2Fu8 => Instruction { inst_type: InstructionType::RLA, mode: AddrMode::ABS, cycles: 6 },
        0x30u8 => Instruction { inst_type: InstructionType::BMI, mode: AddrMode::REL, cycles: 2 },
        0x31u8 => Instruction { inst_type: InstructionType::AND, mode: AddrMode::IndY, cycles: 5 },
        0x32u8 => Instruction { inst_type: InstructionType::JAM, mode: AddrMode::JAM, cycles: 0 },
        0x33u8 => Instruction { inst_type: InstructionType::RLA, mode: AddrMode::IndY, cycles: 8 },
        0x34u8 => Instruction { inst_type: InstructionType::NOP, mode: AddrMode::ZpgX, cycles: 4 },
        0x35u8 => Instruction { inst_type: InstructionType::AND, mode: AddrMode::ZpgX, cycles: 4 },
        0x36u8 => Instruction { inst_type: InstructionType::ROL, mode: AddrMode::ZpgX, cycles: 6 },
        0x37u8 => Instruction { inst_type: InstructionType::RLA, mode: AddrMode::ZpgX, cycles: 6 },
        0x38u8 => Instruction { inst_type: InstructionType::SEC, mode: AddrMode::IMP, cycles: 2 },
        0x39u8 => Instruction { inst_type: InstructionType::AND, mode: AddrMode::AbsY, cycles: 4 },
        0x3Au8 => Instruction { inst_type: InstructionType::NOP, mode: AddrMode::IMP, cycles: 2 },
        0x3Bu8 => Instruction { inst_type: InstructionType::RLA, mode: AddrMode::AbsY, cycles: 7 },
        0x3Cu8 => Instruction { inst_type: InstructionType::NOP, mode: AddrMode::AbsX, cycles: 4 },
        0x3Du8 => Instruction { inst_type: InstructionType::AND, mode: AddrMode::AbsX, cycles: 4 },
        0x3Eu8 => Instruction { inst_type: InstructionType::ROL, mode: AddrMode::AbsX, cycles: 7 },
        0x3Fu8 => Instruction { inst_type: InstructionType::RLA, mode: AddrMode::AbsX, cycles: 7 },
        0x40u8 => Instruction { inst_type: InstructionType::RTI, mode: AddrMode::IMP, cycles: 6 },
        0x41u8 => Instruction { inst_type: InstructionType::EOR, mode: AddrMode::IndX, cycles: 6 },
        0x42u8 => Instruction { inst_type: InstructionType::JAM, mode: AddrMode::JAM, cycles: 0 },
        0x43u8 => Instruction { inst_type: InstructionType::SRE, mode: AddrMode::IndX, cycles: 8 },
        0x44u8 => Instruction { inst_type: InstructionType::NOP, mode: AddrMode::ZPG, cycles: 4 },
        0x45u8 => Instruction { inst_type: InstructionType::EOR, mode: AddrMode::ZPG, cycles: 3 },
        0x46u8 => Instruction { inst_type: InstructionType::LSR, mode: AddrMode::ZPG, cycles: 5 },
        0x47u8 => Instruction { inst_type: InstructionType::SRE, mode: AddrMode::ZPG, cycles: 5 },
        0x48u8 => Instruction { inst_type: InstructionType::PHA, mode: AddrMode::IMP, cycles: 3 },
        0x49u8 => Instruction { inst_type: InstructionType::EOR, mode: AddrMode::IMM, cycles: 2 },
        0x4Au8 => Instruction { inst_type: InstructionType::LSR, mode: AddrMode::A, cycles: 2 },
        0x4Bu8 => Instruction { inst_type: InstructionType::ALR, mode: AddrMode::IMM, cycles: 2 },
        0x4Cu8 => Instruction { inst_type: InstructionType::JMP, mode: AddrMode::ABS, cycles: 3 },
        0x4Du8 => Instruction { inst_type: InstructionType::EOR, mode: AddrMode::ABS, cycles: 4 },
        0x4Eu8 => Instruction { inst_type: InstructionType::LSR, mode: AddrMode::ABS, cycles: 6 },
        0x4Fu8 => Instruction { inst_type: InstructionType::SRE, mode: AddrMode::ABS, cycles: 6 },
        0x50u8 => Instruction { inst_type: InstructionType::BVC, mode: AddrMode::REL, cycles: 2 },
        0x51u8 => Instruction { inst_type: InstructionType::EOR, mode: AddrMode::IndY, cycles: 5 },
        0x52u8 => Instruction { inst_type: InstructionType::JAM, mode: AddrMode::JAM, cycles: 0 },
        0x53u8 => Instruction { inst_type: InstructionType::SRE, mode: AddrMode::IndY, cycles: 8 },
        0x54u8 => Instruction { inst_type: InstructionType::NOP, mode: AddrMode::ZpgX, cycles: 4 },
        0x55u8 => Instruction { inst_type: InstructionType::EOR, mode: AddrMode::ZpgX, cycles: 4 },
        0x56u8 => Instruction { inst_type: InstructionType::LSR, mode: AddrMode::ZpgX, cycles: 6 },
        0x57u8 => Instruction { inst_type: InstructionType::SRE, mode: AddrMode::ZpgX, cycles: 6 },
        0x58u8 => Instruction { inst_type: InstructionType::CLI, mode: AddrMode::IMP, cycles: 2 },
        0x59u8 => Instruction { inst_type: InstructionType::EOR, mode: AddrMode::AbsY, cycles: 4 },
        0x5Au8 => Instruction { inst_type: InstructionType::NOP, mode: AddrMode::IMP, cycles: 2 },
        0x5Bu8 => Instruction { inst_type: InstructionType::SRE, mode: AddrMode::AbsY, cycles: 7 },
        0x5Cu8 => Instruction { inst_type: InstructionType::NOP, mode: AddrMode::AbsX, cycles: 4 },
        0x5Du8 => Instruction { inst_type: InstructionType::EOR, mode: AddrMode::AbsX, cycles: 4 },
        0x5Eu8 => Instruction { inst_type: InstructionType::LSR, mode: AddrMode::AbsX, cycles: 7 },
        0x5Fu8 => Instruction { inst_type: InstructionType::SRE, mode: AddrMode::AbsX, cycles: 7 },
        0x60u8 => Instruction { inst_type: InstructionType::RTS, mode: AddrMode::IMP, cycles: 6 },
        0x61u8 => Instruction { inst_type: InstructionType::ADC, mode: AddrMode::IndX, cycles: 6 },
        0x62u8 => Instruction { inst_type: InstructionType::JAM, mode: AddrMode::JAM, cycles: 0 },
        0x63u8 => Instruction { inst_type: InstructionType::RRA, mode: AddrMode::IndX, cycles: 8 },
        0x64u8 => Instruction { inst_type: InstructionType::NOP, mode: AddrMode::ZPG, cycles: 4 },
        0x65u8 => Instruction { inst_type: InstructionType::ADC, mode: AddrMode::ZPG, cycles: 3 },
        0x66u8 => Instruction { inst_type: InstructionType::ROR, mode: AddrMode::ZPG, cycles: 5 },
        0x67u8 => Instruction { inst_type: InstructionType::RRA, mode: AddrMode::ZPG, cycles: 5 },
        0x68u8 => Instruction { inst_type: InstructionType::PLA, mode: AddrMode::IMP, cycles: 4 },
        0x69u8 => Instruction { inst_type: InstructionType::ADC, mode: AddrMode::IMM, cycles: 2 },
        0x6Au8 => Instruction { inst_type: InstructionType::ROR, mode: AddrMode::A, cycles: 2 },
        0x6Bu8 => Instruction { inst_type: InstructionType::ARR, mode: AddrMode::IMM, cycles: 2 },
        0x6Cu8 => Instruction { inst_type: InstructionType::JMP, mode: AddrMode::IND, cycles: 5 },
        0x6Du8 => Instruction { inst_type: InstructionType::ADC, mode: AddrMode::ABS, cycles: 4 },
        0x6Eu8 => Instruction { inst_type: InstructionType::ROR, mode: AddrMode::ABS, cycles: 6 },
        0x6Fu8 => Instruction { inst_type: InstructionType::RRA, mode: AddrMode::ABS, cycles: 6 },
        0x70u8 => Instruction { inst_type: InstructionType::BVS, mode: AddrMode::REL, cycles: 2 },
        0x71u8 => Instruction { inst_type: InstructionType::ADC, mode: AddrMode::IndY, cycles: 5 },
        0x72u8 => Instruction { inst_type: InstructionType::JAM, mode: AddrMode::JAM, cycles: 0 },
        0x73u8 => Instruction { inst_type: InstructionType::RRA, mode: AddrMode::IndY, cycles: 8 },
        0x74u8 => Instruction { inst_type: InstructionType::NOP, mode: AddrMode::ZpgX, cycles: 4 },
        0x75u8 => Instruction { inst_type: InstructionType::ADC, mode: AddrMode::ZpgX, cycles: 4 },
        0x76u8 => Instruction { inst_type: InstructionType::ROR, mode: AddrMode::ZpgX, cycles: 6 },
        0x77u8 => Instruction { inst_type: InstructionType::RRA, mode: AddrMode::ZpgX, cycles: 6 },
        0x78u8 => Instruction { inst_type: InstructionType::SEI, mode: AddrMode::IMP, cycles: 2 },
        0x79u8 => Instruction { inst_type: InstructionType::ADC, mode: AddrMode::AbsY, cycles: 4 },
        0x7Au8 => Instruction { inst_type: InstructionType::NOP, mode: AddrMode::IMP, cycles: 2 },
        0x7Bu8 => Instruction { inst_type: InstructionType::RRA, mode: AddrMode::AbsY, cycles: 7 },
        0x7Cu8 => Instruction { inst_type: InstructionType::NOP, mode: AddrMode::AbsX, cycles: 4 },
        0x7Du8 => Instruction { inst_type: InstructionType::ADC, mode: AddrMode::AbsX, cycles: 4 },
        0x7Eu8 => Instruction { inst_type: InstructionType::ROR, mode: AddrMode::AbsX, cycles: 7 },
        0x7Fu8 => Instruction { inst_type: InstructionType::RRA, mode: AddrMode::AbsX, cycles: 7 },
        0x80u8 => Instruction { inst_type: InstructionType::NOP, mode: AddrMode::IMP, cycles: 2 },
        0x81u8 => Instruction { inst_type: InstructionType::STA, mode: AddrMode::IndX, cycles: 6 },
        0x82u8 => Instruction { inst_type: InstructionType::NOP, mode: AddrMode::IMM, cycles: 2 },
        0x83u8 => Instruction { inst_type: InstructionType::SAX, mode: AddrMode::IndX, cycles: 6 },
        0x84u8 => Instruction { inst_type: InstructionType::STY, mode: AddrMode::ZPG, cycles: 3 },
        0x85u8 => Instruction { inst_type: InstructionType::STA, mode: AddrMode::ZPG, cycles: 3 },
        0x86u8 => Instruction { inst_type: InstructionType::STX, mode: AddrMode::ZPG, cycles: 3 },
        0x87u8 => Instruction { inst_type: InstructionType::SAX, mode: AddrMode::ZPG, cycles: 3 },
        0x88u8 => Instruction { inst_type: InstructionType::DEY, mode: AddrMode::IMP, cycles: 2 },
        0x89u8 => Instruction { inst_type: InstructionType::NOP, mode: AddrMode::IMM, cycles: 2 },
        0x8Au8 => Instruction { inst_type: InstructionType::TXA, mode: AddrMode::IMP, cycles: 2 },
        0x8Bu8 => Instruction { inst_type: InstructionType::ANE, mode: AddrMode::IMM, cycles: 2 },
        0x8Cu8 => Instruction { inst_type: InstructionType::STY, mode: AddrMode::ABS, cycles: 4 },
        0x8Du8 => Instruction { inst_type: InstructionType::STA, mode: AddrMode::ABS, cycles: 4 },
        0x8Eu8 => Instruction { inst_type: InstructionType::STX, mode: AddrMode::ABS, cycles: 4 },
        0x8Fu8 => Instruction { inst_type: InstructionType::SAX, mode: AddrMode::ABS, cycles: 4 },
        0x90u8 => Instruction { inst_type: InstructionType::BCC, mode: AddrMode::REL, cycles: 2 },
        0x91u8 => Instruction { inst_type: InstructionType::STA, mode: AddrMode::IndY, cycles: 6 },
        0x92u8 => Instruction { inst_type: InstructionType::JAM, mode: AddrMode::JAM, cycles: 0 },
        0x93u8 => Instruction { inst_type: InstructionType::SHA, mode: AddrMode::IndY, cycles: 6 },
        0x94u8 => Instruction { inst_type: InstructionType::STY, mode: AddrMode::ZpgX, cycles: 4 },
        0x95u8 => Instruction { inst_type: InstructionType::STA, mode: AddrMode::ZpgX, cycles: 4 },
        0x96u8 => Instruction { inst_type: InstructionType::STX, mode: AddrMode::ZpgY, cycles: 4 },
        0x97u8 => Instruction { inst_type: InstructionType::SAX, mode: AddrMode::ZpgY, cycles: 4 },
        0x98u8 => Instruction { inst_type: InstructionType::TYA, mode: AddrMode::IMP, cycles: 2 },
        0x99u8 => Instruction { inst_type: InstructionType::STA, mode: AddrMode::AbsY, cycles: 5 },
        0x9Au8 => Instruction { inst_type: InstructionType::TXS, mode: AddrMode::IMP, cycles: 2 },
        0x9Bu8 => Instruction { inst_type: InstructionType::TAS, mode: AddrMode::AbsY, cycles: 5 },
        0x9Cu8 => Instruction { inst_type: InstructionType::SHY, mode: AddrMode::AbsX, cycles: 5 },
        0x9Du8 => Instruction { inst_type: InstructionType::STA, mode: AddrMode::AbsX, cycles: 5 },
        0x9Eu8 => Instruction { inst_type: InstructionType::SHX, mode: AddrMode::AbsY, cycles: 5 },
        0x9Fu8 => Instruction { inst_type: InstructionType::SHA, mode: AddrMode::AbsY, cycles: 5 },
        0xA0u8 => Instruction { inst_type: InstructionType::LDY, mode: AddrMode::IMM, cycles: 2 },
        0xA1u8 => Instruction { inst_type: InstructionType::LDA, mode: AddrMode::IndX, cycles: 6 },
        0xA2u8 => Instruction { inst_type: InstructionType::LDX, mode: AddrMode::IMM, cycles: 2 },
        0xA3u8 => Instruction { inst_type: InstructionType::LAX, mode: AddrMode::IndX, cycles: 6 },
        0xA4u8 => Instruction { inst_type: InstructionType::LDY, mode: AddrMode::ZPG, cycles: 3 },
        0xA5u8 => Instruction { inst_type: InstructionType::LDA, mode: AddrMode::ZPG, cycles: 3 },
        0xA6u8 => Instruction { inst_type: InstructionType::LDX, mode: AddrMode::ZPG, cycles: 3 },
        0xA7u8 => Instruction { inst_type: InstructionType::LAX, mode: AddrMode::ZPG, cycles: 3 },
        0xA8u8 => Instruction { inst_type: InstructionType::TAY, mode: AddrMode::IMP, cycles: 2 },
        0xA9u8 => Instruction { inst_type: InstructionType::LDA, mode: AddrMode::IMM, cycles: 2 },
        0xAAu8 => Instruction { inst_type: InstructionType::TAX, mode: AddrMode::IMP, cycles: 2 },
        0xABu8 => Instruction { inst_type: InstructionType::LXA, mode: AddrMode::IMM, cycles: 2 },
        0xACu8 => Instruction { inst_type: InstructionType::LDY, mode: AddrMode::ABS, cycles: 4 },
        0xADu8 => Instruction { inst_type: InstructionType::LDA, mode: AddrMode::ABS, cycles: 4 },
        0xAEu8 => Instruction { inst_type: InstructionType::LDX, mode: AddrMode::ABS, cycles: 4 },
        0xAFu8 => Instruction { inst_type: InstructionType::LAX, mode: AddrMode::ABS, cycles: 4 },
        0xB0u8 => Instruction { inst_type: InstructionType::BCS, mode: AddrMode::REL, cycles: 2 },
        0xB1u8 => Instruction { inst_type: InstructionType::LDA, mode: AddrMode::IndY, cycles: 5 },
        0xB2u8 => Instruction { inst_type: InstructionType::JAM, mode: AddrMode::JAM, cycles: 0 },
        0xB3u8 => Instruction { inst_type: InstructionType::LAX, mode: AddrMode::IndY, cycles: 5 },
        0xB4u8 => Instruction { inst_type: InstructionType::LDY, mode: AddrMode::ZpgX, cycles: 4 },
        0xB5u8 => Instruction { inst_type: InstructionType::LDA, mode: AddrMode::ZpgX, cycles: 4 },
        0xB6u8 => Instruction { inst_type: InstructionType::LDX, mode: AddrMode::ZpgY, cycles: 4 },
        0xB7u8 => Instruction { inst_type: InstructionType::LAX, mode: AddrMode::ZpgY, cycles: 4 },
        0xB8u8 => Instruction { inst_type: InstructionType::CLV, mode: AddrMode::IMP, cycles: 2 },
        0xB9u8 => Instruction { inst_type: InstructionType::LDA, mode: AddrMode::AbsY, cycles: 4 },
        0xBAu8 => Instruction { inst_type: InstructionType::TSX, mode: AddrMode::IMP, cycles: 2 },
        0xBBu8 => Instruction { inst_type: InstructionType::LAS, mode: AddrMode::AbsY, cycles: 4 },
        0xBCu8 => Instruction { inst_type: InstructionType::LDY, mode: AddrMode::AbsX, cycles: 4 },
        0xBDu8 => Instruction { inst_type: InstructionType::LDA, mode: AddrMode::AbsX, cycles: 4 },
        0xBEu8 => Instruction { inst_type: InstructionType::LDX, mode: AddrMode::AbsY, cycles: 4 },
        0xBFu8 => Instruction { inst_type: InstructionType::LAX, mode: AddrMode::AbsY, cycles: 4 },
        0xC0u8 => Instruction { inst_type: InstructionType::CPY, mode: AddrMode::IMM, cycles: 2 },
        0xC1u8 => Instruction { inst_type: InstructionType::CMP, mode: AddrMode::IndX, cycles: 6 },
        0xC2u8 => Instruction { inst_type: InstructionType::NOP, mode: AddrMode::IMM, cycles: 2 },
        0xC3u8 => Instruction { inst_type: InstructionType::DCP, mode: AddrMode::IndX, cycles: 8 },
        0xC4u8 => Instruction { inst_type: InstructionType::CPY, mode: AddrMode::ZPG, cycles: 3 },
        0xC5u8 => Instruction { inst_type: InstructionType::CMP, mode: AddrMode::ZPG, cycles: 3 },
        0xC6u8 => Instruction { inst_type: InstructionType::DEC, mode: AddrMode::ZPG, cycles: 5 },
        0xC7u8 => Instruction { inst_type: InstructionType::DCP, mode: AddrMode::ZPG, cycles: 5 },
        0xC8u8 => Instruction { inst_type: InstructionType::INY, mode: AddrMode::IMP, cycles: 2 },
        0xC9u8 => Instruction { inst_type: InstructionType::CMP, mode: AddrMode::IMM, cycles: 2 },
        0xCAu8 => Instruction { inst_type: InstructionType::DEX, mode: AddrMode::IMP, cycles: 2 },
        0xCBu8 => Instruction { inst_type: InstructionType::SBX, mode: AddrMode::IMM, cycles: 2 },
        0xCCu8 => Instruction { inst_type: InstructionType::CPY, mode: AddrMode::ABS, cycles: 4 },
        0xCDu8 => Instruction { inst_type: InstructionType::CMP, mode: AddrMode::ABS, cycles: 4 },
        0xCEu8 => Instruction { inst_type: InstructionType::DEC, mode: AddrMode::ABS, cycles: 6 },
        0xCFu8 => Instruction { inst_type: InstructionType::DCP, mode: AddrMode::ABS, cycles: 6 },
        0xD0u8 => Instruction { inst_type: InstructionType::BNE, mode: AddrMode::REL, cycles: 2 },
        0xD1u8 => Instruction { inst_type: InstructionType::CMP, mode: AddrMode::IndY, cycles: 5 },
        0xD2u8 => Instruction { inst_type: InstructionType::JAM, mode: AddrMode::JAM, cycles: 0 },
        0xD3u8 => Instruction { inst_type: InstructionType::DCP, mode: AddrMode::IndY, cycles: 8 },
        0xD4u8 => Instruction { inst_type: InstructionType::NOP, mode: AddrMode::ZpgX, cycles: 4 },
        0xD5u8 => Instruction { inst_type: InstructionType::CMP, mode: AddrMode::ZpgX, cycles: 4 },
        0xD6u8 => Instruction { inst_type: InstructionType::DEC, mode: AddrMode::ZpgX, cycles: 6 },
        0xD7u8 => Instruction { inst_type: InstructionType::DCP, mode: AddrMode::ZpgX, cycles: 6 },
        0xD8u8 => Instruction { inst_type: InstructionType::CLD, mode: AddrMode::IMP, cycles: 2 },
        0xD9u8 => Instruction { inst_type: InstructionType::CMP, mode: AddrMode::AbsY, cycles: 4 },
        0xDAu8 => Instruction { inst_type: InstructionType::NOP, mode: AddrMode::IMP, cycles: 2 },
        0xDBu8 => Instruction { inst_type: InstructionType::DCP, mode: AddrMode::AbsY, cycles: 7 },
        0xDCu8 => Instruction { inst_type: InstructionType::NOP, mode: AddrMode::AbsX, cycles: 4 },
        0xDDu8 => Instruction { inst_type: InstructionType::CMP, mode: AddrMode::AbsX, cycles: 4 },
        0xDEu8 => Instruction { inst_type: InstructionType::DEC, mode: AddrMode::AbsX, cycles: 7 },
        0xDFu8 => Instruction { inst_type: InstructionType::DCP, mode: AddrMode::AbsX, cycles: 7 },
        0xE0u8 => Instruction { inst_type: InstructionType::CPX, mode: AddrMode::IMM, cycles: 2 },
        0xE1u8 => Instruction { inst_type: InstructionType::SBC, mode: AddrMode::IndX, cycles: 6 },
        0xE2u8 => Instruction { inst_type: InstructionType::NOP, mode: AddrMode::IMM, cycles: 2 },
        0xE3u8 => Instruction { inst_type: InstructionType::ISC, mode: AddrMode::IndX, cycles: 8 },
        0xE4u8 => Instruction { inst_type: InstructionType::CPX, mode: AddrMode::ZPG, cycles: 3 },
        0xE5u8 => Instruction { inst_type: InstructionType::SBC, mode: AddrMode::ZPG, cycles: 3 },
        0xE6u8 => Instruction { inst_type: InstructionType::INC, mode: AddrMode::ZPG, cycles: 5 },
        0xE7u8 => Instruction { inst_type: InstructionType::ISC, mode: AddrMode::ZPG, cycles: 5 },
        0xE8u8 => Instruction { inst_type: InstructionType::INX, mode: AddrMode::IMP, cycles: 2 },
        0xE9u8 => Instruction { inst_type: InstructionType::SBC, mode: AddrMode::IMM, cycles: 2 },
        0xEAu8 => Instruction { inst_type: InstructionType::NOP, mode: AddrMode::IMP, cycles: 2 },
        0xEBu8 => Instruction { inst_type: InstructionType::USBC, mode: AddrMode::IMM, cycles: 2 },
        0xECu8 => Instruction { inst_type: InstructionType::CPX, mode: AddrMode::ABS, cycles: 4 },
        0xEDu8 => Instruction { inst_type: InstructionType::SBC, mode: AddrMode::ABS, cycles: 4 },
        0xEEu8 => Instruction { inst_type: InstructionType::INC, mode: AddrMode::ABS, cycles: 6 },
        0xEFu8 => Instruction { inst_type: InstructionType::ISC, mode: AddrMode::ABS, cycles: 6 },
        0xF0u8 => Instruction { inst_type: InstructionType::BEQ, mode: AddrMode::REL, cycles: 2 },
        0xF1u8 => Instruction { inst_type: InstructionType::SBC, mode: AddrMode::IndY, cycles: 5 },
        0xF2u8 => Instruction { inst_type: InstructionType::JAM, mode: AddrMode::JAM, cycles: 0 },
        0xF3u8 => Instruction { inst_type: InstructionType::ISC, mode: AddrMode::IndY, cycles: 8 },
        0xF4u8 => Instruction { inst_type: InstructionType::NOP, mode: AddrMode::ZpgX, cycles: 4 },
        0xF5u8 => Instruction { inst_type: InstructionType::SBC, mode: AddrMode::ZpgX, cycles: 4 },
        0xF6u8 => Instruction { inst_type: InstructionType::INC, mode: AddrMode::ZpgX, cycles: 6 },
        0xF7u8 => Instruction { inst_type: InstructionType::ISC, mode: AddrMode::ZpgX, cycles: 6 },
        0xF8u8 => Instruction { inst_type: InstructionType::SED, mode: AddrMode::IMP, cycles: 2 },
        0xF9u8 => Instruction { inst_type: InstructionType::SBC, mode: AddrMode::AbsY, cycles: 4 },
        0xFAu8 => Instruction { inst_type: InstructionType::NOP, mode: AddrMode::IMP, cycles: 2 },
        0xFBu8 => Instruction { inst_type: InstructionType::ISC, mode: AddrMode::AbsY, cycles: 7 },
        0xFCu8 => Instruction { inst_type: InstructionType::NOP, mode: AddrMode::AbsX, cycles: 4 },
        0xFDu8 => Instruction { inst_type: InstructionType::SBC, mode: AddrMode::AbsX, cycles: 4 },
        0xFEu8 => Instruction { inst_type: InstructionType::INC, mode: AddrMode::AbsX, cycles: 7 },
        _ => Instruction { inst_type: InstructionType::ISC, mode: AddrMode::AbsX, cycles: 7 },
    }
}

/// Decode one opcode byte.  Total: every byte value maps to exactly one
/// descriptor; undocumented opcodes map to their placeholder kinds.
pub fn lookup(op: u8) -> (r: Instruction)
    ensures
        r == spec_lookup(op),
{
    match op {
        0x00 => Instruction { inst_type: InstructionType::BRK, mode: AddrMode::IMP, cycles: 7 },
        0x01 => Instruction { inst_type: InstructionType::ORA, mode: AddrMode::IndX, cycles: 6 },
        0x02 => Instruction { inst_type: InstructionType::JAM, mode: AddrMode::JAM, cycles: 0 },
        0x03 => Instruction { inst_type: InstructionType::SLO, mode: AddrMode::ZPG, cycles: 5 },
        0x04 => Instruction { inst_type: InstructionType::NOP, mode: AddrMode::ZPG, cycles: 3 },
        0x05 => Instruction { inst_type: InstructionType::ORA, mode: AddrMode::ZPG, cycles: 3 },
        0x06 => Instruction { inst_type: InstructionType::ASL, mode: AddrMode::ZPG, cycles: 5 },
        0x07 => Instruction { inst_type: InstructionType::SLO, mode: AddrMode::ZPG, cycles: 5 },
        0x08 => Instruction { inst_type: InstructionType::PHP, mode: AddrMode::IMP, cycles: 3 },
        0x09 => Instruction { inst_type: InstructionType::ORA, mode: AddrMode::IMM, cycles: 2 },
        0x0A => Instruction { inst_type: InstructionType::ASL, mode: AddrMode::A, cycles: 2 },
        0x0B => Instruction { inst_type: InstructionType::ANC, mode: AddrMode::IMM, cycles: 2 },
        0x0C => Instruction { inst_type: InstructionType::NOP, mode: AddrMode::ABS, cycles: 4 },
        0x0D => Instruction { inst_type: InstructionType::ORA, mode: AddrMode::ABS, cycles: 4 },
        0x0E => Instruction { inst_type: InstructionType::ASL, mode: AddrMode::ABS, cycles: 6 },
        0x0F => Instruction { inst_type: InstructionType::SLO, mode: AddrMode::ABS, cycles: 6 },
        0x10 => Instruction { inst_type: InstructionType::BPL, mode: AddrMode::REL, cycles: 2 },
        0x11 => Instruction { inst_type: InstructionType::ORA, mode: AddrMode::IndY, cycles: 5 },
        0x12 => Instruction { inst_type: InstructionType::JAM, mode: AddrMode::JAM, cycles: 0 },
        0x13 => Instruction { inst_type: InstructionType::SLO, mode: AddrMode::IndY, cycles: 8 },
        0x14 => Instruction { inst_type: InstructionType::NOP, mode: AddrMode::ZpgX, cycles: 4 },
        0x15 => Instruction { inst_type: InstructionType::ORA, mode: AddrMode::ZpgX, cycles: 4 },
        0x16 => Instruction { inst_type: InstructionType::ASL, mode: AddrMode::ZpgX, cycles: 6 },
        0x17 => Instruction { inst_type: InstructionType::SLO, mode: AddrMode::ZpgX, cycles: 6 },
        0x18 => Instruction { inst_type: InstructionType::CLC, mode: AddrMode::IMP, cycles: 2 },
        0x19 => Instruction { inst_type: InstructionType::ORA, mode: AddrMode::AbsY, cycles: 4 },
        0x1A => Instruction { inst_type: InstructionType::NOP, mode: AddrMode::IMP, cycles: 2 },
        0x1B => Instruction { inst_type: InstructionType::SLO, mode: AddrMode::AbsY, cycles: 7 },
        0x1C => Instruction { inst_type: InstructionType::NOP, mode: AddrMode::AbsX, cycles: 4 },
        0x1D => Instruction { inst_type: InstructionType::ORA, mode: AddrMode::AbsX, cycles: 4 },
        0x1E => Instruction { inst_type: InstructionType::ASL, mode: AddrMode::AbsX, cycles: 7 },
        0x1F => Instruction { inst_type: InstructionType::SLO, mode: AddrMode::AbsX, cycles: 7 },
        0x20 => Instruction { inst_type: InstructionType::JSR, mode: AddrMode::ABS, cycles: 6 },
        0x21 => Instruction { inst_type: InstructionType::AND, mode: AddrMode::IndX, cycles: 6 },
        0x22 => Instruction { inst_type: InstructionType::JAM, mode: AddrMode::JAM, cycles: 0 },
        0x23 => Instruction { inst_type: InstructionType::RLA, mode: AddrMode::IndX, cycles: 8 },
        0x24 => Instruction { inst_type: InstructionType::BIT, mode: AddrMode::ZPG, cycles: 3 },
        0x25 => Instruction { inst_type: InstructionType::AND, mode: AddrMode::ZPG, cycles: 3 },
        0x26 => Instruction { inst_type: InstructionType::ROL, mode: AddrMode::ZPG, cycles: 5 },
        0x27 => Instruction { inst_type: InstructionType::RLA, mode: AddrMode::ZPG, cycles: 5 },
        0x28 => Instruction { inst_type: InstructionType::PLP, mode: AddrMode::IMP, cycles: 4 },
        0x29 => Instruction { inst_type: InstructionType::AND, mode: AddrMode::IMM, cycles: 2 },
        0x2A => Instruction { inst_type: InstructionType::ROL, mode: AddrMode::A, cycles: 2 },
        0x2B => Instruction { inst_type: InstructionType::ANC, mode: AddrMode::IMM, cycles: 2 },
        0x2C => Instruction { inst_type: InstructionType::BIT, mode: AddrMode::ABS, cycles: 4 },
        0x2D => Instruction { inst_type: InstructionType::AND, mode: AddrMode::ABS, cycles: 4 },
        0x2E => Instruction { inst_type: InstructionType::ROL, mode: AddrMode::ABS, cycles: 6 },
        0x2F => Instruction { inst_type: InstructionType::RLA, mode: AddrMode::ABS, cycles: 6 },
        0x30 => Instruction { inst_type: InstructionType::BMI, mode: AddrMode::REL, cycles: 2 },
        0x31 => Instruction { inst_type: InstructionType::AND, mode: AddrMode::IndY, cycles: 5 },
        0x32 => Instruction { inst_type: InstructionType::JAM, mode: AddrMode::JAM, cycles: 0 },
        0x33 => Instruction { inst_type: InstructionType::RLA, mode: AddrMode::IndY, cycles: 8 },
        0x34 => Instruction { inst_type: InstructionType::NOP, mode: AddrMode::ZpgX, cycles: 4 },
        0x35 => Instruction { inst_type: InstructionType::AND, mode: AddrMode::ZpgX, cycles: 4 },
        0x36 => Instruction { inst_type: InstructionType::ROL, mode: AddrMode::ZpgX, cycles: 6 },
        0x37 => Instruction { inst_type: InstructionType::RLA, mode: AddrMode::ZpgX, cycles: 6 },
        0x38 => Instruction { inst_type: InstructionType::SEC, mode: AddrMode::IMP, cycles: 2 },
        0x39 => Instruction { inst_type: InstructionType::AND, mode: AddrMode::AbsY, cycles: 4 },
        0x3A => Instruction { inst_type: InstructionType::NOP, mode: AddrMode::IMP, cycles: 2 },
        0x3B => Instruction { inst_type: InstructionType::RLA, mode: AddrMode::AbsY, cycles: 7 },
        0x3C => Instruction { inst_type: InstructionType::NOP, mode: AddrMode::AbsX, cycles: 4 },
        0x3D => Instruction { inst_type: InstructionType::AND, mode: AddrMode::AbsX, cycles: 4 },
        0x3E => Instruction { inst_type: InstructionType::ROL, mode: AddrMode::AbsX, cycles: 7 },
        0x3F => Instruction { inst_type: InstructionType::RLA, mode: AddrMode::AbsX, cycles: 7 },
        0x40 => Instruction { inst_type: InstructionType::RTI, mode: AddrMode::IMP, cycles: 6 },
        0x41 => Instruction { inst_type: InstructionType::EOR, mode: AddrMode::IndX, cycles: 6 },
        0x42 => Instruction { inst_type: InstructionType::JAM, mode: AddrMode::JAM, cycles: 0 },
        0x43 => Instruction { inst_type: InstructionType::SRE, mode: AddrMode::IndX, cycles: 8 },
        0x44 => Instruction { inst_type: InstructionType::NOP, mode: AddrMode::ZPG, cycles: 4 },
        0x45 => Instruction { inst_type: InstructionType::EOR, mode: AddrMode::ZPG, cycles: 3 },
        0x46 => Instruction { inst_type: InstructionType::LSR, mode: AddrMode::ZPG, cycles: 5 },
        0x47 => Instruction { inst_type: InstructionType::SRE, mode: AddrMode::ZPG, cycles: 5 },
        0x48 => Instruction { inst_type: InstructionType::PHA, mode: AddrMode::IMP, cycles: 3 },
        0x49 => Instruction { inst_type: InstructionType::EOR, mode: AddrMode::IMM, cycles: 2 },
        0x4A => Instruction { inst_type: InstructionType::LSR, mode: AddrMode::A, cycles: 2 },
        0x4B => Instruction { inst_type: InstructionType::ALR, mode: AddrMode::IMM, cycles: 2 },
        0x4C => Instruction { inst_type: InstructionType::JMP, mode: AddrMode::ABS, cycles: 3 },
        0x4D => Instruction { inst_type: InstructionType::EOR, mode: AddrMode::ABS, cycles: 4 },
        0x4E => Instruction { inst_type: InstructionType::LSR, mode: AddrMode::ABS, cycles: 6 },
        0x4F => Instruction { inst_type: InstructionType::SRE, mode: AddrMode::ABS, cycles: 6 },
        0x50 => Instruction { inst_type: InstructionType::BVC, mode: AddrMode::REL, cycles: 2 },
        0x51 => Instruction { inst_type: InstructionType::EOR, mode: AddrMode::IndY, cycles: 5 },
        0x52 => Instruction { inst_type: InstructionType::JAM, mode: AddrMode::JAM, cycles: 0 },
        0x53 => Instruction { inst_type: InstructionType::SRE, mode: AddrMode::IndY, cycles: 8 },
        0x54 => Instruction { inst_type: InstructionType::NOP, mode: AddrMode::ZpgX, cycles: 4 },
        0x55 => Instruction { inst_type: InstructionType::EOR, mode: AddrMode::ZpgX, cycles: 4 },
        0x56 => Instruction { inst_type: InstructionType::LSR, mode: AddrMode::ZpgX, cycles: 6 },
        0x57 => Instruction { inst_type: InstructionType::SRE, mode: AddrMode::ZpgX, cycles: 6 },
        0x58 => Instruction { inst_type: InstructionType::CLI, mode: AddrMode::IMP, cycles: 2 },
        0x59 => Instruction { inst_type: InstructionType::EOR, mode: AddrMode::AbsY, cycles: 4 },
        0x5A => Instruction { inst_type: InstructionType::NOP, mode: AddrMode::IMP, cycles: 2 },
        0x5B => Instruction { inst_type: InstructionType::SRE, mode: AddrMode::AbsY, cycles: 7 },
        0x5C => Instruction { inst_type: InstructionType::NOP, mode: AddrMode::AbsX, cycles: 4 },
        0x5D => Instruction { inst_type: InstructionType::EOR, mode: AddrMode::AbsX, cycles: 4 },
        0x5E => Instruction { inst_type: InstructionType::LSR, mode: AddrMode::AbsX, cycles: 7 },
        0x5F => Instruction { inst_type: InstructionType::SRE, mode: AddrMode::AbsX, cycles: 7 },
        0x60 => Instruction { inst_type: InstructionType::RTS, mode: AddrMode::IMP, cycles: 6 },
        0x61 => Instruction { inst_type: InstructionType::ADC, mode: AddrMode::IndX, cycles: 6 },
        0x62 => Instruction { inst_type: InstructionType::JAM, mode: AddrMode::JAM, cycles: 0 },
        0x63 => Instruction { inst_type: InstructionType::RRA, mode: AddrMode::IndX, cycles: 8 },
        0x64 => Instruction { inst_type: InstructionType::NOP, mode: AddrMode::ZPG, cycles: 4 },
        0x65 => Instruction { inst_type: InstructionType::ADC, mode: AddrMode::ZPG, cycles: 3 },
        0x66 => Instruction { inst_type: InstructionType::ROR, mode: AddrMode::ZPG, cycles: 5 },
        0x67 => Instruction { inst_type: InstructionType::RRA, mode: AddrMode::ZPG, cycles: 5 },
        0x68 => Instruction { inst_type: InstructionType::PLA, mode: AddrMode::IMP, cycles: 4 },
        0x69 => Instruction { inst_type: InstructionType::ADC, mode: AddrMode::IMM, cycles: 2 },
        0x6A => Instruction { inst_type: InstructionType::ROR, mode: AddrMode::A, cycles: 2 },
        0x6B => Instruction { inst_type: InstructionType::ARR, mode: AddrMode::IMM, cycles: 2 },
        0x6C => Instruction { inst_type: InstructionType::JMP, mode: AddrMode::IND, cycles: 5 },
        0x6D => Instruction { inst_type: InstructionType::ADC, mode: AddrMode::ABS, cycles: 4 },
        0x6E => Instruction { inst_type: InstructionType::ROR, mode: AddrMode::ABS, cycles: 6 },
        0x6F => Instruction { inst_type: InstructionType::RRA, mode: AddrMode::ABS, cycles: 6 },
        0x70 => Instruction { inst_type: InstructionType::BVS, mode: AddrMode::REL, cycles: 2 },
        0x71 => Instruction { inst_type: InstructionType::ADC, mode: AddrMode::IndY, cycles: 5 },
        0x72 => Instruction { inst_type: InstructionType::JAM, mode: AddrMode::JAM, cycles: 0 },
        0x73 => Instruction { inst_type: InstructionType::RRA, mode: AddrMode::IndY, cycles: 8 },
        0x74 => Instruction { inst_type: InstructionType::NOP, mode: AddrMode::ZpgX, cycles: 4 },
        0x75 => Instruction { inst_type: InstructionType::ADC, mode: AddrMode::ZpgX, cycles: 4 },
        0x76 => Instruction { inst_type: InstructionType::ROR, mode: AddrMode::ZpgX, cycles: 6 },
        0x77 => Instruction { inst_type: InstructionType::RRA, mode: AddrMode::ZpgX, cycles: 6 },
        0x78 => Instruction { inst_type: InstructionType::SEI, mode: AddrMode::IMP, cycles: 2 },
        0x79 => Instruction { inst_type: InstructionType::ADC, mode: AddrMode::AbsY, cycles: 4 },
        0x7A => Instruction { inst_type: InstructionType::NOP, mode: AddrMode::IMP, cycles: 2 },
        0x7B => Instruction { inst_type: InstructionType::RRA, mode: AddrMode::AbsY, cycles: 7 },
        0x7C => Instruction { inst_type: InstructionType::NOP, mode: AddrMode::AbsX, cycles: 4 },
        0x7D => Instruction { inst_type: InstructionType::ADC, mode: AddrMode::AbsX, cycles: 4 },
        0x7E => Instruction { inst_type: InstructionType::ROR, mode: AddrMode::AbsX, cycles: 7 },
        0x7F => Instruction { inst_type: InstructionType::RRA, mode: AddrMode::AbsX, cycles: 7 },
        0x80 => Instruction { inst_type: InstructionType::NOP, mode: AddrMode::IMP, cycles: 2 },
        0x81 => Instruction { inst_type: InstructionType::STA, mode: AddrMode::IndX, cycles: 6 },
        0x82 => Instruction { inst_type: InstructionType::NOP, mode: AddrMode::IMM, cycles: 2 },
        0x83 => Instruction { inst_type: InstructionType::SAX, mode: AddrMode::IndX, cycles: 6 },
        0x84 => Instruction { inst_type: InstructionType::STY, mode: AddrMode::ZPG, cycles: 3 },
        0x85 => Instruction { inst_type: InstructionType::STA, mode: AddrMode::ZPG, cycles: 3 },
        0x86 => Instruction { inst_type: InstructionType::STX, mode: AddrMode::ZPG, cycles: 3 },
        0x87 => Instruction { inst_type: InstructionType::SAX, mode: AddrMode::ZPG, cycles: 3 },
        0x88 => Instruction { inst_type: InstructionType::DEY, mode: AddrMode::IMP, cycles: 2 },
        0x89 => Instruction { inst_type: InstructionType::NOP, mode: AddrMode::IMM, cycles: 2 },
        0x8A => Instruction { inst_type: InstructionType::TXA, mode: AddrMode::IMP, cycles: 2 },
        0x8B => Instruction { inst_type: InstructionType::ANE, mode: AddrMode::IMM, cycles: 2 },
        0x8C => Instruction { inst_type: InstructionType::STY, mode: AddrMode::ABS, cycles: 4 },
        0x8D => Instruction { inst_type: InstructionType::STA, mode: AddrMode::ABS, cycles: 4 },
        0x8E => Instruction { inst_type: InstructionType::STX, mode: AddrMode::ABS, cycles: 4 },
        0x8F => Instruction { inst_type: InstructionType::SAX, mode: AddrMode::ABS, cycles: 4 },
        0x90 => Instruction { inst_type: InstructionType::BCC, mode: AddrMode::REL, cycles: 2 },
        0x91 => Instruction { inst_type: InstructionType::STA, mode: AddrMode::IndY, cycles: 6 },
        0x92 => Instruction { inst_type: InstructionType::JAM, mode: AddrMode::JAM, cycles: 0 },
        0x93 => Instruction { inst_type: InstructionType::SHA, mode: AddrMode::IndY, cycles: 6 },
        0x94 => Instruction { inst_type: InstructionType::STY, mode: AddrMode::ZpgX, cycles: 4 },
        0x95 => Instruction { inst_type: InstructionType::STA, mode: AddrMode::ZpgX, cycles: 4 },
        0x96 => Instruction { inst_type: InstructionType::STX, mode: AddrMode::ZpgY, cycles: 4 },
        0x97 => Instruction { inst_type: InstructionType::SAX, mode: AddrMode::ZpgY, cycles: 4 },
        0x98 => Instruction { inst_type: InstructionType::TYA, mode: AddrMode::IMP, cycles: 2 },
        0x99 => Instruction { inst_type: InstructionType::STA, mode: AddrMode::AbsY, cycles: 5 },
        0x9A => Instruction { inst_type: InstructionType::TXS, mode: AddrMode::IMP, cycles: 2 },
        0x9B => Instruction { inst_type: InstructionType::TAS, mode: AddrMode::AbsY, cycles: 5 },
        0x9C => Instruction { inst_type: InstructionType::SHY, mode: AddrMode::AbsX, cycles: 5 },
        0x9D => Instruction { inst_type: InstructionType::STA, mode: AddrMode::AbsX, cycles: 5 },
        0x9E => Instruction { inst_type: InstructionType::SHX, mode: AddrMode::AbsY, cycles: 5 },
        0x9F => Instruction { inst_type: InstructionType::SHA, mode: AddrMode::AbsY, cycles: 5 },
        0xA0 => Instruction { inst_type: InstructionType::LDY, mode: AddrMode::IMM, cycles: 2 },
        0xA1 => Instruction { inst_type: InstructionType::LDA, mode: AddrMode::IndX, cycles: 6 },
        0xA2 => Instruction { inst_type: InstructionType::LDX, mode: AddrMode::IMM, cycles: 2 },
        0xA3 => Instruction { inst_type: InstructionType::LAX, mode: AddrMode::IndX, cycles: 6 },
        0xA4 => Instruction { inst_type: InstructionType::LDY, mode: AddrMode::ZPG, cycles: 3 },
        0xA5 => Instruction { inst_type: InstructionType::LDA, mode: AddrMode::ZPG, cycles: 3 },
        0xA6 => Instruction { inst_type: InstructionType::LDX, mode: AddrMode::ZPG, cycles: 3 },
        0xA7 => Instruction { inst_type: InstructionType::LAX, mode: AddrMode::ZPG, cycles: 3 },
        0xA8 => Instruction { inst_type: InstructionType::TAY, mode: AddrMode::IMP, cycles: 2 },
        0xA9 => Instruction { inst_type: InstructionType::LDA, mode: AddrMode::IMM, cycles: 2 },
        0xAA => Instruction { inst_type: InstructionType::TAX, mode: AddrMode::IMP, cycles: 2 },
        0xAB => Instruction { inst_type: InstructionType::LXA, mode: AddrMode::IMM, cycles: 2 },
        0xAC => Instruction { inst_type: InstructionType::LDY, mode: AddrMode::ABS, cycles: 4 },
        0xAD => Instruction { inst_type: InstructionType::LDA, mode: AddrMode::ABS, cycles: 4 },
        0xAE => Instruction { inst_type: InstructionType::LDX, mode: AddrMode::ABS, cycles: 4 },
        0xAF => Instruction { inst_type: InstructionType::LAX, mode: AddrMode::ABS, cycles: 4 },
        0xB0 => Instruction { inst_type: InstructionType::BCS, mode: AddrMode::REL, cycles: 2 },
        0xB1 => Instruction { inst_type: InstructionType::LDA, mode: AddrMode::IndY, cycles: 5 },
        0xB2 => Instruction { inst_type: InstructionType::JAM, mode: AddrMode::JAM, cycles: 0 },
        0xB3 => Instruction { inst_type: InstructionType::LAX, mode: AddrMode::IndY, cycles: 5 },
        0xB4 => Instruction { inst_type: InstructionType::LDY, mode: AddrMode::ZpgX, cycles: 4 },
        0xB5 => Instruction { inst_type: InstructionType::LDA, mode: AddrMode::ZpgX, cycles: 4 },
        0xB6 => Instruction { inst_type: InstructionType::LDX, mode: AddrMode::ZpgY, cycles: 4 },
        0xB7 => Instruction { inst_type: InstructionType::LAX, mode: AddrMode::ZpgY, cycles: 4 },
        0xB8 => Instruction { inst_type: InstructionType::CLV, mode: AddrMode::IMP, cycles: 2 },
        0xB9 => Instruction { inst_type: InstructionType::LDA, mode: AddrMode::AbsY, cycles: 4 },
        0xBA => Instruction { inst_type: InstructionType::TSX, mode: AddrMode::IMP, cycles: 2 },
        0xBB => Instruction { inst_type: InstructionType::LAS, mode: AddrMode::AbsY, cycles: 4 },
        0xBC => Instruction { inst_type: InstructionType::LDY, mode: AddrMode::AbsX, cycles: 4 },
        0xBD => Instruction { inst_type: InstructionType::LDA, mode: AddrMode::AbsX, cycles: 4 },
        0xBE => Instruction { inst_type: InstructionType::LDX, mode: AddrMode::AbsY, cycles: 4 },
        0xBF => Instruction { inst_type: InstructionType::LAX, mode: AddrMode::AbsY, cycles: 4 },
        0xC0 => Instruction { inst_type: InstructionType::CPY, mode: AddrMode::IMM, cycles: 2 },
        0xC1 => Instruction { inst_type: InstructionType::CMP, mode: AddrMode::IndX, cycles: 6 },
        0xC2 => Instruction { inst_type: InstructionType::NOP, mode: AddrMode::IMM, cycles: 2 },
        0xC3 => Instruction { inst_type: InstructionType::DCP, mode: AddrMode::IndX, cycles: 8 },
        0xC4 => Instruction { inst_type: InstructionType::CPY, mode: AddrMode::ZPG, cycles: 3 },
        0xC5 => Instruction { inst_type: InstructionType::CMP, mode: AddrMode::ZPG, cycles: 3 },
        0xC6 => Instruction { inst_type: InstructionType::DEC, mode: AddrMode::ZPG, cycles: 5 },
        0xC7 => Instruction { inst_type: InstructionType::DCP, mode: AddrMode::ZPG, cycles: 5 },
        0xC8 => Instruction { inst_type: InstructionType::INY, mode: AddrMode::IMP, cycles: 2 },
        0xC9 => Instruction { inst_type: InstructionType::CMP, mode: AddrMode::IMM, cycles: 2 },
        0xCA => Instruction { inst_type: InstructionType::DEX, mode: AddrMode::IMP, cycles: 2 },
        0xCB => Instruction { inst_type: InstructionType::SBX, mode: AddrMode::IMM, cycles: 2 },
        0xCC => Instruction { inst_type: InstructionType::CPY, mode: AddrMode::ABS, cycles: 4 },
        0xCD => Instruction { inst_type: InstructionType::CMP, mode: AddrMode::ABS, cycles: 4 },
        0xCE => Instruction { inst_type: InstructionType::DEC, mode: AddrMode::ABS, cycles: 6 },
        0xCF => Instruction { inst_type: InstructionType::DCP, mode: AddrMode::ABS, cycles: 6 },
        0xD0 => Instruction { inst_type: InstructionType::BNE, mode: AddrMode::REL, cycles: 2 },
        0xD1 => Instruction { inst_type: InstructionType::CMP, mode: AddrMode::IndY, cycles: 5 },
        0xD2 => Instruction { inst_type: InstructionType::JAM, mode: AddrMode::JAM, cycles: 0 },
        0xD3 => Instruction { inst_type: InstructionType::DCP, mode: AddrMode::IndY, cycles: 8 },
        0xD4 => Instruction { inst_type: InstructionType::NOP, mode: AddrMode::ZpgX, cycles: 4 },
        0xD5 => Instruction { inst_type: InstructionType::CMP, mode: AddrMode::ZpgX, cycles: 4 },
        0xD6 => Instruction { inst_type: InstructionType::DEC, mode: AddrMode::ZpgX, cycles: 6 },
        0xD7 => Instruction { inst_type: InstructionType::DCP, mode: AddrMode::ZpgX, cycles: 6 },
        0xD8 => Instruction { inst_type: InstructionType::CLD, mode: AddrMode::IMP, cycles: 2 },
        0xD9 => Instruction { inst_type: InstructionType::CMP, mode: AddrMode::AbsY, cycles: 4 },
        0xDA => Instruction { inst_type: InstructionType::NOP, mode: AddrMode::IMP, cycles: 2 },
        0xDB => Instruction { inst_type: InstructionType::DCP, mode: AddrMode::AbsY, cycles: 7 },
        0xDC => Instruction { inst_type: InstructionType::NOP, mode: AddrMode::AbsX, cycles: 4 },
        0xDD => Instruction { inst_type: InstructionType::CMP, mode: AddrMode::AbsX, cycles: 4 },
        0xDE => Instruction { inst_type: InstructionType::DEC, mode: AddrMode::AbsX, cycles: 7 },
        0xDF => Instruction { inst_type: InstructionType::DCP, mode: AddrMode::AbsX, cycles: 7 },
        0xE0 => Instruction { inst_type: InstructionType::CPX, mode: AddrMode::IMM, cycles: 2 },
        0xE1 => Instruction { inst_type: InstructionType::SBC, mode: AddrMode::IndX, cycles: 6 },
        0xE2 => Instruction { inst_type: InstructionType::NOP, mode: AddrMode::IMM, cycles: 2 },
        0xE3 => Instruction { inst_type: InstructionType::ISC, mode: AddrMode::IndX, cycles: 8 },
        0xE4 => Instruction { inst_type: InstructionType::CPX, mode: AddrMode::ZPG, cycles: 3 },
        0xE5 => Instruction { inst_type: InstructionType::SBC, mode: AddrMode::ZPG, cycles: 3 },
        0xE6 => Instruction { inst_type: InstructionType::INC, mode: AddrMode::ZPG, cycles: 5 },
        0xE7 => Instruction { inst_type: InstructionType::ISC, mode: AddrMode::ZPG, cycles: 5 },
        0xE8 => Instruction { inst_type: InstructionType::INX, mode: AddrMode::IMP, cycles: 2 },
        0xE9 => Instruction { inst_type: InstructionType::SBC, mode: AddrMode::IMM, cycles: 2 },
        0xEA => Instruction { inst_type: InstructionType::NOP, mode: AddrMode::IMP, cycles: 2 },
        0xEB => Instruction { inst_type: InstructionType::USBC, mode: AddrMode::IMM, cycles: 2 },
        0xEC => Instruction { inst_type: InstructionType::CPX, mode: AddrMode::ABS, cycles: 4 },
        0xED => Instruction { inst_type: InstructionType::SBC, mode: AddrMode::ABS, cycles: 4 },
        0xEE => Instruction { inst_type: InstructionType::INC, mode: AddrMode::ABS, cycles: 6 },
        0xEF => Instruction { inst_type: InstructionType::ISC, mode: AddrMode::ABS, cycles: 6 },
        0xF0 => Instruction { inst_type: InstructionType::BEQ, mode: AddrMode::REL, cycles: 2 },
        0xF1 => Instruction { inst_type: InstructionType::SBC, mode: AddrMode::IndY, cycles: 5 },
        0xF2 => Instruction { inst_type: InstructionType::JAM, mode: AddrMode::JAM, cycles: 0 },
        0xF3 => Instruction { inst_type: InstructionType::ISC, mode: AddrMode::IndY, cycles: 8 },
        0xF4 => Instruction { inst_type: InstructionType::NOP, mode: AddrMode::ZpgX, cycles: 4 },
        0xF5 => Instruction { inst_type: InstructionType::SBC, mode: AddrMode::ZpgX, cycles: 4 },
        0xF6 => Instruction { inst_type: InstructionType::INC, mode: AddrMode::ZpgX, cycles: 6 },
        0xF7 => Instruction { inst_type: InstructionType::ISC, mode: AddrMode::ZpgX, cycles: 6 },
        0xF8 => Instruction { inst_type: InstructionType::SED, mode: AddrMode::IMP, cycles: 2 },
        0xF9 => Instruction { inst_type: InstructionType::SBC, mode: AddrMode::AbsY, cycles: 4 },
        0xFA => Instruction { inst_type: InstructionType::NOP, mode: AddrMode::IMP, cycles: 2 },
        0xFB => Instruction { inst_type: InstructionType::ISC, mode: AddrMode::AbsY, cycles: 7 },
        0xFC => Instruction { inst_type: InstructionType::NOP, mode: AddrMode::AbsX, cycles: 4 },
        0xFD => Instruction { inst_type: InstructionType::SBC, mode: AddrMode::AbsX, cycles: 4 },
        0xFE => Instruction { inst_type: InstructionType::INC, mode: AddrMode::AbsX, cycles: 7 },
        _ => Instruction { inst_type: InstructionType::ISC, mode: AddrMode::AbsX, cycles: 7 },
    }
}

} // verus!
