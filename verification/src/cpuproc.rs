//! The register file, the addressing-mode resolver, and the instruction
//! semantics dispatcher.
//!
//! Every exec function here is pinned to a spec-level transition function on
//! [`CpuExecution`] and a `Seq<u8>` memory image, so that the whole effect of
//! an instruction — registers, flags, memory, cycles — is a mathematical
//! function of the starting state.

use vstd::prelude::*;

pub use crate::cpuflags::CondType;
pub use crate::cpuflags::get_flag;
pub use crate::cpuflags::set_flag;

use crate::cpuflags::flag_set;
use crate::cpuflags::set_bit;
use crate::cpuflags::upd_zn;
use crate::instruction::AddrMode;
use crate::instruction::InstructionType;
use crate::mem::Mem;

verus! {

/// The register file and the per-step scratch context.
///
/// `rt_pc`, `rt_ac`, `rt_x`, `rt_y`, `rt_sr` and `rt_sp` are the
/// architectural registers.  `fetch`, `addr_abs`, `addr_rel`, `opcode`,
/// `cycles` and `acc_op` are scratch state rebuilt on every step; `cycles`
/// holds the cycle total of the last retired instruction and `clock_count`
/// accumulates cycles over the core's lifetime.  `halted` is the terminal
/// state entered when an undocumented placeholder opcode is decoded.
#[derive(Clone, Copy, PartialEq, Eq, Structural, Debug)]
pub struct CpuExecution {
    /// Operand byte fetched for the current instruction.
    pub fetch: u8,
    /// Resolved effective address of the current operand.
    pub addr_abs: u16,
    /// Sign-extended relative branch displacement.
    pub addr_rel: u16,
    /// Opcode byte of the current instruction.
    pub opcode: u8,
    /// Cycle total of the last retired instruction.
    pub cycles: u8,
    /// Cycles consumed since the last reset, wrapping modulo 2^32.
    pub clock_count: u32,
    /// Program counter; wraps modulo 65536.
    pub rt_pc: u16,
    /// Accumulator.
    pub rt_ac: u8,
    /// Index register X.
    pub rt_x: u8,
    /// Index register Y.
    pub rt_y: u8,
    /// Status register; see [`crate::cpuflags`] for the bit layout.
    pub rt_sr: u8,
    /// Stack pointer into page one: the top of stack is `0x0100 + rt_sp`.
    pub rt_sp: u8,
    /// Whether the current operand is the accumulator (accumulator and
    /// implied modes); shift and rotate instructions then target `rt_ac`.
    pub acc_op: bool,
    /// Whether the core is halted; only a reset leaves this state.
    pub halted: bool,
}

impl CpuExecution {
    /// A power-up register file: every register, flag and scratch field zero.
    pub fn new() -> (con: CpuExecution)
        ensures
            con == (CpuExecution {
                fetch: 0,
                addr_abs: 0,
                addr_rel: 0,
                opcode: 0,
                cycles: 0,
                clock_count: 0,
                rt_pc: 0,
                rt_ac: 0,
                rt_x: 0,
                rt_y: 0,
                rt_sr: 0,
                rt_sp: 0,
                acc_op: false,
                halted: false,
            }),
    {
        CpuExecution {
            fetch: 0,
            addr_abs: 0,
            addr_rel: 0,
            opcode: 0,
            cycles: 0,
            clock_count: 0,
            rt_pc: 0,
            rt_ac: 0,
            rt_x: 0,
            rt_y: 0,
            rt_sr: 0,
            rt_sp: 0,
            acc_op: false,
            halted: false,
        }
    }
}

/// `x` reduced modulo 256.
pub open spec fn wrap8(x: int) -> u8 {
    (x % 0x100) as u8
}

/// `x` reduced modulo 65536.
pub open spec fn wrap16(x: int) -> u16 {
    (x % 0x10000) as u16
}

/// `x` reduced modulo 2^32.
pub open spec fn wrap32(x: int) -> u32 {
    (x % 0x1_0000_0000) as u32
}

/// The 16-bit word assembled little-endian from `lo` and `hi`.
pub open spec fn word(lo: u8, hi: u8) -> u16 {
    ((hi as u16) << 8) | (lo as u16)
}

/// 8-bit wrapping addition.
pub fn wadd8(a: u8, b: u8) -> (r: u8)
    ensures
        r == wrap8(a + b),
{
    (((a as u16) + (b as u16)) % 0x100) as u8
}

/// 8-bit wrapping subtraction.
pub fn wsub8(a: u8, b: u8) -> (r: u8)
    ensures
        r == wrap8(a - b),
{
    let r: u8 = (((a as u16) + 0x100 - (b as u16)) % 0x100) as u8;
    proof {
        assert((a + 0x100 - b) % 0x100 == (a - b) % 0x100) by (nonlinear_arith)
            requires
                0 <= a < 0x100,
                0 <= b < 0x100,
        ;
    }
    r
}

/// 16-bit wrapping addition.
pub fn wadd16(a: u16, b: u16) -> (r: u16)
    ensures
        r == wrap16(a + b),
{
    (((a as u32) + (b as u32)) % 0x10000) as u16
}

/// 16-bit wrapping subtraction.
pub fn wsub16(a: u16, b: u16) -> (r: u16)
    ensures
        r == wrap16(a - b),
{
    let r: u16 = (((a as u32) + 0x10000 - (b as u32)) % 0x10000) as u16;
    proof {
        assert((a + 0x10000 - b) % 0x10000 == (a - b) % 0x10000) by (nonlinear_arith)
            requires
                0 <= a < 0x10000,
                0 <= b < 0x10000,
        ;
    }
    r
}

/// 32-bit wrapping addition.
pub fn wadd32(a: u32, b: u32) -> (r: u32)
    ensures
        r == wrap32(a + b),
{
    (((a as u64) + (b as u64)) % 0x1_0000_0000) as u32
}

// ---------------------------------------------------------------------------
// Addressing-mode resolution: given the program counter and the register
// file, compute the effective operand location, advance the program counter
// past the operand bytes, and report whether a page-crossing extra cycle is
// owed.
// ---------------------------------------------------------------------------

/// Accumulator / implied: no operand byte; the operand is the accumulator.
pub open spec fn spec_implied(st: CpuExecution) -> CpuExecution {
    CpuExecution { fetch: st.rt_ac, acc_op: true, ..st }
}

/// Immediate: the operand is the byte at `pc`; one byte consumed.
pub open spec fn spec_immediate(st: CpuExecution) -> CpuExecution {
    CpuExecution { addr_abs: st.rt_pc, rt_pc: wrap16(st.rt_pc + 1), acc_op: false, ..st }
}

/// Zero page: the effective address is the byte at `pc`.
pub open spec fn spec_zero_page(st: CpuExecution, mem: Seq<u8>) -> CpuExecution {
    let z = mem[st.rt_pc as int];
    CpuExecution { addr_abs: z as u16, rt_pc: wrap16(st.rt_pc + 1), acc_op: false, ..st }
}

/// Zero page, X-indexed: the operand byte plus X, wrapping within page zero.
pub open spec fn spec_zero_page_x(st: CpuExecution, mem: Seq<u8>) -> CpuExecution {
    let z = mem[st.rt_pc as int];
    CpuExecution {
        addr_abs: wrap8(z + st.rt_x) as u16,
        rt_pc: wrap16(st.rt_pc + 1),
        acc_op: false,
        ..st
    }
}

/// Zero page, Y-indexed: the operand byte plus Y, wrapping within page zero.
pub open spec fn spec_zero_page_y(st: CpuExecution, mem: Seq<u8>) -> CpuExecution {
    let z = mem[st.rt_pc as int];
    CpuExecution {
        addr_abs: wrap8(z + st.rt_y) as u16,
        rt_pc: wrap16(st.rt_pc + 1),
        acc_op: false,
        ..st
    }
}

/// Absolute: little-endian 16-bit address from the two bytes at `pc`.
pub open spec fn spec_absolute(st: CpuExecution, mem: Seq<u8>) -> CpuExecution {
    let lo = mem[st.rt_pc as int];
    let pc1 = wrap16(st.rt_pc + 1);
    let hi = mem[pc1 as int];
    CpuExecution { addr_abs: word(lo, hi), rt_pc: wrap16(pc1 + 1), acc_op: false, ..st }
}

/// Absolute, X-indexed: the extra cycle is owed iff adding X changes the
/// high byte of the address.
pub open spec fn spec_absolute_x(st: CpuExecution, mem: Seq<u8>) -> (CpuExecution, u8) {
    let lo = mem[st.rt_pc as int];
    let pc1 = wrap16(st.rt_pc + 1);
    let hi = mem[pc1 as int];
    let base = word(lo, hi);
    let ea = wrap16(base + st.rt_x);
    (
        CpuExecution { addr_abs: ea, rt_pc: wrap16(pc1 + 1), acc_op: false, ..st },
        if ea & 0xFF00 != base & 0xFF00 {
            1u8
        } else {
            0u8
        },
    )
}

/// Absolute, Y-indexed: as [`spec_absolute_x`] with the Y register.
pub open spec fn spec_absolute_y(st: CpuExecution, mem: Seq<u8>) -> (CpuExecution, u8) {
    let lo = mem[st.rt_pc as int];
    let pc1 = wrap16(st.rt_pc + 1);
    let hi = mem[pc1 as int];
    let base = word(lo, hi);
    let ea = wrap16(base + st.rt_y);
    (
        CpuExecution { addr_abs: ea, rt_pc: wrap16(pc1 + 1), acc_op: false, ..st },
        if ea & 0xFF00 != base & 0xFF00 {
            1u8
        } else {
            0u8
        },
    )
}

/// Indirect (jump only): a 16-bit pointer is read at `pc`; the target is the
/// word stored at that pointer, with the documented hardware quirk that a
/// pointer whose low byte is `0xFF` takes its high byte from the start of
/// the same page rather than from the next page.
pub open spec fn spec_indirect(st: CpuExecution, mem: Seq<u8>) -> CpuExecution {
    let lo = mem[st.rt_pc as int];
    let pc1 = wrap16(st.rt_pc + 1);
    let hi = mem[pc1 as int];
    let ptr = word(lo, hi);
    let t_lo = mem[ptr as int];
    let t_hi = if lo == 0xFF {
        mem[(ptr & 0xFF00) as int]
    } else {
        mem[ptr + 1]
    };
    CpuExecution { addr_abs: word(t_lo, t_hi), rt_pc: wrap16(pc1 + 1), acc_op: false, ..st }
}

/// Indexed indirect (X): the zero-page operand byte plus X selects a
/// zero-page slot (wrapping within page zero) holding the effective address.
pub open spec fn spec_indirect_x(st: CpuExecution, mem: Seq<u8>) -> CpuExecution {
    let t = mem[st.rt_pc as int];
    let pl = wrap8(t + st.rt_x);
    let ph = wrap8(pl + 1);
    let lo = mem[pl as int];
    let hi = mem[ph as int];
    CpuExecution { addr_abs: word(lo, hi), rt_pc: wrap16(st.rt_pc + 1), acc_op: false, ..st }
}

/// Indirect indexed (Y): a word is read from the zero-page pointer byte,
/// then Y is added; the extra cycle is owed iff that addition crosses a page.
pub open spec fn spec_indirect_y(st: CpuExecution, mem: Seq<u8>) -> (CpuExecution, u8) {
    let t = mem[st.rt_pc as int];
    let lo = mem[t as int];
    let hi = mem[wrap8(t + 1) as int];
    let base = word(lo, hi);
    let ea = wrap16(base + st.rt_y);
    (
        CpuExecution { addr_abs: ea, rt_pc: wrap16(st.rt_pc + 1), acc_op: false, ..st },
        if ea & 0xFF00 != base & 0xFF00 {
            1u8
        } else {
            0u8
        },
    )
}

/// Relative: the displacement byte at `pc`, sign-extended to 16 bits.
pub open spec fn spec_relative(st: CpuExecution, mem: Seq<u8>) -> CpuExecution {
    let b = mem[st.rt_pc as int];
    let rel = if b & 0x80 != 0 {
        (b as u16) | 0xFF00
    } else {
        b as u16
    };
    CpuExecution { addr_rel: rel, rt_pc: wrap16(st.rt_pc + 1), acc_op: false, ..st }
}

/// The resolver as one function over the addressing mode: the updated
/// context and the page-crossing extra-cycle flag.
pub open spec fn spec_resolve(mode: AddrMode, st: CpuExecution, mem: Seq<u8>) -> (
    CpuExecution,
    u8,
) {
    match mode {
        AddrMode::A => (spec_implied(st), 0),
        AddrMode::ABS => (spec_absolute(st, mem), 0),
        AddrMode::AbsX => spec_absolute_x(st, mem),
        AddrMode::AbsY => spec_absolute_y(st, mem),
        AddrMode::IMM => (spec_immediate(st), 0),
        AddrMode::IMP => (spec_implied(st), 0),
        AddrMode::IND => (spec_indirect(st, mem), 0),
        AddrMode::IndX => (spec_indirect_x(st, mem), 0),
        AddrMode::IndY => spec_indirect_y(st, mem),
        AddrMode::JAM => (st, 1),
        AddrMode::REL => (spec_relative(st, mem), 0),
        AddrMode::ZPG => (spec_zero_page(st, mem), 0),
        AddrMode::ZpgX => (spec_zero_page_x(st, mem), 0),
        AddrMode::ZpgY => (spec_zero_page_y(st, mem), 0),
    }
}

/// Accumulator / implied resolver: the operand is the accumulator.
pub fn implied_addr(con: &mut CpuExecution) -> (extra: u8)
    ensures
        *final(con) == spec_implied(*old(con)),
        extra == 0,
{
    con.fetch = con.rt_ac;
    con.acc_op = true;
    0
}

/// Immediate resolver: the operand byte is at `pc`.
pub fn immediate_addr(con: &mut CpuExecution) -> (extra: u8)
    ensures
        *final(con) == spec_immediate(*old(con)),
        extra == 0,
{
    con.addr_abs = con.rt_pc;
    con.rt_pc = wadd16(con.rt_pc, 1);
    con.acc_op = false;
    0
}

/// Zero-page resolver.
pub fn zero_page_addr(con: &mut CpuExecution, mem: &Mem) -> (extra: u8)
    requires
        mem.wf(),
    ensures
        *final(con) == spec_zero_page(*old(con), mem@),
        extra == 0,
{
    let z = mem.read(con.rt_pc);
    con.rt_pc = wadd16(con.rt_pc, 1);
    con.addr_abs = z as u16;
    con.acc_op = false;
    0
}

/// Zero-page, X-indexed resolver: wraps within page zero.
pub fn zero_page_x_addr(con: &mut CpuExecution, mem: &Mem) -> (extra: u8)
    requires
        mem.wf(),
    ensures
        *final(con) == spec_zero_page_x(*old(con), mem@),
        extra == 0,
{
    let z = mem.read(con.rt_pc);
    con.rt_pc = wadd16(con.rt_pc, 1);
    con.addr_abs = wadd8(z, con.rt_x) as u16;
    con.acc_op = false;
    0
}

/// Zero-page, Y-indexed resolver: wraps within page zero.
pub fn zero_page_y_addr(con: &mut CpuExecution, mem: &Mem) -> (extra: u8)
    requires
        mem.wf(),
    ensures
        *final(con) == spec_zero_page_y(*old(con), mem@),
        extra == 0,
{
    let z = mem.read(con.rt_pc);
    con.rt_pc = wadd16(con.rt_pc, 1);
    con.addr_abs = wadd8(z, con.rt_y) as u16;
    con.acc_op = false;
    0
}

/// Absolute resolver.
pub fn absolute_addr(con: &mut CpuExecution, mem: &Mem) -> (extra: u8)
    requires
        mem.wf(),
    ensures
        *final(con) == spec_absolute(*old(con), mem@),
        extra == 0,
{
    let lo = mem.read(con.rt_pc);
    con.rt_pc = wadd16(con.rt_pc, 1);
    let hi = mem.read(con.rt_pc);
    con.rt_pc = wadd16(con.rt_pc, 1);
    con.addr_abs = ((hi as u16) << 8) | (lo as u16);
    con.acc_op = false;
    0
}

/// Absolute, X-indexed resolver; reports the page-crossing extra cycle.
pub fn absolute_x_addr(con: &mut CpuExecution, mem: &Mem) -> (extra: u8)
    requires
        mem.wf(),
    ensures
        (*final(con), extra) == spec_absolute_x(*old(con), mem@),
{
    let lo = mem.read(con.rt_pc);
    con.rt_pc = wadd16(con.rt_pc, 1);
    let hi = mem.read(con.rt_pc);
    con.rt_pc = wadd16(con.rt_pc, 1);
    let base: u16 = ((hi as u16) << 8) | (lo as u16);
    let ea = wadd16(base, con.rt_x as u16);
    con.addr_abs = ea;
    con.acc_op = false;
    if ea & 0xFF00 != base & 0xFF00 {
        1
    } else {
        0
    }
}

/// Absolute, Y-indexed resolver; reports the page-crossing extra cycle.
pub fn absolute_y_addr(con: &mut CpuExecution, mem: &Mem) -> (extra: u8)
    requires
        mem.wf(),
    ensures
        (*final(con), extra) == spec_absolute_y(*old(con), mem@),
{
    let lo = mem.read(con.rt_pc);
    con.rt_pc = wadd16(con.rt_pc, 1);
    let hi = mem.read(con.rt_pc);
    con.rt_pc = wadd16(con.rt_pc, 1);
    let base: u16 = ((hi as u16) << 8) | (lo as u16);
    let ea = wadd16(base, con.rt_y as u16);
    con.addr_abs = ea;
    con.acc_op = false;
    if ea & 0xFF00 != base & 0xFF00 {
        1
    } else {
        0
    }
}

/// Indirect resolver, with the documented page-wrap quirk of the pointer's
/// high byte.
pub fn indirect_addr(con: &mut CpuExecution, mem: &Mem) -> (extra: u8)
    requires
        mem.wf(),
    ensures
        *final(con) == spec_indirect(*old(con), mem@),
        extra == 0,
{
    let lo = mem.read(con.rt_pc);
    con.rt_pc = wadd16(con.rt_pc, 1);
    let hi = mem.read(con.rt_pc);
    con.rt_pc = wadd16(con.rt_pc, 1);
    let ptr: u16 = ((hi as u16) << 8) | (lo as u16);
    let t_lo = mem.read(ptr);
    let t_hi: u8;
    if lo == 0xFF {
        t_hi = mem.read(ptr & 0xFF00);
    } else {
        proof {
            assert(lo != 0xFF ==> (((hi as u16) << 8) | (lo as u16)) < 0xFFFF) by (bit_vector);
        }
        t_hi = mem.read(ptr + 1);
    }
    con.addr_abs = ((t_hi as u16) << 8) | (t_lo as u16);
    con.acc_op = false;
    0
}

/// Indexed indirect (X) resolver.
pub fn indirect_x_addr(con: &mut CpuExecution, mem: &Mem) -> (extra: u8)
    requires
        mem.wf(),
    ensures
        *final(con) == spec_indirect_x(*old(con), mem@),
        extra == 0,
{
    let t = mem.read(con.rt_pc);
    con.rt_pc = wadd16(con.rt_pc, 1);
    let pl = wadd8(t, con.rt_x);
    let ph = wadd8(pl, 1);
    let lo = mem.read(pl as u16);
    let hi = mem.read(ph as u16);
    con.addr_abs = ((hi as u16) << 8) | (lo as u16);
    con.acc_op = false;
    0
}

/// Indirect indexed (Y) resolver; reports the page-crossing extra cycle.
pub fn indirect_y_addr(con: &mut CpuExecution, mem: &Mem) -> (extra: u8)
    requires
        mem.wf(),
    ensures
        (*final(con), extra) == spec_indirect_y(*old(con), mem@),
{
    let t = mem.read(con.rt_pc);
    con.rt_pc = wadd16(con.rt_pc, 1);
    let lo = mem.read(t as u16);
    let hi = mem.read(wadd8(t, 1) as u16);
    let base: u16 = ((hi as u16) << 8) | (lo as u16);
    let ea = wadd16(base, con.rt_y as u16);
    con.addr_abs = ea;
    con.acc_op = false;
    if ea & 0xFF00 != base & 0xFF00 {
        1
    } else {
        0
    }
}

/// Relative resolver: sign-extends the displacement byte.
pub fn relative_addr(con: &mut CpuExecution, mem: &Mem) -> (extra: u8)
    requires
        mem.wf(),
    ensures
        *final(con) == spec_relative(*old(con), mem@),
        extra == 0,
{
    let b = mem.read(con.rt_pc);
    con.rt_pc = wadd16(con.rt_pc, 1);
    con.addr_rel = if b & 0x80 != 0 {
        (b as u16) | 0xFF00
    } else {
        b as u16
    };
    con.acc_op = false;
    0
}

/// Placeholder resolver of the halting opcodes: consumes no bytes.
pub fn jam_addr() -> (extra: u8)
    ensures
        extra == 1,
{
    1
}

/// Dispatch on the addressing mode: resolve the operand location, advance
/// `pc` past the operand bytes, and report the page-crossing extra cycle.
pub fn match_addr(addr_type: &AddrMode, con: &mut CpuExecution, mem: &Mem) -> (extra: u8)
    requires
        mem.wf(),
    ensures
        (*final(con), extra) == spec_resolve(*addr_type, *old(con), mem@),
{
    match addr_type {
        AddrMode::A => implied_addr(con),
        AddrMode::ABS => absolute_addr(con, mem),
        AddrMode::AbsX => absolute_x_addr(con, mem),
        AddrMode::AbsY => absolute_y_addr(con, mem),
        AddrMode::IMM => immediate_addr(con),
        AddrMode::IMP => implied_addr(con),
        AddrMode::IND => indirect_addr(con, mem),
        AddrMode::IndX => indirect_x_addr(con, mem),
        AddrMode::IndY => indirect_y_addr(con, mem),
        AddrMode::JAM => jam_addr(),
        AddrMode::REL => relative_addr(con, mem),
        AddrMode::ZPG => zero_page_addr(con, mem),
        AddrMode::ZpgX => zero_page_x_addr(con, mem),
        AddrMode::ZpgY => zero_page_y_addr(con, mem),
    }
}

/// After resolution, modes with a memory operand load it into `fetch`.
pub open spec fn spec_fetch(mode: AddrMode, st: CpuExecution, mem: Seq<u8>) -> CpuExecution {
    match mode {
        AddrMode::A => st,
        AddrMode::IMP => st,
        AddrMode::JAM => st,
        AddrMode::REL => st,
        _ => CpuExecution { fetch: mem[st.addr_abs as int], ..st },
    }
}

/// Load the resolved operand byte into `fetch` for the modes that have one.
pub fn fetch_operand(mode: &AddrMode, con: &mut CpuExecution, mem: &Mem)
    requires
        mem.wf(),
    ensures
        *final(con) == spec_fetch(*mode, *old(con), mem@),
{
    match mode {
        AddrMode::A => {},
        AddrMode::IMP => {},
        AddrMode::JAM => {},
        AddrMode::REL => {},
        _ => {
            con.fetch = mem.read(con.addr_abs);
        },
    }
}

// ---------------------------------------------------------------------------
// Stack access: the stack lives in page one at `0x0100 + sp`; pushes write
// then decrement, pulls increment then read, each wrapping modulo 256.
// ---------------------------------------------------------------------------

/// Push `v`: write it at `0x0100 + sp`, then decrement `sp`.
pub open spec fn spec_push(st: CpuExecution, mem: Seq<u8>, v: u8) -> (CpuExecution, Seq<u8>) {
    (
        CpuExecution { rt_sp: wrap8(st.rt_sp - 1), ..st },
        mem.update(0x0100 + st.rt_sp as int, v),
    )
}

/// Pull: increment `sp`, then read the byte at `0x0100 + sp`.
pub open spec fn spec_pull(st: CpuExecution, mem: Seq<u8>) -> (CpuExecution, u8) {
    let sp1 = wrap8(st.rt_sp + 1);
    (CpuExecution { rt_sp: sp1, ..st }, mem[0x0100 + sp1 as int])
}

/// Push one byte onto the page-one stack.
pub fn push_stack(con: &mut CpuExecution, mem: &mut Mem, v: u8)
    requires
        old(mem).wf(),
    ensures
        final(mem).wf(),
        (*final(con), final(mem)@) == spec_push(*old(con), old(mem)@, v),
{
    mem.write(0x0100 + (con.rt_sp as u16), v);
    con.rt_sp = wsub8(con.rt_sp, 1);
}

/// Pull one byte from the page-one stack.
pub fn pull_stack(con: &mut CpuExecution, mem: &Mem) -> (v: u8)
    requires
        mem.wf(),
    ensures
        (*final(con), v) == spec_pull(*old(con), mem@),
{
    con.rt_sp = wadd8(con.rt_sp, 1);
    mem.read(0x0100 + (con.rt_sp as u16))
}

// ---------------------------------------------------------------------------
// Instruction semantics: one spec transition and one exec function per
// documented instruction kind.  An exec function's `u8` result is its
// variable-cycle eligibility: 1 for the instructions whose indexed modes owe
// the page-crossing penalty, 0 otherwise.
// ---------------------------------------------------------------------------

/// ADC: `A + operand + carry-in` in a widened integer; carry-out iff the sum
/// exceeds `0xFF`; overflow iff the operands agree in sign and the result
/// does not; Zero and Negative from the 8-bit result.  Arithmetic is always
/// binary: the Decimal flag is stored and readable but never changes the sum.
pub open spec fn spec_adc(st: CpuExecution) -> CpuExecution {
    let sum = st.rt_ac + st.fetch + (if flag_set(st.rt_sr, CondType::CtC) {
        1int
    } else {
        0int
    });
    let r = wrap8(sum);
    let sr1 = set_bit(st.rt_sr, 0x01, sum > 0xFF);
    let sr2 = set_bit(sr1, 0x40, ((st.rt_ac ^ r) & (st.fetch ^ r) & 0x80) != 0);
    CpuExecution { rt_ac: r, rt_sr: upd_zn(sr2, r), ..st }
}

/// Add the fetched operand and the carry flag to the accumulator.
pub fn adc(con: &mut CpuExecution) -> (extra: u8)
    ensures
        *final(con) == spec_adc(*old(con)),
        extra == 1,
{
    let cin = get_flag(CondType::CtC, con);
    let sum: u16 = (con.rt_ac as u16) + (con.fetch as u16) + (cin as u16);
    let r: u8 = (sum % 0x100) as u8;
    set_flag(CondType::CtC, sum > 0xFF, con);
    set_flag(CondType::CtV, ((con.rt_ac ^ r) & (con.fetch ^ r) & 0x80) != 0, con);
    set_flag(CondType::CtZ, r == 0, con);
    set_flag(CondType::CtN, r & 0x80 != 0, con);
    con.rt_ac = r;
    1
}

/// SBC: exactly ADC with the operand replaced by its one's complement.
pub open spec fn spec_sbc(st: CpuExecution) -> CpuExecution {
    let m = !st.fetch;
    let sum = st.rt_ac + m + (if flag_set(st.rt_sr, CondType::CtC) {
        1int
    } else {
        0int
    });
    let r = wrap8(sum);
    let sr1 = set_bit(st.rt_sr, 0x01, sum > 0xFF);
    let sr2 = set_bit(sr1, 0x40, ((st.rt_ac ^ r) & (m ^ r) & 0x80) != 0);
    CpuExecution { rt_ac: r, rt_sr: upd_zn(sr2, r), ..st }
}

/// Subtract the fetched operand with borrow from the accumulator.
pub fn sbc(con: &mut CpuExecution) -> (extra: u8)
    ensures
        *final(con) == spec_sbc(*old(con)),
        extra == 1,
{
    let m: u8 = !con.fetch;
    let cin = get_flag(CondType::CtC, con);
    let sum: u16 = (con.rt_ac as u16) + (m as u16) + (cin as u16);
    let r: u8 = (sum % 0x100) as u8;
    set_flag(CondType::CtC, sum > 0xFF, con);
    set_flag(CondType::CtV, ((con.rt_ac ^ r) & (m ^ r) & 0x80) != 0, con);
    set_flag(CondType::CtZ, r == 0, con);
    set_flag(CondType::CtN, r & 0x80 != 0, con);
    con.rt_ac = r;
    1
}

/// AND: bitwise and of the accumulator with the operand, Zero/Negative from
/// the result.
pub open spec fn spec_and(st: CpuExecution) -> CpuExecution {
    let r = st.rt_ac & st.fetch;
    CpuExecution { rt_ac: r, rt_sr: upd_zn(st.rt_sr, r), ..st }
}

/// Bitwise and with the accumulator.
pub fn and(con: &mut CpuExecution) -> (extra: u8)
    ensures
        *final(con) == spec_and(*old(con)),
        extra == 1,
{
    let r: u8 = con.rt_ac & con.fetch;
    set_flag(CondType::CtZ, r == 0, con);
    set_flag(CondType::CtN, r & 0x80 != 0, con);
    con.rt_ac = r;
    1
}

/// ORA: bitwise or of the accumulator with the operand.
pub open spec fn spec_ora(st: CpuExecution) -> CpuExecution {
    let r = st.rt_ac | st.fetch;
    CpuExecution { rt_ac: r, rt_sr: upd_zn(st.rt_sr, r), ..st }
}

/// Bitwise or with the accumulator.
pub fn ora(con: &mut CpuExecution) -> (extra: u8)
    ensures
        *final(con) == spec_ora(*old(con)),
        extra == 1,
{
    let r: u8 = con.rt_ac | con.fetch;
    set_flag(CondType::CtZ, r == 0, con);
    set_flag(CondType::CtN, r & 0x80 != 0, con);
    con.rt_ac = r;
    1
}

/// EOR: bitwise exclusive or of the accumulator with the operand.
pub open spec fn spec_eor(st: CpuExecution) -> CpuExecution {
    let r = st.rt_ac ^ st.fetch;
    CpuExecution { rt_ac: r, rt_sr: upd_zn(st.rt_sr, r), ..st }
}

/// Bitwise exclusive or with the accumulator.
pub fn eor(con: &mut CpuExecution) -> (extra: u8)
    ensures
        *final(con) == spec_eor(*old(con)),
        extra == 1,
{
    let r: u8 = con.rt_ac ^ con.fetch;
    set_flag(CondType::CtZ, r == 0, con);
    set_flag(CondType::CtN, r & 0x80 != 0, con);
    con.rt_ac = r;
    1
}

/// LDA: copy the operand into the accumulator, Zero/Negative from it.
pub open spec fn spec_lda(st: CpuExecution) -> CpuExecution {
    CpuExecution { rt_ac: st.fetch, rt_sr: upd_zn(st.rt_sr, st.fetch), ..st }
}

/// Load the accumulator.
pub fn lda(con: &mut CpuExecution) -> (extra: u8)
    ensures
        *final(con) == spec_lda(*old(con)),
        extra == 1,
{
    con.rt_ac = con.fetch;
    set_flag(CondType::CtZ, con.rt_ac == 0, con);
    set_flag(CondType::CtN, con.rt_ac & 0x80 != 0, con);
    1
}

/// LDX: copy the operand into X, Zero/Negative from it.
pub open spec fn spec_ldx(st: CpuExecution) -> CpuExecution {
    CpuExecution { rt_x: st.fetch, rt_sr: upd_zn(st.rt_sr, st.fetch), ..st }
}

/// Load index register X.
pub fn ldx(con: &mut CpuExecution) -> (extra: u8)
    ensures
        *final(con) == spec_ldx(*old(con)),
        extra == 1,
{
    con.rt_x = con.fetch;
    set_flag(CondType::CtZ, con.rt_x == 0, con);
    set_flag(CondType::CtN, con.rt_x & 0x80 != 0, con);
    1
}

/// LDY: copy the operand into Y, Zero/Negative from it.
pub open spec fn spec_ldy(st: CpuExecution) -> CpuExecution {
    CpuExecution { rt_y: st.fetch, rt_sr: upd_zn(st.rt_sr, st.fetch), ..st }
}

/// Load index register Y.
pub fn ldy(con: &mut CpuExecution) -> (extra: u8)
    ensures
        *final(con) == spec_ldy(*old(con)),
        extra == 1,
{
    con.rt_y = con.fetch;
    set_flag(CondType::CtZ, con.rt_y == 0, con);
    set_flag(CondType::CtN, con.rt_y & 0x80 != 0, con);
    1
}

/// STA: write the accumulator to the resolved address; no flag effect.
pub open spec fn spec_sta(st: CpuExecution, mem: Seq<u8>) -> Seq<u8> {
    mem.update(st.addr_abs as int, st.rt_ac)
}

/// Store the accumulator.
pub fn sta(con: &mut CpuExecution, mem: &mut Mem) -> (extra: u8)
    requires
        old(mem).wf(),
    ensures
        final(mem).wf(),
        *final(con) == *old(con),
        final(mem)@ == spec_sta(*old(con), old(mem)@),
        extra == 0,
{
    mem.write(con.addr_abs, con.rt_ac);
    0
}

/// STX: write X to the resolved address; no flag effect.
pub open spec fn spec_stx(st: CpuExecution, mem: Seq<u8>) -> Seq<u8> {
    mem.update(st.addr_abs as int, st.rt_x)
}

/// Store index register X.
pub fn stx(con: &mut CpuExecution, mem: &mut Mem) -> (extra: u8)
    requires
        old(mem).wf(),
    ensures
        final(mem).wf(),
        *final(con) == *old(con),
        final(mem)@ == spec_stx(*old(con), old(mem)@),
        extra == 0,
{
    mem.write(con.addr_abs, con.rt_x);
    0
}

/// STY: write Y to the resolved address; no flag effect.
pub open spec fn spec_sty(st: CpuExecution, mem: Seq<u8>) -> Seq<u8> {
    mem.update(st.addr_abs as int, st.rt_y)
}

/// Store index register Y.
pub fn sty(con: &mut CpuExecution, mem: &mut Mem) -> (extra: u8)
    requires
        old(mem).wf(),
    ensures
        final(mem).wf(),
        *final(con) == *old(con),
        final(mem)@ == spec_sty(*old(con), old(mem)@),
        extra == 0,
{
    mem.write(con.addr_abs, con.rt_y);
    0
}

/// The shifted or rotated target: the accumulator in accumulator mode, else
/// the fetched memory operand.
pub open spec fn shift_target(st: CpuExecution) -> u8 {
    if st.acc_op {
        st.rt_ac
    } else {
        st.fetch
    }
}

/// Write a shift result back: into the accumulator in accumulator mode, else
/// to the resolved address.
pub open spec fn shift_writeback(st: CpuExecution, mem: Seq<u8>, r: u8) -> (CpuExecution, Seq<u8>) {
    if st.acc_op {
        (CpuExecution { rt_ac: r, ..st }, mem)
    } else {
        (st, mem.update(st.addr_abs as int, r))
    }
}

/// ASL: shift the target left one bit; the outgoing bit 7 becomes Carry;
/// Zero/Negative from the result.
pub open spec fn spec_asl(st: CpuExecution, mem: Seq<u8>) -> (CpuExecution, Seq<u8>) {
    let t = shift_target(st);
    let r = t << 1;
    let st1 = CpuExecution { rt_sr: upd_zn(set_bit(st.rt_sr, 0x01, t & 0x80 != 0), r), ..st };
    shift_writeback(st1, mem, r)
}

/// Arithmetic shift left.
pub fn asl(con: &mut CpuExecution, mem: &mut Mem) -> (extra: u8)
    requires
        old(mem).wf(),
    ensures
        final(mem).wf(),
        (*final(con), final(mem)@) == spec_asl(*old(con), old(mem)@),
        extra == 0,
{
    let t: u8 = if con.acc_op {
        con.rt_ac
    } else {
        con.fetch
    };
    let r: u8 = t << 1;
    set_flag(CondType::CtC, t & 0x80 != 0, con);
    set_flag(CondType::CtZ, r == 0, con);
    set_flag(CondType::CtN, r & 0x80 != 0, con);
    if con.acc_op {
        con.rt_ac = r;
    } else {
        mem.write(con.addr_abs, r);
    }
    0
}

/// LSR: shift the target right one bit; the outgoing bit 0 becomes Carry;
/// Zero/Negative from the result.
pub open spec fn spec_lsr(st: CpuExecution, mem: Seq<u8>) -> (CpuExecution, Seq<u8>) {
    let t = shift_target(st);
    let r = t >> 1;
    let st1 = CpuExecution { rt_sr: upd_zn(set_bit(st.rt_sr, 0x01, t & 0x01 != 0), r), ..st };
    shift_writeback(st1, mem, r)
}

/// Logical shift right.
pub fn lsr(con: &mut CpuExecution, mem: &mut Mem) -> (extra: u8)
    requires
        old(mem).wf(),
    ensures
        final(mem).wf(),
        (*final(con), final(mem)@) == spec_lsr(*old(con), old(mem)@),
        extra == 0,
{
    let t: u8 = if con.acc_op {
        con.rt_ac
    } else {
        con.fetch
    };
    let r: u8 = t >> 1;
    set_flag(CondType::CtC, t & 0x01 != 0, con);
    set_flag(CondType::CtZ, r == 0, con);
    set_flag(CondType::CtN, r & 0x80 != 0, con);
    if con.acc_op {
        con.rt_ac = r;
    } else {
        mem.write(con.addr_abs, r);
    }
    0
}

/// ROL: rotate the target left through Carry: the incoming Carry fills
/// bit 0, the outgoing bit 7 becomes the new Carry.
pub open spec fn spec_rol(st: CpuExecution, mem: Seq<u8>) -> (CpuExecution, Seq<u8>) {
    let t = shift_target(st);
    let r = (t << 1) | (if flag_set(st.rt_sr, CondType::CtC) {
        1u8
    } else {
        0u8
    });
    let st1 = CpuExecution { rt_sr: upd_zn(set_bit(st.rt_sr, 0x01, t & 0x80 != 0), r), ..st };
    shift_writeback(st1, mem, r)
}

/// Rotate left through Carry.
pub fn rol(con: &mut CpuExecution, mem: &mut Mem) -> (extra: u8)
    requires
        old(mem).wf(),
    ensures
        final(mem).wf(),
        (*final(con), final(mem)@) == spec_rol(*old(con), old(mem)@),
        extra == 0,
{
    let t: u8 = if con.acc_op {
        con.rt_ac
    } else {
        con.fetch
    };
    let cin = get_flag(CondType::CtC, con);
    let r: u8 = (t << 1) | cin;
    set_flag(CondType::CtC, t & 0x80 != 0, con);
    set_flag(CondType::CtZ, r == 0, con);
    set_flag(CondType::CtN, r & 0x80 != 0, con);
    if con.acc_op {
        con.rt_ac = r;
    } else {
        mem.write(con.addr_abs, r);
    }
    0
}

/// ROR: rotate the target right through Carry: the incoming Carry fills
/// bit 7, the outgoing bit 0 becomes the new Carry.
pub open spec fn spec_ror(st: CpuExecution, mem: Seq<u8>) -> (CpuExecution, Seq<u8>) {
    let t = shift_target(st);
    let r = (t >> 1) | (if flag_set(st.rt_sr, CondType::CtC) {
        0x80u8
    } else {
        0u8
    });
    let st1 = CpuExecution { rt_sr: upd_zn(set_bit(st.rt_sr, 0x01, t & 0x01 != 0), r), ..st };
    shift_writeback(st1, mem, r)
}

/// Rotate right through Carry.
pub fn ror(con: &mut CpuExecution, mem: &mut Mem) -> (extra: u8)
    requires
        old(mem).wf(),
    ensures
        final(mem).wf(),
        (*final(con), final(mem)@) == spec_ror(*old(con), old(mem)@),
        extra == 0,
{
    let t: u8 = if con.acc_op {
        con.rt_ac
    } else {
        con.fetch
    };
    let cin = get_flag(CondType::CtC, con);
    let r: u8 = (t >> 1) | (if cin == 1 {
        0x80u8
    } else {
        0u8
    });
    set_flag(CondType::CtC, t & 0x01 != 0, con);
    set_flag(CondType::CtZ, r == 0, con);
    set_flag(CondType::CtN, r & 0x80 != 0, con);
    if con.acc_op {
        con.rt_ac = r;
    } else {
        mem.write(con.addr_abs, r);
    }
    0
}

/// INC: the memory operand plus one with 8-bit wraparound; Zero/Negative
/// from the result, Carry untouched.
pub open spec fn spec_inc(st: CpuExecution, mem: Seq<u8>) -> (CpuExecution, Seq<u8>) {
    let r = wrap8(st.fetch + 1);
    (
        CpuExecution { rt_sr: upd_zn(st.rt_sr, r), ..st },
        mem.update(st.addr_abs as int, r),
    )
}

/// Increment the memory operand.
pub fn inc(con: &mut CpuExecution, mem: &mut Mem) -> (extra: u8)
    requires
        old(mem).wf(),
    ensures
        final(mem).wf(),
        (*final(con), final(mem)@) == spec_inc(*old(con), old(mem)@),
        extra == 0,
{
    let r = wadd8(con.fetch, 1);
    set_flag(CondType::CtZ, r == 0, con);
    set_flag(CondType::CtN, r & 0x80 != 0, con);
    mem.write(con.addr_abs, r);
    0
}

/// DEC: the memory operand minus one with 8-bit wraparound; Zero/Negative
/// from the result, Carry untouched.
pub open spec fn spec_dec(st: CpuExecution, mem: Seq<u8>) -> (CpuExecution, Seq<u8>) {
    let r = wrap8(st.fetch - 1);
    (
        CpuExecution { rt_sr: upd_zn(st.rt_sr, r), ..st },
        mem.update(st.addr_abs as int, r),
    )
}

/// Decrement the memory operand.
pub fn dec(con: &mut CpuExecution, mem: &mut Mem) -> (extra: u8)
    requires
        old(mem).wf(),
    ensures
        final(mem).wf(),
        (*final(con), final(mem)@) == spec_dec(*old(con), old(mem)@),
        extra == 0,
{
    let r = wsub8(con.fetch, 1);
    set_flag(CondType::CtZ, r == 0, con);
    set_flag(CondType::CtN, r & 0x80 != 0, con);
    mem.write(con.addr_abs, r);
    0
}

/// INX: X plus one with 8-bit wraparound; Zero/Negative from the result.
pub open spec fn spec_inx(st: CpuExecution) -> CpuExecution {
    let r = wrap8(st.rt_x + 1);
    CpuExecution { rt_x: r, rt_sr: upd_zn(st.rt_sr, r), ..st }
}

/// Increment index register X.
pub fn inx(con: &mut CpuExecution) -> (extra: u8)
    ensures
        *final(con) == spec_inx(*old(con)),
        extra == 0,
{
    con.rt_x = wadd8(con.rt_x, 1);
    set_flag(CondType::CtZ, con.rt_x == 0, con);
    set_flag(CondType::CtN, con.rt_x & 0x80 != 0, con);
    0
}

/// INY: Y plus one with 8-bit wraparound; Zero/Negative from the result.
pub open spec fn spec_iny(st: CpuExecution) -> CpuExecution {
    let r = wrap8(st.rt_y + 1);
    CpuExecution { rt_y: r, rt_sr: upd_zn(st.rt_sr, r), ..st }
}

/// Increment index register Y.
pub fn iny(con: &mut CpuExecution) -> (extra: u8)
    ensures
        *final(con) == spec_iny(*old(con)),
        extra == 0,
{
    con.rt_y = wadd8(con.rt_y, 1);
    set_flag(CondType::CtZ, con.rt_y == 0, con);
    set_flag(CondType::CtN, con.rt_y & 0x80 != 0, con);
    0
}

/// DEX: X minus one with 8-bit wraparound; Zero/Negative from the result.
pub open spec fn spec_dex(st: CpuExecution) -> CpuExecution {
    let r = wrap8(st.rt_x - 1);
    CpuExecution { rt_x: r, rt_sr: upd_zn(st.rt_sr, r), ..st }
}

/// Decrement index register X.
pub fn dex(con: &mut CpuExecution) -> (extra: u8)
    ensures
        *final(con) == spec_dex(*old(con)),
        extra == 0,
{
    con.rt_x = wsub8(con.rt_x, 1);
    set_flag(CondType::CtZ, con.rt_x == 0, con);
    set_flag(CondType::CtN, con.rt_x & 0x80 != 0, con);
    0
}

/// DEY: Y minus one with 8-bit wraparound; Zero/Negative from the result.
pub open spec fn spec_dey(st: CpuExecution) -> CpuExecution {
    let r = wrap8(st.rt_y - 1);
    CpuExecution { rt_y: r, rt_sr: upd_zn(st.rt_sr, r), ..st }
}

/// Decrement index register Y.
pub fn dey(con: &mut CpuExecution) -> (extra: u8)
    ensures
        *final(con) == spec_dey(*old(con)),
        extra == 0,
{
    con.rt_y = wsub8(con.rt_y, 1);
    set_flag(CondType::CtZ, con.rt_y == 0, con);
    set_flag(CondType::CtN, con.rt_y & 0x80 != 0, con);
    0
}

/// The status byte after a compare of `reg` with `m`: Carry iff
/// `reg >= m`, Zero iff equal, Negative from bit 7 of the unstored
/// difference `reg - m` (8-bit wraparound).
pub open spec fn spec_compare(sr: u8, reg: u8, m: u8) -> u8 {
    let d = wrap8(reg - m);
    set_bit(set_bit(set_bit(sr, 0x01, reg >= m), 0x02, reg == m), 0x80, d & 0x80 != 0)
}

/// CMP: compare the accumulator with the operand.
pub open spec fn spec_cmp(st: CpuExecution) -> CpuExecution {
    CpuExecution { rt_sr: spec_compare(st.rt_sr, st.rt_ac, st.fetch), ..st }
}

/// Compare the accumulator with the operand; the accumulator is unchanged.
pub fn cmp(con: &mut CpuExecution) -> (extra: u8)
    ensures
        *final(con) == spec_cmp(*old(con)),
        extra == 1,
{
    let d = wsub8(con.rt_ac, con.fetch);
    set_flag(CondType::CtC, con.rt_ac >= con.fetch, con);
    set_flag(CondType::CtZ, con.rt_ac == con.fetch, con);
    set_flag(CondType::CtN, d & 0x80 != 0, con);
    1
}

/// CPX: compare index register X with the operand.
pub open spec fn spec_cpx(st: CpuExecution) -> CpuExecution {
    CpuExecution { rt_sr: spec_compare(st.rt_sr, st.rt_x, st.fetch), ..st }
}

/// Compare index register X with the operand.
pub fn cpx(con: &mut CpuExecution) -> (extra: u8)
    ensures
        *final(con) == spec_cpx(*old(con)),
        extra == 0,
{
    let d = wsub8(con.rt_x, con.fetch);
    set_flag(CondType::CtC, con.rt_x >= con.fetch, con);
    set_flag(CondType::CtZ, con.rt_x == con.fetch, con);
    set_flag(CondType::CtN, d & 0x80 != 0, con);
    0
}

/// CPY: compare index register Y with the operand.
pub open spec fn spec_cpy(st: CpuExecution) -> CpuExecution {
    CpuExecution { rt_sr: spec_compare(st.rt_sr, st.rt_y, st.fetch), ..st }
}

/// Compare index register Y with the operand.
pub fn cpy(con: &mut CpuExecution) -> (extra: u8)
    ensures
        *final(con) == spec_cpy(*old(con)),
        extra == 0,
{
    let d = wsub8(con.rt_y, con.fetch);
    set_flag(CondType::CtC, con.rt_y >= con.fetch, con);
    set_flag(CondType::CtZ, con.rt_y == con.fetch, con);
    set_flag(CondType::CtN, d & 0x80 != 0, con);
    0
}

/// BIT: Zero iff `A & operand == 0`; Overflow from bit 6 and Negative from
/// bit 7 of the operand; the accumulator is unchanged.
pub open spec fn spec_bit(st: CpuExecution) -> CpuExecution {
    let sr1 = set_bit(st.rt_sr, 0x02, st.rt_ac & st.fetch == 0);
    let sr2 = set_bit(sr1, 0x40, st.fetch & 0x40 != 0);
    CpuExecution { rt_sr: set_bit(sr2, 0x80, st.fetch & 0x80 != 0), ..st }
}

/// Bit test of the accumulator against the operand.
pub fn bit(con: &mut CpuExecution) -> (extra: u8)
    ensures
        *final(con) == spec_bit(*old(con)),
        extra == 0,
{
    set_flag(CondType::CtZ, con.rt_ac & con.fetch == 0, con);
    set_flag(CondType::CtV, con.fetch & 0x40 != 0, con);
    set_flag(CondType::CtN, con.fetch & 0x80 != 0, con);
    0
}

/// A branch: when taken, the sign-extended displacement is added to `pc`,
/// one cycle is owed, and one more iff the target's high byte differs from
/// the pre-branch `pc` high byte; when not taken, nothing changes.
pub open spec fn spec_branch(st: CpuExecution, taken: bool) -> CpuExecution {
    if taken {
        let target = wrap16(st.rt_pc + st.addr_rel);
        let penalty = if target & 0xFF00 != st.rt_pc & 0xFF00 {
            2int
        } else {
            1int
        };
        CpuExecution {
            cycles: wrap8(st.cycles + penalty),
            addr_abs: target,
            rt_pc: target,
            ..st
        }
    } else {
        st
    }
}

/// BCC: branch when Carry is clear.
pub fn bcc(con: &mut CpuExecution) -> (extra: u8)
    requires
        old(con).cycles <= 0xFD,
    ensures
        *final(con) == spec_branch(*old(con), !flag_set(old(con).rt_sr, CondType::CtC)),
        extra == 0,
{
    if get_flag(CondType::CtC, con) == 0 {
        con.cycles = con.cycles + 1;
        let target = wadd16(con.rt_pc, con.addr_rel);
        con.addr_abs = target;
        if target & 0xFF00 != con.rt_pc & 0xFF00 {
            con.cycles = con.cycles + 1;
        }
        con.rt_pc = target;
    }
    0
}

/// BCS: branch when Carry is set.
pub fn bcs(con: &mut CpuExecution) -> (extra: u8)
    requires
        old(con).cycles <= 0xFD,
    ensures
        *final(con) == spec_branch(*old(con), flag_set(old(con).rt_sr, CondType::CtC)),
        extra == 0,
{
    if get_flag(CondType::CtC, con) == 1 {
        con.cycles = con.cycles + 1;
        let target = wadd16(con.rt_pc, con.addr_rel);
        con.addr_abs = target;
        if target & 0xFF00 != con.rt_pc & 0xFF00 {
            con.cycles = con.cycles + 1;
        }
        con.rt_pc = target;
    }
    0
}

/// BEQ: branch when Zero is set.
pub fn beq(con: &mut CpuExecution) -> (extra: u8)
    requires
        old(con).cycles <= 0xFD,
    ensures
        *final(con) == spec_branch(*old(con), flag_set(old(con).rt_sr, CondType::CtZ)),
        extra == 0,
{
    if get_flag(CondType::CtZ, con) == 1 {
        con.cycles = con.cycles + 1;
        let target = wadd16(con.rt_pc, con.addr_rel);
        con.addr_abs = target;
        if target & 0xFF00 != con.rt_pc & 0xFF00 {
            con.cycles = con.cycles + 1;
        }
        con.rt_pc = target;
    }
    0
}

/// BNE: branch when Zero is clear.
pub fn bne(con: &mut CpuExecution) -> (extra: u8)
    requires
        old(con).cycles <= 0xFD,
    ensures
        *final(con) == spec_branch(*old(con), !flag_set(old(con).rt_sr, CondType::CtZ)),
        extra == 0,
{
    if get_flag(CondType::CtZ, con) == 0 {
        con.cycles = con.cycles + 1;
        let target = wadd16(con.rt_pc, con.addr_rel);
        con.addr_abs = target;
        if target & 0xFF00 != con.rt_pc & 0xFF00 {
            con.cycles = con.cycles + 1;
        }
        con.rt_pc = target;
    }
    0
}

/// BMI: branch when Negative is set.
pub fn bmi(con: &mut CpuExecution) -> (extra: u8)
    requires
        old(con).cycles <= 0xFD,
    ensures
        *final(con) == spec_branch(*old(con), flag_set(old(con).rt_sr, CondType::CtN)),
        extra == 0,
{
    if get_flag(CondType::CtN, con) == 1 {
        con.cycles = con.cycles + 1;
        let target = wadd16(con.rt_pc, con.addr_rel);
        con.addr_abs = target;
        if target & 0xFF00 != con.rt_pc & 0xFF00 {
            con.cycles = con.cycles + 1;
        }
        con.rt_pc = target;
    }
    0
}

/// BPL: branch when Negative is clear.
pub fn bpl(con: &mut CpuExecution) -> (extra: u8)
    requires
        old(con).cycles <= 0xFD,
    ensures
        *final(con) == spec_branch(*old(con), !flag_set(old(con).rt_sr, CondType::CtN)),
        extra == 0,
{
    if get_flag(CondType::CtN, con) == 0 {
        con.cycles = con.cycles + 1;
        let target = wadd16(con.rt_pc, con.addr_rel);
        con.addr_abs = target;
        if target & 0xFF00 != con.rt_pc & 0xFF00 {
            con.cycles = con.cycles + 1;
        }
        con.rt_pc = target;
    }
    0
}

/// BVC: branch when Overflow is clear.
pub fn bvc(con: &mut CpuExecution) -> (extra: u8)
    requires
        old(con).cycles <= 0xFD,
    ensures
        *final(con) == spec_branch(*old(con), !flag_set(old(con).rt_sr, CondType::CtV)),
        extra == 0,
{
    if get_flag(CondType::CtV, con) == 0 {
        con.cycles = con.cycles + 1;
        let target = wadd16(con.rt_pc, con.addr_rel);
        con.addr_abs = target;
        if target & 0xFF00 != con.rt_pc & 0xFF00 {
            con.cycles = con.cycles + 1;
        }
        con.rt_pc = target;
    }
    0
}

/// BVS: branch when Overflow is set.
pub fn bvs(con: &mut CpuExecution) -> (extra: u8)
    requires
        old(con).cycles <= 0xFD,
    ensures
        *final(con) == spec_branch(*old(con), flag_set(old(con).rt_sr, CondType::CtV)),
        extra == 0,
{
    if get_flag(CondType::CtV, con) == 1 {
        con.cycles = con.cycles + 1;
        let target = wadd16(con.rt_pc, con.addr_rel);
        con.addr_abs = target;
        if target & 0xFF00 != con.rt_pc & 0xFF00 {
            con.cycles = con.cycles + 1;
        }
        con.rt_pc = target;
    }
    0
}

/// CLC: clear Carry.
pub fn clc(con: &mut CpuExecution) -> (extra: u8)
    ensures
        *final(con) == (CpuExecution { rt_sr: set_bit(old(con).rt_sr, 0x01, false), ..*old(con) }),
        extra == 0,
{
    set_flag(CondType::CtC, false, con);
    0
}

/// SEC: set Carry.
pub fn sec(con: &mut CpuExecution) -> (extra: u8)
    ensures
        *final(con) == (CpuExecution { rt_sr: set_bit(old(con).rt_sr, 0x01, true), ..*old(con) }),
        extra == 0,
{
    set_flag(CondType::CtC, true, con);
    0
}

/// CLD: clear Decimal.
pub fn cld(con: &mut CpuExecution) -> (extra: u8)
    ensures
        *final(con) == (CpuExecution { rt_sr: set_bit(old(con).rt_sr, 0x08, false), ..*old(con) }),
        extra == 0,
{
    set_flag(CondType::CtD, false, con);
    0
}

/// SED: set Decimal.  The flag is stored and readable; arithmetic stays
/// binary, see [`adc`].
pub fn sed(con: &mut CpuExecution) -> (extra: u8)
    ensures
        *final(con) == (CpuExecution { rt_sr: set_bit(old(con).rt_sr, 0x08, true), ..*old(con) }),
        extra == 0,
{
    set_flag(CondType::CtD, true, con);
    0
}

/// CLI: clear Interrupt-disable.
pub fn cli(con: &mut CpuExecution) -> (extra: u8)
    ensures
        *final(con) == (CpuExecution { rt_sr: set_bit(old(con).rt_sr, 0x04, false), ..*old(con) }),
        extra == 0,
{
    set_flag(CondType::CtI, false, con);
    0
}

/// SEI: set Interrupt-disable.
pub fn sei(con: &mut CpuExecution) -> (extra: u8)
    ensures
        *final(con) == (CpuExecution { rt_sr: set_bit(old(con).rt_sr, 0x04, true), ..*old(con) }),
        extra == 0,
{
    set_flag(CondType::CtI, true, con);
    0
}

/// CLV: clear Overflow.
pub fn clv(con: &mut CpuExecution) -> (extra: u8)
    ensures
        *final(con) == (CpuExecution { rt_sr: set_bit(old(con).rt_sr, 0x40, false), ..*old(con) }),
        extra == 0,
{
    set_flag(CondType::CtV, false, con);
    0
}

/// TAX: copy the accumulator into X; Zero/Negative from the value.
pub open spec fn spec_tax(st: CpuExecution) -> CpuExecution {
    CpuExecution { rt_x: st.rt_ac, rt_sr: upd_zn(st.rt_sr, st.rt_ac), ..st }
}

/// Transfer the accumulator to X.
pub fn tax(con: &mut CpuExecution) -> (extra: u8)
    ensures
        *final(con) == spec_tax(*old(con)),
        extra == 0,
{
    con.rt_x = con.rt_ac;
    set_flag(CondType::CtZ, con.rt_x == 0, con);
    set_flag(CondType::CtN, con.rt_x & 0x80 != 0, con);
    0
}

/// TAY: copy the accumulator into Y; Zero/Negative from the value.
pub open spec fn spec_tay(st: CpuExecution) -> CpuExecution {
    CpuExecution { rt_y: st.rt_ac, rt_sr: upd_zn(st.rt_sr, st.rt_ac), ..st }
}

/// Transfer the accumulator to Y.
pub fn tay(con: &mut CpuExecution) -> (extra: u8)
    ensures
        *final(con) == spec_tay(*old(con)),
        extra == 0,
{
    con.rt_y = con.rt_ac;
    set_flag(CondType::CtZ, con.rt_y == 0, con);
    set_flag(CondType::CtN, con.rt_y & 0x80 != 0, con);
    0
}

/// TXA: copy X into the accumulator; Zero/Negative from the value.
pub open spec fn spec_txa(st: CpuExecution) -> CpuExecution {
    CpuExecution { rt_ac: st.rt_x, rt_sr: upd_zn(st.rt_sr, st.rt_x), ..st }
}

/// Transfer X to the accumulator.
pub fn txa(con: &mut CpuExecution) -> (extra: u8)
    ensures
        *final(con) == spec_txa(*old(con)),
        extra == 0,
{
    con.rt_ac = con.rt_x;
    set_flag(CondType::CtZ, con.rt_ac == 0, con);
    set_flag(CondType::CtN, con.rt_ac & 0x80 != 0, con);
    0
}

/// TYA: copy Y into the accumulator; Zero/Negative from the value.
pub open spec fn spec_tya(st: CpuExecution) -> CpuExecution {
    CpuExecution { rt_ac: st.rt_y, rt_sr: upd_zn(st.rt_sr, st.rt_y), ..st }
}

/// Transfer Y to the accumulator.
pub fn tya(con: &mut CpuExecution) -> (extra: u8)
    ensures
        *final(con) == spec_tya(*old(con)),
        extra == 0,
{
    con.rt_ac = con.rt_y;
    set_flag(CondType::CtZ, con.rt_ac == 0, con);
    set_flag(CondType::CtN, con.rt_ac & 0x80 != 0, con);
    0
}

/// TSX: copy the stack pointer into X; Zero/Negative from the value.
pub open spec fn spec_tsx(st: CpuExecution) -> CpuExecution {
    CpuExecution { rt_x: st.rt_sp, rt_sr: upd_zn(st.rt_sr, st.rt_sp), ..st }
}

/// Transfer the stack pointer to X.
pub fn tsx(con: &mut CpuExecution) -> (extra: u8)
    ensures
        *final(con) == spec_tsx(*old(con)),
        extra == 0,
{
    con.rt_x = con.rt_sp;
    set_flag(CondType::CtZ, con.rt_x == 0, con);
    set_flag(CondType::CtN, con.rt_x & 0x80 != 0, con);
    0
}

/// TXS: copy X into the stack pointer; the only transfer with no flag
/// effect.
pub fn txs(con: &mut CpuExecution) -> (extra: u8)
    ensures
        *final(con) == (CpuExecution { rt_sp: old(con).rt_x, ..*old(con) }),
        extra == 0,
{
    con.rt_sp = con.rt_x;
    0
}

/// PHA: push the accumulator.
pub open spec fn spec_pha(st: CpuExecution, mem: Seq<u8>) -> (CpuExecution, Seq<u8>) {
    spec_push(st, mem, st.rt_ac)
}

/// Push the accumulator onto the stack.
pub fn pha(con: &mut CpuExecution, mem: &mut Mem) -> (extra: u8)
    requires
        old(mem).wf(),
    ensures
        final(mem).wf(),
        (*final(con), final(mem)@) == spec_pha(*old(con), old(mem)@),
        extra == 0,
{
    push_stack(con, mem, con.rt_ac);
    0
}

/// PHP: push the status byte with the Break flag forced set.
pub open spec fn spec_php(st: CpuExecution, mem: Seq<u8>) -> (CpuExecution, Seq<u8>) {
    spec_push(st, mem, st.rt_sr | 0x10)
}

/// Push the status register onto the stack.
pub fn php(con: &mut CpuExecution, mem: &mut Mem) -> (extra: u8)
    requires
        old(mem).wf(),
    ensures
        final(mem).wf(),
        (*final(con), final(mem)@) == spec_php(*old(con), old(mem)@),
        extra == 0,
{
    push_stack(con, mem, con.rt_sr | 0x10);
    0
}

/// PLA: pull a byte into the accumulator; Zero/Negative from the value.
pub open spec fn spec_pla(st: CpuExecution, mem: Seq<u8>) -> CpuExecution {
    let pulled = spec_pull(st, mem);
    CpuExecution { rt_ac: pulled.1, rt_sr: upd_zn(pulled.0.rt_sr, pulled.1), ..pulled.0 }
}

/// Pull the accumulator from the stack.
pub fn pla(con: &mut CpuExecution, mem: &Mem) -> (extra: u8)
    requires
        mem.wf(),
    ensures
        *final(con) == spec_pla(*old(con), mem@),
        extra == 0,
{
    let v = pull_stack(con, mem);
    con.rt_ac = v;
    set_flag(CondType::CtZ, v == 0, con);
    set_flag(CondType::CtN, v & 0x80 != 0, con);
    0
}

/// PLP: pull the status byte and restore it as-is.
pub open spec fn spec_plp(st: CpuExecution, mem: Seq<u8>) -> CpuExecution {
    let pulled = spec_pull(st, mem);
    CpuExecution { rt_sr: pulled.1, ..pulled.0 }
}

/// Pull the status register from the stack.
pub fn plp(con: &mut CpuExecution, mem: &Mem) -> (extra: u8)
    requires
        mem.wf(),
    ensures
        *final(con) == spec_plp(*old(con), mem@),
        extra == 0,
{
    let v = pull_stack(con, mem);
    con.rt_sr = v;
    0
}

/// JMP: redirect `pc` to the resolved effective address.
pub fn jmp(con: &mut CpuExecution) -> (extra: u8)
    ensures
        *final(con) == (CpuExecution { rt_pc: old(con).addr_abs, ..*old(con) }),
        extra == 0,
{
    con.rt_pc = con.addr_abs;
    0
}

/// JSR: push `pc - 1` (high byte first) onto the stack, then redirect `pc`
/// to the resolved target.
pub open spec fn spec_jsr(st: CpuExecution, mem: Seq<u8>) -> (CpuExecution, Seq<u8>) {
    let ret = wrap16(st.rt_pc - 1);
    let p1 = spec_push(st, mem, (ret >> 8) as u8);
    let p2 = spec_push(p1.0, p1.1, (ret & 0xFF) as u8);
    (CpuExecution { rt_pc: st.addr_abs, ..p2.0 }, p2.1)
}

/// Jump to a subroutine.
pub fn jsr(con: &mut CpuExecution, mem: &mut Mem) -> (extra: u8)
    requires
        old(mem).wf(),
    ensures
        final(mem).wf(),
        (*final(con), final(mem)@) == spec_jsr(*old(con), old(mem)@),
        extra == 0,
{
    let ret = wsub16(con.rt_pc, 1);
    push_stack(con, mem, (ret >> 8) as u8);
    push_stack(con, mem, (ret & 0xFF) as u8);
    con.rt_pc = con.addr_abs;
    0
}

/// RTS: pull two bytes (low first) into `pc`, then increment `pc` by one.
pub open spec fn spec_rts(st: CpuExecution, mem: Seq<u8>) -> CpuExecution {
    let p1 = spec_pull(st, mem);
    let p2 = spec_pull(p1.0, mem);
    CpuExecution { rt_pc: wrap16(word(p1.1, p2.1) + 1), ..p2.0 }
}

/// Return from a subroutine.
pub fn rts(con: &mut CpuExecution, mem: &Mem) -> (extra: u8)
    requires
        mem.wf(),
    ensures
        *final(con) == spec_rts(*old(con), mem@),
        extra == 0,
{
    let lo = pull_stack(con, mem);
    let hi = pull_stack(con, mem);
    con.rt_pc = wadd16(((hi as u16) << 8) | (lo as u16), 1);
    0
}

/// RTI: pull the status byte, then `pc` (low byte first); the inverse of
/// BRK's push sequence.
pub open spec fn spec_rti(st: CpuExecution, mem: Seq<u8>) -> CpuExecution {
    let p1 = spec_pull(st, mem);
    let p2 = spec_pull(p1.0, mem);
    let p3 = spec_pull(p2.0, mem);
    CpuExecution { rt_sr: p1.1, rt_pc: word(p2.1, p3.1), ..p3.0 }
}

/// Return from an interrupt.
pub fn rti(con: &mut CpuExecution, mem: &Mem) -> (extra: u8)
    requires
        mem.wf(),
    ensures
        *final(con) == spec_rti(*old(con), mem@),
        extra == 0,
{
    let s = pull_stack(con, mem);
    let lo = pull_stack(con, mem);
    let hi = pull_stack(con, mem);
    con.rt_sr = s;
    con.rt_pc = ((hi as u16) << 8) | (lo as u16);
    0
}

/// BRK: skip the padding byte, set Interrupt-disable, push `pc` (high byte
/// first), push the status byte with Break forced set, clear Break, then
/// load `pc` from the interrupt vector at `0xFFFE`/`0xFFFF`.
pub open spec fn spec_brk(st: CpuExecution, mem: Seq<u8>) -> (CpuExecution, Seq<u8>) {
    let pc1 = wrap16(st.rt_pc + 1);
    let sr1 = set_bit(st.rt_sr, 0x04, true);
    let st1 = CpuExecution { rt_pc: pc1, rt_sr: sr1, ..st };
    let p1 = spec_push(st1, mem, (pc1 >> 8) as u8);
    let p2 = spec_push(p1.0, p1.1, (pc1 & 0xFF) as u8);
    let sr2 = set_bit(sr1, 0x10, true);
    let p3 = spec_push(CpuExecution { rt_sr: sr2, ..p2.0 }, p2.1, sr2);
    let sr3 = set_bit(sr2, 0x10, false);
    (
        CpuExecution { rt_sr: sr3, rt_pc: word(p3.1[0xFFFE], p3.1[0xFFFF]), ..p3.0 },
        p3.1,
    )
}

/// Software interrupt.
pub fn brk(con: &mut CpuExecution, mem: &mut Mem) -> (extra: u8)
    requires
        old(mem).wf(),
    ensures
        final(mem).wf(),
        (*final(con), final(mem)@) == spec_brk(*old(con), old(mem)@),
        extra == 0,
{
    con.rt_pc = wadd16(con.rt_pc, 1);
    set_flag(CondType::CtI, true, con);
    push_stack(con, mem, (con.rt_pc >> 8) as u8);
    push_stack(con, mem, (con.rt_pc & 0xFF) as u8);
    set_flag(CondType::CtB, true, con);
    push_stack(con, mem, con.rt_sr);
    set_flag(CondType::CtB, false, con);
    let lo = mem.read(0xFFFE);
    let hi = mem.read(0xFFFF);
    con.rt_pc = ((hi as u16) << 8) | (lo as u16);
    0
}

/// NOP: no register, flag or memory effect.
pub fn nop() -> (extra: u8)
    ensures
        extra == 0,
{
    0
}

/// Placeholder for the undocumented opcode kinds: no effect here; the
/// execution core halts on decoding one, see [`crate::cpu::process_instruction`].
pub fn illegal_opcode() -> (extra: u8)
    ensures
        extra == 0,
{
    0
}

/// The instruction semantics dispatcher as one function over the instruction
/// kind: the updated context, the updated memory, and the variable-cycle
/// eligibility flag.  The undocumented placeholder kinds have no effect
/// here; the execution core halts on decoding one.
pub open spec fn spec_execute(kind: InstructionType, st: CpuExecution, mem: Seq<u8>) -> (
    CpuExecution,
    Seq<u8>,
    u8,
) {
    match kind {
        InstructionType::ADC => (spec_adc(st), mem, 1),
        InstructionType::AND => (spec_and(st), mem, 1),
        InstructionType::ASL => (spec_asl(st, mem).0, spec_asl(st, mem).1, 0),
        InstructionType::BCC => (spec_branch(st, !flag_set(st.rt_sr, CondType::CtC)), mem, 0),
        InstructionType::BCS => (spec_branch(st, flag_set(st.rt_sr, CondType::CtC)), mem, 0),
        InstructionType::BEQ => (spec_branch(st, flag_set(st.rt_sr, CondType::CtZ)), mem, 0),
        InstructionType::BIT => (spec_bit(st), mem, 0),
        InstructionType::BMI => (spec_branch(st, flag_set(st.rt_sr, CondType::CtN)), mem, 0),
        InstructionType::BNE => (spec_branch(st, !flag_set(st.rt_sr, CondType::CtZ)), mem, 0),
        InstructionType::BPL => (spec_branch(st, !flag_set(st.rt_sr, CondType::CtN)), mem, 0),
        InstructionType::BRK => (spec_brk(st, mem).0, spec_brk(st, mem).1, 0),
        InstructionType::BVC => (spec_branch(st, !flag_set(st.rt_sr, CondType::CtV)), mem, 0),
        InstructionType::BVS => (spec_branch(st, flag_set(st.rt_sr, CondType::CtV)), mem, 0),
        InstructionType::CLC => (
            CpuExecution { rt_sr: set_bit(st.rt_sr, 0x01, false), ..st },
            mem,
            0,
        ),
        InstructionType::CLD => (
            CpuExecution { rt_sr: set_bit(st.rt_sr, 0x08, false), ..st },
            mem,
            0,
        ),
        InstructionType::CLI => (
            CpuExecution { rt_sr: set_bit(st.rt_sr, 0x04, false), ..st },
            mem,
            0,
        ),
        InstructionType::CLV => (
            CpuExecution { rt_sr: set_bit(st.rt_sr, 0x40, false), ..st },
            mem,
            0,
        ),
        InstructionType::CMP => (spec_cmp(st), mem, 1),
        InstructionType::CPX => (spec_cpx(st), mem, 0),
        InstructionType::CPY => (spec_cpy(st), mem, 0),
        InstructionType::DEC => (spec_dec(st, mem).0, spec_dec(st, mem).1, 0),
        InstructionType::DEX => (spec_dex(st), mem, 0),
        InstructionType::DEY => (spec_dey(st), mem, 0),
        InstructionType::EOR => (spec_eor(st), mem, 1),
        InstructionType::INC => (spec_inc(st, mem).0, spec_inc(st, mem).1, 0),
        InstructionType::INX => (spec_inx(st), mem, 0),
        InstructionType::INY => (spec_iny(st), mem, 0),
        InstructionType::JMP => (CpuExecution { rt_pc: st.addr_abs, ..st }, mem, 0),
        InstructionType::JSR => (spec_jsr(st, mem).0, spec_jsr(st, mem).1, 0),
        InstructionType::LDA => (spec_lda(st), mem, 1),
        InstructionType::LDX => (spec_ldx(st), mem, 1),
        InstructionType::LDY => (spec_ldy(st), mem, 1),
        InstructionType::LSR => (spec_lsr(st, mem).0, spec_lsr(st, mem).1, 0),
        InstructionType::NOP => (st, mem, 0),
        InstructionType::ORA => (spec_ora(st), mem, 1),
        InstructionType::PHA => (spec_pha(st, mem).0, spec_pha(st, mem).1, 0),
        InstructionType::PHP => (spec_php(st, mem).0, spec_php(st, mem).1, 0),
        InstructionType::PLA => (spec_pla(st, mem), mem, 0),
        InstructionType::PLP => (spec_plp(st, mem), mem, 0),
        InstructionType::ROL => (spec_rol(st, mem).0, spec_rol(st, mem).1, 0),
        InstructionType::ROR => (spec_ror(st, mem).0, spec_ror(st, mem).1, 0),
        InstructionType::RTI => (spec_rti(st, mem), mem, 0),
        InstructionType::RTS => (spec_rts(st, mem), mem, 0),
        InstructionType::SBC => (spec_sbc(st), mem, 1),
        InstructionType::SEC => (
            CpuExecution { rt_sr: set_bit(st.rt_sr, 0x01, true), ..st },
            mem,
            0,
        ),
        InstructionType::SED => (
            CpuExecution { rt_sr: set_bit(st.rt_sr, 0x08, true), ..st },
            mem,
            0,
        ),
        InstructionType::SEI => (
            CpuExecution { rt_sr: set_bit(st.rt_sr, 0x04, true), ..st },
            mem,
            0,
        ),
        InstructionType::STA => (st, spec_sta(st, mem), 0),
        InstructionType::STX => (st, spec_stx(st, mem), 0),
        InstructionType::STY => (st, spec_sty(st, mem), 0),
        InstructionType::TAX => (spec_tax(st), mem, 0),
        InstructionType::TAY => (spec_tay(st), mem, 0),
        InstructionType::TSX => (spec_tsx(st), mem, 0),
        InstructionType::TXA => (spec_txa(st), mem, 0),
        InstructionType::TXS => (CpuExecution { rt_sp: st.rt_x, ..st }, mem, 0),
        InstructionType::TYA => (spec_tya(st), mem, 0),
        _ => (st, mem, 0),
    }
}

/// Dispatch on the instruction kind: perform the operation against the
/// register file and memory, and report the variable-cycle eligibility flag.
pub fn match_process(inst_type: &InstructionType, con: &mut CpuExecution, mem: &mut Mem) -> (extra: u8)
    requires
        old(mem).wf(),
        old(con).cycles <= 0xFD,
    ensures
        final(mem).wf(),
        (*final(con), final(mem)@, extra) == spec_execute(*inst_type, *old(con), old(mem)@),
{
    match inst_type {
        InstructionType::ADC => adc(con),
        InstructionType::ANC => illegal_opcode(),
        InstructionType::AND => and(con),
        InstructionType::ANE => illegal_opcode(),
        InstructionType::ALR => illegal_opcode(),
        InstructionType::ARR => illegal_opcode(),
        InstructionType::ASL => asl(con, mem),
        InstructionType::BCC => bcc(con),
        InstructionType::BCS => bcs(con),
        InstructionType::BEQ => beq(con),
        InstructionType::BIT => bit(con),
        InstructionType::BMI => bmi(con),
        InstructionType::BNE => bne(con),
        InstructionType::BPL => bpl(con),
        InstructionType::BRK => brk(con, mem),
        InstructionType::BVC => bvc(con),
        InstructionType::BVS => bvs(con),
        InstructionType::CLC => clc(con),
        InstructionType::CLD => cld(con),
        InstructionType::CLI => cli(con),
        InstructionType::CLV => clv(con),
        InstructionType::CMP => cmp(con),
        InstructionType::CPX => cpx(con),
        InstructionType::CPY => cpy(con),
        InstructionType::DCP => illegal_opcode(),
        InstructionType::DEC => dec(con, mem),
        InstructionType::DEX => dex(con),
        InstructionType::DEY => dey(con),
        InstructionType::EOR => eor(con),
        InstructionType::INC => inc(con, mem),
        InstructionType::INX => inx(con),
        InstructionType::INY => iny(con),
        InstructionType::ISC => illegal_opcode(),
        InstructionType::JAM => illegal_opcode(),
        InstructionType::JMP => jmp(con),
        InstructionType::JSR => jsr(con, mem),
        InstructionType::LAS => illegal_opcode(),
        InstructionType::LAX => illegal_opcode(),
        InstructionType::LDA => lda(con),
        InstructionType::LDX => ldx(con),
        InstructionType::LDY => ldy(con),
        InstructionType::LSR => lsr(con, mem),
        InstructionType::LXA => illegal_opcode(),
        InstructionType::NOP => nop(),
        InstructionType::ORA => ora(con),
        InstructionType::PHA => pha(con, mem),
        InstructionType::PHP => php(con, mem),
        InstructionType::PLA => pla(con, mem),
        InstructionType::PLP => plp(con, mem),
        InstructionType::RLA => illegal_opcode(),
        InstructionType::ROL => rol(con, mem),
        InstructionType::ROR => ror(con, mem),
        InstructionType::RRA => illegal_opcode(),
        InstructionType::RTI => rti(con, mem),
        InstructionType::RTS => rts(con, mem),
        InstructionType::SAX => illegal_opcode(),
        InstructionType::SBC => sbc(con),
        InstructionType::SBX => illegal_opcode(),
        InstructionType::SEC => sec(con),
        InstructionType::SED => sed(con),
        InstructionType::SEI => sei(con),
        InstructionType::SHA => illegal_opcode(),
        InstructionType::SHX => illegal_opcode(),
        InstructionType::SHY => illegal_opcode(),
        InstructionType::SLO => illegal_opcode(),
        InstructionType::SRE => illegal_opcode(),
        InstructionType::STA => sta(con, mem),
        InstructionType::STX => stx(con, mem),
        InstructionType::STY => sty(con, mem),
        InstructionType::TAS => illegal_opcode(),
        InstructionType::TAX => tax(con),
        InstructionType::TAY => tay(con),
        InstructionType::TSX => tsx(con),
        InstructionType::TXA => txa(con),
        InstructionType::TXS => txs(con),
        InstructionType::TYA => tya(con),
        InstructionType::USBC => illegal_opcode(),
    }
}

/// The base cycle count of a descriptor, as read from the opcode table.
pub fn inst_cycles(cycles: u8) -> (r: u8)
    ensures
        r == cycles,
{
    cycles
}

} // verus!
