//! The execution core: one-instruction stepping, reset, and the memory-bus
//! access functions, together with the top-level functional specification of
//! a step and the laws proved about it.

use vstd::prelude::*;

use crate::cpuproc::CpuExecution;
use crate::cpuproc::fetch_operand;
use crate::cpuproc::match_addr;
use crate::cpuproc::match_process;
use crate::cpuproc::spec_execute;
use crate::cpuproc::spec_fetch;
use crate::cpuproc::spec_pha;
use crate::cpuproc::spec_pla;
use crate::cpuproc::spec_pull;
use crate::cpuproc::spec_push;
use crate::cpuproc::spec_resolve;
use crate::cpuproc::wadd16;
use crate::cpuproc::wadd32;
use crate::cpuproc::word;
use crate::cpuproc::wrap16;
use crate::cpuproc::wrap32;
use crate::cpuproc::wrap8;
use crate::instruction::is_illegal;
use crate::instruction::lookup;
use crate::instruction::spec_is_illegal;
use crate::instruction::spec_lookup;
use crate::mem::Mem;

verus! {

/// Coarse outcome reported by the core's entry points.
#[derive(Clone, Copy, PartialEq, Eq, Structural, Debug)]
pub enum SystemState {
    /// The core was (re)initialised.
    CpuInit,
    /// One instruction was decoded and executed.
    CpuInst,
    /// A flag write completed.
    CpuSetFlag,
    /// A write to the unused status bit was ignored.
    NoneState,
    /// An undocumented placeholder opcode was decoded: the core is halted.
    Jam,
}

/// Report that the core is being initialised.
pub fn cpu_init() -> (r: SystemState)
    ensures
        r == SystemState::CpuInit,
{
    SystemState::CpuInit
}

/// Bus read: the byte stored at `addr`.
pub fn cpu_read(mem: &Mem, addr: u16) -> (b: u8)
    requires
        mem.wf(),
    ensures
        b == mem@[addr as int],
{
    mem.read(addr)
}

/// Bus read within the zero page: the byte stored at address `addr`,
/// `0x0000..=0x00FF`.
pub fn cpu_read_u8(mem: &Mem, addr: u8) -> (b: u8)
    requires
        mem.wf(),
    ensures
        b == mem@[addr as int],
{
    mem.read(addr as u16)
}

/// Bus write: store `data` at `addr` and hand the written byte back.
pub fn cpu_write(mem: &mut Mem, addr: u16, data: u8) -> (b: u8)
    requires
        old(mem).wf(),
    ensures
        final(mem).wf(),
        final(mem)@ == old(mem)@.update(addr as int, data),
        b == data,
{
    mem.write(addr, data);
    data
}


// ---------------------------------------------------------------------------
// The step function: Fetch -> Decode -> Resolve -> Execute -> Retire, with
// its functional specification.
// ---------------------------------------------------------------------------

/// What executing one decoded opcode does: decode the descriptor; on an
/// undocumented placeholder kind, halt and retire the base cycles; otherwise
/// resolve the operand, execute the instruction, and retire
/// `base + page-crossing penalty (for eligible instructions) + branch extras`
/// cycles.  Returns the new context, the new memory, and the reported state.
pub open spec fn spec_process(op: u8, st: CpuExecution, mem: Seq<u8>) -> (
    CpuExecution,
    Seq<u8>,
    SystemState,
) {
    if st.halted {
        (st, mem, SystemState::Jam)
    } else {
        let ins = spec_lookup(op);
        let st0 = CpuExecution { opcode: op, cycles: 0, ..st };
        if spec_is_illegal(ins.inst_type) {
            (
                CpuExecution {
                    halted: true,
                    cycles: ins.cycles,
                    clock_count: wrap32(st.clock_count + ins.cycles),
                    ..st0
                },
                mem,
                SystemState::Jam,
            )
        } else {
            let resolved = spec_resolve(ins.mode, st0, mem);
            let st2 = spec_fetch(ins.mode, resolved.0, mem);
            let executed = spec_execute(ins.inst_type, st2, mem);
            let total = ins.cycles + (if resolved.1 == 1 && executed.2 == 1 {
                1int
            } else {
                0int
            }) + executed.0.cycles;
            (
                CpuExecution {
                    cycles: wrap8(total),
                    clock_count: wrap32(st.clock_count + total),
                    ..executed.0
                },
                executed.1,
                SystemState::CpuInst,
            )
        }
    }
}

/// One full step: fetch the opcode at `pc`, advance `pc`, then process it as
/// [`spec_process`] does.  A halted core does nothing and consumes no
/// cycles.  Returns the new context, the new memory, and the cycles
/// consumed.
pub open spec fn spec_step(st: CpuExecution, mem: Seq<u8>) -> (CpuExecution, Seq<u8>, u32) {
    if st.halted {
        (st, mem, 0)
    } else {
        let op = mem[st.rt_pc as int];
        let stf = CpuExecution { rt_pc: wrap16(st.rt_pc + 1), ..st };
        let processed = spec_process(op, stf, mem);
        (processed.0, processed.1, processed.0.cycles as u32)
    }
}

/// Process one already-fetched opcode: decode, resolve, execute, retire.
/// The cycle total of the instruction is left in `con.cycles` and added to
/// `con.clock_count`.  Decoding an undocumented placeholder kind halts the
/// core and reports [`SystemState::Jam`]; a halted core does nothing.
pub fn process_instruction(opcode: u8, con: &mut CpuExecution, mem: &mut Mem) -> (state: SystemState)
    requires
        old(mem).wf(),
    ensures
        final(mem).wf(),
        *final(con) == spec_process(opcode, *old(con), old(mem)@).0,
        final(mem)@ == spec_process(opcode, *old(con), old(mem)@).1,
        state == spec_process(opcode, *old(con), old(mem)@).2,
{
    if con.halted {
        return SystemState::Jam;
    }
    con.opcode = opcode;
    con.cycles = 0;
    let ins = lookup(opcode);
    if is_illegal(&ins.inst_type) {
        con.halted = true;
        con.cycles = ins.cycles;
        con.clock_count = wadd32(con.clock_count, ins.cycles as u32);
        return SystemState::Jam;
    }
    let aextra = match_addr(&ins.mode, con, mem);
    fetch_operand(&ins.mode, con, mem);
    let oextra = match_process(&ins.inst_type, con, mem);
    let gate: u16 = if aextra == 1 && oextra == 1 {
        1
    } else {
        0
    };
    let total: u16 = (ins.cycles as u16) + gate + (con.cycles as u16);
    con.cycles = (total % 0x100) as u8;
    con.clock_count = wadd32(con.clock_count, total as u32);
    SystemState::CpuInst
}

/// Execute one instruction: fetch the opcode byte at `pc`, advance `pc`,
/// decode and execute, and return the cycles the instruction consumed.
/// While the core is halted, steps are no-ops consuming zero cycles.
pub fn step(con: &mut CpuExecution, mem: &mut Mem) -> (cycles: u32)
    requires
        old(mem).wf(),
    ensures
        final(mem).wf(),
        *final(con) == spec_step(*old(con), old(mem)@).0,
        final(mem)@ == spec_step(*old(con), old(mem)@).1,
        cycles == spec_step(*old(con), old(mem)@).2,
{
    if con.halted {
        return 0;
    }
    let opcode = mem.read(con.rt_pc);
    con.rt_pc = wadd16(con.rt_pc, 1);
    process_instruction(opcode, con, mem);
    con.cycles as u32
}

/// The register file after a reset: registers and scratch state cleared,
/// the stack pointer at `0xFD`, the status byte with the unused bit and
/// Interrupt-disable set, and `pc` loaded little-endian from the reset
/// vector at `0xFFFC`/`0xFFFD`.
pub open spec fn spec_reset(mem: Seq<u8>) -> CpuExecution {
    CpuExecution {
        fetch: 0,
        addr_abs: 0,
        addr_rel: 0,
        opcode: 0,
        cycles: 0,
        clock_count: 0,
        rt_pc: word(mem[0xFFFC], mem[0xFFFD]),
        rt_ac: 0,
        rt_x: 0,
        rt_y: 0,
        rt_sr: 0x24,
        rt_sp: 0xFD,
        acc_op: false,
        halted: false,
    }
}

/// Reset the core to its power-up state, clearing any halted state, and
/// load `pc` from the reset vector.
pub fn reset(con: &mut CpuExecution, mem: &Mem)
    requires
        mem.wf(),
    ensures
        *final(con) == spec_reset(mem@),
        final(con).rt_sp == 0xFD,
        final(con).rt_pc == word(mem@[0xFFFC], mem@[0xFFFD]),
        !final(con).halted,
{
    let lo = mem.read(0xFFFC);
    let hi = mem.read(0xFFFD);
    *con = CpuExecution {
        fetch: 0,
        addr_abs: 0,
        addr_rel: 0,
        opcode: 0,
        cycles: 0,
        clock_count: 0,
        rt_pc: ((hi as u16) << 8) | (lo as u16),
        rt_ac: 0,
        rt_x: 0,
        rt_y: 0,
        rt_sr: 0x24,
        rt_sp: 0xFD,
        acc_op: false,
        halted: false,
    };
}

// ---------------------------------------------------------------------------
// Laws of the core.
// ---------------------------------------------------------------------------

/// Law: a push followed by a pull returns the pushed byte, the stack pointer
/// returns to its pre-push value, and the byte sits at `0x0100 + sp` in the
/// meantime.
pub proof fn lemma_stack_round_trip(st: CpuExecution, mem: Seq<u8>, v: u8)
    requires
        mem.len() == 0x10000,
    ensures
        ({
            let pushed = spec_push(st, mem, v);
            let pulled = spec_pull(pushed.0, pushed.1);
            &&& pulled.1 == v
            &&& pulled.0.rt_sp == st.rt_sp
            &&& pushed.1[0x0100 + st.rt_sp as int] == v
        }),
{
    assert(wrap8(wrap8(st.rt_sp - 1) + 1) == st.rt_sp);
}

/// Law: pushing the accumulator and pulling it back (PHA then PLA) restores
/// both the accumulator and the stack pointer, and the pushed byte sits at
/// `0x0100 + sp` immediately after the push.
pub proof fn lemma_pha_pla_round_trip(st: CpuExecution, mem: Seq<u8>)
    requires
        mem.len() == 0x10000,
    ensures
        ({
            let pushed = spec_pha(st, mem);
            let pulled = spec_pla(pushed.0, pushed.1);
            &&& pulled.rt_ac == st.rt_ac
            &&& pulled.rt_sp == st.rt_sp
            &&& pushed.1[0x0100 + st.rt_sp as int] == st.rt_ac
        }),
{
    lemma_stack_round_trip(st, mem, st.rt_ac);
}

/// Law: the halted state is absorbing.  A halted core's step changes nothing
/// and consumes no cycles, however many steps are taken; only [`reset`]
/// leaves the state.
pub proof fn lemma_halted_is_absorbing(st: CpuExecution, mem: Seq<u8>, n: nat)
    requires
        st.halted,
    ensures
        spec_step(st, mem) == (st, mem, 0u32),
        spec_run(st, mem, n) == (st, mem),
    decreases n,
{
    if n > 0 {
        lemma_halted_is_absorbing(st, mem, (n - 1) as nat);
    }
}

/// Law: decoding an undocumented placeholder opcode enters the halted state.
pub proof fn lemma_illegal_decode_halts(st: CpuExecution, mem: Seq<u8>)
    requires
        !st.halted,
        spec_is_illegal(spec_lookup(mem[st.rt_pc as int]).inst_type),
    ensures
        spec_step(st, mem).0.halted,
        spec_step(st, mem).1 == mem,
{
}


/// The trajectory of `n` steps from a starting state.
pub open spec fn spec_run(st: CpuExecution, mem: Seq<u8>, n: nat) -> (CpuExecution, Seq<u8>)
    decreases n,
{
    if n == 0 {
        (st, mem)
    } else {
        let one = spec_step(st, mem);
        spec_run(one.0, one.1, (n - 1) as nat)
    }
}

/// Law: stepping is deterministic.  [`step`]'s contract pins its whole
/// outcome — registers, flags, memory and cycle count — to the function
/// [`spec_step`] of the starting register file and memory, so identical
/// states and memories give identical outcomes.
pub proof fn lemma_step_deterministic(
    st1: CpuExecution,
    mem1: Seq<u8>,
    st2: CpuExecution,
    mem2: Seq<u8>,
)
    requires
        st1 == st2,
        mem1 == mem2,
    ensures
        spec_step(st1, mem1) == spec_step(st2, mem2),
{
}

/// Law: whole trajectories are deterministic: from identical register files
/// and memory contents, `n` steps produce identical register/flag/memory
/// trajectories.
pub proof fn lemma_run_deterministic(
    st1: CpuExecution,
    mem1: Seq<u8>,
    st2: CpuExecution,
    mem2: Seq<u8>,
    n: nat,
)
    requires
        st1 == st2,
        mem1 == mem2,
    ensures
        spec_run(st1, mem1, n) == spec_run(st2, mem2, n),
    decreases n,
{
    if n > 0 {
        let one1 = spec_step(st1, mem1);
        let one2 = spec_step(st2, mem2);
        lemma_step_deterministic(st1, mem1, st2, mem2);
        lemma_run_deterministic(one1.0, one1.1, one2.0, one2.1, (n - 1) as nat);
    }
}

} // verus!
