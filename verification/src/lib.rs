//! A cycle-stepped instruction execution core for a classic 8-bit
//! microprocessor: opcode decode, addressing-mode resolution, instruction
//! semantics, the register/flag file, and per-instruction cycle accounting.
//!
//! The core operates on a [`cpuproc::CpuExecution`] register file together
//! with a [`mem::Mem`] memory bus.  One instruction is executed per call of
//! [`cpu::step`]; every register, flag and memory effect is pinned down by a
//! functional specification ([`cpu::spec_step`]).

pub mod cpu;
pub mod cpuflags;
pub mod cpuproc;
pub mod instruction;
pub mod mem;
