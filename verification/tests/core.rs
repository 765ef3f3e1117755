//! Full execution-core scenarios: stepping whole instructions through
//! memory, branches and their cycle penalties, the indirect-jump quirk, the
//! stack, reset, halting, and determinism.

use emu6502::cpu::SystemState;
use emu6502::cpu::cpu_read;
use emu6502::cpu::cpu_read_u8;
use emu6502::cpu::cpu_write;
use emu6502::cpu::process_instruction;
use emu6502::cpu::reset;
use emu6502::cpu::step;
use emu6502::cpuflags::CondType;
use emu6502::cpuflags::get_flag;
use emu6502::cpuflags::set_flag;
use emu6502::cpuproc::CpuExecution;
use emu6502::mem::Mem;

fn machine() -> (CpuExecution, Mem) {
    (CpuExecution::new(), Mem::new())
}

#[test]
fn branch_taken_across_page_costs_two_extra_cycles() {
    // BCC at 0x10EE with displacement +0x20: the pre-branch pc is 0x10F0,
    // the target 0x1110 crosses a page, so the cost is 2 (base) + 1 (taken)
    // + 1 (page cross).
    let (mut con, mut mem) = machine();
    mem.write(0x10EE, 0x90);
    mem.write(0x10EF, 0x20);
    con.rt_pc = 0x10EE;
    let cycles = step(&mut con, &mut mem);
    assert_eq!(con.rt_pc, 0x1110);
    assert_eq!(cycles, 4);
}

#[test]
fn branch_taken_within_page_costs_one_extra_cycle() {
    let (mut con, mut mem) = machine();
    mem.write(0x1000, 0x90);
    mem.write(0x1001, 0x10);
    con.rt_pc = 0x1000;
    let cycles = step(&mut con, &mut mem);
    assert_eq!(con.rt_pc, 0x1012);
    assert_eq!(cycles, 3);
}

#[test]
fn branch_not_taken_costs_base_cycles_and_keeps_pc() {
    let (mut con, mut mem) = machine();
    mem.write(0x10EE, 0x90);
    mem.write(0x10EF, 0x20);
    con.rt_pc = 0x10EE;
    set_flag(CondType::CtC, true, &mut con);
    let cycles = step(&mut con, &mut mem);
    // Only the two fetched bytes are consumed.
    assert_eq!(con.rt_pc, 0x10F0);
    assert_eq!(cycles, 2);
}

#[test]
fn branch_backwards_uses_sign_extension() {
    // BNE at 0x2010 with displacement -4 (0xFC): target 0x2012 - 4 = 0x200E.
    let (mut con, mut mem) = machine();
    mem.write(0x2010, 0xD0);
    mem.write(0x2011, 0xFC);
    con.rt_pc = 0x2010;
    let cycles = step(&mut con, &mut mem);
    assert_eq!(con.rt_pc, 0x200E);
    assert_eq!(cycles, 3);
}

#[test]
fn indirect_jmp_page_wrap_quirk() {
    // JMP (0x30FF) with mem[0x30FF]=0x40 and mem[0x3000]=0x50: the high byte
    // of the target comes from 0x3000, not 0x3100, giving 0x5040.
    let (mut con, mut mem) = machine();
    mem.write(0x0400, 0x6C);
    mem.write(0x0401, 0xFF);
    mem.write(0x0402, 0x30);
    mem.write(0x30FF, 0x40);
    mem.write(0x3000, 0x50);
    mem.write(0x3100, 0x99);
    con.rt_pc = 0x0400;
    let cycles = step(&mut con, &mut mem);
    assert_eq!(con.rt_pc, 0x5040);
    assert_eq!(cycles, 5);
}

#[test]
fn indirect_jmp_without_wrap_reads_the_next_byte() {
    let (mut con, mut mem) = machine();
    mem.write(0x0400, 0x6C);
    mem.write(0x0401, 0xFE);
    mem.write(0x0402, 0x30);
    mem.write(0x30FE, 0x40);
    mem.write(0x30FF, 0x50);
    con.rt_pc = 0x0400;
    step(&mut con, &mut mem);
    assert_eq!(con.rt_pc, 0x5040);
}

#[test]
fn stack_round_trip_restores_byte_and_pointer() {
    // PHA pushes 0xAB; the byte sits at 0x0100 + sp_before; PLA restores
    // both the accumulator and the stack pointer.
    let (mut con, mut mem) = machine();
    mem.write(0x0600, 0x48);
    mem.write(0x0601, 0x68);
    con.rt_pc = 0x0600;
    con.rt_sp = 0xFD;
    con.rt_ac = 0xAB;
    let cycles = step(&mut con, &mut mem);
    assert_eq!(cycles, 3);
    assert_eq!(mem.read(0x01FD), 0xAB);
    assert_eq!(con.rt_sp, 0xFC);
    con.rt_ac = 0x00;
    let cycles = step(&mut con, &mut mem);
    assert_eq!(cycles, 4);
    assert_eq!(con.rt_ac, 0xAB);
    assert_eq!(con.rt_sp, 0xFD);
}

#[test]
fn reset_loads_vector_and_stack_pointer() {
    let (mut con, mut mem) = machine();
    mem.write(0xFFFC, 0x34);
    mem.write(0xFFFD, 0x12);
    con.rt_ac = 0x99;
    con.halted = true;
    reset(&mut con, &mem);
    assert_eq!(con.rt_sp, 0xFD);
    assert_eq!(con.rt_pc, 0x1234);
    assert_eq!(con.rt_ac, 0x00);
    assert!(!con.halted);
    assert_eq!(get_flag(CondType::CtNone, &con), 1);
    assert_eq!(get_flag(CondType::CtI, &con), 1);
}

#[test]
fn jam_opcode_halts_until_reset() {
    let (mut con, mut mem) = machine();
    mem.write(0x0400, 0x02);
    con.rt_pc = 0x0400;
    let cycles = step(&mut con, &mut mem);
    assert_eq!(cycles, 0);
    assert!(con.halted);
    let pc_after = con.rt_pc;
    // Further steps are no-ops until an external reset.
    let cycles = step(&mut con, &mut mem);
    assert_eq!(cycles, 0);
    assert_eq!(con.rt_pc, pc_after);
    mem.write(0xFFFC, 0x00);
    mem.write(0xFFFD, 0x05);
    reset(&mut con, &mem);
    assert!(!con.halted);
    assert_eq!(con.rt_pc, 0x0500);
}

#[test]
fn undocumented_kind_halts_via_process_instruction() {
    let (mut con, mut mem) = machine();
    // 0x03 decodes to an undocumented placeholder kind.
    let state = process_instruction(0x03, &mut con, &mut mem);
    assert_eq!(state, SystemState::Jam);
    assert!(con.halted);
    let state = process_instruction(0xA9, &mut con, &mut mem);
    assert_eq!(state, SystemState::Jam);
}

#[test]
fn jsr_and_rts_round_trip() {
    let (mut con, mut mem) = machine();
    mem.write(0x0400, 0x20);
    mem.write(0x0401, 0x00);
    mem.write(0x0402, 0x05);
    mem.write(0x0500, 0x60);
    con.rt_pc = 0x0400;
    con.rt_sp = 0xFD;
    let cycles = step(&mut con, &mut mem);
    assert_eq!(cycles, 6);
    assert_eq!(con.rt_pc, 0x0500);
    // The pushed return address is pc - 1 = 0x0402, high byte first.
    assert_eq!(mem.read(0x01FD), 0x04);
    assert_eq!(mem.read(0x01FC), 0x02);
    let cycles = step(&mut con, &mut mem);
    assert_eq!(cycles, 6);
    assert_eq!(con.rt_pc, 0x0403);
    assert_eq!(con.rt_sp, 0xFD);
}

#[test]
fn brk_pushes_state_and_rti_restores_it() {
    let (mut con, mut mem) = machine();
    mem.write(0xFFFE, 0x00);
    mem.write(0xFFFF, 0x08);
    mem.write(0x0400, 0x00);
    mem.write(0x0800, 0x40);
    con.rt_pc = 0x0400;
    con.rt_sp = 0xFD;
    let cycles = step(&mut con, &mut mem);
    assert_eq!(cycles, 7);
    assert_eq!(con.rt_pc, 0x0800);
    assert_eq!(get_flag(CondType::CtI, &con), 1);
    // The pushed status byte has the Break flag set; the live one does not.
    assert_eq!(mem.read(0x01FB) & 0x10, 0x10);
    assert_eq!(get_flag(CondType::CtB, &con), 0);
    let cycles = step(&mut con, &mut mem);
    assert_eq!(cycles, 6);
    // BRK pushed pc + 1 past the padding byte: 0x0401 + 1 = 0x0402.
    assert_eq!(con.rt_pc, 0x0402);
    assert_eq!(con.rt_sp, 0xFD);
}

#[test]
fn lda_immediate_sets_zero_flag() {
    let (mut con, mut mem) = machine();
    mem.write(0x0400, 0xA9);
    mem.write(0x0401, 0x00);
    con.rt_pc = 0x0400;
    con.rt_ac = 0x55;
    let cycles = step(&mut con, &mut mem);
    assert_eq!(cycles, 2);
    assert_eq!(con.rt_ac, 0x00);
    assert_eq!(get_flag(CondType::CtZ, &con), 1);
    assert_eq!(con.rt_pc, 0x0402);
}

#[test]
fn zero_page_x_wraps_within_page_zero() {
    // LDA zpg,X with operand 0xF0 and X=0x20 reads 0x0010, not 0x0110.
    let (mut con, mut mem) = machine();
    mem.write(0x0400, 0xB5);
    mem.write(0x0401, 0xF0);
    mem.write(0x0010, 0x77);
    mem.write(0x0110, 0x11);
    con.rt_pc = 0x0400;
    con.rt_x = 0x20;
    let cycles = step(&mut con, &mut mem);
    assert_eq!(cycles, 4);
    assert_eq!(con.rt_ac, 0x77);
}

#[test]
fn absolute_x_load_pays_the_page_cross_cycle() {
    let (mut con, mut mem) = machine();
    mem.write(0x0400, 0xBD);
    mem.write(0x0401, 0xF0);
    mem.write(0x0402, 0x12);
    mem.write(0x1310, 0x5A);
    con.rt_pc = 0x0400;
    con.rt_x = 0x20;
    let cycles = step(&mut con, &mut mem);
    assert_eq!(cycles, 5);
    assert_eq!(con.rt_ac, 0x5A);

    // Same load without a crossing costs the base cycles.
    let (mut con, mut mem) = machine();
    mem.write(0x0400, 0xBD);
    mem.write(0x0401, 0xF0);
    mem.write(0x0402, 0x12);
    mem.write(0x12F1, 0x3C);
    con.rt_pc = 0x0400;
    con.rt_x = 0x01;
    let cycles = step(&mut con, &mut mem);
    assert_eq!(cycles, 4);
    assert_eq!(con.rt_ac, 0x3C);
}

#[test]
fn absolute_x_store_never_pays_the_page_cross_cycle() {
    // STA abs,X costs its base 5 cycles whether or not the indexed address
    // crosses a page.
    let (mut con, mut mem) = machine();
    mem.write(0x0400, 0x9D);
    mem.write(0x0401, 0xF0);
    mem.write(0x0402, 0x12);
    con.rt_pc = 0x0400;
    con.rt_x = 0x20;
    con.rt_ac = 0xEE;
    let cycles = step(&mut con, &mut mem);
    assert_eq!(cycles, 5);
    assert_eq!(mem.read(0x1310), 0xEE);
}

#[test]
fn indexed_indirect_x_reads_through_page_zero() {
    let (mut con, mut mem) = machine();
    mem.write(0x0400, 0xA1);
    mem.write(0x0401, 0x20);
    mem.write(0x0024, 0x34);
    mem.write(0x0025, 0x12);
    mem.write(0x1234, 0x42);
    con.rt_pc = 0x0400;
    con.rt_x = 0x04;
    let cycles = step(&mut con, &mut mem);
    assert_eq!(cycles, 6);
    assert_eq!(con.rt_ac, 0x42);
}

#[test]
fn indirect_indexed_y_pays_page_cross() {
    let (mut con, mut mem) = machine();
    mem.write(0x0400, 0xB1);
    mem.write(0x0401, 0x20);
    mem.write(0x0020, 0xF0);
    mem.write(0x0021, 0x12);
    mem.write(0x1310, 0x24);
    con.rt_pc = 0x0400;
    con.rt_y = 0x20;
    let cycles = step(&mut con, &mut mem);
    assert_eq!(cycles, 6);
    assert_eq!(con.rt_ac, 0x24);
}

#[test]
fn clock_count_accumulates_across_steps() {
    let (mut con, mut mem) = machine();
    mem.write(0x0400, 0xA9);
    mem.write(0x0401, 0x07);
    mem.write(0x0402, 0xEA);
    con.rt_pc = 0x0400;
    step(&mut con, &mut mem);
    step(&mut con, &mut mem);
    assert_eq!(con.clock_count, 4);
}

#[test]
fn identical_states_give_identical_trajectories() {
    // The same register file, memory contents and opcode stream, stepped
    // twice: registers, flags and cycles must agree at every step.
    let program: [u8; 11] = [
        0xA9, 0x10, // LDA #$10
        0x69, 0x75, // ADC #$75
        0x8D, 0x00, 0x02, // STA $0200
        0xE8, // INX
        0xD0, 0xFA, // BNE back
        0xEA, // NOP
    ];
    let mut runs: Vec<(Vec<u32>, CpuExecution, u8)> = Vec::new();
    for _ in 0..2 {
        let (mut con, mut mem) = machine();
        let mut addr: u16 = 0x0400;
        for b in program {
            mem.write(addr, b);
            addr += 1;
        }
        con.rt_pc = 0x0400;
        let mut cycles: Vec<u32> = Vec::new();
        for _ in 0..8 {
            cycles.push(step(&mut con, &mut mem));
        }
        runs.push((cycles, con, mem.read(0x0200)));
    }
    assert_eq!(runs[0].0, runs[1].0);
    assert_eq!(runs[0].1, runs[1].1);
    assert_eq!(runs[0].2, runs[1].2);
}

#[test]
fn bus_helpers_read_and_write() {
    let (_, mut mem) = machine();
    let written = cpu_write(&mut mem, 0x1234, 0x56);
    assert_eq!(written, 0x56);
    assert_eq!(cpu_read(&mem, 0x1234), 0x56);
    cpu_write(&mut mem, 0x0042, 0x99);
    assert_eq!(cpu_read_u8(&mem, 0x42), 0x99);
}
