//! Instruction semantics exercised directly on a register file: arithmetic
//! and flag formulas, shifts and rotates, compares, and the flag accessors.

use emu6502::cpu::SystemState;
use emu6502::cpu::cpu_init;
use emu6502::cpuflags::CondType;
use emu6502::cpuflags::get_flag;
use emu6502::cpuflags::set_flag;
use emu6502::cpuproc::CpuExecution;
use emu6502::cpuproc::adc;
use emu6502::cpuproc::and;
use emu6502::cpuproc::asl;
use emu6502::cpuproc::bit;
use emu6502::cpuproc::cmp;
use emu6502::cpuproc::dec;
use emu6502::cpuproc::dex;
use emu6502::cpuproc::eor;
use emu6502::cpuproc::inc;
use emu6502::cpuproc::inst_cycles;
use emu6502::cpuproc::inx;
use emu6502::cpuproc::lsr;
use emu6502::cpuproc::ora;
use emu6502::cpuproc::rol;
use emu6502::cpuproc::ror;
use emu6502::cpuproc::sbc;
use emu6502::cpuproc::tax;
use emu6502::cpuproc::tsx;
use emu6502::cpuproc::txs;
use emu6502::mem::Mem;

fn fresh() -> CpuExecution {
    CpuExecution::new()
}

fn flag(con: &CpuExecution, f: CondType) -> u8 {
    get_flag(f, con)
}

#[test]
fn adc_simple_sum_clears_all_flags() {
    // A=0x50 + 0x10, carry-in 0 => 0x60, N=0 V=0 C=0 Z=0.
    let mut con = fresh();
    con.rt_ac = 0x50;
    con.fetch = 0x10;
    let extra = adc(&mut con);
    assert_eq!(con.rt_ac, 0x60);
    assert_eq!(flag(&con, CondType::CtN), 0);
    assert_eq!(flag(&con, CondType::CtV), 0);
    assert_eq!(flag(&con, CondType::CtC), 0);
    assert_eq!(flag(&con, CondType::CtZ), 0);
    assert_eq!(extra, 1);
}

#[test]
fn adc_carry_out_without_overflow() {
    // A=0x50 + 0xD0 => 0x20 with carry out and no signed overflow.
    let mut con = fresh();
    con.rt_ac = 0x50;
    con.fetch = 0xD0;
    adc(&mut con);
    assert_eq!(con.rt_ac, 0x20);
    assert_eq!(flag(&con, CondType::CtC), 1);
    assert_eq!(flag(&con, CondType::CtV), 0);
}

#[test]
fn adc_signed_overflow_sets_v_and_n() {
    // A=0x50 + 0x50 => 0xA0: two positives yielding a negative.
    let mut con = fresh();
    con.rt_ac = 0x50;
    con.fetch = 0x50;
    adc(&mut con);
    assert_eq!(con.rt_ac, 0xA0);
    assert_eq!(flag(&con, CondType::CtV), 1);
    assert_eq!(flag(&con, CondType::CtN), 1);
    assert_eq!(flag(&con, CondType::CtC), 0);
}

#[test]
fn adc_uses_carry_in_and_sets_zero() {
    let mut con = fresh();
    con.rt_ac = 0xFF;
    con.fetch = 0x00;
    set_flag(CondType::CtC, true, &mut con);
    adc(&mut con);
    assert_eq!(con.rt_ac, 0x00);
    assert_eq!(flag(&con, CondType::CtZ), 1);
    assert_eq!(flag(&con, CondType::CtC), 1);
}

#[test]
fn sbc_is_adc_of_the_complement() {
    // With carry set (no borrow): 0x50 - 0x10 = 0x40, carry stays set.
    let mut con = fresh();
    con.rt_ac = 0x50;
    con.fetch = 0x10;
    set_flag(CondType::CtC, true, &mut con);
    sbc(&mut con);
    assert_eq!(con.rt_ac, 0x40);
    assert_eq!(flag(&con, CondType::CtC), 1);
    assert_eq!(flag(&con, CondType::CtN), 0);
}

#[test]
fn sbc_borrow_clears_carry() {
    // 0x10 - 0x20 with carry set => 0xF0 and carry (no-borrow) cleared.
    let mut con = fresh();
    con.rt_ac = 0x10;
    con.fetch = 0x20;
    set_flag(CondType::CtC, true, &mut con);
    sbc(&mut con);
    assert_eq!(con.rt_ac, 0xF0);
    assert_eq!(flag(&con, CondType::CtC), 0);
    assert_eq!(flag(&con, CondType::CtN), 1);
}

#[test]
fn logic_ops_update_zero_and_negative() {
    let mut con = fresh();
    con.rt_ac = 0xF0;
    con.fetch = 0x0F;
    and(&mut con);
    assert_eq!(con.rt_ac, 0x00);
    assert_eq!(flag(&con, CondType::CtZ), 1);

    let mut con = fresh();
    con.rt_ac = 0x80;
    con.fetch = 0x01;
    ora(&mut con);
    assert_eq!(con.rt_ac, 0x81);
    assert_eq!(flag(&con, CondType::CtN), 1);
    assert_eq!(flag(&con, CondType::CtZ), 0);

    let mut con = fresh();
    con.rt_ac = 0xFF;
    con.fetch = 0x0F;
    eor(&mut con);
    assert_eq!(con.rt_ac, 0xF0);
    assert_eq!(flag(&con, CondType::CtN), 1);
}

#[test]
fn asl_accumulator_shifts_bit7_into_carry() {
    let mut mem = Mem::new();
    let mut con = fresh();
    con.acc_op = true;
    con.rt_ac = 0x81;
    asl(&mut con, &mut mem);
    assert_eq!(con.rt_ac, 0x02);
    assert_eq!(flag(&con, CondType::CtC), 1);
    assert_eq!(flag(&con, CondType::CtN), 0);
    assert_eq!(flag(&con, CondType::CtZ), 0);
}

#[test]
fn asl_memory_operand_writes_back() {
    let mut mem = Mem::new();
    let mut con = fresh();
    con.acc_op = false;
    con.fetch = 0x40;
    con.addr_abs = 0x0234;
    asl(&mut con, &mut mem);
    assert_eq!(mem.read(0x0234), 0x80);
    assert_eq!(flag(&con, CondType::CtN), 1);
    assert_eq!(flag(&con, CondType::CtC), 0);
}

#[test]
fn lsr_shifts_bit0_into_carry() {
    let mut mem = Mem::new();
    let mut con = fresh();
    con.acc_op = true;
    con.rt_ac = 0x01;
    lsr(&mut con, &mut mem);
    assert_eq!(con.rt_ac, 0x00);
    assert_eq!(flag(&con, CondType::CtC), 1);
    assert_eq!(flag(&con, CondType::CtZ), 1);
}

#[test]
fn rol_and_ror_move_carry_through() {
    let mut mem = Mem::new();
    let mut con = fresh();
    con.acc_op = true;
    con.rt_ac = 0x80;
    set_flag(CondType::CtC, true, &mut con);
    rol(&mut con, &mut mem);
    // 0x80 rotated left with carry-in 1: result 0x01, carry-out 1.
    assert_eq!(con.rt_ac, 0x01);
    assert_eq!(flag(&con, CondType::CtC), 1);

    let mut con = fresh();
    con.acc_op = true;
    con.rt_ac = 0x01;
    set_flag(CondType::CtC, true, &mut con);
    ror(&mut con, &mut mem);
    // 0x01 rotated right with carry-in 1: result 0x80, carry-out 1.
    assert_eq!(con.rt_ac, 0x80);
    assert_eq!(flag(&con, CondType::CtC), 1);
    assert_eq!(flag(&con, CondType::CtN), 1);
}

#[test]
fn inc_and_dec_wrap_around_without_touching_carry() {
    let mut mem = Mem::new();
    let mut con = fresh();
    con.fetch = 0xFF;
    con.addr_abs = 0x0040;
    inc(&mut con, &mut mem);
    assert_eq!(mem.read(0x0040), 0x00);
    assert_eq!(flag(&con, CondType::CtZ), 1);
    assert_eq!(flag(&con, CondType::CtC), 0);

    let mut con = fresh();
    con.fetch = 0x00;
    con.addr_abs = 0x0041;
    dec(&mut con, &mut mem);
    assert_eq!(mem.read(0x0041), 0xFF);
    assert_eq!(flag(&con, CondType::CtN), 1);
}

#[test]
fn register_increments_wrap() {
    let mut con = fresh();
    con.rt_x = 0xFF;
    inx(&mut con);
    assert_eq!(con.rt_x, 0x00);
    assert_eq!(flag(&con, CondType::CtZ), 1);

    let mut con = fresh();
    con.rt_x = 0x00;
    dex(&mut con);
    assert_eq!(con.rt_x, 0xFF);
    assert_eq!(flag(&con, CondType::CtN), 1);
}

#[test]
fn cmp_sets_carry_zero_negative() {
    // Equal: carry and zero.
    let mut con = fresh();
    con.rt_ac = 0x42;
    con.fetch = 0x42;
    cmp(&mut con);
    assert_eq!(flag(&con, CondType::CtC), 1);
    assert_eq!(flag(&con, CondType::CtZ), 1);
    assert_eq!(con.rt_ac, 0x42);

    // Greater: carry set, zero clear.
    let mut con = fresh();
    con.rt_ac = 0x50;
    con.fetch = 0x10;
    cmp(&mut con);
    assert_eq!(flag(&con, CondType::CtC), 1);
    assert_eq!(flag(&con, CondType::CtZ), 0);

    // Less: carry clear, negative from the difference.
    let mut con = fresh();
    con.rt_ac = 0x10;
    con.fetch = 0x20;
    cmp(&mut con);
    assert_eq!(flag(&con, CondType::CtC), 0);
    assert_eq!(flag(&con, CondType::CtN), 1);
}

#[test]
fn bit_reads_operand_bits_into_v_and_n() {
    let mut con = fresh();
    con.rt_ac = 0x01;
    con.fetch = 0xC0;
    bit(&mut con);
    assert_eq!(flag(&con, CondType::CtZ), 1);
    assert_eq!(flag(&con, CondType::CtV), 1);
    assert_eq!(flag(&con, CondType::CtN), 1);
    assert_eq!(con.rt_ac, 0x01);
}

#[test]
fn transfers_update_flags_except_txs() {
    let mut con = fresh();
    con.rt_ac = 0x00;
    con.rt_x = 0x55;
    tax(&mut con);
    assert_eq!(con.rt_x, 0x00);
    assert_eq!(flag(&con, CondType::CtZ), 1);

    let mut con = fresh();
    con.rt_sp = 0x90;
    tsx(&mut con);
    assert_eq!(con.rt_x, 0x90);
    assert_eq!(flag(&con, CondType::CtN), 1);

    let mut con = fresh();
    set_flag(CondType::CtZ, true, &mut con);
    let sr_before = con.rt_sr;
    con.rt_x = 0x00;
    txs(&mut con);
    assert_eq!(con.rt_sp, 0x00);
    assert_eq!(con.rt_sr, sr_before);
}

#[test]
fn unused_status_bit_always_reads_set() {
    let mut con = fresh();
    con.rt_sr = 0x00;
    assert_eq!(get_flag(CondType::CtNone, &con), 1);
    let state = set_flag(CondType::CtNone, true, &mut con);
    assert_eq!(state, SystemState::NoneState);
    assert_eq!(con.rt_sr, 0x00);
    let state = set_flag(CondType::CtNone, false, &mut con);
    assert_eq!(state, SystemState::CpuSetFlag);
    assert_eq!(con.rt_sr, 0x00);
    assert_eq!(get_flag(CondType::CtNone, &con), 1);
}

#[test]
fn set_flag_touches_only_the_named_bit() {
    let mut con = fresh();
    con.rt_sr = 0x00;
    set_flag(CondType::CtC, true, &mut con);
    assert_eq!(con.rt_sr, 0x01);
    set_flag(CondType::CtN, true, &mut con);
    assert_eq!(con.rt_sr, 0x81);
    set_flag(CondType::CtC, false, &mut con);
    assert_eq!(con.rt_sr, 0x80);
    assert_eq!(get_flag(CondType::CtN, &con), 1);
    assert_eq!(get_flag(CondType::CtC, &con), 0);
}

#[test]
fn cpu_init_reports_initialisation() {
    assert_eq!(cpu_init(), SystemState::CpuInit);
}

#[test]
fn inst_cycles_hands_the_count_through() {
    assert_eq!(inst_cycles(7), 7);
    assert_eq!(inst_cycles(0), 0);
}
