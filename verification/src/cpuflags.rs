//! The flag file: named accessors for the bits of the 8-bit status register.
//! Callers never mask the status byte directly; every flag is read and
//! written through [`get_flag`] and [`set_flag`].
//!
//! Bit layout (fixed): bit 7 Negative, bit 6 Overflow, bit 5 unused (reads as
//! set by convention and cannot be cleared through the accessor), bit 4
//! Break, bit 3 Decimal, bit 2 Interrupt-disable, bit 1 Zero, bit 0 Carry.

use vstd::prelude::*;

use crate::cpu::SystemState;
use crate::cpuproc::CpuExecution;

verus! {

/// Flag selectors, one per status-register bit.
#[derive(Clone, Copy, PartialEq, Eq, Structural, Debug)]
pub enum CondType {
    /// Negative (bit 7).
    CtN,
    /// Overflow (bit 6).
    CtV,
    /// The unused bit (bit 5): permanently reads as set.
    CtNone,
    /// Break (bit 4).
    CtB,
    /// Decimal (bit 3); arithmetic itself is always binary, see [`crate::cpuproc::adc`].
    CtD,
    /// Interrupt disable (bit 2).
    CtI,
    /// Zero (bit 1).
    CtZ,
    /// Carry (bit 0).
    CtC,
}

/// The single-bit mask of each flag within the status byte.
pub open spec fn flag_mask(flag: CondType) -> u8 {
    match flag {
        CondType::CtN => 0x80,
        CondType::CtV => 0x40,
        CondType::CtNone => 0x20,
        CondType::CtB => 0x10,
        CondType::CtD => 0x08,
        CondType::CtI => 0x04,
        CondType::CtZ => 0x02,
        CondType::CtC => 0x01,
    }
}

/// Whether `flag`'s bit is set in the status byte `sr`.
pub open spec fn flag_set(sr: u8, flag: CondType) -> bool {
    sr & flag_mask(flag) != 0
}

/// `sr` with the bits of `mask` forced to `val`.
pub open spec fn set_bit(sr: u8, mask: u8, val: bool) -> u8 {
    if val {
        sr | mask
    } else {
        sr & !mask
    }
}

/// `sr` with Zero and Negative updated from the 8-bit result `r`:
/// Zero iff `r == 0`, Negative iff bit 7 of `r` is set.
pub open spec fn upd_zn(sr: u8, r: u8) -> u8 {
    set_bit(set_bit(sr, 0x02, r == 0), 0x80, r & 0x80 != 0)
}

/// What [`get_flag`] reads: the flag's bit as 0 or 1, except that the unused
/// bit always reads as set.
pub open spec fn spec_get_flag(flag: CondType, sr: u8) -> u8 {
    if flag is CtNone {
        1
    } else if flag_set(sr, flag) {
        1
    } else {
        0
    }
}

/// What [`set_flag`] leaves in the status byte: the selected bit forced to
/// `val`; the unused bit cannot be changed.
pub open spec fn spec_set_flag(flag: CondType, val: bool, sr: u8) -> u8 {
    if flag is CtNone {
        sr
    } else {
        set_bit(sr, flag_mask(flag), val)
    }
}

/// Read one flag of the register file as 0 or 1.
pub fn get_flag(flag: CondType, con: &CpuExecution) -> (r: u8)
    ensures
        r == spec_get_flag(flag, con.rt_sr),
{
    match flag {
        CondType::CtN => {
            if con.rt_sr & 0x80 != 0 {
                1
            } else {
                0
            }
        },
        CondType::CtV => {
            if con.rt_sr & 0x40 != 0 {
                1
            } else {
                0
            }
        },
        CondType::CtNone => 1,
        CondType::CtB => {
            if con.rt_sr & 0x10 != 0 {
                1
            } else {
                0
            }
        },
        CondType::CtD => {
            if con.rt_sr & 0x08 != 0 {
                1
            } else {
                0
            }
        },
        CondType::CtI => {
            if con.rt_sr & 0x04 != 0 {
                1
            } else {
                0
            }
        },
        CondType::CtZ => {
            if con.rt_sr & 0x02 != 0 {
                1
            } else {
                0
            }
        },
        CondType::CtC => {
            if con.rt_sr & 0x01 != 0 {
                1
            } else {
                0
            }
        },
    }
}

/// Write one flag of the register file, touching no other bit.  Asking to
/// set the unused bit is acknowledged with [`SystemState::NoneState`] and
/// leaves the status byte unchanged.
pub fn set_flag(flag: CondType, val: bool, con: &mut CpuExecution) -> (r: SystemState)
    ensures
        *final(con) == (CpuExecution { rt_sr: spec_set_flag(flag, val, old(con).rt_sr), ..*old(con) }),
        r == (if flag is CtNone && val {
            SystemState::NoneState
        } else {
            SystemState::CpuSetFlag
        }),
{
    match flag {
        CondType::CtN => {
            if val {
                con.rt_sr = con.rt_sr | 0x80;
            } else {
                con.rt_sr = con.rt_sr & !0x80;
            }
        },
        CondType::CtV => {
            if val {
                con.rt_sr = con.rt_sr | 0x40;
            } else {
                con.rt_sr = con.rt_sr & !0x40;
            }
        },
        CondType::CtNone => {
            if val {
                return SystemState::NoneState;
            }
        },
        CondType::CtB => {
            if val {
                con.rt_sr = con.rt_sr | 0x10;
            } else {
                con.rt_sr = con.rt_sr & !0x10;
            }
        },
        CondType::CtD => {
            if val {
                con.rt_sr = con.rt_sr | 0x08;
            } else {
                con.rt_sr = con.rt_sr & !0x08;
            }
        },
        CondType::CtI => {
            if val {
                con.rt_sr = con.rt_sr | 0x04;
            } else {
                con.rt_sr = con.rt_sr & !0x04;
            }
        },
        CondType::CtZ => {
            if val {
                con.rt_sr = con.rt_sr | 0x02;
            } else {
                con.rt_sr = con.rt_sr & !0x02;
            }
        },
        CondType::CtC => {
            if val {
                con.rt_sr = con.rt_sr | 0x01;
            } else {
                con.rt_sr = con.rt_sr & !0x01;
            }
        },
    }
    SystemState::CpuSetFlag
}

} // verus!
