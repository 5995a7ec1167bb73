//! Counter bit-widths: the largest compare value each can hold, and the
//! BITMODE register setting that selects it.

use vstd::prelude::*;

use crate::narrow::{narrow_to_u16, narrow_to_u8};

verus! {

/// The BITMODE register setting of a TIMER.
#[derive(Debug, Clone, Copy, PartialEq, Eq, Structural)]
pub enum BitMode {
    _16bit,
    _08bit,
    _24bit,
    _32bit,
}

impl BitMode {
    /// The number of bits the counter holds in this mode.
    pub open spec fn bits(self) -> nat {
        match self {
            BitMode::_08bit => 8,
            BitMode::_16bit => 16,
            BitMode::_24bit => 24,
            BitMode::_32bit => 32,
        }
    }

    /// The number of distinct counter values in this mode.
    pub open spec fn modulus(self) -> nat {
        match self {
            BitMode::_08bit => 0x100,
            BitMode::_16bit => 0x1_0000,
            BitMode::_24bit => 0x100_0000,
            BitMode::_32bit => 0x1_0000_0000,
        }
    }

    /// The value written to the BITMODE register for this mode.
    pub fn code(self) -> (r: u32)
        ensures
            r == match self {
                BitMode::_16bit => 0u32,
                BitMode::_08bit => 1u32,
                BitMode::_24bit => 2u32,
                BitMode::_32bit => 3u32,
            },
    {
        match self {
            BitMode::_16bit => 0,
            BitMode::_08bit => 1,
            BitMode::_24bit => 2,
            BitMode::_32bit => 3,
        }
    }

    /// The largest value the counter reaches in this mode.
    pub fn max_value(self) -> (r: u32)
        ensures
            r == self.modulus() - 1,
    {
        match self {
            BitMode::_08bit => 0xff,
            BitMode::_16bit => 0xffff,
            BitMode::_24bit => 0xff_ffff,
            BitMode::_32bit => 0xffff_ffff,
        }
    }
}

/// A tick count that does not fit in the requested width.
#[derive(Debug, Clone, Copy, PartialEq, Eq, Structural)]
pub struct TooWide;

/// One of the counter widths a `HiResTimer` can be given.
#[derive(Debug, Clone, Copy, PartialEq, Eq, Structural)]
pub enum TimerWidth {
    U8,
    U16,
    U32,
}

impl TimerWidth {
    /// The largest compare value this width can hold.
    pub open spec fn max_ticks(self) -> nat {
        match self {
            TimerWidth::U8 => 0xff,
            TimerWidth::U16 => 0xffff,
            TimerWidth::U32 => 0xffff_ffff,
        }
    }

    /// The BITMODE setting that selects this width.
    pub open spec fn mode(self) -> BitMode {
        match self {
            TimerWidth::U8 => BitMode::_08bit,
            TimerWidth::U16 => BitMode::_16bit,
            TimerWidth::U32 => BitMode::_32bit,
        }
    }

    /// The largest compare value this width can hold.
    pub fn max_value(self) -> (r: u32)
        ensures
            r == self.max_ticks(),
    {
        match self {
            TimerWidth::U8 => 0xff,
            TimerWidth::U16 => 0xffff,
            TimerWidth::U32 => 0xffff_ffff,
        }
    }

    /// The BITMODE setting that selects this width.
    pub fn bit_mode(self) -> (r: BitMode)
        ensures
            r == self.mode(),
            r.modulus() == self.max_ticks() + 1,
    {
        match self {
            TimerWidth::U8 => BitMode::_08bit,
            TimerWidth::U16 => BitMode::_16bit,
            TimerWidth::U32 => BitMode::_32bit,
        }
    }

    /// Checked narrowing of a 32-bit tick count to this width: the value
    /// itself when it fits, `TooWide` otherwise (never a truncation).
    pub fn try_from_u32(self, val: u32) -> (r: Result<u32, TooWide>)
        ensures
            r is Ok <==> val <= self.max_ticks(),
            r matches Ok(v) ==> v == val,
    {
        match self {
            TimerWidth::U8 => match narrow_to_u8(val) {
                Some(v) => Ok(v as u32),
                None => Err(TooWide),
            },
            TimerWidth::U16 => match narrow_to_u16(val) {
                Some(v) => Ok(v as u32),
                None => Err(TooWide),
            },
            TimerWidth::U32 => Ok(val),
        }
    }
}

} // verus!
