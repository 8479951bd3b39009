//! The arithmetic of the instruction set on plain bytes: each function
//! returns the result for register x and, where the instruction sets it,
//! the value for the flag register.
use crate::cpu::state::{
    add_with_carry, decimal_digits, shl_with_flag, shr_with_flag, sub_with_flag, subn_with_flag,
};
use vstd::prelude::*;

verus! {

/// `vx + vy`: the sum modulo 256, and 1 if the sum is above 255, else 0.
pub fn add_registers(vx: u8, vy: u8) -> (r: (u8, u8))
    ensures
        r == add_with_carry(vx, vy),
        r.0 == (vx + vy) % 256,
        r.1 == 1 <==> vx + vy > 255,
        r.1 == 0 || r.1 == 1,
{
    let sum: u16 = vx as u16 + vy as u16;
    let flag: u8 = if sum > 0xFF {
        1
    } else {
        0
    };
    ((sum % 256) as u8, flag)
}

/// `vx + imm` modulo 256. No flag is involved.
pub fn add_immediate(vx: u8, imm: u8) -> (r: u8)
    ensures
        r == (vx + imm) % 256,
{
    vx.wrapping_add(imm)
}

/// `vx - vy`: the difference modulo 256, and 0 if `vy > vx`, else 1.
pub fn sub_registers(vx: u8, vy: u8) -> (r: (u8, u8))
    ensures
        r == sub_with_flag(vx, vy),
        r.0 == (vx - vy) % 256,
        r.1 == 0 <==> vy > vx,
        r.1 == 0 || r.1 == 1,
{
    let flag: u8 = if vy > vx {
        0
    } else {
        1
    };
    (vx.wrapping_sub(vy), flag)
}

/// `vy - vx`: the difference modulo 256, and 0 if `vy > vx`, else 1: the
/// flag follows the same rule as for `sub_registers`.
pub fn subn_registers(vx: u8, vy: u8) -> (r: (u8, u8))
    ensures
        r == subn_with_flag(vx, vy),
        r.0 == (vy - vx) % 256,
        r.1 == 0 <==> vy > vx,
        r.1 == 0 || r.1 == 1,
{
    let flag: u8 = if vy > vx {
        0
    } else {
        1
    };
    (vy.wrapping_sub(vx), flag)
}

/// `vx` shifted right by one bit, and the bit that fell off.
pub fn shift_right(vx: u8) -> (r: (u8, u8))
    ensures
        r == shr_with_flag(vx),
        r.0 == vx >> 1u8,
        r.1 == vx & 1,
        r.0 * 2 + r.1 == vx,
{
    assert(vx & 1 == vx % 2 && vx >> 1u32 == vx / 2 && vx >> 1u8 == vx / 2) by (bit_vector);
    (vx.wrapping_shr(1), vx & 1)
}

/// `vx` shifted left by one bit within eight bits, and the bit that fell
/// off.
pub fn shift_left(vx: u8) -> (r: (u8, u8))
    ensures
        r == shl_with_flag(vx),
        r.0 == vx << 1u8,
        r.1 == vx >> 7u8,
        r.1 * 256 + r.0 == vx * 2,
{
    let flag: u8 = if vx & 0x80 != 0 {
        1
    } else {
        0
    };
    assert((vx & 0x80 != 0 <==> vx >= 128) && vx << 1u32 == (vx * 2) % 256 && vx << 1u8 == (vx * 2)
        % 256 && vx >> 7u8 == vx / 128) by (bit_vector);
    (vx.wrapping_shl(1), flag)
}

/// The decimal digits of `v`: hundreds, tens, ones.
pub fn digits_of(v: u8) -> (r: (u8, u8, u8))
    ensures
        r == decimal_digits(v),
        r.0 * 100 + r.1 * 10 + r.2 == v,
        r.0 <= 2 && r.1 <= 9 && r.2 <= 9,
{
    let h = v / 100;
    let t = (v % 100) / 10;
    let o = v % 10;
    (h, t, o)
}

} // verus!
