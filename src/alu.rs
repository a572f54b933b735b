//! 8-bit and 16-bit arithmetic with the flags each operation produces.
use vstd::prelude::*;
use crate::register::FlagRegister;

verus! {

pub open spec fn carry_value(c: bool) -> int {
    if c { 1 } else { 0 }
}

/// Addition with carry-in: the wrapped sum, Zero when it is 0, Half-Carry on a
/// carry out of bit 3, Carry on a carry out of bit 7, Subtract clear.
pub fn add_with_flags(a: u8, b: u8, carry: bool) -> (r: (u8, FlagRegister))
    ensures
        r.0 == (a + b + carry_value(carry)) % 256,
        r.1.zero == (r.0 == 0),
        r.1.subtract == false,
        r.1.half_carry == ((a & 0xF) + (b & 0xF) + carry_value(carry) > 0xF),
        r.1.carry == (a + b + carry_value(carry) > 0xFF),
{
    let c: u8 = if carry { 1 } else { 0 };
    let sum: u16 = a as u16 + b as u16 + c as u16;
    let res: u8 = (sum % 256) as u8;
    let fl = FlagRegister {
        zero: res == 0,
        subtract: false,
        half_carry: ((a & 0xF) as u16) + ((b & 0xF) as u16) + (c as u16) > 0xF,
        carry: sum > 0xFF,
    };
    (res, fl)
}

/// Subtraction with borrow-in: the wrapped difference, Zero when it is 0,
/// Half-Carry on a borrow from bit 4, Carry on a borrow from bit 8, Subtract set.
pub fn sub_with_flags(a: u8, b: u8, borrow: bool) -> (r: (u8, FlagRegister))
    ensures
        r.0 == (a - b - carry_value(borrow) + 512) % 256,
        r.1.zero == (r.0 == 0),
        r.1.subtract == true,
        r.1.half_carry == ((a & 0xF) < (b & 0xF) + carry_value(borrow)),
        r.1.carry == (a < b + carry_value(borrow)),
{
    let c: u8 = if borrow { 1 } else { 0 };
    let total: u16 = 512 + a as u16 - b as u16 - c as u16;
    let res: u8 = (total % 256) as u8;
    let fl = FlagRegister {
        zero: res == 0,
        subtract: true,
        half_carry: ((a & 0xF) as u16) < ((b & 0xF) as u16) + (c as u16),
        carry: (a as u16) < (b as u16) + (c as u16),
    };
    (res, fl)
}

/// The result of one of the eight accumulator operations, numbered as the
/// opcode table numbers them: add, add with carry, subtract, subtract with
/// carry, and, xor, or, compare. Compare leaves the accumulator as it was.
pub open spec fn alu_result(op: u8, a: u8, b: u8, carry: bool) -> u8 {
    if op == 0 {
        ((a + b) % 256) as u8
    } else if op == 1 {
        ((a + b + carry_value(carry)) % 256) as u8
    } else if op == 2 {
        ((a - b + 512) % 256) as u8
    } else if op == 3 {
        ((a - b - carry_value(carry) + 512) % 256) as u8
    } else if op == 4 {
        a & b
    } else if op == 5 {
        a ^ b
    } else if op == 6 {
        a | b
    } else {
        a
    }
}

/// The flags left by one of the eight accumulator operations.
pub open spec fn alu_flags(op: u8, a: u8, b: u8, carry: bool) -> FlagRegister {
    let cin = if op == 1 || op == 3 { carry_value(carry) } else { 0 };
    if op == 0 || op == 1 {
        FlagRegister {
            zero: (a + b + cin) % 256 == 0,
            subtract: false,
            half_carry: (a & 0xF) + (b & 0xF) + cin > 0xF,
            carry: a + b + cin > 0xFF,
        }
    } else if op == 2 || op == 3 || op == 7 {
        FlagRegister {
            zero: (a - b - cin + 512) % 256 == 0,
            subtract: true,
            half_carry: (a & 0xF) < (b & 0xF) + cin,
            carry: a < b + cin,
        }
    } else {
        FlagRegister {
            zero: alu_result(op, a, b, carry) == 0,
            subtract: false,
            half_carry: op == 4,
            carry: false,
        }
    }
}

/// One of the eight accumulator operations on `a` and `b`, with the carry flag
/// as it stood before.
pub fn alu_op(op: u8, a: u8, b: u8, carry: bool) -> (r: (u8, FlagRegister))
    requires
        op < 8,
    ensures
        r.0 == alu_result(op, a, b, carry),
        r.1 == alu_flags(op, a, b, carry),
{
    if op == 0 {
        add_with_flags(a, b, false)
    } else if op == 1 {
        add_with_flags(a, b, carry)
    } else if op == 2 {
        sub_with_flags(a, b, false)
    } else if op == 3 {
        sub_with_flags(a, b, carry)
    } else if op == 7 {
        let (_, fl) = sub_with_flags(a, b, false);
        (a, fl)
    } else {
        let res = if op == 4 {
            a & b
        } else if op == 5 {
            a ^ b
        } else {
            a | b
        };
        (res, FlagRegister { zero: res == 0, subtract: false, half_carry: op == 4, carry: false })
    }
}

/// The flags after an increment of `v`.
pub open spec fn inc_flags(v: u8, fl: FlagRegister) -> FlagRegister {
    FlagRegister { zero: (v + 1) % 256 == 0, subtract: false, half_carry: v & 0xF == 0xF, carry: fl.carry }
}

/// The flags after a decrement of `v`.
pub open spec fn dec_flags(v: u8, fl: FlagRegister) -> FlagRegister {
    FlagRegister { zero: (v - 1 + 256) % 256 == 0, subtract: true, half_carry: v & 0xF == 0, carry: fl.carry }
}

/// Increment: wraps, sets Zero and Half-Carry by the result, clears Subtract and
/// keeps Carry.
pub fn inc_with_flags(v: u8, fl: FlagRegister) -> (r: (u8, FlagRegister))
    ensures
        r.0 == (v + 1) % 256,
        r.1 == inc_flags(v, fl),
{
    let res = v.wrapping_add(1);
    (res, FlagRegister { zero: res == 0, subtract: false, half_carry: v & 0xF == 0xF, carry: fl.carry })
}

/// Decrement: wraps, sets Zero and Half-Carry by the result, sets Subtract and
/// keeps Carry.
pub fn dec_with_flags(v: u8, fl: FlagRegister) -> (r: (u8, FlagRegister))
    ensures
        r.0 == (v - 1 + 256) % 256,
        r.1 == dec_flags(v, fl),
{
    let res = v.wrapping_sub(1);
    (res, FlagRegister { zero: res == 0, subtract: true, half_carry: v & 0xF == 0, carry: fl.carry })
}

/// The result of one of the eight rotate and shift operations of the extended
/// table: rotate left, rotate right, rotate left through carry, rotate right
/// through carry, shift left, arithmetic shift right, swap nibbles, logical
/// shift right.
pub open spec fn shift_result(op: u8, v: u8, carry: bool) -> u8 {
    if op == 0 {
        ((v % 128) * 2 + v / 128) as u8
    } else if op == 1 {
        (v / 2 + (v % 2) * 128) as u8
    } else if op == 2 {
        ((v % 128) * 2 + carry_value(carry)) as u8
    } else if op == 3 {
        (v / 2 + carry_value(carry) * 128) as u8
    } else if op == 4 {
        ((v % 128) * 2) as u8
    } else if op == 5 {
        (v / 2 + (v / 128) * 128) as u8
    } else if op == 6 {
        ((v % 16) * 16 + v / 16) as u8
    } else {
        (v / 2) as u8
    }
}

/// The bit shifted out by a rotate or shift; swap shifts none out.
pub open spec fn shift_carry(op: u8, v: u8) -> bool {
    if op == 0 || op == 2 || op == 4 {
        v >= 128
    } else if op == 6 {
        false
    } else {
        v % 2 == 1
    }
}

/// The flags after a rotate or shift: Zero by the result, Carry the bit
/// shifted out, Subtract and Half-Carry clear.
pub open spec fn shift_flags(op: u8, v: u8, carry: bool) -> FlagRegister {
    FlagRegister {
        zero: shift_result(op, v, carry) == 0,
        subtract: false,
        half_carry: false,
        carry: shift_carry(op, v),
    }
}

/// One of the eight rotate and shift operations.
pub fn shift_op(op: u8, v: u8, carry: bool) -> (r: (u8, FlagRegister))
    requires
        op < 8,
    ensures
        r.0 == shift_result(op, v, carry),
        r.1 == shift_flags(op, v, carry),
{
    let cin: u8 = if carry { 1 } else { 0 };
    let res: u8 = if op == 0 {
        (v % 128) * 2 + v / 128
    } else if op == 1 {
        v / 2 + (v % 2) * 128
    } else if op == 2 {
        (v % 128) * 2 + cin
    } else if op == 3 {
        v / 2 + cin * 128
    } else if op == 4 {
        (v % 128) * 2
    } else if op == 5 {
        v / 2 + (v / 128) * 128
    } else if op == 6 {
        (v % 16) * 16 + v / 16
    } else {
        v / 2
    };
    let out = if op == 0 || op == 2 || op == 4 {
        v >= 128
    } else if op == 6 {
        false
    } else {
        v % 2 == 1
    };
    (res, FlagRegister { zero: res == 0, subtract: false, half_carry: false, carry: out })
}

/// The correction that decimal adjustment adds (after an addition) or
/// subtracts (after a subtraction).
pub open spec fn daa_adjust(a: u8, fl: FlagRegister) -> u8 {
    let hi: u8 = if fl.carry || (!fl.subtract && a > 0x99) { 0x60 } else { 0 };
    let lo: u8 = if fl.half_carry || (!fl.subtract && a & 0x0F > 0x09) { 0x06 } else { 0 };
    (hi + lo) as u8
}

/// The accumulator after decimal adjustment.
pub open spec fn daa_result(a: u8, fl: FlagRegister) -> u8 {
    if fl.subtract {
        ((a - daa_adjust(a, fl) + 256) % 256) as u8
    } else {
        ((a + daa_adjust(a, fl)) % 256) as u8
    }
}

/// The flags after decimal adjustment: Zero by the result, Subtract kept,
/// Half-Carry clear, Carry when the upper digit was corrected.
pub open spec fn daa_flags(a: u8, fl: FlagRegister) -> FlagRegister {
    FlagRegister {
        zero: daa_result(a, fl) == 0,
        subtract: fl.subtract,
        half_carry: false,
        carry: daa_adjust(a, fl) >= 0x60,
    }
}

/// Decimal adjustment of the accumulator after a BCD addition or subtraction.
pub fn daa_with_flags(a: u8, fl: FlagRegister) -> (r: (u8, FlagRegister))
    ensures
        r.0 == daa_result(a, fl),
        r.1 == daa_flags(a, fl),
{
    let hi: u8 = if fl.carry || (!fl.subtract && a > 0x99) { 0x60 } else { 0 };
    let lo: u8 = if fl.half_carry || (!fl.subtract && a & 0x0F > 0x09) { 0x06 } else { 0 };
    let adjust: u8 = hi + lo;
    let res = if fl.subtract { a.wrapping_sub(adjust) } else { a.wrapping_add(adjust) };
    (res, FlagRegister { zero: res == 0, subtract: fl.subtract, half_carry: false, carry: adjust >= 0x60 })
}

/// 16-bit addition into HL: Half-Carry on a carry out of bit 11, Carry on a
/// carry out of bit 15, Subtract clear, Zero kept.
pub open spec fn add16_flags(a: u16, b: u16, fl: FlagRegister) -> FlagRegister {
    FlagRegister {
        zero: fl.zero,
        subtract: false,
        half_carry: (a & 0xFFF) + (b & 0xFFF) > 0xFFF,
        carry: a + b > 0xFFFF,
    }
}

pub fn add16_with_flags(a: u16, b: u16, fl: FlagRegister) -> (r: (u16, FlagRegister))
    ensures
        r.0 == (a + b) % 0x10000,
        r.1 == add16_flags(a, b, fl),
{
    let sum: u32 = a as u32 + b as u32;
    (
        (sum % 0x10000) as u16,
        FlagRegister {
            zero: fl.zero,
            subtract: false,
            half_carry: ((a & 0xFFF) as u32) + ((b & 0xFFF) as u32) > 0xFFF,
            carry: sum > 0xFFFF,
        },
    )
}

/// The stack pointer plus a signed byte offset, with the flags that adding the
/// offset's byte to the low byte of the stack pointer gives; Zero and Subtract
/// clear.
pub open spec fn sp_offset_result(sp: u16, e: u8) -> u16 {
    ((sp + (if e < 128 { e as int } else { e - 256 }) + 0x10000) % 0x10000) as u16
}

pub open spec fn sp_offset_flags(sp: u16, e: u8) -> FlagRegister {
    FlagRegister {
        zero: false,
        subtract: false,
        half_carry: (sp & 0xF) + (e & 0xF) > 0xF,
        carry: (sp & 0xFF) + e > 0xFF,
    }
}

pub fn add_sp_offset(sp: u16, e: u8) -> (r: (u16, FlagRegister))
    ensures
        r.0 == sp_offset_result(sp, e),
        r.1 == sp_offset_flags(sp, e),
{
    let target: u32 = if e < 128 {
        (sp as u32 + e as u32) % 0x10000
    } else {
        (sp as u32 + 0x10000 - (256 - e as u32)) % 0x10000
    };
    (
        target as u16,
        FlagRegister {
            zero: false,
            subtract: false,
            half_carry: ((sp & 0xF) as u32) + ((e & 0xF) as u32) > 0xF,
            carry: ((sp & 0xFF) as u32) + (e as u32) > 0xFF,
        },
    )
}

} // verus!
