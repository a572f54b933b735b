use vstd::prelude::*;

verus! {

/// The four condition flags, the upper nibble of the F register.
///
/// The conversions to and from a byte are the only place where the bit
/// positions are fixed: Zero is bit 7, Subtract bit 6, Half-Carry bit 5 and
/// Carry bit 4. The low nibble of the byte is always zero.
#[derive(Clone, Copy, Debug, PartialEq, Eq, Structural)]
pub struct FlagRegister {
    pub zero: bool,
    pub subtract: bool,
    pub half_carry: bool,
    pub carry: bool,
}

pub open spec fn bit_value(b: bool, weight: u8) -> u8 {
    if b { weight } else { 0 }
}

/// The byte that a set of flags packs into.
pub open spec fn flags_byte(fl: FlagRegister) -> u8 {
    (bit_value(fl.zero, 0x80) + bit_value(fl.subtract, 0x40) + bit_value(fl.half_carry, 0x20)
        + bit_value(fl.carry, 0x10)) as u8
}

/// The flags that a byte unpacks into.
pub open spec fn flags_of_byte(byte: u8) -> FlagRegister {
    FlagRegister {
        zero: byte & 0x80 != 0,
        subtract: byte & 0x40 != 0,
        half_carry: byte & 0x20 != 0,
        carry: byte & 0x10 != 0,
    }
}

impl From<FlagRegister> for u8 {
    fn from(fl: FlagRegister) -> (r: u8) {
        let mut r: u8 = 0;
        if fl.zero {
            r = r + 0x80;
        }
        if fl.subtract {
            r = r + 0x40;
        }
        if fl.half_carry {
            r = r + 0x20;
        }
        if fl.carry {
            r = r + 0x10;
        }
        r
    }
}

impl vstd::std_specs::convert::FromSpecImpl<FlagRegister> for u8 {
    open spec fn obeys_from_spec() -> bool {
        true
    }

    open spec fn from_spec(fl: FlagRegister) -> u8 {
        flags_byte(fl)
    }
}

impl From<u8> for FlagRegister {
    fn from(byte: u8) -> (r: FlagRegister) {
        FlagRegister {
            zero: byte & 0x80 != 0,
            subtract: byte & 0x40 != 0,
            half_carry: byte & 0x20 != 0,
            carry: byte & 0x10 != 0,
        }
    }
}

impl vstd::std_specs::convert::FromSpecImpl<u8> for FlagRegister {
    open spec fn obeys_from_spec() -> bool {
        true
    }

    open spec fn from_spec(byte: u8) -> FlagRegister {
        flags_of_byte(byte)
    }
}

/// Packing flags into a byte and unpacking it again gives back the same flags,
/// and a packed byte never has a bit of its low nibble set.
pub proof fn lemma_flags_round_trip(fl: FlagRegister)
    ensures
        flags_of_byte(flags_byte(fl)) == fl,
        flags_byte(fl) & 0x0F == 0,
{
    let (z, n, h, c) = (fl.zero, fl.subtract, fl.half_carry, fl.carry);
    let b = flags_byte(fl);
    assert((b & 0x80 != 0 <==> z) && (b & 0x40 != 0 <==> n) && (b & 0x20 != 0 <==> h) && (b
        & 0x10 != 0 <==> c) && b & 0x0F == 0) by (bit_vector)
        requires
            b == (bit_value(z, 0x80) + bit_value(n, 0x40) + bit_value(h, 0x20) + bit_value(
                c,
                0x10,
            )) as u8,
    ;
}

/// Unpacking a byte and packing the flags again clears its low nibble and keeps
/// the rest.
pub proof fn lemma_byte_round_trip(byte: u8)
    ensures
        flags_byte(flags_of_byte(byte)) == byte & 0xF0,
{
    assert((bit_value(byte & 0x80 != 0, 0x80) + bit_value(byte & 0x40 != 0, 0x40) + bit_value(
        byte & 0x20 != 0,
        0x20,
    ) + bit_value(byte & 0x10 != 0, 0x10)) as u8 == byte & 0xF0) by (bit_vector);
}

/// Selects one of the four condition flags.
#[derive(Clone, Copy, Debug, PartialEq, Eq, Structural)]
pub enum cpu_flags {
    /// Carry, bit 4.
    C,
    /// Half-Carry, bit 5.
    H,
    /// Subtract, bit 6.
    N,
    /// Zero, bit 7.
    Z,
}

/// The value of one flag in a set of flags.
pub open spec fn flag_of(fl: FlagRegister, which: cpu_flags) -> bool {
    match which {
        cpu_flags::C => fl.carry,
        cpu_flags::H => fl.half_carry,
        cpu_flags::N => fl.subtract,
        cpu_flags::Z => fl.zero,
    }
}

/// A set of flags with one flag changed.
pub open spec fn with_flag(fl: FlagRegister, which: cpu_flags, set: bool) -> FlagRegister {
    match which {
        cpu_flags::C => FlagRegister { carry: set, ..fl },
        cpu_flags::H => FlagRegister { half_carry: set, ..fl },
        cpu_flags::N => FlagRegister { subtract: set, ..fl },
        cpu_flags::Z => FlagRegister { zero: set, ..fl },
    }
}

/// A 16-bit value made of a high and a low byte.
pub open spec fn pair(hi: u8, lo: u8) -> u16 {
    (hi as int * 256 + lo as int) as u16
}

/// The register file: seven 8-bit registers, the flags, the program counter
/// and the stack pointer.
///
/// The flags are held unpacked, so the F register's low nibble reads as zero
/// whatever is written to it: the hardware does not wire those bits.
#[derive(Clone, Copy, Debug, PartialEq, Eq, Structural)]
pub struct registers {
    pub a: u8,
    pub b: u8,
    pub c: u8,
    pub d: u8,
    pub e: u8,
    pub f: FlagRegister,
    pub h: u8,
    pub l: u8,
    pub pc: u16,
    pub sp: u16,
}

impl registers {
    /// The F register as a byte.
    pub open spec fn f_spec(&self) -> u8 {
        flags_byte(self.f)
    }

    pub open spec fn af_spec(&self) -> u16 {
        pair(self.a, self.f_spec())
    }

    pub open spec fn bc_spec(&self) -> u16 {
        pair(self.b, self.c)
    }

    pub open spec fn de_spec(&self) -> u16 {
        pair(self.d, self.e)
    }

    pub open spec fn hl_spec(&self) -> u16 {
        pair(self.h, self.l)
    }

    /// The register file as the boot ROM leaves it: A=0x01, F=0xB0, B=0x00,
    /// C=0x13, D=0x00, E=0xD8, H=0x01, L=0x4D, PC=0x0100, SP=0xFFFE.
    pub open spec fn new_spec() -> registers {
        registers {
            a: 0x01,
            b: 0x00,
            c: 0x13,
            d: 0x00,
            e: 0xD8,
            f: FlagRegister { zero: true, subtract: false, half_carry: true, carry: true },
            h: 0x01,
            l: 0x4D,
            pc: 0x0100,
            sp: 0xFFFE,
        }
    }

    pub fn new() -> (r: registers)
        ensures
            r == registers::new_spec(),
            r.a == 0x01 && r.f_spec() == 0xB0,
            r.b == 0x00 && r.c == 0x13,
            r.d == 0x00 && r.e == 0xD8,
            r.h == 0x01 && r.l == 0x4D,
            r.pc == 0x0100 && r.sp == 0xFFFE,
    {
        registers {
            a: 0x01,
            b: 0x00,
            c: 0x13,
            d: 0x00,
            e: 0xD8,
            f: FlagRegister { zero: true, subtract: false, half_carry: true, carry: true },
            h: 0x01,
            l: 0x4D,
            pc: 0x0100,
            sp: 0xFFFE,
        }
    }

    /// The F register as a byte; its low nibble is zero.
    pub fn f(&self) -> (r: u8)
        ensures
            r == self.f_spec(),
            r & 0x0F == 0,
    {
        proof {
            lemma_flags_round_trip(self.f);
        }
        u8::from(self.f)
    }

    pub fn af(&self) -> (r: u16)
        ensures
            r == self.af_spec(),
    {
        (self.a as u16) * 256 + (self.f() as u16)
    }

    pub fn bc(&self) -> (r: u16)
        ensures
            r == self.bc_spec(),
    {
        (self.b as u16) * 256 + (self.c as u16)
    }

    pub fn de(&self) -> (r: u16)
        ensures
            r == self.de_spec(),
    {
        (self.d as u16) * 256 + (self.e as u16)
    }

    pub fn hl(&self) -> (r: u16)
        ensures
            r == self.hl_spec(),
    {
        (self.h as u16) * 256 + (self.l as u16)
    }

    pub fn sp(&self) -> (r: u16)
        ensures
            r == self.sp,
    {
        self.sp
    }

    pub fn pc(&self) -> (r: u16)
        ensures
            r == self.pc,
    {
        self.pc
    }

    /// Reads HL, then decrements it (wrapping).
    pub fn hld(&mut self) -> (r: u16)
        ensures
            r == old(self).hl_spec(),
            final(self).hl_spec() == r.wrapping_sub(1),
            *final(self) == (registers { h: final(self).h, l: final(self).l, ..*old(self) }),
    {
        let res = self.hl();
        self.sethl(res.wrapping_sub(1));
        res
    }

    /// Reads HL, then increments it (wrapping).
    pub fn hli(&mut self) -> (r: u16)
        ensures
            r == old(self).hl_spec(),
            final(self).hl_spec() == r.wrapping_add(1),
            *final(self) == (registers { h: final(self).h, l: final(self).l, ..*old(self) }),
    {
        let res = self.hl();
        self.sethl(res.wrapping_add(1));
        res
    }

    /// Writes A and F; the low nibble of F is dropped.
    pub fn setaf(&mut self, value: u16)
        ensures
            final(self).a == value / 256,
            final(self).f == flags_of_byte((value % 256) as u8),
            *final(self) == (registers { a: final(self).a, f: final(self).f, ..*old(self) }),
    {
        self.a = (value / 256) as u8;
        self.f = FlagRegister::from((value % 256) as u8);
    }

    pub fn setbc(&mut self, value: u16)
        ensures
            final(self).b == value / 256,
            final(self).c == value % 256,
            *final(self) == (registers { b: final(self).b, c: final(self).c, ..*old(self) }),
    {
        self.b = (value / 256) as u8;
        self.c = (value % 256) as u8;
    }

    pub fn setde(&mut self, value: u16)
        ensures
            final(self).d == value / 256,
            final(self).e == value % 256,
            *final(self) == (registers { d: final(self).d, e: final(self).e, ..*old(self) }),
    {
        self.d = (value / 256) as u8;
        self.e = (value % 256) as u8;
    }

    pub fn sethl(&mut self, value: u16)
        ensures
            final(self).h == value / 256,
            final(self).l == value % 256,
            *final(self) == (registers { h: final(self).h, l: final(self).l, ..*old(self) }),
    {
        self.h = (value / 256) as u8;
        self.l = (value % 256) as u8;
    }

    /// Sets or clears one flag.
    pub fn flag(&mut self, flags: cpu_flags, set: bool)
        ensures
            *final(self) == (registers { f: with_flag(old(self).f, flags, set), ..*old(self) }),
            final(self).f == with_flag(old(self).f, flags, set),
    {
        match flags {
            cpu_flags::C => self.f.carry = set,
            cpu_flags::H => self.f.half_carry = set,
            cpu_flags::N => self.f.subtract = set,
            cpu_flags::Z => self.f.zero = set,
        }
    }

    pub fn getflag(&self, flags: cpu_flags) -> (r: bool)
        ensures
            r == flag_of(self.f, flags),
    {
        match flags {
            cpu_flags::C => self.f.carry,
            cpu_flags::H => self.f.half_carry,
            cpu_flags::N => self.f.subtract,
            cpu_flags::Z => self.f.zero,
        }
    }
}

/// Writing a register pair with what was read from it leaves the register file
/// as it was, and reading a pair after writing `v` gives `v` back; for AF the
/// value comes back with its low nibble cleared.
pub proof fn lemma_pair_round_trip(r: registers, v: u16)
    ensures
        (registers { b: (r.bc_spec() / 256) as u8, c: (r.bc_spec() % 256) as u8, ..r }) == r,
        (registers { d: (r.de_spec() / 256) as u8, e: (r.de_spec() % 256) as u8, ..r }) == r,
        (registers { h: (r.hl_spec() / 256) as u8, l: (r.hl_spec() % 256) as u8, ..r }) == r,
        (registers { b: (v / 256) as u8, c: (v % 256) as u8, ..r }).bc_spec() == v,
        (registers { d: (v / 256) as u8, e: (v % 256) as u8, ..r }).de_spec() == v,
        (registers { h: (v / 256) as u8, l: (v % 256) as u8, ..r }).hl_spec() == v,
        (registers { a: (v / 256) as u8, f: flags_of_byte((v % 256) as u8), ..r }).af_spec() == v
            & 0xFFF0,
{
    lemma_byte_round_trip((v % 256) as u8);
    let lo = (v % 256) as u8;
    assert(((v / 256) as u8) as int * 256 + (lo & 0xF0) as int == v & 0xFFF0) by (bit_vector)
        requires
            lo == (v % 256) as u8,
    ;
}

} // verus!
