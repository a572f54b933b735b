//! The instruction set: what each opcode family does to the processor, and
//! its execution.
use vstd::prelude::*;
use crate::alu::{
    add16_flags, add16_with_flags, add_sp_offset, alu_flags, alu_op, alu_result, daa_flags,
    daa_result, daa_with_flags, dec_flags, dec_with_flags, inc_flags, inc_with_flags, shift_flags,
    shift_op, shift_result, sp_offset_flags, sp_offset_result,
};
use crate::cpu::{CpuError, cpu, is_illegal_opcode, with_reg, wrap16};
use crate::mmu::Mmu;
use crate::register::{FlagRegister, flags_of_byte, registers};

verus! {

/// The register pair numbered `idx` by the opcode table: BC, DE, HL, SP.
pub open spec fn pair_value(r: registers, idx: u8) -> u16 {
    if idx == 0 {
        r.bc_spec()
    } else if idx == 1 {
        r.de_spec()
    } else if idx == 2 {
        r.hl_spec()
    } else {
        r.sp
    }
}

/// The register file with the pair numbered `idx` written.
pub open spec fn with_pair(r: registers, idx: u8, v: u16) -> registers {
    let hi = (v / 256) as u8;
    let lo = (v % 256) as u8;
    if idx == 0 {
        registers { b: hi, c: lo, ..r }
    } else if idx == 1 {
        registers { d: hi, e: lo, ..r }
    } else if idx == 2 {
        registers { h: hi, l: lo, ..r }
    } else {
        registers { sp: v, ..r }
    }
}

/// The register file with AF written; F keeps only its high nibble.
pub open spec fn with_af(r: registers, v: u16) -> registers {
    registers { a: (v / 256) as u8, f: flags_of_byte((v % 256) as u8), ..r }
}

/// Branch condition `cc`: Z clear, Z set, C clear, C set.
pub open spec fn condition_holds(r: registers, cc: u8) -> bool {
    if cc == 0 {
        !r.f.zero
    } else if cc == 1 {
        r.f.zero
    } else if cc == 2 {
        !r.f.carry
    } else {
        r.f.carry
    }
}

/// The target of a relative jump by the signed offset `e` from `pc`.
pub open spec fn relative_target(pc: u16, e: u8) -> u16 {
    wrap16(pc + (if e < 128 { e as int } else { e - 256 }) + 0x10000)
}

/// A push of `v` with the stack pointer at `sp`: its high byte written at
/// SP-1, then its low byte at SP-2.
pub open spec fn pushed(pre: Mmu, post: Mmu, sp: u16, v: u16) -> bool {
    exists|m: Mmu|
        #[trigger] pre.written(m, wrap16(sp + 0x10000 - 1), (v / 256) as u8) && m.written(
            post,
            wrap16(sp + 0x10000 - 2),
            (v % 256) as u8,
        )
}

impl cpu {
    /// The immediate byte after the opcode.
    pub open spec fn imm8(&self) -> u8 {
        self.byte_after_pc(1)
    }

    /// The little-endian immediate word after the opcode.
    pub open spec fn imm16(&self) -> u16 {
        (self.byte_after_pc(1) + 256 * self.byte_after_pc(2)) as u16
    }

    /// The word on top of the stack.
    pub open spec fn top_of_stack(&self) -> u16 {
        (self.mmu.read_spec(self.reg.sp) + 256 * self.mmu.read_spec(wrap16(self.reg.sp + 1))) as u16
    }

    pub open spec fn same_control(&self, other: &cpu) -> bool {
        &&& self.halted == other.halted
        &&& self.ime == other.ime
        &&& self.setdi == other.setdi
        &&& self.setei == other.setei
    }

    /// Register loads `0x40 | dst << 3 | src`, the halt opcode excepted.
    pub open spec fn load_done(self, post: cpu, r: u32) -> bool {
        let op = self.opcode_at_pc();
        let src = op % 8;
        let dst = (op / 8) % 8;
        &&& r == (if src == 6 || dst == 6 { 2u32 } else { 1u32 })
        &&& dst != 6 ==> post.reg == with_reg(self.reg_past(1), dst, self.operand(src)) && post.mmu
            == self.mmu
        &&& dst == 6 ==> post.reg == self.reg_past(1) && self.mmu.written(
            post.mmu,
            self.reg.hl_spec(),
            self.operand(src),
        )
    }

    /// Accumulator operations on an operand: `0x80 | kind << 3 | src`.
    pub open spec fn alu_done(self, post: cpu, r: u32) -> bool {
        let op = self.opcode_at_pc();
        let v = self.operand(op % 8);
        let kind = (op / 8) % 8;
        &&& r == (if op % 8 == 6 { 2u32 } else { 1u32 })
        &&& post.mmu == self.mmu
        &&& post.reg == (registers {
            a: alu_result(kind, self.reg.a, v, self.reg.f.carry),
            f: alu_flags(kind, self.reg.a, v, self.reg.f.carry),
            ..self.reg_past(1)
        })
    }

    /// A relative jump, taken or not; the offset byte is skipped either way.
    pub open spec fn relative_jump_done(self, post: cpu, r: u32, taken: bool) -> bool {
        &&& post.mmu == self.mmu
        &&& r == (if taken { 3u32 } else { 2u32 })
        &&& post.reg == (if taken {
            registers { pc: relative_target(wrap16(self.reg.pc + 2), self.imm8()), ..self.reg }
        } else {
            self.reg_past(2)
        })
    }

    /// Increment or decrement of an 8-bit operand: `0x04 | idx << 3` and
    /// `0x05 | idx << 3`.
    pub open spec fn inc_dec_done(self, post: cpu, r: u32) -> bool {
        let op = self.opcode_at_pc();
        let idx = op / 8;
        let v = self.operand(idx);
        let res = if op % 8 == 4 { ((v + 1) % 256) as u8 } else { ((v + 255) % 256) as u8 };
        let fl = if op % 8 == 4 { inc_flags(v, self.reg.f) } else { dec_flags(v, self.reg.f) };
        &&& r == (if idx == 6 { 3u32 } else { 1u32 })
        &&& idx != 6 ==> post.reg == (registers { f: fl, ..with_reg(self.reg_past(1), idx, res) })
            && post.mmu == self.mmu
        &&& idx == 6 ==> post.reg == (registers { f: fl, ..self.reg_past(1) }) && self.mmu.written(
            post.mmu,
            self.reg.hl_spec(),
            res,
        )
    }

    /// Load of an immediate byte into an operand: `0x06 | idx << 3`.
    pub open spec fn load_imm_done(self, post: cpu, r: u32) -> bool {
        let idx = self.opcode_at_pc() / 8;
        &&& r == (if idx == 6 { 3u32 } else { 2u32 })
        &&& idx != 6 ==> post.reg == with_reg(self.reg_past(2), idx, self.imm8()) && post.mmu
            == self.mmu
        &&& idx == 6 ==> post.reg == self.reg_past(2) && self.mmu.written(
            post.mmu,
            self.reg.hl_spec(),
            self.imm8(),
        )
    }

    /// Loads between A and memory addressed by BC, DE, HL then incremented, or
    /// HL then decremented: `0x02 | rr << 4` stores, `0x0A | rr << 4` loads.
    pub open spec fn indirect_done(self, post: cpu, r: u32) -> bool {
        let op = self.opcode_at_pc();
        let rr = op / 16;
        let hl = self.reg.hl_spec();
        let addr = if rr == 0 {
            self.reg.bc_spec()
        } else if rr == 1 {
            self.reg.de_spec()
        } else {
            hl
        };
        let regs = if rr == 2 {
            with_pair(self.reg_past(1), 2, wrap16(hl + 1))
        } else if rr == 3 {
            with_pair(self.reg_past(1), 2, wrap16(hl + 0xFFFF))
        } else {
            self.reg_past(1)
        };
        &&& r == 2
        &&& (op / 8) % 2 == 0 ==> post.reg == regs && self.mmu.written(post.mmu, addr, self.reg.a)
        &&& (op / 8) % 2 == 1 ==> post.reg == (registers { a: self.mmu.read_spec(addr), ..regs })
            && post.mmu == self.mmu
    }

    /// The remaining opcodes below 0x40 that touch only registers: 16-bit
    /// immediate loads, 16-bit increments and decrements, additions into HL,
    /// the accumulator rotates, decimal adjust, complement and the carry
    /// instructions.
    pub open spec fn register_op_done(self, post: cpu, r: u32) -> bool {
        let op = self.opcode_at_pc();
        let x = op % 8;
        let y = op / 8;
        let rr = y / 2;
        let a = self.reg.a;
        let fl = self.reg.f;
        &&& post.mmu == self.mmu
        &&& x == 1 && y % 2 == 0 ==> r == 3 && post.reg == with_pair(self.reg_past(3), rr, self.imm16())
        &&& x == 1 && y % 2 == 1 ==> r == 2 && post.reg == (registers {
            f: add16_flags(self.reg.hl_spec(), pair_value(self.reg, rr), fl),
            ..with_pair(self.reg_past(1), 2, wrap16(self.reg.hl_spec() + pair_value(self.reg, rr)))
        })
        &&& x == 3 ==> r == 2 && post.reg == with_pair(
            self.reg_past(1),
            rr,
            wrap16(pair_value(self.reg, rr) + if y % 2 == 0 { 1int } else { 0xFFFFint }),
        )
        &&& x == 7 && y < 4 ==> r == 1 && post.reg == (registers {
            a: shift_result(y, a, fl.carry),
            f: FlagRegister { zero: false, ..shift_flags(y, a, fl.carry) },
            ..self.reg_past(1)
        })
        &&& op == 0x27 ==> r == 1 && post.reg == (registers {
            a: daa_result(a, fl),
            f: daa_flags(a, fl),
            ..self.reg_past(1)
        })
        &&& op == 0x2F ==> r == 1 && post.reg == (registers {
            a: !a,
            f: FlagRegister { subtract: true, half_carry: true, ..fl },
            ..self.reg_past(1)
        })
        &&& op == 0x37 ==> r == 1 && post.reg == (registers {
            f: FlagRegister { subtract: false, half_carry: false, carry: true, ..fl },
            ..self.reg_past(1)
        })
        &&& op == 0x3F ==> r == 1 && post.reg == (registers {
            f: FlagRegister { subtract: false, half_carry: false, carry: !fl.carry, ..fl },
            ..self.reg_past(1)
        })
    }

    /// Opcodes 0x00–0x3F.
    pub open spec fn block0_done(self, post: cpu, r: u32) -> bool {
        let op = self.opcode_at_pc();
        let x = op % 8;
        let y = op / 8;
        if op == 0x00 {
            r == 1 && post.reg == self.reg_past(1) && post.mmu == self.mmu
        } else if op == 0x08 {
            let nn = self.imm16();
            &&& r == 5 && post.reg == self.reg_past(3)
            &&& exists|m: Mmu|
                #[trigger] self.mmu.written(m, nn, (self.reg.sp % 256) as u8) && m.written(
                    post.mmu,
                    wrap16(nn + 1),
                    (self.reg.sp / 256) as u8,
                )
        } else if op == 0x10 {
            r == 1 && post.reg == self.reg_past(2) && post.mmu == self.mmu
        } else if op == 0x18 {
            self.relative_jump_done(post, r, true)
        } else if x == 0 {
            self.relative_jump_done(post, r, condition_holds(self.reg, (y - 4) as u8))
        } else if x == 2 {
            self.indirect_done(post, r)
        } else if x == 4 || x == 5 {
            self.inc_dec_done(post, r)
        } else if x == 6 {
            self.load_imm_done(post, r)
        } else {
            self.register_op_done(post, r)
        }
    }

    /// Returns, taken or not: the program counter popped.
    pub open spec fn return_done(self, post: cpu, r: u32, taken: bool, cycles: u32) -> bool {
        &&& post.mmu == self.mmu
        &&& r == (if taken { cycles } else { 2u32 })
        &&& post.reg == (if taken {
            registers { pc: self.top_of_stack(), sp: wrap16(self.reg.sp + 2), ..self.reg }
        } else {
            self.reg_past(1)
        })
    }

    /// Calls to `target` (restarts included), taken or not: the address of the
    /// next instruction pushed, then a jump.
    pub open spec fn call_done(self, post: cpu, r: u32, taken: bool, len: int, target: u16, cycles: u32) -> bool {
        &&& r == (if taken { cycles } else { 3u32 })
        &&& taken ==> post.reg == (registers {
            pc: target,
            sp: wrap16(self.reg.sp + 0x10000 - 2),
            ..self.reg
        }) && pushed(self.mmu, post.mmu, self.reg.sp, wrap16(self.reg.pc + len))
        &&& !taken ==> post.reg == self.reg_past(len) && post.mmu == self.mmu
    }

    /// Loads and stores of A at a high-page or absolute address.
    pub open spec fn memory_a_done(self, post: cpu, r: u32) -> bool {
        let op = self.opcode_at_pc();
        let (addr, len) = if op == 0xE0 || op == 0xF0 {
            ((0xFF00 + self.imm8()) as u16, 2int)
        } else if op == 0xE2 || op == 0xF2 {
            ((0xFF00 + self.reg.c) as u16, 1int)
        } else {
            (self.imm16(), 3int)
        };
        &&& r == (if len == 1 { 2u32 } else if len == 2 { 3u32 } else { 4u32 })
        &&& op < 0xF0 ==> post.reg == self.reg_past(len) && self.mmu.written(post.mmu, addr, self.reg.a)
        &&& op >= 0xF0 ==> post.reg == (registers { a: self.mmu.read_spec(addr), ..self.reg_past(len) })
            && post.mmu == self.mmu
    }

    /// The extended table behind the 0xCB prefix: rotates and shifts, bit
    /// tests, resets and sets on an 8-bit operand.
    pub open spec fn extended_done(self, post: cpu, r: u32) -> bool {
        let cb = self.imm8();
        let idx = cb % 8;
        let n = (cb / 8) % 8;
        let group = cb / 64;
        let v = self.operand(idx);
        let fl = self.reg.f;
        let res = if group == 0 {
            shift_result(n, v, fl.carry)
        } else if group == 2 {
            v & !(1u8 << n)
        } else {
            v | (1u8 << n)
        };
        let new_f = if group == 0 {
            shift_flags(n, v, fl.carry)
        } else if group == 1 {
            FlagRegister { zero: (v >> n) & 1 == 0, subtract: false, half_carry: true, ..fl }
        } else {
            fl
        };
        &&& r == (if idx != 6 { 2u32 } else if group == 1 { 3u32 } else { 4u32 })
        &&& group == 1 ==> post.reg == (registers { f: new_f, ..self.reg_past(2) }) && post.mmu
            == self.mmu
        &&& group != 1 && idx != 6 ==> post.reg == (registers {
            f: new_f,
            ..with_reg(self.reg_past(2), idx, res)
        }) && post.mmu == self.mmu
        &&& group != 1 && idx == 6 ==> post.reg == (registers { f: new_f, ..self.reg_past(2) })
            && self.mmu.written(post.mmu, self.reg.hl_spec(), res)
    }

    /// Opcodes 0xC0–0xFF, the undefined ones and the interrupt switches
    /// excepted.
    pub open spec fn block3_done(self, post: cpu, r: u32) -> bool {
        let op = self.opcode_at_pc();
        let x = op % 8;
        let y = (op / 8) % 8;
        let rr = y / 2;
        let sp = self.reg.sp;
        if op == 0xC9 || op == 0xD9 {
            self.return_done(post, r, true, 4)
        } else if op == 0xC3 {
            r == 4 && post.reg == (registers { pc: self.imm16(), ..self.reg }) && post.mmu == self.mmu
        } else if op == 0xCD {
            self.call_done(post, r, true, 3, self.imm16(), 6)
        } else if op == 0xCB {
            self.extended_done(post, r)
        } else if op == 0xE0 || op == 0xF0 || op == 0xE2 || op == 0xF2 || op == 0xEA || op == 0xFA {
            self.memory_a_done(post, r)
        } else if op == 0xE8 {
            r == 4 && post.mmu == self.mmu && post.reg == (registers {
                sp: sp_offset_result(sp, self.imm8()),
                f: sp_offset_flags(sp, self.imm8()),
                ..self.reg_past(2)
            })
        } else if op == 0xF8 {
            r == 3 && post.mmu == self.mmu && post.reg == (registers {
                f: sp_offset_flags(sp, self.imm8()),
                ..with_pair(self.reg_past(2), 2, sp_offset_result(sp, self.imm8()))
            })
        } else if op == 0xE9 {
            r == 1 && post.mmu == self.mmu && post.reg == (registers { pc: self.reg.hl_spec(), ..self.reg })
        } else if op == 0xF9 {
            r == 2 && post.mmu == self.mmu && post.reg == (registers { sp: self.reg.hl_spec(), ..self.reg_past(1) })
        } else if op == 0xF3 || op == 0xFB {
            r == 1 && post.mmu == self.mmu && post.reg == self.reg_past(1)
        } else if x == 0 {
            self.return_done(post, r, condition_holds(self.reg, y), 5)
        } else if x == 1 {
            let popped = registers { sp: wrap16(sp + 2), ..self.reg_past(1) };
            &&& r == 3 && post.mmu == self.mmu
            &&& post.reg == (if rr == 3 {
                with_af(popped, self.top_of_stack())
            } else {
                with_pair(popped, rr, self.top_of_stack())
            })
        } else if x == 2 {
            let taken = condition_holds(self.reg, y);
            &&& post.mmu == self.mmu
            &&& r == (if taken { 4u32 } else { 3u32 })
            &&& post.reg == (if taken {
                registers { pc: self.imm16(), ..self.reg }
            } else {
                self.reg_past(3)
            })
        } else if x == 4 {
            self.call_done(post, r, condition_holds(self.reg, y), 3, self.imm16(), 6)
        } else if x == 5 {
            let v = if rr == 3 { self.reg.af_spec() } else { pair_value(self.reg, rr) };
            &&& r == 4
            &&& post.reg == (registers { sp: wrap16(sp + 0x10000 - 2), ..self.reg_past(1) })
            &&& pushed(self.mmu, post.mmu, sp, v)
        } else if x == 6 {
            r == 2 && post.mmu == self.mmu && post.reg == (registers {
                a: alu_result(y, self.reg.a, self.imm8(), self.reg.f.carry),
                f: alu_flags(y, self.reg.a, self.imm8(), self.reg.f.carry),
                ..self.reg_past(2)
            })
        } else {
            self.call_done(post, r, true, 1, (y * 8) as u16, 4)
        }
    }

    /// What executing the instruction at the program counter does. Only halt,
    /// the interrupt switches and the interrupt return touch the halt and
    /// interrupt state; an undefined opcode fails, having moved the program
    /// counter past it and changed nothing else.
    pub open spec fn executed(self, post: cpu, r: Result<u32, CpuError>) -> bool {
        let op = self.opcode_at_pc();
        &&& post.wf()
        &&& op != 0x76 && op != 0xF3 && op != 0xFB && op != 0xD9 ==> post.same_control(&self)
        &&& op == 0x76 ==> post.halted && post.ime == self.ime && post.setdi == self.setdi
            && post.setei == self.setei
        &&& op == 0xF3 ==> post.setdi == 2 && post.halted == self.halted && post.ime == self.ime
            && post.setei == self.setei
        &&& op == 0xFB ==> post.setei == 2 && post.halted == self.halted && post.ime == self.ime
            && post.setdi == self.setdi
        &&& op == 0xD9 ==> post.ime && post.halted == self.halted && post.setdi == self.setdi
            && post.setei == self.setei
        &&& if is_illegal_opcode(op) {
            &&& r == Err::<u32, CpuError>(CpuError::UnimplementedOpcode(op))
            &&& post.reg == self.reg_past(1) && post.mmu == self.mmu
        } else {
            match r {
                Ok(c) => if op < 0x40 {
                    self.block0_done(post, c)
                } else if op == 0x76 {
                    c == 1 && post.reg == self.reg_past(1) && post.mmu == self.mmu
                } else if op < 0x80 {
                    self.load_done(post, c)
                } else if op < 0xC0 {
                    self.alu_done(post, c)
                } else {
                    self.block3_done(post, c)
                },
                Err(_) => false,
            }
        }
    }
}

impl cpu {
    /// Reads the byte at the program counter and advances it.
    pub(crate) fn fetch_next(&mut self) -> (r: u8)
        requires
            old(self).wf(),
        ensures
            r == old(self).opcode_at_pc(),
            *final(self) == (cpu { reg: old(self).reg_past(1), ..*old(self) }),
    {
        let b = self.mmu.bus_read(self.reg.pc);
        self.reg.pc = self.reg.pc.wrapping_add(1);
        b
    }

    /// Reads a little-endian word at the program counter and advances past it.
    fn fetch_word(&mut self) -> (r: u16)
        requires
            old(self).wf(),
        ensures
            r == old(self).byte_after_pc(0) + 256 * old(self).byte_after_pc(1),
            *final(self) == (cpu { reg: old(self).reg_past(2), ..*old(self) }),
    {
        let lo = self.fetch_next();
        let hi = self.fetch_next();
        (hi as u16) * 256 + lo as u16
    }

    /// Reads the 8-bit operand numbered `idx`.
    fn read_r8(&self, idx: u8) -> (r: u8)
        requires
            self.wf(),
            idx < 8,
        ensures
            r == self.operand(idx),
    {
        match idx {
            0 => self.reg.b,
            1 => self.reg.c,
            2 => self.reg.d,
            3 => self.reg.e,
            4 => self.reg.h,
            5 => self.reg.l,
            6 => self.mmu.bus_read(self.reg.hl()),
            _ => self.reg.a,
        }
    }

    /// Writes the 8-bit operand numbered `idx`: a register, or memory at HL.
    fn write_r8(&mut self, idx: u8, v: u8)
        requires
            old(self).wf(),
            idx < 8,
        ensures
            final(self).wf(),
            final(self).reg == with_reg(old(self).reg, idx, v),
            idx != 6 ==> final(self).mmu == old(self).mmu,
            idx == 6 ==> old(self).mmu.written(final(self).mmu, old(self).reg.hl_spec(), v),
            final(self).same_control(old(self)),
    {
        match idx {
            0 => self.reg.b = v,
            1 => self.reg.c = v,
            2 => self.reg.d = v,
            3 => self.reg.e = v,
            4 => self.reg.h = v,
            5 => self.reg.l = v,
            6 => {
                let hl = self.reg.hl();
                self.mmu.bus_write(hl, v);
            },
            _ => self.reg.a = v,
        }
    }

    fn read_rr(&self, idx: u8) -> (r: u16)
        requires
            idx < 4,
        ensures
            r == pair_value(self.reg, idx),
    {
        match idx {
            0 => self.reg.bc(),
            1 => self.reg.de(),
            2 => self.reg.hl(),
            _ => self.reg.sp,
        }
    }

    fn write_rr(&mut self, idx: u8, v: u16)
        requires
            idx < 4,
        ensures
            *final(self) == (cpu { reg: with_pair(old(self).reg, idx, v), ..*old(self) }),
    {
        match idx {
            0 => self.reg.setbc(v),
            1 => self.reg.setde(v),
            2 => self.reg.sethl(v),
            _ => self.reg.sp = v,
        }
    }

    /// Pushes a word: high byte at SP-1, low byte at SP-2, SP lowered by 2.
    pub(crate) fn push_stack(&mut self, v: u16)
        requires
            old(self).wf(),
        ensures
            final(self).wf(),
            final(self).reg == (registers {
                sp: wrap16(old(self).reg.sp + 0x10000 - 2),
                ..old(self).reg
            }),
            pushed(old(self).mmu, final(self).mmu, old(self).reg.sp, v),
            final(self).same_control(old(self)),
    {
        self.reg.sp = self.reg.sp.wrapping_sub(1);
        self.mmu.bus_write(self.reg.sp, (v / 256) as u8);
        let ghost m1 = self.mmu;
        self.reg.sp = self.reg.sp.wrapping_sub(1);
        self.mmu.bus_write(self.reg.sp, (v % 256) as u8);
        assert(old(self).mmu.written(m1, wrap16(old(self).reg.sp + 0x10000 - 1), (v / 256) as u8));
    }

    /// Pops a word: low byte at SP, high byte at SP+1, SP raised by 2.
    fn pop_stack(&mut self) -> (r: u16)
        requires
            old(self).wf(),
        ensures
            r == old(self).top_of_stack(),
            *final(self) == (cpu {
                reg: registers { sp: wrap16(old(self).reg.sp + 2), ..old(self).reg },
                ..*old(self)
            }),
    {
        let lo = self.mmu.bus_read(self.reg.sp);
        self.reg.sp = self.reg.sp.wrapping_add(1);
        let hi = self.mmu.bus_read(self.reg.sp);
        self.reg.sp = self.reg.sp.wrapping_add(1);
        (hi as u16) * 256 + lo as u16
    }

    fn condition(&self, cc: u8) -> (r: bool)
        requires
            cc < 4,
        ensures
            r == condition_holds(self.reg, cc),
    {
        match cc {
            0 => !self.reg.f.zero,
            1 => self.reg.f.zero,
            2 => !self.reg.f.carry,
            _ => self.reg.f.carry,
        }
    }

    fn load_cmd(&mut self, op: u8) -> (r: u32)
        requires
            old(self).wf(),
            op == old(self).opcode_at_pc(),
            0x40 <= op < 0x80,
            op != 0x76,
        ensures
            final(self).wf(),
            final(self).same_control(old(self)),
            old(self).load_done(*final(self), r),
    {
        let src = op % 8;
        let dst = (op / 8) % 8;
        let v = self.read_r8(src);
        self.fetch_next();
        self.write_r8(dst, v);
        if src == 6 || dst == 6 {
            2
        } else {
            1
        }
    }

    fn alu_cmd(&mut self, op: u8) -> (r: u32)
        requires
            old(self).wf(),
            op == old(self).opcode_at_pc(),
            0x80 <= op < 0xC0,
        ensures
            final(self).wf(),
            final(self).same_control(old(self)),
            old(self).alu_done(*final(self), r),
    {
        let v = self.read_r8(op % 8);
        self.fetch_next();
        let (res, fl) = alu_op((op / 8) % 8, self.reg.a, v, self.reg.f.carry);
        self.reg.a = res;
        self.reg.f = fl;
        if op % 8 == 6 {
            2
        } else {
            1
        }
    }

    /// A relative jump at the program counter, taken when `taken` holds.
    fn jump_cmd(&mut self, taken: bool) -> (r: u32)
        requires
            old(self).wf(),
        ensures
            final(self).wf(),
            final(self).same_control(old(self)),
            old(self).relative_jump_done(*final(self), r, taken),
    {
        self.fetch_next();
        let e = self.fetch_next();
        if taken {
            let pc = self.reg.pc as u32;
            let target: u32 = if e < 128 {
                (pc + e as u32) % 0x10000
            } else {
                (pc + 0x10000 - (256 - e as u32)) % 0x10000
            };
            self.reg.pc = target as u16;
            3
        } else {
            2
        }
    }

    fn inc_dec_cmd(&mut self, op: u8) -> (r: u32)
        requires
            old(self).wf(),
            op == old(self).opcode_at_pc(),
            op < 0x40,
            op % 8 == 4 || op % 8 == 5,
        ensures
            final(self).wf(),
            final(self).same_control(old(self)),
            old(self).inc_dec_done(*final(self), r),
    {
        let idx = op / 8;
        let v = self.read_r8(idx);
        self.fetch_next();
        let (res, fl) = if op % 8 == 4 {
            inc_with_flags(v, self.reg.f)
        } else {
            dec_with_flags(v, self.reg.f)
        };
        self.write_r8(idx, res);
        self.reg.f = fl;
        if idx == 6 {
            3
        } else {
            1
        }
    }

    fn load_imm_cmd(&mut self, op: u8) -> (r: u32)
        requires
            old(self).wf(),
            op == old(self).opcode_at_pc(),
            op < 0x40,
            op % 8 == 6,
        ensures
            final(self).wf(),
            final(self).same_control(old(self)),
            old(self).load_imm_done(*final(self), r),
    {
        self.fetch_next();
        let v = self.fetch_next();
        self.write_r8(op / 8, v);
        if op / 8 == 6 {
            3
        } else {
            2
        }
    }

    fn indirect_cmd(&mut self, op: u8) -> (r: u32)
        requires
            old(self).wf(),
            op == old(self).opcode_at_pc(),
            op < 0x40,
            op % 8 == 2,
        ensures
            final(self).wf(),
            final(self).same_control(old(self)),
            old(self).indirect_done(*final(self), r),
    {
        self.fetch_next();
        let rr = op / 16;
        let addr = if rr == 0 {
            self.reg.bc()
        } else if rr == 1 {
            self.reg.de()
        } else if rr == 2 {
            self.reg.hli()
        } else {
            self.reg.hld()
        };
        if (op / 8) % 2 == 0 {
            let a = self.reg.a;
            self.mmu.bus_write(addr, a);
        } else {
            self.reg.a = self.mmu.bus_read(addr);
        }
        2
    }

    /// 16-bit immediate loads and additions into HL: `0x01 | y << 3`.
    fn pair_load_add_cmd(&mut self, op: u8) -> (r: u32)
        requires
            old(self).wf(),
            op == old(self).opcode_at_pc(),
            op < 0x40,
            op % 8 == 1,
        ensures
            final(self).wf(),
            final(self).same_control(old(self)),
            old(self).register_op_done(*final(self), r),
    {
        self.fetch_next();
        let rr = op / 16;
        if (op / 8) % 2 == 0 {
            let v = self.fetch_word();
            self.write_rr(rr, v);
            3
        } else {
            let hl = self.reg.hl();
            let v = self.read_rr(rr);
            let (res, fl) = add16_with_flags(hl, v, self.reg.f);
            self.reg.sethl(res);
            self.reg.f = fl;
            2
        }
    }

    /// 16-bit increments and decrements: `0x03 | y << 3`.
    fn pair_inc_dec_cmd(&mut self, op: u8) -> (r: u32)
        requires
            old(self).wf(),
            op == old(self).opcode_at_pc(),
            op < 0x40,
            op % 8 == 3,
        ensures
            final(self).wf(),
            final(self).same_control(old(self)),
            old(self).register_op_done(*final(self), r),
    {
        self.fetch_next();
        let rr = op / 16;
        let v = self.read_rr(rr);
        let nv = if (op / 8) % 2 == 0 {
            v.wrapping_add(1)
        } else {
            v.wrapping_sub(1)
        };
        self.write_rr(rr, nv);
        2
    }

    /// Accumulator rotates, decimal adjust, complement and the carry
    /// instructions: `0x07 | y << 3`.
    fn accumulator_cmd(&mut self, op: u8) -> (r: u32)
        requires
            old(self).wf(),
            op == old(self).opcode_at_pc(),
            op < 0x40,
            op % 8 == 7,
        ensures
            final(self).wf(),
            final(self).same_control(old(self)),
            old(self).register_op_done(*final(self), r),
    {
        self.fetch_next();
        let y = op / 8;
        if y < 4 {
            // Like the extended-table rotates, but Zero is always cleared.
            let (res, fl) = shift_op(y, self.reg.a, self.reg.f.carry);
            self.reg.a = res;
            self.reg.f = FlagRegister { zero: false, ..fl };
        } else if y == 4 {
            let (res, fl) = daa_with_flags(self.reg.a, self.reg.f);
            self.reg.a = res;
            self.reg.f = fl;
        } else if y == 5 {
            self.reg.a = !self.reg.a;
            self.reg.f = FlagRegister { subtract: true, half_carry: true, ..self.reg.f };
        } else if y == 6 {
            self.reg.f = FlagRegister { subtract: false, half_carry: false, carry: true, ..self.reg.f };
        } else {
            self.reg.f = FlagRegister {
                subtract: false,
                half_carry: false,
                carry: !self.reg.f.carry,
                ..self.reg.f
            };
        }
        1
    }

    /// Stores the stack pointer at an immediate address, low byte first.
    fn store_sp_cmd(&mut self) -> (r: u32)
        requires
            old(self).wf(),
            old(self).opcode_at_pc() == 0x08,
        ensures
            final(self).wf(),
            final(self).same_control(old(self)),
            old(self).block0_done(*final(self), r),
    {
        self.fetch_next();
        let addr = self.fetch_word();
        assert(addr == old(self).imm16());
        let sp = self.reg.sp;
        self.mmu.bus_write(addr, (sp % 256) as u8);
        let ghost m = self.mmu;
        self.mmu.bus_write(addr.wrapping_add(1), (sp / 256) as u8);
        assert(old(self).mmu.written(m, addr, (sp % 256) as u8));
        assert(m.written(self.mmu, wrap16(addr + 1), (sp / 256) as u8));
        5
    }

    /// Opcodes 0x00–0x3F.
    fn exec_block0(&mut self, op: u8) -> (r: u32)
        requires
            old(self).wf(),
            op == old(self).opcode_at_pc(),
            op < 0x40,
        ensures
            final(self).wf(),
            final(self).same_control(old(self)),
            old(self).block0_done(*final(self), r),
    {
        let x = op % 8;
        let y = op / 8;
        if op == 0x00 {
            self.fetch_next();
            1
        } else if op == 0x08 {
            self.store_sp_cmd()
        } else if op == 0x10 {
            // Low-power stop: its second byte is skipped.
            self.fetch_next();
            self.fetch_next();
            1
        } else if op == 0x18 {
            self.jump_cmd(true)
        } else if x == 0 {
            let taken = self.condition(y - 4);
            self.jump_cmd(taken)
        } else if x == 2 {
            self.indirect_cmd(op)
        } else if x == 4 || x == 5 {
            self.inc_dec_cmd(op)
        } else if x == 6 {
            self.load_imm_cmd(op)
        } else if x == 1 {
            self.pair_load_add_cmd(op)
        } else if x == 3 {
            self.pair_inc_dec_cmd(op)
        } else {
            self.accumulator_cmd(op)
        }
    }
}

impl cpu {
    /// Returns, taken when `taken` holds.
    fn ret_cmd(&mut self, taken: bool, cycles: u32) -> (r: u32)
        requires
            old(self).wf(),
        ensures
            final(self).wf(),
            final(self).same_control(old(self)),
            old(self).return_done(*final(self), r, taken, cycles),
    {
        if taken {
            self.reg.pc = self.pop_stack();
            cycles
        } else {
            self.fetch_next();
            2
        }
    }

    /// Calls: an immediate target when `len` is 3, a restart vector when 1.
    fn call_cmd(&mut self, taken: bool, len: u16, vector: u16, cycles: u32) -> (r: u32)
        requires
            old(self).wf(),
            len == 1 || len == 3,
        ensures
            final(self).wf(),
            final(self).same_control(old(self)),
            old(self).call_done(
                *final(self),
                r,
                taken,
                len as int,
                if len == 3 { old(self).imm16() } else { vector },
                cycles,
            ),
    {
        self.fetch_next();
        let target = if len == 3 {
            self.fetch_word()
        } else {
            vector
        };
        if taken {
            let pc = self.reg.pc;
            self.push_stack(pc);
            self.reg.pc = target;
            cycles
        } else {
            3
        }
    }

    /// Loads and stores of A at a high-page or absolute address.
    fn memory_a_cmd(&mut self, op: u8) -> (r: u32)
        requires
            old(self).wf(),
            op == old(self).opcode_at_pc(),
            op == 0xE0 || op == 0xF0 || op == 0xE2 || op == 0xF2 || op == 0xEA || op == 0xFA,
        ensures
            final(self).wf(),
            final(self).same_control(old(self)),
            old(self).memory_a_done(*final(self), r),
    {
        self.fetch_next();
        let (addr, r): (u16, u32) = if op == 0xE0 || op == 0xF0 {
            let n = self.fetch_next();
            (0xFF00 + n as u16, 3)
        } else if op == 0xE2 || op == 0xF2 {
            (0xFF00 + self.reg.c as u16, 2)
        } else {
            (self.fetch_word(), 4)
        };
        if op < 0xF0 {
            let a = self.reg.a;
            self.mmu.bus_write(addr, a);
        } else {
            self.reg.a = self.mmu.bus_read(addr);
        }
        r
    }

    /// The extended table behind the 0xCB prefix.
    fn exec_cb(&mut self) -> (r: u32)
        requires
            old(self).wf(),
        ensures
            final(self).wf(),
            final(self).same_control(old(self)),
            old(self).extended_done(*final(self), r),
    {
        self.fetch_next();
        let op = self.fetch_next();
        let idx = op % 8;
        let n = (op / 8) % 8;
        let group = op / 64;
        let v = self.read_r8(idx);
        if group == 0 {
            let (res, fl) = shift_op(n, v, self.reg.f.carry);
            self.write_r8(idx, res);
            self.reg.f = fl;
        } else if group == 1 {
            self.reg.f = FlagRegister {
                zero: (v >> n) & 1 == 0,
                subtract: false,
                half_carry: true,
                ..self.reg.f
            };
        } else if group == 2 {
            self.write_r8(idx, v & !(1u8 << n));
        } else {
            self.write_r8(idx, v | (1u8 << n));
        }
        if idx != 6 {
            2
        } else if group == 1 {
            3
        } else {
            4
        }
    }

    /// Stack-pointer arithmetic and the jump to HL: 0xE8, 0xF8, 0xE9, 0xF9.
    fn sp_hl_cmd(&mut self, op: u8) -> (r: u32)
        requires
            old(self).wf(),
            op == old(self).opcode_at_pc(),
            op == 0xE8 || op == 0xF8 || op == 0xE9 || op == 0xF9,
        ensures
            final(self).wf(),
            final(self).same_control(old(self)),
            old(self).block3_done(*final(self), r),
    {
        if op == 0xE9 {
            self.reg.pc = self.reg.hl();
            1
        } else if op == 0xF9 {
            self.fetch_next();
            self.reg.sp = self.reg.hl();
            2
        } else {
            self.fetch_next();
            let e = self.fetch_next();
            let (res, fl) = add_sp_offset(self.reg.sp, e);
            self.reg.f = fl;
            if op == 0xE8 {
                self.reg.sp = res;
                4
            } else {
                self.reg.sethl(res);
                3
            }
        }
    }

    /// Pops of BC, DE, HL and AF: `0xC1 | rr << 4`.
    fn pop_cmd(&mut self, op: u8) -> (r: u32)
        requires
            old(self).wf(),
            op == old(self).opcode_at_pc(),
            op >= 0xC0,
            op % 16 == 1,
        ensures
            final(self).wf(),
            final(self).same_control(old(self)),
            old(self).block3_done(*final(self), r),
    {
        let rr = (op / 16) % 4;
        self.fetch_next();
        let v = self.pop_stack();
        if rr == 3 {
            self.reg.setaf(v);
        } else {
            self.write_rr(rr, v);
        }
        3
    }

    /// Pushes of BC, DE, HL and AF: `0xC5 | rr << 4`.
    fn push_cmd(&mut self, op: u8) -> (r: u32)
        requires
            old(self).wf(),
            op == old(self).opcode_at_pc(),
            op >= 0xC0,
            op % 16 == 5,
        ensures
            final(self).wf(),
            final(self).same_control(old(self)),
            old(self).block3_done(*final(self), r),
    {
        let rr = (op / 16) % 4;
        let v = if rr == 3 {
            self.reg.af()
        } else {
            self.read_rr(rr)
        };
        self.fetch_next();
        self.push_stack(v);
        4
    }

    /// Absolute jumps, conditional or not: 0xC3 and `0xC2 | cc << 3`.
    fn jp_cmd(&mut self, op: u8) -> (r: u32)
        requires
            old(self).wf(),
            op == old(self).opcode_at_pc(),
            op == 0xC3 || (op >= 0xC0 && op % 8 == 2 && op < 0xE0),
        ensures
            final(self).wf(),
            final(self).same_control(old(self)),
            old(self).block3_done(*final(self), r),
    {
        let taken = op == 0xC3 || self.condition((op / 8) % 4);
        self.fetch_next();
        let target = self.fetch_word();
        if taken {
            self.reg.pc = target;
            4
        } else {
            3
        }
    }

    /// Accumulator operations on an immediate byte: `0xC6 | kind << 3`.
    fn alu_imm_cmd(&mut self, op: u8) -> (r: u32)
        requires
            old(self).wf(),
            op == old(self).opcode_at_pc(),
            op >= 0xC0,
            op % 8 == 6,
        ensures
            final(self).wf(),
            final(self).same_control(old(self)),
            old(self).block3_done(*final(self), r),
    {
        self.fetch_next();
        let n = self.fetch_next();
        let (res, fl) = alu_op((op / 8) % 8, self.reg.a, n, self.reg.f.carry);
        self.reg.a = res;
        self.reg.f = fl;
        2
    }

    /// Opcodes 0xC0–0xFF that are defined.
    fn exec_block3(&mut self, op: u8) -> (r: u32)
        requires
            old(self).wf(),
            op == old(self).opcode_at_pc(),
            op >= 0xC0,
            !is_illegal_opcode(op),
        ensures
            final(self).wf(),
            op == 0xF3 ==> final(self).setdi == 2 && final(self).halted == old(self).halted
                && final(self).ime == old(self).ime && final(self).setei == old(self).setei,
            op == 0xFB ==> final(self).setei == 2 && final(self).halted == old(self).halted
                && final(self).ime == old(self).ime && final(self).setdi == old(self).setdi,
            op == 0xD9 ==> final(self).ime && final(self).halted == old(self).halted
                && final(self).setdi == old(self).setdi && final(self).setei == old(self).setei,
            op != 0xD9 && op != 0xF3 && op != 0xFB ==> final(self).same_control(old(self)),
            old(self).block3_done(*final(self), r),
    {
        let x = op % 8;
        let y = (op / 8) % 8;
        if op == 0xC9 || op == 0xD9 {
            let r = self.ret_cmd(true, 4);
            if op == 0xD9 {
                self.ime = true;
            }
            r
        } else if op == 0xCD {
            self.call_cmd(true, 3, 0, 6)
        } else if op == 0xCB {
            self.exec_cb()
        } else if op == 0xE0 || op == 0xF0 || op == 0xE2 || op == 0xF2 || op == 0xEA || op == 0xFA {
            self.memory_a_cmd(op)
        } else if op == 0xE8 || op == 0xF8 || op == 0xE9 || op == 0xF9 {
            self.sp_hl_cmd(op)
        } else if op == 0xF3 {
            self.fetch_next();
            self.setdi = 2;
            1
        } else if op == 0xFB {
            self.fetch_next();
            self.setei = 2;
            1
        } else if x == 0 {
            let taken = self.condition(y);
            self.ret_cmd(taken, 5)
        } else if x == 1 {
            self.pop_cmd(op)
        } else if x == 2 || op == 0xC3 {
            self.jp_cmd(op)
        } else if x == 4 {
            let taken = self.condition(y);
            self.call_cmd(taken, 3, 0, 6)
        } else if x == 5 {
            self.push_cmd(op)
        } else if x == 6 {
            self.alu_imm_cmd(op)
        } else {
            self.call_cmd(true, 1, y as u16 * 8, 4)
        }
    }

    /// Executes the instruction at the program counter.
    pub(crate) fn call(&mut self) -> (r: Result<u32, CpuError>)
        requires
            old(self).wf(),
        ensures
            old(self).executed(*final(self), r),
            r matches Ok(c) ==> 1 <= c <= 6,
    {
        let op = self.mmu.bus_read(self.reg.pc);
        if is_illegal(op) {
            self.fetch_next();
            Err(CpuError::UnimplementedOpcode(op))
        } else if op < 0x40 {
            Ok(self.exec_block0(op))
        } else if op == 0x76 {
            self.fetch_next();
            self.halted = true;
            Ok(1)
        } else if op < 0x80 {
            Ok(self.load_cmd(op))
        } else if op < 0xC0 {
            Ok(self.alu_cmd(op))
        } else {
            Ok(self.exec_block3(op))
        }
    }
}

fn is_illegal(op: u8) -> (r: bool)
    ensures
        r == is_illegal_opcode(op),
{
    op == 0xD3 || op == 0xDB || op == 0xDD || op == 0xE3 || op == 0xE4 || op == 0xEB || op == 0xEC
        || op == 0xED || op == 0xF4 || op == 0xFC || op == 0xFD
}

} // verus!
