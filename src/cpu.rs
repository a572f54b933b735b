//! The fetch-decode-execute engine: one step at a time, with the interrupt
//! master enable's one-instruction latency, interrupt service and halt.
use vstd::prelude::*;
use crate::joypad::Joypad;
use crate::mbc::is_power_on_mbc;
use crate::mmu::{
    INTERRUPT_ENABLE_ADDR, INTERRUPT_FLAG_ADDR, JOYPAD_REGISTER_ADDR, Mmu, is_cleared_at_reset,
};
use crate::register::registers;
use crate::cpu::instructions::pushed;
use crate::rom::Rom;

pub mod instructions;

verus! {

/// Why a step could not run.
#[derive(Clone, Copy, Debug, PartialEq, Eq, Structural)]
pub enum CpuError {
    /// The byte at the program counter is no instruction of the processor.
    UnimplementedOpcode(u8),
}

/// The processor: registers, the bus it works through, and its interrupt and
/// halt state. `setdi` and `setei` count down the steps until a requested
/// disable or enable of interrupts takes effect.
pub struct cpu {
    pub reg: registers,
    pub mmu: Mmu,
    pub halted: bool,
    pub ime: bool,
    pub setdi: u32,
    pub setei: u32,
}

/// The opcodes that the processor does not define.
pub open spec fn is_illegal_opcode(op: u8) -> bool {
    ||| op == 0xD3
    ||| op == 0xDB
    ||| op == 0xDD
    ||| op == 0xE3
    ||| op == 0xE4
    ||| op == 0xEB
    ||| op == 0xEC
    ||| op == 0xED
    ||| op == 0xF4
    ||| op == 0xFC
    ||| op == 0xFD
}

/// A 16-bit value advanced by `n`, wrapping.
pub open spec fn wrap16(v: int) -> u16 {
    (v % 0x10000) as u16
}

/// The register file with one 8-bit register replaced, numbered as the opcode
/// table numbers them: B, C, D, E, H, L, (memory at HL), A. Number 6 names no
/// register and leaves the file as it is.
pub open spec fn with_reg(r: registers, idx: u8, v: u8) -> registers {
    if idx == 0 {
        registers { b: v, ..r }
    } else if idx == 1 {
        registers { c: v, ..r }
    } else if idx == 2 {
        registers { d: v, ..r }
    } else if idx == 3 {
        registers { e: v, ..r }
    } else if idx == 4 {
        registers { h: v, ..r }
    } else if idx == 5 {
        registers { l: v, ..r }
    } else if idx == 7 {
        registers { a: v, ..r }
    } else {
        r
    }
}

/// The lowest set bit of a non-zero interrupt mask: the interrupt served first.
pub open spec fn lowest_bit(p: u8) -> u8 {
    if p % 2 == 1 {
        0
    } else if (p / 2) % 2 == 1 {
        1
    } else if (p / 4) % 2 == 1 {
        2
    } else if (p / 8) % 2 == 1 {
        3
    } else {
        4
    }
}

pub open spec fn pow2(n: u8) -> u8 {
    if n == 0 {
        1
    } else if n == 1 {
        2
    } else if n == 2 {
        4
    } else if n == 3 {
        8
    } else {
        16
    }
}

impl cpu {
    pub open spec fn wf(&self) -> bool {
        self.mmu.wf()
    }

    /// The byte at the program counter.
    pub open spec fn opcode_at_pc(&self) -> u8 {
        self.mmu.read_spec(self.reg.pc)
    }

    /// The byte `k` places past the program counter.
    pub open spec fn byte_after_pc(&self, k: int) -> u8 {
        self.mmu.read_spec(wrap16(self.reg.pc + k))
    }

    /// The 8-bit operand numbered `idx`: B, C, D, E, H, L, memory at HL, A.
    pub open spec fn operand(&self, idx: u8) -> u8 {
        if idx == 0 {
            self.reg.b
        } else if idx == 1 {
            self.reg.c
        } else if idx == 2 {
            self.reg.d
        } else if idx == 3 {
            self.reg.e
        } else if idx == 4 {
            self.reg.h
        } else if idx == 5 {
            self.reg.l
        } else if idx == 6 {
            self.mmu.read_spec(self.reg.hl_spec())
        } else {
            self.reg.a
        }
    }

    /// The requested interrupts that are also enabled.
    pub open spec fn pending(&self) -> u8 {
        self.mmu.mem(INTERRUPT_ENABLE_ADDR as int) & self.mmu.mem(INTERRUPT_FLAG_ADDR as int)
            & 0x1F
    }

    /// The state once a step has counted down the requested enable or disable
    /// of interrupts: a request made by the previous step's instruction takes
    /// effect at the start of the step after this one.
    pub open spec fn after_countdown(self) -> cpu {
        let ime1 = if self.setdi == 1 { false } else { self.ime };
        cpu {
            ime: if self.setei == 1 { true } else { ime1 },
            setdi: if self.setdi == 2 { 1 } else { 0 },
            setei: if self.setei == 2 { 1 } else { 0 },
            ..self
        }
    }

    /// The register file after an instruction of `len` bytes that changes
    /// nothing else.
    pub open spec fn reg_past(&self, len: int) -> registers {
        registers { pc: wrap16(self.reg.pc + len), ..self.reg }
    }

    /// Service of the lowest pending interrupt from `self` into `post`: the
    /// request bit cleared, the program counter pushed, a jump to the
    /// interrupt's vector, interrupts disabled and the halt left; four machine
    /// cycles.
    pub open spec fn serviced(self, post: cpu, r: Result<u32, CpuError>) -> bool {
        let n = lowest_bit(self.pending());
        let sp = self.reg.sp;
        let pc = self.reg.pc;
        &&& r == Ok::<u32, CpuError>(4)
        &&& !post.halted && !post.ime
        &&& post.setdi == self.setdi && post.setei == self.setei
        &&& post.reg == (registers {
            pc: (0x40 + 8 * n) as u16,
            sp: wrap16(sp + 0x10000 - 2),
            ..self.reg
        })
        &&& exists|m: Mmu|
            #[trigger] self.mmu.written(
                m,
                INTERRUPT_FLAG_ADDR,
                (self.mmu.mem(INTERRUPT_FLAG_ADDR as int) - pow2(n)) as u8,
            ) && pushed(m, post.mmu, sp, pc)
    }

    /// One step from `self` into `post`: count down the interrupt-enable
    /// requests; then serve the lowest pending interrupt if interrupts are
    /// enabled; else idle for one cycle while halted with nothing pending;
    /// else leave the halt and execute the instruction at the program counter.
    pub open spec fn stepped(self, post: cpu, r: Result<u32, CpuError>) -> bool {
        let s = self.after_countdown();
        if s.pending() != 0 && s.ime {
            s.serviced(post, r)
        } else if s.halted && s.pending() == 0 {
            post == s && r == Ok::<u32, CpuError>(1)
        } else {
            (cpu { halted: false, ..s }).executed(post, r)
        }
    }
}

/// The lowest pending interrupt is requested, so clearing its request bit
/// cannot underflow.
proof fn lemma_pending_bit(ie: u8, iflag: u8)
    requires
        ie & iflag & 0x1F != 0,
    ensures
        lowest_bit(ie & iflag & 0x1F) < 5,
        iflag >= pow2(lowest_bit(ie & iflag & 0x1F)),
{
    let p = ie & iflag & 0x1F;
    assert(p & 0x1F == p && p & iflag == p) by (bit_vector)
        requires
            p == ie & iflag & 0x1F,
    ;
    assert(p != 0 && p & 0x1F == p && p & iflag == p ==> lowest_bit(p) < 5 && iflag >= pow2(
        lowest_bit(p),
    )) by (bit_vector);
}

fn lowest_set_bit(p: u8) -> (r: u8)
    ensures
        r == lowest_bit(p),
{
    if p % 2 == 1 {
        0
    } else if (p / 2) % 2 == 1 {
        1
    } else if (p / 4) % 2 == 1 {
        2
    } else if (p / 8) % 2 == 1 {
        3
    } else {
        4
    }
}

impl cpu {
    /// A processor over a cartridge, in the state the boot ROM leaves: the
    /// bus reset, the power-on register values, running, interrupts enabled.
    pub fn new(rom: Rom) -> (r: cpu)
        ensures
            r.wf(),
            r.reg == registers::new_spec(),
            r.mmu.rom == rom,
            is_power_on_mbc(rom, r.mmu.mbc),
            r.mmu.joypad@ == Seq::new(8, |i: int| 1u8),
            r.mmu.mem(JOYPAD_REGISTER_ADDR as int) == 0xFF,
            forall|a: u16| #[trigger] is_cleared_at_reset(a) ==> r.mmu.mem(a as int) == 0,
            !r.mmu.timer_freq_changed,
            !r.halted && r.ime && r.setdi == 0 && r.setei == 0,
    {
        let mut cpu_mmu = Mmu::init(rom, Joypad::new());
        cpu_mmu.reset();
        cpu { reg: registers::new(), mmu: cpu_mmu, halted: false, ime: true, setdi: 0, setei: 0 }
    }

    /// One step, in clock ticks: four per machine cycle.
    pub fn do_cycle(&mut self) -> (r: Result<u32, CpuError>)
        requires
            old(self).wf(),
        ensures
            final(self).wf(),
            exists|m: Result<u32, CpuError>|
                #[trigger] old(self).stepped(*final(self), m) && r == match m {
                    Ok(c) => Ok::<u32, CpuError>((c * 4) as u32),
                    Err(e) => Err::<u32, CpuError>(e),
                },
    {
        match self.cycle() {
            Ok(c) => Ok(c * 4),
            Err(e) => Err(e),
        }
    }

    /// One step, in machine cycles; fails on an undefined opcode.
    pub fn cycle(&mut self) -> (r: Result<u32, CpuError>)
        requires
            old(self).wf(),
        ensures
            final(self).wf(),
            old(self).stepped(*final(self), r),
            r matches Ok(c) ==> 1 <= c <= 6,
    {
        self.update_ime();
        let ghost s = *self;
        let ie = self.mmu.bus_read(INTERRUPT_ENABLE_ADDR);
        let iflag = self.mmu.bus_read(INTERRUPT_FLAG_ADDR);
        let pending = ie & iflag & 0x1F;
        if pending != 0 && self.ime {
            proof {
                lemma_pending_bit(ie, iflag);
            }
            let n = lowest_set_bit(pending);
            self.ime = false;
            self.halted = false;
            self.mmu.bus_write(INTERRUPT_FLAG_ADDR, iflag - pow2_of(n));
            let ghost m0 = self.mmu;
            let pc = self.reg.pc;
            self.push_stack(pc);
            self.reg.pc = 0x40 + 8 * n as u16;
            assert(s.mmu.written(m0, INTERRUPT_FLAG_ADDR, (iflag - pow2(n)) as u8));
            Ok(4)
        } else if self.halted && pending == 0 {
            Ok(1)
        } else {
            self.halted = false;
            self.call()
        }
    }

    /// Counts down the requested enable or disable of interrupts.
    fn update_ime(&mut self)
        ensures
            *final(self) == old(self).after_countdown(),
    {
        self.setdi = match self.setdi {
            2 => 1,
            1 => {
                self.ime = false;
                0
            },
            _ => 0,
        };
        self.setei = match self.setei {
            2 => 1,
            1 => {
                self.ime = true;
                0
            },
            _ => 0,
        };
    }
}

fn pow2_of(n: u8) -> (r: u8)
    ensures
        r == pow2(n),
{
    if n == 0 {
        1
    } else if n == 1 {
        2
    } else if n == 2 {
        4
    } else if n == 3 {
        8
    } else {
        16
    }
}

/// An enable of interrupts takes effect one instruction late: the step that
/// executes it and the step after it serve no interrupt, whatever is
/// requested; if something is pending after that next instruction (itself no
/// enable), the third step serves it.
pub proof fn lemma_enable_interrupt_latency(
    s0: cpu,
    s1: cpu,
    s2: cpu,
    s3: cpu,
    r1: Result<u32, CpuError>,
    r2: Result<u32, CpuError>,
    r3: Result<u32, CpuError>,
)
    requires
        s0.wf(),
        !s0.ime && !s0.halted,
        s0.setdi == 0 && s0.setei == 0,
        s0.opcode_at_pc() == 0xFB,
        s0.stepped(s1, r1),
        s1.stepped(s2, r2),
        s2.stepped(s3, r3),
    ensures
        r1 == Ok::<u32, CpuError>(1),
        !s1.ime && s1.setei == 2,
        (cpu { halted: false, ..s1.after_countdown() }).executed(s2, r2),
        s1.opcode_at_pc() != 0xFB && s2.pending() != 0 ==> s2.after_countdown().serviced(s3, r3),
{
}

/// The halt opcode halts the processor; a halted processor idles one cycle
/// per step, its registers and memory unchanged, while no enabled interrupt is
/// requested, and serves the interrupt (leaving the halt) once one is and
/// interrupts are enabled.
pub proof fn lemma_halt_until_interrupt(
    s0: cpu,
    s1: cpu,
    s2: cpu,
    r1: Result<u32, CpuError>,
    r2: Result<u32, CpuError>,
)
    requires
        s0.wf(),
        !s0.halted,
        s0.opcode_at_pc() == 0x76,
        !(s0.after_countdown().ime && s0.after_countdown().pending() != 0),
        s0.stepped(s1, r1),
        s1.stepped(s2, r2),
    ensures
        r1 == Ok::<u32, CpuError>(1),
        s1.halted,
        s1.reg.pc == wrap16(s0.reg.pc + 1),
        s1.mmu == s0.mmu,
        s1.pending() == 0 ==> r2 == Ok::<u32, CpuError>(1) && s2.halted && s2.reg == s1.reg
            && s2.mmu == s1.mmu,
        s1.pending() != 0 && s1.after_countdown().ime ==> r2 == Ok::<u32, CpuError>(4)
            && !s2.halted && s2.reg.pc == 0x40 + 8 * lowest_bit(s1.pending()),
{
}

} // verus!
