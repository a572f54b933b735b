//! The memory bus: decodes the 16-bit address space and routes each access to
//! the cartridge, its bank controller, RAM, the I/O registers or nowhere.
use vstd::prelude::*;
use vstd::slice::slice_subrange;
use crate::joypad::{Joypad, JoypadMode};
use crate::mbc::{Mbc, get_mbc, is_power_on_mbc, load_into, loaded};
use crate::rom::Rom;

verus! {

pub const MEMORY_SIZE: usize = 0x10000;

pub const JOYPAD_REGISTER_ADDR: u16 = 0xFF00;

pub const DIVIDER_REGISTER_ADDR: u16 = 0xFF04;

pub const TIMER_ADDR: u16 = 0xFF05;

pub const TIMER_CONTROL_ADDR: u16 = 0xFF07;

pub const INTERRUPT_FLAG_ADDR: u16 = 0xFF0F;

pub const CURRENT_SCANLINE_ADDR: u16 = 0xFF44;

pub const INTERRUPT_ENABLE_ADDR: u16 = 0xFFFF;

/// The I/O registers that power-on clears: timer, sound, LCD control and
/// scrolling, palettes and window position.
pub open spec fn is_cleared_at_reset(addr: u16) -> bool {
    ||| 0xFF05 <= addr <= 0xFF07
    ||| 0xFF10 <= addr <= 0xFF12
    ||| addr == 0xFF14
    ||| 0xFF16 <= addr <= 0xFF17
    ||| 0xFF19 <= addr <= 0xFF1B
    ||| addr == 0xFF1E
    ||| 0xFF20 <= addr <= 0xFF26
    ||| addr == 0xFF40
    ||| 0xFF42 <= addr <= 0xFF43
    ||| addr == 0xFF45
    ||| 0xFF47 <= addr <= 0xFF4B
    ||| addr == 0xFFFF
}

fn cleared_at_reset(addr: u16) -> (r: bool)
    ensures
        r == is_cleared_at_reset(addr),
{
    (0xFF05 <= addr && addr <= 0xFF07) || (0xFF10 <= addr && addr <= 0xFF12) || addr == 0xFF14 || (
    0xFF16 <= addr && addr <= 0xFF17) || (0xFF19 <= addr && addr <= 0xFF1B) || addr == 0xFF1E || (
    0xFF20 <= addr && addr <= 0xFF26) || addr == 0xFF40 || (0xFF42 <= addr && addr <= 0xFF43)
        || addr == 0xFF45 || (0xFF47 <= addr && addr <= 0xFF4B) || addr == 0xFFFF
}

/// The address space, the cartridge, its controller (none for an unbanked
/// cartridge) and the buttons.
pub struct Mmu {
    pub memory: Vec<u8>,
    pub rom: Rom,
    pub joypad: Joypad,
    pub mbc: Option<Mbc>,
    pub timer_freq_changed: bool,
}

impl Mmu {
    pub open spec fn wf(&self) -> bool {
        &&& self.memory@.len() == MEMORY_SIZE
        &&& self.joypad.wf()
        &&& self.mbc matches Some(m) ==> m.wf()
    }

    pub open spec fn mem(&self, addr: int) -> u8 {
        self.memory@[addr]
    }

    /// What a read at `addr` returns.
    pub open spec fn read_spec(&self, addr: u16) -> u8 {
        if addr < 0x8000 {
            match self.mbc {
                Some(m) => m.read_rom_spec(self.rom, addr),
                None => self.rom.byte_spec(addr as int),
            }
        } else if 0xA000 <= addr < 0xC000 && self.mbc.is_some() {
            self.mbc.unwrap().read_ram_spec((addr - 0xA000) as u16)
        } else if 0xE000 <= addr < 0xFE00 {
            self.mem(addr - 0x2000)
        } else if 0xFEA0 <= addr < 0xFF00 {
            0xFF
        } else {
            self.mem(addr as int)
        }
    }

    /// The value that a write of `data` to the input register leaves there:
    /// the written high nibble, and in the low nibble the buttons of the group
    /// that bits 4 and 5 select (bit 5 alone low: actions; bit 4 alone low:
    /// directions; otherwise none, all high).
    pub open spec fn joypad_register_value(&self, data: u8) -> u8 {
        let mode_bits = (data / 16) % 4;
        let low = if mode_bits == 1 {
            self.joypad.mode_nibble(JoypadMode::ACTION)
        } else if mode_bits == 2 {
            self.joypad.mode_nibble(JoypadMode::DIRECTION)
        } else {
            0x0F
        };
        (data / 16 * 16 + low) as u8
    }

    /// The byte at a plain storage address after a write of `data` to it.
    pub open spec fn stored_value(&self, addr: u16, data: u8) -> u8 {
        if addr == JOYPAD_REGISTER_ADDR {
            self.joypad_register_value(data)
        } else if addr == DIVIDER_REGISTER_ADDR {
            0
        } else {
            data
        }
    }

    /// How a write of `data` at `addr` relates the bus before (`self`) and
    /// after (`post`).
    pub open spec fn written(self, post: Mmu, addr: u16, data: u8) -> bool {
        &&& post.rom == self.rom
        &&& post.joypad == self.joypad
        &&& post.timer_freq_changed == (self.timer_freq_changed || addr == TIMER_CONTROL_ADDR)
        &&& if addr < 0x8000 {
            &&& post.memory@ == self.memory@
            &&& post.mbc == match self.mbc {
                Some(m) => Some(m.bank_written(addr, data)),
                None => None,
            }
        } else if 0xA000 <= addr < 0xC000 && self.mbc.is_some() {
            &&& post.memory@ == self.memory@
            &&& post.mbc.is_some()
            &&& self.mbc.unwrap().ram_written(post.mbc.unwrap(), (addr - 0xA000) as u16, data)
        } else if 0xFEA0 <= addr < 0xFF00 {
            &&& post.memory@ == self.memory@
            &&& post.mbc == self.mbc
        } else {
            let target = if 0xE000 <= addr < 0xFE00 { (addr - 0x2000) as u16 } else { addr };
            &&& post.memory@ == self.memory@.update(target as int, self.stored_value(addr, data))
            &&& post.mbc == self.mbc
        }
    }

    /// What the bus exposes as external RAM: the controller's buffer, or the
    /// 0xA000–0xBFFF window of an unbanked cartridge.
    pub open spec fn ext_ram_spec(&self) -> Seq<u8> {
        match self.mbc {
            Some(m) => m.ext_ram_spec(),
            None => self.memory@.subrange(0xA000, 0xC000),
        }
    }

    /// A bus over a cartridge, with all memory zeroed and no controller yet.
    pub fn init(rom: Rom, joypad: Joypad) -> (r: Mmu)
        requires
            joypad.wf(),
        ensures
            r.wf(),
            r.rom == rom,
            r.joypad == joypad,
            r.mbc.is_none(),
            !r.timer_freq_changed,
            r.memory@ == Seq::new(MEMORY_SIZE as nat, |i: int| 0u8),
    {
        let mut memory: Vec<u8> = Vec::new();
        let mut i: usize = 0;
        while i < MEMORY_SIZE
            invariant
                i <= MEMORY_SIZE,
                memory@ == Seq::new(i as nat, |k: int| 0u8),
            decreases MEMORY_SIZE - i,
        {
            memory.push(0);
            i = i + 1;
            assert(memory@ =~= Seq::new(i as nat, |k: int| 0u8));
        }
        Mmu { memory, rom, joypad, mbc: None, timer_freq_changed: false }
    }

    pub fn get_ext_ram(&self) -> (r: &[u8])
        requires
            self.wf(),
        ensures
            r@ == self.ext_ram_spec(),
    {
        match &self.mbc {
            Some(mbc) => mbc.get_ext_ram(),
            None => slice_subrange(self.memory.as_slice(), 0xA000, 0xC000),
        }
    }

    /// Restores external RAM from a save image, as far as the image and the
    /// buffer both reach; nothing else changes.
    pub fn load_ext_ram(&mut self, buffer: &[u8])
        requires
            old(self).wf(),
        ensures
            final(self).wf(),
            final(self).ext_ram_spec() == loaded(old(self).ext_ram_spec(), buffer@),
            final(self).rom == old(self).rom,
            final(self).joypad == old(self).joypad,
            final(self).timer_freq_changed == old(self).timer_freq_changed,
            final(self).mbc.is_some() == old(self).mbc.is_some(),
            old(self).mbc.is_some() ==> final(self).memory@ == old(self).memory@
                && old(self).mbc.unwrap().same_bank_state(final(self).mbc.unwrap()),
            old(self).mbc.is_none() ==> forall|k: int|
                0 <= k < MEMORY_SIZE && !(0xA000 <= k < 0xC000) ==> #[trigger] final(self).mem(k)
                    == old(self).mem(k),
    {
        match &mut self.mbc {
            Some(mbc) => mbc.load_ext_ram(buffer),
            None => load_into(&mut self.memory, 0xA000, 0x2000, buffer),
        }
    }

    pub fn bus_read(&self, address: u16) -> (r: u8)
        requires
            self.wf(),
        ensures
            r == self.read_spec(address),
    {
        if address < 0x8000 {
            self.read_rom(address)
        } else if 0xA000 <= address && address < 0xC000 && self.mbc.is_some() {
            self.read_ram(address)
        } else if 0xE000 <= address && address < 0xFE00 {
            self.memory[address as usize - 0x2000]
        } else if 0xFEA0 <= address && address < 0xFF00 {
            0xFF
        } else {
            self.memory[address as usize]
        }
    }

    /// Power-on state: the I/O registers cleared, the input register reading
    /// all high, the first 32 KiB of the cartridge copied into the low address
    /// space, and the controller that the cartridge asks for.
    pub fn reset(&mut self)
        requires
            old(self).wf(),
        ensures
            final(self).wf(),
            final(self).rom == old(self).rom,
            final(self).joypad == old(self).joypad,
            final(self).timer_freq_changed == old(self).timer_freq_changed,
            is_power_on_mbc(final(self).rom, final(self).mbc),
            final(self).mem(JOYPAD_REGISTER_ADDR as int) == 0xFF,
            forall|a: u16| #[trigger] is_cleared_at_reset(a) ==> final(self).mem(a as int) == 0,
            forall|k: int|
                0 <= k < 0x8000 && k < old(self).rom@.len() ==> #[trigger] final(self).mem(k)
                    == old(self).rom@[k],
            forall|k: int|
                0x8000 <= k < MEMORY_SIZE && k != JOYPAD_REGISTER_ADDR && !is_cleared_at_reset(
                    k as u16,
                ) ==> #[trigger] final(self).mem(k) == old(self).mem(k),
    {
        let mut a: u16 = 0xFF05;
        while a < 0xFFFF
            invariant
                0xFF05 <= a <= 0xFFFF,
                self.wf(),
                self.rom == old(self).rom,
                self.joypad == old(self).joypad,
                self.mbc == old(self).mbc,
                self.timer_freq_changed == old(self).timer_freq_changed,
                forall|b: u16|
                    0xFF05 <= b < a && #[trigger] is_cleared_at_reset(b) ==> self.memory@[b as int]
                        == 0,
                forall|k: int|
                    0 <= k < MEMORY_SIZE && !(0xFF05 <= k < a && is_cleared_at_reset(k as u16))
                        ==> #[trigger] self.memory@[k] == old(self).memory@[k],
            decreases 0xFFFF - a,
        {
            if cleared_at_reset(a) {
                self.memory.set(a as usize, 0);
            }
            a = a + 1;
        }
        self.memory.set(INTERRUPT_ENABLE_ADDR as usize, 0);
        self.memory.set(JOYPAD_REGISTER_ADDR as usize, 0xFF);
        self.load_rom();
    }

    /// Copies the first 32 KiB of the cartridge into the low address space and
    /// sets up the controller that the cartridge asks for.
    fn load_rom(&mut self)
        requires
            old(self).wf(),
        ensures
            final(self).wf(),
            final(self).rom == old(self).rom,
            final(self).joypad == old(self).joypad,
            final(self).timer_freq_changed == old(self).timer_freq_changed,
            is_power_on_mbc(final(self).rom, final(self).mbc),
            forall|k: int|
                0 <= k < 0x8000 && k < old(self).rom@.len() ==> #[trigger] final(self).mem(k)
                    == old(self).rom@[k],
            forall|k: int|
                0x8000 <= k < MEMORY_SIZE ==> #[trigger] final(self).mem(k) == old(self).mem(k),
    {
        let len = self.rom.length();
        let end: usize = if len < 0x8000 { len } else { 0x8000 };
        let mut i: usize = 0;
        while i < end
            invariant
                end <= 0x8000,
                end <= self.rom@.len(),
                i <= end,
                self.wf(),
                self.rom == old(self).rom,
                self.joypad == old(self).joypad,
                self.timer_freq_changed == old(self).timer_freq_changed,
                forall|k: int| 0 <= k < i ==> #[trigger] self.memory@[k] == self.rom@[k],
                forall|k: int| i <= k < MEMORY_SIZE ==> #[trigger] self.memory@[k] == old(self).memory@[k],
            decreases end - i,
        {
            let b = self.rom.get_byte(i);
            self.memory.set(i, b);
            i = i + 1;
        }
        self.mbc = get_mbc(&self.rom);
    }

    /// Routes a write: ROM addresses go to the controller as control signals,
    /// external RAM to the controller, the echo range to working RAM, the
    /// unusable range nowhere; the input register, the divider and the timer
    /// control register have their own effects.
    pub fn bus_write(&mut self, address: u16, data: u8)
        requires
            old(self).wf(),
        ensures
            final(self).wf(),
            old(self).written(*final(self), address, data),
    {
        if address < 0x8000 {
            self.handle_bank(address, data);
        } else if 0xA000 <= address && address < 0xC000 && self.mbc.is_some() {
            self.write_ram(address, data);
        } else if 0xFEA0 <= address && address < 0xFF00 {
        } else {
            let target: u16 = if 0xE000 <= address && address < 0xFE00 {
                address - 0x2000
            } else {
                address
            };
            if address == JOYPAD_REGISTER_ADDR {
                self.handle_joypad(target, data);
            } else if address == DIVIDER_REGISTER_ADDR {
                self.memory.set(target as usize, 0);
            } else if address == TIMER_CONTROL_ADDR {
                self.timer_control(data);
            } else {
                self.memory.set(target as usize, data);
            }
        }
    }

    fn read_rom(&self, addr: u16) -> (r: u8)
        requires
            self.wf(),
            addr < 0x8000,
        ensures
            r == self.read_spec(addr),
    {
        match &self.mbc {
            Some(mbc) => mbc.read_rom(&self.rom, addr),
            None => self.rom.get_byte(addr as usize),
        }
    }

    fn read_ram(&self, addr: u16) -> (r: u8)
        requires
            self.wf(),
            0xA000 <= addr < 0xC000,
            self.mbc.is_some(),
        ensures
            r == self.read_spec(addr),
    {
        match &self.mbc {
            Some(mbc) => mbc.read_ram(addr - 0xA000),
            None => 0xFF,
        }
    }

    fn write_ram(&mut self, addr: u16, data: u8)
        requires
            old(self).wf(),
            0xA000 <= addr < 0xC000,
            old(self).mbc.is_some(),
        ensures
            final(self).wf(),
            old(self).written(*final(self), addr, data),
    {
        match &mut self.mbc {
            Some(mbc) => mbc.write_ram(addr - 0xA000, data),
            None => {},
        }
    }

    fn handle_bank(&mut self, addr: u16, data: u8)
        requires
            old(self).wf(),
            addr < 0x8000,
        ensures
            final(self).wf(),
            old(self).written(*final(self), addr, data),
    {
        match &mut self.mbc {
            Some(mbc) => mbc.handle_bank(addr, data),
            None => {},
        }
    }

    fn handle_joypad(&mut self, addr: u16, data: u8)
        requires
            old(self).wf(),
            addr == JOYPAD_REGISTER_ADDR,
        ensures
            final(self).wf(),
            old(self).written(*final(self), addr, data),
    {
        let mode_bits = (data / 16) % 4;
        let low: u8 = if mode_bits == 1 {
            self.joypad.get_button_mode(JoypadMode::ACTION)
        } else if mode_bits == 2 {
            self.joypad.get_button_mode(JoypadMode::DIRECTION)
        } else {
            0x0F
        };
        self.memory.set(addr as usize, data / 16 * 16 + low);
    }

    pub fn update_timer_freq(&mut self, val: bool)
        ensures
            *final(self) == (Mmu { timer_freq_changed: val, ..*old(self) }),
    {
        self.timer_freq_changed = val;
    }

    pub fn timer_freq_is_changed(&self) -> (r: bool)
        ensures
            r == self.timer_freq_changed,
    {
        self.timer_freq_changed
    }

    /// Advances the current scanline register (wrapping).
    pub fn update_scanline(&mut self)
        requires
            old(self).wf(),
        ensures
            final(self).wf(),
            final(self).memory@ == old(self).memory@.update(
                CURRENT_SCANLINE_ADDR as int,
                ((old(self).mem(CURRENT_SCANLINE_ADDR as int) + 1) % 256) as u8,
            ),
            (Mmu { memory: old(self).memory, ..*final(self) }) == *old(self),
    {
        let v = self.memory[CURRENT_SCANLINE_ADDR as usize];
        self.memory.set(CURRENT_SCANLINE_ADDR as usize, v.wrapping_add(1));
    }

    pub fn reset_scanline(&mut self)
        requires
            old(self).wf(),
        ensures
            final(self).wf(),
            final(self).memory@ == old(self).memory@.update(CURRENT_SCANLINE_ADDR as int, 0),
            (Mmu { memory: old(self).memory, ..*final(self) }) == *old(self),
    {
        self.memory.set(CURRENT_SCANLINE_ADDR as usize, 0);
    }

    /// Advances the timer counter (wrapping).
    pub fn increment_timer_register(&mut self)
        requires
            old(self).wf(),
        ensures
            final(self).wf(),
            final(self).memory@ == old(self).memory@.update(
                TIMER_ADDR as int,
                ((old(self).mem(TIMER_ADDR as int) + 1) % 256) as u8,
            ),
            (Mmu { memory: old(self).memory, ..*final(self) }) == *old(self),
    {
        let v = self.memory[TIMER_ADDR as usize];
        self.memory.set(TIMER_ADDR as usize, v.wrapping_add(1));
    }

    /// Advances the divider register (wrapping).
    pub fn increment_division_register(&mut self)
        requires
            old(self).wf(),
        ensures
            final(self).wf(),
            final(self).memory@ == old(self).memory@.update(
                DIVIDER_REGISTER_ADDR as int,
                ((old(self).mem(DIVIDER_REGISTER_ADDR as int) + 1) % 256) as u8,
            ),
            (Mmu { memory: old(self).memory, ..*final(self) }) == *old(self),
    {
        let v = self.memory[DIVIDER_REGISTER_ADDR as usize];
        self.memory.set(DIVIDER_REGISTER_ADDR as usize, v.wrapping_add(1));
    }

    /// Presses a button.
    pub fn set_button_state(&mut self, button: usize)
        requires
            old(self).wf(),
            button < 8,
        ensures
            final(self).wf(),
            final(self).joypad@ == old(self).joypad@.update(button as int, 0),
            (Mmu { joypad: old(self).joypad, ..*final(self) }) == *old(self),
    {
        self.joypad.set_button_press(button);
    }

    /// Releases a button.
    pub fn reset_button_state(&mut self, button: usize)
        requires
            old(self).wf(),
            button < 8,
        ensures
            final(self).wf(),
            final(self).joypad@ == old(self).joypad@.update(button as int, 1),
            (Mmu { joypad: old(self).joypad, ..*final(self) }) == *old(self),
    {
        self.joypad.reset_button_state(button);
    }

    /// A write to the timer control register, which marks the timer frequency
    /// as changed.
    fn timer_control(&mut self, data: u8)
        requires
            old(self).wf(),
        ensures
            final(self).wf(),
            old(self).written(*final(self), TIMER_CONTROL_ADDR, data),
    {
        self.update_timer_freq(true);
        self.memory.set(TIMER_CONTROL_ADDR as usize, data);
    }
}

/// Working RAM and its echo are one store: a byte written at an address of
/// 0xC000–0xDDFF reads back at that address plus 0x2000, and a byte written at
/// the echo address reads back at the working-RAM address.
pub proof fn lemma_echo_ram(m: Mmu, post_low: Mmu, post_high: Mmu, x: u16, data: u8)
    requires
        m.wf(),
        0xC000 <= x <= 0xDDFF,
        m.written(post_low, x, data),
        m.written(post_high, (x + 0x2000) as u16, data),
    ensures
        post_low.read_spec((x + 0x2000) as u16) == data,
        post_high.read_spec(x) == data,
{
}

} // verus!
