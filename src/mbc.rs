//! Cartridge bank controllers: four variants that map the CPU's ROM and RAM
//! windows onto banks of a larger cartridge ROM and external RAM.
use vstd::prelude::*;
use crate::rom::{Rom, image_byte};

verus! {

pub const ROM_BANK_SIZE: usize = 0x4000;

pub const RAM_BANK_SIZE: usize = 0x2000;

pub const MAX_RAM_BANKS: usize = 4;

/// External RAM of the type 1 and type 3 controllers: four 8 KiB banks.
pub const BANKED_RAM_SIZE: usize = 0x8000;

/// External RAM of the type 2 controller: 512 four-bit cells.
pub const MBC2_RAM_SIZE: usize = 0x200;

/// External RAM of the type 5 controller: sixteen 8 KiB banks.
pub const MBC5_RAM_SIZE: usize = 0x20000;

#[derive(Clone, Copy, Debug, PartialEq, Eq, Structural)]
pub enum MbcType {
    MBC1,
    MBC2,
    MBC3,
    MBC5,
}

/// What the 0x4000–0x5FFF window of a type 1 controller selects.
#[derive(Clone, Copy, Debug, PartialEq, Eq, Structural)]
pub enum BankingMode {
    ROM,
    RAM,
}

/// The controller that a cartridge-type code asks for, if any.
pub open spec fn mbc_type_of_code(code: u8) -> Option<MbcType> {
    if 0x01 <= code <= 0x03 {
        Some(MbcType::MBC1)
    } else if code == 0x05 || code == 0x06 {
        Some(MbcType::MBC2)
    } else if 0x0F <= code <= 0x13 {
        Some(MbcType::MBC3)
    } else if 0x19 <= code <= 0x1E {
        Some(MbcType::MBC5)
    } else {
        None
    }
}

/// RAM enabled by a value whose low nibble is 0xA.
pub open spec fn enables_ram(data: u8) -> bool {
    data % 16 == 0x0A
}

/// A ROM window read: the fixed bank below 0x4000, the given bank above.
pub open spec fn banked_rom_byte(rom: Rom, bank: int, addr: u16) -> u8 {
    if addr < 0x4000 {
        rom.byte_spec(addr as int)
    } else {
        rom.byte_spec(bank * ROM_BANK_SIZE + (addr - 0x4000))
    }
}

/// The byte sequence that loading a save image leaves in a RAM buffer: the
/// image over the start of the buffer, as far as both reach.
pub open spec fn loaded(ram: Seq<u8>, image: Seq<u8>) -> Seq<u8> {
    if image.len() < ram.len() {
        image + ram.skip(image.len() as int)
    } else {
        image.take(ram.len() as int)
    }
}

/// Copies `buffer` over `ram[start..start + len]`, as far as both reach.
pub fn load_into(ram: &mut Vec<u8>, start: usize, len: usize, buffer: &[u8])
    requires
        start + len <= old(ram)@.len(),
    ensures
        final(ram)@.len() == old(ram)@.len(),
        final(ram)@.subrange(start as int, start + len) == loaded(
            old(ram)@.subrange(start as int, start + len),
            buffer@,
        ),
        forall|k: int|
            0 <= k < old(ram)@.len() && !(start <= k < start + len) ==> #[trigger] final(ram)@[k]
                == old(ram)@[k],
{
    let n: usize = if len < buffer.len() { len } else { buffer.len() };
    let total = ram.len();
    let mut i: usize = 0;
    while i < n
        invariant
            start + len <= total,
            total == ram@.len(),
            n <= len,
            n <= buffer@.len(),
            n == len || n == buffer@.len(),
            i <= n,
            ram@.len() == old(ram)@.len(),
            forall|k: int| 0 <= k < i ==> ram@[start + k] == buffer@[k],
            forall|k: int|
                0 <= k < ram@.len() && !(start <= k < start + i) ==> #[trigger] ram@[k] == old(
                    ram,
                )@[k],
        decreases n - i,
    {
        ram.set(start + i, buffer[i]);
        i = i + 1;
    }
    assert(ram@.subrange(start as int, start + len) =~= loaded(
        old(ram)@.subrange(start as int, start + len),
        buffer@,
    ));
}

/// A vector of zero bytes.
fn zeroed(n: usize) -> (r: Vec<u8>)
    ensures
        r@ == Seq::new(n as nat, |i: int| 0u8),
{
    let mut r: Vec<u8> = Vec::new();
    let mut i: usize = 0;
    while i < n
        invariant
            i <= n,
            r@ == Seq::new(i as nat, |k: int| 0u8),
        decreases n - i,
    {
        r.push(0);
        i = i + 1;
        assert(r@ =~= Seq::new(i as nat, |k: int| 0u8));
    }
    r
}

/// Type 1: five low ROM-bank bits, two more bits that select either the
/// RAM bank or the upper ROM-bank bits, and four RAM banks.
pub struct Mbc1 {
    pub rom_bank: usize,
    pub ram_bank: usize,
    pub ext_ram: Vec<u8>,
    pub enable_ram: bool,
    pub number_of_rom_banks: u16,
    pub banking_mode: BankingMode,
}

impl Mbc1 {
    /// The selected ROM bank is never 0 in its low five bits.
    pub open spec fn wf(&self) -> bool {
        &&& 1 <= self.rom_bank < 128
        &&& self.rom_bank % 32 != 0
        &&& self.ram_bank < MAX_RAM_BANKS
        &&& self.ext_ram@.len() == BANKED_RAM_SIZE
        &&& self.number_of_rom_banks >= 1
    }

    /// The switchable bank that reads go to: the selected bank, wrapped to the
    /// cartridge's bank count.
    pub open spec fn effective_rom_bank(&self) -> int {
        self.rom_bank as int % self.number_of_rom_banks as int
    }

    pub open spec fn read_rom_spec(&self, rom: Rom, addr: u16) -> u8 {
        banked_rom_byte(rom, self.effective_rom_bank(), addr)
    }

    pub open spec fn ram_index(&self, addr: u16) -> int {
        self.ram_bank * RAM_BANK_SIZE + addr
    }

    /// The state after a write to the control window.
    pub open spec fn bank_written(self, addr: u16, data: u8) -> Mbc1 {
        if addr < 0x2000 {
            Mbc1 { enable_ram: enables_ram(data), ..self }
        } else if addr < 0x4000 {
            let low = if data % 32 == 0 { 1 } else { data % 32 };
            Mbc1 { rom_bank: (self.rom_bank / 32 * 32 + low) as usize, ..self }
        } else if addr < 0x6000 {
            match self.banking_mode {
                BankingMode::RAM => Mbc1 { ram_bank: (data % 4) as usize, ..self },
                BankingMode::ROM => Mbc1 {
                    rom_bank: ((data % 4) * 32 + self.rom_bank % 32) as usize,
                    ..self
                },
            }
        } else if addr < 0x8000 {
            Mbc1 {
                banking_mode: if data % 2 == 1 { BankingMode::RAM } else { BankingMode::ROM },
                ..self
            }
        } else {
            self
        }
    }

    pub fn new(rom: &Rom) -> (r: Mbc1)
        ensures
            r.wf(),
            r.rom_bank == 1 && r.ram_bank == 0 && !r.enable_ram,
            r.banking_mode == BankingMode::ROM,
            r.number_of_rom_banks == rom.number_banks_spec(),
            r.ext_ram@ == Seq::new(BANKED_RAM_SIZE as nat, |i: int| 0u8),
    {
        Mbc1 {
            rom_bank: 1,
            ram_bank: 0,
            ext_ram: zeroed(BANKED_RAM_SIZE),
            enable_ram: false,
            number_of_rom_banks: rom.get_number_banks(),
            banking_mode: BankingMode::ROM,
        }
    }

    pub fn read_rom(&self, rom: &Rom, addr: u16) -> (r: u8)
        requires
            self.wf(),
            addr < 0x8000,
        ensures
            r == self.read_rom_spec(*rom, addr),
    {
        if addr < 0x4000 {
            rom.get_byte(addr as usize)
        } else {
            let bank = self.rom_bank % (self.number_of_rom_banks as usize);
            rom.get_byte(bank * ROM_BANK_SIZE + (addr as usize - 0x4000))
        }
    }

    pub fn read_ram(&self, addr: u16) -> (r: u8)
        requires
            self.wf(),
            addr < 0x2000,
        ensures
            r == self.ext_ram@[self.ram_index(addr)],
    {
        self.ext_ram[self.ram_bank * RAM_BANK_SIZE + addr as usize]
    }

    /// Stores a byte in the selected RAM bank while RAM is enabled.
    pub fn write_ram(&mut self, addr: u16, data: u8)
        requires
            old(self).wf(),
            addr < 0x2000,
        ensures
            final(self).wf(),
            final(self).ext_ram@ == (if old(self).enable_ram {
                old(self).ext_ram@.update(old(self).ram_index(addr), data)
            } else {
                old(self).ext_ram@
            }),
            (Mbc1 { ext_ram: old(self).ext_ram, ..*final(self) }) == *old(self),
            !old(self).enable_ram ==> *final(self) == *old(self),
    {
        if self.enable_ram {
            let i = self.ram_bank * RAM_BANK_SIZE + addr as usize;
            self.ext_ram.set(i, data);
        }
    }

    pub fn handle_bank(&mut self, addr: u16, data: u8)
        requires
            old(self).wf(),
        ensures
            final(self).wf(),
            *final(self) == old(self).bank_written(addr, data),
    {
        if addr < 0x2000 {
            self.enable_ram = data % 16 == 0x0A;
        } else if addr < 0x4000 {
            let low: usize = if data % 32 == 0 { 1 } else { (data % 32) as usize };
            self.rom_bank = self.rom_bank / 32 * 32 + low;
        } else if addr < 0x6000 {
            match self.banking_mode {
                BankingMode::RAM => self.ram_bank = (data % 4) as usize,
                BankingMode::ROM => self.rom_bank = (data % 4) as usize * 32 + self.rom_bank % 32,
            }
        } else if addr < 0x8000 {
            self.banking_mode = if data % 2 == 1 { BankingMode::RAM } else { BankingMode::ROM };
        }
    }
}

/// Type 2: a four-bit ROM bank and 512 cells of four-bit RAM built into the
/// controller.
pub struct Mbc2 {
    pub rom_bank: usize,
    pub ext_ram: Vec<u8>,
    pub enable_ram: bool,
}

impl Mbc2 {
    pub open spec fn wf(&self) -> bool {
        &&& 1 <= self.rom_bank < 16
        &&& self.ext_ram@.len() == MBC2_RAM_SIZE
    }

    pub open spec fn read_rom_spec(&self, rom: Rom, addr: u16) -> u8 {
        banked_rom_byte(rom, self.rom_bank as int, addr)
    }

    pub open spec fn ram_index(addr: u16) -> int {
        addr as int % MBC2_RAM_SIZE as int
    }

    /// Below 0x4000, bit 8 of the address tells a ROM-bank write (set) from a
    /// RAM-enable write (clear); other addresses change nothing.
    pub open spec fn bank_written(self, addr: u16, data: u8) -> Mbc2 {
        if addr < 0x4000 {
            if (addr / 256) % 2 == 1 {
                Mbc2 { rom_bank: if data % 16 == 0 { 1 } else { (data % 16) as usize }, ..self }
            } else {
                Mbc2 { enable_ram: enables_ram(data), ..self }
            }
        } else {
            self
        }
    }

    pub fn new() -> (r: Mbc2)
        ensures
            r.wf(),
            r.rom_bank == 1 && !r.enable_ram,
            r.ext_ram@ == Seq::new(MBC2_RAM_SIZE as nat, |i: int| 0u8),
    {
        Mbc2 { rom_bank: 1, ext_ram: zeroed(MBC2_RAM_SIZE), enable_ram: false }
    }

    pub fn read_rom(&self, rom: &Rom, addr: u16) -> (r: u8)
        requires
            self.wf(),
            addr < 0x8000,
        ensures
            r == self.read_rom_spec(*rom, addr),
    {
        if addr < 0x4000 {
            rom.get_byte(addr as usize)
        } else {
            rom.get_byte(self.rom_bank * ROM_BANK_SIZE + (addr as usize - 0x4000))
        }
    }

    /// Only the low four data lines are wired: the high nibble reads as 0.
    pub fn read_ram(&self, addr: u16) -> (r: u8)
        requires
            self.wf(),
        ensures
            r == self.ext_ram@[Self::ram_index(addr)] % 16,
    {
        self.ext_ram[addr as usize % MBC2_RAM_SIZE] % 16
    }

    pub fn write_ram(&mut self, addr: u16, data: u8)
        requires
            old(self).wf(),
        ensures
            final(self).wf(),
            final(self).ext_ram@ == (if old(self).enable_ram {
                old(self).ext_ram@.update(Self::ram_index(addr), data % 16)
            } else {
                old(self).ext_ram@
            }),
            (Mbc2 { ext_ram: old(self).ext_ram, ..*final(self) }) == *old(self),
            !old(self).enable_ram ==> *final(self) == *old(self),
    {
        if self.enable_ram {
            self.ext_ram.set(addr as usize % MBC2_RAM_SIZE, data % 16);
        }
    }

    pub fn handle_bank(&mut self, addr: u16, data: u8)
        requires
            old(self).wf(),
        ensures
            final(self).wf(),
            *final(self) == old(self).bank_written(addr, data),
    {
        if addr < 0x4000 {
            if (addr / 256) % 2 == 1 {
                self.rom_bank = if data % 16 == 0 { 1 } else { (data % 16) as usize };
            } else {
                self.enable_ram = data % 16 == 0x0A;
            }
        }
    }
}

/// Type 3: a seven-bit ROM bank, and one selector that picks either one of four
/// RAM banks (0x00–0x03) or one of five clock registers (0x08–0x0C).
pub struct Mbc3 {
    pub rom_bank: usize,
    pub ram_bank_or_rtc: u8,
    pub ext_ram: Vec<u8>,
    pub enable_ram_rtc: bool,
    pub rtc_seconds: u8,
    pub rtc_minutes: u8,
    pub rtc_hours: u8,
    pub rtc_dl: u8,
    pub rtc_dh: u8,
}

impl Mbc3 {
    pub open spec fn wf(&self) -> bool {
        &&& 1 <= self.rom_bank < 128
        &&& self.ext_ram@.len() == BANKED_RAM_SIZE
    }

    pub open spec fn read_rom_spec(&self, rom: Rom, addr: u16) -> u8 {
        banked_rom_byte(rom, self.rom_bank as int, addr)
    }

    pub open spec fn ram_index(&self, addr: u16) -> int {
        self.ram_bank_or_rtc * RAM_BANK_SIZE + addr
    }

    /// What the external-RAM window reads: a RAM byte, a clock register, or 0
    /// for a selector that names neither.
    pub open spec fn read_ram_spec(&self, addr: u16) -> u8 {
        let sel = self.ram_bank_or_rtc;
        if sel <= 0x03 {
            self.ext_ram@[self.ram_index(addr)]
        } else if sel == 0x08 {
            self.rtc_seconds
        } else if sel == 0x09 {
            self.rtc_minutes
        } else if sel == 0x0A {
            self.rtc_hours
        } else if sel == 0x0B {
            self.rtc_dl
        } else if sel == 0x0C {
            self.rtc_dh
        } else {
            0
        }
    }

    /// Writes to 0x6000–0x7FFF would latch the clock; no latch is kept, so they
    /// change nothing.
    pub open spec fn bank_written(self, addr: u16, data: u8) -> Mbc3 {
        if addr < 0x2000 {
            Mbc3 { enable_ram_rtc: enables_ram(data), ..self }
        } else if addr < 0x4000 {
            Mbc3 { rom_bank: if data % 128 == 0 { 1 } else { (data % 128) as usize }, ..self }
        } else if addr < 0x6000 {
            Mbc3 { ram_bank_or_rtc: data, ..self }
        } else {
            self
        }
    }

    /// How a write into the external-RAM window relates the controller before
    /// (`self`) and after (`post`).
    pub open spec fn ram_written(self, post: Mbc3, addr: u16, data: u8) -> bool {
        let sel = self.ram_bank_or_rtc;
        &&& !self.enable_ram_rtc ==> post == self
        &&& self.enable_ram_rtc ==> post.ext_ram@ == (if sel <= 0x03 {
            self.ext_ram@.update(self.ram_index(addr), data)
        } else {
            self.ext_ram@
        })
        &&& self.enable_ram_rtc ==> (Mbc3 { ext_ram: self.ext_ram, ..post }) == (if sel == 0x08 {
            Mbc3 { rtc_seconds: data, ..self }
        } else if sel == 0x09 {
            Mbc3 { rtc_minutes: data, ..self }
        } else if sel == 0x0A {
            Mbc3 { rtc_hours: data, ..self }
        } else if sel == 0x0B {
            Mbc3 { rtc_dl: data, ..self }
        } else if sel == 0x0C {
            Mbc3 { rtc_dh: data, ..self }
        } else {
            self
        })
    }

    pub fn new() -> (r: Mbc3)
        ensures
            r.wf(),
            r.rom_bank == 1 && r.ram_bank_or_rtc == 0 && !r.enable_ram_rtc,
            r.rtc_seconds == 0 && r.rtc_minutes == 0 && r.rtc_hours == 0,
            r.rtc_dl == 0 && r.rtc_dh == 0,
            r.ext_ram@ == Seq::new(BANKED_RAM_SIZE as nat, |i: int| 0u8),
    {
        Mbc3 {
            rom_bank: 1,
            ram_bank_or_rtc: 0,
            ext_ram: zeroed(BANKED_RAM_SIZE),
            enable_ram_rtc: false,
            rtc_seconds: 0,
            rtc_minutes: 0,
            rtc_hours: 0,
            rtc_dl: 0,
            rtc_dh: 0,
        }
    }

    pub fn read_rom(&self, rom: &Rom, addr: u16) -> (r: u8)
        requires
            self.wf(),
            addr < 0x8000,
        ensures
            r == self.read_rom_spec(*rom, addr),
    {
        if addr < 0x4000 {
            rom.get_byte(addr as usize)
        } else {
            rom.get_byte(self.rom_bank * ROM_BANK_SIZE + (addr as usize - 0x4000))
        }
    }

    pub fn read_ram(&self, addr: u16) -> (r: u8)
        requires
            self.wf(),
            addr < 0x2000,
        ensures
            r == self.read_ram_spec(addr),
    {
        let sel = self.ram_bank_or_rtc;
        if sel <= 0x03 {
            self.ext_ram[sel as usize * RAM_BANK_SIZE + addr as usize]
        } else if sel == 0x08 {
            self.rtc_seconds
        } else if sel == 0x09 {
            self.rtc_minutes
        } else if sel == 0x0A {
            self.rtc_hours
        } else if sel == 0x0B {
            self.rtc_dl
        } else if sel == 0x0C {
            self.rtc_dh
        } else {
            0
        }
    }

    /// While enabled, stores into the RAM bank or clock register that the
    /// selector names; a selector that names neither drops the write.
    pub fn write_ram(&mut self, addr: u16, data: u8)
        requires
            old(self).wf(),
            addr < 0x2000,
        ensures
            final(self).wf(),
            old(self).ram_written(*final(self), addr, data),
    {
        if self.enable_ram_rtc {
            let sel = self.ram_bank_or_rtc;
            if sel <= 0x03 {
                self.ext_ram.set(sel as usize * RAM_BANK_SIZE + addr as usize, data);
            } else if sel == 0x08 {
                self.rtc_seconds = data;
            } else if sel == 0x09 {
                self.rtc_minutes = data;
            } else if sel == 0x0A {
                self.rtc_hours = data;
            } else if sel == 0x0B {
                self.rtc_dl = data;
            } else if sel == 0x0C {
                self.rtc_dh = data;
            }
        }
    }

    pub fn handle_bank(&mut self, addr: u16, data: u8)
        requires
            old(self).wf(),
        ensures
            final(self).wf(),
            *final(self) == old(self).bank_written(addr, data),
    {
        if addr < 0x2000 {
            self.enable_ram_rtc = data % 16 == 0x0A;
        } else if addr < 0x4000 {
            self.rom_bank = if data % 128 == 0 { 1 } else { (data % 128) as usize };
        } else if addr < 0x6000 {
            self.ram_bank_or_rtc = data;
        }
    }
}

/// Type 5: a nine-bit ROM bank written in two parts, and sixteen RAM banks.
pub struct Mbc5 {
    pub rom_bank: usize,
    pub ram_bank: usize,
    pub ext_ram: Vec<u8>,
    pub enable_ram: bool,
}

impl Mbc5 {
    pub open spec fn wf(&self) -> bool {
        &&& 1 <= self.rom_bank < 512
        &&& self.ram_bank < 16
        &&& self.ext_ram@.len() == MBC5_RAM_SIZE
    }

    pub open spec fn read_rom_spec(&self, rom: Rom, addr: u16) -> u8 {
        banked_rom_byte(rom, self.rom_bank as int, addr)
    }

    pub open spec fn ram_index(&self, addr: u16) -> int {
        self.ram_bank * RAM_BANK_SIZE + addr
    }

    /// A bank number of 0 is taken as 1.
    pub open spec fn non_zero_bank(bank: int) -> usize {
        if bank == 0 { 1 } else { bank as usize }
    }

    /// 0x2000–0x2FFF sets the low eight ROM-bank bits, 0x3000–0x3FFF the ninth
    /// from the data's low bit, 0x4000–0x5FFF the RAM bank (RAM bank 0 is valid).
    pub open spec fn bank_written(self, addr: u16, data: u8) -> Mbc5 {
        if addr < 0x2000 {
            Mbc5 { enable_ram: enables_ram(data), ..self }
        } else if addr < 0x3000 {
            Mbc5 { rom_bank: Self::non_zero_bank(self.rom_bank / 256 * 256 + data), ..self }
        } else if addr < 0x4000 {
            Mbc5 { rom_bank: Self::non_zero_bank((data % 2) * 256 + self.rom_bank % 256), ..self }
        } else if addr < 0x6000 {
            Mbc5 { ram_bank: (data % 16) as usize, ..self }
        } else {
            self
        }
    }

    pub fn new() -> (r: Mbc5)
        ensures
            r.wf(),
            r.rom_bank == 1 && r.ram_bank == 0 && !r.enable_ram,
            r.ext_ram@ == Seq::new(MBC5_RAM_SIZE as nat, |i: int| 0u8),
    {
        Mbc5 { rom_bank: 1, ram_bank: 0, ext_ram: zeroed(MBC5_RAM_SIZE), enable_ram: false }
    }

    pub fn read_rom(&self, rom: &Rom, addr: u16) -> (r: u8)
        requires
            self.wf(),
            addr < 0x8000,
        ensures
            r == self.read_rom_spec(*rom, addr),
    {
        if addr < 0x4000 {
            rom.get_byte(addr as usize)
        } else {
            rom.get_byte(self.rom_bank * ROM_BANK_SIZE + (addr as usize - 0x4000))
        }
    }

    pub fn read_ram(&self, addr: u16) -> (r: u8)
        requires
            self.wf(),
            addr < 0x2000,
        ensures
            r == self.ext_ram@[self.ram_index(addr)],
    {
        self.ext_ram[self.ram_bank * RAM_BANK_SIZE + addr as usize]
    }

    pub fn write_ram(&mut self, addr: u16, data: u8)
        requires
            old(self).wf(),
            addr < 0x2000,
        ensures
            final(self).wf(),
            final(self).ext_ram@ == (if old(self).enable_ram {
                old(self).ext_ram@.update(old(self).ram_index(addr), data)
            } else {
                old(self).ext_ram@
            }),
            (Mbc5 { ext_ram: old(self).ext_ram, ..*final(self) }) == *old(self),
            !old(self).enable_ram ==> *final(self) == *old(self),
    {
        if self.enable_ram {
            let i = self.ram_bank * RAM_BANK_SIZE + addr as usize;
            self.ext_ram.set(i, data);
        }
    }

    pub fn handle_bank(&mut self, addr: u16, data: u8)
        requires
            old(self).wf(),
        ensures
            final(self).wf(),
            *final(self) == old(self).bank_written(addr, data),
    {
        if addr < 0x2000 {
            self.enable_ram = data % 16 == 0x0A;
        } else if addr < 0x3000 {
            let bank = self.rom_bank / 256 * 256 + data as usize;
            self.rom_bank = if bank == 0 { 1 } else { bank };
        } else if addr < 0x4000 {
            let bank = (data % 2) as usize * 256 + self.rom_bank % 256;
            self.rom_bank = if bank == 0 { 1 } else { bank };
        } else if addr < 0x6000 {
            self.ram_bank = (data % 16) as usize;
        }
    }
}

/// The bank controller of a cartridge: one of the four variants.
pub enum Mbc {
    Type1(Mbc1),
    Type2(Mbc2),
    Type3(Mbc3),
    Type5(Mbc5),
}

impl Mbc {
    pub open spec fn wf(&self) -> bool {
        match self {
            Mbc::Type1(m) => m.wf(),
            Mbc::Type2(m) => m.wf(),
            Mbc::Type3(m) => m.wf(),
            Mbc::Type5(m) => m.wf(),
        }
    }

    pub open spec fn kind(&self) -> MbcType {
        match self {
            Mbc::Type1(_) => MbcType::MBC1,
            Mbc::Type2(_) => MbcType::MBC2,
            Mbc::Type3(_) => MbcType::MBC3,
            Mbc::Type5(_) => MbcType::MBC5,
        }
    }

    /// The external RAM buffer, as it is saved and restored.
    pub open spec fn ext_ram_spec(&self) -> Seq<u8> {
        match self {
            Mbc::Type1(m) => m.ext_ram@,
            Mbc::Type2(m) => m.ext_ram@,
            Mbc::Type3(m) => m.ext_ram@,
            Mbc::Type5(m) => m.ext_ram@,
        }
    }

    pub open spec fn read_rom_spec(&self, rom: Rom, addr: u16) -> u8 {
        match self {
            Mbc::Type1(m) => m.read_rom_spec(rom, addr),
            Mbc::Type2(m) => m.read_rom_spec(rom, addr),
            Mbc::Type3(m) => m.read_rom_spec(rom, addr),
            Mbc::Type5(m) => m.read_rom_spec(rom, addr),
        }
    }

    /// What the external-RAM window reads at an offset below 0x2000.
    pub open spec fn read_ram_spec(&self, addr: u16) -> u8 {
        match self {
            Mbc::Type1(m) => m.ext_ram@[m.ram_index(addr)],
            Mbc::Type2(m) => (m.ext_ram@[Mbc2::ram_index(addr)] % 16) as u8,
            Mbc::Type3(m) => m.read_ram_spec(addr),
            Mbc::Type5(m) => m.ext_ram@[m.ram_index(addr)],
        }
    }

    pub open spec fn bank_written(self, addr: u16, data: u8) -> Mbc {
        match self {
            Mbc::Type1(m) => Mbc::Type1(m.bank_written(addr, data)),
            Mbc::Type2(m) => Mbc::Type2(m.bank_written(addr, data)),
            Mbc::Type3(m) => Mbc::Type3(m.bank_written(addr, data)),
            Mbc::Type5(m) => Mbc::Type5(m.bank_written(addr, data)),
        }
    }

    /// Whether RAM writes are currently accepted.
    pub open spec fn ram_enabled(&self) -> bool {
        match self {
            Mbc::Type1(m) => m.enable_ram,
            Mbc::Type2(m) => m.enable_ram,
            Mbc::Type3(m) => m.enable_ram_rtc,
            Mbc::Type5(m) => m.enable_ram,
        }
    }

    /// How a write into the external-RAM window relates the controller before
    /// (`self`) and after (`post`): while RAM is disabled nothing changes;
    /// otherwise the byte lands where the variant's `write_ram` puts it and the
    /// bank state stays.
    pub open spec fn ram_written(self, post: Mbc, addr: u16, data: u8) -> bool {
        &&& post.kind() == self.kind()
        &&& !self.ram_enabled() ==> post == self
        &&& self.ram_enabled() && self.kind() != MbcType::MBC3 ==> post.read_ram_spec(addr) == (
        if self.kind() == MbcType::MBC2 {
            data % 16
        } else {
            data
        })
        &&& match (self, post) {
            (Mbc::Type1(a), Mbc::Type1(b)) => b.ext_ram@ == (if a.enable_ram {
                a.ext_ram@.update(a.ram_index(addr), data)
            } else {
                a.ext_ram@
            }) && (Mbc1 { ext_ram: a.ext_ram, ..b }) == a,
            (Mbc::Type2(a), Mbc::Type2(b)) => b.ext_ram@ == (if a.enable_ram {
                a.ext_ram@.update(Mbc2::ram_index(addr), data % 16)
            } else {
                a.ext_ram@
            }) && (Mbc2 { ext_ram: a.ext_ram, ..b }) == a,
            (Mbc::Type3(a), Mbc::Type3(b)) => a.ram_written(b, addr, data),
            (Mbc::Type5(a), Mbc::Type5(b)) => b.ext_ram@ == (if a.enable_ram {
                a.ext_ram@.update(a.ram_index(addr), data)
            } else {
                a.ext_ram@
            }) && (Mbc5 { ext_ram: a.ext_ram, ..b }) == a,
            _ => false,
        }
    }

    /// The same variant with the same bank state; only external RAM may differ.
    pub open spec fn same_bank_state(self, other: Mbc) -> bool {
        match (self, other) {
            (Mbc::Type1(a), Mbc::Type1(b)) => (Mbc1 { ext_ram: a.ext_ram, ..b }) == a,
            (Mbc::Type2(a), Mbc::Type2(b)) => (Mbc2 { ext_ram: a.ext_ram, ..b }) == a,
            (Mbc::Type3(a), Mbc::Type3(b)) => (Mbc3 { ext_ram: a.ext_ram, ..b }) == a,
            (Mbc::Type5(a), Mbc::Type5(b)) => (Mbc5 { ext_ram: a.ext_ram, ..b }) == a,
            _ => false,
        }
    }

    pub fn get_mbc_type(&self) -> (r: MbcType)
        ensures
            r == self.kind(),
    {
        match self {
            Mbc::Type1(_) => MbcType::MBC1,
            Mbc::Type2(_) => MbcType::MBC2,
            Mbc::Type3(_) => MbcType::MBC3,
            Mbc::Type5(_) => MbcType::MBC5,
        }
    }

    pub fn read_rom(&self, rom: &Rom, addr: u16) -> (r: u8)
        requires
            self.wf(),
            addr < 0x8000,
        ensures
            r == self.read_rom_spec(*rom, addr),
    {
        match self {
            Mbc::Type1(m) => m.read_rom(rom, addr),
            Mbc::Type2(m) => m.read_rom(rom, addr),
            Mbc::Type3(m) => m.read_rom(rom, addr),
            Mbc::Type5(m) => m.read_rom(rom, addr),
        }
    }

    pub fn read_ram(&self, addr: u16) -> (r: u8)
        requires
            self.wf(),
            addr < 0x2000,
        ensures
            r == self.read_ram_spec(addr),
    {
        match self {
            Mbc::Type1(m) => m.read_ram(addr),
            Mbc::Type2(m) => m.read_ram(addr),
            Mbc::Type3(m) => m.read_ram(addr),
            Mbc::Type5(m) => m.read_ram(addr),
        }
    }

    /// Stores into the external-RAM window; the variant's own `write_ram`
    /// says where the byte goes.
    pub fn write_ram(&mut self, addr: u16, data: u8)
        requires
            old(self).wf(),
            addr < 0x2000,
        ensures
            final(self).wf(),
            old(self).ram_written(*final(self), addr, data),
    {
        match self {
            Mbc::Type1(m) => m.write_ram(addr, data),
            Mbc::Type2(m) => m.write_ram(addr, data),
            Mbc::Type3(m) => m.write_ram(addr, data),
            Mbc::Type5(m) => m.write_ram(addr, data),
        }
    }

    /// A write into the ROM range: a control signal for the controller.
    pub fn handle_bank(&mut self, addr: u16, data: u8)
        requires
            old(self).wf(),
        ensures
            final(self).wf(),
            *final(self) == old(self).bank_written(addr, data),
    {
        match self {
            Mbc::Type1(m) => m.handle_bank(addr, data),
            Mbc::Type2(m) => m.handle_bank(addr, data),
            Mbc::Type3(m) => m.handle_bank(addr, data),
            Mbc::Type5(m) => m.handle_bank(addr, data),
        }
    }

    pub fn get_ext_ram(&self) -> (r: &[u8])
        ensures
            r@ == self.ext_ram_spec(),
    {
        match self {
            Mbc::Type1(m) => m.ext_ram.as_slice(),
            Mbc::Type2(m) => m.ext_ram.as_slice(),
            Mbc::Type3(m) => m.ext_ram.as_slice(),
            Mbc::Type5(m) => m.ext_ram.as_slice(),
        }
    }

    /// Restores external RAM from a save image: the image's bytes over the
    /// start of the buffer, as far as both reach; nothing else changes.
    pub fn load_ext_ram(&mut self, buffer: &[u8])
        requires
            old(self).wf(),
        ensures
            final(self).wf(),
            final(self).ext_ram_spec() == loaded(old(self).ext_ram_spec(), buffer@),
            old(self).same_bank_state(*final(self)),
    {
        match self {
            Mbc::Type1(m) => {
                let n = m.ext_ram.len();
                load_into(&mut m.ext_ram, 0, n, buffer);
                assert(m.ext_ram@ =~= m.ext_ram@.subrange(0, n as int));
            },
            Mbc::Type2(m) => {
                let n = m.ext_ram.len();
                load_into(&mut m.ext_ram, 0, n, buffer);
                assert(m.ext_ram@ =~= m.ext_ram@.subrange(0, n as int));
            },
            Mbc::Type3(m) => {
                let n = m.ext_ram.len();
                load_into(&mut m.ext_ram, 0, n, buffer);
                assert(m.ext_ram@ =~= m.ext_ram@.subrange(0, n as int));
            },
            Mbc::Type5(m) => {
                let n = m.ext_ram.len();
                load_into(&mut m.ext_ram, 0, n, buffer);
                assert(m.ext_ram@ =~= m.ext_ram@.subrange(0, n as int));
            },
        }
    }
}

/// The controller that the cartridge's type code asks for, in its power-on
/// state: bank state reset and external RAM zeroed.
pub open spec fn is_power_on_mbc(rom: Rom, r: Option<Mbc>) -> bool {
    &&& r.is_none() <==> mbc_type_of_code(rom.cartridge_type_spec()).is_none()
    &&& r matches Some(m) ==> {
        &&& m.wf()
        &&& Some(m.kind()) == mbc_type_of_code(rom.cartridge_type_spec())
        &&& m.ext_ram_spec() == Seq::new(m.ext_ram_spec().len(), |i: int| 0u8)
        &&& m.bank_state_is_reset(rom)
    }
}

/// The controller that a cartridge's type code asks for, in its power-on
/// state; `None` for an unrecognised code, which leaves the cartridge unbanked.
pub fn get_mbc(rom: &Rom) -> (r: Option<Mbc>)
    ensures
        is_power_on_mbc(*rom, r),
{
    let code = rom.get_cartridge_type();
    if 0x01 <= code && code <= 0x03 {
        Some(Mbc::Type1(Mbc1::new(rom)))
    } else if code == 0x05 || code == 0x06 {
        Some(Mbc::Type2(Mbc2::new()))
    } else if 0x0F <= code && code <= 0x13 {
        Some(Mbc::Type3(Mbc3::new()))
    } else if 0x19 <= code && code <= 0x1E {
        Some(Mbc::Type5(Mbc5::new()))
    } else {
        None
    }
}

impl Mbc {
    /// ROM bank 1 selected, RAM bank 0, RAM disabled.
    pub open spec fn bank_state_is_reset(&self, rom: Rom) -> bool {
        match self {
            Mbc::Type1(m) => m.rom_bank == 1 && m.ram_bank == 0 && !m.enable_ram
                && m.banking_mode == BankingMode::ROM && m.number_of_rom_banks
                == rom.number_banks_spec(),
            Mbc::Type2(m) => m.rom_bank == 1 && !m.enable_ram,
            Mbc::Type3(m) => m.rom_bank == 1 && m.ram_bank_or_rtc == 0 && !m.enable_ram_rtc
                && m.rtc_seconds == 0 && m.rtc_minutes == 0 && m.rtc_hours == 0 && m.rtc_dl == 0
                && m.rtc_dh == 0,
            Mbc::Type5(m) => m.rom_bank == 1 && m.ram_bank == 0 && !m.enable_ram,
        }
    }
}

/// Writing 0x00 into the ROM-bank window of a type 1 controller never selects
/// bank 0: the low five bank bits become 1, so the bank is exactly 1 whenever
/// no upper bank bits are set.
pub proof fn lemma_mbc1_bank_zero_write(m: Mbc1, addr: u16)
    requires
        m.wf(),
        0x2000 <= addr < 0x4000,
    ensures
        m.bank_written(addr, 0).rom_bank != 0,
        m.bank_written(addr, 0).rom_bank % 32 == 1,
        m.rom_bank < 32 ==> m.bank_written(addr, 0).rom_bank == 1,
{
}

} // verus!
