//! The cartridge image and the two header fields read from it.
use vstd::prelude::*;

verus! {

/// Offset of the cartridge-type byte in the header.
pub const CARTRIDGE_TYPE_ADDR: usize = 0x0147;

/// Offset of the ROM-size code in the header.
pub const ROM_SIZE_ADDR: usize = 0x0148;

/// An immutable cartridge ROM image.
pub struct Rom {
    data: Vec<u8>,
}

/// The byte of an image at an offset; an offset past its end reads as 0xFF,
/// the value of an undriven bus.
pub open spec fn image_byte(data: Seq<u8>, addr: int) -> u8 {
    if 0 <= addr < data.len() {
        data[addr]
    } else {
        0xFF
    }
}

/// The number of 16 KiB ROM banks that a ROM-size code stands for.
pub open spec fn banks_of_code(code: u8) -> u16 {
    if code == 0x00 {
        1
    } else if code <= 0x08 {
        (1u16 << (code + 1)) as u16
    } else if code == 0x52 {
        72
    } else if code == 0x53 {
        80
    } else if code == 0x54 {
        96
    } else {
        2
    }
}

impl Rom {
    pub closed spec fn view(&self) -> Seq<u8> {
        self.data@
    }

    pub open spec fn byte_spec(&self, addr: int) -> u8 {
        image_byte(self@, addr)
    }

    pub open spec fn cartridge_type_spec(&self) -> u8 {
        self.byte_spec(CARTRIDGE_TYPE_ADDR as int)
    }

    pub open spec fn number_banks_spec(&self) -> u16 {
        banks_of_code(self.byte_spec(ROM_SIZE_ADDR as int))
    }

    /// A cartridge holding the given image.
    pub fn from_bytes(data: Vec<u8>) -> (r: Rom)
        ensures
            r@ == data@,
    {
        Rom { data }
    }

    pub fn get_byte(&self, addr: usize) -> (r: u8)
        ensures
            r == self.byte_spec(addr as int),
    {
        if addr < self.data.len() {
            self.data[addr]
        } else {
            0xFF
        }
    }

    /// The cartridge-type code, which selects the bank controller.
    pub fn get_cartridge_type(&self) -> (r: u8)
        ensures
            r == self.cartridge_type_spec(),
    {
        self.get_byte(CARTRIDGE_TYPE_ADDR)
    }

    pub fn length(&self) -> (r: usize)
        ensures
            r == self@.len(),
    {
        self.data.len()
    }

    /// The number of ROM banks that the header's size code declares.
    pub fn get_number_banks(&self) -> (r: u16)
        ensures
            r == self.number_banks_spec(),
            r >= 1,
    {
        let code = self.get_byte(ROM_SIZE_ADDR);
        let r: u16 = match code {
            0x00 => 1,
            0x01 => 4,
            0x02 => 8,
            0x03 => 16,
            0x04 => 32,
            0x05 => 64,
            0x06 => 128,
            0x07 => 256,
            0x08 => 512,
            0x52 => 72,
            0x53 => 80,
            0x54 => 96,
            _ => 2,
        };
        assert(1 <= code <= 8 ==> (1u16 << (code + 1)) == r) by (bit_vector)
            requires
                code == 1 ==> r == 4,
                code == 2 ==> r == 8,
                code == 3 ==> r == 16,
                code == 4 ==> r == 32,
                code == 5 ==> r == 64,
                code == 6 ==> r == 128,
                code == 7 ==> r == 256,
                code == 8 ==> r == 512,
        ;
        r
    }
}

} // verus!
