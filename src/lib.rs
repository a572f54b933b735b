//! Processing core of an 8-bit handheld console built around the Sharp LR35902:
//! register file, flag arithmetic, cartridge bank controllers, the memory bus
//! and the fetch-decode-execute engine.
#![allow(non_camel_case_types)]

pub mod register;
pub mod alu;
pub mod rom;
pub mod joypad;
pub mod mbc;
pub mod mmu;
pub mod cpu;
