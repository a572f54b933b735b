use emulator::alu::{add_with_flags, alu_op, daa_with_flags, shift_op, sub_with_flags};
use emulator::cpu::{cpu, CpuError};
use emulator::joypad::{Joypad, JoypadMode, A_BUTTON, DOWN_BUTTON, START_BUTTON};
use emulator::mbc::{get_mbc, Mbc, MbcType};
use emulator::mmu::Mmu;
use emulator::register::{cpu_flags, registers, FlagRegister};
use emulator::rom::Rom;

/// A cartridge image of `banks` 16 KiB banks whose every byte names its bank,
/// with the given type and size codes in the header.
fn banked_image(banks: usize, kind: u8, size_code: u8) -> Vec<u8> {
    let mut data = Vec::new();
    for bank in 0..banks {
        for i in 0..0x4000usize {
            data.push(((bank * 7 + i) % 251) as u8);
        }
    }
    data[0x0147] = kind;
    data[0x0148] = size_code;
    data
}

/// An unbanked 32 KiB image with `program` at 0x0100.
fn program_image(program: &[u8]) -> Vec<u8> {
    let mut data = vec![0u8; 0x8000];
    for (i, b) in program.iter().enumerate() {
        data[0x0100 + i] = *b;
    }
    data[0x0147] = 0x00;
    data[0x0148] = 0x00;
    data
}

fn cpu_with_program(program: &[u8]) -> cpu {
    cpu::new(Rom::from_bytes(program_image(program)))
}

#[test]
fn add_sets_half_carry_from_low_nibble() {
    let (r, fl) = add_with_flags(0x0F, 0x01, false);
    assert_eq!(r, 0x10);
    assert!(!fl.zero);
    assert!(!fl.subtract);
    assert!(fl.half_carry);
    assert!(!fl.carry);
}

#[test]
fn add_wraps_to_zero_with_all_carries() {
    let (r, fl) = add_with_flags(0xFF, 0x01, false);
    assert_eq!(r, 0x00);
    assert!(fl.zero && fl.half_carry && fl.carry && !fl.subtract);
    let (r, fl) = add_with_flags(0x80, 0x7F, true);
    assert_eq!(r, 0x00);
    assert!(fl.zero && fl.half_carry && fl.carry);
    let (r, fl) = add_with_flags(0x12, 0x34, true);
    assert_eq!(r, 0x47);
    assert!(!fl.zero && !fl.half_carry && !fl.carry);
}

#[test]
fn sub_borrows() {
    let (r, fl) = sub_with_flags(0x10, 0x01, false);
    assert_eq!(r, 0x0F);
    assert!(fl.subtract && fl.half_carry && !fl.carry && !fl.zero);
    let (r, fl) = sub_with_flags(0x00, 0x00, true);
    assert_eq!(r, 0xFF);
    assert!(fl.carry && fl.half_carry);
    let (r, fl) = sub_with_flags(0x42, 0x42, false);
    assert_eq!(r, 0);
    assert!(fl.zero && !fl.carry);
}

#[test]
fn compare_keeps_accumulator() {
    let (r, fl) = alu_op(7, 0x3C, 0x40, false);
    assert_eq!(r, 0x3C);
    assert!(fl.carry && fl.subtract && !fl.zero);
    let (r, fl) = alu_op(4, 0xF0, 0x0F, true);
    assert_eq!(r, 0);
    assert!(fl.zero && fl.half_carry && !fl.carry);
}

#[test]
fn shifts_and_swap() {
    assert_eq!(shift_op(0, 0x85, false).0, 0x0B);
    assert!(shift_op(0, 0x85, false).1.carry);
    assert_eq!(shift_op(3, 0x01, true).0, 0x80);
    assert_eq!(shift_op(5, 0x81, false).0, 0xC0);
    assert_eq!(shift_op(6, 0xAB, false).0, 0xBA);
    assert_eq!(shift_op(7, 0x01, false).0, 0x00);
    assert!(shift_op(7, 0x01, false).1.zero);
}

#[test]
fn decimal_adjust_after_addition() {
    // 0x15 + 0x27 = 0x3C, which adjusts to 0x42.
    let (sum, fl) = add_with_flags(0x15, 0x27, false);
    let (r, fl) = daa_with_flags(sum, fl);
    assert_eq!(r, 0x42);
    assert!(!fl.carry);
}

#[test]
fn flags_convert_to_and_from_byte() {
    let all = FlagRegister { zero: true, subtract: true, half_carry: true, carry: true };
    assert_eq!(u8::from(all), 0xF0);
    let fl = FlagRegister::from(0xA5u8);
    assert!(fl.zero && !fl.subtract && fl.half_carry && !fl.carry);
    assert_eq!(u8::from(fl), 0xA0);
}

#[test]
fn power_on_registers() {
    let r = registers::new();
    assert_eq!(r.a, 0x01);
    assert_eq!(r.f(), 0xB0);
    assert_eq!(r.b, 0x00);
    assert_eq!(r.c, 0x13);
    assert_eq!(r.d, 0x00);
    assert_eq!(r.e, 0xD8);
    assert_eq!(r.h, 0x01);
    assert_eq!(r.l, 0x4D);
    assert_eq!(r.pc(), 0x0100);
    assert_eq!(r.sp(), 0xFFFE);
    assert_eq!(r.af(), 0x01B0);
    assert_eq!(r.bc(), 0x0013);
    assert_eq!(r.de(), 0x00D8);
    assert_eq!(r.hl(), 0x014D);
}

#[test]
fn register_pairs_round_trip() {
    let mut r = registers::new();
    r.setbc(0x1234);
    assert_eq!(r.bc(), 0x1234);
    assert_eq!(r.b, 0x12);
    assert_eq!(r.c, 0x34);
    let v = r.bc();
    r.setbc(v);
    assert_eq!(r.bc(), 0x1234);
    r.setde(0xBEEF);
    assert_eq!(r.de(), 0xBEEF);
    r.sethl(0xFFFF);
    assert_eq!(r.hl(), 0xFFFF);
    r.setaf(0x12FF);
    assert_eq!(r.af(), 0x12F0);
    assert_eq!(r.f() & 0x0F, 0);
}

#[test]
fn hl_post_increment_and_decrement_wrap() {
    let mut r = registers::new();
    r.sethl(0xFFFF);
    assert_eq!(r.hli(), 0xFFFF);
    assert_eq!(r.hl(), 0x0000);
    assert_eq!(r.hld(), 0x0000);
    assert_eq!(r.hl(), 0xFFFF);
}

#[test]
fn single_flags() {
    let mut r = registers::new();
    r.flag(cpu_flags::Z, false);
    assert!(!r.getflag(cpu_flags::Z));
    assert_eq!(r.f(), 0x30);
    r.flag(cpu_flags::N, true);
    assert!(r.getflag(cpu_flags::N));
    assert_eq!(r.f(), 0x70);
}

#[test]
fn rom_bank_counts() {
    let expected: [(u8, u16); 13] = [
        (0x00, 1),
        (0x01, 4),
        (0x02, 8),
        (0x03, 16),
        (0x04, 32),
        (0x05, 64),
        (0x06, 128),
        (0x07, 256),
        (0x08, 512),
        (0x52, 72),
        (0x53, 80),
        (0x54, 96),
        (0x30, 2),
    ];
    for (code, banks) in expected.iter() {
        let mut data = vec![0u8; 0x150];
        data[0x0148] = *code;
        assert_eq!(Rom::from_bytes(data).get_number_banks(), *banks);
    }
}

#[test]
fn rom_header_and_bytes() {
    let rom = Rom::from_bytes(banked_image(2, 0x13, 0x00));
    assert_eq!(rom.get_cartridge_type(), 0x13);
    assert_eq!(rom.length(), 0x8000);
    assert_eq!(rom.get_byte(0x4001), ((7 + 1) % 251) as u8);
    assert_eq!(rom.get_byte(0x8000), 0xFF);
}

#[test]
fn joypad_nibbles() {
    let mut j = Joypad::new();
    assert_eq!(j.get_button_mode(JoypadMode::ACTION), 0x0F);
    j.set_button_press(A_BUTTON);
    j.set_button_press(START_BUTTON);
    assert_eq!(j.get_button_press(A_BUTTON), 0);
    assert_eq!(j.get_button_mode(JoypadMode::ACTION), 0b0110);
    assert_eq!(j.get_button_mode(JoypadMode::DIRECTION), 0x0F);
    j.set_button_press(DOWN_BUTTON);
    assert_eq!(j.get_button_mode(JoypadMode::DIRECTION), 0b0111);
    j.reset_button_state(A_BUTTON);
    assert_eq!(j.get_button_press(A_BUTTON), 1);
    assert_eq!(j.get_button_mode(JoypadMode::ACTION), 0b0111);
}

fn plain_bus() -> Mmu {
    let mut m = Mmu::init(Rom::from_bytes(program_image(&[])), Joypad::new());
    m.reset();
    m
}

#[test]
fn echo_ram_mirrors_working_ram() {
    let mut m = plain_bus();
    m.bus_write(0xC123, 0x5A);
    assert_eq!(m.bus_read(0xE123), 0x5A);
    m.bus_write(0xFDFF, 0x77);
    assert_eq!(m.bus_read(0xDDFF), 0x77);
    m.bus_write(0xE000, 0x11);
    assert_eq!(m.bus_read(0xC000), 0x11);
}

#[test]
fn unusable_range_reads_sentinel() {
    let mut m = plain_bus();
    m.bus_write(0xFEA0, 0x12);
    assert_eq!(m.bus_read(0xFEA0), 0xFF);
    assert_eq!(m.bus_read(0xFEFF), 0xFF);
    m.bus_write(0xFE9F, 0x12);
    assert_eq!(m.bus_read(0xFE9F), 0x12);
}

#[test]
fn reset_clears_io_and_raises_joypad() {
    let mut m = Mmu::init(Rom::from_bytes(program_image(&[0x3C])), Joypad::new());
    m.bus_write(0xFF05, 9);
    m.bus_write(0xFF40, 9);
    m.bus_write(0xFF80, 9);
    m.reset();
    assert_eq!(m.bus_read(0xFF05), 0);
    assert_eq!(m.bus_read(0xFF40), 0);
    assert_eq!(m.bus_read(0xFF80), 9);
    assert_eq!(m.bus_read(0xFF00), 0xFF);
    assert_eq!(m.bus_read(0x0100), 0x3C);
    assert!(m.mbc.is_none());
}

#[test]
fn joypad_register_shows_selected_group() {
    let mut m = plain_bus();
    m.set_button_state(A_BUTTON);
    m.bus_write(0xFF00, 0x10);
    assert_eq!(m.bus_read(0xFF00), 0x1E);
    m.bus_write(0xFF00, 0x20);
    assert_eq!(m.bus_read(0xFF00), 0x2F);
    m.reset_button_state(A_BUTTON);
    m.bus_write(0xFF00, 0x10);
    assert_eq!(m.bus_read(0xFF00), 0x1F);
    m.bus_write(0xFF00, 0x30);
    assert_eq!(m.bus_read(0xFF00), 0x3F);
}

#[test]
fn timer_registers() {
    let mut m = plain_bus();
    assert!(!m.timer_freq_is_changed());
    m.bus_write(0xFF07, 0x05);
    assert!(m.timer_freq_is_changed());
    assert_eq!(m.bus_read(0xFF07), 0x05);
    m.update_timer_freq(false);
    assert!(!m.timer_freq_is_changed());
    m.increment_division_register();
    m.increment_division_register();
    assert_eq!(m.bus_read(0xFF04), 2);
    m.bus_write(0xFF04, 0x99);
    assert_eq!(m.bus_read(0xFF04), 0);
    m.bus_write(0xFF05, 0xFF);
    m.increment_timer_register();
    assert_eq!(m.bus_read(0xFF05), 0);
    m.update_scanline();
    assert_eq!(m.bus_read(0xFF44), 1);
    m.reset_scanline();
    assert_eq!(m.bus_read(0xFF44), 0);
}

#[test]
fn unbanked_external_ram() {
    let mut m = plain_bus();
    m.bus_write(0xA010, 0x42);
    assert_eq!(m.bus_read(0xA010), 0x42);
    assert_eq!(m.get_ext_ram().len(), 0x2000);
    assert_eq!(m.get_ext_ram()[0x10], 0x42);
    m.load_ext_ram(&[1, 2, 3]);
    assert_eq!(m.bus_read(0xA000), 1);
    assert_eq!(m.bus_read(0xA002), 3);
    assert_eq!(m.bus_read(0xA010), 0x42);
    // Writes to ROM do nothing without a controller.
    m.bus_write(0x2000, 0x05);
    assert_eq!(m.bus_read(0x0100), 0x00);
}

#[test]
fn mbc1_cartridge_selects_banks() {
    let image = banked_image(8, 0x01, 0x02);
    let expected = image[5 * 0x4000];
    let mut m = Mmu::init(Rom::from_bytes(image), Joypad::new());
    m.reset();
    match &m.mbc {
        Some(mbc) => assert_eq!(mbc.get_mbc_type(), MbcType::MBC1),
        None => panic!("no controller"),
    }
    m.bus_write(0x0000, 0x0A);
    match &m.mbc {
        Some(Mbc::Type1(mbc)) => assert!(mbc.enable_ram),
        _ => panic!("not a type 1 controller"),
    }
    m.bus_write(0x2000, 0x05);
    match &m.mbc {
        Some(Mbc::Type1(mbc)) => assert_eq!(mbc.rom_bank, 5),
        _ => panic!("not a type 1 controller"),
    }
    assert_eq!(m.bus_read(0x4000), expected);
    m.bus_write(0xA005, 0x99);
    assert_eq!(m.bus_read(0xA005), 0x99);
    assert_eq!(m.get_ext_ram()[5], 0x99);
}

#[test]
fn mbc1_bank_zero_selects_bank_one() {
    let image = banked_image(8, 0x01, 0x02);
    let bank1 = image[0x4000];
    let mut m = Mmu::init(Rom::from_bytes(image), Joypad::new());
    m.reset();
    m.bus_write(0x2000, 0x03);
    m.bus_write(0x3FFF, 0x00);
    match &m.mbc {
        Some(Mbc::Type1(mbc)) => assert_eq!(mbc.rom_bank, 1),
        _ => panic!("not a type 1 controller"),
    }
    assert_eq!(m.bus_read(0x4000), bank1);
}

#[test]
fn mbc1_ram_banking_and_disabled_writes() {
    let mut m = Mmu::init(Rom::from_bytes(banked_image(4, 0x03, 0x01)), Joypad::new());
    m.reset();
    m.bus_write(0xA000, 0x12);
    assert_eq!(m.bus_read(0xA000), 0x00);
    m.bus_write(0x0000, 0x0A);
    m.bus_write(0x6000, 0x01);
    m.bus_write(0x4000, 0x02);
    m.bus_write(0xA000, 0x34);
    assert_eq!(m.get_ext_ram()[2 * 0x2000], 0x34);
    m.bus_write(0x4000, 0x00);
    assert_eq!(m.bus_read(0xA000), 0x00);
    m.bus_write(0x0000, 0x00);
    m.bus_write(0xA000, 0x56);
    assert_eq!(m.bus_read(0xA000), 0x00);
}

#[test]
fn mbc1_upper_bits_and_wrap() {
    let image = banked_image(4, 0x01, 0x01);
    let bank1 = image[0x4000 + 3];
    let mut m = Mmu::init(Rom::from_bytes(image), Joypad::new());
    m.reset();
    // Bank 0x21 on a four-bank cartridge wraps to bank 1.
    m.bus_write(0x4000, 0x01);
    match &m.mbc {
        Some(Mbc::Type1(mbc)) => assert_eq!(mbc.rom_bank, 0x21),
        _ => panic!("not a type 1 controller"),
    }
    assert_eq!(m.bus_read(0x4003), bank1);
}

#[test]
fn mbc2_address_bit_and_nibble_ram() {
    let image = banked_image(4, 0x05, 0x01);
    let bank3 = image[3 * 0x4000 + 1];
    let mut m = Mmu::init(Rom::from_bytes(image), Joypad::new());
    m.reset();
    m.bus_write(0x2100, 0x03);
    assert_eq!(m.bus_read(0x4001), bank3);
    m.bus_write(0x2100, 0x00);
    match &m.mbc {
        Some(Mbc::Type2(mbc)) => assert_eq!(mbc.rom_bank, 1),
        _ => panic!("not a type 2 controller"),
    }
    m.bus_write(0x0000, 0x0A);
    m.bus_write(0xA001, 0xAB);
    assert_eq!(m.bus_read(0xA001), 0x0B);
    assert_eq!(m.bus_read(0xA201), 0x0B);
    assert_eq!(m.get_ext_ram().len(), 0x200);
}

#[test]
fn mbc3_clock_registers() {
    let mut m = Mmu::init(Rom::from_bytes(banked_image(4, 0x10, 0x01)), Joypad::new());
    m.reset();
    m.bus_write(0x0000, 0x0A);
    m.bus_write(0x4000, 0x08);
    m.bus_write(0xA000, 0x2A);
    assert_eq!(m.bus_read(0xA000), 0x2A);
    m.bus_write(0x4000, 0x0C);
    m.bus_write(0xA000, 0x01);
    assert_eq!(m.bus_read(0xA000), 0x01);
    m.bus_write(0x4000, 0x08);
    assert_eq!(m.bus_read(0xA000), 0x2A);
    m.bus_write(0x4000, 0x05);
    assert_eq!(m.bus_read(0xA000), 0x00);
    m.bus_write(0x4000, 0x01);
    m.bus_write(0xA003, 0x66);
    assert_eq!(m.get_ext_ram()[0x2003], 0x66);
    m.bus_write(0x2000, 0x00);
    match &m.mbc {
        Some(Mbc::Type3(mbc)) => assert_eq!(mbc.rom_bank, 1),
        _ => panic!("not a type 3 controller"),
    }
}

#[test]
fn mbc5_nine_bit_bank() {
    let mut m = Mmu::init(Rom::from_bytes(banked_image(2, 0x19, 0x00)), Joypad::new());
    m.reset();
    m.bus_write(0x2000, 0x34);
    m.bus_write(0x3000, 0x01);
    match &m.mbc {
        Some(Mbc::Type5(mbc)) => assert_eq!(mbc.rom_bank, 0x134),
        _ => panic!("not a type 5 controller"),
    }
    // Past the end of a two-bank image the bus floats high.
    assert_eq!(m.bus_read(0x4000), 0xFF);
    m.bus_write(0x4000, 0x00);
    m.bus_write(0x0000, 0x0A);
    m.bus_write(0xA000, 0x10);
    assert_eq!(m.bus_read(0xA000), 0x10);
}

#[test]
fn unknown_cartridge_type_has_no_controller() {
    let rom = Rom::from_bytes(banked_image(2, 0x42, 0x00));
    assert!(get_mbc(&rom).is_none());
    let rom = Rom::from_bytes(banked_image(2, 0x1E, 0x00));
    match get_mbc(&rom) {
        Some(m) => assert_eq!(m.get_mbc_type(), MbcType::MBC5),
        None => panic!("no controller"),
    }
}

#[test]
fn save_image_restores_controller_ram() {
    let mut m = Mmu::init(Rom::from_bytes(banked_image(4, 0x03, 0x01)), Joypad::new());
    m.reset();
    let mut image = vec![0u8; 0x9000];
    image[0] = 7;
    image[0x7FFF] = 9;
    m.load_ext_ram(&image);
    assert_eq!(m.get_ext_ram().len(), 0x8000);
    assert_eq!(m.get_ext_ram()[0], 7);
    assert_eq!(m.get_ext_ram()[0x7FFF], 9);
    assert_eq!(m.bus_read(0xA000), 7);
}

#[test]
fn fresh_cpu_state() {
    let c = cpu_with_program(&[]);
    assert_eq!(c.reg.af(), 0x01B0);
    assert_eq!(c.reg.bc(), 0x0013);
    assert_eq!(c.reg.de(), 0x00D8);
    assert_eq!(c.reg.hl(), 0x014D);
    assert_eq!(c.reg.pc, 0x0100);
    assert_eq!(c.reg.sp, 0xFFFE);
    assert!(!c.halted);
}

#[test]
fn halt_waits_for_interrupt() {
    let mut c = cpu_with_program(&[0x76, 0x00]);
    assert_eq!(c.cycle(), Ok(1));
    assert!(c.halted);
    assert_eq!(c.reg.pc, 0x0101);
    for _ in 0..3 {
        assert_eq!(c.cycle(), Ok(1));
        assert!(c.halted);
        assert_eq!(c.reg.pc, 0x0101);
    }
    c.mmu.bus_write(0xFFFF, 0x04);
    c.mmu.bus_write(0xFF0F, 0x04);
    assert_eq!(c.cycle(), Ok(4));
    assert!(!c.halted);
    assert_eq!(c.reg.pc, 0x0050);
    assert_eq!(c.reg.sp, 0xFFFC);
    assert_eq!(c.mmu.bus_read(0xFFFC), 0x01);
    assert_eq!(c.mmu.bus_read(0xFFFD), 0x01);
    assert_eq!(c.mmu.bus_read(0xFF0F), 0x00);
    assert!(!c.ime);
}

#[test]
fn enable_interrupts_takes_effect_one_instruction_late() {
    let mut c = cpu_with_program(&[0xFB, 0x00, 0x00]);
    c.ime = false;
    c.mmu.bus_write(0xFFFF, 0x01);
    c.mmu.bus_write(0xFF0F, 0x01);
    assert_eq!(c.cycle(), Ok(1));
    assert_eq!(c.reg.pc, 0x0101);
    assert_eq!(c.cycle(), Ok(1));
    assert_eq!(c.reg.pc, 0x0102);
    assert_eq!(c.cycle(), Ok(4));
    assert_eq!(c.reg.pc, 0x0040);
}

#[test]
fn disable_interrupts_takes_effect_one_instruction_late() {
    let mut c = cpu_with_program(&[0xF3, 0x00, 0x00]);
    assert!(c.ime);
    assert_eq!(c.cycle(), Ok(1));
    assert!(c.ime);
    assert_eq!(c.cycle(), Ok(1));
    assert!(c.ime);
    c.mmu.bus_write(0xFFFF, 0x01);
    c.mmu.bus_write(0xFF0F, 0x01);
    assert_eq!(c.cycle(), Ok(1));
    assert!(!c.ime);
    assert_eq!(c.reg.pc, 0x0103);
}

#[test]
fn interrupt_priority_lowest_bit_first() {
    let mut c = cpu_with_program(&[0x00]);
    c.mmu.bus_write(0xFFFF, 0x1F);
    c.mmu.bus_write(0xFF0F, 0x0A);
    assert_eq!(c.cycle(), Ok(4));
    assert_eq!(c.reg.pc, 0x0048);
    assert_eq!(c.mmu.bus_read(0xFF0F), 0x08);
}

#[test]
fn undefined_opcode_fails() {
    let mut c = cpu_with_program(&[0xD3]);
    assert_eq!(c.cycle(), Err(CpuError::UnimplementedOpcode(0xD3)));
    let mut c = cpu_with_program(&[0xFD]);
    assert_eq!(c.do_cycle(), Err(CpuError::UnimplementedOpcode(0xFD)));
}

#[test]
fn ticks_are_four_per_machine_cycle() {
    // LD BC,0x1234 takes three machine cycles.
    let mut c = cpu_with_program(&[0x01, 0x34, 0x12]);
    assert_eq!(c.do_cycle(), Ok(12));
    assert_eq!(c.reg.bc(), 0x1234);
    assert_eq!(c.reg.pc, 0x0103);
}

#[test]
fn loads_and_arithmetic() {
    // LD A,0x0F; LD B,0x01; ADD A,B; LD HL,0xC000; LD (HL),A; INC (HL); LD C,(HL)
    let mut c = cpu_with_program(&[0x3E, 0x0F, 0x06, 0x01, 0x80, 0x21, 0x00, 0xC0, 0x77, 0x34, 0x4E]);
    assert_eq!(c.cycle(), Ok(2));
    assert_eq!(c.cycle(), Ok(2));
    assert_eq!(c.cycle(), Ok(1));
    assert_eq!(c.reg.a, 0x10);
    assert!(c.reg.getflag(cpu_flags::H));
    assert!(!c.reg.getflag(cpu_flags::Z));
    assert_eq!(c.cycle(), Ok(3));
    assert_eq!(c.cycle(), Ok(2));
    assert_eq!(c.mmu.bus_read(0xC000), 0x10);
    assert_eq!(c.cycle(), Ok(3));
    assert_eq!(c.mmu.bus_read(0xC000), 0x11);
    assert_eq!(c.cycle(), Ok(2));
    assert_eq!(c.reg.c, 0x11);
}

#[test]
fn push_pop_call_return() {
    // LD BC,0xBEEF; PUSH BC; POP DE; CALL 0x0110; ... at 0x0110: RET
    let mut program = vec![0x01, 0xEF, 0xBE, 0xC5, 0xD1, 0xCD, 0x10, 0x01];
    program.resize(0x10, 0x00);
    program.push(0xC9);
    let mut c = cpu_with_program(&program);
    c.cycle().unwrap();
    assert_eq!(c.cycle(), Ok(4));
    assert_eq!(c.reg.sp, 0xFFFC);
    assert_eq!(c.mmu.bus_read(0xFFFD), 0xBE);
    assert_eq!(c.mmu.bus_read(0xFFFC), 0xEF);
    assert_eq!(c.cycle(), Ok(3));
    assert_eq!(c.reg.de(), 0xBEEF);
    assert_eq!(c.reg.sp, 0xFFFE);
    assert_eq!(c.cycle(), Ok(6));
    assert_eq!(c.reg.pc, 0x0110);
    assert_eq!(c.cycle(), Ok(4));
    assert_eq!(c.reg.pc, 0x0108);
    assert_eq!(c.reg.sp, 0xFFFE);
}

#[test]
fn relative_jumps() {
    // XOR A (sets Z); JR Z,+2; NOP; NOP; JR -2 (to itself)
    let mut c = cpu_with_program(&[0xAF, 0x28, 0x02, 0x00, 0x00, 0x18, 0xFE]);
    c.cycle().unwrap();
    assert!(c.reg.getflag(cpu_flags::Z));
    assert_eq!(c.cycle(), Ok(3));
    assert_eq!(c.reg.pc, 0x0105);
    assert_eq!(c.cycle(), Ok(3));
    assert_eq!(c.reg.pc, 0x0105);
}

#[test]
fn extended_table() {
    // LD A,0xAB; SWAP A; BIT 7,A; SET 0,B; RES 4,C
    let mut c = cpu_with_program(&[0x3E, 0xAB, 0xCB, 0x37, 0xCB, 0x7F, 0xCB, 0xC0, 0xCB, 0xA1]);
    c.cycle().unwrap();
    assert_eq!(c.cycle(), Ok(2));
    assert_eq!(c.reg.a, 0xBA);
    c.cycle().unwrap();
    assert!(!c.reg.getflag(cpu_flags::Z));
    assert!(c.reg.getflag(cpu_flags::H));
    c.cycle().unwrap();
    assert_eq!(c.reg.b, 0x01);
    c.cycle().unwrap();
    assert_eq!(c.reg.c, 0x03);
}

#[test]
fn interrupt_return_reenables_at_once() {
    // RETI with 0x0150 on the stack.
    let mut c = cpu_with_program(&[0xD9]);
    c.ime = false;
    c.reg.sp = 0xFFF0;
    c.mmu.bus_write(0xFFF0, 0x50);
    c.mmu.bus_write(0xFFF1, 0x01);
    assert_eq!(c.cycle(), Ok(4));
    assert_eq!(c.reg.pc, 0x0150);
    assert!(c.ime);
}

#[test]
fn empty_cartridge_is_unbanked_and_floats_high() {
    let rom = Rom::from_bytes(Vec::new());
    assert_eq!(rom.length(), 0);
    assert_eq!(rom.get_cartridge_type(), 0xFF);
    assert_eq!(rom.get_number_banks(), 2);
    let mut c = cpu::new(rom);
    assert!(c.mmu.mbc.is_none());
    assert_eq!(c.mmu.bus_read(0x0100), 0xFF);
    // 0xFF is a restart to 0x0038.
    assert_eq!(c.cycle(), Ok(4));
    assert_eq!(c.reg.pc, 0x0038);
    assert_eq!(c.mmu.bus_read(0xFFFC), 0x01);
    assert_eq!(c.mmu.bus_read(0xFFFD), 0x01);
}

#[test]
fn empty_save_image_changes_nothing() {
    let mut m = Mmu::init(Rom::from_bytes(banked_image(2, 0x01, 0x00)), Joypad::new());
    m.reset();
    m.bus_write(0x0000, 0x0A);
    m.bus_write(0xA000, 0x12);
    m.load_ext_ram(&[]);
    assert_eq!(m.bus_read(0xA000), 0x12);
}

#[test]
fn post_increment_and_decrement_addressing() {
    // LD HL,0xC000; LD A,0x42; LD (HL+),A; LD (HL-),A; LD A,(HL-)
    let mut c = cpu_with_program(&[0x21, 0x00, 0xC0, 0x3E, 0x42, 0x22, 0x32, 0x3A]);
    c.cycle().unwrap();
    c.cycle().unwrap();
    assert_eq!(c.cycle(), Ok(2));
    assert_eq!(c.reg.hl(), 0xC001);
    assert_eq!(c.mmu.bus_read(0xC000), 0x42);
    assert_eq!(c.cycle(), Ok(2));
    assert_eq!(c.reg.hl(), 0xC000);
    assert_eq!(c.mmu.bus_read(0xC001), 0x42);
    c.reg.a = 0;
    assert_eq!(c.cycle(), Ok(2));
    assert_eq!(c.reg.a, 0x42);
    assert_eq!(c.reg.hl(), 0xBFFF);
}

#[test]
fn sixteen_bit_arithmetic() {
    // LD HL,0x0FFF; LD BC,0x0001; ADD HL,BC; DEC BC; DEC BC
    let mut c = cpu_with_program(&[0x21, 0xFF, 0x0F, 0x01, 0x01, 0x00, 0x09, 0x0B, 0x0B]);
    c.cycle().unwrap();
    c.cycle().unwrap();
    assert_eq!(c.cycle(), Ok(2));
    assert_eq!(c.reg.hl(), 0x1000);
    assert!(c.reg.getflag(cpu_flags::H));
    assert!(!c.reg.getflag(cpu_flags::C));
    assert!(!c.reg.getflag(cpu_flags::N));
    c.cycle().unwrap();
    assert_eq!(c.cycle(), Ok(2));
    assert_eq!(c.reg.bc(), 0xFFFF);
}

#[test]
fn stack_pointer_offsets() {
    // LD SP,0xFFF8; ADD SP,0x08; LD HL,SP-1; LD SP,HL; LD (0xC000),SP
    let mut c = cpu_with_program(&[0x31, 0xF8, 0xFF, 0xE8, 0x08, 0xF8, 0xFF, 0xF9, 0x08, 0x00, 0xC0]);
    c.cycle().unwrap();
    assert_eq!(c.cycle(), Ok(4));
    assert_eq!(c.reg.sp, 0x0000);
    assert!(c.reg.getflag(cpu_flags::C));
    assert!(c.reg.getflag(cpu_flags::H));
    assert!(!c.reg.getflag(cpu_flags::Z));
    assert_eq!(c.cycle(), Ok(3));
    assert_eq!(c.reg.hl(), 0xFFFF);
    assert_eq!(c.cycle(), Ok(2));
    assert_eq!(c.reg.sp, 0xFFFF);
    assert_eq!(c.cycle(), Ok(5));
    assert_eq!(c.mmu.bus_read(0xC000), 0xFF);
    assert_eq!(c.mmu.bus_read(0xC001), 0xFF);
}

#[test]
fn pop_af_drops_low_nibble() {
    // LD BC,0x12FF; PUSH BC; POP AF
    let mut c = cpu_with_program(&[0x01, 0xFF, 0x12, 0xC5, 0xF1]);
    c.cycle().unwrap();
    c.cycle().unwrap();
    assert_eq!(c.cycle(), Ok(3));
    assert_eq!(c.reg.af(), 0x12F0);
}

#[test]
fn conditional_jumps_and_calls_not_taken() {
    // SCF; JP NC,0x0200; CALL NC,0x0200; RET NC; CCF; JP NC,0x0150
    let mut c = cpu_with_program(&[0x37, 0xD2, 0x00, 0x02, 0xD4, 0x00, 0x02, 0xD0, 0x3F, 0xD2, 0x50, 0x01]);
    c.cycle().unwrap();
    assert!(c.reg.getflag(cpu_flags::C));
    assert_eq!(c.cycle(), Ok(3));
    assert_eq!(c.reg.pc, 0x0104);
    assert_eq!(c.cycle(), Ok(3));
    assert_eq!(c.reg.pc, 0x0107);
    assert_eq!(c.reg.sp, 0xFFFE);
    assert_eq!(c.cycle(), Ok(2));
    assert_eq!(c.reg.pc, 0x0108);
    c.cycle().unwrap();
    assert!(!c.reg.getflag(cpu_flags::C));
    assert_eq!(c.cycle(), Ok(4));
    assert_eq!(c.reg.pc, 0x0150);
}

#[test]
fn complement_and_high_page() {
    // LD A,0x5A; CPL; LDH (0x80),A; LD C,0x80; LD A,0; LD A,(C)
    let mut c = cpu_with_program(&[0x3E, 0x5A, 0x2F, 0xE0, 0x80, 0x0E, 0x80, 0x3E, 0x00, 0xF2]);
    c.cycle().unwrap();
    assert_eq!(c.cycle(), Ok(1));
    assert_eq!(c.reg.a, 0xA5);
    assert!(c.reg.getflag(cpu_flags::N) && c.reg.getflag(cpu_flags::H));
    assert_eq!(c.cycle(), Ok(3));
    assert_eq!(c.mmu.bus_read(0xFF80), 0xA5);
    c.cycle().unwrap();
    c.cycle().unwrap();
    assert_eq!(c.cycle(), Ok(2));
    assert_eq!(c.reg.a, 0xA5);
}

#[test]
fn decimal_adjust_after_subtraction() {
    // LD A,0x42; SUB 0x15; DAA  (42 - 15 = 27 in BCD)
    let mut c = cpu_with_program(&[0x3E, 0x42, 0xD6, 0x15, 0x27]);
    c.cycle().unwrap();
    assert_eq!(c.cycle(), Ok(2));
    assert_eq!(c.cycle(), Ok(1));
    assert_eq!(c.reg.a, 0x27);
    assert!(!c.reg.getflag(cpu_flags::C));
}

#[test]
fn accumulator_rotate_clears_zero() {
    // LD A,0x80; RLCA; XOR A; RLA
    let mut c = cpu_with_program(&[0x3E, 0x80, 0x07, 0xAF, 0x17]);
    c.cycle().unwrap();
    assert_eq!(c.cycle(), Ok(1));
    assert_eq!(c.reg.a, 0x01);
    assert!(c.reg.getflag(cpu_flags::C));
    c.cycle().unwrap();
    c.reg.flag(cpu_flags::C, false);
    c.cycle().unwrap();
    assert_eq!(c.reg.a, 0x00);
    assert!(!c.reg.getflag(cpu_flags::Z));
}

#[test]
fn extended_table_on_memory() {
    // LD HL,0xC000; LD (HL),0x0F; SWAP (HL); BIT 0,(HL); SRL (HL)
    let mut c = cpu_with_program(&[0x21, 0x00, 0xC0, 0x36, 0x0F, 0xCB, 0x36, 0xCB, 0x46, 0xCB, 0x3E]);
    c.cycle().unwrap();
    assert_eq!(c.cycle(), Ok(3));
    assert_eq!(c.cycle(), Ok(4));
    assert_eq!(c.mmu.bus_read(0xC000), 0xF0);
    assert_eq!(c.cycle(), Ok(3));
    assert!(c.reg.getflag(cpu_flags::Z));
    assert_eq!(c.cycle(), Ok(4));
    assert_eq!(c.mmu.bus_read(0xC000), 0x78);
    assert!(!c.reg.getflag(cpu_flags::C));
}

#[test]
fn program_counter_wraps() {
    let mut c = cpu_with_program(&[]);
    c.reg.pc = 0xFFFF;
    c.mmu.bus_write(0xFFFF, 0x00);
    c.ime = false;
    assert_eq!(c.cycle(), Ok(1));
    assert_eq!(c.reg.pc, 0x0000);
}

#[test]
fn stop_skips_its_second_byte() {
    let mut c = cpu_with_program(&[0x10, 0x00, 0x3C]);
    assert_eq!(c.cycle(), Ok(1));
    assert_eq!(c.reg.pc, 0x0102);
    c.cycle().unwrap();
    assert_eq!(c.reg.a, 0x02);
}
