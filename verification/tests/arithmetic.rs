use cpu6502::cpu_6502::Cpu6502;
use cpu6502::flags::Flags6502;

const C: u8 = Flags6502::C;
const Z: u8 = Flags6502::Z;
const V: u8 = Flags6502::V;
const N: u8 = Flags6502::N;

/// A processor about to run the operation of `opcode` on `operand`, which
/// lies in memory at 0x0200.
fn with_operand(opcode: u8, operand: u8) -> Cpu6502 {
    let mut cpu = Cpu6502::new();
    cpu.opcode = opcode;
    cpu.addr_abs = 0x0200;
    cpu.bus.ram[0x0200] = operand;
    cpu
}

fn flags(cpu: &Cpu6502) -> (u8, u8, u8, u8) {
    (cpu.get_flag(N), cpu.get_flag(V), cpu.get_flag(Z), cpu.get_flag(C))
}

#[test]
fn adc_reports_signed_overflow() {
    let mut cpu = with_operand(0x6D, 0x50);
    cpu.a = 0x50;
    assert_eq!(cpu.adc(), 1);
    assert_eq!(cpu.a, 0xA0);
    assert_eq!(flags(&cpu), (1, 1, 0, 0));
}

#[test]
fn adc_carries_out_of_bit_seven() {
    let mut cpu = with_operand(0x6D, 0x01);
    cpu.a = 0xFF;
    cpu.adc();
    assert_eq!(cpu.a, 0x00);
    assert_eq!(flags(&cpu), (0, 0, 1, 1));
    assert_eq!(cpu.temp, 0x0100);
}

#[test]
fn adc_adds_the_carry_in() {
    let mut cpu = with_operand(0x6D, 0x01);
    cpu.a = 0x01;
    cpu.set_flag(C, true);
    cpu.adc();
    assert_eq!(cpu.a, 0x03);
    assert_eq!(flags(&cpu), (0, 0, 0, 0));
}

#[test]
fn adc_of_two_negatives_overflows() {
    let mut cpu = with_operand(0x6D, 0x80);
    cpu.a = 0x80;
    cpu.adc();
    assert_eq!(cpu.a, 0x00);
    assert_eq!(flags(&cpu), (0, 1, 1, 1));
}

#[test]
fn adc_of_mixed_signs_never_overflows() {
    let mut cpu = with_operand(0x6D, 0xFF);
    cpu.a = 0x7F;
    cpu.adc();
    assert_eq!(cpu.a, 0x7E);
    assert_eq!(flags(&cpu), (0, 0, 0, 1));
}

#[test]
fn adc_ignores_decimal_mode() {
    let mut cpu = with_operand(0x6D, 0x01);
    cpu.a = 0x09;
    cpu.set_flag(Flags6502::D, true);
    cpu.adc();
    assert_eq!(cpu.a, 0x0A);
    assert_eq!(cpu.get_flag(Flags6502::D), 1);
}

#[test]
fn adc_keeps_the_other_flags() {
    let mut cpu = with_operand(0x6D, 0x01);
    cpu.sr = Flags6502::U | Flags6502::I | Flags6502::D | Flags6502::B;
    cpu.a = 0x01;
    cpu.adc();
    assert_eq!(cpu.sr, Flags6502::U | Flags6502::I | Flags6502::D | Flags6502::B);
}

#[test]
fn sbc_borrows() {
    let mut cpu = with_operand(0xED, 0x01);
    cpu.a = 0x00;
    cpu.set_flag(C, true);
    assert_eq!(cpu.sbc(), 1);
    assert_eq!(cpu.a, 0xFF);
    assert_eq!(cpu.get_flag(C), 0);
    assert_eq!(cpu.get_flag(N), 1);
    assert_eq!(cpu.get_flag(Z), 0);
    assert_eq!(cpu.get_flag(V), 0);
}

#[test]
fn sbc_without_borrow() {
    let mut cpu = with_operand(0xED, 0x30);
    cpu.a = 0x50;
    cpu.set_flag(C, true);
    cpu.sbc();
    assert_eq!(cpu.a, 0x20);
    assert_eq!(flags(&cpu), (0, 0, 0, 1));
}

#[test]
fn sbc_takes_a_pending_borrow() {
    let mut cpu = with_operand(0xED, 0x30);
    cpu.a = 0x50;
    cpu.sbc();
    assert_eq!(cpu.a, 0x1F);
    assert_eq!(flags(&cpu), (0, 0, 0, 1));
}

#[test]
fn sbc_reports_signed_overflow() {
    let mut cpu = with_operand(0xED, 0x01);
    cpu.a = 0x80;
    cpu.set_flag(C, true);
    cpu.sbc();
    assert_eq!(cpu.a, 0x7F);
    assert_eq!(flags(&cpu), (0, 1, 0, 1));
}

#[test]
fn sbc_of_equal_values_is_zero() {
    let mut cpu = with_operand(0xED, 0x42);
    cpu.a = 0x42;
    cpu.set_flag(C, true);
    cpu.sbc();
    assert_eq!(cpu.a, 0x00);
    assert_eq!(flags(&cpu), (0, 0, 1, 1));
}

#[test]
fn and_masks_the_accumulator() {
    let mut cpu = with_operand(0x2D, 0x0F);
    cpu.a = 0x3C;
    assert_eq!(cpu.and(), 1);
    assert_eq!(cpu.a, 0x0C);
    assert_eq!(flags(&cpu), (0, 0, 0, 0));

    let mut cpu = with_operand(0x2D, 0xF0);
    cpu.a = 0x0F;
    cpu.and();
    assert_eq!(cpu.a, 0x00);
    assert_eq!(cpu.get_flag(Z), 1);

    let mut cpu = with_operand(0x2D, 0xF0);
    cpu.a = 0x9F;
    cpu.and();
    assert_eq!(cpu.a, 0x90);
    assert_eq!(cpu.get_flag(N), 1);
}

#[test]
fn ora_joins_bits() {
    let mut cpu = with_operand(0x0D, 0x81);
    cpu.a = 0x12;
    assert_eq!(cpu.ora(), 1);
    assert_eq!(cpu.a, 0x93);
    assert_eq!(flags(&cpu), (1, 0, 0, 0));

    let mut cpu = with_operand(0x0D, 0x00);
    cpu.ora();
    assert_eq!(cpu.a, 0x00);
    assert_eq!(cpu.get_flag(Z), 1);
}

#[test]
fn eor_flips_bits() {
    let mut cpu = with_operand(0x4D, 0xFF);
    cpu.a = 0x0F;
    assert_eq!(cpu.eor(), 1);
    assert_eq!(cpu.a, 0xF0);
    assert_eq!(flags(&cpu), (1, 0, 0, 0));

    let mut cpu = with_operand(0x4D, 0x55);
    cpu.a = 0x55;
    cpu.eor();
    assert_eq!(cpu.a, 0x00);
    assert_eq!(cpu.get_flag(Z), 1);
}

#[test]
fn cmp_orders_accumulator_and_operand() {
    let mut cpu = with_operand(0xCD, 0x10);
    cpu.a = 0x20;
    assert_eq!(cpu.cmp(), 1);
    assert_eq!(flags(&cpu), (0, 0, 0, 1));
    assert_eq!(cpu.a, 0x20);
    assert_eq!(cpu.temp, 0x0010);

    let mut cpu = with_operand(0xCD, 0x20);
    cpu.a = 0x20;
    cpu.cmp();
    assert_eq!(flags(&cpu), (0, 0, 1, 1));

    let mut cpu = with_operand(0xCD, 0x30);
    cpu.a = 0x20;
    cpu.cmp();
    assert_eq!(flags(&cpu), (1, 0, 0, 0));
    assert_eq!(cpu.temp, 0xFFF0);
}

#[test]
fn cmp_takes_negative_from_bit_seven_of_the_difference() {
    let mut cpu = with_operand(0xCD, 0x01);
    cpu.a = 0xFF;
    cpu.cmp();
    assert_eq!(flags(&cpu), (1, 0, 0, 1));

    let mut cpu = with_operand(0xCD, 0xFF);
    cpu.a = 0x01;
    cpu.cmp();
    assert_eq!(flags(&cpu), (0, 0, 0, 0));
}

#[test]
fn cpx_and_cpy_compare_the_index_registers() {
    let mut cpu = with_operand(0xEC, 0x05);
    cpu.x = 0x05;
    cpu.a = 0x01;
    assert_eq!(cpu.cpx(), 0);
    assert_eq!(flags(&cpu), (0, 0, 1, 1));

    let mut cpu = with_operand(0xCC, 0x05);
    cpu.y = 0x04;
    cpu.a = 0x09;
    assert_eq!(cpu.cpy(), 0);
    assert_eq!(flags(&cpu), (1, 0, 0, 0));
}

#[test]
fn asl_shifts_memory() {
    let mut cpu = with_operand(0x0E, 0x81);
    assert_eq!(cpu.asl(), 0);
    assert_eq!(cpu.bus.ram[0x0200], 0x02);
    assert_eq!(cpu.a, 0x00);
    assert_eq!(flags(&cpu), (0, 0, 0, 1));
    assert_eq!(cpu.temp, 0x0102);
}

#[test]
fn asl_shifts_the_accumulator() {
    let mut cpu = Cpu6502::new();
    cpu.opcode = 0x0A;
    cpu.a = 0x40;
    cpu.imp();
    cpu.asl();
    assert_eq!(cpu.a, 0x80);
    assert_eq!(flags(&cpu), (1, 0, 0, 0));

    let mut cpu = Cpu6502::new();
    cpu.opcode = 0x0A;
    cpu.a = 0x80;
    cpu.imp();
    cpu.asl();
    assert_eq!(cpu.a, 0x00);
    assert_eq!(flags(&cpu), (0, 0, 1, 1));
}

#[test]
fn lsr_shifts_right() {
    let mut cpu = with_operand(0x4E, 0x03);
    assert_eq!(cpu.lsr(), 0);
    assert_eq!(cpu.bus.ram[0x0200], 0x01);
    assert_eq!(flags(&cpu), (0, 0, 0, 1));

    let mut cpu = Cpu6502::new();
    cpu.opcode = 0x4A;
    cpu.a = 0x01;
    cpu.set_flag(N, true);
    cpu.imp();
    cpu.lsr();
    assert_eq!(cpu.a, 0x00);
    assert_eq!(flags(&cpu), (0, 0, 1, 1));

    let mut cpu = with_operand(0x4E, 0x80);
    cpu.set_flag(C, true);
    cpu.lsr();
    assert_eq!(cpu.bus.ram[0x0200], 0x40);
    assert_eq!(flags(&cpu), (0, 0, 0, 0));
}

#[test]
fn rol_rotates_through_the_carry() {
    let mut cpu = with_operand(0x2E, 0x80);
    cpu.set_flag(C, true);
    assert_eq!(cpu.rol(), 0);
    assert_eq!(cpu.bus.ram[0x0200], 0x01);
    assert_eq!(flags(&cpu), (0, 0, 0, 1));
    assert_eq!(cpu.temp, 0x0101);

    let mut cpu = with_operand(0x2E, 0x80);
    cpu.rol();
    assert_eq!(cpu.bus.ram[0x0200], 0x00);
    assert_eq!(flags(&cpu), (0, 0, 1, 1));

    let mut cpu = Cpu6502::new();
    cpu.opcode = 0x2A;
    cpu.a = 0x41;
    cpu.imp();
    cpu.rol();
    assert_eq!(cpu.a, 0x82);
    assert_eq!(flags(&cpu), (1, 0, 0, 0));
}

#[test]
fn ror_rotates_through_the_carry() {
    let mut cpu = with_operand(0x6E, 0x01);
    cpu.set_flag(C, true);
    assert_eq!(cpu.ror(), 0);
    assert_eq!(cpu.bus.ram[0x0200], 0x80);
    assert_eq!(flags(&cpu), (1, 0, 0, 1));

    let mut cpu = with_operand(0x6E, 0x01);
    cpu.ror();
    assert_eq!(cpu.bus.ram[0x0200], 0x00);
    assert_eq!(flags(&cpu), (0, 0, 1, 1));

    let mut cpu = Cpu6502::new();
    cpu.opcode = 0x6A;
    cpu.a = 0x82;
    cpu.imp();
    cpu.ror();
    assert_eq!(cpu.a, 0x41);
    assert_eq!(flags(&cpu), (0, 0, 0, 0));
}

#[test]
fn inc_and_dec_wrap_in_memory() {
    let mut cpu = with_operand(0xEE, 0xFF);
    assert_eq!(cpu.inc(), 0);
    assert_eq!(cpu.bus.ram[0x0200], 0x00);
    assert_eq!(flags(&cpu), (0, 0, 1, 0));

    let mut cpu = with_operand(0xEE, 0x7F);
    cpu.inc();
    assert_eq!(cpu.bus.ram[0x0200], 0x80);
    assert_eq!(flags(&cpu), (1, 0, 0, 0));

    let mut cpu = with_operand(0xCE, 0x00);
    assert_eq!(cpu.dec(), 0);
    assert_eq!(cpu.bus.ram[0x0200], 0xFF);
    assert_eq!(flags(&cpu), (1, 0, 0, 0));
    assert_eq!(cpu.temp, 0x00FF);

    let mut cpu = with_operand(0xCE, 0x01);
    cpu.set_flag(C, true);
    cpu.dec();
    assert_eq!(cpu.bus.ram[0x0200], 0x00);
    assert_eq!(flags(&cpu), (0, 0, 1, 1));
}

#[test]
fn index_registers_step_and_wrap() {
    let mut cpu = Cpu6502::new();
    cpu.x = 0xFF;
    assert_eq!(cpu.inx(), 0);
    assert_eq!(cpu.x, 0x00);
    assert_eq!(flags(&cpu), (0, 0, 1, 0));
    assert_eq!(cpu.dex(), 0);
    assert_eq!(cpu.x, 0xFF);
    assert_eq!(flags(&cpu), (1, 0, 0, 0));

    cpu.y = 0x7F;
    assert_eq!(cpu.iny(), 0);
    assert_eq!(cpu.y, 0x80);
    assert_eq!(flags(&cpu), (1, 0, 0, 0));
    assert_eq!(cpu.dey(), 0);
    assert_eq!(cpu.y, 0x7F);
    assert_eq!(flags(&cpu), (0, 0, 0, 0));
    cpu.y = 0x00;
    cpu.dey();
    assert_eq!(cpu.y, 0xFF);
    assert_eq!(cpu.x, 0xFF);
}

#[test]
fn bit_copies_the_top_bits_of_the_operand() {
    let mut cpu = with_operand(0x2C, 0xC0);
    cpu.a = 0x01;
    assert_eq!(cpu.bit(), 0);
    assert_eq!(flags(&cpu), (1, 1, 1, 0));
    assert_eq!(cpu.a, 0x01);

    let mut cpu = with_operand(0x2C, 0x41);
    cpu.a = 0x01;
    cpu.bit();
    assert_eq!(flags(&cpu), (0, 1, 0, 0));

    let mut cpu = with_operand(0x2C, 0x3F);
    cpu.sr = N | V;
    cpu.a = 0xFF;
    cpu.bit();
    assert_eq!(flags(&cpu), (0, 0, 0, 0));
}

#[test]
fn loads_set_zero_and_negative() {
    let mut cpu = with_operand(0xAD, 0x80);
    assert_eq!(cpu.lda(), 1);
    assert_eq!(cpu.a, 0x80);
    assert_eq!(flags(&cpu), (1, 0, 0, 0));

    let mut cpu = with_operand(0xAE, 0x00);
    cpu.x = 0x55;
    assert_eq!(cpu.ldx(), 1);
    assert_eq!(cpu.x, 0x00);
    assert_eq!(flags(&cpu), (0, 0, 1, 0));

    let mut cpu = with_operand(0xAC, 0x7F);
    assert_eq!(cpu.ldy(), 1);
    assert_eq!(cpu.y, 0x7F);
    assert_eq!(flags(&cpu), (0, 0, 0, 0));
}

#[test]
fn stores_write_the_register() {
    let mut cpu = with_operand(0x8D, 0x00);
    cpu.a = 0x11;
    cpu.x = 0x22;
    cpu.y = 0x33;
    assert_eq!(cpu.sta(), 0);
    assert_eq!(cpu.bus.ram[0x0200], 0x11);
    assert_eq!(cpu.stx(), 0);
    assert_eq!(cpu.bus.ram[0x0200], 0x22);
    assert_eq!(cpu.sty(), 0);
    assert_eq!(cpu.bus.ram[0x0200], 0x33);
    assert_eq!(cpu.sr, 0x00);
}

#[test]
fn transfers_copy_registers() {
    let mut cpu = Cpu6502::new();
    cpu.a = 0x80;
    assert_eq!(cpu.tax(), 0);
    assert_eq!(cpu.x, 0x80);
    assert_eq!(flags(&cpu), (1, 0, 0, 0));
    cpu.a = 0x00;
    assert_eq!(cpu.tay(), 0);
    assert_eq!(cpu.y, 0x00);
    assert_eq!(flags(&cpu), (0, 0, 1, 0));
    cpu.x = 0x12;
    assert_eq!(cpu.txa(), 0);
    assert_eq!(cpu.a, 0x12);
    assert_eq!(flags(&cpu), (0, 0, 0, 0));
    cpu.y = 0x90;
    assert_eq!(cpu.tya(), 0);
    assert_eq!(cpu.a, 0x90);
    assert_eq!(flags(&cpu), (1, 0, 0, 0));
    cpu.sp = 0x00;
    assert_eq!(cpu.tsx(), 0);
    assert_eq!(cpu.x, 0x00);
    assert_eq!(flags(&cpu), (0, 0, 1, 0));
}

#[test]
fn txs_changes_no_flag() {
    let mut cpu = Cpu6502::new();
    cpu.x = 0x00;
    cpu.sp = 0xFD;
    cpu.sr = N;
    assert_eq!(cpu.txs(), 0);
    assert_eq!(cpu.sp, 0x00);
    assert_eq!(cpu.sr, N);
}

#[test]
fn fetch_reads_memory_unless_implied() {
    let mut cpu = with_operand(0xAD, 0x99);
    cpu.fetched = 0x11;
    assert_eq!(cpu.fetch(), 0x99);
    assert_eq!(cpu.fetched, 0x99);

    let mut cpu = with_operand(0x0A, 0x99);
    cpu.fetched = 0x11;
    assert_eq!(cpu.fetch(), 0x11);
    assert_eq!(cpu.fetched, 0x11);
}

#[test]
fn flags_are_single_bits() {
    assert_eq!(Flags6502::C, 1 << 0);
    assert_eq!(Flags6502::Z, 1 << 1);
    assert_eq!(Flags6502::I, 1 << 2);
    assert_eq!(Flags6502::D, 1 << 3);
    assert_eq!(Flags6502::B, 1 << 4);
    assert_eq!(Flags6502::U, 1 << 5);
    assert_eq!(Flags6502::V, 1 << 6);
    assert_eq!(Flags6502::N, 1 << 7);
}

#[test]
fn set_flag_touches_one_bit() {
    let mut cpu = Cpu6502::new();
    cpu.sr = 0b1010_0101;
    cpu.set_flag(Flags6502::V, true);
    assert_eq!(cpu.sr, 0b1110_0101);
    assert_eq!(cpu.get_flag(Flags6502::V), 1);
    cpu.set_flag(Flags6502::C, false);
    assert_eq!(cpu.sr, 0b1110_0100);
    assert_eq!(cpu.get_flag(Flags6502::C), 0);
    cpu.set_flag(Flags6502::C, false);
    assert_eq!(cpu.sr, 0b1110_0100);
    assert_eq!(cpu.get_flag(Flags6502::N), 1);
    assert_eq!(cpu.get_flag(Flags6502::Z), 0);
}

#[test]
fn flag_instructions_set_and_clear() {
    let mut cpu = Cpu6502::new();
    assert_eq!(cpu.sec(), 0);
    assert_eq!(cpu.sed(), 0);
    assert_eq!(cpu.sei(), 0);
    assert_eq!(cpu.sr, Flags6502::C | Flags6502::D | Flags6502::I);
    assert_eq!(cpu.clc(), 0);
    assert_eq!(cpu.sr, Flags6502::D | Flags6502::I);
    assert_eq!(cpu.cld(), 0);
    assert_eq!(cpu.sr, Flags6502::I);
    assert_eq!(cpu.cli(), 0);
    assert_eq!(cpu.sr, 0);
    cpu.sr = 0xFF;
    assert_eq!(cpu.clv(), 0);
    assert_eq!(cpu.sr, 0xBF);
}
