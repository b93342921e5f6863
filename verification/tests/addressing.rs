use cpu6502::cpu_6502::Cpu6502;
use cpu6502::instruction::AddrMode;

fn cpu_at(pc: u16, operand: &[u8]) -> Cpu6502 {
    let mut cpu = Cpu6502::new();
    cpu.pc = pc;
    let mut addr = pc;
    for b in operand {
        cpu.bus.ram[addr as usize] = *b;
        addr = addr.wrapping_add(1);
    }
    cpu
}

#[test]
fn implied_latches_the_accumulator() {
    let mut cpu = cpu_at(0x8000, &[]);
    cpu.a = 0x77;
    assert_eq!(cpu.imp(), 0);
    assert_eq!(cpu.fetched, 0x77);
    assert_eq!(cpu.pc, 0x8000);
}

#[test]
fn immediate_points_at_the_next_byte() {
    let mut cpu = cpu_at(0x8000, &[0x42]);
    assert_eq!(cpu.imm(), 0);
    assert_eq!(cpu.addr_abs, 0x8000);
    assert_eq!(cpu.pc, 0x8001);
}

#[test]
fn immediate_wraps_the_program_counter() {
    let mut cpu = cpu_at(0xFFFF, &[0x42]);
    assert_eq!(cpu.imm(), 0);
    assert_eq!(cpu.addr_abs, 0xFFFF);
    assert_eq!(cpu.pc, 0x0000);
}

#[test]
fn zero_page_reads_one_byte() {
    let mut cpu = cpu_at(0x8000, &[0xFE]);
    assert_eq!(cpu.zp0(), 0);
    assert_eq!(cpu.addr_abs, 0x00FE);
    assert_eq!(cpu.pc, 0x8001);
}

#[test]
fn zero_page_x_stays_in_page_zero() {
    let mut cpu = cpu_at(0x8000, &[0xF0]);
    cpu.x = 0x20;
    assert_eq!(cpu.zpx(), 0);
    assert_eq!(cpu.addr_abs, 0x0010);
    assert_eq!(cpu.pc, 0x8001);

    let mut cpu = cpu_at(0x8000, &[0x10]);
    cpu.x = 0x05;
    cpu.y = 0x50;
    assert_eq!(cpu.zpx(), 0);
    assert_eq!(cpu.addr_abs, 0x0015);
}

#[test]
fn zero_page_y_stays_in_page_zero() {
    let mut cpu = cpu_at(0x8000, &[0xFF]);
    cpu.y = 0x01;
    cpu.x = 0x50;
    assert_eq!(cpu.zpy(), 0);
    assert_eq!(cpu.addr_abs, 0x0000);
    assert_eq!(cpu.pc, 0x8001);
}

#[test]
fn relative_extends_the_sign() {
    let mut cpu = cpu_at(0x8000, &[0x05]);
    assert_eq!(cpu.rel(), 0);
    assert_eq!(cpu.addr_rel, 0x0005);
    assert_eq!(cpu.pc, 0x8001);

    let mut cpu = cpu_at(0x8000, &[0xFB]);
    assert_eq!(cpu.rel(), 0);
    assert_eq!(cpu.addr_rel, 0xFFFB);

    let mut cpu = cpu_at(0x8000, &[0x80]);
    assert_eq!(cpu.rel(), 0);
    assert_eq!(cpu.addr_rel, 0xFF80);

    let mut cpu = cpu_at(0x8000, &[0x7F]);
    assert_eq!(cpu.rel(), 0);
    assert_eq!(cpu.addr_rel, 0x007F);
}

#[test]
fn relative_has_a_second_name() {
    let mut cpu = cpu_at(0x8000, &[0xFA]);
    assert_eq!(cpu.red(), 0);
    assert_eq!(cpu.addr_rel, 0xFFFA);
    assert_eq!(cpu.pc, 0x8001);
}

#[test]
fn absolute_reads_low_byte_first() {
    let mut cpu = cpu_at(0x8000, &[0x34, 0x12]);
    assert_eq!(cpu.abs(), 0);
    assert_eq!(cpu.addr_abs, 0x1234);
    assert_eq!(cpu.pc, 0x8002);
}

#[test]
fn absolute_x_tells_a_page_crossing() {
    let mut cpu = cpu_at(0x8000, &[0xF0, 0x12]);
    cpu.x = 0x0F;
    assert_eq!(cpu.abx(), 0);
    assert_eq!(cpu.addr_abs, 0x12FF);

    let mut cpu = cpu_at(0x8000, &[0xF0, 0x12]);
    cpu.x = 0x10;
    assert_eq!(cpu.abx(), 1);
    assert_eq!(cpu.addr_abs, 0x1300);
    assert_eq!(cpu.pc, 0x8002);

    let mut cpu = cpu_at(0x8000, &[0xFF, 0xFF]);
    cpu.x = 0x02;
    assert_eq!(cpu.abx(), 1);
    assert_eq!(cpu.addr_abs, 0x0001);
}

#[test]
fn absolute_y_tells_a_page_crossing() {
    let mut cpu = cpu_at(0x8000, &[0x00, 0x20]);
    cpu.y = 0xFF;
    cpu.x = 0x01;
    assert_eq!(cpu.aby(), 0);
    assert_eq!(cpu.addr_abs, 0x20FF);

    let mut cpu = cpu_at(0x8000, &[0x01, 0x20]);
    cpu.y = 0xFF;
    assert_eq!(cpu.aby(), 1);
    assert_eq!(cpu.addr_abs, 0x2100);
}

#[test]
fn indirect_follows_the_pointer() {
    let mut cpu = cpu_at(0x8000, &[0x20, 0x30]);
    cpu.bus.ram[0x3020] = 0xCD;
    cpu.bus.ram[0x3021] = 0xAB;
    assert_eq!(cpu.ind(), 0);
    assert_eq!(cpu.addr_abs, 0xABCD);
    assert_eq!(cpu.pc, 0x8002);
}

#[test]
fn indirect_wraps_within_the_page_of_the_pointer() {
    let mut cpu = cpu_at(0x8000, &[0xFF, 0x30]);
    cpu.bus.ram[0x30FF] = 0x40;
    cpu.bus.ram[0x3000] = 0x80;
    cpu.bus.ram[0x3100] = 0x50;
    assert_eq!(cpu.ind(), 0);
    assert_eq!(cpu.addr_abs, 0x8040);
    assert_ne!(cpu.addr_abs, 0x5040);
}

#[test]
fn indexed_indirect_reads_its_pointer_from_page_zero() {
    let mut cpu = cpu_at(0x8000, &[0x20]);
    cpu.x = 0x04;
    cpu.bus.ram[0x0024] = 0x74;
    cpu.bus.ram[0x0025] = 0x20;
    assert_eq!(cpu.izx(), 0);
    assert_eq!(cpu.addr_abs, 0x2074);
    assert_eq!(cpu.pc, 0x8001);
}

#[test]
fn indexed_indirect_wraps_within_page_zero() {
    let mut cpu = cpu_at(0x8000, &[0xFE]);
    cpu.x = 0x01;
    cpu.bus.ram[0x00FF] = 0x34;
    cpu.bus.ram[0x0000] = 0x12;
    cpu.bus.ram[0x0100] = 0x99;
    assert_eq!(cpu.izx(), 0);
    assert_eq!(cpu.addr_abs, 0x1234);

    let mut cpu = cpu_at(0x8000, &[0xF0]);
    cpu.x = 0x20;
    cpu.bus.ram[0x0010] = 0x78;
    cpu.bus.ram[0x0011] = 0x56;
    cpu.bus.ram[0x0110] = 0x99;
    cpu.bus.ram[0x0111] = 0x99;
    assert_eq!(cpu.izx(), 0);
    assert_eq!(cpu.addr_abs, 0x5678);
}

#[test]
fn indirect_indexed_adds_y_after_the_pointer() {
    let mut cpu = cpu_at(0x8000, &[0x86]);
    cpu.y = 0x10;
    cpu.bus.ram[0x0086] = 0x28;
    cpu.bus.ram[0x0087] = 0x40;
    assert_eq!(cpu.izy(), 0);
    assert_eq!(cpu.addr_abs, 0x4038);
    assert_eq!(cpu.pc, 0x8001);

    let mut cpu = cpu_at(0x8000, &[0x86]);
    cpu.y = 0xF0;
    cpu.bus.ram[0x0086] = 0x28;
    cpu.bus.ram[0x0087] = 0x40;
    assert_eq!(cpu.izy(), 1);
    assert_eq!(cpu.addr_abs, 0x4118);
}

#[test]
fn indirect_indexed_reads_its_pointer_from_page_zero() {
    let mut cpu = cpu_at(0x8000, &[0xFF]);
    cpu.y = 0x01;
    cpu.bus.ram[0x00FF] = 0x00;
    cpu.bus.ram[0x0000] = 0x30;
    cpu.bus.ram[0x0100] = 0x99;
    assert_eq!(cpu.izy(), 0);
    assert_eq!(cpu.addr_abs, 0x3001);
}

#[test]
fn resolve_runs_the_mode_it_is_given() {
    let mut cpu = cpu_at(0x8000, &[0xF0, 0x12]);
    cpu.x = 0x10;
    cpu.y = 0x01;
    assert_eq!(cpu.resolve(AddrMode::Abx), 1);
    assert_eq!(cpu.addr_abs, 0x1300);

    let mut cpu = cpu_at(0x8000, &[0xF0, 0x12]);
    cpu.x = 0x10;
    cpu.y = 0x01;
    assert_eq!(cpu.resolve(AddrMode::Aby), 0);
    assert_eq!(cpu.addr_abs, 0x12F1);

    let mut cpu = cpu_at(0x8000, &[0xF0, 0x12]);
    cpu.a = 0x33;
    assert_eq!(cpu.resolve(AddrMode::Imp), 0);
    assert_eq!(cpu.fetched, 0x33);
    assert_eq!(cpu.pc, 0x8000);

    let mut cpu = cpu_at(0x8000, &[0xF0, 0x12]);
    assert_eq!(cpu.resolve(AddrMode::Rel), 0);
    assert_eq!(cpu.addr_rel, 0xFFF0);
    assert_eq!(cpu.pc, 0x8001);
}
