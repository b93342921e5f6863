use cpu6502::cpu_6502::Cpu6502;
use cpu6502::flags::Flags6502;
use cpu6502::instruction::{Instruction, Operation};

/// A processor that has been reset to start the program `program`, loaded
/// at `at`, and has spent the cycles of the reset.
fn boot(at: u16, program: &[u8]) -> Cpu6502 {
    let mut cpu = Cpu6502::new();
    cpu.load(at, &program.to_vec());
    cpu.bus.ram[0xFFFC] = (at & 0x00FF) as u8;
    cpu.bus.ram[0xFFFD] = (at >> 8) as u8;
    cpu.reset();
    while !cpu.complete() {
        cpu.clock();
    }
    cpu
}

/// Runs one instruction and returns the cycles it took.
fn step(cpu: &mut Cpu6502) -> u32 {
    let mut cycles = 1;
    cpu.clock();
    while !cpu.complete() {
        cpu.clock();
        cycles += 1;
    }
    cycles
}

#[test]
fn branch_not_taken_takes_base_cycles() {
    // BNE +4 with zero set
    let mut cpu = boot(0x8000, &[0xD0, 0x04]);
    cpu.set_flag(Flags6502::Z, true);
    assert_eq!(step(&mut cpu), 2);
    assert_eq!(cpu.pc, 0x8002);
}

#[test]
fn branch_taken_within_page_takes_one_more() {
    let mut cpu = boot(0x8000, &[0xD0, 0x04]);
    cpu.set_flag(Flags6502::Z, false);
    assert_eq!(step(&mut cpu), 3);
    assert_eq!(cpu.pc, 0x8006);
    assert_eq!(cpu.addr_abs, 0x8006);
}

#[test]
fn branch_taken_across_pages_takes_two_more() {
    let mut cpu = boot(0x80F0, &[0xD0, 0x20]);
    assert_eq!(step(&mut cpu), 4);
    assert_eq!(cpu.pc, 0x8112);
}

#[test]
fn branch_backwards_across_pages_takes_two_more() {
    // BNE -6 from 0x8002 leads to 0x7FFC
    let mut cpu = boot(0x8000, &[0xD0, 0xFA]);
    assert_eq!(step(&mut cpu), 4);
    assert_eq!(cpu.pc, 0x7FFC);

    // BNE -2 from 0x8012 leads back to the branch itself
    let mut cpu = boot(0x8010, &[0xD0, 0xFE]);
    assert_eq!(step(&mut cpu), 3);
    assert_eq!(cpu.pc, 0x8010);
}

#[test]
fn branch_page_is_counted_from_the_next_instruction() {
    // the branch ends its page: what follows it lies in the page of the target
    let mut cpu = boot(0x80FE, &[0xD0, 0x05]);
    assert_eq!(step(&mut cpu), 3);
    assert_eq!(cpu.pc, 0x8105);

    // and back into the page of the branch costs the second cycle
    let mut cpu = boot(0x80FE, &[0xD0, 0xFC]);
    assert_eq!(step(&mut cpu), 4);
    assert_eq!(cpu.pc, 0x80FC);
}

#[test]
fn each_branch_tests_its_flag() {
    let cases: [(u8, u8, bool); 8] = [
        (0x90, Flags6502::C, false),
        (0xB0, Flags6502::C, true),
        (0xF0, Flags6502::Z, true),
        (0x30, Flags6502::N, true),
        (0xD0, Flags6502::Z, false),
        (0x10, Flags6502::N, false),
        (0x50, Flags6502::V, false),
        (0x70, Flags6502::V, true),
    ];
    for (opcode, flag, taken_when_set) in cases {
        let mut cpu = boot(0x8000, &[opcode, 0x10]);
        cpu.set_flag(flag, taken_when_set);
        assert_eq!(step(&mut cpu), 3, "opcode {:02X}", opcode);
        assert_eq!(cpu.pc, 0x8012, "opcode {:02X}", opcode);

        let mut cpu = boot(0x8000, &[opcode, 0x10]);
        cpu.set_flag(flag, !taken_when_set);
        assert_eq!(step(&mut cpu), 2, "opcode {:02X}", opcode);
        assert_eq!(cpu.pc, 0x8002, "opcode {:02X}", opcode);
    }
}

#[test]
fn branch_handlers_add_to_the_cycle_counter() {
    let mut cpu = Cpu6502::new();
    cpu.pc = 0x8002;
    cpu.addr_rel = 0x0004;
    cpu.cycles = 2;
    assert_eq!(cpu.bcc(), 0);
    assert_eq!(cpu.cycles, 3);
    assert_eq!(cpu.pc, 0x8006);

    cpu.addr_rel = 0xFF00;
    assert_eq!(cpu.bpl(), 0);
    assert_eq!(cpu.cycles, 5);
    assert_eq!(cpu.pc, 0x7F06);

    assert_eq!(cpu.bcs(), 0);
    assert_eq!(cpu.beq(), 0);
    assert_eq!(cpu.bmi(), 0);
    assert_eq!(cpu.bvs(), 0);
    assert_eq!(cpu.cycles, 5);
    assert_eq!(cpu.pc, 0x7F06);

    cpu.addr_rel = 0x0001;
    assert_eq!(cpu.bne(), 0);
    assert_eq!(cpu.bvc(), 0);
    assert_eq!(cpu.cycles, 7);
    assert_eq!(cpu.pc, 0x7F08);
}

#[test]
fn branch_handler_counts_from_any_cycle_count() {
    // taken within the page with the counter one below its last value
    let mut cpu = Cpu6502::new();
    cpu.pc = 0x8002;
    cpu.addr_rel = 0x0004;
    cpu.cycles = 254;
    cpu.a = 0x11;
    cpu.sr = Flags6502::U;
    assert_eq!(cpu.bne(), 0);
    assert_eq!(cpu.pc, 0x8006);
    assert_eq!(cpu.cycles, 255);
    assert_eq!((cpu.a, cpu.x, cpu.y, cpu.sp, cpu.sr), (0x11, 0, 0, 0, Flags6502::U));

    // the counter wraps like every register
    let mut cpu = Cpu6502::new();
    cpu.pc = 0x8002;
    cpu.addr_rel = 0x0004;
    cpu.cycles = 255;
    assert_eq!(cpu.bne(), 0);
    assert_eq!(cpu.pc, 0x8006);
    assert_eq!(cpu.cycles, 0);

    let mut cpu = Cpu6502::new();
    cpu.pc = 0x8002;
    cpu.addr_rel = 0x0100;
    cpu.cycles = 255;
    assert_eq!(cpu.bne(), 0);
    assert_eq!(cpu.pc, 0x8102);
    assert_eq!(cpu.cycles, 1);
}

#[test]
fn branch_handler_not_taken_changes_nothing() {
    for cycles in [0u8, 2, 253, 254, 255] {
        let mut cpu = Cpu6502::new();
        cpu.pc = 0x8002;
        cpu.addr_rel = 0xFF80;
        cpu.addr_abs = 0x1234;
        cpu.cycles = cycles;
        cpu.sr = Flags6502::Z | Flags6502::U;
        assert_eq!(cpu.bne(), 0);
        assert_eq!(cpu.pc, 0x8002);
        assert_eq!(cpu.cycles, cycles);
        assert_eq!(cpu.addr_abs, 0x1234);
        assert_eq!(cpu.sr, Flags6502::Z | Flags6502::U);
        assert!(cpu.bus.ram.iter().all(|b| *b == 0));
    }
}

#[test]
fn opcode_eb_changes_nothing() {
    let mut cpu = boot(0x8000, &[0xEB, 0xEB]);
    cpu.a = 0x10;
    cpu.sr = Flags6502::U | Flags6502::C;
    assert_eq!(step(&mut cpu), 2);
    assert_eq!(cpu.a, 0x10);
    assert_eq!(cpu.sr, Flags6502::U | Flags6502::C);
    assert_eq!(cpu.pc, 0x8001);
    cpu.a = 0x00;
    cpu.sr = Flags6502::U;
    assert_eq!(step(&mut cpu), 2);
    assert_eq!(cpu.a, 0x00);
    assert_eq!(cpu.sr, Flags6502::U);
    assert_eq!((cpu.x, cpu.y, cpu.sp), (0, 0, 0xFD));
    assert_eq!(cpu.pc, 0x8002);
}

#[test]
fn every_unnamed_opcode_changes_nothing() {
    for opcode in 0..=255u8 {
        if Instruction::lookup(opcode).name != "???" {
            continue;
        }
        let mut cpu = boot(0x8000, &[opcode]);
        cpu.a = 0x12;
        cpu.x = 0x34;
        cpu.y = 0x56;
        cpu.sr = Flags6502::U | Flags6502::C | Flags6502::N;
        let memory = cpu.bus.ram;
        step(&mut cpu);
        assert_eq!((cpu.a, cpu.x, cpu.y, cpu.sp), (0x12, 0x34, 0x56, 0xFD), "opcode {:02X}", opcode);
        assert_eq!(cpu.sr, Flags6502::U | Flags6502::C | Flags6502::N, "opcode {:02X}", opcode);
        assert_eq!(cpu.pc, 0x8001, "opcode {:02X}", opcode);
        assert!(cpu.bus.ram == memory, "opcode {:02X}", opcode);
    }
}

#[test]
fn jmp_absolute() {
    let mut cpu = boot(0x8000, &[0x4C, 0x34, 0x12]);
    assert_eq!(step(&mut cpu), 3);
    assert_eq!(cpu.pc, 0x1234);
}

#[test]
fn jmp_indirect_wraps_within_the_page_of_the_pointer() {
    let mut cpu = boot(0x8000, &[0x6C, 0xFF, 0x30]);
    cpu.bus.ram[0x30FF] = 0x40;
    cpu.bus.ram[0x3000] = 0x80;
    cpu.bus.ram[0x3100] = 0x50;
    assert_eq!(step(&mut cpu), 5);
    assert_eq!(cpu.addr_abs, 0x8040);
    assert_eq!(cpu.pc, 0x8040);
}

#[test]
fn jsr_and_rts_return_after_the_call() {
    // JSR $9000 ; NOP     and at $9000: RTS
    let mut cpu = boot(0x8000, &[0x20, 0x00, 0x90, 0xEA]);
    cpu.bus.ram[0x9000] = 0x60;
    assert_eq!(step(&mut cpu), 6);
    assert_eq!(cpu.pc, 0x9000);
    assert_eq!(cpu.sp, 0xFB);
    assert_eq!(cpu.bus.ram[0x01FD], 0x80);
    assert_eq!(cpu.bus.ram[0x01FC], 0x02);
    assert_eq!(step(&mut cpu), 6);
    assert_eq!(cpu.pc, 0x8003);
    assert_eq!(cpu.sp, 0xFD);
}

#[test]
fn push_and_pull_the_accumulator() {
    // PHA ; LDA #$00 ; PLA
    let mut cpu = boot(0x8000, &[0x48, 0xA9, 0x00, 0x68]);
    cpu.a = 0x9C;
    assert_eq!(step(&mut cpu), 3);
    assert_eq!(cpu.sp, 0xFC);
    assert_eq!(cpu.bus.ram[0x01FD], 0x9C);
    assert_eq!(step(&mut cpu), 2);
    assert_eq!(cpu.a, 0x00);
    assert_eq!(cpu.get_flag(Flags6502::Z), 1);
    assert_eq!(step(&mut cpu), 4);
    assert_eq!(cpu.a, 0x9C);
    assert_eq!(cpu.sp, 0xFD);
    assert_eq!(cpu.get_flag(Flags6502::Z), 0);
    assert_eq!(cpu.get_flag(Flags6502::N), 1);
}

#[test]
fn pulling_zero_sets_the_zero_flag() {
    let mut cpu = boot(0x8000, &[0x48, 0xA9, 0x55, 0x68]);
    cpu.a = 0x00;
    step(&mut cpu);
    step(&mut cpu);
    assert_eq!(cpu.a, 0x55);
    step(&mut cpu);
    assert_eq!(cpu.a, 0x00);
    assert_eq!(cpu.sp, 0xFD);
    assert_eq!(cpu.get_flag(Flags6502::Z), 1);
    assert_eq!(cpu.get_flag(Flags6502::N), 0);
}

#[test]
fn stack_pointer_wraps_within_page_one() {
    let mut cpu = Cpu6502::new();
    cpu.sp = 0x00;
    cpu.a = 0x77;
    assert_eq!(cpu.pha(), 0);
    assert_eq!(cpu.sp, 0xFF);
    assert_eq!(cpu.bus.ram[0x0100], 0x77);
    cpu.a = 0x00;
    assert_eq!(cpu.pla(), 0);
    assert_eq!(cpu.sp, 0x00);
    assert_eq!(cpu.a, 0x77);
}

#[test]
fn php_pushes_break_and_unused_and_keeps_the_status() {
    let mut cpu = Cpu6502::new();
    cpu.sp = 0xFD;
    cpu.sr = Flags6502::C | Flags6502::N;
    assert_eq!(cpu.php(), 0);
    assert_eq!(cpu.bus.ram[0x01FD], Flags6502::C | Flags6502::N | Flags6502::B | Flags6502::U);
    assert_eq!(cpu.sr, Flags6502::C | Flags6502::N);
    assert_eq!(cpu.sp, 0xFC);

    cpu.sr = Flags6502::U | Flags6502::B | Flags6502::Z;
    cpu.php();
    assert_eq!(cpu.bus.ram[0x01FC], Flags6502::U | Flags6502::B | Flags6502::Z);
    assert_eq!(cpu.sr, Flags6502::U | Flags6502::B | Flags6502::Z);
}

#[test]
fn plp_forces_the_unused_flag() {
    let mut cpu = Cpu6502::new();
    cpu.sp = 0xFC;
    cpu.bus.ram[0x01FD] = Flags6502::C | Flags6502::V;
    assert_eq!(cpu.plp(), 0);
    assert_eq!(cpu.sr, Flags6502::C | Flags6502::V | Flags6502::U);
    assert_eq!(cpu.sp, 0xFD);
}

#[test]
fn brk_interrupts_through_the_request_vector() {
    let mut cpu = boot(0x8000, &[0x00, 0xFF, 0xEA]);
    cpu.bus.ram[0xFFFE] = 0x00;
    cpu.bus.ram[0xFFFF] = 0x90;
    cpu.sr = Flags6502::U | Flags6502::C;
    assert_eq!(step(&mut cpu), 7);
    assert_eq!(cpu.pc, 0x9000);
    // the operand byte is stepped over, and one byte more
    assert_eq!(cpu.bus.ram[0x01FD], 0x80);
    assert_eq!(cpu.bus.ram[0x01FC], 0x03);
    assert_eq!(
        cpu.bus.ram[0x01FB],
        Flags6502::U | Flags6502::C | Flags6502::I | Flags6502::B
    );
    assert_eq!(cpu.sr, Flags6502::U | Flags6502::C | Flags6502::I);
    assert_eq!(cpu.sp, 0xFA);
}

#[test]
fn rti_returns_from_brk() {
    let mut cpu = boot(0x8000, &[0x00, 0xFF, 0xFF, 0xEA]);
    cpu.bus.ram[0xFFFE] = 0x00;
    cpu.bus.ram[0xFFFF] = 0x90;
    cpu.bus.ram[0x9000] = 0x40;
    cpu.sr = Flags6502::U | Flags6502::C;
    step(&mut cpu);
    assert_eq!(step(&mut cpu), 6);
    assert_eq!(cpu.pc, 0x8003);
    assert_eq!(cpu.sp, 0xFD);
    // break is dropped, unused is forced, interrupt disable was pushed set
    assert_eq!(cpu.sr, Flags6502::U | Flags6502::C | Flags6502::I);
}

#[test]
fn rti_clears_break_and_forces_unused() {
    let mut cpu = Cpu6502::new();
    cpu.sp = 0xFA;
    cpu.bus.ram[0x01FB] = Flags6502::B | Flags6502::N;
    cpu.bus.ram[0x01FC] = 0x34;
    cpu.bus.ram[0x01FD] = 0x12;
    assert_eq!(cpu.rti(), 0);
    assert_eq!(cpu.sr, Flags6502::N | Flags6502::U);
    assert_eq!(cpu.pc, 0x1234);
    assert_eq!(cpu.sp, 0xFD);
}

#[test]
fn rts_wraps_the_program_counter() {
    let mut cpu = Cpu6502::new();
    cpu.sp = 0xFB;
    cpu.bus.ram[0x01FC] = 0xFF;
    cpu.bus.ram[0x01FD] = 0xFF;
    assert_eq!(cpu.rts(), 0);
    assert_eq!(cpu.pc, 0x0000);
    assert_eq!(cpu.sp, 0xFD);
}

#[test]
fn jsr_pushes_the_last_byte_of_the_call() {
    let mut cpu = Cpu6502::new();
    cpu.sp = 0xFD;
    cpu.pc = 0x0000;
    cpu.addr_abs = 0x4000;
    assert_eq!(cpu.jsr(), 0);
    assert_eq!(cpu.bus.ram[0x01FD], 0xFF);
    assert_eq!(cpu.bus.ram[0x01FC], 0xFF);
    assert_eq!(cpu.pc, 0x4000);
    assert_eq!(cpu.sp, 0xFB);
}

#[test]
fn irq_is_taken_when_interrupts_are_enabled() {
    let mut cpu = boot(0x8000, &[0xEA]);
    cpu.bus.ram[0xFFFE] = 0x00;
    cpu.bus.ram[0xFFFF] = 0xA0;
    cpu.pc = 0x8123;
    cpu.sr = Flags6502::U | Flags6502::B | Flags6502::Z;
    assert!(cpu.complete());
    cpu.irq();
    assert_eq!(cpu.pc, 0xA000);
    assert_eq!(cpu.addr_abs, 0xFFFE);
    assert_eq!(cpu.cycles, 7);
    assert_eq!(cpu.sp, 0xFA);
    assert_eq!(cpu.bus.ram[0x01FD], 0x81);
    assert_eq!(cpu.bus.ram[0x01FC], 0x23);
    // the status is pushed before interrupts are disabled
    assert_eq!(cpu.bus.ram[0x01FB], Flags6502::U | Flags6502::Z);
    assert_eq!(cpu.sr, Flags6502::U | Flags6502::Z | Flags6502::I);
}

#[test]
fn irq_is_ignored_when_interrupts_are_disabled() {
    let mut cpu = boot(0x8000, &[0xEA]);
    cpu.bus.ram[0xFFFE] = 0x00;
    cpu.bus.ram[0xFFFF] = 0xA0;
    cpu.sr = Flags6502::U | Flags6502::I;
    cpu.irq();
    assert_eq!(cpu.pc, 0x8000);
    assert_eq!(cpu.cycles, 0);
    assert_eq!(cpu.sp, 0xFD);
    assert_eq!(cpu.sr, Flags6502::U | Flags6502::I);
    assert_eq!(cpu.bus.ram[0x01FD], 0x00);
}

#[test]
fn nmi_is_taken_even_when_interrupts_are_disabled() {
    let mut cpu = boot(0x8000, &[0xEA]);
    cpu.bus.ram[0xFFFA] = 0x56;
    cpu.bus.ram[0xFFFB] = 0xB0;
    cpu.bus.ram[0xFFFE] = 0x00;
    cpu.bus.ram[0xFFFF] = 0xA0;
    cpu.sr = Flags6502::U | Flags6502::I | Flags6502::B;
    cpu.nmi();
    assert_eq!(cpu.pc, 0xB056);
    assert_eq!(cpu.addr_abs, 0xFFFA);
    assert_eq!(cpu.cycles, 7);
    assert_eq!(cpu.sp, 0xFA);
    assert_eq!(cpu.bus.ram[0x01FD], 0x80);
    assert_eq!(cpu.bus.ram[0x01FC], 0x00);
    assert_eq!(cpu.bus.ram[0x01FB], Flags6502::U | Flags6502::I);
    assert_eq!(cpu.sr, Flags6502::U | Flags6502::I);
}

#[test]
fn nmi_pushes_the_status_before_it_disables_interrupts() {
    let mut cpu = boot(0x8000, &[0xEA]);
    cpu.bus.ram[0xFFFA] = 0x56;
    cpu.bus.ram[0xFFFB] = 0xB0;
    cpu.sr = Flags6502::C | Flags6502::B;
    cpu.nmi();
    assert_eq!(cpu.bus.ram[0x01FB], Flags6502::U | Flags6502::C);
    assert_eq!(cpu.sr, Flags6502::U | Flags6502::C | Flags6502::I);
    assert_eq!(cpu.pc, 0xB056);
}

#[test]
fn interrupt_and_return() {
    let mut cpu = boot(0x8000, &[0xEA, 0xEA]);
    cpu.bus.ram[0xFFFE] = 0x00;
    cpu.bus.ram[0xFFFF] = 0xA0;
    cpu.bus.ram[0xA000] = 0x40;
    cpu.sr = Flags6502::U | Flags6502::N;
    step(&mut cpu);
    assert_eq!(cpu.pc, 0x8001);
    cpu.irq();
    while !cpu.complete() {
        cpu.clock();
    }
    assert_eq!(cpu.pc, 0xA000);
    assert_eq!(cpu.get_flag(Flags6502::I), 1);
    step(&mut cpu);
    assert_eq!(cpu.pc, 0x8001);
    // interrupts are enabled again
    assert_eq!(cpu.sr, Flags6502::U | Flags6502::N);
    assert_eq!(cpu.sp, 0xFD);
}

#[test]
fn nop_changes_nothing() {
    let mut cpu = boot(0x8000, &[0xEA]);
    cpu.a = 1;
    cpu.x = 2;
    cpu.y = 3;
    let status = cpu.sr;
    assert_eq!(step(&mut cpu), 2);
    assert_eq!((cpu.a, cpu.x, cpu.y, cpu.sp, cpu.sr), (1, 2, 3, 0xFD, status));
    assert_eq!(cpu.pc, 0x8001);
    assert!(cpu.bus.ram[0x0000..0x8000].iter().all(|b| *b == 0));
}

#[test]
fn some_undocumented_nops_ask_for_the_page_cycle() {
    for opcode in 0..=255u8 {
        let mut cpu = Cpu6502::new();
        cpu.opcode = opcode;
        let expected = match opcode {
            0x1C | 0x3C | 0x5C | 0x7C | 0xDC | 0xFC => 1,
            _ => 0,
        };
        assert_eq!(cpu.nop(), expected, "opcode {:02X}", opcode);
    }
}

#[test]
fn opcode_without_instruction_only_takes_time() {
    let mut cpu = boot(0x8000, &[0x02, 0x03, 0xFF]);
    cpu.a = 0x12;
    assert_eq!(step(&mut cpu), 2);
    assert_eq!(cpu.pc, 0x8001);
    assert_eq!(step(&mut cpu), 8);
    assert_eq!(cpu.pc, 0x8002);
    assert_eq!(step(&mut cpu), 7);
    assert_eq!(cpu.pc, 0x8003);
    assert_eq!(cpu.a, 0x12);
    assert_eq!(cpu.sr, Flags6502::U);
    assert_eq!(cpu.xxx(), 0);
}

#[test]
fn operate_runs_the_operation_it_is_given() {
    let mut cpu = Cpu6502::new();
    cpu.x = 0x0F;
    assert_eq!(cpu.operate(Operation::Inx), 0);
    assert_eq!(cpu.x, 0x10);
    cpu.opcode = 0xAD;
    cpu.addr_abs = 0x0300;
    cpu.bus.ram[0x0300] = 0x44;
    assert_eq!(cpu.operate(Operation::Lda), 1);
    assert_eq!(cpu.a, 0x44);
    cpu.opcode = 0x1C;
    assert_eq!(cpu.operate(Operation::Nop), 1);
    cpu.opcode = 0xEA;
    assert_eq!(cpu.operate(Operation::Nop), 0);
    assert_eq!(cpu.operate(Operation::Xxx), 0);
    assert_eq!(cpu.operate(Operation::Cmp), 1);
    assert_eq!(cpu.get_flag(Flags6502::Z), 1);
}
