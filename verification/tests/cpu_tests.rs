use pet4032::bus::{Bus, SimpleBus};
use pet4032::cpu::Cpu;
use pet4032::status::Flag;

fn setup_cpu(program: &[u8]) -> Cpu<SimpleBus> {
    let mut bus = SimpleBus::new();
    bus.load(0x8000, program);
    bus.write(0xFFFC, 0x00);
    bus.write(0xFFFD, 0x80);
    let mut cpu = Cpu::new(bus);
    cpu.reset();
    cpu
}

#[test]
fn test_reset() {
    let mut bus = SimpleBus::new();
    bus.write(0xFFFC, 0x34);
    bus.write(0xFFFD, 0x12);
    let mut cpu = Cpu::new(bus);
    cpu.reset();

    assert_eq!(cpu.pc, 0x1234);
    assert_eq!(cpu.sp, 0xFD);
    assert_eq!(cpu.a, 0);
    assert_eq!(cpu.x, 0);
    assert_eq!(cpu.y, 0);
}

#[test]
fn test_simple_program() {
    // LDA #$42, STA $10, LDA #$00, LDA $10
    let mut cpu = setup_cpu(&[0xA9, 0x42, 0x85, 0x10, 0xA9, 0x00, 0xA5, 0x10]);

    cpu.execute_instruction(); // LDA #$42
    assert_eq!(cpu.a, 0x42);

    cpu.execute_instruction(); // STA $10
    assert_eq!(cpu.bus.read(0x10), 0x42);

    cpu.execute_instruction(); // LDA #$00
    assert_eq!(cpu.a, 0x00);

    cpu.execute_instruction(); // LDA $10
    assert_eq!(cpu.a, 0x42);
}

#[test]
fn test_indexed_addressing() {
    let mut bus = SimpleBus::new();
    // Store value at $1005
    bus.write(0x1005, 0xAB);
    // LDX #$05, LDA $1000,X
    bus.load(0x8000, &[0xA2, 0x05, 0xBD, 0x00, 0x10]);
    bus.write(0xFFFC, 0x00);
    bus.write(0xFFFD, 0x80);

    let mut cpu = Cpu::new(bus);
    cpu.reset();

    cpu.execute_instruction(); // LDX #$05
    assert_eq!(cpu.x, 0x05);

    cpu.execute_instruction(); // LDA $1000,X
    assert_eq!(cpu.a, 0xAB);
}

#[test]
fn test_indirect_y_addressing() {
    let mut bus = SimpleBus::new();
    // Set up indirect pointer at zero page $20
    bus.write(0x20, 0x00); // low byte
    bus.write(0x21, 0x10); // high byte -> points to $1000
    // Store value at $1005
    bus.write(0x1005, 0xCD);
    // LDY #$05, LDA ($20),Y
    bus.load(0x8000, &[0xA0, 0x05, 0xB1, 0x20]);
    bus.write(0xFFFC, 0x00);
    bus.write(0xFFFD, 0x80);

    let mut cpu = Cpu::new(bus);
    cpu.reset();

    cpu.execute_instruction(); // LDY #$05
    cpu.execute_instruction(); // LDA ($20),Y

    assert_eq!(cpu.a, 0xCD);
}

#[test]
fn test_nmi() {
    let mut bus = SimpleBus::new();

    bus.write(0xFFFA, 0x00);
    bus.write(0xFFFB, 0x90);

    bus.load(0x8000, &[0xEA]); // NOP
    bus.write(0xFFFC, 0x00);
    bus.write(0xFFFD, 0x80);

    let mut cpu = Cpu::new(bus);
    cpu.reset();

    while cpu.cycles > 0 {
        cpu.step();
    }

    cpu.request_nmi();
    cpu.step(); // Should handle NMI

    while cpu.cycles > 0 {
        cpu.step();
    }

    assert_eq!(cpu.pc, 0x9000);
    assert!(cpu.status.get(Flag::InterruptDisable));
}

#[test]
fn test_nmi_stack_contents() {
    // The NMI sequence leaves the return address and the status with the
    // Break bit clear (and bit 5 set) on the stack below the old pointer.
    let mut bus = SimpleBus::new();
    bus.write(0xFFFA, 0x00);
    bus.write(0xFFFB, 0x90);
    bus.load(0x8000, &[0xEA]);
    bus.write(0xFFFC, 0x00);
    bus.write(0xFFFD, 0x80);

    let mut cpu = Cpu::new(bus);
    cpu.reset();
    while cpu.cycles > 0 {
        cpu.step();
    }

    cpu.request_nmi();
    cpu.step();
    while cpu.cycles > 0 {
        cpu.step();
    }

    assert_eq!(cpu.sp, 0xFA);
    assert_eq!(cpu.bus.read(0x01FD), 0x80); // return address high byte
    assert_eq!(cpu.bus.read(0x01FC), 0x00); // return address low byte
    let pushed = cpu.bus.read(0x01FB);
    assert_eq!(pushed & 0x10, 0); // Break clear
    assert_eq!(pushed & 0x20, 0x20); // bit 5 set
    assert_eq!(pushed, 0x24);
}

#[test]
fn test_nmi_edge_triggered() {
    // A second request while the line is still asserted is dropped;
    // releasing re-arms the edge detector.
    let mut bus = SimpleBus::new();
    bus.write(0xFFFA, 0x00);
    bus.write(0xFFFB, 0x90);
    bus.load(0x8000, &[0xEA, 0xEA]);
    bus.load(0x9000, &[0xEA, 0xEA]); // NOPs at the handler
    bus.write(0xFFFC, 0x00);
    bus.write(0xFFFD, 0x80);

    let mut cpu = Cpu::new(bus);
    cpu.reset();
    cpu.execute_instruction();

    cpu.request_nmi();
    cpu.execute_instruction(); // dispatches
    assert_eq!(cpu.pc, 0x9000);

    cpu.request_nmi(); // still asserted: dropped
    let pc_before = cpu.pc;
    cpu.execute_instruction(); // runs the instruction at $9000 instead
    assert_ne!(cpu.pc, 0x9000);
    assert_eq!(cpu.pc, pc_before.wrapping_add(1));

    cpu.release_nmi();
    cpu.request_nmi();
    cpu.execute_instruction();
    assert_eq!(cpu.pc, 0x9000);
}

#[test]
fn test_irq_masked_by_interrupt_disable() {
    let mut bus = SimpleBus::new();
    bus.write(0xFFFE, 0x00);
    bus.write(0xFFFF, 0x90);
    // CLI, NOP
    bus.load(0x8000, &[0x58, 0xEA]);
    bus.write(0xFFFC, 0x00);
    bus.write(0xFFFD, 0x80);

    let mut cpu = Cpu::new(bus);
    cpu.reset();
    // After reset the I flag is set: a pending IRQ is held off.
    cpu.request_irq();
    cpu.execute_instruction(); // CLI (IRQ still masked when checked)
    assert_eq!(cpu.pc, 0x8001);
    cpu.execute_instruction(); // now unmasked: dispatch
    assert_eq!(cpu.pc, 0x9000);
    assert!(cpu.status.get(Flag::InterruptDisable));
}

#[test]
fn test_reset_vector() {
    // $FFFC/D = $12/$34 puts the program counter at $3412.
    let mut bus = SimpleBus::new();
    bus.write(0xFFFC, 0x12);
    bus.write(0xFFFD, 0x34);
    let mut cpu = Cpu::new(bus);
    cpu.reset();
    assert_eq!(cpu.pc, 0x3412);
    assert_eq!(cpu.cycles, 7);
    assert!(cpu.status.get(Flag::InterruptDisable));
}

#[test]
fn test_execute_instruction_quiesces() {
    let mut cpu = setup_cpu(&[0xA9, 0x42, 0x85, 0x10]);
    assert_eq!(cpu.cycles, 7); // reset cost still pending
    cpu.execute_instruction();
    assert_eq!(cpu.cycles, 0);
    cpu.execute_instruction();
    assert_eq!(cpu.cycles, 0);
}

#[test]
fn test_push_pull_word_round_trip() {
    let mut bus = SimpleBus::new();
    let mut cpu = Cpu::new(bus);
    cpu.push_word(0xBEEF);
    assert_eq!(cpu.sp, 0xFB);
    assert_eq!(cpu.pull_word(), 0xBEEF);
    assert_eq!(cpu.sp, 0xFD);

    // The stack wraps within page 1.
    cpu.sp = 0x00;
    cpu.push_word(0x1234);
    assert_eq!(cpu.sp, 0xFE);
    assert_eq!(cpu.pull_word(), 0x1234);
    assert_eq!(cpu.sp, 0x00);
}

#[test]
fn test_push_pull_byte_wraps() {
    let bus = SimpleBus::new();
    let mut cpu = Cpu::new(bus);
    cpu.sp = 0x00;
    cpu.push_byte(0x77);
    assert_eq!(cpu.sp, 0xFF);
    assert_eq!(cpu.pull_byte(), 0x77);
    assert_eq!(cpu.sp, 0x00);
}

#[test]
fn test_indirect_jmp_page_wrap_bug() {
    // JMP ($10FF) takes its high byte from $1000, not $1100.
    let mut bus = SimpleBus::new();
    bus.write(0x10FF, 0x34);
    bus.write(0x1000, 0x12);
    bus.write(0x1100, 0xAB);
    bus.load(0x8000, &[0x6C, 0xFF, 0x10]);
    bus.write(0xFFFC, 0x00);
    bus.write(0xFFFD, 0x80);

    let mut cpu = Cpu::new(bus);
    cpu.reset();
    cpu.execute_instruction();
    assert_eq!(cpu.pc, 0x1234);
}

#[test]
fn test_branch_cycles_same_page() {
    // A taken BNE within the page: 3 cycles, so 2 remain after the step.
    let mut cpu = setup_cpu(&[0xD0, 0x10]);
    cpu.execute_instruction(); // drain reset, then run BNE in one step
    assert_eq!(cpu.pc, 0x8012);
    let mut cpu = setup_cpu(&[0xD0, 0x10]);
    while cpu.cycles > 0 {
        cpu.step();
    }
    cpu.step();
    assert_eq!(cpu.cycles, 2);
}

#[test]
fn test_branch_cycles_page_cross() {
    // A taken BNE into another page: 4 cycles, so 3 remain after the step.
    let mut bus = SimpleBus::new();
    bus.load(0x80F0, &[0xD0, 0x20]);
    bus.write(0xFFFC, 0xF0);
    bus.write(0xFFFD, 0x80);
    let mut cpu = Cpu::new(bus);
    cpu.reset();
    while cpu.cycles > 0 {
        cpu.step();
    }
    cpu.step();
    assert_eq!(cpu.pc, 0x8112);
    assert_eq!(cpu.cycles, 3);
}

#[test]
fn test_branch_not_taken_cycles() {
    // BEQ with the zero flag clear: 2 cycles, 1 remains after the step.
    let mut cpu = setup_cpu(&[0xF0, 0x10]);
    while cpu.cycles > 0 {
        cpu.step();
    }
    cpu.step();
    assert_eq!(cpu.pc, 0x8002);
    assert_eq!(cpu.cycles, 1);
}

#[test]
fn test_page_cross_penalty_lda_not_sta() {
    // LDA abs,X pays one cycle for a crossed page; STA abs,X never does.
    let mut bus = SimpleBus::new();
    // LDX #$20, LDA $10F0,X (crosses into $1110)
    bus.load(0x8000, &[0xA2, 0x20, 0xBD, 0xF0, 0x10]);
    bus.write(0xFFFC, 0x00);
    bus.write(0xFFFD, 0x80);
    let mut cpu = Cpu::new(bus);
    cpu.reset();
    cpu.execute_instruction(); // LDX
    cpu.step(); // LDA dispatch
    assert_eq!(cpu.cycles, 4); // 4 + 1 - 1

    let mut bus = SimpleBus::new();
    // LDX #$20, LDA $1000,X (no crossing)
    bus.load(0x8000, &[0xA2, 0x20, 0xBD, 0x00, 0x10]);
    bus.write(0xFFFC, 0x00);
    bus.write(0xFFFD, 0x80);
    let mut cpu = Cpu::new(bus);
    cpu.reset();
    cpu.execute_instruction();
    cpu.step();
    assert_eq!(cpu.cycles, 3); // 4 - 1

    let mut bus = SimpleBus::new();
    // LDX #$20, STA $10F0,X (crosses, but stores pay no penalty)
    bus.load(0x8000, &[0xA2, 0x20, 0x9D, 0xF0, 0x10]);
    bus.write(0xFFFC, 0x00);
    bus.write(0xFFFD, 0x80);
    let mut cpu = Cpu::new(bus);
    cpu.reset();
    cpu.execute_instruction();
    cpu.step();
    assert_eq!(cpu.cycles, 4); // 5 - 1

    let mut bus = SimpleBus::new();
    // LDX #$20, STA $1000,X (no crossing: same cost)
    bus.load(0x8000, &[0xA2, 0x20, 0x9D, 0x00, 0x10]);
    bus.write(0xFFFC, 0x00);
    bus.write(0xFFFD, 0x80);
    let mut cpu = Cpu::new(bus);
    cpu.reset();
    cpu.execute_instruction();
    cpu.step();
    assert_eq!(cpu.cycles, 4); // 5 - 1
}

#[test]
fn test_indirect_y_zero_page_wrap() {
    // A pointer byte at $FF reads its high byte from $00.
    let mut bus = SimpleBus::new();
    bus.write(0x00FF, 0x10);
    bus.write(0x0000, 0x20); // base $2010
    bus.write(0x2015, 0x77);
    bus.load(0x8000, &[0xA0, 0x05, 0xB1, 0xFF]);
    bus.write(0xFFFC, 0x00);
    bus.write(0xFFFD, 0x80);
    let mut cpu = Cpu::new(bus);
    cpu.reset();
    cpu.execute_instruction(); // LDY #$05
    cpu.execute_instruction(); // LDA ($FF),Y
    assert_eq!(cpu.a, 0x77);
}

#[test]
fn test_adc_carry_zero_overflow() {
    // LDA #$FF, ADC #$01: wraps to 0 with carry and zero set.
    let mut cpu = setup_cpu(&[0xA9, 0xFF, 0x69, 0x01]);
    cpu.execute_instruction();
    cpu.execute_instruction();
    assert_eq!(cpu.a, 0x00);
    assert!(cpu.status.get(Flag::Carry));
    assert!(cpu.status.get(Flag::Zero));
    assert!(!cpu.status.get(Flag::Overflow));

    // LDA #$7F, ADC #$01: signed overflow into $80.
    let mut cpu = setup_cpu(&[0xA9, 0x7F, 0x69, 0x01]);
    cpu.execute_instruction();
    cpu.execute_instruction();
    assert_eq!(cpu.a, 0x80);
    assert!(cpu.status.get(Flag::Overflow));
    assert!(cpu.status.get(Flag::Negative));
}

#[test]
fn test_sbc_and_compare() {
    // SEC, LDA #$05, SBC #$03 leaves 2.
    let mut cpu = setup_cpu(&[0x38, 0xA9, 0x05, 0xE9, 0x03, 0xC9, 0x02]);
    cpu.execute_instruction(); // SEC
    cpu.execute_instruction(); // LDA
    cpu.execute_instruction(); // SBC
    assert_eq!(cpu.a, 0x02);
    assert!(cpu.status.get(Flag::Carry)); // no borrow
    cpu.execute_instruction(); // CMP #$02
    assert!(cpu.status.get(Flag::Zero));
    assert!(cpu.status.get(Flag::Carry));
}

#[test]
fn test_shifts_and_rotates() {
    // LDA #$81, ASL A: carry out of bit 7.
    let mut cpu = setup_cpu(&[0xA9, 0x81, 0x0A]);
    cpu.execute_instruction();
    cpu.execute_instruction();
    assert_eq!(cpu.a, 0x02);
    assert!(cpu.status.get(Flag::Carry));

    // SEC, LDA #$02, ROR A: carry rotates into bit 7.
    let mut cpu = setup_cpu(&[0x38, 0xA9, 0x02, 0x6A]);
    cpu.execute_instruction();
    cpu.execute_instruction();
    cpu.execute_instruction();
    assert_eq!(cpu.a, 0x81);
    assert!(!cpu.status.get(Flag::Carry));
}

#[test]
fn test_stack_push_pull_instructions() {
    // LDA #$42, PHA, LDA #$00, PLA restores the accumulator.
    let mut cpu = setup_cpu(&[0xA9, 0x42, 0x48, 0xA9, 0x00, 0x68]);
    cpu.execute_instruction();
    cpu.execute_instruction();
    cpu.execute_instruction();
    assert_eq!(cpu.a, 0x00);
    cpu.execute_instruction();
    assert_eq!(cpu.a, 0x42);
}

#[test]
fn test_jsr_rts() {
    // JSR $9000 ... RTS returns past the operand.
    let mut bus = SimpleBus::new();
    bus.load(0x8000, &[0x20, 0x00, 0x90]);
    bus.load(0x9000, &[0x60]); // RTS
    bus.write(0xFFFC, 0x00);
    bus.write(0xFFFD, 0x80);
    let mut cpu = Cpu::new(bus);
    cpu.reset();
    cpu.execute_instruction(); // JSR
    assert_eq!(cpu.pc, 0x9000);
    assert_eq!(cpu.sp, 0xFB);
    cpu.execute_instruction(); // RTS
    assert_eq!(cpu.pc, 0x8003);
    assert_eq!(cpu.sp, 0xFD);
}

#[test]
fn test_brk_rti_transparent() {
    // BRK dispatches through $FFFE; RTI returns with A and the flags
    // restored.
    let mut bus = SimpleBus::new();
    bus.load(0x8000, &[0xA9, 0x7A, 0x00]); // LDA #$7A, BRK
    bus.load(0x9000, &[0x40]); // RTI
    bus.write(0xFFFE, 0x00);
    bus.write(0xFFFF, 0x90);
    bus.write(0xFFFC, 0x00);
    bus.write(0xFFFD, 0x80);
    let mut cpu = Cpu::new(bus);
    cpu.reset();
    cpu.execute_instruction(); // LDA
    cpu.execute_instruction(); // BRK
    assert_eq!(cpu.pc, 0x9000);
    assert!(cpu.status.get(Flag::InterruptDisable));
    cpu.execute_instruction(); // RTI
    assert_eq!(cpu.pc, 0x8004);
    assert_eq!(cpu.a, 0x7A);
    assert_eq!(cpu.sp, 0xFD);
}

#[test]
fn test_halt_stops_stepping() {
    let mut cpu = setup_cpu(&[0xA9, 0x42]);
    cpu.execute_instruction();
    cpu.halt();
    let pc = cpu.pc;
    cpu.step();
    cpu.execute_instruction();
    assert_eq!(cpu.pc, pc);
    assert_eq!(cpu.a, 0x42);
}

#[test]
fn test_simple_bus_load_and_read() {
    let mut bus = SimpleBus::new();
    assert_eq!(bus.read(0x1234), 0x00);
    bus.load(0x1230, &[1, 2, 3]);
    assert_eq!(bus.read(0x1230), 1);
    assert_eq!(bus.read(0x1232), 3);
    assert_eq!(bus.read(0x1233), 0x00);
    bus.write(0x1232, 0xEE);
    assert_eq!(bus.read(0x1232), 0xEE);
    assert_eq!(bus.read_word(0x1231), 0xEE02);
}

#[test]
fn test_memory_helpers() {
    let bus = SimpleBus::new();
    let mut cpu = Cpu::new(bus);
    cpu.write_byte(0x0010, 0x07);
    assert_eq!(cpu.read_byte(0x0010), 0x07);
    cpu.write_byte(0x2000, 0x34);
    cpu.write_byte(0x2001, 0x12);
    assert_eq!(cpu.read_word(0x2000), 0x1234);
}

#[test]
fn test_release_irq_withdraws_request() {
    let mut bus = SimpleBus::new();
    bus.write(0xFFFE, 0x00);
    bus.write(0xFFFF, 0x90);
    bus.load(0x8000, &[0x58, 0xEA, 0xEA]); // CLI, NOP, NOP
    bus.write(0xFFFC, 0x00);
    bus.write(0xFFFD, 0x80);
    let mut cpu = Cpu::new(bus);
    cpu.reset();
    cpu.execute_instruction(); // CLI
    cpu.request_irq();
    cpu.release_irq(); // line dropped before the next step
    cpu.execute_instruction();
    assert_eq!(cpu.pc, 0x8002); // the NOP ran; no dispatch
}

#[test]
fn test_unknown_opcode_is_two_cycle_nop() {
    // $02 is undocumented: it runs as a two-cycle no-op.
    let mut cpu = setup_cpu(&[0x02, 0xA9, 0x55]);
    while cpu.cycles > 0 {
        cpu.step();
    }
    cpu.step();
    assert_eq!(cpu.cycles, 1);
    assert_eq!(cpu.pc, 0x8001);
    cpu.execute_instruction();
    assert_eq!(cpu.a, 0x55);
}

#[test]
fn test_inc_dec_memory() {
    // INC $10 twice, DEC $10 once.
    let mut bus = SimpleBus::new();
    bus.write(0x0010, 0xFF);
    bus.load(0x8000, &[0xE6, 0x10, 0xE6, 0x10, 0xC6, 0x10]);
    bus.write(0xFFFC, 0x00);
    bus.write(0xFFFD, 0x80);
    let mut cpu = Cpu::new(bus);
    cpu.reset();
    cpu.execute_instruction(); // INC: $FF wraps to 0
    assert_eq!(cpu.bus.read(0x10), 0x00);
    assert!(cpu.status.get(Flag::Zero));
    cpu.execute_instruction(); // INC: 1
    assert_eq!(cpu.bus.read(0x10), 0x01);
    cpu.execute_instruction(); // DEC: 0
    assert_eq!(cpu.bus.read(0x10), 0x00);
}

#[test]
fn test_bit_sets_flags_from_operand() {
    // LDA #$01, BIT $10 with $C0 in $10: Z set, N and V from the operand.
    let mut bus = SimpleBus::new();
    bus.write(0x0010, 0xC0);
    bus.load(0x8000, &[0xA9, 0x01, 0x24, 0x10]);
    bus.write(0xFFFC, 0x00);
    bus.write(0xFFFD, 0x80);
    let mut cpu = Cpu::new(bus);
    cpu.reset();
    cpu.execute_instruction();
    cpu.execute_instruction();
    assert!(cpu.status.get(Flag::Zero));
    assert!(cpu.status.get(Flag::Negative));
    assert!(cpu.status.get(Flag::Overflow));
}
