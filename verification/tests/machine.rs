use chip8::framebuffer::FrameBuffer;
use chip8::instruction_parser::InstructionType;
use chip8::keypad::{KeyPress, KeypadSnapshot};
use chip8::virtual_computer::{
    CompatibilityMode, FaultKind, LoadError, StepOutcome, VirtualComputer,
};

fn load(rom: &[u8], mode: CompatibilityMode) -> VirtualComputer {
    VirtualComputer::new(rom, mode).unwrap()
}

fn run(rom: &[u8], mode: CompatibilityMode, steps: usize) -> VirtualComputer {
    let mut vm = load(rom, mode);
    let keys = KeypadSnapshot::new();
    for _ in 0..steps {
        assert_eq!(vm.step(&keys), StepOutcome::Ran);
    }
    vm
}

fn lit_pixels(fb: &FrameBuffer) -> usize {
    let mut count = 0;
    for row in 0..32 {
        for col in 0..64 {
            if fb.get_pixel(row, col).unwrap() {
                count += 1;
            }
        }
    }
    count
}

const FONT: [u8; 80] = [
    0xF0, 0x90, 0x90, 0x90, 0xF0, 0x20, 0x60, 0x20, 0x20, 0x70, 0xF0, 0x10, 0xF0, 0x80, 0xF0, 0xF0,
    0x10, 0xF0, 0x10, 0xF0, 0x90, 0x90, 0xF0, 0x10, 0x10, 0xF0, 0x80, 0xF0, 0x10, 0xF0, 0xF0, 0x80,
    0xF0, 0x90, 0xF0, 0xF0, 0x10, 0x20, 0x40, 0x40, 0xF0, 0x90, 0xF0, 0x90, 0xF0, 0xF0, 0x90, 0xF0,
    0x10, 0xF0, 0xF0, 0x90, 0xF0, 0x90, 0x90, 0xE0, 0x90, 0xE0, 0x90, 0xE0, 0xF0, 0x80, 0x80, 0x80,
    0xF0, 0xE0, 0x90, 0x90, 0x90, 0xE0, 0xF0, 0x80, 0xF0, 0x80, 0xF0, 0xF0, 0x80, 0xF0, 0x80, 0x80,
];

#[test]
fn construction_sets_the_initial_state() {
    let rom = [0x12u8, 0x34, 0x56];
    let vm = load(&rom, CompatibilityMode::SuperChip);
    assert_eq!(vm.program_counter(), 0x200);
    assert_eq!(vm.index_register(), 0);
    assert_eq!(vm.delay_timer(), 0);
    assert_eq!(vm.sound_timer(), 0);
    assert!(!vm.sound_active());
    assert_eq!(vm.stack_depth(), 0);
    assert_eq!(vm.fault(), None);
    assert_eq!(vm.compatibility_mode(), CompatibilityMode::SuperChip);
    for x in 0..16 {
        assert_eq!(vm.register(x), 0);
    }
    for address in 0..4096u16 {
        let expected = if (0x50..0xA0).contains(&address) {
            FONT[address as usize - 0x50]
        } else if (0x200..0x203).contains(&address) {
            rom[address as usize - 0x200]
        } else {
            0
        };
        assert_eq!(vm.memory_at(address), expected, "address {:#x}", address);
    }
    assert_eq!(lit_pixels(vm.framebuffer()), 0);
    assert!(!vm.framebuffer().is_dirty());
}

#[test]
fn default_machine_is_empty_and_cosmac_vip() {
    let vm = VirtualComputer::default();
    assert_eq!(vm.compatibility_mode(), CompatibilityMode::CosmicVIP);
    assert_eq!(vm.program_counter(), 0x200);
    assert_eq!(vm.memory_at(0x50), 0xF0);
    assert_eq!(vm.memory_at(0x9F), 0x80);
    assert_eq!(vm.memory_at(0x200), 0);
    assert_eq!(vm.delay_timer(), 0);
    assert_eq!(vm.sound_timer(), 0);
}

#[test]
fn rom_of_largest_size_loads() {
    let mut rom = vec![0u8; 3584];
    rom[0] = 0xAB;
    rom[3583] = 0xCD;
    let vm = VirtualComputer::new(&rom, CompatibilityMode::CosmicVIP).unwrap();
    assert_eq!(vm.memory_at(0x200), 0xAB);
    assert_eq!(vm.memory_at(0xFFF), 0xCD);
}

#[test]
fn rom_one_byte_too_large_fails() {
    let rom = vec![0u8; 3585];
    let loaded = VirtualComputer::new(&rom, CompatibilityMode::CosmicVIP);
    assert!(matches!(loaded, Err(LoadError::RomTooLarge)));
}

#[test]
fn empty_rom_loads() {
    assert!(VirtualComputer::new(&[], CompatibilityMode::CosmicVIP).is_ok());
}

#[test]
fn clear_then_jump() {
    let rom = [0x00, 0xE0, 0x12, 0x02];
    let vm = run(&rom, CompatibilityMode::CosmicVIP, 1);
    assert_eq!(lit_pixels(vm.framebuffer()), 0);
    assert_eq!(vm.program_counter(), 0x202);
    let vm = run(&rom, CompatibilityMode::CosmicVIP, 2);
    assert_eq!(vm.program_counter(), 0x202);
    let vm = run(&rom, CompatibilityMode::CosmicVIP, 7);
    assert_eq!(vm.program_counter(), 0x202);
}

#[test]
fn add_with_overflow() {
    let vm = run(&[0x60, 0xFF, 0x61, 0x01, 0x80, 0x14], CompatibilityMode::CosmicVIP, 3);
    assert_eq!(vm.register(0), 0x00);
    assert_eq!(vm.register(0xF), 1);
}

#[test]
fn add_without_overflow_clears_flag() {
    let vm = run(
        &[0x6F, 0x01, 0x60, 0xFE, 0x61, 0x01, 0x80, 0x14],
        CompatibilityMode::CosmicVIP,
        4,
    );
    assert_eq!(vm.register(0), 0xFF);
    assert_eq!(vm.register(0xF), 0);
}

#[test]
fn add_into_flag_register_keeps_the_flag() {
    // VF = 0xF0 + 0x20: the sum 0x10 is written first, then the carry.
    let vm = run(&[0x6F, 0xF0, 0x61, 0x20, 0x8F, 0x14], CompatibilityMode::CosmicVIP, 3);
    assert_eq!(vm.register(0xF), 1);
}

#[test]
fn sub_no_borrow() {
    let vm = run(&[0x60, 0x05, 0x61, 0x02, 0x80, 0x15], CompatibilityMode::CosmicVIP, 3);
    assert_eq!(vm.register(0), 0x03);
    assert_eq!(vm.register(0xF), 1);
}

#[test]
fn sub_with_borrow_wraps() {
    let vm = run(&[0x60, 0x02, 0x61, 0x05, 0x80, 0x15], CompatibilityMode::CosmicVIP, 3);
    assert_eq!(vm.register(0), 0xFD);
    assert_eq!(vm.register(0xF), 0);
}

#[test]
fn sub_of_equal_values_sets_flag() {
    let vm = run(&[0x60, 0x05, 0x61, 0x05, 0x80, 0x15], CompatibilityMode::CosmicVIP, 3);
    assert_eq!(vm.register(0), 0);
    assert_eq!(vm.register(0xF), 1);
    let vm = run(&[0x60, 0x05, 0x61, 0x05, 0x80, 0x17], CompatibilityMode::CosmicVIP, 3);
    assert_eq!(vm.register(0), 0);
    assert_eq!(vm.register(0xF), 1);
}

#[test]
fn reverse_sub() {
    let vm = run(&[0x60, 0x02, 0x61, 0x05, 0x80, 0x17], CompatibilityMode::CosmicVIP, 3);
    assert_eq!(vm.register(0), 0x03);
    assert_eq!(vm.register(0xF), 1);
    let vm = run(&[0x60, 0x05, 0x61, 0x02, 0x80, 0x17], CompatibilityMode::CosmicVIP, 3);
    assert_eq!(vm.register(0), 0xFD);
    assert_eq!(vm.register(0xF), 0);
}

#[test]
fn add_immediate_wraps_and_leaves_flag() {
    let rom = [0x70, 0xFF, 0x70, 0xFF];
    let vm = run(&rom, CompatibilityMode::CosmicVIP, 1);
    assert_eq!(vm.register(0), 0xFF);
    assert_eq!(vm.register(0xF), 0);
    let vm = run(&rom, CompatibilityMode::CosmicVIP, 2);
    assert_eq!(vm.register(0), 0xFE);
    assert_eq!(vm.register(0xF), 0);
}

#[test]
fn bcd() {
    let vm = run(&[0x60, 156, 0xA3, 0x00, 0xF0, 0x33], CompatibilityMode::CosmicVIP, 3);
    assert_eq!(vm.memory_at(0x300), 1);
    assert_eq!(vm.memory_at(0x301), 5);
    assert_eq!(vm.memory_at(0x302), 6);
    assert_eq!(vm.index_register(), 0x300);
}

#[test]
fn bcd_then_load_gives_the_digits() {
    for value in [0u8, 7, 10, 99, 100, 156, 209, 255] {
        // V5 = value; I = 0x400; FX33; F265 on the SUPER-CHIP keeps I.
        let rom = [0x65, value, 0xA4, 0x00, 0xF5, 0x33, 0xF2, 0x65];
        let vm = run(&rom, CompatibilityMode::SuperChip, 4);
        assert_eq!(vm.register(0), value / 100);
        assert_eq!(vm.register(1), (value / 10) % 10);
        assert_eq!(vm.register(2), value % 10);
        let vm = run(&rom, CompatibilityMode::CosmicVIP, 4);
        assert_eq!(
            (vm.register(0), vm.register(1), vm.register(2)),
            (value / 100, (value / 10) % 10, value % 10)
        );
    }
}

#[test]
fn store_advances_index_on_cosmac_vip_only() {
    let rom = [0x60, 0xAA, 0x61, 0xBB, 0xA3, 0x00, 0xF1, 0x55];
    let vm = run(&rom, CompatibilityMode::CosmicVIP, 4);
    assert_eq!(vm.memory_at(0x300), 0xAA);
    assert_eq!(vm.memory_at(0x301), 0xBB);
    assert_eq!(vm.memory_at(0x302), 0);
    assert_eq!(vm.index_register(), 0x302);
    let vm = run(&rom, CompatibilityMode::SuperChip, 4);
    assert_eq!(vm.memory_at(0x300), 0xAA);
    assert_eq!(vm.memory_at(0x301), 0xBB);
    assert_eq!(vm.index_register(), 0x300);
}

#[test]
fn load_advances_index_on_cosmac_vip_only() {
    // I = 0x208, F365, then four data bytes.
    let rom = [0xA2, 0x08, 0xF3, 0x65, 0, 0, 0, 0, 0x11, 0x22, 0x33, 0x44, 0x55];
    let vm = run(&rom, CompatibilityMode::CosmicVIP, 2);
    assert_eq!(
        (vm.register(0), vm.register(1), vm.register(2), vm.register(3), vm.register(4)),
        (0x11, 0x22, 0x33, 0x44, 0)
    );
    assert_eq!(vm.index_register(), 0x20C);
    let vm = run(&rom, CompatibilityMode::SuperChip, 2);
    assert_eq!(vm.register(3), 0x44);
    assert_eq!(vm.index_register(), 0x208);
}

#[test]
fn store_of_all_registers_reaches_the_last_byte() {
    let mut vm = load(&[], CompatibilityMode::CosmicVIP);
    let keys = KeypadSnapshot::new();
    for x in 0..16u8 {
        vm.apply_instruction(InstructionType::UpdateRegister { vx: x, value: 0x10 + x }, &keys, 0);
    }
    vm.apply_instruction(InstructionType::SetIndexRegister(0xFF0), &keys, 0);
    let outcome = vm.apply_instruction(
        InstructionType::StoreVariableRegistersToMemoryUpToVX(15),
        &keys,
        0,
    );
    assert_eq!(outcome, StepOutcome::Ran);
    for x in 0..16u16 {
        assert_eq!(vm.memory_at(0xFF0 + x), 0x10 + x as u8);
    }
    assert_eq!(vm.index_register(), 0x1000);
}

#[test]
fn store_beyond_memory_is_a_fault() {
    let mut vm = load(&[], CompatibilityMode::CosmicVIP);
    let keys = KeypadSnapshot::new();
    vm.apply_instruction(InstructionType::SetIndexRegister(0xFF1), &keys, 0);
    vm.apply_instruction(InstructionType::UpdateRegister { vx: 0, value: 9 }, &keys, 0);
    let outcome = vm.apply_instruction(
        InstructionType::StoreVariableRegistersToMemoryUpToVX(15),
        &keys,
        0,
    );
    assert_eq!(outcome, StepOutcome::Fault(FaultKind::MemoryOutOfBounds));
    assert_eq!(vm.fault(), Some(FaultKind::MemoryOutOfBounds));
    assert_eq!(vm.memory_at(0xFF1), 0);
    assert_eq!(vm.index_register(), 0xFF1);
}

#[test]
fn load_and_bcd_and_draw_beyond_memory_are_faults() {
    let keys = KeypadSnapshot::new();
    for instr in [
        InstructionType::LoadMemoryToVariableRegistersFromVXAddress(1),
        InstructionType::BinaryCodedDecimalConversionForVX(0),
        InstructionType::Display { vx: 0, vy: 0, n: 2 },
    ] {
        let mut vm = load(&[], CompatibilityMode::SuperChip);
        vm.apply_instruction(InstructionType::SetIndexRegister(0xFFF), &keys, 0);
        assert_eq!(
            vm.apply_instruction(instr, &keys, 0),
            StepOutcome::Fault(FaultKind::MemoryOutOfBounds)
        );
        assert_eq!(vm.register(0), 0);
        assert_eq!(vm.register(0xF), 0);
        assert_eq!(vm.memory_at(0xFFF), 0);
    }
    // One byte at the last address is inside memory.
    let mut vm = load(&[], CompatibilityMode::SuperChip);
    vm.apply_instruction(InstructionType::SetIndexRegister(0xFFF), &keys, 0);
    assert_eq!(
        vm.apply_instruction(InstructionType::Display { vx: 0, vy: 0, n: 1 }, &keys, 0),
        StepOutcome::Ran
    );
    assert_eq!(
        vm.apply_instruction(
            InstructionType::LoadMemoryToVariableRegistersFromVXAddress(0),
            &keys,
            0
        ),
        StepOutcome::Ran
    );
}

#[test]
fn a_faulted_machine_rejects_further_steps() {
    // I = 0xFFF; F133 faults; the jump after it never runs.
    let rom = [0xAF, 0xFF, 0xF1, 0x33, 0x12, 0x00];
    let mut vm = load(&rom, CompatibilityMode::CosmicVIP);
    let keys = KeypadSnapshot::new();
    assert_eq!(vm.step(&keys), StepOutcome::Ran);
    assert_eq!(vm.step(&keys), StepOutcome::Fault(FaultKind::MemoryOutOfBounds));
    let pc = vm.program_counter();
    assert_eq!(pc, 0x204);
    for _ in 0..3 {
        assert_eq!(vm.step(&keys), StepOutcome::Fault(FaultKind::MemoryOutOfBounds));
        assert_eq!(vm.program_counter(), pc);
    }
    assert_eq!(
        vm.apply_instruction(InstructionType::UpdateRegister { vx: 0, value: 1 }, &keys, 0),
        StepOutcome::Fault(FaultKind::MemoryOutOfBounds)
    );
    assert_eq!(vm.register(0), 0);
    assert_eq!(
        vm.execute_instruction(InstructionType::ClearScreen, &keys),
        StepOutcome::Fault(FaultKind::MemoryOutOfBounds)
    );
}

#[test]
fn call_and_return() {
    // 0x200: call 0x206; 0x202: V0 = 1; 0x204: jump 0x204; 0x206: V1 = 2; 0x208: return.
    let rom = [0x22, 0x06, 0x60, 0x01, 0x12, 0x04, 0x61, 0x02, 0x00, 0xEE];
    let mut vm = load(&rom, CompatibilityMode::CosmicVIP);
    let keys = KeypadSnapshot::new();
    assert_eq!(vm.step(&keys), StepOutcome::Ran);
    assert_eq!(vm.program_counter(), 0x206);
    assert_eq!(vm.stack_depth(), 1);
    assert_eq!(vm.step(&keys), StepOutcome::Ran);
    assert_eq!(vm.step(&keys), StepOutcome::Ran);
    assert_eq!(vm.program_counter(), 0x202);
    assert_eq!(vm.stack_depth(), 0);
    assert_eq!(vm.step(&keys), StepOutcome::Ran);
    assert_eq!((vm.register(0), vm.register(1)), (1, 2));
}

#[test]
fn return_with_empty_stack_is_ignored() {
    let rom = [0x00, 0xEE, 0x60, 0x07];
    let mut vm = load(&rom, CompatibilityMode::CosmicVIP);
    let keys = KeypadSnapshot::new();
    assert_eq!(vm.step(&keys), StepOutcome::EmptyStackReturn);
    assert_eq!(vm.program_counter(), 0x202);
    assert_eq!(vm.fault(), None);
    assert_eq!(vm.step(&keys), StepOutcome::Ran);
    assert_eq!(vm.register(0), 7);
}

#[test]
fn seventeenth_nested_call_overflows_the_stack() {
    // A subroutine that calls itself.
    let rom = [0x22, 0x00];
    let mut vm = load(&rom, CompatibilityMode::CosmicVIP);
    let keys = KeypadSnapshot::new();
    for depth in 1..=16 {
        assert_eq!(vm.step(&keys), StepOutcome::Ran);
        assert_eq!(vm.stack_depth(), depth);
    }
    assert_eq!(vm.step(&keys), StepOutcome::Fault(FaultKind::StackOverflow));
    assert_eq!(vm.stack_depth(), 16);
    assert_eq!(vm.fault(), Some(FaultKind::StackOverflow));
    assert_eq!(vm.step(&keys), StepOutcome::Fault(FaultKind::StackOverflow));
}

#[test]
fn unknown_opcode_is_reported_and_skipped() {
    let rom = [0xF0, 0x08, 0x60, 0x01];
    let mut vm = load(&rom, CompatibilityMode::CosmicVIP);
    let keys = KeypadSnapshot::new();
    assert_eq!(vm.step(&keys), StepOutcome::UnknownOpcode(0xF008));
    assert_eq!(vm.program_counter(), 0x202);
    assert_eq!(vm.step(&keys), StepOutcome::Ran);
    assert_eq!(vm.register(0), 1);
    // Zeroed memory holds no instruction.
    assert_eq!(vm.step(&keys), StepOutcome::UnknownOpcode(0x0000));
}

#[test]
fn fetch_reads_big_endian_and_advances() {
    let mut vm = load(&[0xAB, 0xCD, 0x12, 0x34], CompatibilityMode::CosmicVIP);
    assert_eq!(vm.fetch_instruction_and_increment_pc(), Some(0xABCD));
    assert_eq!(vm.program_counter(), 0x202);
    assert_eq!(vm.fetch_instruction_and_increment_pc(), Some(0x1234));
    assert_eq!(vm.program_counter(), 0x204);
}

#[test]
fn no_fetch_at_the_last_byte() {
    // Jump to 0xFFF: one byte is left there.
    let mut vm = load(&[0x1F, 0xFF], CompatibilityMode::CosmicVIP);
    let keys = KeypadSnapshot::new();
    assert_eq!(vm.step(&keys), StepOutcome::Ran);
    assert_eq!(vm.program_counter(), 0xFFF);
    assert_eq!(vm.fetch_instruction_and_increment_pc(), None);
    assert_eq!(vm.program_counter(), 0xFFF);
    assert_eq!(vm.step(&keys), StepOutcome::Halted);
    assert_eq!(vm.step(&keys), StepOutcome::Halted);
    assert_eq!(vm.program_counter(), 0xFFF);
    assert_eq!(vm.fault(), None);
}

#[test]
fn program_counter_stays_in_twelve_bits() {
    // The last instruction of the largest program: the fetch at 0xFFE wraps.
    let mut rom = vec![0u8; 3584];
    rom[0] = 0x1F;
    rom[1] = 0xFE;
    rom[3582] = 0x6A;
    rom[3583] = 0x55;
    let mut vm = load(&rom, CompatibilityMode::CosmicVIP);
    let keys = KeypadSnapshot::new();
    assert_eq!(vm.step(&keys), StepOutcome::Ran);
    assert_eq!(vm.program_counter(), 0xFFE);
    assert_eq!(vm.step(&keys), StepOutcome::Ran);
    assert_eq!(vm.register(0xA), 0x55);
    assert_eq!(vm.program_counter(), 0);
}

#[test]
fn skips() {
    // V0 = 5; 3005 skips; 4005 does not; V1 = 5; 5010 skips; 9010 does not.
    let rom = [
        0x60, 0x05, 0x30, 0x05, 0x00, 0x00, 0x40, 0x05, 0x61, 0x05, 0x50, 0x10, 0x00, 0x00, 0x90,
        0x10, 0x62, 0x01,
    ];
    let vm = run(&rom, CompatibilityMode::CosmicVIP, 7);
    assert_eq!(vm.program_counter(), 0x212);
    assert_eq!(vm.register(2), 1);
    // 3006 does not skip; 4006 skips.
    let rom = [0x60, 0x05, 0x30, 0x06, 0x40, 0x06, 0x00, 0x00, 0x62, 0x01];
    let vm = run(&rom, CompatibilityMode::CosmicVIP, 4);
    assert_eq!(vm.register(2), 1);
    // 5010 with different values does not skip; 9010 skips.
    let rom = [0x60, 0x05, 0x50, 0x10, 0x90, 0x10, 0x00, 0x00, 0x62, 0x01];
    let vm = run(&rom, CompatibilityMode::CosmicVIP, 4);
    assert_eq!(vm.register(2), 1);
}

#[test]
fn copy_and_bitwise_operations() {
    let rom = [0x60, 0b1100, 0x61, 0b1010, 0x82, 0x00, 0x82, 0x11, 0x83, 0x00, 0x83, 0x12, 0x84, 0x00, 0x84, 0x13];
    let vm = run(&rom, CompatibilityMode::SuperChip, 8);
    assert_eq!(vm.register(2), 0b1110);
    assert_eq!(vm.register(3), 0b1000);
    assert_eq!(vm.register(4), 0b0110);
}

#[test]
fn bitwise_operations_reset_flag_on_cosmac_vip_only() {
    for op in [0x01u8, 0x02, 0x03] {
        let rom = [0x6F, 0x09, 0x80, 0x10 | op];
        let vm = run(&rom, CompatibilityMode::CosmicVIP, 2);
        assert_eq!(vm.register(0xF), 0);
        let vm = run(&rom, CompatibilityMode::SuperChip, 2);
        assert_eq!(vm.register(0xF), 9);
    }
}

#[test]
fn or_twice_is_or_once() {
    for mode in [CompatibilityMode::CosmicVIP, CompatibilityMode::SuperChip] {
        for (x, y) in [(0u8, 1u8), (1, 0), (0xF, 1), (1, 0xF), (2, 2), (0xF, 0xF)] {
            let keys = KeypadSnapshot::new();
            let mut once = load(&[], mode);
            let mut twice = load(&[], mode);
            for vm in [&mut once, &mut twice] {
                vm.apply_instruction(InstructionType::UpdateRegister { vx: 0, value: 0x35 }, &keys, 0);
                vm.apply_instruction(InstructionType::UpdateRegister { vx: 1, value: 0xC1 }, &keys, 0);
                vm.apply_instruction(InstructionType::UpdateRegister { vx: 2, value: 0x0F }, &keys, 0);
                vm.apply_instruction(InstructionType::UpdateRegister { vx: 15, value: 0x81 }, &keys, 0);
                vm.apply_instruction(InstructionType::BitwiseOR { vx: x, vy: y }, &keys, 0);
            }
            twice.apply_instruction(InstructionType::BitwiseOR { vx: x, vy: y }, &keys, 0);
            for r in 0..16 {
                assert_eq!(once.register(r), twice.register(r));
            }
        }
    }
    let vm = run(&[0x60, 0x35, 0x61, 0xC1, 0x80, 0x11, 0x80, 0x11], CompatibilityMode::CosmicVIP, 4);
    assert_eq!(vm.register(0), 0xF5);
}

#[test]
fn xor_twice_restores_the_register() {
    for mode in [CompatibilityMode::CosmicVIP, CompatibilityMode::SuperChip] {
        let vm = run(&[0x60, 0x35, 0x61, 0xC1, 0x80, 0x13, 0x80, 0x13], mode, 4);
        assert_eq!(vm.register(0), 0x35);
        let vm = run(&[0x60, 0x35, 0x61, 0xC1, 0x80, 0x13], mode, 3);
        assert_eq!(vm.register(0), 0xF4);
    }
    // With both operands the same register the value is lost.
    let vm = run(&[0x60, 0x35, 0x80, 0x03, 0x80, 0x03], CompatibilityMode::SuperChip, 3);
    assert_eq!(vm.register(0), 0);
}

#[test]
fn shifts_read_vy_on_cosmac_vip_and_vx_on_super_chip() {
    // V0 = 0x03, V1 = 0x84.
    let right = [0x60, 0x03, 0x61, 0x84, 0x80, 0x16];
    let vm = run(&right, CompatibilityMode::CosmicVIP, 3);
    assert_eq!((vm.register(0), vm.register(0xF)), (0x42, 0));
    let vm = run(&right, CompatibilityMode::SuperChip, 3);
    assert_eq!((vm.register(0), vm.register(0xF)), (0x01, 1));
    let left = [0x60, 0x03, 0x61, 0x84, 0x80, 0x1E];
    let vm = run(&left, CompatibilityMode::CosmicVIP, 3);
    assert_eq!((vm.register(0), vm.register(0xF)), (0x08, 1));
    let vm = run(&left, CompatibilityMode::SuperChip, 3);
    assert_eq!((vm.register(0), vm.register(0xF)), (0x06, 0));
}

#[test]
fn jump_with_offset_uses_v0_or_vx() {
    // V0 = 4, V3 = 8, B3 10.
    let rom = [0x60, 0x04, 0x63, 0x08, 0xB3, 0x10];
    let vm = run(&rom, CompatibilityMode::CosmicVIP, 3);
    assert_eq!(vm.program_counter(), 0x314);
    let vm = run(&rom, CompatibilityMode::SuperChip, 3);
    assert_eq!(vm.program_counter(), 0x318);
    // The target is taken to twelve bits.
    let vm = run(&[0x60, 0xFF, 0xBF, 0xFF], CompatibilityMode::CosmicVIP, 2);
    assert_eq!(vm.program_counter(), 0x0FE);
}

#[test]
fn set_index_and_font_address() {
    let vm = run(&[0xA1, 0x23], CompatibilityMode::CosmicVIP, 1);
    assert_eq!(vm.index_register(), 0x123);
    let vm = run(&[0x60, 0x0A, 0xF0, 0x29], CompatibilityMode::CosmicVIP, 2);
    assert_eq!(vm.index_register(), 0x50 + 50);
    assert_eq!(vm.memory_at(vm.index_register() + 4), 0x90);
    // Only the low nibble of Vx counts.
    let vm = run(&[0x60, 0x3F, 0xF0, 0x29], CompatibilityMode::CosmicVIP, 2);
    assert_eq!(vm.index_register(), 0x50 + 75);
}

#[test]
fn add_to_index_sets_flag_when_leaving_twelve_bits() {
    let vm = run(&[0xAF, 0xFE, 0x60, 0x01, 0xF0, 0x1E], CompatibilityMode::CosmicVIP, 3);
    assert_eq!(vm.index_register(), 0xFFF);
    assert_eq!(vm.register(0xF), 0);
    let vm = run(&[0xAF, 0xFE, 0x60, 0x02, 0xF0, 0x1E], CompatibilityMode::CosmicVIP, 3);
    assert_eq!(vm.index_register(), 0x1000);
    assert_eq!(vm.register(0xF), 1);
    // Already beyond twelve bits: the flag is left alone.
    let vm = run(
        &[0xAF, 0xFE, 0x60, 0x02, 0xF0, 0x1E, 0x6F, 0x07, 0xF0, 0x1E],
        CompatibilityMode::CosmicVIP,
        5,
    );
    assert_eq!(vm.index_register(), 0x1002);
    assert_eq!(vm.register(0xF), 7);
}

#[test]
fn add_to_index_wraps_at_sixteen_bits() {
    let mut vm = load(&[], CompatibilityMode::CosmicVIP);
    let keys = KeypadSnapshot::new();
    vm.apply_instruction(InstructionType::SetIndexRegister(0xFFF), &keys, 0);
    vm.apply_instruction(InstructionType::UpdateRegister { vx: 0, value: 0xFF }, &keys, 0);
    // 0xFFF + 240 * 0xFF = 0xFF0F.
    for _ in 0..240 {
        vm.apply_instruction(InstructionType::AddToIndexFromVX(0), &keys, 0);
    }
    assert_eq!(vm.index_register(), 0xFF0F);
    vm.apply_instruction(InstructionType::UpdateRegister { vx: 15, value: 0 }, &keys, 0);
    vm.apply_instruction(InstructionType::AddToIndexFromVX(0), &keys, 0);
    assert_eq!(vm.index_register(), 0x000E);
    assert_eq!(vm.register(0xF), 0);
}

#[test]
fn timers_are_set_read_and_count_down() {
    // V0 = 5; delay = V0; sound = V0; V1 = delay.
    let rom = [0x60, 0x05, 0xF0, 0x15, 0xF0, 0x18, 0xF1, 0x07];
    let mut vm = run(&rom, CompatibilityMode::CosmicVIP, 4);
    assert_eq!((vm.delay_timer(), vm.sound_timer(), vm.register(1)), (5, 5, 5));
    assert!(vm.sound_active());
    vm.tick();
    vm.decrement_timers();
    vm.tick();
    assert_eq!((vm.delay_timer(), vm.sound_timer()), (2, 2));
    assert!(vm.sound_active());
    for _ in 0..60 {
        vm.tick();
    }
    assert_eq!((vm.delay_timer(), vm.sound_timer()), (0, 0));
    assert!(!vm.sound_active());
}

#[test]
fn sixty_ticks_take_sixty_off() {
    let rom = [0x60, 200, 0x61, 60, 0xF0, 0x15, 0xF1, 0x18];
    let mut vm = run(&rom, CompatibilityMode::CosmicVIP, 4);
    for _ in 0..60 {
        vm.tick();
    }
    assert_eq!(vm.delay_timer(), 140);
    assert_eq!(vm.sound_timer(), 0);
}

#[test]
fn random_number_is_masked() {
    let keys = KeypadSnapshot::new();
    let mut vm = load(&[0xC0, 0x0F, 0xC1, 0x00, 0xC2, 0xFF], CompatibilityMode::CosmicVIP);
    assert_eq!(vm.step_with(&keys, 0xA7), StepOutcome::Ran);
    assert_eq!(vm.register(0), 0x07);
    assert_eq!(vm.step_with(&keys, 0xA7), StepOutcome::Ran);
    assert_eq!(vm.register(1), 0x00);
    assert_eq!(vm.step_with(&keys, 0xA7), StepOutcome::Ran);
    assert_eq!(vm.register(2), 0xA7);
    assert_eq!(vm.register(0xF), 0);
}

#[test]
fn drawn_random_number_is_masked() {
    let keys = KeypadSnapshot::new();
    for _ in 0..64 {
        let mut vm = load(&[0x60, 0xFF, 0xC0, 0x3C, 0x61, 0xFF, 0xC1, 0x00], CompatibilityMode::CosmicVIP);
        for _ in 0..4 {
            assert_eq!(vm.step(&keys), StepOutcome::Ran);
        }
        assert_eq!(vm.register(0) & !0x3C, 0);
        assert_eq!(vm.register(1), 0);
        let outcome = vm.execute_instruction(
            InstructionType::GenerateRandomNumber { vx: 2, bitmask: 0x81 },
            &keys,
        );
        assert_eq!(outcome, StepOutcome::Ran);
        assert_eq!(vm.register(2) & !0x81, 0);
    }
}

#[test]
fn step_with_and_step_agree_without_randomness() {
    let rom = [0x60, 0x12, 0x70, 0x01, 0xA2, 0x00, 0xF0, 0x55, 0x12, 0x00];
    let keys = KeypadSnapshot::new();
    let mut a = load(&rom, CompatibilityMode::CosmicVIP);
    let mut b = load(&rom, CompatibilityMode::CosmicVIP);
    for _ in 0..12 {
        assert_eq!(a.step(&keys), b.step_with(&keys, 0x5A));
        assert_eq!(a.program_counter(), b.program_counter());
        assert_eq!(a.index_register(), b.index_register());
        assert_eq!(a.register(0), b.register(0));
        assert_eq!(a.memory_at(0x200), b.memory_at(0x200));
    }
}

#[test]
fn skip_if_key_pressed() {
    // V0 = 0xB; EX9E.
    let rom = [0x60, 0x0B, 0xE0, 0x9E];
    let mut keys = KeypadSnapshot::new();
    let mut vm = load(&rom, CompatibilityMode::CosmicVIP);
    vm.step(&keys);
    assert_eq!(vm.step(&keys), StepOutcome::Ran);
    assert_eq!(vm.program_counter(), 0x204);
    keys.press(KeyPress::KeyB);
    let mut vm = load(&rom, CompatibilityMode::CosmicVIP);
    vm.step(&keys);
    assert_eq!(vm.step(&keys), StepOutcome::Ran);
    assert_eq!(vm.program_counter(), 0x206);
}

#[test]
fn skip_if_key_not_pressed() {
    let rom = [0x60, 0x0B, 0xE0, 0xA1];
    let mut keys = KeypadSnapshot::new();
    let mut vm = load(&rom, CompatibilityMode::CosmicVIP);
    vm.step(&keys);
    assert_eq!(vm.step(&keys), StepOutcome::Ran);
    assert_eq!(vm.program_counter(), 0x206);
    keys.press(KeyPress::KeyB);
    let mut vm = load(&rom, CompatibilityMode::CosmicVIP);
    vm.step(&keys);
    assert_eq!(vm.step(&keys), StepOutcome::Ran);
    assert_eq!(vm.program_counter(), 0x204);
}

#[test]
fn key_number_above_fifteen_counts_as_not_pressed() {
    let mut keys = KeypadSnapshot::new();
    for k in 0..16 {
        keys.press(KeyPress::from_index(k));
    }
    let mut vm = load(&[0x60, 0x1B, 0xE0, 0x9E], CompatibilityMode::CosmicVIP);
    vm.step(&keys);
    assert_eq!(vm.step(&keys), StepOutcome::KeyOutOfRange(0x1B));
    assert_eq!(vm.program_counter(), 0x204);
    let mut vm = load(&[0x60, 0x1B, 0xE0, 0xA1], CompatibilityMode::CosmicVIP);
    vm.step(&keys);
    assert_eq!(vm.step(&keys), StepOutcome::KeyOutOfRange(0x1B));
    assert_eq!(vm.program_counter(), 0x206);
    assert_eq!(vm.fault(), None);
}

#[test]
fn wait_for_key_needs_press_and_release() {
    // F30A; V0 = 1.
    let rom = [0xF3, 0x0A, 0x60, 0x01];
    let mut vm = load(&rom, CompatibilityMode::CosmicVIP);
    let mut keys = KeypadSnapshot::new();
    for _ in 0..3 {
        assert_eq!(vm.step(&keys), StepOutcome::Ran);
        assert_eq!(vm.program_counter(), 0x200);
    }
    keys.press(KeyPress::Key7);
    keys.press(KeyPress::KeyC);
    for _ in 0..3 {
        assert_eq!(vm.step(&keys), StepOutcome::Ran);
        assert_eq!(vm.program_counter(), 0x200);
        assert_eq!(vm.register(3), 0);
        vm.tick();
    }
    // Releasing another key ends nothing.
    keys.release(KeyPress::KeyC);
    assert_eq!(vm.step(&keys), StepOutcome::Ran);
    assert_eq!(vm.program_counter(), 0x200);
    keys.release(KeyPress::Key7);
    assert_eq!(vm.step(&keys), StepOutcome::Ran);
    assert_eq!(vm.program_counter(), 0x202);
    assert_eq!(vm.register(3), 7);
    assert_eq!(vm.step(&keys), StepOutcome::Ran);
    assert_eq!(vm.register(0), 1);
}

#[test]
fn wait_for_key_at_address_zero_steps_back_round_memory() {
    let mut vm = load(&[], CompatibilityMode::CosmicVIP);
    let keys = KeypadSnapshot::new();
    vm.apply_instruction(InstructionType::JumpToMemoryLocation(1), &keys, 0);
    vm.apply_instruction(InstructionType::WaitForKeyInVX(0), &keys, 0);
    assert_eq!(vm.program_counter(), 0xFFF);
}
