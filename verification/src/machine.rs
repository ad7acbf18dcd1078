use crate::constants::font_bytes;
use crate::framebuffer::{blank_pixels, blit_collides, blit_pixels, Screen};
use crate::instruction_parser::{decode, InstructionType};
use crate::keypad::first_pressed;
use crate::virtual_computer::{CompatibilityMode, FaultKind, StepOutcome};
use vstd::prelude::*;

verus! {

/// The mathematical model of the machine: everything one step reads or writes.
pub struct MachineState {
    /// The 4096 bytes of memory.
    pub memory: Seq<u8>,
    /// The sixteen data registers V0 to VF.
    pub registers: Seq<u8>,
    /// The return addresses, the most recent last.
    pub stack: Seq<u16>,
    /// Address of the next instruction.
    pub program_counter: u16,
    /// The index register I.
    pub index_register: u16,
    pub delay_timer: u8,
    pub sound_timer: u8,
    /// The display.
    pub screen: Screen,
    pub mode: CompatibilityMode,
    /// The fatal error that stopped the machine, if any.
    pub fault: Option<FaultKind>,
    /// The key that a pending key wait has seen go down and waits to see released.
    pub awaited_key: Option<u8>,
}

/// The low eight bits of a number.
pub open spec fn wrap8(v: int) -> u8 {
    (v % 256) as u8
}

/// The value a flag leaves in VF.
pub open spec fn flag_value(on: bool) -> u8 {
    if on {
        1
    } else {
        0
    }
}

impl MachineState {
    /// The state invariant: memory, registers and display have their fixed
    /// sizes, the program counter and every return address lie inside memory,
    /// the stack is within its depth and an awaited key is a key.
    pub open spec fn wf(self) -> bool {
        &&& self.memory.len() == 4096
        &&& self.registers.len() == 16
        &&& self.screen.pixels.len() == 2048
        &&& self.program_counter < 4096
        &&& self.stack.len() <= 16
        &&& forall|i: int| 0 <= i < self.stack.len() ==> #[trigger] self.stack[i] < 4096
        &&& (self.awaited_key matches Some(k) ==> k < 16)
    }

    /// The value of register `x`.
    pub open spec fn reg(self, x: u8) -> u8 {
        self.registers[x as int]
    }

    /// This state with `value` in register `x`.
    pub open spec fn set_reg(self, x: u8, value: u8) -> MachineState {
        MachineState { registers: self.registers.update(x as int, value), ..self }
    }

    /// This state with VF set to 1 or 0.
    pub open spec fn set_flag(self, on: bool) -> MachineState {
        self.set_reg(15, flag_value(on))
    }

    /// This state with the program counter at `pc`, taken to twelve bits.
    pub open spec fn set_pc(self, pc: int) -> MachineState {
        MachineState { program_counter: (pc % 4096) as u16, ..self }
    }

    /// This state with the next instruction skipped where `condition` holds.
    pub open spec fn skip_if(self, condition: bool) -> MachineState {
        if condition {
            self.set_pc(self.program_counter + 2)
        } else {
            self
        }
    }

    /// This state with `index` in the index register.
    pub open spec fn set_index(self, index: u16) -> MachineState {
        MachineState { index_register: index, ..self }
    }

    /// This state stopped by a fatal error.
    pub open spec fn faulted(self, kind: FaultKind) -> MachineState {
        MachineState { fault: Some(kind), ..self }
    }

    /// On the COSMAC VIP the bitwise operations reset VF; on the SUPER-CHIP
    /// they leave it.
    pub open spec fn reset_flag_on_vip(self) -> MachineState {
        if self.mode == CompatibilityMode::CosmicVIP {
            self.set_flag(false)
        } else {
            self
        }
    }
}

/// Memory as construction leaves it: zero but for the font and the program.
pub open spec fn initial_memory(rom: Seq<u8>) -> Seq<u8> {
    Seq::new(
        4096,
        |a: int|
            if 0x50 <= a < 0x50 + 80 {
                font_bytes()[a - 0x50]
            } else if 0x200 <= a < 0x200 + rom.len() {
                rom[a - 0x200]
            } else {
                0u8
            },
    )
}

/// The machine as construction leaves it.
pub open spec fn initial_state(rom: Seq<u8>, mode: CompatibilityMode) -> MachineState {
    MachineState {
        memory: initial_memory(rom),
        registers: Seq::new(16, |i: int| 0u8),
        stack: Seq::empty(),
        program_counter: 0x200,
        index_register: 0,
        delay_timer: 0,
        sound_timer: 0,
        screen: Screen { pixels: blank_pixels(), dirty: false },
        mode,
        fault: None,
        awaited_key: None,
    }
}

/// A timer after one tick: one less, and never below zero.
pub open spec fn ticked(timer: u8) -> u8 {
    if timer > 0 {
        (timer - 1) as u8
    } else {
        0
    }
}

/// The machine after one tick of the 60 Hz clock.
pub open spec fn tick(s: MachineState) -> MachineState {
    MachineState { delay_timer: ticked(s.delay_timer), sound_timer: ticked(s.sound_timer), ..s }
}

/// The machine after `n` ticks.
pub open spec fn ticks(s: MachineState, n: nat) -> MachineState
    decreases n,
{
    if n == 0 {
        s
    } else {
        tick(ticks(s, (n - 1) as nat))
    }
}

/// The big-endian word at the program counter.
pub open spec fn word_at_pc(s: MachineState) -> u16 {
    (s.memory[s.program_counter as int] * 256 + s.memory[s.program_counter + 1]) as u16
}

/// `2NNN`: push the return address and jump; a full stack is a fatal error.
pub open spec fn apply_call(s: MachineState, nnn: u16) -> (MachineState, StepOutcome) {
    if s.stack.len() >= 16 {
        (s.faulted(FaultKind::StackOverflow), StepOutcome::Fault(FaultKind::StackOverflow))
    } else {
        (
            MachineState { stack: s.stack.push(s.program_counter), ..s }.set_pc(nnn as int),
            StepOutcome::Ran,
        )
    }
}

/// `00EE`: return to the most recent return address; with an empty stack
/// nothing changes and the outcome says so.
pub open spec fn apply_return(s: MachineState) -> (MachineState, StepOutcome) {
    if s.stack.len() == 0 {
        (s, StepOutcome::EmptyStackReturn)
    } else {
        (
            MachineState { stack: s.stack.drop_last(), ..s }.set_pc(s.stack.last() as int),
            StepOutcome::Ran,
        )
    }
}

/// The register whose value `BNNN` adds to its target: V0 on the COSMAC VIP,
/// the register named by the high nibble of `NNN` on the SUPER-CHIP.
pub open spec fn offset_register(mode: CompatibilityMode, nnn: u16) -> u8 {
    if mode == CompatibilityMode::CosmicVIP {
        0
    } else {
        ((nnn / 256) % 16) as u8
    }
}

/// The register that `8XY6` and `8XYE` shift: Vy on the COSMAC VIP, Vx on the
/// SUPER-CHIP.
pub open spec fn shift_source(s: MachineState, vx: u8, vy: u8) -> u8 {
    if s.mode == CompatibilityMode::CosmicVIP {
        s.reg(vy)
    } else {
        s.reg(vx)
    }
}

/// `DXYN`: draw the `n` bytes at I as a sprite at (Vx, Vy) and set VF to
/// whether a pixel went off. Sprite bytes beyond memory are a fatal error.
pub open spec fn apply_display(s: MachineState, vx: u8, vy: u8, n: u8) -> (
    MachineState,
    StepOutcome,
) {
    if s.index_register + n > 4096 {
        (s.faulted(FaultKind::MemoryOutOfBounds), StepOutcome::Fault(FaultKind::MemoryOutOfBounds))
    } else {
        let rows = s.memory.subrange(s.index_register as int, s.index_register + n);
        let pixels = blit_pixels(s.screen.pixels, s.reg(vx), s.reg(vy), rows);
        let collision = blit_collides(s.screen.pixels, s.reg(vx), s.reg(vy), rows);
        (
            MachineState { screen: Screen { pixels, dirty: true }, ..s }.set_flag(collision),
            StepOutcome::Ran,
        )
    }
}

/// `EX9E` (`when_pressed`) and `EXA1` (not `when_pressed`): skip the next
/// instruction according to the key whose number is in Vx. A value above 15
/// names no key: it counts as not pressed, and the outcome reports it.
pub open spec fn apply_skip_key(s: MachineState, vx: u8, keys: Seq<bool>, when_pressed: bool) -> (
    MachineState,
    StepOutcome,
) {
    let v = s.reg(vx);
    let pressed = v < 16 && keys[v as int];
    (
        s.skip_if(pressed == when_pressed),
        if v > 15 {
            StepOutcome::KeyOutOfRange(v)
        } else {
            StepOutcome::Ran
        },
    )
}

/// `FX1E`: add Vx to I in sixteen bits; VF becomes 1 where I leaves the twelve-bit
/// range, and is left alone otherwise.
pub open spec fn apply_add_to_index(s: MachineState, vx: u8) -> (MachineState, StepOutcome) {
    let sum = ((s.index_register + s.reg(vx)) % 65536) as u16;
    let moved = s.set_index(sum);
    if s.index_register <= 0xFFF && sum >= 0x1000 {
        (moved.set_flag(true), StepOutcome::Ran)
    } else {
        (moved, StepOutcome::Ran)
    }
}

/// `FX0A`: wait for a key to go down and up again, then store its number in Vx.
/// While waiting, the program counter steps back onto the instruction. With no
/// key seen yet, the lowest-numbered key that is down becomes the awaited one;
/// once the awaited key is up, it is stored and the wait is over.
pub open spec fn apply_wait_key(s: MachineState, vx: u8, keys: Seq<bool>) -> (
    MachineState,
    StepOutcome,
) {
    match s.awaited_key {
        None => (
            MachineState { awaited_key: first_pressed(keys), ..s }.set_pc(s.program_counter - 2),
            StepOutcome::Ran,
        ),
        Some(k) => if keys[k as int] {
            (s.set_pc(s.program_counter - 2), StepOutcome::Ran)
        } else {
            (MachineState { awaited_key: None, ..s }.set_reg(vx, k), StepOutcome::Ran)
        },
    }
}

/// `FX33`: store the three decimal digits of Vx at I, I+1 and I+2.
pub open spec fn apply_bcd(s: MachineState, vx: u8) -> (MachineState, StepOutcome) {
    if s.index_register + 2 >= 4096 {
        (s.faulted(FaultKind::MemoryOutOfBounds), StepOutcome::Fault(FaultKind::MemoryOutOfBounds))
    } else {
        let v = s.reg(vx);
        let i = s.index_register as int;
        (
            MachineState {
                memory: s.memory.update(i, (v / 100) as u8).update(
                    i + 1,
                    ((v / 10) % 10) as u8,
                ).update(i + 2, (v % 10) as u8),
                ..s
            },
            StepOutcome::Ran,
        )
    }
}

/// The index register after `FX55` or `FX65` with operand `x`: advanced past the
/// transferred bytes on the COSMAC VIP, unchanged on the SUPER-CHIP.
pub open spec fn index_after_transfer(s: MachineState, x: u8) -> u16 {
    if s.mode == CompatibilityMode::CosmicVIP {
        (s.index_register + x + 1) as u16
    } else {
        s.index_register
    }
}

/// `FX55`: store V0 to Vx at I onwards.
pub open spec fn apply_store(s: MachineState, x: u8) -> (MachineState, StepOutcome) {
    if s.index_register + x >= 4096 {
        (s.faulted(FaultKind::MemoryOutOfBounds), StepOutcome::Fault(FaultKind::MemoryOutOfBounds))
    } else {
        (
            MachineState {
                memory: Seq::new(
                    4096,
                    |a: int|
                        if s.index_register <= a <= s.index_register + x {
                            s.registers[a - s.index_register]
                        } else {
                            s.memory[a]
                        },
                ),
                index_register: index_after_transfer(s, x),
                ..s
            },
            StepOutcome::Ran,
        )
    }
}

/// `FX65`: load V0 to Vx from I onwards.
pub open spec fn apply_load(s: MachineState, x: u8) -> (MachineState, StepOutcome) {
    if s.index_register + x >= 4096 {
        (s.faulted(FaultKind::MemoryOutOfBounds), StepOutcome::Fault(FaultKind::MemoryOutOfBounds))
    } else {
        (
            MachineState {
                registers: Seq::new(
                    16,
                    |i: int|
                        if i <= x {
                            s.memory[s.index_register + i]
                        } else {
                            s.registers[i]
                        },
                ),
                index_register: index_after_transfer(s, x),
                ..s
            },
            StepOutcome::Ran,
        )
    }
}

/// What one instruction does to a running machine, and the outcome it reports.
/// `keys` is the keypad at this step and `random` the byte drawn for it.
pub open spec fn apply_running(
    s: MachineState,
    instr: InstructionType,
    keys: Seq<bool>,
    random: u8,
) -> (MachineState, StepOutcome) {
    match instr {
        InstructionType::ClearScreen => (
            MachineState { screen: Screen { pixels: blank_pixels(), dirty: true }, ..s },
            StepOutcome::Ran,
        ),
        InstructionType::JumpToMemoryLocation(nnn) => (s.set_pc(nnn as int), StepOutcome::Ran),
        InstructionType::CallSubroutine(nnn) => apply_call(s, nnn),
        InstructionType::ReturnFromSubroutine => apply_return(s),
        InstructionType::SkipIfRegisterEqValue { vx, value } => (
            s.skip_if(s.reg(vx) == value),
            StepOutcome::Ran,
        ),
        InstructionType::SkipIfRegisterNeqValue { vx, value } => (
            s.skip_if(s.reg(vx) != value),
            StepOutcome::Ran,
        ),
        InstructionType::SkipIfRegistersEq { vx, vy } => (
            s.skip_if(s.reg(vx) == s.reg(vy)),
            StepOutcome::Ran,
        ),
        InstructionType::SkipIfRegistersNeq { vx, vy } => (
            s.skip_if(s.reg(vx) != s.reg(vy)),
            StepOutcome::Ran,
        ),
        InstructionType::UpdateRegister { vx, value } => (s.set_reg(vx, value), StepOutcome::Ran),
        InstructionType::AddValueToRegister { vx, value } => (
            s.set_reg(vx, wrap8(s.reg(vx) + value)),
            StepOutcome::Ran,
        ),
        InstructionType::CopyRegister { vx, vy } => (s.set_reg(vx, s.reg(vy)), StepOutcome::Ran),
        InstructionType::BitwiseOR { vx, vy } => (
            s.set_reg(vx, s.reg(vx) | s.reg(vy)).reset_flag_on_vip(),
            StepOutcome::Ran,
        ),
        InstructionType::BitwiseAND { vx, vy } => (
            s.set_reg(vx, s.reg(vx) & s.reg(vy)).reset_flag_on_vip(),
            StepOutcome::Ran,
        ),
        InstructionType::BitwiseXOR { vx, vy } => (
            s.set_reg(vx, s.reg(vx) ^ s.reg(vy)).reset_flag_on_vip(),
            StepOutcome::Ran,
        ),
        InstructionType::AddRegisterToRegister { vx, vy } => (
            s.set_reg(vx, wrap8(s.reg(vx) + s.reg(vy))).set_flag(s.reg(vx) + s.reg(vy) > 255),
            StepOutcome::Ran,
        ),
        InstructionType::SubtractXY { vx, vy } => (
            s.set_reg(vx, wrap8(s.reg(vx) - s.reg(vy))).set_flag(s.reg(vx) >= s.reg(vy)),
            StepOutcome::Ran,
        ),
        InstructionType::SubtractYX { vx, vy } => (
            s.set_reg(vx, wrap8(s.reg(vy) - s.reg(vx))).set_flag(s.reg(vy) >= s.reg(vx)),
            StepOutcome::Ran,
        ),
        InstructionType::ShiftRight { vx, vy } => (
            s.set_reg(vx, shift_source(s, vx, vy) / 2).set_flag(shift_source(s, vx, vy) % 2 == 1),
            StepOutcome::Ran,
        ),
        InstructionType::ShiftLeft { vx, vy } => (
            s.set_reg(vx, wrap8(shift_source(s, vx, vy) * 2)).set_flag(
                shift_source(s, vx, vy) >= 128,
            ),
            StepOutcome::Ran,
        ),
        InstructionType::SetIndexRegister(nnn) => (s.set_index(nnn), StepOutcome::Ran),
        InstructionType::JumpWithOffset(nnn) => (
            s.set_pc(nnn + s.reg(offset_register(s.mode, nnn))),
            StepOutcome::Ran,
        ),
        InstructionType::GenerateRandomNumber { vx, bitmask } => (
            s.set_reg(vx, random & bitmask),
            StepOutcome::Ran,
        ),
        InstructionType::Display { vx, vy, n } => apply_display(s, vx, vy, n),
        InstructionType::SkipIfPressedVX(vx) => apply_skip_key(s, vx, keys, true),
        InstructionType::SkipIfNotPressedVX(vx) => apply_skip_key(s, vx, keys, false),
        InstructionType::FetchDelayTimerToVX(vx) => (
            s.set_reg(vx, s.delay_timer),
            StepOutcome::Ran,
        ),
        InstructionType::SetDelayTimerToVX(vx) => (
            MachineState { delay_timer: s.reg(vx), ..s },
            StepOutcome::Ran,
        ),
        InstructionType::SetSoundTimerToVX(vx) => (
            MachineState { sound_timer: s.reg(vx), ..s },
            StepOutcome::Ran,
        ),
        InstructionType::AddToIndexFromVX(vx) => apply_add_to_index(s, vx),
        InstructionType::WaitForKeyInVX(vx) => apply_wait_key(s, vx, keys),
        InstructionType::SetIndexToFontCharInVX(vx) => (
            s.set_index((0x50 + (s.reg(vx) % 16) * 5) as u16),
            StepOutcome::Ran,
        ),
        InstructionType::BinaryCodedDecimalConversionForVX(vx) => apply_bcd(s, vx),
        InstructionType::StoreVariableRegistersToMemoryUpToVX(vx) => apply_store(s, vx),
        InstructionType::LoadMemoryToVariableRegistersFromVXAddress(vx) => apply_load(s, vx),
    }
}

/// What one instruction does to the machine. A machine that a fatal error
/// stopped executes nothing more and reports that error.
pub open spec fn apply(s: MachineState, instr: InstructionType, keys: Seq<bool>, random: u8) -> (
    MachineState,
    StepOutcome,
) {
    match s.fault {
        Some(kind) => (s, StepOutcome::Fault(kind)),
        None => apply_running(s, instr, keys, random),
    }
}

/// One step: fetch the word at the program counter, advance the program
/// counter by two, decode and apply. A stopped machine stays as it is; with no
/// two bytes left at the program counter the machine halts; a word that stands
/// for no instruction is reported and skipped.
pub open spec fn step(s: MachineState, keys: Seq<bool>, random: u8) -> (MachineState, StepOutcome) {
    match s.fault {
        Some(kind) => (s, StepOutcome::Fault(kind)),
        None => if s.program_counter >= 4095 {
            (s, StepOutcome::Halted)
        } else {
            let fetched = s.set_pc(s.program_counter + 2);
            match decode(word_at_pc(s)) {
                None => (fetched, StepOutcome::UnknownOpcode(word_at_pc(s))),
                Some(instr) => apply_running(fetched, instr, keys, random),
            }
        },
    }
}

/// Whether the step that the machine is about to make draws a random byte:
/// it is running, can fetch, and the word at the program counter is a random
/// number instruction.
pub open spec fn step_draws(s: MachineState) -> bool {
    &&& s.fault is None
    &&& s.program_counter < 4095
    &&& decode(word_at_pc(s)) matches Some(instr)
    &&& instr is GenerateRandomNumber
}

} // verus!
