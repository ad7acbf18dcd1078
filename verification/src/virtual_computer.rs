use crate::constants::{
    font_data, FONT_GLYPH_SIZE, FONT_SIZE, FONT_STARTING_MEMORY_ADDRESS, MAX_ROM_SIZE, MEMORY_SIZE,
    PROGRAM_START, STACK_DEPTH,
};
use crate::framebuffer::FrameBuffer;
use crate::instruction_parser::{parse_instruction, InstructionType};
use crate::keypad::KeypadSnapshot;
use crate::machine;
use crate::machine::MachineState;
use vstd::prelude::*;

verus! {

/// Which interpreter's behaviour the machine follows where the two differ.
#[derive(Debug, PartialEq, Eq, Clone, Copy, Structural)]
pub enum CompatibilityMode {
    /// The CHIP-8 interpreter of the COSMAC VIP
    CosmicVIP,
    /// The SUPER-CHIP interpreter of the HP-48
    SuperChip,
}

/// A fatal error. The machine that met one executes nothing more.
#[derive(Debug, PartialEq, Eq, Clone, Copy, Structural)]
pub enum FaultKind {
    /// A call with the stack already at its depth limit.
    StackOverflow,
    /// An access through the index register beyond the end of memory.
    MemoryOutOfBounds,
}

/// How one step ended.
#[derive(Debug, PartialEq, Eq, Clone, Copy, Structural)]
pub enum StepOutcome {
    /// An instruction was executed.
    Ran,
    /// No instruction can be fetched at the program counter.
    Halted,
    /// The fetched word stands for no instruction; it was skipped.
    UnknownOpcode(u16),
    /// A key instruction found a value above 15 in its register; the key
    /// counted as not pressed.
    KeyOutOfRange(u8),
    /// A return with an empty stack; it was ignored.
    EmptyStackReturn,
    /// A fatal error stopped the machine, now or at an earlier step.
    Fault(FaultKind),
}

/// Why a machine could not be constructed.
#[derive(Debug, PartialEq, Eq, Clone, Copy, Structural)]
pub enum LoadError {
    /// The program does not fit between the entry point and the end of memory.
    RomTooLarge,
}

/// Draws one byte from the thread-local random number generator, by
/// `rand::random`. Nothing is claimed of the byte. The generator seeds itself
/// from the operating system at its first use in a thread and panics where
/// that fails; `step_with` and `apply_instruction` take the byte from the caller
/// and draw nothing.
#[verifier::external_body]
fn random_byte() -> (byte: u8) {
    rand::random::<u8>()
}

/// The CHIP-8 machine.
pub struct VirtualComputer {
    memory: [u8; 4096],
    display: FrameBuffer,
    stack: Vec<u16>,
    program_counter: u16,
    index_register: u16,
    delay_timer: u8,
    sound_timer: u8,
    variable_registers: [u8; 16],
    compatibility_mode: CompatibilityMode,
    fault: Option<FaultKind>,
    awaited_key: Option<u8>,
}

impl View for VirtualComputer {
    type V = MachineState;

    closed spec fn view(&self) -> MachineState {
        MachineState {
            memory: self.memory@,
            registers: self.variable_registers@,
            stack: self.stack@,
            program_counter: self.program_counter,
            index_register: self.index_register,
            delay_timer: self.delay_timer,
            sound_timer: self.sound_timer,
            screen: self.display@,
            mode: self.compatibility_mode,
            fault: self.fault,
            awaited_key: self.awaited_key,
        }
    }
}

impl Default for VirtualComputer {
    /// A machine on the COSMAC VIP's behaviour with no program loaded.
    fn default() -> (vm: VirtualComputer)
        ensures
            vm@ == machine::initial_state(Seq::empty(), CompatibilityMode::CosmicVIP),
            vm.wf(),
    {
        let mut memory = [0u8; 4096];
        let font = font_data();
        let mut i: usize = 0;
        while i < FONT_SIZE
            invariant
                i <= 80,
                font@ == crate::constants::font_bytes(),
                forall|a: int|
                    0 <= a < 4096 ==> #[trigger] memory@[a] == if 0x50 <= a < 0x50 + i {
                        font@[a - 0x50]
                    } else {
                        0u8
                    },
            decreases 80 - i,
        {
            memory[FONT_STARTING_MEMORY_ADDRESS as usize + i] = font[i];
            i += 1;
        }
        let vm = VirtualComputer {
            memory,
            display: FrameBuffer::new(),
            stack: Vec::new(),
            program_counter: PROGRAM_START,
            index_register: 0,
            delay_timer: 0,
            sound_timer: 0,
            variable_registers: [0u8; 16],
            compatibility_mode: CompatibilityMode::CosmicVIP,
            fault: None,
            awaited_key: None,
        };
        proof {
            let model = machine::initial_state(Seq::empty(), CompatibilityMode::CosmicVIP);
            vm.display.lemma_size();
            assert(vm@.memory =~= model.memory);
            assert(vm@.registers =~= model.registers);
            assert(vm@.stack =~= model.stack);
            assert(vm@.screen == model.screen);
        }
        vm
    }
}

impl VirtualComputer {
    /// The state invariant holds of the machine.
    pub open spec fn wf(&self) -> bool {
        self@.wf()
    }

    /// Constructs the machine with the font in place, the program at `0x200`,
    /// the program counter at `0x200` and all else zero. A program of more than
    /// 3584 bytes does not fit and is refused.
    pub fn new(rom: &[u8], mode: CompatibilityMode) -> (loaded: Result<VirtualComputer, LoadError>)
        ensures
            rom@.len() <= 3584 ==> (loaded matches Ok(vm) && vm@ == machine::initial_state(
                rom@,
                mode,
            ) && vm.wf()),
            rom@.len() > 3584 ==> loaded == Err::<VirtualComputer, LoadError>(
                LoadError::RomTooLarge,
            ),
    {
        if rom.len() > MAX_ROM_SIZE {
            return Err(LoadError::RomTooLarge);
        }
        let mut vm = VirtualComputer::default();
        vm.compatibility_mode = mode;
        let mut i: usize = 0;
        while i < rom.len()
            invariant
                i <= rom@.len() <= 3584,
                vm@ == (MachineState {
                    memory: vm@.memory,
                    ..machine::initial_state(Seq::empty(), mode)
                }),
                vm@.memory.len() == 4096,
                forall|a: int|
                    0 <= a < 4096 ==> #[trigger] vm@.memory[a] == if 0x200 <= a < 0x200 + i {
                        rom@[a - 0x200]
                    } else {
                        machine::initial_memory(Seq::empty())[a]
                    },
            decreases rom@.len() - i,
        {
            vm.memory[PROGRAM_START as usize + i] = rom[i];
            i += 1;
        }
        assert(vm@.memory =~= machine::initial_memory(rom@));
        Ok(vm)
    }

    /// Counts both timers down by one, stopping at zero.
    pub fn decrement_timers(&mut self)
        ensures
            final(self)@ == machine::tick(old(self)@),
            old(self).wf() ==> final(self).wf(),
    {
        if self.delay_timer > 0 {
            self.delay_timer -= 1;
        }
        if self.sound_timer > 0 {
            self.sound_timer -= 1;
        }
    }

    /// One tick of the 60 Hz clock.
    pub fn tick(&mut self)
        ensures
            final(self)@ == machine::tick(old(self)@),
            old(self).wf() ==> final(self).wf(),
    {
        self.decrement_timers();
    }

    /// As many ticks of the 60 Hz clock as have fallen due.
    pub fn advance_timers(&mut self, ticks: u64)
        ensures
            final(self)@ == machine::ticks(old(self)@, ticks as nat),
            old(self).wf() ==> final(self).wf(),
    {
        proof {
            crate::laws::law_ticks_count_down(self@, ticks as nat);
        }
        let steps: u8 = if ticks > 255 {
            255
        } else {
            ticks as u8
        };
        self.delay_timer = self.delay_timer.saturating_sub(steps);
        self.sound_timer = self.sound_timer.saturating_sub(steps);
    }

    /// Reads the big-endian word at the program counter and advances the program
    /// counter by two. With fewer than two bytes left at the program counter
    /// nothing is fetched and nothing changes.
    pub fn fetch_instruction_and_increment_pc(&mut self) -> (fetched: Option<u16>)
        ensures
            old(self).wf() ==> final(self).wf(),
            old(self)@.program_counter >= 4095 ==> fetched.is_none() && final(self)@ == old(
                self,
            )@,
            old(self)@.program_counter < 4095 ==> fetched == Some(machine::word_at_pc(old(self)@))
                && final(self)@ == old(self)@.set_pc(old(self)@.program_counter + 2),
    {
        if self.program_counter >= 4095 {
            return None;
        }
        let high = self.memory[self.program_counter as usize];
        let low = self.memory[self.program_counter as usize + 1];
        let instr: u16 = (high as u16) * 256 + low as u16;
        self.program_counter = (self.program_counter + 2) % 4096;
        Some(instr)
    }

    /// The display, for the host to present.
    pub fn framebuffer(&self) -> (fb: &FrameBuffer)
        ensures
            fb@ == self@.screen,
    {
        &self.display
    }

    /// Records that the host has presented the display.
    pub fn mark_presented(&mut self)
        ensures
            final(self)@ == (MachineState {
                screen: crate::framebuffer::Screen {
                    pixels: old(self)@.screen.pixels,
                    dirty: false,
                },
                ..old(self)@
            }),
            old(self).wf() ==> final(self).wf(),
    {
        self.display.mark_presented();
    }

    /// Whether the host should sound the beep.
    pub fn sound_active(&self) -> (on: bool)
        ensures
            on == (self@.sound_timer > 0),
    {
        self.sound_timer > 0
    }

    /// Address of the next instruction.
    pub fn program_counter(&self) -> (pc: u16)
        ensures
            pc == self@.program_counter,
    {
        self.program_counter
    }

    /// The index register.
    pub fn index_register(&self) -> (index: u16)
        ensures
            index == self@.index_register,
    {
        self.index_register
    }

    /// The value of register `x`.
    pub fn register(&self, x: u8) -> (value: u8)
        requires
            x < 16,
        ensures
            value == self@.reg(x),
    {
        self.variable_registers[x as usize]
    }

    /// The byte at `address`.
    pub fn memory_at(&self, address: u16) -> (byte: u8)
        requires
            address < 4096,
        ensures
            byte == self@.memory[address as int],
    {
        self.memory[address as usize]
    }

    /// The delay timer.
    pub fn delay_timer(&self) -> (timer: u8)
        ensures
            timer == self@.delay_timer,
    {
        self.delay_timer
    }

    /// The sound timer.
    pub fn sound_timer(&self) -> (timer: u8)
        ensures
            timer == self@.sound_timer,
    {
        self.sound_timer
    }

    /// Number of return addresses on the stack.
    pub fn stack_depth(&self) -> (depth: usize)
        ensures
            depth == self@.stack.len(),
    {
        self.stack.len()
    }

    /// The interpreter whose behaviour the machine follows.
    pub fn compatibility_mode(&self) -> (mode: CompatibilityMode)
        ensures
            mode == self@.mode,
    {
        self.compatibility_mode
    }

    /// The fatal error that stopped the machine, if any.
    pub fn fault(&self) -> (fault: Option<FaultKind>)
        ensures
            fault == self@.fault,
    {
        self.fault
    }

    /// Writes `value` to register `x`.
    fn set_register(&mut self, x: u8, value: u8)
        requires
            x < 16,
        ensures
            final(self)@ == old(self)@.set_reg(x, value),
    {
        self.variable_registers[x as usize] = value;
    }

    /// Writes 1 or 0 to VF.
    fn set_flag(&mut self, on: bool)
        ensures
            final(self)@ == old(self)@.set_flag(on),
    {
        self.variable_registers[15] = if on {
            1
        } else {
            0
        };
    }

    /// Resets VF where the machine follows the COSMAC VIP.
    fn reset_flag_on_vip(&mut self)
        ensures
            final(self)@ == old(self)@.reset_flag_on_vip(),
    {
        if self.compatibility_mode == CompatibilityMode::CosmicVIP {
            self.set_flag(false);
        }
    }

    /// Moves the program counter to `target`, taken to twelve bits.
    fn jump(&mut self, target: u16)
        ensures
            final(self)@ == old(self)@.set_pc(target as int),
    {
        self.program_counter = target % 4096;
    }

    /// Skips the next instruction where `condition` holds.
    fn skip_if(&mut self, condition: bool)
        requires
            old(self)@.program_counter < 4096,
        ensures
            final(self)@ == old(self)@.skip_if(condition),
    {
        if condition {
            self.program_counter = (self.program_counter + 2) % 4096;
        }
    }

    /// Moves the program counter back onto the instruction just fetched.
    fn step_back(&mut self)
        requires
            old(self)@.program_counter < 4096,
        ensures
            final(self)@ == old(self)@.set_pc(old(self)@.program_counter - 2),
    {
        self.program_counter = (self.program_counter + 4094) % 4096;
    }

    /// Stops the machine with a fatal error.
    fn fail(&mut self, kind: FaultKind) -> (outcome: StepOutcome)
        ensures
            final(self)@ == old(self)@.faulted(kind),
            outcome == StepOutcome::Fault(kind),
    {
        self.fault = Some(kind);
        StepOutcome::Fault(kind)
    }

    /// `2NNN`.
    fn call_subroutine(&mut self, nnn: u16) -> (outcome: StepOutcome)
        ensures
            (final(self)@, outcome) == machine::apply_call(old(self)@, nnn),
    {
        if self.stack.len() >= STACK_DEPTH {
            self.fail(FaultKind::StackOverflow)
        } else {
            self.stack.push(self.program_counter);
            self.jump(nnn);
            StepOutcome::Ran
        }
    }

    /// `00EE`.
    fn return_from_subroutine(&mut self) -> (outcome: StepOutcome)
        ensures
            (final(self)@, outcome) == machine::apply_return(old(self)@),
    {
        match self.stack.pop() {
            Some(pc) => {
                self.jump(pc);
                StepOutcome::Ran
            },
            None => StepOutcome::EmptyStackReturn,
        }
    }

    /// The value that a shift instruction shifts.
    fn shift_source(&self, vx: u8, vy: u8) -> (value: u8)
        requires
            vx < 16,
            vy < 16,
        ensures
            value == machine::shift_source(self@, vx, vy),
    {
        if self.compatibility_mode == CompatibilityMode::CosmicVIP {
            self.variable_registers[vy as usize]
        } else {
            self.variable_registers[vx as usize]
        }
    }

    /// `DXYN`.
    fn display_sprite(&mut self, vx: u8, vy: u8, n: u8) -> (outcome: StepOutcome)
        requires
            vx < 16,
            vy < 16,
        ensures
            (final(self)@, outcome) == machine::apply_display(old(self)@, vx, vy, n),
    {
        let start: usize = self.index_register as usize;
        let end: usize = start + n as usize;
        if end > MEMORY_SIZE {
            return self.fail(FaultKind::MemoryOutOfBounds);
        }
        let x = self.variable_registers[vx as usize];
        let y = self.variable_registers[vy as usize];
        let collision = self.display.blit_sprite(x, y, &self.memory[start..end]);
        self.set_flag(collision);
        StepOutcome::Ran
    }

    /// `EX9E` where `when_pressed`, `EXA1` where not.
    fn skip_on_key(&mut self, vx: u8, keys: &KeypadSnapshot, when_pressed: bool) -> (outcome:
        StepOutcome)
        requires
            vx < 16,
            old(self)@.program_counter < 4096,
        ensures
            (final(self)@, outcome) == machine::apply_skip_key(
                old(self)@,
                vx,
                keys@,
                when_pressed,
            ),
    {
        let v = self.variable_registers[vx as usize];
        if v > 15 {
            self.skip_if(!when_pressed);
            StepOutcome::KeyOutOfRange(v)
        } else {
            let pressed = keys.is_down(v);
            self.skip_if(pressed == when_pressed);
            StepOutcome::Ran
        }
    }

    /// `FX1E`.
    fn add_to_index(&mut self, vx: u8) -> (outcome: StepOutcome)
        requires
            vx < 16,
        ensures
            (final(self)@, outcome) == machine::apply_add_to_index(old(self)@, vx),
    {
        let v = self.variable_registers[vx as usize];
        let low_before = self.index_register <= 0xFFF;
        let sum = self.index_register.wrapping_add(v as u16);
        self.index_register = sum;
        if low_before && sum >= 0x1000 {
            self.set_flag(true);
        }
        StepOutcome::Ran
    }

    /// `FX0A`.
    fn wait_for_key(&mut self, vx: u8, keys: &KeypadSnapshot) -> (outcome: StepOutcome)
        requires
            vx < 16,
            old(self).wf(),
        ensures
            (final(self)@, outcome) == machine::apply_wait_key(old(self)@, vx, keys@),
    {
        match self.awaited_key {
            None => {
                self.awaited_key = keys.first_pressed();
                self.step_back();
            },
            Some(k) => {
                if keys.is_down(k) {
                    self.step_back();
                } else {
                    self.awaited_key = None;
                    self.set_register(vx, k);
                }
            },
        }
        StepOutcome::Ran
    }

    /// `FX33`.
    fn store_decimal_digits(&mut self, vx: u8) -> (outcome: StepOutcome)
        requires
            vx < 16,
        ensures
            (final(self)@, outcome) == machine::apply_bcd(old(self)@, vx),
    {
        let base: usize = self.index_register as usize;
        if base + 2 >= MEMORY_SIZE {
            return self.fail(FaultKind::MemoryOutOfBounds);
        }
        let v = self.variable_registers[vx as usize];
        self.memory[base] = v / 100;
        self.memory[base + 1] = (v / 10) % 10;
        self.memory[base + 2] = v % 10;
        StepOutcome::Ran
    }

    /// Moves the index register past `x + 1` transferred bytes where the machine
    /// follows the COSMAC VIP.
    fn advance_index_on_vip(&mut self, x: u8)
        requires
            old(self)@.index_register + x < 4096,
        ensures
            final(self)@ == old(self)@.set_index(machine::index_after_transfer(old(self)@, x)),
    {
        if self.compatibility_mode == CompatibilityMode::CosmicVIP {
            self.index_register = self.index_register + x as u16 + 1;
        }
    }

    /// `FX55`.
    fn store_registers(&mut self, x: u8) -> (outcome: StepOutcome)
        requires
            x < 16,
        ensures
            (final(self)@, outcome) == machine::apply_store(old(self)@, x),
    {
        let base: usize = self.index_register as usize;
        if base + x as usize >= MEMORY_SIZE {
            return self.fail(FaultKind::MemoryOutOfBounds);
        }
        let ghost before = self@;
        let mut i: usize = 0;
        while i <= x as usize
            invariant
                x < 16,
                i <= x + 1,
                base == before.index_register,
                base + x < 4096,
                before.memory.len() == 4096,
                self@ == (MachineState { memory: self@.memory, ..before }),
                self@.memory.len() == 4096,
                forall|a: int|
                    0 <= a < 4096 ==> #[trigger] self@.memory[a] == if base <= a < base + i {
                        before.registers[a - base]
                    } else {
                        before.memory[a]
                    },
            decreases x + 1 - i,
        {
            self.memory[base + i] = self.variable_registers[i];
            i += 1;
        }
        self.advance_index_on_vip(x);
        assert(self@.memory =~= machine::apply_store(before, x).0.memory);
        StepOutcome::Ran
    }

    /// `FX65`.
    fn load_registers(&mut self, x: u8) -> (outcome: StepOutcome)
        requires
            x < 16,
        ensures
            (final(self)@, outcome) == machine::apply_load(old(self)@, x),
    {
        let base: usize = self.index_register as usize;
        if base + x as usize >= MEMORY_SIZE {
            return self.fail(FaultKind::MemoryOutOfBounds);
        }
        let ghost before = self@;
        let mut i: usize = 0;
        while i <= x as usize
            invariant
                x < 16,
                i <= x + 1,
                base == before.index_register,
                base + x < 4096,
                before.registers.len() == 16,
                self@ == (MachineState { registers: self@.registers, ..before }),
                self@.registers.len() == 16,
                forall|r: int|
                    0 <= r < 16 ==> #[trigger] self@.registers[r] == if r < i {
                        before.memory[base + r]
                    } else {
                        before.registers[r]
                    },
            decreases x + 1 - i,
        {
            self.variable_registers[i] = self.memory[base + i];
            i += 1;
        }
        self.advance_index_on_vip(x);
        assert(self@.registers =~= machine::apply_load(before, x).0.registers);
        StepOutcome::Ran
    }

    /// The result of a bitwise operation: `value` to register `x`, then VF reset on
    /// the COSMAC VIP.
    fn write_and_reset_flag(&mut self, x: u8, value: u8) -> (outcome: StepOutcome)
        requires
            x < 16,
        ensures
            final(self)@ == old(self)@.set_reg(x, value).reset_flag_on_vip(),
            outcome == StepOutcome::Ran,
    {
        self.set_register(x, value);
        self.reset_flag_on_vip();
        StepOutcome::Ran
    }

    /// The result of an arithmetic operation: `value` to register `x`, then the
    /// flag to VF, so that the flag wins where `x` is VF.
    fn write_with_flag(&mut self, x: u8, value: u8, flag: bool) -> (outcome: StepOutcome)
        requires
            x < 16,
        ensures
            final(self)@ == old(self)@.set_reg(x, value).set_flag(flag),
            outcome == StepOutcome::Ran,
    {
        self.set_register(x, value);
        self.set_flag(flag);
        StepOutcome::Ran
    }

    /// `8XYE`.
    fn shift_left(&mut self, vx: u8, vy: u8) -> (outcome: StepOutcome)
        requires
            vx < 16,
            vy < 16,
        ensures
            final(self)@ == old(self)@.set_reg(
                vx,
                machine::wrap8(machine::shift_source(old(self)@, vx, vy) * 2),
            ).set_flag(machine::shift_source(old(self)@, vx, vy) >= 128),
            outcome == StepOutcome::Ran,
    {
        let x = self.shift_source(vx, vy);
        assert((x << 1) == (x * 2) % 256) by (bit_vector);
        assert(((x >> 7) & 1 == 1) == (x >= 128)) by (bit_vector);
        self.write_with_flag(vx, x << 1, (x >> 7) & 1 == 1)
    }

    /// `8XY6`.
    fn shift_right(&mut self, vx: u8, vy: u8) -> (outcome: StepOutcome)
        requires
            vx < 16,
            vy < 16,
        ensures
            final(self)@ == old(self)@.set_reg(
                vx,
                machine::shift_source(old(self)@, vx, vy) / 2,
            ).set_flag(machine::shift_source(old(self)@, vx, vy) % 2 == 1),
            outcome == StepOutcome::Ran,
    {
        let x = self.shift_source(vx, vy);
        assert((x >> 1) == x / 2) by (bit_vector);
        assert((x & 1 == 1) == (x % 2 == 1)) by (bit_vector);
        self.write_with_flag(vx, x >> 1, x & 1 == 1)
    }

    /// `BNNN`.
    fn jump_with_offset(&mut self, nnn: u16) -> (outcome: StepOutcome)
        requires
            nnn < 4096,
        ensures
            final(self)@ == old(self)@.set_pc(
                nnn + old(self)@.reg(machine::offset_register(old(self)@.mode, nnn)),
            ),
            outcome == StepOutcome::Ran,
    {
        let offset = match self.compatibility_mode {
            CompatibilityMode::CosmicVIP => self.variable_registers[0],
            CompatibilityMode::SuperChip => self.variable_registers[((nnn / 256) % 16) as usize],
        };
        self.jump(nnn + offset as u16);
        StepOutcome::Ran
    }

    /// `FX29`.
    fn point_index_at_glyph(&mut self, vx: u8) -> (outcome: StepOutcome)
        requires
            vx < 16,
        ensures
            final(self)@ == old(self)@.set_index((0x50 + (old(self)@.reg(vx) % 16) * 5) as u16),
            outcome == StepOutcome::Ran,
    {
        let v = self.variable_registers[vx as usize];
        assert(0xF & v == v % 16) by (bit_vector);
        let x = 0xF & v;
        // Characters are 5 bytes
        self.index_register = FONT_STARTING_MEMORY_ADDRESS as u16 + (x as u16) * FONT_GLYPH_SIZE as u16;
        StepOutcome::Ran
    }

    /// Executes one instruction on a running machine.
    #[verifier::spinoff_prover]
    fn run_instruction(
        &mut self,
        instr: InstructionType,
        keys: &KeypadSnapshot,
        random: u8,
    ) -> (outcome: StepOutcome)
        requires
            old(self).wf(),
            instr.well_formed(),
        ensures
            (final(self)@, outcome) == machine::apply_running(old(self)@, instr, keys@, random),
    {
        match instr {
            InstructionType::ClearScreen => {
                self.display.clear();
                StepOutcome::Ran
            },
            InstructionType::JumpToMemoryLocation(nnn) => {
                self.jump(nnn);
                StepOutcome::Ran
            },
            InstructionType::CallSubroutine(nnn) => self.call_subroutine(nnn),
            InstructionType::ReturnFromSubroutine => self.return_from_subroutine(),
            InstructionType::SkipIfRegisterEqValue { vx, value } => {
                self.skip_if(self.variable_registers[vx as usize] == value);
                StepOutcome::Ran
            },
            InstructionType::SkipIfRegisterNeqValue { vx, value } => {
                self.skip_if(self.variable_registers[vx as usize] != value);
                StepOutcome::Ran
            },
            InstructionType::SkipIfRegistersEq { vx, vy } => {
                self.skip_if(
                    self.variable_registers[vx as usize] == self.variable_registers[vy as usize],
                );
                StepOutcome::Ran
            },
            InstructionType::SkipIfRegistersNeq { vx, vy } => {
                self.skip_if(
                    self.variable_registers[vx as usize] != self.variable_registers[vy as usize],
                );
                StepOutcome::Ran
            },
            InstructionType::UpdateRegister { vx, value } => {
                self.set_register(vx, value);
                StepOutcome::Ran
            },
            InstructionType::AddValueToRegister { vx, value } => {
                self.set_register(vx, self.variable_registers[vx as usize].wrapping_add(value));
                StepOutcome::Ran
            },
            InstructionType::CopyRegister { vx, vy } => {
                self.set_register(vx, self.variable_registers[vy as usize]);
                StepOutcome::Ran
            },
            InstructionType::BitwiseOR { vx, vy } => {
                let a = self.variable_registers[vx as usize];
                let b = self.variable_registers[vy as usize];
                self.write_and_reset_flag(vx, a | b)
            },
            InstructionType::BitwiseAND { vx, vy } => {
                let a = self.variable_registers[vx as usize];
                let b = self.variable_registers[vy as usize];
                self.write_and_reset_flag(vx, a & b)
            },
            InstructionType::BitwiseXOR { vx, vy } => {
                let a = self.variable_registers[vx as usize];
                let b = self.variable_registers[vy as usize];
                self.write_and_reset_flag(vx, a ^ b)
            },
            InstructionType::AddRegisterToRegister { vx, vy } => {
                let a = self.variable_registers[vx as usize];
                let b = self.variable_registers[vy as usize];
                self.write_with_flag(vx, a.wrapping_add(b), a > 255 - b)
            },
            InstructionType::SubtractXY { vx, vy } => {
                let minuend = self.variable_registers[vx as usize];
                let subtrahend = self.variable_registers[vy as usize];
                self.write_with_flag(vx, minuend.wrapping_sub(subtrahend), minuend >= subtrahend)
            },
            InstructionType::SubtractYX { vx, vy } => {
                let minuend = self.variable_registers[vy as usize];
                let subtrahend = self.variable_registers[vx as usize];
                self.write_with_flag(vx, minuend.wrapping_sub(subtrahend), minuend >= subtrahend)
            },
            InstructionType::ShiftLeft { vx, vy } => self.shift_left(vx, vy),
            InstructionType::ShiftRight { vx, vy } => self.shift_right(vx, vy),
            InstructionType::SetIndexRegister(nnn) => {
                self.index_register = nnn;
                StepOutcome::Ran
            },
            InstructionType::JumpWithOffset(nnn) => self.jump_with_offset(nnn),
            InstructionType::GenerateRandomNumber { vx, bitmask } => {
                self.set_register(vx, random & bitmask);
                StepOutcome::Ran
            },
            InstructionType::Display { vx, vy, n } => self.display_sprite(vx, vy, n),
            InstructionType::SkipIfPressedVX(vx) => self.skip_on_key(vx, keys, true),
            InstructionType::SkipIfNotPressedVX(vx) => self.skip_on_key(vx, keys, false),
            InstructionType::FetchDelayTimerToVX(vx) => {
                self.set_register(vx, self.delay_timer);
                StepOutcome::Ran
            },
            InstructionType::SetDelayTimerToVX(vx) => {
                self.delay_timer = self.variable_registers[vx as usize];
                StepOutcome::Ran
            },
            InstructionType::SetSoundTimerToVX(vx) => {
                self.sound_timer = self.variable_registers[vx as usize];
                StepOutcome::Ran
            },
            InstructionType::AddToIndexFromVX(vx) => self.add_to_index(vx),
            InstructionType::WaitForKeyInVX(vx) => self.wait_for_key(vx, keys),
            InstructionType::SetIndexToFontCharInVX(vx) => self.point_index_at_glyph(vx),
            InstructionType::BinaryCodedDecimalConversionForVX(vx) => self.store_decimal_digits(
                vx,
            ),
            InstructionType::StoreVariableRegistersToMemoryUpToVX(vx) => self.store_registers(vx),
            InstructionType::LoadMemoryToVariableRegistersFromVXAddress(vx) => self.load_registers(
                vx,
            ),
        }
    }

    /// Executes one decoded instruction with `random` as the byte that a random
    /// number instruction draws. A machine that a fatal error stopped executes
    /// nothing and reports that error.
    pub fn apply_instruction(
        &mut self,
        instr: InstructionType,
        keys: &KeypadSnapshot,
        random: u8,
    ) -> (outcome: StepOutcome)
        requires
            old(self).wf(),
            instr.well_formed(),
        ensures
            (final(self)@, outcome) == machine::apply(old(self)@, instr, keys@, random),
            final(self).wf(),
    {
        proof {
            keys.lemma_size();
            crate::laws::law_apply_keeps_invariant(self@, instr, keys@, random);
        }
        match self.fault {
            Some(kind) => StepOutcome::Fault(kind),
            None => self.run_instruction(instr, keys, random),
        }
    }

    /// Executes one decoded instruction. A random number instruction draws its
    /// byte from the random number generator; every other instruction does what
    /// `apply_instruction` does whatever the byte.
    pub fn execute_instruction(&mut self, instr: InstructionType, keys: &KeypadSnapshot) -> (outcome:
        StepOutcome)
        requires
            old(self).wf(),
            instr.well_formed(),
        ensures
            exists|random: u8|
                (final(self)@, outcome) == #[trigger] machine::apply(
                    old(self)@,
                    instr,
                    keys@,
                    random,
                ),
            !(instr is GenerateRandomNumber) ==> (final(self)@, outcome) == machine::apply(
                old(self)@,
                instr,
                keys@,
                0,
            ),
            final(self).wf(),
    {
        let random = match instr {
            InstructionType::GenerateRandomNumber { .. } => random_byte(),
            _ => 0,
        };
        self.apply_instruction(instr, keys, random)
    }

    /// One step of the machine with `random` as the byte that a random number
    /// instruction draws: fetch, advance the program counter, decode, execute.
    pub fn step_with(&mut self, keys: &KeypadSnapshot, random: u8) -> (outcome: StepOutcome)
        requires
            old(self).wf(),
        ensures
            (final(self)@, outcome) == machine::step(old(self)@, keys@, random),
            final(self).wf(),
    {
        proof {
            keys.lemma_size();
            crate::laws::law_step_keeps_invariant(self@, keys@, random);
        }
        if let Some(kind) = self.fault {
            return StepOutcome::Fault(kind);
        }
        match self.fetch_instruction_and_increment_pc() {
            None => StepOutcome::Halted,
            Some(word) => match parse_instruction(word) {
                None => StepOutcome::UnknownOpcode(word),
                Some(instr) => self.run_instruction(instr, keys, random),
            },
        }
    }

    /// One step of the machine: fetch, advance the program counter, decode,
    /// execute. A random number instruction draws its byte from the random
    /// number generator; every other step is the one `step_with` makes
    /// whatever the byte.
    pub fn step(&mut self, keys: &KeypadSnapshot) -> (outcome: StepOutcome)
        requires
            old(self).wf(),
        ensures
            exists|random: u8|
                (final(self)@, outcome) == #[trigger] machine::step(old(self)@, keys@, random),
            !machine::step_draws(old(self)@) ==> (final(self)@, outcome) == machine::step(
                old(self)@,
                keys@,
                0,
            ),
            final(self).wf(),
    {
        proof {
            keys.lemma_size();
        }
        let ghost before = self@;
        if let Some(kind) = self.fault {
            assert((self@, StepOutcome::Fault(kind)) == machine::step(before, keys@, 0));
            return StepOutcome::Fault(kind);
        }
        match self.fetch_instruction_and_increment_pc() {
            None => {
                assert((self@, StepOutcome::Halted) == machine::step(before, keys@, 0));
                StepOutcome::Halted
            },
            Some(word) => match parse_instruction(word) {
                None => {
                    assert((self@, StepOutcome::UnknownOpcode(word)) == machine::step(
                        before,
                        keys@,
                        0,
                    ));
                    StepOutcome::UnknownOpcode(word)
                },
                Some(instr) => {
                    let outcome = self.execute_instruction(instr, keys);
                    proof {
                        let random = choose|random: u8|
                            (self@, outcome) == #[trigger] machine::apply(
                                before.set_pc(before.program_counter + 2),
                                instr,
                                keys@,
                                random,
                            );
                        assert((self@, outcome) == machine::step(before, keys@, random));
                    }
                    outcome
                },
            },
        }
    }
}

} // verus!
