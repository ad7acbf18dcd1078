use crate::framebuffer::{blit_collides, blit_pixels};
use crate::instruction_parser::{decode, InstructionType};
use crate::keypad::lemma_first_pressed;
use crate::machine::{apply, step, ticks, word_at_pc, MachineState};
use crate::virtual_computer::{CompatibilityMode, FaultKind, StepOutcome};
use vstd::prelude::*;

verus! {

/// Every decoded instruction is well formed: its register operands name
/// registers and its address operand lies inside memory.
pub proof fn law_decoded_is_well_formed(word: u16)
    ensures
        decode(word) matches Some(instr) ==> instr.well_formed(),
{
}

/// Executing a well-formed instruction keeps the state invariant: the program
/// counter and the return addresses stay inside memory, the stack within its
/// depth, and memory, registers and display keep their sizes. The compatibility
/// mode never changes.
pub proof fn law_apply_keeps_invariant(
    s: MachineState,
    instr: InstructionType,
    keys: Seq<bool>,
    random: u8,
)
    requires
        s.wf(),
        instr.well_formed(),
        keys.len() == 16,
    ensures
        apply(s, instr, keys, random).0.wf(),
        apply(s, instr, keys, random).0.mode == s.mode,
{
    lemma_first_pressed(keys, 0);
}

/// A step keeps the state invariant and the compatibility mode.
pub proof fn law_step_keeps_invariant(s: MachineState, keys: Seq<bool>, random: u8)
    requires
        s.wf(),
        keys.len() == 16,
    ensures
        step(s, keys, random).0.wf(),
        step(s, keys, random).0.mode == s.mode,
{
    if s.fault is None && s.program_counter < 4095 {
        let fetched = s.set_pc(s.program_counter + 2);
        law_decoded_is_well_formed(word_at_pc(s));
        match decode(word_at_pc(s)) {
            None => {},
            Some(instr) => {
                law_apply_keeps_invariant(fetched, instr, keys, random);
            },
        }
    }
}

/// A running machine whose program counter leaves no two bytes to fetch halts:
/// the step reads nothing and changes nothing.
pub proof fn law_no_fetch_at_end_of_memory(s: MachineState, keys: Seq<bool>, random: u8)
    requires
        s.fault is None,
        s.program_counter >= 4095,
    ensures
        step(s, keys, random) == (s, StepOutcome::Halted),
{
}

/// A machine that a fatal error stopped stays exactly as it is, step after step.
pub proof fn law_stopped_machine_stays(s: MachineState, keys: Seq<bool>, random: u8)
    requires
        s.fault is Some,
    ensures
        step(s, keys, random) == (s, StepOutcome::Fault(s.fault->0)),
{
}

/// An instruction that would reach beyond the end of memory through the index
/// register reads and writes nothing: it stops the machine with
/// `MemoryOutOfBounds`.
pub proof fn law_access_beyond_memory_faults(
    s: MachineState,
    instr: InstructionType,
    keys: Seq<bool>,
    random: u8,
)
    requires
        s.fault is None,
        match instr {
            InstructionType::Display { vx, vy, n } => s.index_register + n > 4096,
            InstructionType::BinaryCodedDecimalConversionForVX(vx) => s.index_register + 2 >= 4096,
            InstructionType::StoreVariableRegistersToMemoryUpToVX(x) => s.index_register + x
                >= 4096,
            InstructionType::LoadMemoryToVariableRegistersFromVXAddress(x) => s.index_register + x
                >= 4096,
            _ => false,
        },
    ensures
        apply(s, instr, keys, random) == (
            s.faulted(FaultKind::MemoryOutOfBounds),
            StepOutcome::Fault(FaultKind::MemoryOutOfBounds),
        ),
{
}

/// Drawing a sprite keeps the display at 64 by 32 pixels and changes no pixel
/// outside the eight columns and `rows.len()` rows that start at the wrapped
/// corner: what would fall beyond the right or bottom edge is dropped.
pub proof fn law_sprite_is_clipped(pixels: Seq<bool>, x: u8, y: u8, rows: Seq<u8>)
    requires
        pixels.len() == 2048,
    ensures
        blit_pixels(pixels, x, y, rows).len() == 2048,
        forall|k: int|
            0 <= k < 2048 && #[trigger] blit_pixels(pixels, x, y, rows)[k] != pixels[k] ==> {
                &&& x % 64 <= k % 64 < x % 64 + 8
                &&& y % 32 <= k / 64 < y % 32 + rows.len()
            },
{
}

/// After `00E0` every pixel of the display is off.
pub proof fn law_clear_screen_blanks_display(s: MachineState, keys: Seq<bool>, random: u8)
    requires
        s.fault is None,
    ensures
        apply(s, InstructionType::ClearScreen, keys, random).0.screen.pixels.len() == 2048,
        forall|k: int|
            0 <= k < 2048 ==> !(#[trigger] apply(
                s,
                InstructionType::ClearScreen,
                keys,
                random,
            ).0.screen.pixels[k]),
{
}

/// After `DXYN` VF is 0 or 1, and it is 1 exactly where a pixel of the sprite
/// that is on met a pixel of the display that was on.
pub proof fn law_display_flag_is_collision(
    s: MachineState,
    vx: u8,
    vy: u8,
    n: u8,
    keys: Seq<bool>,
    random: u8,
)
    requires
        s.wf(),
        s.fault is None,
        vx < 16,
        vy < 16,
        s.index_register + n <= 4096,
    ensures
        ({
            let after = apply(s, InstructionType::Display { vx, vy, n }, keys, random).0;
            let rows = s.memory.subrange(s.index_register as int, s.index_register + n);
            &&& after.reg(15) == 0 || after.reg(15) == 1
            &&& after.reg(15) == 1 <==> blit_collides(
                s.screen.pixels,
                s.reg(vx),
                s.reg(vy),
                rows,
            )
        }),
{
}

/// On the COSMAC VIP, `FX55` and `FX65` with operand `x` leave the
/// index register advanced by exactly `x + 1`; they complete exactly where the
/// `x + 1` bytes lie inside memory.
pub proof fn law_transfer_advances_index(
    s: MachineState,
    x: u8,
    store: bool,
    keys: Seq<bool>,
    random: u8,
)
    requires
        s.wf(),
        s.fault is None,
        s.mode == CompatibilityMode::CosmicVIP,
        x < 16,
    ensures
        ({
            let instr = if store {
                InstructionType::StoreVariableRegistersToMemoryUpToVX(x)
            } else {
                InstructionType::LoadMemoryToVariableRegistersFromVXAddress(x)
            };
            let (after, outcome) = apply(s, instr, keys, random);
            &&& outcome == StepOutcome::Ran <==> s.index_register + x < 4096
            &&& outcome == StepOutcome::Ran ==> after.index_register == s.index_register + x + 1
        }),
{
}

/// After `n` ticks each timer stands at its first value less `n`, or at zero
/// where that would be negative: timers never go below zero.
pub proof fn law_ticks_count_down(s: MachineState, n: nat)
    ensures
        ticks(s, n).delay_timer == if s.delay_timer >= n {
            s.delay_timer - n
        } else {
            0
        },
        ticks(s, n).sound_timer == if s.sound_timer >= n {
            s.sound_timer - n
        } else {
            0
        },
        ticks(s, n) == (MachineState {
            delay_timer: ticks(s, n).delay_timer,
            sound_timer: ticks(s, n).sound_timer,
            ..s
        }),
    decreases n,
{
    if n > 0 {
        law_ticks_count_down(s, (n - 1) as nat);
    }
}

/// `FX33` followed by `FX65` with operand 2, the index register being what it
/// was before `FX33`, loads the hundreds, tens and units of Vx into V0, V1, V2.
pub proof fn law_decimal_digits_round_trip(s: MachineState, vx: u8, keys: Seq<bool>, random: u8)
    requires
        s.wf(),
        s.fault is None,
        vx < 16,
        s.index_register + 2 < 4096,
    ensures
        ({
            let stored = apply(
                s,
                InstructionType::BinaryCodedDecimalConversionForVX(vx),
                keys,
                random,
            ).0;
            let loaded = apply(
                stored,
                InstructionType::LoadMemoryToVariableRegistersFromVXAddress(2),
                keys,
                random,
            ).0;
            &&& stored.index_register == s.index_register
            &&& loaded.reg(0) == s.reg(vx) / 100
            &&& loaded.reg(1) == (s.reg(vx) / 10) % 10
            &&& loaded.reg(2) == s.reg(vx) % 10
        }),
{
}

/// `8XY1` executed twice leaves the machine as `8XY1` executed once does.
pub proof fn law_or_is_idempotent(s: MachineState, vx: u8, vy: u8, keys: Seq<bool>, random: u8)
    requires
        s.wf(),
        vx < 16,
        vy < 16,
    ensures
        ({
            let once = apply(s, InstructionType::BitwiseOR { vx, vy }, keys, random).0;
            let twice = apply(once, InstructionType::BitwiseOR { vx, vy }, keys, random).0;
            twice == once
        }),
{
    let a = s.reg(vx);
    let b = s.reg(vy);
    assert((a | b) | b == a | b) by (bit_vector);
    assert((a | b) | (a | b) == a | b) by (bit_vector);
    assert((a | b) | 0 == a | b) by (bit_vector);
    let once = apply(s, InstructionType::BitwiseOR { vx, vy }, keys, random).0;
    let twice = apply(once, InstructionType::BitwiseOR { vx, vy }, keys, random).0;
    assert(twice.registers =~= once.registers);
}

/// `8XY3` executed twice leaves Vx as it was. This holds where the two
/// operands are different registers, or Vx is zero; on the COSMAC
/// VIP, which resets VF after the operation, it holds where in addition
/// neither operand is VF, or VF is zero.
pub proof fn law_xor_is_an_involution(s: MachineState, vx: u8, vy: u8, keys: Seq<bool>, random: u8)
    requires
        s.wf(),
        vx < 16,
        vy < 16,
        vx == vy ==> s.reg(vx) == 0,
        s.mode == CompatibilityMode::CosmicVIP && (vx == 15 || vy == 15) ==> s.reg(15) == 0,
    ensures
        ({
            let once = apply(s, InstructionType::BitwiseXOR { vx, vy }, keys, random).0;
            let twice = apply(once, InstructionType::BitwiseXOR { vx, vy }, keys, random).0;
            twice.reg(vx) == s.reg(vx)
        }),
{
    let a = s.reg(vx);
    let b = s.reg(vy);
    assert((a ^ b) ^ b == a) by (bit_vector);
    assert(a ^ 0 == a) by (bit_vector);
    assert((a ^ 0) ^ 0 == a) by (bit_vector);
    assert(0u8 ^ 0u8 == 0u8) by (bit_vector);
}

} // verus!
