use vstd::prelude::*;

verus! {

/// A decoded instruction with its operands. `vx` and `vy` are register numbers.
#[derive(Debug, PartialEq, Eq, Clone, Copy, Structural)]
pub enum InstructionType {
    ClearScreen,
    JumpToMemoryLocation(u16),
    CallSubroutine(u16),
    ReturnFromSubroutine,
    SkipIfRegisterEqValue { vx: u8, value: u8 },
    SkipIfRegisterNeqValue { vx: u8, value: u8 },
    SkipIfRegistersEq { vx: u8, vy: u8 },
    SkipIfRegistersNeq { vx: u8, vy: u8 },
    UpdateRegister { vx: u8, value: u8 },
    AddValueToRegister { vx: u8, value: u8 },
    CopyRegister { vx: u8, vy: u8 },
    BitwiseOR { vx: u8, vy: u8 },
    BitwiseAND { vx: u8, vy: u8 },
    BitwiseXOR { vx: u8, vy: u8 },
    AddRegisterToRegister { vx: u8, vy: u8 },
    SubtractXY { vx: u8, vy: u8 },
    SubtractYX { vx: u8, vy: u8 },
    ShiftLeft { vx: u8, vy: u8 },
    ShiftRight { vx: u8, vy: u8 },
    SetIndexRegister(u16),
    JumpWithOffset(u16),
    GenerateRandomNumber { vx: u8, bitmask: u8 },
    Display { vx: u8, vy: u8, n: u8 },
    SkipIfPressedVX(u8),
    SkipIfNotPressedVX(u8),
    FetchDelayTimerToVX(u8),
    SetDelayTimerToVX(u8),
    SetSoundTimerToVX(u8),
    AddToIndexFromVX(u8),
    WaitForKeyInVX(u8),
    SetIndexToFontCharInVX(u8),
    BinaryCodedDecimalConversionForVX(u8),
    StoreVariableRegistersToMemoryUpToVX(u8),
    LoadMemoryToVariableRegistersFromVXAddress(u8),
}

impl InstructionType {
    /// Every register operand names one of the sixteen registers, every address
    /// operand lies inside memory and a sprite height fits in four bits.
    pub open spec fn well_formed(self) -> bool {
        match self {
            InstructionType::ClearScreen => true,
            InstructionType::ReturnFromSubroutine => true,
            InstructionType::JumpToMemoryLocation(nnn) => nnn < 4096,
            InstructionType::CallSubroutine(nnn) => nnn < 4096,
            InstructionType::SetIndexRegister(nnn) => nnn < 4096,
            InstructionType::JumpWithOffset(nnn) => nnn < 4096,
            InstructionType::SkipIfRegisterEqValue { vx, value } => vx < 16,
            InstructionType::SkipIfRegisterNeqValue { vx, value } => vx < 16,
            InstructionType::UpdateRegister { vx, value } => vx < 16,
            InstructionType::AddValueToRegister { vx, value } => vx < 16,
            InstructionType::GenerateRandomNumber { vx, bitmask } => vx < 16,
            InstructionType::SkipIfRegistersEq { vx, vy } => vx < 16 && vy < 16,
            InstructionType::SkipIfRegistersNeq { vx, vy } => vx < 16 && vy < 16,
            InstructionType::CopyRegister { vx, vy } => vx < 16 && vy < 16,
            InstructionType::BitwiseOR { vx, vy } => vx < 16 && vy < 16,
            InstructionType::BitwiseAND { vx, vy } => vx < 16 && vy < 16,
            InstructionType::BitwiseXOR { vx, vy } => vx < 16 && vy < 16,
            InstructionType::AddRegisterToRegister { vx, vy } => vx < 16 && vy < 16,
            InstructionType::SubtractXY { vx, vy } => vx < 16 && vy < 16,
            InstructionType::SubtractYX { vx, vy } => vx < 16 && vy < 16,
            InstructionType::ShiftLeft { vx, vy } => vx < 16 && vy < 16,
            InstructionType::ShiftRight { vx, vy } => vx < 16 && vy < 16,
            InstructionType::Display { vx, vy, n } => vx < 16 && vy < 16 && n < 16,
            InstructionType::SkipIfPressedVX(vx) => vx < 16,
            InstructionType::SkipIfNotPressedVX(vx) => vx < 16,
            InstructionType::FetchDelayTimerToVX(vx) => vx < 16,
            InstructionType::SetDelayTimerToVX(vx) => vx < 16,
            InstructionType::SetSoundTimerToVX(vx) => vx < 16,
            InstructionType::AddToIndexFromVX(vx) => vx < 16,
            InstructionType::WaitForKeyInVX(vx) => vx < 16,
            InstructionType::SetIndexToFontCharInVX(vx) => vx < 16,
            InstructionType::BinaryCodedDecimalConversionForVX(vx) => vx < 16,
            InstructionType::StoreVariableRegistersToMemoryUpToVX(vx) => vx < 16,
            InstructionType::LoadMemoryToVariableRegistersFromVXAddress(vx) => vx < 16,
        }
    }

    /// Tests whether the instruction is well formed.
    pub fn is_well_formed(&self) -> (ok: bool)
        ensures
            ok == self.well_formed(),
    {
        match *self {
            InstructionType::ClearScreen | InstructionType::ReturnFromSubroutine => true,
            InstructionType::JumpToMemoryLocation(nnn)
            | InstructionType::CallSubroutine(nnn)
            | InstructionType::SetIndexRegister(nnn)
            | InstructionType::JumpWithOffset(nnn) => nnn < 4096,
            InstructionType::SkipIfRegisterEqValue { vx, .. }
            | InstructionType::SkipIfRegisterNeqValue { vx, .. }
            | InstructionType::UpdateRegister { vx, .. }
            | InstructionType::AddValueToRegister { vx, .. }
            | InstructionType::GenerateRandomNumber { vx, .. } => vx < 16,
            InstructionType::SkipIfRegistersEq { vx, vy }
            | InstructionType::SkipIfRegistersNeq { vx, vy }
            | InstructionType::CopyRegister { vx, vy }
            | InstructionType::BitwiseOR { vx, vy }
            | InstructionType::BitwiseAND { vx, vy }
            | InstructionType::BitwiseXOR { vx, vy }
            | InstructionType::AddRegisterToRegister { vx, vy }
            | InstructionType::SubtractXY { vx, vy }
            | InstructionType::SubtractYX { vx, vy }
            | InstructionType::ShiftLeft { vx, vy }
            | InstructionType::ShiftRight { vx, vy } => vx < 16 && vy < 16,
            InstructionType::Display { vx, vy, n } => vx < 16 && vy < 16 && n < 16,
            InstructionType::SkipIfPressedVX(vx)
            | InstructionType::SkipIfNotPressedVX(vx)
            | InstructionType::FetchDelayTimerToVX(vx)
            | InstructionType::SetDelayTimerToVX(vx)
            | InstructionType::SetSoundTimerToVX(vx)
            | InstructionType::AddToIndexFromVX(vx)
            | InstructionType::WaitForKeyInVX(vx)
            | InstructionType::SetIndexToFontCharInVX(vx)
            | InstructionType::BinaryCodedDecimalConversionForVX(vx)
            | InstructionType::StoreVariableRegistersToMemoryUpToVX(vx)
            | InstructionType::LoadMemoryToVariableRegistersFromVXAddress(vx) => vx < 16,
        }
    }
}

/// The leading nibble of an instruction word.
pub open spec fn opcode_of(instr: u16) -> u8 {
    (instr / 4096) as u8
}

/// The operand `x`: the second nibble.
pub open spec fn x_of(instr: u16) -> u8 {
    ((instr / 256) % 16) as u8
}

/// The operand `y`: the third nibble.
pub open spec fn y_of(instr: u16) -> u8 {
    ((instr / 16) % 16) as u8
}

/// The operand `n`: the last nibble.
pub open spec fn n_of(instr: u16) -> u8 {
    (instr % 16) as u8
}

/// The operand `nn`: the low byte.
pub open spec fn nn_of(instr: u16) -> u8 {
    (instr % 256) as u8
}

/// The operand `nnn`: the low twelve bits.
pub open spec fn nnn_of(instr: u16) -> u16 {
    (instr % 4096) as u16
}

/// The instruction that a word whose leading nibble is 8 stands for: the
/// register-to-register operations, told apart by the last nibble.
pub open spec fn decode_arithmetic(instr: u16) -> Option<InstructionType> {
    let vx = x_of(instr);
    let vy = y_of(instr);
    let n = n_of(instr);
    if n == 0 {
        Some(InstructionType::CopyRegister { vx, vy })
    } else if n == 1 {
        Some(InstructionType::BitwiseOR { vx, vy })
    } else if n == 2 {
        Some(InstructionType::BitwiseAND { vx, vy })
    } else if n == 3 {
        Some(InstructionType::BitwiseXOR { vx, vy })
    } else if n == 4 {
        Some(InstructionType::AddRegisterToRegister { vx, vy })
    } else if n == 5 {
        Some(InstructionType::SubtractXY { vx, vy })
    } else if n == 6 {
        Some(InstructionType::ShiftRight { vx, vy })
    } else if n == 7 {
        Some(InstructionType::SubtractYX { vx, vy })
    } else if n == 0xE {
        Some(InstructionType::ShiftLeft { vx, vy })
    } else {
        None
    }
}

/// The instruction that a word whose leading nibble is F stands for: timers,
/// index register and memory transfers, told apart by the low byte.
pub open spec fn decode_system(instr: u16) -> Option<InstructionType> {
    let vx = x_of(instr);
    let nn = nn_of(instr);
    if nn == 0x07 {
        Some(InstructionType::FetchDelayTimerToVX(vx))
    } else if nn == 0x0A {
        Some(InstructionType::WaitForKeyInVX(vx))
    } else if nn == 0x15 {
        Some(InstructionType::SetDelayTimerToVX(vx))
    } else if nn == 0x18 {
        Some(InstructionType::SetSoundTimerToVX(vx))
    } else if nn == 0x1E {
        Some(InstructionType::AddToIndexFromVX(vx))
    } else if nn == 0x29 {
        Some(InstructionType::SetIndexToFontCharInVX(vx))
    } else if nn == 0x33 {
        Some(InstructionType::BinaryCodedDecimalConversionForVX(vx))
    } else if nn == 0x55 {
        Some(InstructionType::StoreVariableRegistersToMemoryUpToVX(vx))
    } else if nn == 0x65 {
        Some(InstructionType::LoadMemoryToVariableRegistersFromVXAddress(vx))
    } else {
        None
    }
}

/// The instruction that a word stands for, or `None` where it matches none of
/// the recognised forms.
pub open spec fn decode(instr: u16) -> Option<InstructionType> {
    let op = opcode_of(instr);
    let vx = x_of(instr);
    let vy = y_of(instr);
    let n = n_of(instr);
    let nn = nn_of(instr);
    let nnn = nnn_of(instr);
    if op == 0x0 {
        if instr == 0x00E0 {
            Some(InstructionType::ClearScreen)
        } else if instr == 0x00EE {
            Some(InstructionType::ReturnFromSubroutine)
        } else {
            None
        }
    } else if op == 0x1 {
        Some(InstructionType::JumpToMemoryLocation(nnn))
    } else if op == 0x2 {
        Some(InstructionType::CallSubroutine(nnn))
    } else if op == 0x3 {
        Some(InstructionType::SkipIfRegisterEqValue { vx, value: nn })
    } else if op == 0x4 {
        Some(InstructionType::SkipIfRegisterNeqValue { vx, value: nn })
    } else if op == 0x5 {
        if n == 0 {
            Some(InstructionType::SkipIfRegistersEq { vx, vy })
        } else {
            None
        }
    } else if op == 0x6 {
        Some(InstructionType::UpdateRegister { vx, value: nn })
    } else if op == 0x7 {
        Some(InstructionType::AddValueToRegister { vx, value: nn })
    } else if op == 0x8 {
        decode_arithmetic(instr)
    } else if op == 0x9 {
        if n == 0 {
            Some(InstructionType::SkipIfRegistersNeq { vx, vy })
        } else {
            None
        }
    } else if op == 0xA {
        Some(InstructionType::SetIndexRegister(nnn))
    } else if op == 0xB {
        Some(InstructionType::JumpWithOffset(nnn))
    } else if op == 0xC {
        Some(InstructionType::GenerateRandomNumber { vx, bitmask: nn })
    } else if op == 0xD {
        Some(InstructionType::Display { vx, vy, n })
    } else if op == 0xE {
        if nn == 0x9E {
            Some(InstructionType::SkipIfPressedVX(vx))
        } else if nn == 0xA1 {
            Some(InstructionType::SkipIfNotPressedVX(vx))
        } else {
            None
        }
    } else {
        decode_system(instr)
    }
}

/// Extract the (`opcode`, `x`, `y`, `n`, `nn`, and `nnn`) components from the given instruction.
pub fn extract_parts(instr: u16) -> (parts: (u8, u8, u8, u8, u8, u16))
    ensures
        parts.0 == opcode_of(instr),
        parts.1 == x_of(instr),
        parts.2 == y_of(instr),
        parts.3 == n_of(instr),
        parts.4 == nn_of(instr),
        parts.5 == nnn_of(instr),
        parts.0 < 16,
        parts.1 < 16,
        parts.2 < 16,
        parts.3 < 16,
        parts.5 < 4096,
{
    assert((0xF000u16 & instr) >> 12 == instr / 4096) by (bit_vector);
    assert((0xF00u16 & instr) >> 8 == (instr / 256) % 16) by (bit_vector);
    assert((0xF0u16 & instr) >> 4 == (instr / 16) % 16) by (bit_vector);
    assert(0xFu16 & instr == instr % 16) by (bit_vector);
    assert(0xFFu16 & instr == instr % 256) by (bit_vector);
    assert(0xFFFu16 & instr == instr % 4096) by (bit_vector);
    let opcode = ((0xF000 & instr) >> 12) as u8;
    let x = ((0xF00 & instr) >> 8) as u8;
    let y = ((0xF0 & instr) >> 4) as u8;
    let n = (0xF & instr) as u8;
    let nn = (0xFF & instr) as u8;
    let nnn = 0xFFF & instr;

    (opcode, x, y, n, nn, nnn)
}

/// Decodes the register-to-register operations.
fn parse_arithmetic(instr: u16) -> (decoded: Option<InstructionType>)
    ensures
        decoded == decode_arithmetic(instr),
{
    let (_, vx, vy, n, _, _) = extract_parts(instr);
    match n {
        0x0 => Some(InstructionType::CopyRegister { vx, vy }),
        0x1 => Some(InstructionType::BitwiseOR { vx, vy }),
        0x2 => Some(InstructionType::BitwiseAND { vx, vy }),
        0x3 => Some(InstructionType::BitwiseXOR { vx, vy }),
        0x4 => Some(InstructionType::AddRegisterToRegister { vx, vy }),
        0x5 => Some(InstructionType::SubtractXY { vx, vy }),
        0x6 => Some(InstructionType::ShiftRight { vx, vy }),
        0x7 => Some(InstructionType::SubtractYX { vx, vy }),
        0xE => Some(InstructionType::ShiftLeft { vx, vy }),
        _ => None,
    }
}

/// Decodes the timer, index register and memory transfer operations.
fn parse_system(instr: u16) -> (decoded: Option<InstructionType>)
    ensures
        decoded == decode_system(instr),
{
    let (_, vx, _, _, nn, _) = extract_parts(instr);
    match nn {
        0x07 => Some(InstructionType::FetchDelayTimerToVX(vx)),
        0x0A => Some(InstructionType::WaitForKeyInVX(vx)),
        0x15 => Some(InstructionType::SetDelayTimerToVX(vx)),
        0x18 => Some(InstructionType::SetSoundTimerToVX(vx)),
        0x1E => Some(InstructionType::AddToIndexFromVX(vx)),
        0x29 => Some(InstructionType::SetIndexToFontCharInVX(vx)),
        0x33 => Some(InstructionType::BinaryCodedDecimalConversionForVX(vx)),
        0x55 => Some(InstructionType::StoreVariableRegistersToMemoryUpToVX(vx)),
        0x65 => Some(InstructionType::LoadMemoryToVariableRegistersFromVXAddress(vx)),
        _ => None,
    }
}

/// Decodes one instruction word. The result is `None` exactly for the words that
/// stand for no instruction, and every decoded instruction is well formed.
pub fn parse_instruction(instr: u16) -> (decoded: Option<InstructionType>)
    ensures
        decoded == decode(instr),
        decoded matches Some(instruction) ==> instruction.well_formed(),
{
    let (op, vx, vy, n, nn, nnn) = extract_parts(instr);
    match op {
        0x0 => {
            if instr == 0x00E0 {
                Some(InstructionType::ClearScreen)
            } else if instr == 0x00EE {
                Some(InstructionType::ReturnFromSubroutine)
            } else {
                None
            }
        },
        0x1 => Some(InstructionType::JumpToMemoryLocation(nnn)),
        0x2 => Some(InstructionType::CallSubroutine(nnn)),
        0x3 => Some(InstructionType::SkipIfRegisterEqValue { vx, value: nn }),
        0x4 => Some(InstructionType::SkipIfRegisterNeqValue { vx, value: nn }),
        0x5 => {
            if n == 0 {
                Some(InstructionType::SkipIfRegistersEq { vx, vy })
            } else {
                None
            }
        },
        0x6 => Some(InstructionType::UpdateRegister { vx, value: nn }),
        0x7 => Some(InstructionType::AddValueToRegister { vx, value: nn }),
        0x8 => parse_arithmetic(instr),
        0x9 => {
            if n == 0 {
                Some(InstructionType::SkipIfRegistersNeq { vx, vy })
            } else {
                None
            }
        },
        0xA => Some(InstructionType::SetIndexRegister(nnn)),
        0xB => Some(InstructionType::JumpWithOffset(nnn)),
        0xC => Some(InstructionType::GenerateRandomNumber { vx, bitmask: nn }),
        0xD => Some(InstructionType::Display { vx, vy, n }),
        0xE => {
            if nn == 0x9E {
                Some(InstructionType::SkipIfPressedVX(vx))
            } else if nn == 0xA1 {
                Some(InstructionType::SkipIfNotPressedVX(vx))
            } else {
                None
            }
        },
        _ => parse_system(instr),
    }
}

} // verus!
