use vstd::prelude::*;

verus! {

/// One decoded instruction. `x` and `y` select registers (0..=15), `addr` is
/// a 12-bit address, `byte` an 8-bit immediate and `n` a 4-bit immediate.
#[derive(Clone, Copy, Debug, PartialEq, Eq, Structural)]
pub enum Instruction {
    ClearScreen,
    Return,
    Jump { addr: u16 },
    Call { addr: u16 },
    SkipIfEqual { x: u8, byte: u8 },
    SkipIfNotEqual { x: u8, byte: u8 },
    SkipIfRegistersEqual { x: u8, y: u8 },
    LoadImmediate { x: u8, byte: u8 },
    AddImmediate { x: u8, byte: u8 },
    Copy { x: u8, y: u8 },
    Or { x: u8, y: u8 },
    And { x: u8, y: u8 },
    Xor { x: u8, y: u8 },
    AddRegisters { x: u8, y: u8 },
    Sub { x: u8, y: u8 },
    ShiftRight { x: u8 },
    SubN { x: u8, y: u8 },
    ShiftLeft { x: u8 },
    SkipIfRegistersNotEqual { x: u8, y: u8 },
    LoadIndex { addr: u16 },
    JumpOffset { addr: u16 },
    Random { x: u8, byte: u8 },
    Draw { x: u8, y: u8, n: u8 },
    SkipIfKeyDown { x: u8 },
    SkipIfKeyUp { x: u8 },
    LoadDelayTimer { x: u8 },
    AwaitKey { x: u8 },
    SetDelayTimer { x: u8 },
    AddToIndex { x: u8 },
    LoadFontAddress { x: u8 },
    StoreBcd { x: u8 },
    StoreRegisters { x: u8 },
    LoadRegisters { x: u8 },
    /// A word that names no instruction; executing it only advances.
    Unknown,
}

/// Most significant nibble of `w`.
pub open spec fn op1(w: u16) -> int {
    w as int / 4096
}

pub open spec fn op2(w: u16) -> int {
    (w as int / 256) % 16
}

pub open spec fn op3(w: u16) -> int {
    (w as int / 16) % 16
}

/// Least significant nibble of `w`.
pub open spec fn op4(w: u16) -> int {
    w as int % 16
}

/// Register selector `x`: bits 8 to 11.
pub open spec fn field_x(w: u16) -> u8 {
    op2(w) as u8
}

/// Register selector `y`: bits 4 to 7.
pub open spec fn field_y(w: u16) -> u8 {
    op3(w) as u8
}

/// 12-bit address: bits 0 to 11.
pub open spec fn field_addr(w: u16) -> u16 {
    (w as int % 4096) as u16
}

/// 8-bit immediate: bits 0 to 7.
pub open spec fn field_byte(w: u16) -> u8 {
    (w as int % 256) as u8
}

/// 4-bit immediate: bits 0 to 3.
pub open spec fn field_n(w: u16) -> u8 {
    op4(w) as u8
}

/// The instruction that the word `w` encodes.
pub open spec fn decode_spec(w: u16) -> Instruction {
    let x = field_x(w);
    let y = field_y(w);
    let addr = field_addr(w);
    let byte = field_byte(w);
    if op1(w) == 0 {
        if w == 0x00E0 {
            Instruction::ClearScreen
        } else if w == 0x00EE {
            Instruction::Return
        } else {
            Instruction::Unknown
        }
    } else if op1(w) == 1 {
        Instruction::Jump { addr }
    } else if op1(w) == 2 {
        Instruction::Call { addr }
    } else if op1(w) == 3 {
        Instruction::SkipIfEqual { x, byte }
    } else if op1(w) == 4 {
        Instruction::SkipIfNotEqual { x, byte }
    } else if op1(w) == 5 {
        Instruction::SkipIfRegistersEqual { x, y }
    } else if op1(w) == 6 {
        Instruction::LoadImmediate { x, byte }
    } else if op1(w) == 7 {
        Instruction::AddImmediate { x, byte }
    } else if op1(w) == 8 {
        if op4(w) == 0 {
            Instruction::Copy { x, y }
        } else if op4(w) == 1 {
            Instruction::Or { x, y }
        } else if op4(w) == 2 {
            Instruction::And { x, y }
        } else if op4(w) == 3 {
            Instruction::Xor { x, y }
        } else if op4(w) == 4 {
            Instruction::AddRegisters { x, y }
        } else if op4(w) == 5 {
            Instruction::Sub { x, y }
        } else if op4(w) == 6 {
            Instruction::ShiftRight { x }
        } else if op4(w) == 7 {
            Instruction::SubN { x, y }
        } else if op4(w) == 0xE {
            Instruction::ShiftLeft { x }
        } else {
            Instruction::Unknown
        }
    } else if op1(w) == 9 {
        Instruction::SkipIfRegistersNotEqual { x, y }
    } else if op1(w) == 0xA {
        Instruction::LoadIndex { addr }
    } else if op1(w) == 0xB {
        Instruction::JumpOffset { addr }
    } else if op1(w) == 0xC {
        Instruction::Random { x, byte }
    } else if op1(w) == 0xD {
        Instruction::Draw { x, y, n: field_n(w) }
    } else if op1(w) == 0xE {
        if byte == 0x9E {
            Instruction::SkipIfKeyDown { x }
        } else if byte == 0xA1 {
            Instruction::SkipIfKeyUp { x }
        } else {
            Instruction::Unknown
        }
    } else {
        if byte == 0x07 {
            Instruction::LoadDelayTimer { x }
        } else if byte == 0x0A {
            Instruction::AwaitKey { x }
        } else if byte == 0x15 {
            Instruction::SetDelayTimer { x }
        } else if byte == 0x1E {
            Instruction::AddToIndex { x }
        } else if byte == 0x29 {
            Instruction::LoadFontAddress { x }
        } else if byte == 0x33 {
            Instruction::StoreBcd { x }
        } else if byte == 0x55 {
            Instruction::StoreRegisters { x }
        } else if byte == 0x65 {
            Instruction::LoadRegisters { x }
        } else {
            Instruction::Unknown
        }
    }
}

impl Instruction {
    /// Every field is within the width that decoding gives it.
    pub open spec fn wf(self) -> bool {
        match self {
            Instruction::Jump { addr } => addr < 4096,
            Instruction::Call { addr } => addr < 4096,
            Instruction::LoadIndex { addr } => addr < 4096,
            Instruction::JumpOffset { addr } => addr < 4096,
            Instruction::SkipIfEqual { x, .. } => x < 16,
            Instruction::SkipIfNotEqual { x, .. } => x < 16,
            Instruction::SkipIfRegistersEqual { x, y } => x < 16 && y < 16,
            Instruction::LoadImmediate { x, .. } => x < 16,
            Instruction::AddImmediate { x, .. } => x < 16,
            Instruction::Copy { x, y } => x < 16 && y < 16,
            Instruction::Or { x, y } => x < 16 && y < 16,
            Instruction::And { x, y } => x < 16 && y < 16,
            Instruction::Xor { x, y } => x < 16 && y < 16,
            Instruction::AddRegisters { x, y } => x < 16 && y < 16,
            Instruction::Sub { x, y } => x < 16 && y < 16,
            Instruction::ShiftRight { x } => x < 16,
            Instruction::SubN { x, y } => x < 16 && y < 16,
            Instruction::ShiftLeft { x } => x < 16,
            Instruction::SkipIfRegistersNotEqual { x, y } => x < 16 && y < 16,
            Instruction::Random { x, .. } => x < 16,
            Instruction::Draw { x, y, n } => x < 16 && y < 16 && n < 16,
            Instruction::SkipIfKeyDown { x } => x < 16,
            Instruction::SkipIfKeyUp { x } => x < 16,
            Instruction::LoadDelayTimer { x } => x < 16,
            Instruction::AwaitKey { x } => x < 16,
            Instruction::SetDelayTimer { x } => x < 16,
            Instruction::AddToIndex { x } => x < 16,
            Instruction::LoadFontAddress { x } => x < 16,
            Instruction::StoreBcd { x } => x < 16,
            Instruction::StoreRegisters { x } => x < 16,
            Instruction::LoadRegisters { x } => x < 16,
            _ => true,
        }
    }
}

/// Decodes an instruction word.
pub fn decode(w: u16) -> (r: Instruction)
    ensures
        r == decode_spec(w),
        r.wf(),
{
    let o1: u16 = w / 4096;
    let o4: u16 = w % 16;
    let x: u8 = ((w / 256) % 16) as u8;
    let y: u8 = ((w / 16) % 16) as u8;
    let addr: u16 = w % 4096;
    let byte: u8 = (w % 256) as u8;
    match o1 {
        0 => {
            if w == 0x00E0 {
                Instruction::ClearScreen
            } else if w == 0x00EE {
                Instruction::Return
            } else {
                Instruction::Unknown
            }
        },
        1 => Instruction::Jump { addr },
        2 => Instruction::Call { addr },
        3 => Instruction::SkipIfEqual { x, byte },
        4 => Instruction::SkipIfNotEqual { x, byte },
        5 => Instruction::SkipIfRegistersEqual { x, y },
        6 => Instruction::LoadImmediate { x, byte },
        7 => Instruction::AddImmediate { x, byte },
        8 => match o4 {
            0 => Instruction::Copy { x, y },
            1 => Instruction::Or { x, y },
            2 => Instruction::And { x, y },
            3 => Instruction::Xor { x, y },
            4 => Instruction::AddRegisters { x, y },
            5 => Instruction::Sub { x, y },
            6 => Instruction::ShiftRight { x },
            7 => Instruction::SubN { x, y },
            0xE => Instruction::ShiftLeft { x },
            _ => Instruction::Unknown,
        },
        9 => Instruction::SkipIfRegistersNotEqual { x, y },
        0xA => Instruction::LoadIndex { addr },
        0xB => Instruction::JumpOffset { addr },
        0xC => Instruction::Random { x, byte },
        0xD => Instruction::Draw { x, y, n: o4 as u8 },
        0xE => {
            if byte == 0x9E {
                Instruction::SkipIfKeyDown { x }
            } else if byte == 0xA1 {
                Instruction::SkipIfKeyUp { x }
            } else {
                Instruction::Unknown
            }
        },
        _ => {
            if byte == 0x07 {
                Instruction::LoadDelayTimer { x }
            } else if byte == 0x0A {
                Instruction::AwaitKey { x }
            } else if byte == 0x15 {
                Instruction::SetDelayTimer { x }
            } else if byte == 0x1E {
                Instruction::AddToIndex { x }
            } else if byte == 0x29 {
                Instruction::LoadFontAddress { x }
            } else if byte == 0x33 {
                Instruction::StoreBcd { x }
            } else if byte == 0x55 {
                Instruction::StoreRegisters { x }
            } else if byte == 0x65 {
                Instruction::LoadRegisters { x }
            } else {
                Instruction::Unknown
            }
        },
    }
}

} // verus!
