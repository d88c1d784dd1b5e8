//! The instruction set: one variant per recognised opcode pattern.

use vstd::prelude::*;
use crate::opcode::Opcode;

verus! {

/// A decoded instruction. Register operands are register numbers,
/// `addr` is the 12-bit operand `NNN`, `value` and `mask` the 8-bit operand `NN`.
#[derive(Clone, Copy, Debug, PartialEq, Eq, Structural)]
pub enum Instruction {
    /// `00E0`
    ClearScreen,
    /// `00EE`
    Return,
    /// `1NNN`
    Jump { addr: u16 },
    /// `2NNN`
    Call { addr: u16 },
    /// `3XNN`
    SkipIfEqual { x: u8, value: u8 },
    /// `4XNN`
    SkipIfNotEqual { x: u8, value: u8 },
    /// `5XY0`
    SkipIfRegistersEqual { x: u8, y: u8 },
    /// `6XNN`
    Load { x: u8, value: u8 },
    /// `7XNN`
    AddImmediate { x: u8, value: u8 },
    /// `8XY0`
    Move { x: u8, y: u8 },
    /// `8XY1`
    Or { x: u8, y: u8 },
    /// `8XY2`
    And { x: u8, y: u8 },
    /// `8XY3`
    Xor { x: u8, y: u8 },
    /// `8XY4`
    Add { x: u8, y: u8 },
    /// `8XY5`
    Subtract { x: u8, y: u8 },
    /// `8XY6`
    ShiftRight { x: u8 },
    /// `8XY7`
    SubtractFrom { x: u8, y: u8 },
    /// `8XYE`
    ShiftLeft { x: u8 },
    /// `9XY0`
    SkipIfRegistersDiffer { x: u8, y: u8 },
    /// `ANNN`
    LoadAddress { addr: u16 },
    /// `BNNN`
    JumpOffset { addr: u16 },
    /// `CXNN`
    Random { x: u8, mask: u8 },
    /// `DXYN`
    Draw { x: u8, y: u8, rows: u8 },
    /// `EX9E`
    SkipIfKeyDown { x: u8 },
    /// `EXA1`
    SkipIfKeyUp { x: u8 },
    /// `FX07`
    ReadDelay { x: u8 },
    /// `FX0A`
    WaitKey { x: u8 },
    /// `FX15`
    SetDelay { x: u8 },
    /// `FX18`
    SetSound { x: u8 },
    /// `FX1E`
    AddAddress { x: u8 },
    /// `FX29`
    FontAddress { x: u8 },
    /// `FX33`
    StoreDecimal { x: u8 },
    /// `FX55`
    StoreRegisters { x: u8 },
    /// `FX65`
    LoadRegisters { x: u8 },
    /// Any word that matches none of the patterns above.
    NoOp,
}

/// The instruction that the nibbles `a`, `x`, `y`, `n` spell, most significant first.
pub open spec fn decode_nibbles(a: int, x: int, y: int, n: int) -> Instruction {
    let addr = (x * 256 + y * 16 + n) as u16;
    let value = (y * 16 + n) as u8;
    let rx = x as u8;
    let ry = y as u8;
    if a == 0x0 {
        if x == 0x0 && y == 0xE && n == 0x0 {
            Instruction::ClearScreen
        } else if x == 0x0 && y == 0xE && n == 0xE {
            Instruction::Return
        } else {
            Instruction::NoOp
        }
    } else if a == 0x1 {
        Instruction::Jump { addr }
    } else if a == 0x2 {
        Instruction::Call { addr }
    } else if a == 0x3 {
        Instruction::SkipIfEqual { x: rx, value }
    } else if a == 0x4 {
        Instruction::SkipIfNotEqual { x: rx, value }
    } else if a == 0x5 {
        if n == 0x0 {
            Instruction::SkipIfRegistersEqual { x: rx, y: ry }
        } else {
            Instruction::NoOp
        }
    } else if a == 0x6 {
        Instruction::Load { x: rx, value }
    } else if a == 0x7 {
        Instruction::AddImmediate { x: rx, value }
    } else if a == 0x8 {
        if n == 0x0 {
            Instruction::Move { x: rx, y: ry }
        } else if n == 0x1 {
            Instruction::Or { x: rx, y: ry }
        } else if n == 0x2 {
            Instruction::And { x: rx, y: ry }
        } else if n == 0x3 {
            Instruction::Xor { x: rx, y: ry }
        } else if n == 0x4 {
            Instruction::Add { x: rx, y: ry }
        } else if n == 0x5 {
            Instruction::Subtract { x: rx, y: ry }
        } else if n == 0x6 {
            Instruction::ShiftRight { x: rx }
        } else if n == 0x7 {
            Instruction::SubtractFrom { x: rx, y: ry }
        } else if n == 0xE {
            Instruction::ShiftLeft { x: rx }
        } else {
            Instruction::NoOp
        }
    } else if a == 0x9 {
        if n == 0x0 {
            Instruction::SkipIfRegistersDiffer { x: rx, y: ry }
        } else {
            Instruction::NoOp
        }
    } else if a == 0xA {
        Instruction::LoadAddress { addr }
    } else if a == 0xB {
        Instruction::JumpOffset { addr }
    } else if a == 0xC {
        Instruction::Random { x: rx, mask: value }
    } else if a == 0xD {
        Instruction::Draw { x: rx, y: ry, rows: n as u8 }
    } else if a == 0xE {
        if y == 0x9 && n == 0xE {
            Instruction::SkipIfKeyDown { x: rx }
        } else if y == 0xA && n == 0x1 {
            Instruction::SkipIfKeyUp { x: rx }
        } else {
            Instruction::NoOp
        }
    } else if a == 0xF {
        if y == 0x0 && n == 0x7 {
            Instruction::ReadDelay { x: rx }
        } else if y == 0x0 && n == 0xA {
            Instruction::WaitKey { x: rx }
        } else if y == 0x1 && n == 0x5 {
            Instruction::SetDelay { x: rx }
        } else if y == 0x1 && n == 0x8 {
            Instruction::SetSound { x: rx }
        } else if y == 0x1 && n == 0xE {
            Instruction::AddAddress { x: rx }
        } else if y == 0x2 && n == 0x9 {
            Instruction::FontAddress { x: rx }
        } else if y == 0x3 && n == 0x3 {
            Instruction::StoreDecimal { x: rx }
        } else if y == 0x5 && n == 0x5 {
            Instruction::StoreRegisters { x: rx }
        } else if y == 0x6 && n == 0x5 {
            Instruction::LoadRegisters { x: rx }
        } else {
            Instruction::NoOp
        }
    } else {
        Instruction::NoOp
    }
}

impl Instruction {
    /// Register numbers are below 16, addresses below 4096, row counts below 16.
    pub open spec fn wf(&self) -> bool {
        match *self {
            Instruction::ClearScreen | Instruction::Return | Instruction::NoOp => true,
            Instruction::Jump { addr }
            | Instruction::Call { addr }
            | Instruction::LoadAddress { addr }
            | Instruction::JumpOffset { addr } => addr < 4096,
            Instruction::SkipIfEqual { x, .. }
            | Instruction::SkipIfNotEqual { x, .. }
            | Instruction::Load { x, .. }
            | Instruction::AddImmediate { x, .. }
            | Instruction::Random { x, .. }
            | Instruction::ShiftRight { x }
            | Instruction::ShiftLeft { x }
            | Instruction::SkipIfKeyDown { x }
            | Instruction::SkipIfKeyUp { x }
            | Instruction::ReadDelay { x }
            | Instruction::WaitKey { x }
            | Instruction::SetDelay { x }
            | Instruction::SetSound { x }
            | Instruction::AddAddress { x }
            | Instruction::FontAddress { x }
            | Instruction::StoreDecimal { x }
            | Instruction::StoreRegisters { x }
            | Instruction::LoadRegisters { x } => x < 16,
            Instruction::SkipIfRegistersEqual { x, y }
            | Instruction::Move { x, y }
            | Instruction::Or { x, y }
            | Instruction::And { x, y }
            | Instruction::Xor { x, y }
            | Instruction::Add { x, y }
            | Instruction::Subtract { x, y }
            | Instruction::SubtractFrom { x, y }
            | Instruction::SkipIfRegistersDiffer { x, y } => x < 16 && y < 16,
            Instruction::Draw { x, y, rows } => x < 16 && y < 16 && rows < 16,
        }
    }

    /// Decodes an instruction word. Every word decodes; one that matches no
    /// pattern is `NoOp`.
    pub fn decode(op: &Opcode) -> (ins: Instruction)
        requires
            op.wf(),
        ensures
            ins == decode_nibbles(
                op.digits[0] as int,
                op.digits[1] as int,
                op.digits[2] as int,
                op.digits[3] as int,
            ),
            ins.wf(),
    {
        let a: u16 = op.digits[0];
        let d1: u16 = op.digits[1];
        let d2: u16 = op.digits[2];
        let n: u16 = op.digits[3];
        let addr: u16 = d1 * 256 + d2 * 16 + n;
        let value: u8 = (d2 * 16 + n) as u8;
        let x: u8 = d1 as u8;
        let y: u8 = d2 as u8;
        match a {
            0x0 => {
                if d1 == 0x0 && d2 == 0xE && n == 0x0 {
                    Instruction::ClearScreen
                } else if d1 == 0x0 && d2 == 0xE && n == 0xE {
                    Instruction::Return
                } else {
                    Instruction::NoOp
                }
            },
            0x1 => Instruction::Jump { addr },
            0x2 => Instruction::Call { addr },
            0x3 => Instruction::SkipIfEqual { x, value },
            0x4 => Instruction::SkipIfNotEqual { x, value },
            0x5 => {
                if n == 0x0 {
                    Instruction::SkipIfRegistersEqual { x, y }
                } else {
                    Instruction::NoOp
                }
            },
            0x6 => Instruction::Load { x, value },
            0x7 => Instruction::AddImmediate { x, value },
            0x8 => {
                match n {
                    0x0 => Instruction::Move { x, y },
                    0x1 => Instruction::Or { x, y },
                    0x2 => Instruction::And { x, y },
                    0x3 => Instruction::Xor { x, y },
                    0x4 => Instruction::Add { x, y },
                    0x5 => Instruction::Subtract { x, y },
                    0x6 => Instruction::ShiftRight { x },
                    0x7 => Instruction::SubtractFrom { x, y },
                    0xE => Instruction::ShiftLeft { x },
                    _ => Instruction::NoOp,
                }
            },
            0x9 => {
                if n == 0x0 {
                    Instruction::SkipIfRegistersDiffer { x, y }
                } else {
                    Instruction::NoOp
                }
            },
            0xA => Instruction::LoadAddress { addr },
            0xB => Instruction::JumpOffset { addr },
            0xC => Instruction::Random { x, mask: value },
            0xD => Instruction::Draw { x, y, rows: n as u8 },
            0xE => {
                if d2 == 0x9 && n == 0xE {
                    Instruction::SkipIfKeyDown { x }
                } else if d2 == 0xA && n == 0x1 {
                    Instruction::SkipIfKeyUp { x }
                } else {
                    Instruction::NoOp
                }
            },
            0xF => {
                if d2 == 0x0 && n == 0x7 {
                    Instruction::ReadDelay { x }
                } else if d2 == 0x0 && n == 0xA {
                    Instruction::WaitKey { x }
                } else if d2 == 0x1 && n == 0x5 {
                    Instruction::SetDelay { x }
                } else if d2 == 0x1 && n == 0x8 {
                    Instruction::SetSound { x }
                } else if d2 == 0x1 && n == 0xE {
                    Instruction::AddAddress { x }
                } else if d2 == 0x2 && n == 0x9 {
                    Instruction::FontAddress { x }
                } else if d2 == 0x3 && n == 0x3 {
                    Instruction::StoreDecimal { x }
                } else if d2 == 0x5 && n == 0x5 {
                    Instruction::StoreRegisters { x }
                } else if d2 == 0x6 && n == 0x5 {
                    Instruction::LoadRegisters { x }
                } else {
                    Instruction::NoOp
                }
            },
            _ => Instruction::NoOp,
        }
    }
}

} // verus!
