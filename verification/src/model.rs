//! The mathematical model of the machine: its state as sequences and
//! integers, and the effect of every instruction as a function on states.

use vstd::prelude::*;
use std::time::Instant;
use crate::font::font_table;
use crate::instruction::{decode_nibbles, Instruction};
use crate::memory::overlay;

verus! {

/// Whether the engine is fetching instructions or suspended on a key press.
#[derive(Clone, Copy, Debug, PartialEq, Eq, Structural)]
pub enum RunState {
    Running,
    /// Suspended until a key press arrives; the key goes to `register`.
    AwaitingKey { register: u8 },
}

/// The conditions under which the engine refuses to go on.
#[derive(Clone, Copy, Debug, PartialEq, Eq, Structural)]
pub enum Fault {
    /// A call with the stack already full.
    StackOverflow,
    /// A return with the stack empty.
    StackUnderflow,
    /// A read or write that leaves the 4096 bytes of memory.
    MemoryOutOfRange,
    /// A program that does not fit between 0x200 and the end of memory.
    ProgramTooLarge,
}

/// The state of the machine.
pub struct State {
    pub memory: Seq<u8>,
    pub registers: Seq<u8>,
    pub address_register: u16,
    pub program_counter: u16,
    pub stack: Seq<u16>,
    pub stack_counter: nat,
    pub delay_timer: u8,
    pub sound_timer: u8,
    pub keyboard: u16,
    pub run_state: RunState,
    pub display: Seq<bool>,
    pub draw_flag: bool,
    pub last_time: Instant,
}

impl State {
    /// The sizes are those of the machine, the stack depth is within the
    /// stack, and a pending key press names a register.
    pub open spec fn wf(self) -> bool {
        &&& self.memory.len() == 4096
        &&& self.registers.len() == 16
        &&& self.stack.len() == 24
        &&& self.stack_counter <= 24
        &&& self.display.len() == 2048
        &&& (self.run_state matches RunState::AwaitingKey { register } ==> register < 16)
    }
}

/// `v` reduced to 8 bits.
pub open spec fn low8(v: int) -> u8 {
    (v % 256) as u8
}

/// `v` reduced to 16 bits.
pub open spec fn low16(v: int) -> u16 {
    (v % 65536) as u16
}

/// 1 when `b` holds, else 0: the value a flag register takes.
pub open spec fn flag(b: bool) -> u8 {
    if b {
        1
    } else {
        0
    }
}

/// Whether key `key` is held according to the bitmask `keyboard`.
/// Only the keys 0 to 15 exist.
pub open spec fn key_held(keyboard: u16, key: int) -> bool {
    0 <= key < 16 && (keyboard >> (key as u16)) & 1 == 1
}

/// Whether the sprite row `byte` has a pixel in column `col`, counted from
/// the left (the most significant bit).
pub open spec fn row_pixel(byte: u8, col: int) -> bool {
    0 <= col < 8 && (byte >> ((7 - col) as u8)) & 1 == 1
}

/// Whether the sprite of `rows` rows read from `memory` at `base`, drawn with
/// its top left corner at column `vx` and row `vy`, has a pixel on display
/// cell `p`. Cells are numbered row by row, 64 to a row; sprite pixels that
/// would fall right of column 63 or below row 31 hit no cell.
pub open spec fn sprite_pixel(memory: Seq<u8>, base: int, rows: int, vx: int, vy: int, p: int) -> bool {
    let col = p % 64 - vx;
    let row = p / 64 - vy;
    0 <= p < 2048 && 0 <= row < rows && row_pixel(memory[base + row], col)
}

/// Whether drawing that sprite turns off a pixel that was on.
pub open spec fn sprite_collides(
    display: Seq<bool>,
    memory: Seq<u8>,
    base: int,
    rows: int,
    vx: int,
    vy: int,
) -> bool {
    exists|p: int| 0 <= p < 2048 && display[p] && #[trigger] sprite_pixel(memory, base, rows, vx, vy, p)
}

/// The display after that sprite was XORed onto it.
pub open spec fn sprite_drawn(
    display: Seq<bool>,
    memory: Seq<u8>,
    base: int,
    rows: int,
    vx: int,
    vy: int,
) -> Seq<bool> {
    Seq::new(2048, |p: int| display[p] != sprite_pixel(memory, base, rows, vx, vy, p))
}

/// The three decimal digits of `value`: hundreds, tens, ones.
pub open spec fn decimal_digits(value: u8) -> Seq<u8> {
    seq![value / 100, (value / 10) % 10, value % 10]
}

/// The fault, if any, that stops `ins` in state `s`.
pub open spec fn fault_of(s: State, ins: Instruction) -> Option<Fault> {
    match ins {
        Instruction::Return => if s.stack_counter == 0 {
            Some(Fault::StackUnderflow)
        } else {
            None
        },
        Instruction::Call { .. } => if s.stack_counter >= 24 {
            Some(Fault::StackOverflow)
        } else {
            None
        },
        Instruction::Draw { rows, .. } => if rows > 0 && s.address_register + rows > 4096 {
            Some(Fault::MemoryOutOfRange)
        } else {
            None
        },
        Instruction::StoreDecimal { .. } => if s.address_register + 3 > 4096 {
            Some(Fault::MemoryOutOfRange)
        } else {
            None
        },
        Instruction::StoreRegisters { x } | Instruction::LoadRegisters { x } => if s.address_register
            + x + 1 > 4096 {
            Some(Fault::MemoryOutOfRange)
        } else {
            None
        },
        _ => None,
    }
}

/// `s` with register `x` set to `v`.
pub open spec fn set_register(s: State, x: u8, v: u8) -> State {
    State { registers: s.registers.update(x as int, v), ..s }
}

/// `s` with the program counter moved past one more instruction if `cond`.
pub open spec fn skip_if(s: State, cond: bool) -> State {
    if cond {
        State { program_counter: low16(s.program_counter + 2), ..s }
    } else {
        s
    }
}

/// The state after `ins` took effect in `s`, for an instruction that
/// `fault_of` lets pass. `random` is the byte drawn for `Random`.
///
/// The program counter of `s` already points past `ins`: a call pushes it as
/// the return address, a skip adds 2 to it.
pub open spec fn apply(s: State, ins: Instruction, random: u8) -> State {
    let v = s.registers;
    match ins {
        Instruction::NoOp => s,
        Instruction::ClearScreen => State {
            display: Seq::new(2048, |p: int| false),
            draw_flag: true,
            ..s
        },
        Instruction::Return => State {
            program_counter: s.stack[s.stack_counter - 1],
            stack: s.stack.update(s.stack_counter - 1, 0),
            stack_counter: (s.stack_counter - 1) as nat,
            ..s
        },
        Instruction::Jump { addr } => State { program_counter: addr, ..s },
        Instruction::Call { addr } => State {
            program_counter: addr,
            stack: s.stack.update(s.stack_counter as int, s.program_counter),
            stack_counter: s.stack_counter + 1,
            ..s
        },
        Instruction::SkipIfEqual { x, value } => skip_if(s, v[x as int] == value),
        Instruction::SkipIfNotEqual { x, value } => skip_if(s, v[x as int] != value),
        Instruction::SkipIfRegistersEqual { x, y } => skip_if(s, v[x as int] == v[y as int]),
        Instruction::SkipIfRegistersDiffer { x, y } => skip_if(s, v[x as int] != v[y as int]),
        Instruction::Load { x, value } => set_register(s, x, value),
        Instruction::AddImmediate { x, value } => set_register(s, x, low8(v[x as int] + value)),
        Instruction::Move { x, y } => set_register(s, x, v[y as int]),
        Instruction::Or { x, y } => set_register(s, x, v[x as int] | v[y as int]),
        Instruction::And { x, y } => set_register(s, x, v[x as int] & v[y as int]),
        Instruction::Xor { x, y } => set_register(s, x, v[x as int] ^ v[y as int]),
        Instruction::Add { x, y } => set_register(
            set_register(s, x, low8(v[x as int] + v[y as int])),
            15,
            flag(v[x as int] + v[y as int] > 255),
        ),
        Instruction::Subtract { x, y } => set_register(
            set_register(s, x, low8(v[x as int] - v[y as int])),
            15,
            flag(v[x as int] > v[y as int]),
        ),
        Instruction::SubtractFrom { x, y } => set_register(
            set_register(s, x, low8(v[y as int] - v[x as int])),
            15,
            flag(v[y as int] > v[x as int]),
        ),
        Instruction::ShiftRight { x } => {
            let t = set_register(s, 15, (v[x as int] % 2) as u8);
            set_register(t, x, t.registers[x as int] / 2)
        },
        Instruction::ShiftLeft { x } => {
            let t = set_register(s, 15, v[x as int] / 128);
            set_register(t, x, low8(t.registers[x as int] * 2))
        },
        Instruction::LoadAddress { addr } => State { address_register: addr, ..s },
        Instruction::JumpOffset { addr } => State {
            program_counter: low16(addr + v[0]),
            ..s
        },
        Instruction::Random { x, mask } => set_register(s, x, mask & random),
        Instruction::Draw { x, y, rows } => {
            let base = s.address_register as int;
            let vx = v[x as int] as int;
            let vy = v[y as int] as int;
            State {
                display: sprite_drawn(s.display, s.memory, base, rows as int, vx, vy),
                registers: v.update(
                    15,
                    flag(sprite_collides(s.display, s.memory, base, rows as int, vx, vy)),
                ),
                draw_flag: true,
                ..s
            }
        },
        Instruction::SkipIfKeyDown { x } => skip_if(s, key_held(s.keyboard, v[x as int] as int)),
        Instruction::SkipIfKeyUp { x } => skip_if(s, !key_held(s.keyboard, v[x as int] as int)),
        Instruction::ReadDelay { x } => set_register(s, x, s.delay_timer),
        Instruction::WaitKey { x } => State {
            run_state: RunState::AwaitingKey { register: x },
            ..s
        },
        Instruction::SetDelay { x } => State { delay_timer: v[x as int], ..s },
        Instruction::SetSound { x } => State { sound_timer: v[x as int], ..s },
        Instruction::AddAddress { x } => State {
            address_register: low16(s.address_register + v[x as int]),
            ..s
        },
        Instruction::FontAddress { x } => State {
            address_register: (v[x as int] * 5) as u16,
            ..s
        },
        Instruction::StoreDecimal { x } => State {
            memory: overlay(s.memory, s.address_register as int, decimal_digits(v[x as int])),
            ..s
        },
        Instruction::StoreRegisters { x } => State {
            memory: overlay(s.memory, s.address_register as int, v.subrange(0, x + 1)),
            ..s
        },
        Instruction::LoadRegisters { x } => State {
            registers: overlay(
                v,
                0,
                s.memory.subrange(s.address_register as int, s.address_register + x + 1),
            ),
            ..s
        },
    }
}

/// An instruction that `fault_of` lets pass leaves a well-formed state
/// well-formed.
pub proof fn lemma_apply_preserves_wf(s: State, ins: Instruction, random: u8)
    requires
        s.wf(),
        ins.wf(),
        fault_of(s, ins) is None,
    ensures
        apply(s, ins, random).wf(),
{
}

/// Whether `elapsed_nanos` nanoseconds are at least a sixtieth of a second.
pub open spec fn timers_due(elapsed_nanos: int) -> bool {
    60 * elapsed_nanos >= 1_000_000_000
}

/// A timer one tick later: one less, but never below zero.
pub open spec fn decayed(timer: u8) -> u8 {
    if timer > 0 {
        (timer - 1) as u8
    } else {
        0
    }
}

/// The state after the timers were serviced at instant `now`,
/// `elapsed_nanos` nanoseconds after they last ticked: when a sixtieth of a
/// second has passed, both timers tick once and `now` becomes the instant of
/// the last tick; otherwise nothing changes.
pub open spec fn tick(s: State, elapsed_nanos: int, now: Instant) -> State {
    if timers_due(elapsed_nanos) {
        State {
            delay_timer: decayed(s.delay_timer),
            sound_timer: decayed(s.sound_timer),
            last_time: now,
            ..s
        }
    } else {
        s
    }
}

/// One execution step: the timers are serviced, then `ins` takes effect.
pub open spec fn step(s: State, ins: Instruction, elapsed_nanos: int, now: Instant, random: u8) -> State {
    apply(tick(s, elapsed_nanos, now), ins, random)
}

/// The instruction that the bytes `hi`, `lo` spell.
pub open spec fn decode_word(hi: u8, lo: u8) -> Instruction {
    decode_nibbles(hi as int / 16, hi as int % 16, lo as int / 16, lo as int % 16)
}

/// The instruction at the program counter of `s`.
pub open spec fn fetched(s: State) -> Instruction {
    decode_word(s.memory[s.program_counter as int], s.memory[s.program_counter + 1])
}

/// The fault, if any, that stops a fetch-and-execute cycle in state `s`:
/// none while a key press is awaited; else an instruction word that does
/// not lie within memory, or the fault of the instruction fetched.
pub open spec fn cycle_fault(s: State) -> Option<Fault> {
    if s.run_state is AwaitingKey {
        None
    } else if s.program_counter + 2 > 4096 {
        Some(Fault::MemoryOutOfRange)
    } else {
        fault_of(s, fetched(s))
    }
}

/// The state after one fetch-and-execute cycle that `cycle_fault` lets
/// pass: nothing happens while a key press is awaited; else the program
/// counter moves past the instruction fetched, and one execution step
/// follows.
pub open spec fn cycle(s: State, elapsed_nanos: int, now: Instant, random: u8) -> State {
    if s.run_state is AwaitingKey {
        s
    } else {
        step(
            State { program_counter: (s.program_counter + 2) as u16, ..s },
            fetched(s),
            elapsed_nanos,
            now,
            random,
        )
    }
}

/// The state after key `key` was reported as pressed: a pending key wait
/// ends with `key` in its register; a running machine is left as it is.
pub open spec fn deliver_key(s: State, key: u8) -> State {
    match s.run_state {
        RunState::AwaitingKey { register } => State {
            registers: s.registers.update(register as int, key),
            run_state: RunState::Running,
            ..s
        },
        RunState::Running => s,
    }
}

/// `s` with the font in the first 80 bytes of memory.
pub open spec fn with_font(s: State) -> State {
    State { memory: overlay(s.memory, 0, font_table()), ..s }
}

/// `s` with `program` in memory from address 0x200 on.
pub open spec fn with_program(s: State, program: Seq<u8>) -> State {
    State { memory: overlay(s.memory, 0x200, program), ..s }
}

} // verus!
