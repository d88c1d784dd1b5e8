//! The machine itself: its registers, memory, stack, timers, keyboard and
//! display, and the engine that executes instructions on them.

use vstd::prelude::*;
use vstd::slice::slice_subrange;
use std::time::Instant;
use crate::display::blit;
use crate::font::write_font;
use crate::memory::write_block;
use crate::instruction::Instruction;
use crate::sources::{nanos_between, random_byte};
use crate::model::{
    apply, cycle, cycle_fault, decimal_digits, decode_word, deliver_key, fault_of, fetched, key_held,
    lemma_apply_preserves_wf, step, tick, with_font, with_program, Fault, RunState, State,
};
use crate::opcode::Opcode;

verus! {

/// A CHIP-8 machine.
pub struct Cpu {
    pub memory: [u8; 4096],
    pub registers: [u8; 16],
    pub address_register: u16,
    pub program_counter: u16,
    pub stack: [u16; 24],
    pub stack_counter: usize,
    pub delay_timer: u8,
    pub sound_timer: u8,
    /// One bit per key, bit `k` for key `k`.
    pub keyboard: u16,
    pub run_state: RunState,
    /// One cell per pixel, row by row, 64 to a row.
    pub display: [bool; 2048],
    /// Set whenever the display changed; whoever presents it clears the flag.
    pub draw_flag: bool,
    /// The instant at which the timers last ticked.
    pub last_time: Instant,
}

impl View for Cpu {
    type V = State;

    open spec fn view(&self) -> State {
        State {
            memory: self.memory@,
            registers: self.registers@,
            address_register: self.address_register,
            program_counter: self.program_counter,
            stack: self.stack@,
            stack_counter: self.stack_counter as nat,
            delay_timer: self.delay_timer,
            sound_timer: self.sound_timer,
            keyboard: self.keyboard,
            run_state: self.run_state,
            display: self.display@,
            draw_flag: self.draw_flag,
            last_time: self.last_time,
        }
    }
}

impl Cpu {
    /// The stack depth is within the stack and a pending key press names a
    /// register.
    pub open spec fn wf(&self) -> bool {
        self@.wf()
    }

    /// Tests at run time whether the machine is well-formed.
    pub fn is_well_formed(&self) -> (ok: bool)
        ensures
            ok == self.wf(),
    {
        let target_ok: bool = match self.run_state {
            RunState::AwaitingKey { register } => register < 16,
            RunState::Running => true,
        };
        self.stack_counter <= 24 && target_ok
    }

    /// A machine with everything zeroed, the display blank, the program
    /// counter at 0x200 and the timers' clock started now.
    pub fn new() -> (cpu: Cpu)
        ensures
            cpu.wf(),
            cpu@.memory == Seq::new(4096, |i: int| 0u8),
            cpu@.registers == Seq::new(16, |i: int| 0u8),
            cpu@.stack == Seq::new(24, |i: int| 0u16),
            cpu@.display == Seq::new(2048, |i: int| false),
            cpu.address_register == 0,
            cpu.program_counter == 0x200,
            cpu.stack_counter == 0,
            cpu.delay_timer == 0,
            cpu.sound_timer == 0,
            cpu.keyboard == 0,
            cpu.run_state == RunState::Running,
            !cpu.draw_flag,
    {
        Cpu {
            memory: [0; 4096],
            registers: [0; 16],
            address_register: 0,
            program_counter: 0x200,
            stack: [0; 24],
            stack_counter: 0,
            delay_timer: 0,
            sound_timer: 0,
            keyboard: 0,
            run_state: RunState::Running,
            display: [false; 2048],
            draw_flag: false,
            last_time: Instant::now(),
        }
    }

    /// Loads the font: the sixteen glyphs go to the first 80 bytes of memory.
    pub fn load_sprites(&mut self)
        ensures
            final(self)@ == with_font(old(self)@),
    {
        write_font(&mut self.memory);
    }

    /// Loads `program` into memory from address 0x200 on. A program of more
    /// than 3584 bytes does not fit: it is refused and nothing changes.
    pub fn load_program(&mut self, program: &[u8]) -> (result: Result<(), Fault>)
        ensures
            match result {
                Ok(()) => program@.len() <= 3584 && final(self)@ == with_program(
                    old(self)@,
                    program@,
                ),
                Err(fault) => program@.len() > 3584 && fault == Fault::ProgramTooLarge
                    && final(self)@ == old(self)@,
            },
    {
        if program.len() > 3584 {
            return Err(Fault::ProgramTooLarge);
        }
        write_block(&mut self.memory, 0x200, program);
        Ok(())
    }

    /// Services the timers at instant `now`, `elapsed_nanos` nanoseconds
    /// after they last ticked.
    pub fn tick_timers(&mut self, elapsed_nanos: u128, now: Instant)
        ensures
            final(self)@ == tick(old(self)@, elapsed_nanos as int, now),
    {
        if elapsed_nanos >= 16_666_667 {
            self.last_time = now;
            if self.delay_timer > 0 {
                self.delay_timer -= 1;
            }
            if self.sound_timer > 0 {
                self.sound_timer -= 1;
            }
        }
    }

    /// The fault, if any, that stops `ins` in the present state.
    pub fn check(&self, ins: Instruction) -> (fault: Option<Fault>)
        requires
            ins.wf(),
        ensures
            fault == fault_of(self@, ins),
    {
        let i: usize = self.address_register as usize;
        match ins {
            Instruction::Return => if self.stack_counter == 0 {
                Some(Fault::StackUnderflow)
            } else {
                None
            },
            Instruction::Call { .. } => if self.stack_counter >= 24 {
                Some(Fault::StackOverflow)
            } else {
                None
            },
            Instruction::Draw { rows, .. } => if rows > 0 && i + rows as usize > 4096 {
                Some(Fault::MemoryOutOfRange)
            } else {
                None
            },
            Instruction::StoreDecimal { .. } => if i + 3 > 4096 {
                Some(Fault::MemoryOutOfRange)
            } else {
                None
            },
            Instruction::StoreRegisters { x } => if i + x as usize + 1 > 4096 {
                Some(Fault::MemoryOutOfRange)
            } else {
                None
            },
            Instruction::LoadRegisters { x } => if i + x as usize + 1 > 4096 {
                Some(Fault::MemoryOutOfRange)
            } else {
                None
            },
            _ => None,
        }
    }

    /// Moves the program counter past one more instruction if `cond` holds.
    fn skip_if(&mut self, cond: bool)
        ensures
            final(self)@ == crate::model::skip_if(old(self)@, cond),
    {
        if cond {
            self.program_counter = self.program_counter.wrapping_add(2);
        }
    }

    /// Copies the registers 0 to `x` into memory at the address register.
    fn store_registers(&mut self, x: u8)
        requires
            x < 16,
            old(self).address_register + x + 1 <= 4096,
        ensures
            forall|random: u8|
                final(self)@ == #[trigger] apply(
                    old(self)@,
                    Instruction::StoreRegisters { x },
                    random,
                ),
    {
        let at: usize = self.address_register as usize;
        let block = slice_subrange(self.registers.as_slice(), 0, x as usize + 1);
        write_block(&mut self.memory, at, block);
    }

    /// Fills the registers 0 to `x` from memory at the address register.
    fn load_registers(&mut self, x: u8)
        requires
            x < 16,
            old(self).address_register + x + 1 <= 4096,
        ensures
            forall|random: u8|
                final(self)@ == #[trigger] apply(
                    old(self)@,
                    Instruction::LoadRegisters { x },
                    random,
                ),
    {
        let at: usize = self.address_register as usize;
        let block = slice_subrange(self.memory.as_slice(), at, at + x as usize + 1);
        write_block(&mut self.registers, 0, block);
    }

    /// Sets register `x` to `value`.
    fn set_register(&mut self, x: u8, value: u8)
        requires
            x < 16,
        ensures
            final(self)@ == crate::model::set_register(old(self)@, x, value),
    {
        self.registers[x as usize] = value;
    }

    /// Blanks the display.
    fn clear_screen(&mut self)
        ensures
            forall|random: u8| final(self)@ == #[trigger] apply(old(self)@, Instruction::ClearScreen, random),
    {
        self.display = [false;2048];
        self.draw_flag = true;
        assert(self@.display =~= Seq::new(2048, |p: int| false));
    }

    /// Draws the sprite at the address register at (register `x`, register `y`).
    fn draw(&mut self, x: u8, y: u8, rows: u8)
        requires
            x < 16,
            y < 16,
            rows > 0 ==> old(self).address_register + rows <= 4096,
        ensures
            forall|random: u8|
                final(self)@ == #[trigger] apply(old(self)@, Instruction::Draw { x, y, rows }, random),
    {
        let vx: u8 = self.registers[x as usize];
        let vy: u8 = self.registers[y as usize];
        let base: usize = self.address_register as usize;
        let collided = blit(&mut self.display, &self.memory, base, rows as usize, vx, vy);
        self.registers[15] = if collided {
            1
        } else {
            0
        };
        self.draw_flag = true;
    }

    /// Writes the decimal digits of register `x` at the address register.
    fn store_decimal(&mut self, x: u8)
        requires
            x < 16,
            old(self).address_register + 3 <= 4096,
        ensures
            forall|random: u8|
                final(self)@ == #[trigger] apply(
                    old(self)@,
                    Instruction::StoreDecimal { x },
                    random,
                ),
    {
        let at: usize = self.address_register as usize;
        let value: u8 = self.registers[x as usize];
        let digits: [u8; 3] = [value / 100, (value / 10) % 10, value % 10];
        assert(digits@ =~= decimal_digits(value));
        write_block(&mut self.memory, at, digits.as_slice());
    }

    /// The instructions that copy or combine registers bit by bit, and the
    /// addition of a constant.
    fn combine(&mut self, ins: Instruction)
        requires
            ins.wf(),
            ins is Move || ins is Or || ins is And || ins is Xor || ins is AddImmediate,
        ensures
            forall|random: u8| final(self)@ == #[trigger] apply(old(self)@, ins, random),
    {
        match ins {
            Instruction::AddImmediate { x, value } => {
                let a: u8 = self.registers[x as usize];
                self.set_register(x, a.wrapping_add(value));
            },
            Instruction::Move { x, y } => {
                let b: u8 = self.registers[y as usize];
                self.set_register(x, b);
            },
            Instruction::Or { x, y } => {
                let a: u8 = self.registers[x as usize];
                let b: u8 = self.registers[y as usize];
                self.set_register(x, a | b);
            },
            Instruction::And { x, y } => {
                let a: u8 = self.registers[x as usize];
                let b: u8 = self.registers[y as usize];
                self.set_register(x, a & b);
            },
            Instruction::Xor { x, y } => {
                let a: u8 = self.registers[x as usize];
                let b: u8 = self.registers[y as usize];
                self.set_register(x, a ^ b);
            },
            _ => {},
        }
    }

    /// Adds register `y` to register `x`, then writes the carry flag.
    fn add_registers(&mut self, x: u8, y: u8)
        requires
            x < 16,
            y < 16,
        ensures
            forall|random: u8|
                final(self)@ == #[trigger] apply(old(self)@, Instruction::Add { x, y }, random),
    {
        let a: u8 = self.registers[x as usize];
        let b: u8 = self.registers[y as usize];
        self.set_register(x, a.wrapping_add(b));
        self.set_register(15, if a as u16 + b as u16 > 255 { 1 } else { 0 });
    }

    /// Subtracts register `y` from register `x`, then writes the no-borrow flag.
    fn subtract_registers(&mut self, x: u8, y: u8)
        requires
            x < 16,
            y < 16,
        ensures
            forall|random: u8|
                final(self)@ == #[trigger] apply(old(self)@, Instruction::Subtract { x, y }, random),
    {
        let a: u8 = self.registers[x as usize];
        let b: u8 = self.registers[y as usize];
        self.set_register(x, a.wrapping_sub(b));
        self.set_register(15, if a > b { 1 } else { 0 });
    }

    /// Sets register `x` to register `y` minus register `x`, then writes the
    /// no-borrow flag.
    fn subtract_from_register(&mut self, x: u8, y: u8)
        requires
            x < 16,
            y < 16,
        ensures
            forall|random: u8|
                final(self)@ == #[trigger] apply(
                    old(self)@,
                    Instruction::SubtractFrom { x, y },
                    random,
                ),
    {
        let a: u8 = self.registers[x as usize];
        let b: u8 = self.registers[y as usize];
        self.set_register(x, b.wrapping_sub(a));
        self.set_register(15, if b > a { 1 } else { 0 });
    }

    /// Writes the lowest bit of register `x` to the flag, then halves the register.
    fn shift_right(&mut self, x: u8)
        requires
            x < 16,
        ensures
            forall|random: u8|
                final(self)@ == #[trigger] apply(old(self)@, Instruction::ShiftRight { x }, random),
    {
        let a: u8 = self.registers[x as usize];
        self.set_register(15, a % 2);
        let a: u8 = self.registers[x as usize];
        self.set_register(x, a / 2);
    }

    /// Writes the highest bit of register `x` to the flag, then doubles the register.
    fn shift_left(&mut self, x: u8)
        requires
            x < 16,
        ensures
            forall|random: u8|
                final(self)@ == #[trigger] apply(old(self)@, Instruction::ShiftLeft { x }, random),
    {
        let a: u8 = self.registers[x as usize];
        self.set_register(15, a / 128);
        let a: u8 = self.registers[x as usize];
        self.set_register(x, a.wrapping_add(a));
    }

    /// The instructions that set the flag register: addition, the two
    /// subtractions and the two shifts.
    fn compute(&mut self, ins: Instruction)
        requires
            ins.wf(),
            ins is Add || ins is Subtract || ins is SubtractFrom || ins is ShiftRight
                || ins is ShiftLeft,
        ensures
            forall|random: u8| final(self)@ == #[trigger] apply(old(self)@, ins, random),
    {
        match ins {
            Instruction::Add { x, y } => self.add_registers(x, y),
            Instruction::Subtract { x, y } => self.subtract_registers(x, y),
            Instruction::SubtractFrom { x, y } => self.subtract_from_register(x, y),
            Instruction::ShiftRight { x } => self.shift_right(x),
            Instruction::ShiftLeft { x } => self.shift_left(x),
            _ => {},
        }
    }

    /// The instructions that may skip the next one.
    fn branch(&mut self, ins: Instruction)
        requires
            ins.wf(),
            ins is SkipIfEqual || ins is SkipIfNotEqual || ins is SkipIfRegistersEqual
                || ins is SkipIfRegistersDiffer || ins is SkipIfKeyDown || ins is SkipIfKeyUp,
        ensures
            forall|random: u8| final(self)@ == #[trigger] apply(old(self)@, ins, random),
    {
        let cond: bool = match ins {
            Instruction::SkipIfEqual { x, value } => self.registers[x as usize] == value,
            Instruction::SkipIfNotEqual { x, value } => self.registers[x as usize] != value,
            Instruction::SkipIfRegistersEqual { x, y } => self.registers[x as usize]
                == self.registers[y as usize],
            Instruction::SkipIfRegistersDiffer { x, y } => self.registers[x as usize]
                != self.registers[y as usize],
            Instruction::SkipIfKeyDown { x } => self.key_is_held(self.registers[x as usize]),
            Instruction::SkipIfKeyUp { x } => !self.key_is_held(self.registers[x as usize]),
            _ => false,
        };
        self.skip_if(cond);
    }

    /// The jumps, the call and the return.
    fn jump(&mut self, ins: Instruction)
        requires
            old(self).wf(),
            ins.wf(),
            ins is Jump || ins is JumpOffset || ins is Call || ins is Return,
            fault_of(old(self)@, ins) is None,
        ensures
            forall|random: u8| final(self)@ == #[trigger] apply(old(self)@, ins, random),
    {
        match ins {
            Instruction::Jump { addr } => {
                self.program_counter = addr;
            },
            Instruction::JumpOffset { addr } => {
                self.program_counter = addr + self.registers[0] as u16;
            },
            Instruction::Call { addr } => {
                self.stack[self.stack_counter] = self.program_counter;
                self.stack_counter += 1;
                self.program_counter = addr;
            },
            Instruction::Return => {
                self.stack_counter -= 1;
                self.program_counter = self.stack[self.stack_counter];
                self.stack[self.stack_counter] = 0;
            },
            _ => {},
        }
    }

    /// The instructions that move a value between a register and a constant,
    /// a timer, the address register or the key-wait state.
    fn transfer(&mut self, ins: Instruction, random: u8)
        requires
            ins.wf(),
            ins is Load || ins is Random || ins is ReadDelay || ins is SetDelay || ins is SetSound
                || ins is LoadAddress || ins is AddAddress || ins is FontAddress || ins is WaitKey,
        ensures
            final(self)@ == apply(old(self)@, ins, random),
    {
        match ins {
            Instruction::Load { x, value } => self.set_register(x, value),
            Instruction::Random { x, mask } => self.set_register(x, mask & random),
            Instruction::ReadDelay { x } => {
                let timer: u8 = self.delay_timer;
                self.set_register(x, timer);
            },
            Instruction::SetDelay { x } => {
                self.delay_timer = self.registers[x as usize];
            },
            Instruction::SetSound { x } => {
                self.sound_timer = self.registers[x as usize];
            },
            Instruction::LoadAddress { addr } => {
                self.address_register = addr;
            },
            Instruction::AddAddress { x } => {
                self.address_register = self.address_register.wrapping_add(
                    self.registers[x as usize] as u16,
                );
            },
            Instruction::FontAddress { x } => {
                self.address_register = self.registers[x as usize] as u16 * 5;
            },
            Instruction::WaitKey { x } => {
                self.run_state = RunState::AwaitingKey { register: x };
            },
            _ => {},
        }
    }

    /// Executes one decoded instruction. `random` is the byte that `Random`
    /// uses; the other instructions ignore it.
    ///
    /// The program counter must already point past the instruction. On a
    /// fault nothing changes.
    pub fn execute_instruction(&mut self, ins: Instruction, random: u8) -> (result: Result<(), Fault>)
        requires
            old(self).wf(),
            ins.wf(),
        ensures
            final(self).wf(),
            match result {
                Ok(()) => fault_of(old(self)@, ins) is None && final(self)@ == apply(
                    old(self)@,
                    ins,
                    random,
                ),
                Err(fault) => fault_of(old(self)@, ins) == Some(fault)
                    && final(self)@ == old(self)@,
            },
    {
        if let Some(fault) = self.check(ins) {
            return Err(fault);
        }
        proof {
            lemma_apply_preserves_wf(self@, ins, random);
        }
        match ins {
            Instruction::NoOp => {},
            Instruction::ClearScreen => self.clear_screen(),
            Instruction::Jump { .. }
            | Instruction::JumpOffset { .. }
            | Instruction::Call { .. }
            | Instruction::Return => self.jump(ins),
            Instruction::SkipIfEqual { .. }
            | Instruction::SkipIfNotEqual { .. }
            | Instruction::SkipIfRegistersEqual { .. }
            | Instruction::SkipIfRegistersDiffer { .. }
            | Instruction::SkipIfKeyDown { .. }
            | Instruction::SkipIfKeyUp { .. } => self.branch(ins),
            Instruction::AddImmediate { .. }
            | Instruction::Move { .. }
            | Instruction::Or { .. }
            | Instruction::And { .. }
            | Instruction::Xor { .. } => self.combine(ins),
            Instruction::Add { .. }
            | Instruction::Subtract { .. }
            | Instruction::SubtractFrom { .. }
            | Instruction::ShiftRight { .. }
            | Instruction::ShiftLeft { .. } => self.compute(ins),
            Instruction::Load { .. }
            | Instruction::Random { .. }
            | Instruction::ReadDelay { .. }
            | Instruction::SetDelay { .. }
            | Instruction::SetSound { .. }
            | Instruction::LoadAddress { .. }
            | Instruction::AddAddress { .. }
            | Instruction::FontAddress { .. }
            | Instruction::WaitKey { .. } => self.transfer(ins, random),
            Instruction::Draw { x, y, rows } => self.draw(x, y, rows),
            Instruction::StoreDecimal { x } => self.store_decimal(x),
            Instruction::StoreRegisters { x } => self.store_registers(x),
            Instruction::LoadRegisters { x } => self.load_registers(x),
        }
        Ok(())
    }

    /// Whether key `key` is held. Only the keys 0 to 15 exist.
    pub fn key_is_held(&self, key: u8) -> (held: bool)
        ensures
            held == key_held(self.keyboard, key as int),
    {
        key < 16 && (self.keyboard >> (key as u16)) & 1 == 1
    }

    /// One execution step on a decoded instruction: the timers are serviced,
    /// then the instruction takes effect. On a fault nothing changes.
    fn run(&mut self, ins: Instruction, elapsed_nanos: u128, now: Instant, random: u8) -> (result:
        Result<(), Fault>)
        requires
            old(self).wf(),
            ins.wf(),
        ensures
            final(self).wf(),
            match result {
                Ok(()) => fault_of(old(self)@, ins) is None && final(self)@ == step(
                    old(self)@,
                    ins,
                    elapsed_nanos as int,
                    now,
                    random,
                ),
                Err(fault) => fault_of(old(self)@, ins) == Some(fault)
                    && final(self)@ == old(self)@,
            },
    {
        if let Some(fault) = self.check(ins) {
            return Err(fault);
        }
        self.tick_timers(elapsed_nanos, now);
        self.execute_instruction(ins, random)
    }

    /// One execution step with the clock and the random source supplied by
    /// the caller: the timers are serviced for `elapsed_nanos` nanoseconds
    /// since their last tick, read at instant `now`; then the instruction in
    /// the first two bytes of `opcode` takes effect, with `random` as the
    /// byte drawn if it asks for one.
    ///
    /// The program counter must already point past the instruction. On a
    /// fault nothing changes, the timers included.
    pub fn execute_at(
        &mut self,
        opcode: &[u8],
        elapsed_nanos: u128,
        now: Instant,
        random: u8,
    ) -> (result: Result<(), Fault>)
        requires
            old(self).wf(),
            opcode@.len() >= 2,
        ensures
            final(self).wf(),
            match result {
                Ok(()) => fault_of(old(self)@, decode_word(opcode@[0], opcode@[1])) is None
                    && final(self)@ == step(
                    old(self)@,
                    decode_word(opcode@[0], opcode@[1]),
                    elapsed_nanos as int,
                    now,
                    random,
                ),
                Err(fault) => fault_of(old(self)@, decode_word(opcode@[0], opcode@[1])) == Some(
                    fault,
                ) && final(self)@ == old(self)@,
            },
    {
        let op = Opcode::new(opcode);
        let ins = Instruction::decode(&op);
        self.run(ins, elapsed_nanos, now, random)
    }

    /// One execution step: reads the clock, services the timers, and
    /// executes the instruction in the first two bytes of `opcode`, drawing
    /// a random byte if the instruction asks for one.
    ///
    /// Whatever the clock and the random source gave, the outcome is that of
    /// `execute_at` on some elapsed time, instant and byte.
    pub fn execute(&mut self, opcode: &[u8]) -> (result: Result<(), Fault>)
        requires
            old(self).wf(),
            opcode@.len() >= 2,
        ensures
            final(self).wf(),
            match result {
                Ok(()) => fault_of(old(self)@, decode_word(opcode@[0], opcode@[1])) is None
                    && exists|elapsed_nanos: int, now: Instant, random: u8|
                    final(self)@ == #[trigger] step(
                        old(self)@,
                        decode_word(opcode@[0], opcode@[1]),
                        elapsed_nanos,
                        now,
                        random,
                    ),
                Err(fault) => fault_of(old(self)@, decode_word(opcode@[0], opcode@[1])) == Some(
                    fault,
                ) && final(self)@ == old(self)@,
            },
    {
        let op = Opcode::new(opcode);
        let ins = Instruction::decode(&op);
        let now = Instant::now();
        let elapsed_nanos = nanos_between(&now, &self.last_time);
        let random: u8 = match ins {
            Instruction::Random { .. } => random_byte(),
            _ => 0,
        };
        self.run(ins, elapsed_nanos, now, random)
    }

    /// The instruction that a cycle would fetch now, if it would fetch one:
    /// none while a key press is awaited, nor where the instruction word
    /// does not lie within memory.
    fn next_instruction(&self) -> (next: Option<Instruction>)
        ensures
            next == if self.run_state is AwaitingKey || self.program_counter + 2 > 4096 {
                None
            } else {
                Some(fetched(self@))
            },
            next matches Some(ins) ==> ins.wf(),
    {
        let pc: usize = self.program_counter as usize;
        if self.is_waiting() || pc + 2 > 4096 {
            return None;
        }
        let word: [u8; 2] = [self.memory[pc], self.memory[pc + 1]];
        let op = Opcode::new(word.as_slice());
        Some(Instruction::decode(&op))
    }

    /// One fetch-and-execute cycle with the clock and the random source
    /// supplied by the caller. While a key press is awaited nothing happens.
    /// Else the instruction at the program counter is fetched, the program
    /// counter moves past it, and one execution step follows as in
    /// `execute_at`. On a fault nothing changes.
    pub fn cycle_at(&mut self, elapsed_nanos: u128, now: Instant, random: u8) -> (result: Result<
        (),
        Fault,
    >)
        requires
            old(self).wf(),
        ensures
            final(self).wf(),
            match result {
                Ok(()) => cycle_fault(old(self)@) is None && final(self)@ == cycle(
                    old(self)@,
                    elapsed_nanos as int,
                    now,
                    random,
                ),
                Err(fault) => cycle_fault(old(self)@) == Some(fault) && final(self)@ == old(self)@,
            },
    {
        if self.is_waiting() {
            return Ok(());
        }
        let ins = match self.next_instruction() {
            Some(ins) => ins,
            None => {
                return Err(Fault::MemoryOutOfRange);
            },
        };
        if let Some(fault) = self.check(ins) {
            return Err(fault);
        }
        self.program_counter = self.program_counter + 2;
        self.run(ins, elapsed_nanos, now, random)
    }

    /// One fetch-and-execute cycle: as `cycle_at`, with the clock read and a
    /// random byte drawn where the instruction fetched asks for them.
    ///
    /// Whatever the clock and the random source gave, the outcome is that of
    /// `cycle_at` on some elapsed time, instant and byte.
    pub fn cycle(&mut self) -> (result: Result<(), Fault>)
        requires
            old(self).wf(),
        ensures
            final(self).wf(),
            match result {
                Ok(()) => cycle_fault(old(self)@) is None && exists|
                    elapsed_nanos: int,
                    now: Instant,
                    random: u8,
                |
                    final(self)@ == #[trigger] cycle(old(self)@, elapsed_nanos, now, random),
                Err(fault) => cycle_fault(old(self)@) == Some(fault) && final(self)@ == old(self)@,
            },
    {
        if self.is_waiting() {
            assert(self@ == cycle(self@, 0, self.last_time, 0));
            return Ok(());
        }
        let random: u8 = match self.next_instruction() {
            Some(Instruction::Random { .. }) => random_byte(),
            _ => 0,
        };
        let now = Instant::now();
        let elapsed_nanos = nanos_between(&now, &self.last_time);
        self.cycle_at(elapsed_nanos, now, random)
    }

    /// Marks key `key` as held.
    pub fn key_down(&mut self, key: u8)
        requires
            key < 16,
        ensures
            final(self)@ == (State { keyboard: final(self).keyboard, ..old(self)@ }),
            final(self).keyboard == old(self).keyboard | (1u16 << key),
            forall|k: int|
                #[trigger] key_held(final(self).keyboard, k) == (k == key || key_held(old(self).keyboard, k)),
    {
        let mask: u16 = 1u16 << (key as u16);
        let before: u16 = self.keyboard;
        self.keyboard = before | mask;
        proof {
            lemma_set_bit(before, key as u16);
        }
    }

    /// Marks key `key` as released.
    pub fn key_up(&mut self, key: u8)
        requires
            key < 16,
        ensures
            final(self)@ == (State { keyboard: final(self).keyboard, ..old(self)@ }),
            final(self).keyboard == old(self).keyboard & !(1u16 << key),
            forall|k: int|
                #[trigger] key_held(final(self).keyboard, k) == (k != key && key_held(old(self).keyboard, k)),
    {
        let mask: u16 = 1u16 << (key as u16);
        let before: u16 = self.keyboard;
        self.keyboard = before & !mask;
        proof {
            lemma_clear_bit(before, key as u16);
        }
    }

    /// Reports that key `key_val` was pressed. A pending key wait ends: its
    /// register receives the key and the engine runs again. A running
    /// machine is left as it is.
    pub fn key_pressed(&mut self, key_val: u8)
        requires
            old(self).wf(),
            key_val < 16,
        ensures
            final(self).wf(),
            final(self)@ == deliver_key(old(self)@, key_val),
    {
        if let RunState::AwaitingKey { register } = self.run_state {
            self.registers[register as usize] = key_val;
            self.run_state = RunState::Running;
        }
    }

    /// Whether the machine is suspended on a key press.
    pub fn is_waiting(&self) -> (waiting: bool)
        ensures
            waiting == (self.run_state is AwaitingKey),
    {
        match self.run_state {
            RunState::AwaitingKey { .. } => true,
            RunState::Running => false,
        }
    }

    /// Whether the sound is to be heard: it is for as long as the sound
    /// timer is not zero.
    pub fn sound_active(&self) -> (active: bool)
        ensures
            active == (self.sound_timer > 0),
    {
        self.sound_timer > 0
    }
}

/// Setting bit `key` of `mask` makes key `key` held and leaves the others.
proof fn lemma_set_bit(mask: u16, key: u16)
    requires
        key < 16,
    ensures
        forall|k: int|
            #[trigger] key_held(mask | (1u16 << key), k) == (k == key || key_held(mask, k)),
{
    assert forall|k: int|
            #[trigger] key_held(mask | (1u16 << key), k) == (k == key || key_held(mask, k)) by {
        if 0 <= k < 16 {
            let j = k as u16;
            assert(((mask | (1u16 << key)) >> j) & 1 == 1 <==> (j == key || (mask >> j) & 1 == 1))
                by (bit_vector)
                requires
                    key < 16,
                    j < 16,
            ;
        }
    }
}

/// Clearing bit `key` of `mask` makes key `key` released and leaves the others.
proof fn lemma_clear_bit(mask: u16, key: u16)
    requires
        key < 16,
    ensures
        forall|k: int|
            #[trigger] key_held(mask & !(1u16 << key), k) == (k != key && key_held(mask, k)),
{
    assert forall|k: int|
            #[trigger] key_held(mask & !(1u16 << key), k) == (k != key && key_held(mask, k)) by {
        if 0 <= k < 16 {
            let j = k as u16;
            assert(((mask & !(1u16 << key)) >> j) & 1 == 1 <==> (j != key && (mask >> j) & 1 == 1))
                by (bit_vector)
                requires
                    key < 16,
                    j < 16,
            ;
        }
    }
}

} // verus!
