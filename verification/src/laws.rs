//! What holds of the machine whatever its state: statements that relate
//! several instructions, proved from the model.

use vstd::prelude::*;
use std::time::Instant;
use crate::font::glyph;
use crate::instruction::Instruction;
use crate::model::{
    apply, cycle, cycle_fault, decayed, decimal_digits, deliver_key, fault_of, fetched, key_held, step, tick,
    timers_due, with_font,
    Fault, RunState, State,
};

verus! {

/// Adding register `y` to register `x`: the flag register becomes 1 if the
/// sum exceeds 255 and 0 if not, and register `x`, unless it is the flag
/// register itself, becomes the sum modulo 256.
pub proof fn lemma_add_sets_carry(s: State, x: u8, y: u8, random: u8)
    requires
        s.wf(),
        x < 16,
        y < 16,
    ensures
        ({
            let a = s.registers[x as int];
            let b = s.registers[y as int];
            let t = apply(s, Instruction::Add { x, y }, random);
            &&& t.registers[15] == 1 <==> a + b > 255
            &&& t.registers[15] == 0 <==> a + b <= 255
            &&& x != 15 ==> t.registers[x as int] == (a + b) % 256
        }),
{
}

/// Subtracting register `y` from register `x`: the flag register becomes 1
/// if register `x` was greater than register `y` and 0 if not, and register
/// `x`, unless it is the flag register itself, becomes the difference
/// modulo 256.
pub proof fn lemma_subtract_sets_no_borrow(s: State, x: u8, y: u8, random: u8)
    requires
        s.wf(),
        x < 16,
        y < 16,
    ensures
        ({
            let a = s.registers[x as int];
            let b = s.registers[y as int];
            let t = apply(s, Instruction::Subtract { x, y }, random);
            &&& t.registers[15] == 1 <==> a > b
            &&& t.registers[15] == 0 <==> a <= b
            &&& x != 15 ==> t.registers[x as int] == (a - b) % 256
        }),
{
}

/// With the font loaded and a digit `n` in register `x`, asking for the
/// font address sets the address register to `5 * n`, and the five bytes of
/// memory from there on are the glyph of `n`.
pub proof fn lemma_font_address_finds_glyph(s: State, x: u8, random: u8)
    requires
        s.wf(),
        x < 16,
        s.registers[x as int] <= 15,
    ensures
        ({
            let n = s.registers[x as int] as int;
            let t = apply(with_font(s), Instruction::FontAddress { x }, random);
            &&& t.address_register == 5 * n
            &&& t.memory.subrange(5 * n, 5 * n + 5) == glyph(n)
        }),
{
    let n = s.registers[x as int] as int;
    let t = apply(with_font(s), Instruction::FontAddress { x }, random);
    assert forall|j: int| 0 <= j < 5 implies t.memory[5 * n + j] == glyph(n)[j] by {
        assert((5 * n + j) / 5 == n && (5 * n + j) % 5 == j);
    }
    assert(t.memory.subrange(5 * n, 5 * n + 5) =~= glyph(n));
}

/// After the screen was cleared every pixel of the display is off and the
/// draw flag is set.
pub proof fn lemma_clear_screen_blanks_display(s: State, random: u8)
    ensures
        ({
            let t = apply(s, Instruction::ClearScreen, random);
            &&& t.display.len() == 2048
            &&& forall|p: int| 0 <= p < 2048 ==> !#[trigger] t.display[p]
            &&& t.draw_flag
        }),
{
}

/// Drawing the same sprite twice at the same place restores the display,
/// provided neither coordinate comes from the flag register, which the
/// first drawing overwrites.
pub proof fn lemma_draw_twice_restores_display(s: State, x: u8, y: u8, rows: u8, random: u8)
    requires
        s.wf(),
        x < 15,
        y < 15,
    ensures
        ({
            let ins = Instruction::Draw { x, y, rows };
            apply(apply(s, ins, random), ins, random).display == s.display
        }),
{
    let ins = Instruction::Draw { x, y, rows };
    assert(apply(apply(s, ins, random), ins, random).display =~= s.display);
}

/// The three digits that are stored for a register spell its value in
/// decimal.
pub proof fn lemma_decimal_digits_spell_value(value: u8)
    ensures
        decimal_digits(value).len() == 3,
        forall|i: int| 0 <= i < 3 ==> decimal_digits(value)[i] <= 9,
        decimal_digits(value)[0] * 100 + decimal_digits(value)[1] * 10 + decimal_digits(value)[2]
            == value,
{
}

/// Registers stored to memory and loaded back are what they were.
pub proof fn lemma_store_then_load_registers(s: State, x: u8, random: u8)
    requires
        s.wf(),
        x < 16,
        s.address_register + x + 1 <= 4096,
    ensures
        ({
            let stored = apply(s, Instruction::StoreRegisters { x }, random);
            let loaded = apply(stored, Instruction::LoadRegisters { x }, random);
            &&& fault_of(s, Instruction::StoreRegisters { x }) is None
            &&& fault_of(stored, Instruction::LoadRegisters { x }) is None
            &&& loaded.registers == s.registers
        }),
{
    let stored = apply(s, Instruction::StoreRegisters { x }, random);
    let loaded = apply(stored, Instruction::LoadRegisters { x }, random);
    assert(loaded.registers =~= s.registers);
}

/// A call made with room on the stack, followed by a return, restores the
/// program counter and the stack depth that preceded the call; neither of
/// the two faults.
pub proof fn lemma_call_then_return(s: State, addr: u16, random: u8)
    requires
        s.wf(),
        s.stack_counter < 24,
    ensures
        ({
            let called = apply(s, Instruction::Call { addr }, random);
            let returned = apply(called, Instruction::Return, random);
            &&& fault_of(s, Instruction::Call { addr }) is None
            &&& called.program_counter == addr
            &&& called.stack_counter == s.stack_counter + 1
            &&& fault_of(called, Instruction::Return) is None
            &&& returned.program_counter == s.program_counter
            &&& returned.stack_counter == s.stack_counter
        }),
{
}

/// A call made with the stack full is a stack overflow, and a return made
/// with the stack empty is a stack underflow.
pub proof fn lemma_stack_limits(s: State, addr: u16)
    requires
        s.wf(),
    ensures
        s.stack_counter == 24 ==> fault_of(s, Instruction::Call { addr }) == Some(
            Fault::StackOverflow,
        ),
        s.stack_counter == 0 ==> fault_of(s, Instruction::Return) == Some(Fault::StackUnderflow),
{
}

/// Waiting for a key suspends the engine with register `x` as the target
/// and leaves the program counter where it is; while the engine waits, a
/// cycle changes nothing; the key press then puts the key into register
/// `x` and sets the engine running, the program counter still unmoved.
pub proof fn lemma_key_wait(
    s: State,
    x: u8,
    key: u8,
    elapsed_nanos: int,
    now: Instant,
    random: u8,
)
    requires
        s.wf(),
        x < 16,
    ensures
        ({
            let waiting = apply(s, Instruction::WaitKey { x }, random);
            let resumed = deliver_key(waiting, key);
            &&& waiting.run_state == RunState::AwaitingKey { register: x }
            &&& waiting.program_counter == s.program_counter
            &&& cycle_fault(waiting) is None
            &&& cycle(waiting, elapsed_nanos, now, random) == waiting
            &&& resumed.registers[x as int] == key
            &&& resumed.run_state == RunState::Running
            &&& resumed.program_counter == s.program_counter
        }),
{
}

/// In one execution step, once a sixtieth of a second has passed since the
/// timers last ticked, each timer goes down by one unless it is zero; before
/// that, it stays. The one exception is the timer that the instruction
/// itself sets.
pub proof fn lemma_timers_decay(
    s: State,
    ins: Instruction,
    elapsed_nanos: int,
    now: Instant,
    random: u8,
)
    ensures
        ({
            let t = step(s, ins, elapsed_nanos, now, random);
            &&& !(ins is SetDelay) ==> t.delay_timer == if timers_due(elapsed_nanos) {
                decayed(s.delay_timer)
            } else {
                s.delay_timer
            }
            &&& !(ins is SetSound) ==> t.sound_timer == if timers_due(elapsed_nanos) {
                decayed(s.sound_timer)
            } else {
                s.sound_timer
            }
        }),
{
}

/// A cycle of a running machine moves the program counter past the
/// instruction fetched: by 2, or by 4 where the instruction is a skip whose
/// condition holds. Only jumps, calls and returns set it otherwise.
pub proof fn lemma_cycle_advances(s: State, elapsed_nanos: int, now: Instant, random: u8)
    requires
        s.wf(),
        s.run_state is Running,
        s.program_counter + 2 <= 4096,
    ensures
        ({
            let ins = fetched(s);
            let t = cycle(s, elapsed_nanos, now, random);
            let v = s.registers;
            match ins {
                Instruction::Jump { .. }
                | Instruction::JumpOffset { .. }
                | Instruction::Call { .. }
                | Instruction::Return => true,
                Instruction::SkipIfEqual { x, value } => t.program_counter == s.program_counter
                    + if v[x as int] == value { 4int } else { 2int },
                Instruction::SkipIfNotEqual { x, value } => t.program_counter == s.program_counter
                    + if v[x as int] != value { 4int } else { 2int },
                Instruction::SkipIfRegistersEqual { x, y } => t.program_counter
                    == s.program_counter + if v[x as int] == v[y as int] { 4int } else { 2int },
                Instruction::SkipIfRegistersDiffer { x, y } => t.program_counter
                    == s.program_counter + if v[x as int] != v[y as int] { 4int } else { 2int },
                Instruction::SkipIfKeyDown { x } => t.program_counter == s.program_counter
                    + if key_held(s.keyboard, v[x as int] as int) { 4int } else { 2int },
                Instruction::SkipIfKeyUp { x } => t.program_counter == s.program_counter
                    + if !key_held(s.keyboard, v[x as int] as int) { 4int } else { 2int },
                _ => t.program_counter == s.program_counter + 2,
            }
        }),
{
}

/// What one execution step is given: the instruction, the nanoseconds
/// since the timers last ticked, the instant of the reading, and the random
/// byte.
pub struct StepInput {
    pub ins: Instruction,
    pub elapsed_nanos: int,
    pub now: Instant,
    pub random: u8,
}

/// The state after one execution step for each of `inputs`, in order.
pub open spec fn after_steps(s: State, inputs: Seq<StepInput>) -> State
    decreases inputs.len(),
{
    if inputs.len() == 0 {
        s
    } else {
        let last = inputs.last();
        step(
            after_steps(s, inputs.drop_last()),
            last.ins,
            last.elapsed_nanos,
            last.now,
            last.random,
        )
    }
}

/// However many instructions are executed, as long as each of them finds
/// less than a sixtieth of a second elapsed, a timer that none of them sets
/// keeps its value.
pub proof fn lemma_timers_hold_between_ticks(s: State, inputs: Seq<StepInput>)
    requires
        forall|k: int| 0 <= k < inputs.len() ==> !timers_due(#[trigger] inputs[k].elapsed_nanos),
    ensures
        (forall|k: int| 0 <= k < inputs.len() ==> !(#[trigger] inputs[k].ins is SetDelay))
            ==> after_steps(s, inputs).delay_timer == s.delay_timer,
        (forall|k: int| 0 <= k < inputs.len() ==> !(#[trigger] inputs[k].ins is SetSound))
            ==> after_steps(s, inputs).sound_timer == s.sound_timer,
    decreases inputs.len(),
{
    if inputs.len() > 0 {
        let front = inputs.drop_last();
        lemma_timers_hold_between_ticks(s, front);
        let last = inputs.last();
        lemma_timers_decay(
            after_steps(s, front),
            last.ins,
            last.elapsed_nanos,
            last.now,
            last.random,
        );
        if forall|k: int| 0 <= k < inputs.len() ==> !(#[trigger] inputs[k].ins is SetDelay) {
            assert(!(inputs[inputs.len() - 1].ins is SetDelay));
            assert forall|k: int| 0 <= k < front.len() implies !(#[trigger] front[k].ins
                is SetDelay) by {
                assert(front[k] == inputs[k]);
            }
        }
        if forall|k: int| 0 <= k < inputs.len() ==> !(#[trigger] inputs[k].ins is SetSound) {
            assert(!(inputs[inputs.len() - 1].ins is SetSound));
            assert forall|k: int| 0 <= k < front.len() implies !(#[trigger] front[k].ins
                is SetSound) by {
                assert(front[k] == inputs[k]);
            }
        }
    }
}

/// Servicing the timers leaves a well-formed state well-formed and decides
/// no fault.
pub proof fn lemma_tick_preserves_wf(s: State, ins: Instruction, elapsed_nanos: int, now: Instant)
    requires
        s.wf(),
    ensures
        tick(s, elapsed_nanos, now).wf(),
        fault_of(tick(s, elapsed_nanos, now), ins) == fault_of(s, ins),
{
}

/// The state after the calls to the addresses `addrs` were made one after
/// the other, each from inside the one before.
pub open spec fn after_calls(s: State, addrs: Seq<u16>) -> State
    decreases addrs.len(),
{
    if addrs.len() == 0 {
        s
    } else {
        apply(after_calls(s, addrs.drop_last()), Instruction::Call { addr: addrs.last() }, 0)
    }
}

/// The state after `n` returns in a row.
pub open spec fn after_returns(s: State, n: nat) -> State
    decreases n,
{
    if n == 0 {
        s
    } else {
        after_returns(apply(s, Instruction::Return, 0), (n - 1) as nat)
    }
}

/// Whether `n` returns in a row, starting in `s`, all pass without a fault.
pub open spec fn returns_pass(s: State, n: nat) -> bool
    decreases n,
{
    n == 0 || (fault_of(s, Instruction::Return) is None && returns_pass(
        apply(s, Instruction::Return, 0),
        (n - 1) as nat,
    ))
}

/// Calls nested as deep as the stack has room all pass, and leave the stack
/// below them as it was.
pub proof fn lemma_nested_calls_pass(s: State, addrs: Seq<u16>)
    requires
        s.wf(),
        s.stack_counter + addrs.len() <= 24,
    ensures
        after_calls(s, addrs).wf(),
        after_calls(s, addrs).stack_counter == s.stack_counter + addrs.len(),
        forall|i: int|
            0 <= i < s.stack_counter ==> after_calls(s, addrs).stack[i] == s.stack[i],
        addrs.len() > 0 ==> after_calls(s, addrs).stack[s.stack_counter as int]
            == s.program_counter,
        forall|k: int|
            0 <= k < addrs.len() ==> fault_of(
                #[trigger] after_calls(s, addrs.take(k)),
                Instruction::Call { addr: addrs[k] },
            ) is None,
    decreases addrs.len(),
{
    if addrs.len() > 0 {
        let front = addrs.drop_last();
        lemma_nested_calls_pass(s, front);
        assert forall|k: int| 0 <= k < addrs.len() implies fault_of(
            #[trigger] after_calls(s, addrs.take(k)),
            Instruction::Call { addr: addrs[k] },
        ) is None by {
            if k < front.len() {
                assert(addrs.take(k) =~= front.take(k));
            } else {
                assert(addrs.take(k) =~= front);
            }
        }
    }
}

/// Calls nested to any depth that the stack has room for, followed by as
/// many returns, all pass, and restore the program counter and the stack
/// depth that preceded the first call.
pub proof fn lemma_nested_calls_then_returns(s: State, addrs: Seq<u16>)
    requires
        s.wf(),
        s.stack_counter + addrs.len() <= 24,
    ensures
        returns_pass(after_calls(s, addrs), addrs.len()),
        after_returns(after_calls(s, addrs), addrs.len()).program_counter == s.program_counter,
        after_returns(after_calls(s, addrs), addrs.len()).stack_counter == s.stack_counter,
        forall|i: int|
            0 <= i < s.stack_counter ==> after_returns(after_calls(s, addrs), addrs.len()).stack[i]
                == s.stack[i],
    decreases addrs.len(),
{
    if addrs.len() > 0 {
        let front = addrs.drop_last();
        let inner = after_calls(s, front);
        let top = after_calls(s, addrs);
        lemma_nested_calls_pass(s, front);
        lemma_nested_calls_then_returns(s, front);
        let back = apply(top, Instruction::Return, 0);
        // The innermost return undoes the innermost call but for the slot it clears.
        lemma_returns_read_live_stack(inner, back, front.len());
    }
}

/// Returns read the stack below the stack depth and nothing else: two
/// well-formed states that agree on the program counter, on the stack depth
/// and on the stack below it still do so after `n` returns, if the stack is
/// that deep; and all of those returns pass.
proof fn lemma_returns_read_live_stack(a: State, b: State, n: nat)
    requires
        a.wf(),
        b.wf(),
        n <= a.stack_counter,
        a.stack_counter == b.stack_counter,
        a.program_counter == b.program_counter,
        forall|i: int| 0 <= i < a.stack_counter ==> a.stack[i] == b.stack[i],
    ensures
        returns_pass(a, n),
        returns_pass(b, n),
        after_returns(a, n).program_counter == after_returns(b, n).program_counter,
        after_returns(a, n).stack_counter == after_returns(b, n).stack_counter,
        after_returns(a, n).stack_counter == a.stack_counter - n,
        forall|i: int|
            0 <= i < a.stack_counter - n ==> after_returns(a, n).stack[i] == after_returns(
                b,
                n,
            ).stack[i],
    decreases n,
{
    if n > 0 {
        let a1 = apply(a, Instruction::Return, 0);
        let b1 = apply(b, Instruction::Return, 0);
        lemma_returns_read_live_stack(a1, b1, (n - 1) as nat);
    }
}

} // verus!
