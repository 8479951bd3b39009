//! What holds of every machine: laws of the instruction cycle, proved from
//! `CpuState::step`.
use crate::cpu::instruction::{
    classify, lemma_operands_by_digits, lemma_operands_in_range, operands_of, Opcode,
};
use crate::cpu::state::{decimal_digits, CpuError, CpuState, WaitLatch, FLAG, MEMORY_SIZE};
use crate::keypad::KEYS;
use vstd::prelude::*;

verus! {

/// A state whose next instruction is `word`, of kind `opcode`.
pub open spec fn at_instruction(s: CpuState, word: u16, opcode: Opcode) -> bool {
    &&& s.well_formed()
    &&& s.fetch() == Some(word)
    &&& classify(word) == opcode
}

/// A step keeps the sizes of memory, registers, display and pad.
pub proof fn lemma_step_well_formed(s: CpuState, random: u8)
    requires
        s.well_formed(),
    ensures
        s.step(random).state.well_formed(),
{
    if let Some(word) = s.fetch() {
        lemma_operands_in_range(word);
        reveal(CpuState::apply);
    }
}

/// A step that fails changes nothing but the program counter, and that
/// only when the instruction was fetched.
pub proof fn lemma_failed_step(s: CpuState, random: u8)
    requires
        s.well_formed(),
        s.step(random).result is Err,
    ensures
        s.step(random).state == s || s.step(random).state == s.moved(2),
        s.fetch() is None <==> s.step(random).state == s,
        s.fetch() is None ==> s.step(random).result == Err::<(), CpuError>(CpuError::OutOfBounds),
{
    if let Some(word) = s.fetch() {
        lemma_operands_in_range(word);
        reveal(CpuState::apply);
    }
}

/// Only a random instruction depends on the random byte.
pub proof fn lemma_random_matters_for_rnd_only(s: CpuState, r1: u8, r2: u8)
    requires
        !s.draws_random(),
    ensures
        s.step(r1) == s.step(r2),
{
    reveal(CpuState::apply);
}

/// Add: register x receives the sum modulo 256, and the flag register is 1
/// if the sum is above 255 and 0 otherwise. Where x is the flag register
/// itself the sum is what it holds.
pub proof fn law_add(s: CpuState, word: u16, random: u8)
    requires
        at_instruction(s, word, Opcode::Add),
    ensures
        ({
            let x = operands_of(word).reg_x as int;
            let y = operands_of(word).reg_y as int;
            let after = s.step(random);
            let sum = s.gpr[x] + s.gpr[y];
            &&& after.result is Ok
            &&& after.state.gpr[x] == sum % 256
            &&& x != FLAG ==> after.state.gpr[FLAG as int] == (if sum > 255 {
                1int
            } else {
                0int
            })
            &&& forall|r: int|
                0 <= r < 16 && r != x && r != FLAG ==> after.state.gpr[r] == s.gpr[r]
            &&& after.state.pc == s.pc + 2
        }),
{
    lemma_operands_in_range(word);
    reveal(CpuState::apply);
}

/// Sub: register x receives `Vx - Vy` modulo 256, and the flag register is
/// 0 if `Vy > Vx` (a borrow) and 1 otherwise.
pub proof fn law_sub(s: CpuState, word: u16, random: u8)
    requires
        at_instruction(s, word, Opcode::Sub),
    ensures
        ({
            let x = operands_of(word).reg_x as int;
            let y = operands_of(word).reg_y as int;
            let after = s.step(random);
            &&& after.result is Ok
            &&& after.state.gpr[x] == (s.gpr[x] - s.gpr[y]) % 256
            &&& x != FLAG ==> after.state.gpr[FLAG as int] == (if s.gpr[y] > s.gpr[x] {
                0int
            } else {
                1int
            })
            &&& forall|r: int|
                0 <= r < 16 && r != x && r != FLAG ==> after.state.gpr[r] == s.gpr[r]
            &&& after.state.pc == s.pc + 2
        }),
{
    lemma_operands_in_range(word);
    reveal(CpuState::apply);
}

/// Subn: register x receives `Vy - Vx` modulo 256, and the flag register
/// is 0 if `Vy > Vx` and 1 otherwise, by the same rule as Sub.
pub proof fn law_subn(s: CpuState, word: u16, random: u8)
    requires
        at_instruction(s, word, Opcode::Subn),
    ensures
        ({
            let x = operands_of(word).reg_x as int;
            let y = operands_of(word).reg_y as int;
            let after = s.step(random);
            &&& after.result is Ok
            &&& after.state.gpr[x] == (s.gpr[y] - s.gpr[x]) % 256
            &&& x != FLAG ==> after.state.gpr[FLAG as int] == (if s.gpr[y] > s.gpr[x] {
                0int
            } else {
                1int
            })
            &&& forall|r: int|
                0 <= r < 16 && r != x && r != FLAG ==> after.state.gpr[r] == s.gpr[r]
            &&& after.state.pc == s.pc + 2
        }),
{
    lemma_operands_in_range(word);
    reveal(CpuState::apply);
}

/// Shr: register x is halved, and the flag register receives the bit that
/// was shifted out, the lowest.
pub proof fn law_shr(s: CpuState, word: u16, random: u8)
    requires
        at_instruction(s, word, Opcode::Shr),
    ensures
        ({
            let x = operands_of(word).reg_x as int;
            let after = s.step(random);
            &&& after.result is Ok
            &&& after.state.gpr[x] == s.gpr[x] / 2
            &&& after.state.gpr[x] == s.gpr[x] >> 1u8
            &&& x != FLAG ==> after.state.gpr[FLAG as int] == s.gpr[x] % 2
            &&& x != FLAG ==> after.state.gpr[FLAG as int] == s.gpr[x] & 1
            &&& forall|r: int|
                0 <= r < 16 && r != x && r != FLAG ==> after.state.gpr[r] == s.gpr[r]
        }),
{
    lemma_operands_in_range(word);
    reveal(CpuState::apply);
    let vx = s.gpr[operands_of(word).reg_x as int];
    assert(vx >> 1u8 == vx / 2 && vx & 1 == vx % 2) by (bit_vector);
}

/// Shl: register x is doubled modulo 256, and the flag register receives
/// the bit that was shifted out, the highest.
pub proof fn law_shl(s: CpuState, word: u16, random: u8)
    requires
        at_instruction(s, word, Opcode::Shl),
    ensures
        ({
            let x = operands_of(word).reg_x as int;
            let after = s.step(random);
            &&& after.result is Ok
            &&& after.state.gpr[x] == (s.gpr[x] * 2) % 256
            &&& after.state.gpr[x] == s.gpr[x] << 1u8
            &&& x != FLAG ==> after.state.gpr[FLAG as int] == s.gpr[x] / 128
            &&& x != FLAG ==> after.state.gpr[FLAG as int] == (s.gpr[x] >> 7u8)
            &&& forall|r: int|
                0 <= r < 16 && r != x && r != FLAG ==> after.state.gpr[r] == s.gpr[r]
        }),
{
    lemma_operands_in_range(word);
    reveal(CpuState::apply);
    let vx = s.gpr[operands_of(word).reg_x as int];
    assert(vx << 1u8 == (vx * 2) % 256 && vx >> 7u8 == vx / 128) by (bit_vector);
}

/// Adding an immediate wraps around at 256 and touches no other register:
/// the flag register, unless it is register x itself, stays as it was.
pub proof fn law_add_immediate(s: CpuState, word: u16, random: u8)
    requires
        at_instruction(s, word, Opcode::Addi),
    ensures
        ({
            let x = operands_of(word).reg_x as int;
            let after = s.step(random);
            &&& after.result is Ok
            &&& after.state.gpr[x] == (s.gpr[x] + operands_of(word).imm) % 256
            &&& forall|r: int| 0 <= r < 16 && r != x ==> after.state.gpr[r] == s.gpr[r]
        }),
{
    lemma_operands_in_range(word);
    reveal(CpuState::apply);
}

/// Adding a register to the index register wraps around at 16 bits. It
/// never fails and changes no register, the flag register included.
pub proof fn law_add_to_index(s: CpuState, word: u16, random: u8)
    requires
        at_instruction(s, word, Opcode::Addir),
    ensures
        ({
            let x = operands_of(word).reg_x as int;
            let after = s.step(random);
            &&& after.result is Ok
            &&& after.state.i == (s.i + s.gpr[x]) % 0x1_0000
            &&& after.state.gpr == s.gpr
        }),
{
    lemma_operands_in_range(word);
    reveal(CpuState::apply);
}

/// Storing registers V0 to Vx copies just these to memory from the index
/// register on and changes nothing else; loading them copies the same
/// stretch of memory back. Either fails, changing nothing, exactly when the
/// stretch reaches beyond the end of memory.
pub proof fn law_register_block(s: CpuState, word: u16, random: u8)
    requires
        at_instruction(s, word, Opcode::Stri) || at_instruction(s, word, Opcode::Fetch),
    ensures
        ({
            let x = operands_of(word).reg_x as int;
            let after = s.step(random);
            &&& s.i + x < MEMORY_SIZE <==> after.result is Ok
            &&& after.result is Err ==> after.result == Err::<(), CpuError>(CpuError::OutOfBounds)
                && after.state == s.moved(2)
            &&& after.state.i == s.i
            &&& after.result is Ok && classify(word) == Opcode::Stri ==> {
                &&& after.state.gpr == s.gpr
                &&& forall|k: int| 0 <= k <= x ==> after.state.ram[s.i + k] == s.gpr[k]
                &&& forall|a: int|
                    0 <= a < MEMORY_SIZE && !(s.i <= a <= s.i + x) ==> after.state.ram[a]
                        == s.ram[a]
            }
            &&& after.result is Ok && classify(word) == Opcode::Fetch ==> {
                &&& after.state.ram == s.ram
                &&& forall|k: int| 0 <= k <= x ==> after.state.gpr[k] == s.ram[s.i + k]
                &&& forall|r: int| x < r < 16 ==> after.state.gpr[r] == s.gpr[r]
            }
        }),
{
    lemma_operands_in_range(word);
    reveal(CpuState::apply);
}

/// Decimal store: the three bytes from the index register on receive the
/// hundreds, tens and ones of register x, and nothing else in memory
/// changes. It fails, changing no memory, exactly when one of the three
/// bytes lies beyond the end of memory.
pub proof fn law_decimal_store(s: CpuState, word: u16, random: u8)
    requires
        at_instruction(s, word, Opcode::Ibcd),
    ensures
        ({
            let vx = s.gpr[operands_of(word).reg_x as int];
            let after = s.step(random);
            &&& s.i + 2 < MEMORY_SIZE <==> after.result is Ok
            &&& after.result is Err ==> after.result == Err::<(), CpuError>(CpuError::OutOfBounds)
                && after.state.ram == s.ram
            &&& after.result is Ok ==> {
                &&& after.state.ram[s.i as int] == vx / 100
                &&& after.state.ram[s.i + 1] == (vx / 10) % 10
                &&& after.state.ram[s.i + 2] == vx % 10
                &&& after.state.ram[s.i as int] * 100 + after.state.ram[s.i + 1] * 10
                    + after.state.ram[s.i + 2] == vx
                &&& forall|a: int|
                    0 <= a < MEMORY_SIZE && !(s.i <= a <= s.i + 2) ==> after.state.ram[a]
                        == s.ram[a]
            }
        }),
{
    lemma_operands_in_range(word);
    let vx = s.gpr[operands_of(word).reg_x as int];
    lemma_decimal_digits(vx);
    assert(s.step(random) == s.moved(2).store_decimal(vx)) by {
        reveal(CpuState::apply);
    }
}

/// The decimal digits of a byte are digits, and make up the byte.
pub proof fn lemma_decimal_digits(v: u8)
    ensures
        decimal_digits(v).0 <= 2,
        decimal_digits(v).1 <= 9,
        decimal_digits(v).2 <= 9,
        decimal_digits(v).0 * 100 + decimal_digits(v).1 * 10 + decimal_digits(v).2 == v,
{
}

/// The wait-for-key instruction moves the latch as follows. From
/// `NotWaiting` it goes to `WaitingNoKey` and stays on the instruction;
/// from `WaitingNoKey` it changes nothing; from `WaitingKeyReceived` it
/// goes back to `NotWaiting`, with the key in register x and the counter
/// behind the instruction.
pub proof fn law_wait_latch(s: CpuState, word: u16, random: u8)
    requires
        at_instruction(s, word, Opcode::Ldkp),
    ensures
        s.step(random).result is Ok,
        s.wait_latch() == WaitLatch::NotWaiting ==> s.step(random).state.wait_latch()
            == WaitLatch::WaitingNoKey && s.step(random).state.pc == s.pc && s.step(
            random,
        ).state.keypad.wait,
        s.wait_latch() == WaitLatch::WaitingNoKey ==> s.step(random).state == s,
        forall|key: u8|
            s.wait_latch() == WaitLatch::WaitingKeyReceived(key) ==> s.step(
                random,
            ).state.wait_latch() == WaitLatch::NotWaiting && s.step(random).state.pc == s.pc + 2
                && s.step(random).state.gpr[operands_of(word).reg_x as int] == key,
{
    lemma_operands_in_range(word);
    reveal(CpuState::apply);
    if s.wait_latch() == WaitLatch::WaitingNoKey {
        assert(s.step(random).state =~= s);
    }
}

/// Where an instruction can leave the program counter and the stack: the
/// counter stays behind the instruction, skips one instruction more, steps
/// back onto a wait-for-key instruction, or goes where a jump, a call or a
/// return sends it; the stack changes only by a call's push and a return's
/// pop.
pub proof fn law_counter_and_stack(s: CpuState, opcode: Opcode, word: u16, random: u8)
    ensures
        ({
            let ops = operands_of(word);
            let after = s.apply(opcode, ops, word, random).state;
            &&& opcode == Opcode::Jp ==> after.pc == ops.address && after.stack == s.stack
            &&& opcode == Opcode::Call ==> after.pc == ops.address && after.stack == s.stack.push(
                s.pc,
            )
            &&& opcode == Opcode::Ret && s.stack.len() > 0 ==> after.pc == s.stack.last()
                && after.stack == s.stack.drop_last()
            &&& opcode == Opcode::Ret && s.stack.len() == 0 ==> after == s
            &&& opcode == Opcode::Ldkp ==> (after.pc == s.pc || after.pc == (s.pc - 2) as u16)
                && after.stack == s.stack
            &&& opcode != Opcode::Jp && opcode != Opcode::Call && opcode != Opcode::Ret && opcode
                != Opcode::Ldkp ==> (after.pc == s.pc || after.pc == (s.pc + 2) as u16)
                && after.stack == s.stack
        }),
{
    reveal(CpuState::apply);
}

/// The program counter stays even: from an even counter and a stack of
/// even addresses, a step leads to an even counter and a stack of even
/// addresses again, unless it is a jump or a call to an odd address.
pub proof fn law_counter_stays_even(s: CpuState, random: u8)
    requires
        s.well_formed(),
        s.pc % 2 == 0,
        forall|k: int| 0 <= k < s.stack.len() ==> s.stack[k] % 2 == 0,
        s.fetch() matches Some(word) ==> (classify(word) == Opcode::Jp || classify(word)
            == Opcode::Call) ==> word % 2 == 0,
    ensures
        s.step(random).state.pc % 2 == 0,
        forall|k: int|
            0 <= k < s.step(random).state.stack.len() ==> s.step(random).state.stack[k] % 2
                == 0,
{
    if let Some(word) = s.fetch() {
        lemma_operands_by_digits(word);
        law_counter_and_stack(s.moved(2), classify(word), word, random);
    }
}

/// Waiting for a key holds the program counter: while no key goes down,
/// any number of steps at a wait-for-key instruction leave the counter on
/// the instruction. The first step starts the wait and arms the pad's
/// latch; every later one changes nothing at all.
pub proof fn law_wait_holds(s: CpuState, word: u16, randoms: Seq<u8>)
    requires
        at_instruction(s, word, Opcode::Ldkp),
        s.waiting_for_key ==> !s.keypad.new_key,
    ensures
        s.run(randoms).pc == s.pc,
        randoms.len() > 0 ==> s.run(randoms) == (CpuState {
            waiting_for_key: true,
            keypad: if s.waiting_for_key {
                s.keypad
            } else {
                s.keypad.armed()
            },
            ..s
        }),
    decreases randoms.len(),
{
    lemma_operands_in_range(word);
    reveal(CpuState::apply);
    if randoms.len() > 0 {
        let next = s.step(randoms[0]).state;
        assert(next =~= CpuState {
            waiting_for_key: true,
            keypad: if s.waiting_for_key {
                s.keypad
            } else {
                s.keypad.armed()
            },
            ..s
        });
        law_wait_holds(next, word, randoms.drop_first());
        if randoms.drop_first().len() > 0 {
            assert(s.run(randoms) =~= next);
        }
    }
}

/// A key ends the wait: once a key has gone down on the pad of a waiting
/// machine, the next step stores the key in register x, stops waiting and
/// leaves the program counter behind the instruction.
pub proof fn law_key_ends_wait(s: CpuState, word: u16, key: u8, random: u8)
    requires
        at_instruction(s, word, Opcode::Ldkp),
        s.waiting_for_key,
        key < KEYS,
    ensures
        ({
            let pressed = CpuState { keypad: s.keypad.key_down(key), ..s };
            let after = pressed.step(random);
            &&& after.result is Ok
            &&& after.state.gpr[operands_of(word).reg_x as int] == key
            &&& after.state.pc == s.pc + 2
            &&& !after.state.waiting_for_key
        }),
{
    lemma_operands_in_range(word);
    reveal(CpuState::apply);
}

/// The timers never pass zero: after `n` ticks a timer that held `t` holds
/// `t - n`, or zero if that would be negative.
pub proof fn law_timers_floor(s: CpuState, n: nat)
    ensures
        s.ticks(n).delay_timer == (if s.delay_timer >= n {
            s.delay_timer - n
        } else {
            0
        }),
        s.ticks(n).sound_timer == (if s.sound_timer >= n {
            s.sound_timer - n
        } else {
            0
        }),
        s.ticks(n) == (CpuState {
            delay_timer: s.ticks(n).delay_timer,
            sound_timer: s.ticks(n).sound_timer,
            ..s
        }),
    decreases n,
{
    if n > 0 {
        law_timers_floor(s.tick(), (n - 1) as nat);
    }
}

/// A return undoes a call: a call pushes the address of the instruction
/// after it and jumps; a return that finds the stack as the call left it
/// continues at that address and leaves the stack as it was before the
/// call. A call never fails, however deep the stack is already.
pub proof fn law_call_then_return(
    s: CpuState,
    call: u16,
    t: CpuState,
    ret: u16,
    random_s: u8,
    random_t: u8,
)
    requires
        at_instruction(s, call, Opcode::Call),
        at_instruction(t, ret, Opcode::Ret),
        t.stack == s.step(random_s).state.stack,
    ensures
        s.step(random_s).result is Ok,
        s.step(random_s).state.pc == operands_of(call).address,
        s.step(random_s).state.pc == call % 0x1000,
        s.step(random_s).state.stack == s.stack.push((s.pc + 2) as u16),
        t.step(random_t).result is Ok,
        t.step(random_t).state.pc == s.pc + 2,
        t.step(random_t).state.stack == s.stack,
{
    lemma_operands_by_digits(call);
    law_counter_and_stack(s.moved(2), Opcode::Call, call, random_s);
    law_counter_and_stack(t.moved(2), Opcode::Ret, ret, random_t);
    reveal(CpuState::apply);
    assert(s.stack.push((s.pc + 2) as u16).drop_last() =~= s.stack);
}

/// A return with nothing to return to fails, and only then does a return
/// fail.
pub proof fn law_return_underflow(s: CpuState, word: u16, random: u8)
    requires
        at_instruction(s, word, Opcode::Ret),
    ensures
        s.stack.len() == 0 <==> s.step(random).result == Err::<(), CpuError>(
            CpuError::StackUnderflow,
        ),
        s.stack.len() > 0 <==> s.step(random).result is Ok,
{
    lemma_operands_in_range(word);
    reveal(CpuState::apply);
}

/// Words that are no instruction, and the offset jump, stop the machine
/// with an error that carries the word.
pub proof fn law_unhandled(s: CpuState, word: u16, random: u8)
    requires
        s.well_formed(),
        s.fetch() == Some(word),
        classify(word) == Opcode::Invalid || classify(word) == Opcode::B,
    ensures
        s.step(random).result == Err::<(), CpuError>(CpuError::UnhandledOpcode(word)),
        s.step(random).state == s.moved(2),
{
    lemma_operands_in_range(word);
    reveal(CpuState::apply);
}

} // verus!
