//! Laws that relate several operations of the processor.
use vstd::prelude::*;
use crate::semantics::{
    CpuState,
    EmuError,
    high_byte,
    instruction_length,
    low_byte,
    transfers_control,
    wrap16,
};

verus! {

/// Setting a register pair and reading it back gives the value set; the
/// high register holds its high byte and the low register its low byte.
pub proof fn lemma_pair_round_trip(s: CpuState, v: u16)
    ensures
        s.with_bc(v).bc() == v,
        s.with_bc(v).b == high_byte(v) && s.with_bc(v).c == low_byte(v),
        s.with_de(v).de() == v,
        s.with_de(v).d == high_byte(v) && s.with_de(v).e == low_byte(v),
        s.with_hl(v).hl() == v,
        s.with_hl(v).h == high_byte(v) && s.with_hl(v).l == low_byte(v),
{
}

/// A push followed by a pop gives back the value pushed, with the stack
/// pointer where it was.
pub proof fn lemma_push_pop(s: CpuState, v: u16)
    requires
        s.push(v) is Ok,
    ensures
        match s.push(v) {
            Ok(t) => t.pop() == Ok::<(CpuState, u16), EmuError>((CpuState { sp: s.sp, ..t }, v)),
            Err(_) => false,
        },
{
    let sp = wrap16(s.sp - 2);
    let next = wrap16(sp + 1);
    let t = s.push(v)->Ok_0;
    assert(t.memory[sp as int] == low_byte(v));
    assert(t.memory[next as int] == high_byte(v));
    assert(wrap16(t.sp + 2) == s.sp);
}

/// A call followed by a return continues after the three-byte call, with
/// the stack pointer where it was.
pub proof fn lemma_call_ret(s: CpuState, target: u16)
    requires
        s.call(target, wrap16(s.pc + 3)) is Ok,
    ensures
        match s.call(target, wrap16(s.pc + 3)) {
            Ok(t) => t.pc == target && match t.ret() {
                Ok(u) => u.pc == wrap16(s.pc + 3) && u.sp == s.sp,
                Err(_) => false,
            },
            Err(_) => false,
        },
{
    lemma_push_pop(s, wrap16(s.pc + 3));
}

/// A conditional jump or call whose condition fails moves past its three
/// bytes: 10 cycles for a jump, 11 for a call. A conditional call that is
/// taken costs 17.
#[verifier::spinoff_prover]
#[verifier::rlimit(50)]
pub proof fn lemma_conditional_branch(s: CpuState, op: u8, input: u8)
    requires
        op >= 0xC0,
        op % 8 == 2 || op % 8 == 4,
        s.read_byte(s.pc) == Ok::<u8, EmuError>(op),
    ensures
        !s.condition((op / 8) % 8) ==> s.step(input) == Ok::<(CpuState, u64), EmuError>(
            (
                s.advance(3),
                if op % 8 == 2 {
                    10
                } else {
                    11
                },
            ),
        ),
        op % 8 == 4 && s.condition((op / 8) % 8) ==> match s.step(input) {
            Ok((_, cycles)) => cycles == 17,
            Err(_) => true,
        },
{
    reveal(CpuState::jump_step);
    reveal(CpuState::call_step);
}

/// With interrupts on, interrupt 1 pushes the program counter, continues
/// at address 8 and turns interrupts off; a further interrupt of any
/// number then changes nothing.
#[verifier::spinoff_prover]
#[verifier::rlimit(50)]
pub proof fn lemma_interrupt(s: CpuState)
    requires
        s.interrupts_enabled,
        s.push(s.pc) is Ok,
    ensures
        match s.interrupt(1) {
            Ok(t) => {
                &&& t.pc == 8
                &&& !t.interrupts_enabled
                &&& t.sp == wrap16(s.sp - 2)
                &&& t.read_word(t.sp) == Ok::<u16, EmuError>(s.pc)
                &&& forall|n: u16| #[trigger] t.interrupt(n) == Ok::<CpuState, EmuError>(t)
            },
            Err(_) => false,
        },
{
    lemma_push_pop(s, s.pc);
}

/// Every instruction that succeeds takes between 4 and 18 clock cycles and
/// leaves the size of memory as it was.
#[verifier::spinoff_prover]
#[verifier::rlimit(50)]
pub proof fn lemma_step_bounds(s: CpuState, input: u8)
    ensures
        match s.step(input) {
            Ok((t, cycles)) => 4 <= cycles <= 18 && t.memory.len() == s.memory.len(),
            Err(_) => true,
        },
{
    reveal(CpuState::pair_step);
    reveal(CpuState::load_store_step);
    reveal(CpuState::increment_step);
    reveal(CpuState::return_step);
    reveal(CpuState::jump_step);
    reveal(CpuState::call_step);
}

/// An instruction that does not transfer control leaves the program
/// counter on the instruction after it.
#[verifier::spinoff_prover]
#[verifier::rlimit(50)]
pub proof fn lemma_advances_by_length(s: CpuState, input: u8)
    ensures
        match (s.read_byte(s.pc), s.step(input)) {
            (Ok(op), Ok((t, _))) => !transfers_control(s, op) ==> t.pc == wrap16(
                s.pc + instruction_length(op),
            ),
            _ => true,
        },
{
    reveal(CpuState::pair_step);
    reveal(CpuState::load_store_step);
    reveal(CpuState::increment_step);
    reveal(CpuState::return_step);
    reveal(CpuState::jump_step);
    reveal(CpuState::call_step);
}

/// Opcodes that the processor treats alike have one effect: the NOPs,
/// the two JMPs, the two RETs and the four CALLs.
#[verifier::spinoff_prover]
#[verifier::rlimit(50)]
pub proof fn lemma_aliases_execute_alike(s: CpuState, a: u8, b: u8, input: u8)
    requires
        (a < 0x40 && a % 8 == 0 && b < 0x40 && b % 8 == 0) || ((a == 0xC3 || a == 0xCB) && (b
            == 0xC3 || b == 0xCB)) || ((a == 0xC9 || a == 0xD9) && (b == 0xC9 || b == 0xD9)) || ((a
            == 0xCD || a == 0xDD || a == 0xED || a == 0xFD) && (b == 0xCD || b == 0xDD || b == 0xED
            || b == 0xFD)),
    ensures
        s.execute(a, input) == s.execute(b, input),
{
    reveal(CpuState::return_step);
    reveal(CpuState::jump_step);
    reveal(CpuState::call_step);
}

/// RST n pushes the address after it and continues at 8 * n, in 11 cycles.
#[verifier::spinoff_prover]
#[verifier::rlimit(50)]
pub proof fn lemma_restart(s: CpuState, n: u8, input: u8)
    requires
        n < 8,
        s.read_byte(s.pc) == Ok::<u8, EmuError>((0xC7 + 8 * n) as u8),
        s.push(wrap16(s.pc + 1)) is Ok,
    ensures
        match s.step(input) {
            Ok((t, cycles)) => {
                &&& cycles == 11
                &&& t.pc == 8 * n
                &&& t.sp == wrap16(s.sp - 2)
                &&& t.read_word(t.sp) == Ok::<u16, EmuError>(wrap16(s.pc + 1))
            },
            Err(_) => false,
        },
{
    reveal(CpuState::call_step);
    lemma_push_pop(s, wrap16(s.pc + 1));
}

} // verus!
