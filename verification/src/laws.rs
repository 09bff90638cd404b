//! General properties of the engine, stated and proved once over the
//! semantics that `cycle` is proved to implement.

use vstd::prelude::*;

use crate::semantics::{
    fetch_in_bounds, fetch_word, reg_defined, reg_get, reg_readable, reg_set, reg_writable,
    state_wf, step_spec, Outcome, State, OP_ADD_IMM, OP_ADD_REG, OP_CALL, OP_JMP, OP_LOAD_STK,
    OP_MOVE, OP_RET, OP_STORE_ACC, OP_SUB_IMM, OP_SUB_REG, REG_ACC, REG_BAK, REG_FL0, REG_FL1,
    REG_LST, REG_PCC, REG_STK,
};
use crate::store::{seq_readable, seq_writable};

verus! {

/// The register permission table is total and constant: every defined code
/// has one fixed readability and one fixed writability, independent of any
/// machine state or call order (the table is a function of the code alone),
/// and no undefined code is readable or writable.
pub proof fn lemma_register_permissions_total(code: i32)
    ensures
        reg_readable(REG_PCC) && reg_writable(REG_PCC),
        reg_readable(REG_ACC) && reg_writable(REG_ACC),
        !reg_readable(REG_BAK) && !reg_writable(REG_BAK),
        reg_readable(REG_STK) && reg_writable(REG_STK),
        reg_readable(REG_FL0) && reg_writable(REG_FL0),
        reg_readable(REG_FL1) && reg_writable(REG_FL1),
        reg_readable(REG_LST) && !reg_writable(REG_LST),
        !reg_defined(code) ==> !reg_readable(code) && !reg_writable(code),
        reg_readable(code) || reg_writable(code) ==> reg_defined(code),
{
}

/// Once the machine has finished — normally or by a halt — or has stopped
/// running after a fault, every further step is a no-op returning Success.
pub proof fn lemma_stopped_step_is_no_op(s: State)
    requires
        s.finished || !s.running,
    ensures
        step_spec(s) == (s, Outcome::Success),
{
}

/// A step never changes the program's extent, the region table, or the
/// store's size: whatever the outcome, the machine stays well formed and
/// inspectable.
#[verifier::rlimit(50)]
pub proof fn lemma_step_preserves_wf(s: State)
    requires
        state_wf(s),
    ensures
        state_wf(step_spec(s).0),
        step_spec(s).0.prog_len == s.prog_len,
        step_spec(s).0.regions == s.regions,
        step_spec(s).0.mem.len() == s.mem.len(),
{
}

/// Writing a register through its code and reading the same code back gives
/// the written value.
pub proof fn lemma_reg_set_get(s: State, code: i32, v: i32)
    requires
        reg_defined(code),
    ensures
        reg_get(reg_set(s, code, v), code) == v,
        reg_set(s, code, v).lst == v,
{
}

/// A move whose source and destination are the same register leaves that
/// register's value unchanged — except for the program counter, whose value
/// was already advanced past the instruction's three words by the fetches,
/// and which the move then faithfully copies onto itself.
pub proof fn lemma_move_identical_register(s: State, c: i32)
    requires
        state_wf(s),
        s.running,
        !s.finished,
        0 <= s.pcc,
        s.pcc + 2 < s.prog_len,
        s.mem[s.pcc as int] == OP_MOVE,
        s.mem[s.pcc + 1] == c,
        s.mem[s.pcc + 2] == c,
        reg_readable(c),
        reg_writable(c),
    ensures
        step_spec(s).1 == Outcome::Success,
        c != REG_PCC ==> reg_get(step_spec(s).0, c) == reg_get(s, c),
        c == REG_PCC ==> step_spec(s).0.pcc == s.pcc + 3,
        step_spec(s).0.lst == reg_get(step_spec(s).0, c),
{
}

/// Immediately after any add or subtract instruction, the last-written-value
/// register equals the new accumulator value.
pub proof fn lemma_arith_updates_last_value(s: State)
    requires
        state_wf(s),
        s.running,
        !s.finished,
        0 <= s.pcc,
        s.pcc + 1 < s.prog_len,
        s.mem[s.pcc as int] == OP_ADD_IMM || s.mem[s.pcc as int] == OP_SUB_IMM || s.mem[
            s.pcc as int
        ] == OP_ADD_REG || s.mem[s.pcc as int] == OP_SUB_REG,
        s.mem[s.pcc as int] == OP_ADD_REG || s.mem[s.pcc as int] == OP_SUB_REG ==> reg_readable(
            s.mem[s.pcc + 1],
        ),
    ensures
        step_spec(s).1 == Outcome::Success,
        step_spec(s).0.lst == step_spec(s).0.acc,
{
}

/// Store-then-load through an unchanged stack address, with no intervening
/// write, hands back exactly the stored value: a store of the accumulator
/// followed at once by a load into any writable register leaves the stored
/// value in that register. The stack address must lie in a region that is
/// both writable and readable, and must not be one of the two program words
/// the second instruction has yet to fetch.
pub proof fn lemma_store_then_load(s: State, c: i32)
    requires
        state_wf(s),
        s.running,
        !s.finished,
        0 <= s.pcc,
        s.pcc + 2 < s.prog_len,
        s.mem[s.pcc as int] == OP_STORE_ACC,
        s.mem[s.pcc + 1] == OP_LOAD_STK,
        s.mem[s.pcc + 2] == c,
        reg_writable(c),
        seq_writable(s.regions, s.stk as int),
        seq_readable(s.regions, s.stk as int),
        s.stk != s.pcc + 1,
        s.stk != s.pcc + 2,
    ensures
        step_spec(s).1 == Outcome::Success,
        step_spec(step_spec(s).0).1 == Outcome::Success,
        reg_get(step_spec(step_spec(s).0).0, c) == s.acc,
{
    let s1 = step_spec(s).0;
    assert(s1.mem[s.pcc + 1] == OP_LOAD_STK);
    assert(s1.mem[s.pcc + 2] == c);
    assert(s1.mem[s.stk as int] == s.acc);
}

/// An unconditional jump to `T` makes the very next step fetch from `T`, not
/// from the word after the jump.
pub proof fn lemma_jump_redirects_fetch(s: State, t: i32)
    requires
        state_wf(s),
        s.running,
        !s.finished,
        0 <= s.pcc,
        s.pcc + 1 < s.prog_len,
        s.mem[s.pcc as int] == OP_JMP,
        s.mem[s.pcc + 1] == t,
    ensures
        step_spec(s).1 == Outcome::Success,
        step_spec(s).0.pcc == t,
        fetch_in_bounds(step_spec(s).0) ==> fetch_word(step_spec(s).0) == s.mem[t as int],
{
}

/// A call followed immediately by a return resumes execution exactly at the
/// word following the call. The link register takes the follow-on address
/// whatever it held before, so a second call before the matching return
/// overwrites the saved address: single-level linkage by design.
pub proof fn lemma_call_then_return(s: State, t: i32)
    requires
        state_wf(s),
        s.running,
        !s.finished,
        0 <= s.pcc,
        s.pcc + 1 < s.prog_len,
        s.mem[s.pcc as int] == OP_CALL,
        s.mem[s.pcc + 1] == t,
        0 <= t < s.prog_len,
        s.mem[t as int] == OP_RET,
    ensures
        step_spec(s).1 == Outcome::Success,
        step_spec(s).0.pcc == t,
        step_spec(s).0.fl1 == s.pcc + 2,
        step_spec(step_spec(s).0).1 == Outcome::Success,
        step_spec(step_spec(s).0).0.pcc == s.pcc + 2,
{
}

} // verus!
