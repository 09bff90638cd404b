//! The mathematical semantics of the Wik-8 engine: a ghost machine state and
//! a total transition function `step_spec` giving the effect and outcome of
//! one execution step. The executable machine is proved to implement exactly
//! this function.
//!
//! Design choices documented here:
//! - The comparison flag is a single value: each comparison writes 1 or 0 into
//!   `fl0`, overwriting whatever the previous comparison left.
//! - Word arithmetic wraps on overflow, so no instruction can abort the host.
//! - Store-at-stack with the accumulator as source zeroes the accumulator on
//!   success; the register-sourced variant leaves its source unchanged.
//! - A fetch (of the opcode or of an operand) whose address lies outside the
//!   loaded program is normal termination, never an error.

use vstd::prelude::*;

use crate::store::Region;
use crate::store::seq_readable;
use crate::store::seq_writable;

verus! {

// Register codes: the small integers by which instructions name registers.
pub const REG_PCC: i32 = 0x10;

pub const REG_ACC: i32 = 0x11;

pub const REG_BAK: i32 = 0x12;

pub const REG_STK: i32 = 0x13;

pub const REG_FL0: i32 = 0x14;

pub const REG_FL1: i32 = 0x15;

pub const REG_LST: i32 = 0x16;

// Opcodes.
pub const OP_NOP: i32 = 0x20;

pub const OP_ZERO_REG: i32 = 0x21;

pub const OP_LOAD_IMM: i32 = 0x22;

pub const OP_MOVE: i32 = 0x23;

pub const OP_ADD_IMM: i32 = 0x24;

pub const OP_ADD_REG: i32 = 0x25;

pub const OP_SUB_IMM: i32 = 0x26;

pub const OP_SUB_REG: i32 = 0x27;

pub const OP_SWAP: i32 = 0x28;

pub const OP_SAVE: i32 = 0x29;

pub const OP_JMP: i32 = 0x2a;

pub const OP_JEZ: i32 = 0x2b;

pub const OP_JNZ: i32 = 0x2c;

pub const OP_JGZ: i32 = 0x2d;

pub const OP_JLZ: i32 = 0x2e;

pub const OP_CEQ_IMM: i32 = 0x2f;

pub const OP_CNE_IMM: i32 = 0x30;

pub const OP_CGT_IMM: i32 = 0x31;

pub const OP_CLT_IMM: i32 = 0x32;

pub const OP_CEQ_REG: i32 = 0x33;

pub const OP_CNE_REG: i32 = 0x34;

pub const OP_CGT_REG: i32 = 0x35;

pub const OP_CLT_REG: i32 = 0x36;

pub const OP_STORE_ACC: i32 = 0x37;

pub const OP_STORE_REG: i32 = 0x38;

pub const OP_LOAD_STK: i32 = 0x39;

pub const OP_INC_STK: i32 = 0x3a;

pub const OP_DEC_STK: i32 = 0x3b;

pub const OP_CALL: i32 = 0x3c;

pub const OP_RET: i32 = 0x3d;

pub const OP_PUSH: i32 = 0x3e;

pub const OP_HALT: i32 = 0x42;

/// The structured result of one execution step.
#[derive(Clone, Copy, Debug, PartialEq, Eq, Structural)]
pub enum Outcome {
    /// The instruction completed, or the program terminated normally.
    Success,
    /// A register operand's permission was denied.
    InvalidRegisterReference,
    /// The stack pointer addressed a region that refuses the access.
    InvalidStackAddress,
    /// The link register held an address outside the program on return.
    Failure,
}

/// The abstract machine state.
#[verifier::ext_equal]
pub ghost struct State {
    pub running: bool,
    pub finished: bool,
    pub pcc: i32,
    pub acc: i32,
    pub bak: i32,
    pub stk: i32,
    pub lst: i32,
    pub fl0: i32,
    pub fl1: i32,
    pub mem: Seq<i32>,
    pub regions: Seq<Region>,
    pub prog_len: int,
}

/// Well-formed state: the loaded program fits in the store, addresses fit in
/// a word, and the region table is in bounds and non-overlapping.
pub open spec fn state_wf(s: State) -> bool {
    &&& 0 <= s.prog_len <= s.mem.len()
    &&& s.mem.len() <= i32::MAX as int
    &&& crate::store::regions_wf(s.regions, s.mem.len() as int)
}

/// Whether a register code names a register at all.
pub open spec fn reg_defined(code: i32) -> bool {
    REG_PCC <= code <= REG_LST
}

/// The constant read-permission table: a function of the code alone.
/// The backup register is reachable only by dedicated instructions, and the
/// last-written-value register is read-only by design.
pub open spec fn reg_readable(code: i32) -> bool {
    ||| code == REG_PCC
    ||| code == REG_ACC
    ||| code == REG_STK
    ||| code == REG_FL0
    ||| code == REG_FL1
    ||| code == REG_LST
}

/// The constant write-permission table: a function of the code alone.
pub open spec fn reg_writable(code: i32) -> bool {
    ||| code == REG_PCC
    ||| code == REG_ACC
    ||| code == REG_STK
    ||| code == REG_FL0
    ||| code == REG_FL1
}

/// The register a defined code resolves to.
pub open spec fn reg_get(s: State, code: i32) -> i32 {
    if code == REG_PCC {
        s.pcc
    } else if code == REG_ACC {
        s.acc
    } else if code == REG_BAK {
        s.bak
    } else if code == REG_STK {
        s.stk
    } else if code == REG_FL0 {
        s.fl0
    } else if code == REG_FL1 {
        s.fl1
    } else {
        s.lst
    }
}

/// Writing a register through its code: the named field takes the value, and
/// the last-written-value register records the value as an audit side effect.
pub open spec fn reg_set(s: State, code: i32, v: i32) -> State {
    let t = if code == REG_PCC {
        State { pcc: v, ..s }
    } else if code == REG_ACC {
        State { acc: v, ..s }
    } else if code == REG_BAK {
        State { bak: v, ..s }
    } else if code == REG_STK {
        State { stk: v, ..s }
    } else if code == REG_FL0 {
        State { fl0: v, ..s }
    } else if code == REG_FL1 {
        State { fl1: v, ..s }
    } else {
        s
    };
    State { lst: v, ..t }
}

/// A fetch is possible: the program counter indexes the loaded program.
pub open spec fn fetch_in_bounds(s: State) -> bool {
    0 <= s.pcc && (s.pcc as int) < s.prog_len
}

/// The word a fetch would read.
pub open spec fn fetch_word(s: State) -> i32 {
    s.mem[s.pcc as int]
}

/// The state after one fetch: the program counter has advanced past the
/// consumed word, which is never re-read.
pub open spec fn advance(s: State) -> State {
    State { pcc: (s.pcc + 1) as i32, ..s }
}

/// Whether a word is a defined opcode. Any other value is a decode fault,
/// fatal to the loaded program by design.
pub open spec fn valid_opcode(w: i32) -> bool {
    (OP_NOP <= w && w <= OP_PUSH) || w == OP_HALT
}

/// A fetch (opcode or operand) ran past the end of the program: normal
/// termination, not an error.
pub open spec fn terminated(s: State) -> (State, Outcome) {
    (State { finished: true, running: false, ..s }, Outcome::Success)
}

/// A per-instruction fault: the machine stops running, every other field is
/// left as it was, and the fault is reported as data.
pub open spec fn faulted(s: State, o: Outcome) -> (State, Outcome) {
    (State { running: false, ..s }, o)
}

/// An arithmetic result lands in the accumulator and, immediately, in the
/// last-written-value register.
pub open spec fn sem_arith(s: State, v: i32) -> (State, Outcome) {
    (State { acc: v, lst: v, ..s }, Outcome::Success)
}

/// A comparison leaves 1 or 0 in the flag register.
pub open spec fn sem_flag(s: State, holds: bool) -> (State, Outcome) {
    (State { fl0: if holds { 1i32 } else { 0i32 }, ..s }, Outcome::Success)
}

/// Store the accumulator at the stack address, then zero the accumulator.
pub open spec fn sem_store_acc(s: State) -> (State, Outcome) {
    if seq_writable(s.regions, s.stk as int) {
        (State { mem: s.mem.update(s.stk as int, s.acc), acc: 0i32, ..s }, Outcome::Success)
    } else {
        faulted(s, Outcome::InvalidStackAddress)
    }
}

/// Store a register at the stack address; the source is left unchanged.
pub open spec fn sem_store_reg(s: State, code: i32) -> (State, Outcome) {
    if !reg_readable(code) {
        faulted(s, Outcome::InvalidRegisterReference)
    } else if seq_writable(s.regions, s.stk as int) {
        (State { mem: s.mem.update(s.stk as int, reg_get(s, code)), ..s }, Outcome::Success)
    } else {
        faulted(s, Outcome::InvalidStackAddress)
    }
}

/// Load the word at the stack address into a register.
pub open spec fn sem_load_stk(s: State, code: i32) -> (State, Outcome) {
    if !reg_writable(code) {
        faulted(s, Outcome::InvalidRegisterReference)
    } else if seq_readable(s.regions, s.stk as int) {
        (reg_set(s, code, s.mem[s.stk as int]), Outcome::Success)
    } else {
        faulted(s, Outcome::InvalidStackAddress)
    }
}

/// Store the accumulator at the stack address, zero it, and advance the stack
/// pointer.
pub open spec fn sem_push(s: State) -> (State, Outcome) {
    if seq_writable(s.regions, s.stk as int) {
        (
            State {
                mem: s.mem.update(s.stk as int, s.acc),
                acc: 0i32,
                stk: s.stk.wrapping_add(1),
                ..s
            },
            Outcome::Success,
        )
    } else {
        faulted(s, Outcome::InvalidStackAddress)
    }
}

/// Return: jump to the link register, or fail when it points outside the
/// program's bounds.
pub open spec fn sem_ret(s: State) -> (State, Outcome) {
    if 0 <= s.fl1 && (s.fl1 as int) <= s.prog_len {
        (State { pcc: s.fl1, ..s }, Outcome::Success)
    } else {
        faulted(s, Outcome::Failure)
    }
}

/// The effect of a one-operand instruction, given the fetched operand.
pub open spec fn sem_one_operand(s: State, op: i32, a: i32) -> (State, Outcome) {
    if op == OP_ZERO_REG {
        if reg_writable(a) {
            (reg_set(s, a, 0i32), Outcome::Success)
        } else {
            faulted(s, Outcome::InvalidRegisterReference)
        }
    } else if op == OP_ADD_IMM {
        sem_arith(s, s.acc.wrapping_add(a))
    } else if op == OP_SUB_IMM {
        sem_arith(s, s.acc.wrapping_sub(a))
    } else if op == OP_ADD_REG {
        if reg_readable(a) {
            sem_arith(s, s.acc.wrapping_add(reg_get(s, a)))
        } else {
            faulted(s, Outcome::InvalidRegisterReference)
        }
    } else if op == OP_SUB_REG {
        if reg_readable(a) {
            sem_arith(s, s.acc.wrapping_sub(reg_get(s, a)))
        } else {
            faulted(s, Outcome::InvalidRegisterReference)
        }
    } else if op == OP_JMP {
        (State { pcc: a, ..s }, Outcome::Success)
    } else if op == OP_JEZ {
        (if s.acc == 0 { State { pcc: a, ..s } } else { s }, Outcome::Success)
    } else if op == OP_JNZ {
        (if s.acc != 0 { State { pcc: a, ..s } } else { s }, Outcome::Success)
    } else if op == OP_JGZ {
        (if s.acc > 0 { State { pcc: a, ..s } } else { s }, Outcome::Success)
    } else if op == OP_JLZ {
        (if s.acc < 0 { State { pcc: a, ..s } } else { s }, Outcome::Success)
    } else if op == OP_CEQ_IMM {
        sem_flag(s, s.acc == a)
    } else if op == OP_CNE_IMM {
        sem_flag(s, s.acc != a)
    } else if op == OP_CGT_IMM {
        sem_flag(s, s.acc > a)
    } else if op == OP_CLT_IMM {
        sem_flag(s, s.acc < a)
    } else if op == OP_CEQ_REG {
        if reg_readable(a) {
            sem_flag(s, s.acc == reg_get(s, a))
        } else {
            faulted(s, Outcome::InvalidRegisterReference)
        }
    } else if op == OP_CNE_REG {
        if reg_readable(a) {
            sem_flag(s, s.acc != reg_get(s, a))
        } else {
            faulted(s, Outcome::InvalidRegisterReference)
        }
    } else if op == OP_CGT_REG {
        if reg_readable(a) {
            sem_flag(s, s.acc > reg_get(s, a))
        } else {
            faulted(s, Outcome::InvalidRegisterReference)
        }
    } else if op == OP_CLT_REG {
        if reg_readable(a) {
            sem_flag(s, s.acc < reg_get(s, a))
        } else {
            faulted(s, Outcome::InvalidRegisterReference)
        }
    } else if op == OP_STORE_REG {
        sem_store_reg(s, a)
    } else if op == OP_LOAD_STK {
        sem_load_stk(s, a)
    } else {
        // OP_CALL: the address immediately following the instruction lands in
        // the link register, overwriting any previously saved address.
        (State { fl1: s.pcc, pcc: a, ..s }, Outcome::Success)
    }
}

/// Load an immediate into a register, permission-checked.
pub open spec fn sem_load_imm(s: State, imm: i32, code: i32) -> (State, Outcome) {
    if reg_writable(code) {
        (reg_set(s, code, imm), Outcome::Success)
    } else {
        faulted(s, Outcome::InvalidRegisterReference)
    }
}

/// Copy one register into another: the source must be readable and the
/// destination writable.
pub open spec fn sem_move(s: State, src: i32, dst: i32) -> (State, Outcome) {
    if reg_readable(src) && reg_writable(dst) {
        (reg_set(s, dst, reg_get(s, src)), Outcome::Success)
    } else {
        faulted(s, Outcome::InvalidRegisterReference)
    }
}

/// Dispatch on a fetched opcode: `s` is the state just past the opcode word.
pub open spec fn exec_op(s: State, op: i32) -> (State, Outcome) {
    if op == OP_NOP {
        (s, Outcome::Success)
    } else if op == OP_SWAP {
        (State { acc: s.bak, bak: s.acc, ..s }, Outcome::Success)
    } else if op == OP_SAVE {
        (State { bak: s.acc, ..s }, Outcome::Success)
    } else if op == OP_STORE_ACC {
        sem_store_acc(s)
    } else if op == OP_INC_STK {
        (State { stk: s.stk.wrapping_add(1), ..s }, Outcome::Success)
    } else if op == OP_DEC_STK {
        (State { stk: s.stk.wrapping_sub(1), ..s }, Outcome::Success)
    } else if op == OP_RET {
        sem_ret(s)
    } else if op == OP_PUSH {
        sem_push(s)
    } else if op == OP_HALT {
        (State { finished: true, running: false, ..s }, Outcome::Success)
    } else if op == OP_LOAD_IMM || op == OP_MOVE {
        if !fetch_in_bounds(s) {
            terminated(s)
        } else {
            let a = fetch_word(s);
            let s1 = advance(s);
            if !fetch_in_bounds(s1) {
                terminated(s1)
            } else {
                let b = fetch_word(s1);
                let s2 = advance(s1);
                if op == OP_LOAD_IMM {
                    sem_load_imm(s2, a, b)
                } else {
                    sem_move(s2, a, b)
                }
            }
        }
    } else {
        if !fetch_in_bounds(s) {
            terminated(s)
        } else {
            sem_one_operand(advance(s), op, fetch_word(s))
        }
    }
}

/// One full step: a no-op once the machine is not running or has finished;
/// normal termination when the opcode fetch runs past the program; otherwise
/// the fetched instruction's effect.
pub open spec fn step_spec(s: State) -> (State, Outcome) {
    if !s.running || s.finished {
        (s, Outcome::Success)
    } else if !fetch_in_bounds(s) {
        terminated(s)
    } else {
        exec_op(advance(s), fetch_word(s))
    }
}

/// The one input on which a step is not defined: a running machine about to
/// fetch a word that is no opcode. That case is a fatal defect of the loaded
/// program; every other state steps.
pub open spec fn step_ok(s: State) -> bool {
    ||| !s.running
    ||| s.finished
    ||| !fetch_in_bounds(s)
    ||| valid_opcode(fetch_word(s))
}

} // verus!
