//! The executable machine: a register file, a region-gated word store, and a
//! one-instruction `cycle` that is proved to implement the transition
//! function `step_spec` of the semantics module.

use vstd::prelude::*;

use crate::loader::LoadError;
use crate::semantics::{
    advance, faulted, fetch_in_bounds, fetch_word, reg_defined, reg_get, reg_readable, reg_set,
    reg_writable, sem_one_operand, state_wf, step_ok, step_spec, terminated, valid_opcode, Outcome,
    State, OP_ADD_IMM, OP_ADD_REG, OP_CEQ_IMM, OP_CEQ_REG, OP_CGT_IMM, OP_CGT_REG,
    OP_CLT_IMM, OP_CLT_REG, OP_CNE_IMM, OP_CNE_REG, OP_DEC_STK, OP_HALT, OP_INC_STK, OP_JEZ,
    OP_JGZ, OP_JLZ, OP_JMP, OP_JNZ, OP_LOAD_IMM, OP_LOAD_STK, OP_MOVE, OP_NOP, OP_PUSH, OP_RET,
    OP_SAVE, OP_STORE_ACC, OP_STORE_REG, OP_SUB_IMM, OP_SUB_REG, OP_SWAP, OP_ZERO_REG, REG_ACC,
    REG_BAK, REG_FL0, REG_FL1, REG_LST, REG_PCC, REG_STK,
};
use crate::store::Region;
use crate::store::WordStore;

verus! {

/// The number of words in the store.
pub const MEM_WORDS: usize = 96006;

/// The capacity of the program region, in words.
pub const ROM_WORDS: usize = 32000;

/// The first address of the general read/write scratch region, where the
/// stack pointer starts.
pub const RAM_BASE: i32 = 32005;

/// The region table every machine is constructed with: the program region,
/// two input-only regions (keyboard and pointer), and one general scratch
/// region usable as working memory and stack space.
pub open spec fn default_regions() -> Seq<Region> {
    seq![
        Region { base: 0, len: 32000, readable: true, writable: false },
        Region { base: 32000, len: 2, readable: true, writable: false },
        Region { base: 32002, len: 3, readable: true, writable: false },
        Region { base: 32005, len: 64001, readable: true, writable: true },
    ]
}

/// The state of a machine freshly constructed from a program.
pub open spec fn initial_state(rom: Seq<i32>) -> State {
    State {
        running: false,
        finished: false,
        pcc: 0,
        acc: 0,
        bak: 0,
        stk: RAM_BASE,
        lst: 0,
        fl0: 0,
        fl1: 0,
        mem: Seq::new(MEM_WORDS as nat, |i: int| if i < rom.len() { rom[i] } else { 0i32 }),
        regions: default_regions(),
        prog_len: rom.len() as int,
    }
}

/// The machine: the sole mutable aggregate, created once from a program and
/// mutated exclusively by `cycle`.
pub struct Emulator {
    pub running: bool,
    pub finished: bool,
    pub pcc: i32,
    pub acc: i32,
    pub bak: i32,
    pub stk: i32,
    pub lst: i32,
    pub fl0: i32,
    pub fl1: i32,
    pub store: WordStore,
    pub prog_len: usize,
}

impl View for Emulator {
    type V = State;

    open spec fn view(&self) -> State {
        State {
            running: self.running,
            finished: self.finished,
            pcc: self.pcc,
            acc: self.acc,
            bak: self.bak,
            stk: self.stk,
            lst: self.lst,
            fl0: self.fl0,
            fl1: self.fl1,
            mem: self.store.words@,
            regions: self.store.regions@,
            prog_len: self.prog_len as int,
        }
    }
}

impl Emulator {
    pub open spec fn wf(self) -> bool {
        state_wf(self@)
    }

    /// Builds a machine from a program. Fails, producing no machine, exactly
    /// when the program exceeds the program region's capacity.
    pub fn new(rom: &Vec<i32>) -> (r: Result<Emulator, LoadError>)
        ensures
            rom@.len() > ROM_WORDS ==> r == Err::<Emulator, LoadError>(LoadError::ProgramTooLarge),
            rom@.len() <= ROM_WORDS ==> r is Ok && r->Ok_0.wf() && r->Ok_0@ == initial_state(rom@),
    {
        if rom.len() > ROM_WORDS {
            return Err(LoadError::ProgramTooLarge);
        }

        let mut words: Vec<i32> = Vec::new();
        let mut i: usize = 0;
        while i < rom.len()
            invariant
                rom@.len() <= ROM_WORDS,
                i <= rom@.len(),
                words@.len() == i,
                forall|j: int| 0 <= j < i ==> words@[j] == rom@[j],
            decreases rom@.len() - i,
        {
            words.push(rom[i]);
            i = i + 1;
        }
        while i < MEM_WORDS
            invariant
                rom@.len() <= i <= MEM_WORDS,
                words@.len() == i,
                forall|j: int| 0 <= j < rom@.len() ==> words@[j] == rom@[j],
                forall|j: int| rom@.len() <= j < i ==> words@[j] == 0i32,
            decreases MEM_WORDS - i,
        {
            words.push(0);
            i = i + 1;
        }

        let mut regions: Vec<Region> = Vec::new();
        regions.push(Region { base: 0, len: 32000, readable: true, writable: false });
        regions.push(Region { base: 32000, len: 2, readable: true, writable: false });
        regions.push(Region { base: 32002, len: 3, readable: true, writable: false });
        regions.push(Region { base: 32005, len: 64001, readable: true, writable: true });

        let m = Emulator {
            running: false,
            finished: false,
            pcc: 0,
            acc: 0,
            bak: 0,
            stk: RAM_BASE,
            lst: 0,
            fl0: 0,
            fl1: 0,
            store: WordStore { words, regions },
            prog_len: rom.len(),
        };
        proof {
            assert(m.store.regions@ =~= default_regions());
            assert(m@.mem =~= initial_state(rom@).mem);
            assert(m@ =~= initial_state(rom@));
        }
        Ok(m)
    }

    /// Marks the machine running; it must not already be running.
    pub fn start(&mut self)
        requires
            !old(self).running,
        ensures
            final(self)@ == (State { running: true, ..old(self)@ }),
            final(self).wf() == old(self).wf(),
            final(self).prog_len == old(self).prog_len,
    {
        self.running = true;
    }

    /// Whether the machine has reached normal termination or was halted.
    pub fn is_finished(&self) -> (r: bool)
        ensures
            r == self@.finished,
    {
        self.finished
    }

    /// Whether the machine is still willing to execute another instruction.
    pub fn is_running(&self) -> (r: bool)
        ensures
            r == self@.running,
    {
        self.running
    }

    /// One fetch: reads the word at the program counter and advances past it,
    /// or reports None when the counter lies outside the loaded program.
    pub fn next(&mut self) -> (r: Option<i32>)
        requires
            old(self).wf(),
        ensures
            final(self).wf(),
            fetch_in_bounds(old(self)@) ==> r == Some(fetch_word(old(self)@)) && final(self)@
                == advance(old(self)@),
            !fetch_in_bounds(old(self)@) ==> r == None::<i32> && *final(self) == *old(self),
    {
        if self.pcc >= 0 && (self.pcc as usize) < self.prog_len {
            let w = self.store.words[self.pcc as usize];
            self.pcc = self.pcc + 1;
            proof {
                assert(self@ =~= advance(old(self)@));
            }
            Some(w)
        } else {
            None
        }
    }

    /// Reads the word at the given distance from the program counter, if that
    /// address lies inside the store.
    pub fn peek(&self, offset: &i32) -> (r: Option<i32>)
        requires
            self.wf(),
        ensures
            0 <= self@.pcc + *offset < self@.mem.len() ==> r == Some(
                self@.mem[self@.pcc + *offset],
            ),
            !(0 <= self@.pcc + *offset < self@.mem.len()) ==> r == None::<i32>,
    {
        let target: i64 = (self.pcc as i64) + (*offset as i64);
        if 0 <= target && target < (self.store.words.len() as i64) {
            Some(self.store.words[target as usize])
        } else {
            None
        }
    }

    /// The constant write-permission table, resolved for one code.
    pub fn can_mut(&self, reg: &i32) -> (r: bool)
        ensures
            r == reg_writable(*reg),
    {
        let c = *reg;
        c == REG_PCC || c == REG_ACC || c == REG_STK || c == REG_FL0 || c == REG_FL1
    }

    /// The constant read-permission table, resolved for one code.
    pub fn can_read(&self, reg: &i32) -> (r: bool)
        ensures
            r == reg_readable(*reg),
    {
        let c = *reg;
        c == REG_PCC || c == REG_ACC || c == REG_STK || c == REG_FL0 || c == REG_FL1
            || c == REG_LST
    }

    /// Resolves a register code to the register's value, ignoring the
    /// permission table; None for a code that names no register.
    pub fn get_register(&self, reg: &i32) -> (r: Option<i32>)
        ensures
            reg_defined(*reg) ==> r == Some(reg_get(self@, *reg)),
            !reg_defined(*reg) ==> r == None::<i32>,
    {
        let c = *reg;
        if c == REG_PCC {
            Some(self.pcc)
        } else if c == REG_ACC {
            Some(self.acc)
        } else if c == REG_BAK {
            Some(self.bak)
        } else if c == REG_STK {
            Some(self.stk)
        } else if c == REG_FL0 {
            Some(self.fl0)
        } else if c == REG_FL1 {
            Some(self.fl1)
        } else if c == REG_LST {
            Some(self.lst)
        } else {
            None
        }
    }

    /// Region-checked read of one word of the store, for inspection.
    pub fn read_mem(&self, addr: i32) -> (r: Option<i32>)
        requires
            self.wf(),
        ensures
            crate::store::seq_readable(self@.regions, addr as int) ==> r == Some(
                self@.mem[addr as int],
            ),
            !crate::store::seq_readable(self@.regions, addr as int) ==> r == None::<i32>,
    {
        self.store.read(addr)
    }

    /// Whether a word is a defined opcode.
    pub fn is_valid_opcode(&self, w: i32) -> (r: bool)
        ensures
            r == valid_opcode(w),
    {
        (OP_NOP <= w && w <= OP_PUSH) || w == OP_HALT
    }

    /// Whether the next `cycle` call is defined: true unless a running
    /// machine is about to fetch a word that is no opcode. A driver checks
    /// this before each step and treats false as a fatal program defect.
    pub fn next_step_ok(&self) -> (r: bool)
        requires
            self.wf(),
        ensures
            r == step_ok(self@),
    {
        if !self.running || self.finished {
            return true;
        }
        if !(self.pcc >= 0 && (self.pcc as usize) < self.prog_len) {
            return true;
        }
        let w = self.store.words[self.pcc as usize];
        self.is_valid_opcode(w)
    }

    /// Reads a register through its code, permission-checked.
    fn reg_read(&self, code: i32) -> (r: i32)
        requires
            reg_readable(code),
        ensures
            r == reg_get(self@, code),
    {
        if code == REG_PCC {
            self.pcc
        } else if code == REG_ACC {
            self.acc
        } else if code == REG_STK {
            self.stk
        } else if code == REG_FL0 {
            self.fl0
        } else if code == REG_FL1 {
            self.fl1
        } else {
            self.lst
        }
    }

    /// Writes a register through its code, recording the value in the
    /// last-written-value register.
    fn reg_write(&mut self, code: i32, v: i32)
        requires
            reg_writable(code),
        ensures
            final(self)@ == reg_set(old(self)@, code, v),
            final(self).wf() == old(self).wf(),
            final(self).prog_len == old(self).prog_len,
    {
        if code == REG_PCC {
            self.pcc = v;
        } else if code == REG_ACC {
            self.acc = v;
        } else if code == REG_STK {
            self.stk = v;
        } else if code == REG_FL0 {
            self.fl0 = v;
        } else {
            self.fl1 = v;
        }
        self.lst = v;
    }

    /// Stops the machine with a per-instruction fault: no other field moves.
    fn fault(&mut self, o: Outcome) -> (r: Outcome)
        ensures
            final(self)@ == faulted(old(self)@, o).0,
            r == faulted(old(self)@, o).1,
            final(self).wf() == old(self).wf(),
            final(self).prog_len == old(self).prog_len,
    {
        self.running = false;
        o
    }

    /// Marks normal termination after a fetch ran past the program's end.
    fn terminate(&mut self) -> (r: Outcome)
        ensures
            final(self)@ == terminated(old(self)@).0,
            r == terminated(old(self)@).1,
            final(self).wf() == old(self).wf(),
            final(self).prog_len == old(self).prog_len,
    {
        self.finished = true;
        self.running = false;
        Outcome::Success
    }

    /// Performs exactly one instruction, returning its structured outcome.
    ///
    /// The one precondition beyond well-formedness rules out the single fatal
    /// case, a fetch of a word that is no opcode (`next_step_ok` tests it);
    /// on every other state the step returns without aborting, as `step_spec`
    /// says.
    pub fn cycle(&mut self) -> (r: Outcome)
        requires
            old(self).wf(),
            step_ok(old(self)@),
        ensures
            final(self).wf(),
            final(self)@ == step_spec(old(self)@).0,
            r == step_spec(old(self)@).1,
    {
        if !self.running || self.finished {
            return Outcome::Success;
        }

        let inst = match self.next() {
            Some(w) => w,
            None => {
                return self.terminate();
            },
        };

        if inst == OP_NOP {
            Outcome::Success
        } else if inst == OP_SWAP {
            let temp = self.acc;
            self.acc = self.bak;
            self.bak = temp;
            Outcome::Success
        } else if inst == OP_SAVE {
            self.bak = self.acc;
            Outcome::Success
        } else if inst == OP_STORE_ACC {
            let v = self.acc;
            if self.store.write(self.stk, v) {
                self.acc = 0;
                Outcome::Success
            } else {
                self.fault(Outcome::InvalidStackAddress)
            }
        } else if inst == OP_INC_STK {
            self.stk = self.stk.wrapping_add(1);
            Outcome::Success
        } else if inst == OP_DEC_STK {
            self.stk = self.stk.wrapping_sub(1);
            Outcome::Success
        } else if inst == OP_RET {
            if self.fl1 >= 0 && (self.fl1 as usize) <= self.prog_len {
                self.pcc = self.fl1;
                Outcome::Success
            } else {
                self.fault(Outcome::Failure)
            }
        } else if inst == OP_PUSH {
            let v = self.acc;
            if self.store.write(self.stk, v) {
                self.acc = 0;
                self.stk = self.stk.wrapping_add(1);
                Outcome::Success
            } else {
                self.fault(Outcome::InvalidStackAddress)
            }
        } else if inst == OP_HALT {
            self.finished = true;
            self.running = false;
            Outcome::Success
        } else if inst == OP_LOAD_IMM || inst == OP_MOVE {
            let a = match self.next() {
                Some(w) => w,
                None => {
                    return self.terminate();
                },
            };
            let b = match self.next() {
                Some(w) => w,
                None => {
                    return self.terminate();
                },
            };
            if inst == OP_LOAD_IMM {
                if self.can_mut(&b) {
                    self.reg_write(b, a);
                    Outcome::Success
                } else {
                    self.fault(Outcome::InvalidRegisterReference)
                }
            } else {
                if self.can_read(&a) && self.can_mut(&b) {
                    let v = self.reg_read(a);
                    self.reg_write(b, v);
                    Outcome::Success
                } else {
                    self.fault(Outcome::InvalidRegisterReference)
                }
            }
        } else {
            let a = match self.next() {
                Some(w) => w,
                None => {
                    return self.terminate();
                },
            };
            self.one_operand(inst, a)
        }
    }

    /// The effect of a one-operand instruction whose operand is in hand.
    fn one_operand(&mut self, op: i32, a: i32) -> (r: Outcome)
        requires
            old(self).wf(),
            valid_opcode(op),
            op != OP_NOP && op != OP_SWAP && op != OP_SAVE && op != OP_STORE_ACC,
            op != OP_INC_STK && op != OP_DEC_STK && op != OP_RET && op != OP_PUSH,
            op != OP_HALT && op != OP_LOAD_IMM && op != OP_MOVE,
        ensures
            final(self).wf(),
            final(self)@ == sem_one_operand(old(self)@, op, a).0,
            r == sem_one_operand(old(self)@, op, a).1,
    {
        if op == OP_ZERO_REG {
            if self.can_mut(&a) {
                self.reg_write(a, 0);
                Outcome::Success
            } else {
                self.fault(Outcome::InvalidRegisterReference)
            }
        } else if op == OP_ADD_IMM {
            let v = self.acc.wrapping_add(a);
            self.acc = v;
            self.lst = v;
            Outcome::Success
        } else if op == OP_SUB_IMM {
            let v = self.acc.wrapping_sub(a);
            self.acc = v;
            self.lst = v;
            Outcome::Success
        } else if op == OP_ADD_REG || op == OP_SUB_REG {
            if self.can_read(&a) {
                let w = self.reg_read(a);
                let v = if op == OP_ADD_REG {
                    self.acc.wrapping_add(w)
                } else {
                    self.acc.wrapping_sub(w)
                };
                self.acc = v;
                self.lst = v;
                Outcome::Success
            } else {
                self.fault(Outcome::InvalidRegisterReference)
            }
        } else if op == OP_JMP {
            self.pcc = a;
            Outcome::Success
        } else if op == OP_JEZ {
            if self.acc == 0 {
                self.pcc = a;
            }
            Outcome::Success
        } else if op == OP_JNZ {
            if self.acc != 0 {
                self.pcc = a;
            }
            Outcome::Success
        } else if op == OP_JGZ {
            if self.acc > 0 {
                self.pcc = a;
            }
            Outcome::Success
        } else if op == OP_JLZ {
            if self.acc < 0 {
                self.pcc = a;
            }
            Outcome::Success
        } else if op == OP_CEQ_IMM {
            self.fl0 = if self.acc == a { 1 } else { 0 };
            Outcome::Success
        } else if op == OP_CNE_IMM {
            self.fl0 = if self.acc != a { 1 } else { 0 };
            Outcome::Success
        } else if op == OP_CGT_IMM {
            self.fl0 = if self.acc > a { 1 } else { 0 };
            Outcome::Success
        } else if op == OP_CLT_IMM {
            self.fl0 = if self.acc < a { 1 } else { 0 };
            Outcome::Success
        } else if op == OP_CEQ_REG || op == OP_CNE_REG || op == OP_CGT_REG || op == OP_CLT_REG {
            if self.can_read(&a) {
                let w = self.reg_read(a);
                let holds = if op == OP_CEQ_REG {
                    self.acc == w
                } else if op == OP_CNE_REG {
                    self.acc != w
                } else if op == OP_CGT_REG {
                    self.acc > w
                } else {
                    self.acc < w
                };
                self.fl0 = if holds { 1 } else { 0 };
                Outcome::Success
            } else {
                self.fault(Outcome::InvalidRegisterReference)
            }
        } else if op == OP_STORE_REG {
            if self.can_read(&a) {
                let v = self.reg_read(a);
                if self.store.write(self.stk, v) {
                    Outcome::Success
                } else {
                    self.fault(Outcome::InvalidStackAddress)
                }
            } else {
                self.fault(Outcome::InvalidRegisterReference)
            }
        } else if op == OP_LOAD_STK {
            if self.can_mut(&a) {
                match self.store.read(self.stk) {
                    Some(w) => {
                        self.reg_write(a, w);
                        Outcome::Success
                    },
                    None => self.fault(Outcome::InvalidStackAddress),
                }
            } else {
                self.fault(Outcome::InvalidRegisterReference)
            }
        } else {
            self.fl1 = self.pcc;
            self.pcc = a;
            Outcome::Success
        }
    }
}

} // verus!
