use wik8::machine::Emulator;
use wik8::semantics::Outcome;
use wik8::semantics::{REG_ACC, REG_BAK, REG_FL0, REG_FL1, REG_LST, REG_PCC, REG_STK};

fn boot(rom: Vec<i32>) -> Emulator {
    let mut m = match Emulator::new(&rom) {
        Ok(m) => m,
        Err(e) => panic!("machine construction failed: {:?}", e),
    };
    m.start();
    m
}

fn step(m: &mut Emulator) -> Outcome {
    assert!(m.next_step_ok(), "fetched a word that is no opcode");
    m.cycle()
}

#[test]
fn nop_only_advances_pcc() {
    let mut m = boot(vec![0x20]);
    assert_eq!(step(&mut m), Outcome::Success);
    assert_eq!(m.pcc, 1);
    assert_eq!(m.acc, 0);
    assert!(m.running);
    assert!(!m.finished);
}

#[test]
fn step_before_start_is_a_no_op() {
    let rom: Vec<i32> = vec![0x22, 5, REG_ACC];
    let mut m = match Emulator::new(&rom) {
        Ok(m) => m,
        Err(e) => panic!("machine construction failed: {:?}", e),
    };
    assert_eq!(m.cycle(), Outcome::Success);
    assert_eq!(m.pcc, 0);
    assert_eq!(m.acc, 0);
}

#[test]
fn load_immediate_writes_register_and_last_value() {
    let mut m = boot(vec![0x22, 5, REG_ACC]);
    assert_eq!(step(&mut m), Outcome::Success);
    assert_eq!(m.acc, 5);
    assert_eq!(m.lst, 5);
    assert_eq!(m.pcc, 3);
}

#[test]
fn zero_register_clears_it() {
    let mut m = boot(vec![0x22, 9, REG_STK, 0x21, REG_STK]);
    assert_eq!(step(&mut m), Outcome::Success);
    assert_eq!(m.stk, 9);
    assert_eq!(step(&mut m), Outcome::Success);
    assert_eq!(m.stk, 0);
    assert_eq!(m.lst, 0);
}

#[test]
fn zero_register_denied_for_backup_register() {
    let mut m = boot(vec![0x21, REG_BAK]);
    assert_eq!(step(&mut m), Outcome::InvalidRegisterReference);
    assert!(!m.running);
    assert_eq!(m.bak, 0);
}

#[test]
fn zero_register_denied_for_last_value_register() {
    let mut m = boot(vec![0x21, REG_LST]);
    assert_eq!(step(&mut m), Outcome::InvalidRegisterReference);
    assert!(!m.running);
}

#[test]
fn zero_register_denied_for_unknown_code() {
    let mut m = boot(vec![0x21, 99]);
    assert_eq!(step(&mut m), Outcome::InvalidRegisterReference);
    assert!(!m.running);
}

#[test]
fn move_copies_between_registers() {
    // acc := 7, then stk := acc.
    let mut m = boot(vec![0x22, 7, REG_ACC, 0x23, REG_ACC, REG_STK]);
    assert_eq!(step(&mut m), Outcome::Success);
    assert_eq!(step(&mut m), Outcome::Success);
    assert_eq!(m.stk, 7);
    assert_eq!(m.acc, 7);
    assert_eq!(m.lst, 7);
}

#[test]
fn move_identical_register_keeps_value() {
    let mut m = boot(vec![0x22, 9, REG_ACC, 0x23, REG_ACC, REG_ACC]);
    assert_eq!(step(&mut m), Outcome::Success);
    assert_eq!(step(&mut m), Outcome::Success);
    assert_eq!(m.acc, 9);
    assert_eq!(m.lst, 9);
}

#[test]
fn move_from_backup_register_is_denied() {
    let mut m = boot(vec![0x23, REG_BAK, REG_ACC]);
    assert_eq!(step(&mut m), Outcome::InvalidRegisterReference);
    assert!(!m.running);
}

#[test]
fn add_immediate_updates_acc_and_last_value() {
    let mut m = boot(vec![0x24, 10, 0x26, 3]);
    assert_eq!(step(&mut m), Outcome::Success);
    assert_eq!(m.acc, 10);
    assert_eq!(m.lst, 10);
    assert_eq!(step(&mut m), Outcome::Success);
    assert_eq!(m.acc, 7);
    assert_eq!(m.lst, 7);
}

#[test]
fn add_register_doubles_accumulator() {
    let mut m = boot(vec![0x22, 4, REG_ACC, 0x25, REG_ACC]);
    assert_eq!(step(&mut m), Outcome::Success);
    assert_eq!(step(&mut m), Outcome::Success);
    assert_eq!(m.acc, 8);
    assert_eq!(m.lst, 8);
}

#[test]
fn subtract_register_denied_for_backup() {
    let mut m = boot(vec![0x27, REG_BAK]);
    assert_eq!(step(&mut m), Outcome::InvalidRegisterReference);
    assert!(!m.running);
}

#[test]
fn arithmetic_wraps_instead_of_aborting() {
    let mut m = boot(vec![0x22, i32::MAX, REG_ACC, 0x24, 1]);
    assert_eq!(step(&mut m), Outcome::Success);
    assert_eq!(step(&mut m), Outcome::Success);
    assert_eq!(m.acc, i32::MIN);
    assert_eq!(m.lst, i32::MIN);
}

#[test]
fn swap_exchanges_acc_and_bak() {
    let mut m = boot(vec![0x22, 3, REG_ACC, 0x29, 0x22, 8, REG_ACC, 0x28]);
    assert_eq!(step(&mut m), Outcome::Success);
    assert_eq!(step(&mut m), Outcome::Success);
    assert_eq!(m.bak, 3);
    assert_eq!(step(&mut m), Outcome::Success);
    assert_eq!(step(&mut m), Outcome::Success);
    assert_eq!(m.acc, 3);
    assert_eq!(m.bak, 8);
}

#[test]
fn conditional_jump_taken_when_acc_zero() {
    // acc is 0, so the jump to 4 skips the add.
    let mut m = boot(vec![0x2b, 4, 0x24, 50, 0x20]);
    assert_eq!(step(&mut m), Outcome::Success);
    assert_eq!(m.pcc, 4);
    assert_eq!(step(&mut m), Outcome::Success);
    assert_eq!(m.acc, 0);
}

#[test]
fn conditional_jump_not_taken_when_predicate_fails() {
    let mut m = boot(vec![0x22, 1, REG_ACC, 0x2b, 0, 0x24, 5]);
    assert_eq!(step(&mut m), Outcome::Success);
    assert_eq!(step(&mut m), Outcome::Success);
    assert_eq!(m.pcc, 5);
    assert_eq!(step(&mut m), Outcome::Success);
    assert_eq!(m.acc, 6);
}

#[test]
fn comparisons_set_single_flag() {
    let mut m = boot(vec![0x22, 5, REG_ACC, 0x2f, 5, 0x31, 9]);
    assert_eq!(step(&mut m), Outcome::Success);
    assert_eq!(step(&mut m), Outcome::Success);
    assert_eq!(m.fl0, 1);
    // 5 > 9 fails, so the next comparison overwrites the flag with 0.
    assert_eq!(step(&mut m), Outcome::Success);
    assert_eq!(m.fl0, 0);
}

#[test]
fn compare_register_reads_its_operand() {
    let mut m = boot(vec![0x22, 6, REG_STK, 0x22, 5, REG_ACC, 0x36, REG_STK]);
    assert_eq!(step(&mut m), Outcome::Success);
    assert_eq!(step(&mut m), Outcome::Success);
    assert_eq!(step(&mut m), Outcome::Success);
    assert_eq!(m.fl0, 1);
}

#[test]
fn compare_register_denied_for_backup() {
    let mut m = boot(vec![0x33, REG_BAK]);
    assert_eq!(step(&mut m), Outcome::InvalidRegisterReference);
    assert!(!m.running);
}

#[test]
fn stack_pointer_moves_without_bounds_check() {
    let mut m = boot(vec![0x3a, 0x3a, 0x3b]);
    assert_eq!(step(&mut m), Outcome::Success);
    assert_eq!(step(&mut m), Outcome::Success);
    assert_eq!(m.stk, 32007);
    assert_eq!(step(&mut m), Outcome::Success);
    assert_eq!(m.stk, 32006);
}

#[test]
fn store_acc_writes_stack_and_zeroes_acc() {
    let mut m = boot(vec![0x22, 42, REG_ACC, 0x37]);
    assert_eq!(step(&mut m), Outcome::Success);
    assert_eq!(step(&mut m), Outcome::Success);
    assert_eq!(m.acc, 0);
    assert_eq!(m.read_mem(32005), Some(42));
}

#[test]
fn store_register_keeps_its_source() {
    let mut m = boot(vec![0x22, 5, REG_ACC, 0x38, REG_ACC]);
    assert_eq!(step(&mut m), Outcome::Success);
    assert_eq!(step(&mut m), Outcome::Success);
    assert_eq!(m.acc, 5);
    assert_eq!(m.read_mem(32005), Some(5));
}

#[test]
fn store_then_load_round_trips() {
    let mut m = boot(vec![0x22, 42, REG_ACC, 0x37, 0x39, REG_ACC]);
    assert_eq!(step(&mut m), Outcome::Success);
    assert_eq!(step(&mut m), Outcome::Success);
    assert_eq!(m.acc, 0);
    assert_eq!(step(&mut m), Outcome::Success);
    assert_eq!(m.acc, 42);
    assert_eq!(m.lst, 42);
}

#[test]
fn push_stores_zeroes_and_advances() {
    let mut m = boot(vec![0x22, 9, REG_ACC, 0x3e]);
    assert_eq!(step(&mut m), Outcome::Success);
    assert_eq!(step(&mut m), Outcome::Success);
    assert_eq!(m.acc, 0);
    assert_eq!(m.stk, 32006);
    assert_eq!(m.read_mem(32005), Some(9));
}

#[test]
fn load_stack_denied_register_leaves_memory_alone() {
    let mut m = boot(vec![0x39, REG_LST]);
    assert_eq!(step(&mut m), Outcome::InvalidRegisterReference);
    assert!(!m.running);
}

#[test]
fn call_saves_following_address_then_return_resumes_there() {
    let mut m = boot(vec![0x3c, 3, 0x42, 0x3d]);
    assert_eq!(step(&mut m), Outcome::Success);
    assert_eq!(m.fl1, 2);
    assert_eq!(m.pcc, 3);
    assert_eq!(step(&mut m), Outcome::Success);
    assert_eq!(m.pcc, 2);
    assert_eq!(step(&mut m), Outcome::Success);
    assert!(m.finished);
}

#[test]
fn second_call_overwrites_saved_address() {
    let mut m = boot(vec![0x3c, 2, 0x3c, 4, 0x42]);
    assert_eq!(step(&mut m), Outcome::Success);
    assert_eq!(m.fl1, 2);
    assert_eq!(step(&mut m), Outcome::Success);
    assert_eq!(m.fl1, 4);
    assert_eq!(m.pcc, 4);
}

#[test]
fn return_with_invalid_link_is_a_failure() {
    let mut m = boot(vec![0x22, -1, REG_FL1, 0x3d]);
    assert_eq!(step(&mut m), Outcome::Success);
    assert_eq!(step(&mut m), Outcome::Failure);
    assert!(!m.running);
    assert_eq!(m.pcc, 4);
}

#[test]
fn halt_finishes_the_machine() {
    let mut m = boot(vec![0x42, 0x24, 5]);
    assert_eq!(step(&mut m), Outcome::Success);
    assert!(m.finished);
    assert!(!m.running);
    // Further steps change nothing.
    assert_eq!(step(&mut m), Outcome::Success);
    assert_eq!(m.pcc, 1);
    assert_eq!(m.acc, 0);
}

#[test]
fn missing_operand_is_normal_termination() {
    let mut m = boot(vec![0x2a]);
    assert_eq!(step(&mut m), Outcome::Success);
    assert!(m.finished);
    assert!(!m.running);
}

#[test]
fn self_modifying_jump_through_register_write() {
    // Zeroing the program counter through its code restarts the program.
    let mut m = boot(vec![0x21, REG_PCC]);
    assert_eq!(step(&mut m), Outcome::Success);
    assert_eq!(m.pcc, 0);
    assert_eq!(m.lst, 0);
    assert!(m.running);
}

#[test]
fn permission_table_is_total_and_fixed() {
    let m = boot(vec![0x20]);
    let readable = [REG_PCC, REG_ACC, REG_STK, REG_FL0, REG_FL1, REG_LST];
    let writable = [REG_PCC, REG_ACC, REG_STK, REG_FL0, REG_FL1];
    for code in 0x10..0x17 {
        assert_eq!(m.can_read(&code), readable.contains(&code), "code {code:#x}");
        assert_eq!(m.can_mut(&code), writable.contains(&code), "code {code:#x}");
    }
    assert!(!m.can_read(&0x17));
    assert!(!m.can_mut(&0x17));
    assert!(!m.can_read(&0));
    assert!(!m.can_mut(&-1));
}

#[test]
fn permission_table_ignores_machine_state() {
    let mut m = boot(vec![0x22, 7, REG_ACC, 0x42]);
    let before_read: Vec<bool> = (0x0f..0x18).map(|c| m.can_read(&c)).collect();
    let before_mut: Vec<bool> = (0x0f..0x18).map(|c| m.can_mut(&c)).collect();
    assert_eq!(step(&mut m), Outcome::Success);
    assert_eq!(step(&mut m), Outcome::Success);
    let after_read: Vec<bool> = (0x0f..0x18).map(|c| m.can_read(&c)).collect();
    let after_mut: Vec<bool> = (0x0f..0x18).map(|c| m.can_mut(&c)).collect();
    assert_eq!(before_read, after_read);
    assert_eq!(before_mut, after_mut);
}

#[test]
fn get_register_resolves_every_defined_code() {
    let mut m = boot(vec![0x22, 7, REG_ACC, 0x29]);
    assert_eq!(step(&mut m), Outcome::Success);
    assert_eq!(step(&mut m), Outcome::Success);
    assert_eq!(m.get_register(&REG_PCC), Some(4));
    assert_eq!(m.get_register(&REG_ACC), Some(7));
    assert_eq!(m.get_register(&REG_BAK), Some(7));
    assert_eq!(m.get_register(&REG_STK), Some(32005));
    assert_eq!(m.get_register(&REG_FL0), Some(0));
    assert_eq!(m.get_register(&REG_FL1), Some(0));
    assert_eq!(m.get_register(&REG_LST), Some(7));
    assert_eq!(m.get_register(&0x17), None);
    assert_eq!(m.get_register(&0), None);
}

#[test]
fn next_consumes_words_in_order() {
    let mut m = boot(vec![11, 22, 33]);
    assert_eq!(m.next(), Some(11));
    assert_eq!(m.next(), Some(22));
    assert_eq!(m.next(), Some(33));
    assert_eq!(m.next(), None);
    assert_eq!(m.pcc, 3);
}

#[test]
fn peek_reads_relative_to_pcc_without_advancing() {
    let m = boot(vec![11, 22, 33]);
    assert_eq!(m.peek(&0), Some(11));
    assert_eq!(m.peek(&2), Some(33));
    assert_eq!(m.peek(&5), Some(0));
    assert_eq!(m.peek(&-1), None);
    assert_eq!(m.peek(&96006), None);
    assert_eq!(m.pcc, 0);
}

#[test]
fn read_mem_is_region_checked() {
    let m = boot(vec![77]);
    assert_eq!(m.read_mem(0), Some(77));
    assert_eq!(m.read_mem(32000), Some(0));
    assert_eq!(m.read_mem(96005), Some(0));
    assert_eq!(m.read_mem(96006), None);
    assert_eq!(m.read_mem(-1), None);
}

#[test]
fn invalid_opcode_is_the_only_undefined_fetch() {
    let mut m = boot(vec![0x3f]);
    assert!(!m.next_step_ok());
    // Every defined opcode, and a finished machine, keep stepping defined.
    for w in 0x20..=0x3e {
        assert!(m.is_valid_opcode(w));
    }
    assert!(m.is_valid_opcode(0x42));
    assert!(!m.is_valid_opcode(0x3f));
    assert!(!m.is_valid_opcode(0x40));
    assert!(!m.is_valid_opcode(0x41));
    assert!(!m.is_valid_opcode(0x43));
    assert!(!m.is_valid_opcode(0x1f));
}
