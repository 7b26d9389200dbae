use funge_core::{Command, Puzzle, Solution, VMError, VirtualMachine};

fn solution_with_row(cmds: &[Command]) -> Solution {
    let mut s = Solution::new("test".to_owned());
    for (i, c) in cmds.iter().enumerate() {
        s.set_grid_value(0, i, *c);
    }
    s
}

#[test]
fn in_out_program_copies_inputs_to_outputs() {
    let solution = solution_with_row(&[Command::In, Command::Out, Command::In, Command::Out]);
    let puzzle = Puzzle::new(vec![5, -3], vec![5, -3]).unwrap();
    let mut vm = VirtualMachine::new(solution, 0, puzzle);

    for _ in 0..4 {
        assert_eq!(vm.step(), Ok(false));
    }
    let outputs = vm.processor_0().get_outputs();
    assert_eq!(outputs.len(), 2);
    assert_eq!(outputs.get(0), 5);
    assert_eq!(outputs.get(1), -3);
    assert_eq!(vm.step(), Ok(true));
    assert_eq!(vm.get_cycle(), 4);
}

#[test]
fn adjacent_digits_build_one_number() {
    let solution = solution_with_row(&[Command::One, Command::Two, Command::Three]);
    let puzzle = Puzzle::new(vec![], vec![123]).unwrap();
    let mut vm = VirtualMachine::new(solution, 0, puzzle);

    for _ in 0..3 {
        assert_eq!(vm.step(), Ok(false));
    }
    let stack = vm.processor_0().get_stack();
    assert_eq!(stack.len(), 1);
    assert_eq!(stack.peek(), Some(123));
}

#[test]
fn digit_after_non_digit_starts_a_new_number() {
    let solution = solution_with_row(&[Command::One, Command::Right, Command::Two]);
    let puzzle = Puzzle::new(vec![], vec![1]).unwrap();
    let mut vm = VirtualMachine::new(solution, 0, puzzle);

    for _ in 0..3 {
        assert_eq!(vm.step(), Ok(false));
    }
    let stack = vm.processor_0().get_stack();
    assert_eq!(stack.len(), 2);
    assert_eq!(stack.peek(), Some(2));
}

#[test]
fn multi_digit_overflow_fails_with_numeric_overflow() {
    let solution = solution_with_row(&[
        Command::Nine,
        Command::Nine,
        Command::Nine,
        Command::Nine,
    ]);
    let puzzle = Puzzle::new(vec![], vec![1]).unwrap();
    let mut vm = VirtualMachine::new(solution, 0, puzzle);

    assert_eq!(vm.step(), Ok(false));
    assert_eq!(vm.step(), Ok(false));
    assert_eq!(vm.step(), Ok(false));
    assert_eq!(vm.step(), Err((VMError::NumericOverflow, 0)));
}

#[test]
fn pop_on_empty_stack_fails_with_underflow() {
    let solution = solution_with_row(&[Command::Add]);
    let puzzle = Puzzle::new(vec![], vec![1]).unwrap();
    let mut vm = VirtualMachine::new(solution, 0, puzzle);
    assert_eq!(vm.step(), Err((VMError::StackUnderflow, 0)));
}

#[test]
fn in_with_no_inputs_fails() {
    let solution = solution_with_row(&[Command::In]);
    let puzzle = Puzzle::new(vec![], vec![1]).unwrap();
    let mut vm = VirtualMachine::new(solution, 0, puzzle);
    assert_eq!(vm.step(), Err((VMError::NoInputs, 0)));
}

#[test]
fn out_into_full_output_queue_fails() {
    let solution = solution_with_row(&[Command::One, Command::Out]);
    let puzzle = Puzzle::new(vec![], vec![2]).unwrap();
    let mut vm = VirtualMachine::new(solution, 0, puzzle);
    // The pointer wraps around row 0, producing an output every other cycle;
    // the sixteenth write finds the queue full.
    let mut result = Ok(false);
    for _ in 0..200 {
        result = vm.step();
        if result.is_err() {
            break;
        }
    }
    assert_eq!(result, Err((VMError::TooManyOutputs, 0)));
}

#[test]
fn arithmetic_pops_right_operand_first() {
    let solution = solution_with_row(&[
        Command::Nine,
        Command::Right,
        Command::Two,
        Command::Subtract,
    ]);
    let puzzle = Puzzle::new(vec![], vec![7]).unwrap();
    let mut vm = VirtualMachine::new(solution, 0, puzzle);
    for _ in 0..4 {
        assert_eq!(vm.step(), Ok(false));
    }
    assert_eq!(vm.processor_0().get_stack().peek(), Some(7));
}

#[test]
fn comparison_skips_next_cell_when_false() {
    // IfGreater on 0 is false, so the Out under the pointer is skipped and
    // the stack keeps its value.
    let solution = solution_with_row(&[Command::Zero, Command::IfGreater, Command::Out]);
    let puzzle = Puzzle::new(vec![], vec![1]).unwrap();
    let mut vm = VirtualMachine::new(solution, 0, puzzle);
    for _ in 0..3 {
        assert_eq!(vm.step(), Ok(false));
    }
    assert_eq!(vm.processor_0().get_stack().len(), 1);
    assert_eq!(vm.processor_0().get_outputs().len(), 0);
}

#[test]
fn mirror_changes_direction() {
    // Travelling right into `/` turns the pointer upward, which wraps to the
    // bottom row.
    let mut s = Solution::new("mirror".to_owned());
    s.set_grid_value(0, 1, Command::ForwardSlash);
    let puzzle = Puzzle::new(vec![], vec![1]).unwrap();
    let mut vm = VirtualMachine::new(s, 0, puzzle);
    assert_eq!(vm.step(), Ok(false));
    assert_eq!((vm.row(), vm.col()), (0, 1));
    assert_eq!(vm.step(), Ok(false));
    assert_eq!((vm.row(), vm.col()), (9, 1));
}

#[test]
fn skip_cell_is_consumed_without_execution() {
    let solution = solution_with_row(&[Command::Skip, Command::In, Command::One]);
    let puzzle = Puzzle::new(vec![], vec![1]).unwrap();
    let mut vm = VirtualMachine::new(solution, 0, puzzle);
    assert_eq!(vm.step(), Ok(false));
    // The In cell is skipped, so no NoInputs error occurs.
    assert_eq!(vm.step(), Ok(false));
    assert_eq!(vm.step(), Ok(false));
    assert_eq!(vm.processor_0().get_stack().peek(), Some(1));
}

#[test]
fn solved_vm_does_not_advance_cycle() {
    let solution = solution_with_row(&[]);
    let puzzle = Puzzle::new(vec![], vec![]).unwrap();
    let mut vm = VirtualMachine::new(solution, 0, puzzle);
    assert_eq!(vm.step(), Ok(true));
    assert_eq!(vm.step(), Ok(true));
    assert_eq!(vm.get_cycle(), 0);
}

#[test]
fn vm_reports_shape_and_symbols() {
    let solution = solution_with_row(&[Command::One, Command::Two]);
    let puzzle = Puzzle::new(vec![], vec![12]).unwrap();
    let vm = VirtualMachine::new(solution, 3, puzzle);
    assert_eq!(vm.rows(), 10);
    assert_eq!(vm.cols(), 10);
    assert_eq!(vm.count_symbols(), 2);
    assert_eq!(vm.get_test_case(), 3);
    assert!(!vm.is_parallel());
}

#[test]
fn vm_breakpoint_pauses_only_unskipped_cells() {
    let solution = solution_with_row(&[Command::Empty, Command::Empty]);
    let puzzle = Puzzle::new(vec![], vec![1]).unwrap();
    let mut vm = VirtualMachine::new(solution, 0, puzzle);
    assert!(!vm.is_at_breakpoint());
    vm.toggle_breakpoint(0, 0);
    assert!(vm.is_at_breakpoint());
    vm.toggle_breakpoint(0, 0);
    assert!(!vm.is_at_breakpoint());
}
