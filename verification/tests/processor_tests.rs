use funge_core::{Command, Processor, ProcessorIO, Program, VMError};

fn processor_with(stack_capacity: usize) -> Processor {
    let program = Program::new(10, 10);
    let io = ProcessorIO::new(vec![], vec![], 15).unwrap();
    Processor::new(program, io, stack_capacity)
}

#[test]
fn push_out_of_range_fails_and_leaves_stack_unchanged() {
    let mut p = processor_with(15);
    assert_eq!(p.push(5), Ok(()));
    assert_eq!(p.push(1000), Err(VMError::NumericOverflow));
    assert_eq!(p.push(-1000), Err(VMError::NumericOverflow));
    assert_eq!(p.get_stack().len(), 1);
    assert_eq!(p.get_stack().peek(), Some(5));
}

#[test]
fn push_boundary_values_succeed() {
    let mut p = processor_with(15);
    assert_eq!(p.push(999), Ok(()));
    assert_eq!(p.push(-999), Ok(()));
    assert_eq!(p.get_stack().len(), 2);
}

#[test]
fn push_onto_full_stack_fails_with_stack_overflow() {
    let mut p = processor_with(2);
    assert_eq!(p.push(1), Ok(()));
    assert_eq!(p.push(2), Ok(()));
    assert_eq!(p.push(3), Err(VMError::StackOverflow));
    assert_eq!(p.get_stack().len(), 2);
}

#[test]
fn pop_and_peek_on_empty_stack_underflow() {
    let mut p = processor_with(8);
    assert_eq!(p.pop(), Err(VMError::StackUnderflow));
    assert_eq!(p.peek(), Err(VMError::StackUnderflow));
    p.push(42).unwrap();
    assert_eq!(p.peek(), Ok(42));
    assert_eq!(p.pop(), Ok(42));
}

#[test]
fn processor_starts_at_program_start_cell() {
    let mut program = Program::new(10, 10);
    program.set_start(2, 5);
    let io = ProcessorIO::new(vec![7], vec![7], 15).unwrap();
    let p = Processor::new(program, io, 15);
    assert_eq!((p.row(), p.col()), (2, 5));
    assert_eq!(p.get_inputs().len(), 1);
    assert_eq!(p.get_expected_outputs().get(0), 7);
    assert_eq!(p.get_outputs().len(), 0);
    assert!(!p.skip_next());
    assert_eq!(p.current_command(), Command::Empty);
}

#[test]
fn processor_breakpoint_respects_skip() {
    let mut program = Program::new(4, 4);
    program.toggle_breakpoint(0, 0);
    let io = ProcessorIO::new(vec![], vec![], 15).unwrap();
    let mut p = Processor::new(program, io, 15);
    assert!(p.is_at_breakpoint());
    p.toggle_breakpoint(0, 0);
    assert!(!p.is_at_breakpoint());
}
