use funge_core::{ProcessorIO, Puzzle, PuzzleError};

#[test]
fn puzzle_new_accepts_valid_values() {
    let p = Puzzle::new(vec![5, -3], vec![5, -3]).unwrap();
    assert!(!p.is_parallel());
    assert_eq!(p.get_inputs().len(), 2);
    assert_eq!(p.get_inputs().get(0), 5);
    assert_eq!(p.get_inputs().get(1), -3);
    assert_eq!(p.get_outputs().len(), 2);
}

#[test]
fn puzzle_new_rejects_too_many_inputs() {
    let inputs: Vec<i16> = (0..16).collect::<Vec<i32>>().iter().map(|v| *v as i16).collect();
    let e = Puzzle::new(inputs, vec![]).unwrap_err();
    assert_eq!(e, PuzzleError::TooManyInputs);
}

#[test]
fn puzzle_new_rejects_too_many_outputs() {
    let outputs: Vec<i16> = (0..16).collect::<Vec<i32>>().iter().map(|v| *v as i16).collect();
    let e = Puzzle::new(vec![], outputs).unwrap_err();
    assert_eq!(e, PuzzleError::TooManyOutputs);
}

#[test]
fn puzzle_new_rejects_input_out_of_range() {
    let e = Puzzle::new(vec![1000], vec![]).unwrap_err();
    assert_eq!(e, PuzzleError::InputOutOfRange);
    let e = Puzzle::new(vec![-1000], vec![]).unwrap_err();
    assert_eq!(e, PuzzleError::InputOutOfRange);
}

#[test]
fn puzzle_new_rejects_output_out_of_range() {
    let e = Puzzle::new(vec![1], vec![-1000]).unwrap_err();
    assert_eq!(e, PuzzleError::OutputOutOfRange);
}

#[test]
fn puzzle_new_accepts_boundary_values() {
    assert!(Puzzle::new(vec![999, -999], vec![999, -999]).is_ok());
}

#[test]
fn processor_io_validates_against_given_capacity() {
    assert!(ProcessorIO::new(vec![1; 8], vec![2; 8], 8).is_ok());
    let e = ProcessorIO::new(vec![1; 9], vec![], 8).unwrap_err();
    assert_eq!(e, PuzzleError::TooManyInputs);
}

#[test]
fn parallel_puzzle_round_trips_processor_ios() {
    let p0 = ProcessorIO::new(vec![1], vec![2], 8).unwrap();
    let p1 = ProcessorIO::new(vec![3], vec![4], 8).unwrap();
    let p = Puzzle::new_parallel(p0, p1);
    assert!(p.is_parallel());
    let (a, b) = p.into_processor_ios();
    assert_eq!(a.get_inputs().get(0), 1);
    assert_eq!(b.get_inputs().get(0), 3);
}

#[test]
fn puzzle_error_messages_name_the_cause() {
    assert_eq!(PuzzleError::TooManyInputs.get_msg(), "Too many input values");
    assert_eq!(PuzzleError::InputOutOfRange.get_msg(), "Input outside range [-999,999]");
}
