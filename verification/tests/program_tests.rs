use funge_core::{Command, Program, Solution};

#[test]
fn solution_new_names_and_blank_programs() {
    let s = Solution::new("My Solution".to_owned());
    assert_eq!(s.name().as_str(), "My Solution");
    assert_eq!(s.rows(), 10);
    assert_eq!(s.cols(), 10);
    assert_eq!(s.symbols_used(), 0);
    assert_eq!((s.start_row(), s.start_col()), (0, 0));
}

#[test]
fn solution_rename_changes_only_the_name() {
    let mut s = Solution::new("a".to_owned());
    s.set_grid_value(1, 1, Command::Add);
    s.rename("b".to_owned());
    assert_eq!(s.name().as_str(), "b");
    assert_eq!(s.symbols_used(), 1);
}

#[test]
fn solution_symbols_used_counts_both_programs() {
    let mut s = Solution::new("c".to_owned());
    s.program_0().set_grid_value(0, 0, Command::One);
    s.program_1().set_grid_value(0, 0, Command::Two);
    s.program_1().set_grid_value(0, 1, Command::Three);
    assert_eq!(s.symbols_used(), 3);
}

#[test]
fn solution_set_start_moves_the_start_cell() {
    let mut s = Solution::new("d".to_owned());
    s.set_start(4, 7);
    assert_eq!((s.start_row(), s.start_col()), (4, 7));
}

#[test]
fn solution_into_programs_and_grid() {
    let mut s = Solution::new("e".to_owned());
    s.set_grid_value(2, 3, Command::Out);
    let (p0, p1) = s.clone().into_programs();
    assert_eq!(p0.symbols_used(), 1);
    assert_eq!(p1.symbols_used(), 0);
    let g = s.into_grid();
    assert_eq!(g.get_value(2, 3), Command::Out);
}

#[test]
fn program_new_has_requested_shape() {
    let mut p = Program::new(8, 8);
    assert_eq!((p.rows(), p.cols()), (8, 8));
    p.set_grid_value(7, 7, Command::In);
    p.set_start(3, 3);
    p.toggle_breakpoint(1, 1);
    assert_eq!(p.symbols_used(), 1);
    assert_eq!((p.start_row(), p.start_col()), (3, 3));
    let g = p.into_grid();
    assert!(g.has_breakpoint(1, 1));
}

#[test]
fn solution_toggle_breakpoint_acts_on_first_program() {
    let mut s = Solution::new("f".to_owned());
    s.toggle_breakpoint(5, 5);
    s.toggle_breakpoint(5, 5);
    let g = s.into_grid();
    assert!(!g.has_breakpoint(5, 5));
}
