use funge_core::{Command, Grid};

#[test]
fn grid_new_is_empty() {
    let g = Grid::new(8, 10);
    assert_eq!(g.rows(), 8);
    assert_eq!(g.cols(), 10);
    assert_eq!(g.count_symbols(), 0);
    assert_eq!(g.get_value(0, 0), Command::Empty);
    assert!(!g.has_breakpoint(0, 0));
}

#[test]
fn grid_set_and_get_value() {
    let mut g = Grid::new(4, 4);
    g.set_value(1, 2, Command::Add);
    assert_eq!(g.get_value(1, 2), Command::Add);
    assert_eq!(g.get_value(2, 1), Command::Empty);
    assert_eq!(g.count_symbols(), 1);
}

#[test]
fn grid_count_symbols_counts_non_empty_cells() {
    let mut g = Grid::new(3, 3);
    g.set_value(0, 0, Command::One);
    g.set_value(1, 1, Command::Out);
    g.set_value(2, 2, Command::In);
    g.set_value(2, 2, Command::Empty);
    assert_eq!(g.count_symbols(), 2);
}

#[test]
fn breakpoint_double_toggle_is_identity() {
    let mut g = Grid::new(5, 5);
    g.toggle_breakpoint(2, 3);
    assert!(g.has_breakpoint(2, 3));
    g.toggle_breakpoint(2, 3);
    assert!(!g.has_breakpoint(2, 3));
}

#[test]
fn breakpoint_toggle_affects_only_target_cell() {
    let mut g = Grid::new(5, 5);
    g.toggle_breakpoint(1, 1);
    for r in 0..5 {
        for c in 0..5 {
            assert_eq!(g.has_breakpoint(r, c), r == 1 && c == 1);
        }
    }
}

#[test]
fn breakpoint_out_of_bounds_reports_none() {
    let g = Grid::new(3, 3);
    assert!(!g.has_breakpoint(7, 7));
}
