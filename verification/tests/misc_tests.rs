use funge_core::{Command, Direction, LevelIndex, LevelType, Speed, VMError};

#[test]
fn level_index_new_carries_its_parts() {
    let i = LevelIndex::new(2, 3, 4);
    assert_eq!(i.get_level_pack_index(), 2);
    assert_eq!(i.get_group(), 3);
    assert_eq!(i.get_level_in_group(), 4);
    assert_eq!(i.get_challenge(), None);
}

#[test]
fn level_index_new_challenge_carries_the_challenge() {
    let i = LevelIndex::new_challenge(1, 2, 3, 4);
    assert_eq!(i.get_challenge(), Some(4));
}

#[test]
fn level_defaults() {
    assert_eq!(LevelType::default(), LevelType::Standard);
    let i = LevelIndex::default();
    assert_eq!(i.get_level_pack_index(), 0);
    assert_eq!(i.get_challenge(), None);
}

#[test]
fn speed_num_steps_stays_in_band() {
    assert_eq!(Speed::Paused.num_steps(), 0);
    assert_eq!(Speed::Slow.num_steps(), 1);
    for _ in 0..20 {
        assert!((4..=8).contains(&Speed::Normal.num_steps()));
        assert!((20..=30).contains(&Speed::Fast.num_steps()));
        assert!((90..=110).contains(&Speed::ExtremelyFast.num_steps()));
        assert!((900..=1100).contains(&Speed::Turbo.num_steps()));
        assert!((9000..=11000).contains(&Speed::SuperTurbo.num_steps()));
    }
}

#[test]
fn vm_error_messages() {
    assert_eq!(VMError::NumericOverflow.get_msg(), "Numeric overflow");
    assert_eq!(VMError::StackOverflow.get_msg(), "Stack overflow");
    assert_eq!(VMError::StackUnderflow.get_msg(), "Stack underflow");
    assert_eq!(VMError::NoInputs.get_msg(), "No inputs left");
    assert_eq!(VMError::TooManyOutputs.get_msg(), "Too many outputs");
    assert_eq!(VMError::Deadlock.get_msg(), "Deadlock");
}

#[test]
fn command_glyphs_are_stable() {
    assert_eq!(Command::Empty.get_char(), ' ');
    assert_eq!(Command::Add.get_char(), '+');
    assert_eq!(Command::BackSlash.get_char(), '\\');
    assert_eq!(Command::Nine.get_char(), '9');
    assert_eq!(Command::default(), Command::Empty);
}

#[test]
fn direction_arrows_are_distinct() {
    let arrows = [
        Direction::Up.get_arrow(),
        Direction::Down.get_arrow(),
        Direction::Left.get_arrow(),
        Direction::Right.get_arrow(),
    ];
    for i in 0..4 {
        for j in (i + 1)..4 {
            assert_ne!(arrows[i], arrows[j]);
        }
    }
}
