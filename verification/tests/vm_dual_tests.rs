use funge_core::{Command, ProcessorIO, Puzzle, SendStatus, Solution, VMError, VirtualMachine};

fn empty_io() -> ProcessorIO {
    ProcessorIO::new(vec![], vec![1], 8).unwrap()
}

fn dual_vm(p0_row: &[Command], p1_row: &[Command]) -> VirtualMachine {
    let mut s = Solution::new("dual".to_owned());
    for (i, c) in p0_row.iter().enumerate() {
        s.program_0().set_grid_value(0, i, *c);
    }
    for (i, c) in p1_row.iter().enumerate() {
        s.program_1().set_grid_value(0, i, *c);
    }
    let puzzle = Puzzle::new_parallel(empty_io(), empty_io());
    VirtualMachine::new(s, 0, puzzle)
}

#[test]
fn facing_transmits_deadlock() {
    let mut vm = dual_vm(&[Command::Transmit], &[Command::Transmit]);
    assert_eq!(vm.step(), Err((VMError::Deadlock, 0)));
}

#[test]
fn facing_receives_deadlock() {
    let mut vm = dual_vm(&[Command::Receive], &[Command::Receive]);
    assert_eq!(vm.step(), Err((VMError::Deadlock, 0)));
}

#[test]
fn rendezvous_moves_value_to_receiver() {
    // Processor 0 pushes 7 and then transmits; processor 1 receives.  On
    // the cycle where both face each other the value crosses and both
    // pointers advance.
    let mut vm = dual_vm(&[Command::Seven, Command::Transmit], &[Command::Receive]);

    // Cycle 1: processor 0 pushes 7; processor 1 blocks (no sender yet).
    assert_eq!(vm.step(), Ok(false));
    assert_eq!(vm.processor_1().col(), 0);

    // Cycle 2: processor 0 is transmitting, processor 1 receiving: the 7
    // crosses, and both pointers advance.
    assert_eq!(vm.step(), Ok(false));
    assert_eq!(vm.processor_1().get_stack().peek(), Some(7));
    assert_eq!(vm.processor_0().get_stack().len(), 0);
    assert_eq!(vm.processor_0().col(), 2);
    assert_eq!(vm.processor_1().col(), 1);
}

#[test]
fn blocking_transmit_waits_for_partner() {
    let mut vm = dual_vm(&[Command::One, Command::Transmit], &[Command::Empty]);
    assert_eq!(vm.step(), Ok(false));
    // The transmit blocks: the pointer stays on the transmit cell.
    assert_eq!(vm.step(), Ok(false));
    assert_eq!(vm.processor_0().col(), 1);
    assert_eq!(vm.step(), Ok(false));
    assert_eq!(vm.processor_0().col(), 1);
}

#[test]
fn try_transmit_without_partner_skips_and_advances() {
    let mut vm = dual_vm(
        &[Command::TryTransmit, Command::One, Command::Two],
        &[Command::Empty],
    );

    // Cycle 1: no partner is ready, so the sender marks the next cell
    // skipped, completes, and still advances.
    assert_eq!(vm.step(), Ok(false));
    assert!(vm.processor_0().skip_next());
    assert_eq!(vm.processor_0().col(), 1);
    assert_eq!(vm.processor_0().get_send_status(), SendStatus::Completed);

    // Cycle 2: the digit under the pointer is skipped, the pointer moves on.
    assert_eq!(vm.step(), Ok(false));
    assert_eq!(vm.processor_0().get_stack().len(), 0);
    assert_eq!(vm.processor_0().col(), 2);

    // Cycle 3: the next digit executes normally.
    assert_eq!(vm.step(), Ok(false));
    assert_eq!(vm.processor_0().get_stack().peek(), Some(2));
}

#[test]
fn try_receive_with_sender_takes_value() {
    let mut vm = dual_vm(
        &[Command::Five, Command::Transmit],
        &[Command::Empty, Command::TryReceive],
    );
    // Cycle 1: processor 0 pushes 5; processor 1 passes an empty cell.
    assert_eq!(vm.step(), Ok(false));
    // Cycle 2: processor 0 blocks transmitting; processor 1 try-receives
    // from the waiting sender.
    assert_eq!(vm.step(), Ok(false));
    assert_eq!(vm.processor_1().get_stack().peek(), Some(5));
}

#[test]
fn dual_vm_reports_both_processors() {
    let vm = dual_vm(&[Command::One], &[Command::Two, Command::Three]);
    assert!(vm.is_parallel());
    assert_eq!(vm.count_symbols(), 3);
}

#[test]
fn dual_solution_solves_when_both_match() {
    // Processor 0 reads its input and writes it out; processor 1 has
    // nothing to do.
    let mut s = Solution::new("copy".to_owned());
    s.program_0().set_grid_value(0, 0, Command::In);
    s.program_0().set_grid_value(0, 1, Command::Out);
    let p0 = ProcessorIO::new(vec![9], vec![9], 8).unwrap();
    let p1 = ProcessorIO::new(vec![], vec![], 8).unwrap();
    let mut vm = VirtualMachine::new(s, 0, Puzzle::new_parallel(p0, p1));

    assert_eq!(vm.step(), Ok(false));
    assert_eq!(vm.step(), Ok(false));
    assert_eq!(vm.step(), Ok(true));
    assert_eq!(vm.get_cycle(), 2);
}
