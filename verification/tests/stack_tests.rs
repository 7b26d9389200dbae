use funge_core::Stack;

#[test]
fn stack_pops_in_reverse_push_order() {
    let mut s = Stack::new(15);
    assert!(s.push(1));
    assert!(s.push(2));
    assert!(s.push(3));
    assert_eq!(s.pop(), Some(3));
    assert_eq!(s.pop(), Some(2));
    assert_eq!(s.pop(), Some(1));
    assert_eq!(s.pop(), None);
}

#[test]
fn stack_rotate_up_then_down_restores_order() {
    let mut s = Stack::new(8);
    s.push(10);
    s.push(20);
    s.push(30);
    s.rotate_up();
    s.rotate_down();
    assert_eq!(s.pop(), Some(30));
    assert_eq!(s.pop(), Some(20));
    assert_eq!(s.pop(), Some(10));
}

#[test]
fn stack_rotate_down_then_up_restores_order() {
    let mut s = Stack::new(8);
    s.push(10);
    s.push(20);
    s.push(30);
    s.rotate_down();
    s.rotate_up();
    assert_eq!(s.pop(), Some(30));
    assert_eq!(s.pop(), Some(20));
    assert_eq!(s.pop(), Some(10));
}

#[test]
fn stack_rotate_up_moves_bottom_to_top() {
    let mut s = Stack::new(8);
    s.push(1);
    s.push(2);
    s.push(3);
    s.rotate_up();
    assert_eq!(s.pop(), Some(1));
    assert_eq!(s.pop(), Some(3));
    assert_eq!(s.pop(), Some(2));
}

#[test]
fn stack_rotate_on_empty_stack_is_noop() {
    let mut s = Stack::new(8);
    s.rotate_up();
    s.rotate_down();
    assert!(s.is_empty());
}

#[test]
fn stack_push_fails_at_capacity() {
    let mut s = Stack::new(2);
    assert!(s.push(1));
    assert!(s.push(2));
    assert!(!s.push(3));
    assert_eq!(s.len(), 2);
    assert_eq!(s.peek(), Some(2));
}

#[test]
fn stack_push_clamps_to_range() {
    let mut s = Stack::new(8);
    s.push(5000);
    s.push(-5000);
    assert_eq!(s.pop(), Some(-999));
    assert_eq!(s.pop(), Some(999));
}

#[test]
fn stack_peek_leaves_stack_unchanged() {
    let mut s = Stack::new(8);
    assert_eq!(s.peek(), None);
    s.push(7);
    assert_eq!(s.peek(), Some(7));
    assert_eq!(s.len(), 1);
    assert_eq!(s.capacity(), 8);
}
