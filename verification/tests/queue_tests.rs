use funge_core::PuzzleIO;

#[test]
fn queue_reads_in_write_order() {
    let mut q = PuzzleIO::new(15);
    assert!(q.write(1));
    assert!(q.write(2));
    assert!(q.write(3));
    assert_eq!(q.read(), Some(1));
    assert_eq!(q.read(), Some(2));
    assert_eq!(q.read(), Some(3));
    assert_eq!(q.read(), None);
}

#[test]
fn queue_write_fails_at_capacity() {
    let mut q = PuzzleIO::new(2);
    assert!(q.write(1));
    assert!(q.write(2));
    assert!(!q.write(3));
    assert_eq!(q.len(), 2);
}

#[test]
fn queue_can_read_tracks_emptiness() {
    let mut q = PuzzleIO::new(4);
    assert!(!q.can_read());
    q.write(9);
    assert!(q.can_read());
    q.read();
    assert!(!q.can_read());
}

#[test]
fn queue_get_and_eq_values() {
    let mut a = PuzzleIO::new(8);
    let mut b = PuzzleIO::new(15);
    for v in [4, 5, 6] {
        a.write(v);
        b.write(v);
    }
    assert_eq!(a.get(0), 4);
    assert_eq!(a.get(2), 6);
    assert!(a.eq_values(&b));
    b.write(7);
    assert!(!a.eq_values(&b));
}

#[test]
fn queue_clone_is_exact() {
    let mut q = PuzzleIO::new(8);
    q.write(-3);
    q.write(12);
    let c = q.clone_queue();
    assert!(q.eq_values(&c));
    assert_eq!(c.capacity(), 8);
}

#[test]
fn queue_new_random_respects_bounds() {
    for _ in 0..50 {
        let q = PuzzleIO::new_random(8);
        assert!(q.len() <= 10);
        assert!(q.len() <= 8);
        assert_eq!(q.capacity(), 8);
        for i in 0..q.len() {
            let v = q.get(i);
            assert!((-999..=999).contains(&v));
        }
    }
}
