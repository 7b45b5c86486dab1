use rdma_ring_buffer::cursor;
use rdma_ring_buffer::cursor::Window;

#[test]
fn free_slots_follow_the_cursors() {
    assert_eq!(cursor::free_slots_of(0, 0, 8), 8);
    assert_eq!(cursor::free_slots_of(0, 8, 8), 0);
    assert_eq!(cursor::free_slots_of(5, 7, 8), 6);
    // The tail has wrapped and the head has not.
    assert_eq!(cursor::free_slots_of(usize::MAX, 1, 8), 6);
    // Cursors that claim more than the ring holds leave nothing free.
    assert_eq!(cursor::free_slots_of(0, 9, 8), 0);
    assert_eq!(cursor::free_slots_of(1, 0, 8), 0);
}

#[test]
fn writable_is_clamped_to_the_end() {
    assert_eq!(cursor::writable_at(0, 0, 8), 8);
    assert_eq!(cursor::writable_at(0, 6, 8), 2);
    assert_eq!(cursor::writable_at(6, 6, 8), 2);
    assert_eq!(cursor::writable_at(3, 10, 8), 1);
    assert_eq!(cursor::writable_at(0, 4, 3), 0);
    assert_eq!(cursor::writable_at(4, 4, 3), 2);
}

#[test]
fn readable_is_clamped_to_the_end() {
    assert_eq!(cursor::readable_at(0, 0, 8), 0);
    assert_eq!(cursor::readable_at(0, 5, 8), 5);
    assert_eq!(cursor::readable_at(6, 10, 8), 2);
    assert_eq!(cursor::readable_at(8, 10, 8), 2);
    assert_eq!(cursor::readable_at(usize::MAX, 2, 8), 1);
}

#[test]
fn reserve_grants_up_to_writable() {
    assert_eq!(cursor::reserve(0, 6, 8, 2), Some(Window { start: 6, end: 8 }));
    assert_eq!(cursor::reserve(0, 6, 8, 3), None);
    assert_eq!(cursor::reserve(0, 6, 8, 4), None);
    assert_eq!(cursor::reserve(0, 8, 8, 0), Some(Window { start: 8, end: 8 }));
    assert_eq!(cursor::reserve(0, 8, 8, 1), None);
    assert_eq!(cursor::reserve(usize::MAX - 3, usize::MAX, 16, 1), Some(Window { start: usize::MAX, end: 0 }));
}

#[test]
fn read_exact_grants_up_to_readable() {
    assert_eq!(cursor::read_exact(0, 4, 4, 4), Some(Window { start: 0, end: 4 }));
    assert_eq!(cursor::read_exact(0, 4, 4, 5), None);
    assert_eq!(cursor::read_exact(2, 2, 4, 0), Some(Window { start: 2, end: 2 }));
    assert_eq!(cursor::read_exact(2, 2, 4, 1), None);
    assert_eq!(cursor::read_exact(3, 6, 4, 2), None);
    assert_eq!(cursor::read_exact(3, 6, 4, 1), Some(Window { start: 3, end: 4 }));
}

#[test]
fn read_available_takes_what_is_in_one_piece() {
    assert_eq!(cursor::read_available(5, 5, 8), Window { start: 5, end: 5 });
    assert_eq!(cursor::read_available(6, 11, 8), Window { start: 6, end: 8 });
    assert_eq!(cursor::read_available(8, 11, 8), Window { start: 8, end: 11 });
}

#[test]
fn windows_measure_in_the_word() {
    let window = Window { start: usize::MAX - 1, end: 2 };
    assert_eq!(window.len(), 4);
    assert!(!window.is_empty());
    assert_eq!(window.offset(16), 14);
    let empty = Window { start: 9, end: 9 };
    assert_eq!(empty.len(), 0);
    assert!(empty.is_empty());
    assert_eq!(empty.offset(8), 1);
}

#[test]
fn copies_are_cut_to_the_free_space() {
    assert_eq!(cursor::copyable_of(0, 0, 8, 3), 3);
    assert_eq!(cursor::copyable_of(0, 6, 8, 3), 2);
    assert_eq!(cursor::copyable_of(0, 8, 8, 3), 0);
    assert_eq!(cursor::copyable_of(0, 0, 8, 0), 0);
    assert_eq!(cursor::first_segment(6, 8, 5), 2);
    assert_eq!(cursor::first_segment(6, 8, 2), 2);
    assert_eq!(cursor::first_segment(6, 8, 1), 1);
    assert_eq!(cursor::first_segment(8, 8, 8), 8);
}

#[test]
fn copies_are_placed_element_by_element() {
    let data = [10u64, 11, 12, 13, 14];
    // The tail names slot 6 of 8: two elements go to the end, the others to the
    // start.
    assert_eq!(cursor::placement(6, 8, &data, 0), (6, 10));
    assert_eq!(cursor::placement(6, 8, &data, 1), (7, 11));
    assert_eq!(cursor::placement(6, 8, &data, 2), (0, 12));
    assert_eq!(cursor::placement(6, 8, &data, 4), (2, 14));
    assert_eq!(cursor::placement(16, 8, &data, 3), (3, 13));
    assert_eq!(cursor::placement(usize::MAX, 16, &data, 1), (0, 11));
    let window = Window { start: 13, end: 16 };
    assert_eq!(window.slot(8, 0), 5);
    assert_eq!(window.slot(8, 2), 7);
    assert_eq!(window.placement(8, &data, 1), (6, 11));
}
