use shared_buffer::buffer::{read_at, write_at};

#[test]
fn write_then_read_round_trip() {
    let mut buf: Vec<u8> = Vec::new();
    let src = vec![1u8, 2, 3, 4, 5];
    let n = write_at(&mut buf, 0, &src);
    assert_eq!(n, 5);
    let out = read_at(&buf, 0, 10);
    assert_eq!(out, vec![1u8, 2, 3, 4, 5]);
}

#[test]
fn write_past_end_grows_with_zero_fill() {
    let mut buf = vec![1u8, 2, 3, 4, 5];
    let n = write_at(&mut buf, 10, &vec![7u8, 8, 9]);
    assert_eq!(n, 3);
    assert_eq!(buf.len(), 13);
    assert_eq!(&buf[5..10], &[0u8, 0, 0, 0, 0]);
    assert_eq!(&buf[10..13], &[7u8, 8, 9]);
    assert_eq!(&buf[0..5], &[1u8, 2, 3, 4, 5]);
}

#[test]
fn growth_is_exactly_max_of_old_length_and_write_end() {
    let mut buf = vec![9u8; 8];
    // Write entirely inside the existing bytes: no growth.
    write_at(&mut buf, 2, &vec![1u8, 2]);
    assert_eq!(buf.len(), 8);
    // Write ending past the old end: grows to offset + n exactly.
    write_at(&mut buf, 6, &vec![1u8, 2, 3]);
    assert_eq!(buf.len(), 9);
    // A later shorter write never shrinks the buffer.
    write_at(&mut buf, 0, &vec![4u8]);
    assert_eq!(buf.len(), 9);
}

#[test]
fn empty_write_beyond_end_still_grows_to_offset() {
    let mut buf: Vec<u8> = Vec::new();
    let n = write_at(&mut buf, 5, &Vec::new());
    assert_eq!(n, 0);
    assert_eq!(buf, vec![0u8, 0, 0, 0, 0]);
}

#[test]
fn empty_write_at_start_leaves_empty_buffer() {
    let mut buf: Vec<u8> = Vec::new();
    let n = write_at(&mut buf, 0, &Vec::new());
    assert_eq!(n, 0);
    assert_eq!(buf.len(), 0);
}

#[test]
fn overwrite_replaces_bytes_in_place() {
    let mut buf = vec![1u8, 2, 3, 4, 5];
    write_at(&mut buf, 1, &vec![9u8, 8]);
    assert_eq!(buf, vec![1u8, 9, 8, 4, 5]);
}

#[test]
fn read_truncates_to_available_bytes() {
    let buf = vec![10u8, 11, 12, 13];
    assert_eq!(read_at(&buf, 0, 2), vec![10u8, 11]);
    assert_eq!(read_at(&buf, 2, 100), vec![12u8, 13]);
    assert_eq!(read_at(&buf, 0, 4), vec![10u8, 11, 12, 13]);
}

#[test]
fn read_at_or_past_end_returns_no_bytes() {
    let buf = vec![10u8, 11, 12];
    assert_eq!(read_at(&buf, 3, 5).len(), 0);
    assert_eq!(read_at(&buf, 100, 5).len(), 0);
}

#[test]
fn read_with_zero_capacity_returns_no_bytes() {
    let buf = vec![10u8, 11, 12];
    assert_eq!(read_at(&buf, 1, 0).len(), 0);
}

#[test]
fn read_leaves_source_unmodified() {
    let buf = vec![10u8, 11, 12];
    let copy = buf.clone();
    read_at(&buf, 0, 3);
    assert_eq!(buf, copy);
}

#[test]
fn disjoint_writes_agree_in_either_order() {
    let low = vec![1u8, 2, 3, 4];
    let high = vec![5u8, 6, 7, 8];

    let mut first = Vec::new();
    write_at(&mut first, 0, &low);
    write_at(&mut first, 100, &high);

    let mut second = Vec::new();
    write_at(&mut second, 100, &high);
    write_at(&mut second, 0, &low);

    assert_eq!(first, second);
    assert_eq!(&first[0..4], &[1u8, 2, 3, 4]);
    assert_eq!(&first[100..104], &[5u8, 6, 7, 8]);
    assert_eq!(first.len(), 104);
    // Everything between the two ranges is zero fill, untouched by either.
    assert!(first[4..100].iter().all(|b| *b == 0));
}
