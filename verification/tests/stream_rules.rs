use assethook::stream::{read_length, seek_position, whence_cur, whence_end, whence_set};

#[test]
fn whence_values_are_libc_values() {
    assert_eq!(whence_set(), libc::SEEK_SET);
    assert_eq!(whence_cur(), libc::SEEK_CUR);
    assert_eq!(whence_end(), libc::SEEK_END);
    assert_eq!(whence_set(), 0);
    assert_eq!(whence_cur(), 1);
    assert_eq!(whence_end(), 2);
}

#[test]
fn seek_set_moves_anywhere_non_negative() {
    assert_eq!(seek_position(10, 3, 7, 0), Some(7));
    assert_eq!(seek_position(10, 3, 0, 0), Some(0));
    assert_eq!(seek_position(10, 3, 25, 0), Some(25));
    assert_eq!(seek_position(10, 3, -1, 0), None);
}

#[test]
fn seek_cur_moves_relative_to_cursor() {
    assert_eq!(seek_position(10, 3, 4, 1), Some(7));
    assert_eq!(seek_position(10, 3, -3, 1), Some(0));
    assert_eq!(seek_position(10, 3, -4, 1), None);
    assert_eq!(seek_position(10, 3, 0, 1), Some(3));
    assert_eq!(seek_position(10, usize::MAX - 1, 2, 1), None);
    assert_eq!(seek_position(10, usize::MAX - 1, 1, 1), Some(usize::MAX));
}

#[test]
fn seek_end_moves_back_from_end() {
    assert_eq!(seek_position(10, 3, 0, 2), Some(10));
    assert_eq!(seek_position(10, 3, -10, 2), Some(0));
    assert_eq!(seek_position(10, 3, -11, 2), None);
    assert_eq!(seek_position(10, 3, 1, 2), None);
    assert_eq!(seek_position(10, 3, i64::MAX, 2), None);
}

#[test]
fn seek_unknown_whence_is_refused() {
    assert_eq!(seek_position(10, 3, 1, 3), None);
    assert_eq!(seek_position(10, 3, 1, -1), None);
}

#[test]
fn read_length_is_bounded_by_what_is_left() {
    assert_eq!(read_length(10, 3, 4), 4);
    assert_eq!(read_length(10, 3, 7), 7);
    assert_eq!(read_length(10, 3, 100), 7);
    assert_eq!(read_length(10, 10, 5), 0);
    assert_eq!(read_length(10, 3, 0), 0);
    assert_eq!(read_length(0, 0, 5), 0);
}

#[test]
fn reads_concatenate_on_values() {
    let (size, pos) = (10usize, 2usize);
    let a = read_length(size, pos, 5);
    let b = read_length(size, pos + a, 5);
    assert_eq!(a + b, read_length(size, pos, 10));
    assert_eq!(a + b, 8);
}

#[test]
fn seek_forward_and_back_returns() {
    let p = seek_position(10, 3, 5, 1).unwrap();
    assert_eq!(seek_position(10, p, -5, 1), Some(3));
}
