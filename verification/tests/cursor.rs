use render_cmds::{Cur, DecodeError};

#[test]
fn new_cursor_starts_at_zero() {
    let bytes = [1u8, 2, 3];
    let cur = Cur::new(&bytes);
    assert_eq!(cur.pos(), 0);
    assert_eq!(cur.bytes_remaining(), 3);
}

#[test]
fn next_u8_reads_in_order() {
    let bytes = [10u8, 20, 30];
    let mut cur = Cur::new(&bytes);
    assert_eq!(cur.next_u8(), Ok(10));
    assert_eq!(cur.next_u8(), Ok(20));
    assert_eq!(cur.pos(), 2);
    assert_eq!(cur.next_u8(), Ok(30));
    assert_eq!(cur.bytes_remaining(), 0);
}

#[test]
fn next_u8_at_end_fails_and_stays() {
    let bytes = [10u8];
    let mut cur = Cur::new(&bytes);
    assert_eq!(cur.next_u8(), Ok(10));
    assert_eq!(cur.next_u8(), Err(DecodeError::UnexpectedEndOfStream));
    assert_eq!(cur.pos(), 1);
    assert_eq!(cur.next_u8(), Err(DecodeError::UnexpectedEndOfStream));
    assert_eq!(cur.pos(), 1);
}

#[test]
fn next_u8_on_empty_buffer_fails() {
    let bytes: [u8; 0] = [];
    let mut cur = Cur::new(&bytes);
    assert_eq!(cur.next_u8(), Err(DecodeError::UnexpectedEndOfStream));
    assert_eq!(cur.pos(), 0);
}

#[test]
fn next_n_u8s_reads_a_block() {
    let bytes = [1u8, 2, 3, 4, 5];
    let mut cur = Cur::new(&bytes);
    assert_eq!(cur.next_u8(), Ok(1));
    let expected: &[u8] = &[2, 3, 4];
    assert_eq!(cur.next_n_u8s(3), Ok(expected));
    assert_eq!(cur.pos(), 4);
    assert_eq!(cur.bytes_remaining(), 1);
}

#[test]
fn next_n_u8s_of_zero_bytes_always_succeeds() {
    let bytes = [7u8];
    let mut cur = Cur::new(&bytes);
    let nothing: &[u8] = &[];
    assert_eq!(cur.next_n_u8s(0), Ok(nothing));
    assert_eq!(cur.pos(), 0);
    assert_eq!(cur.next_u8(), Ok(7));
    assert_eq!(cur.next_n_u8s(0), Ok(nothing));
    assert_eq!(cur.pos(), 1);
}

#[test]
fn next_n_u8s_past_end_fails_and_stays() {
    let bytes = [1u8, 2, 3];
    let mut cur = Cur::new(&bytes);
    assert_eq!(cur.next_u8(), Ok(1));
    assert_eq!(cur.next_n_u8s(3), Err(DecodeError::UnexpectedEndOfStream));
    assert_eq!(cur.pos(), 1);
    let expected: &[u8] = &[2, 3];
    assert_eq!(cur.next_n_u8s(2), Ok(expected));
    assert_eq!(cur.pos(), 3);
}

#[test]
fn next_n_u8s_with_huge_count_fails() {
    let bytes = [1u8, 2, 3];
    let mut cur = Cur::new(&bytes);
    assert_eq!(cur.next_u8(), Ok(1));
    assert_eq!(cur.next_n_u8s(usize::MAX), Err(DecodeError::UnexpectedEndOfStream));
    assert_eq!(cur.pos(), 1);
}

#[test]
fn peek_does_not_advance() {
    let bytes = [1u8, 2, 3];
    let mut cur = Cur::new(&bytes);
    let expected: &[u8] = &[1, 2];
    assert_eq!(cur.peek_n_u8s(2), Ok(expected));
    assert_eq!(cur.pos(), 0);
    assert_eq!(cur.peek_n_u8s(2), Ok(expected));
    assert_eq!(cur.next_u8(), Ok(1));
    let after: &[u8] = &[2, 3];
    assert_eq!(cur.peek_n_u8s(2), Ok(after));
    assert_eq!(cur.pos(), 1);
}

#[test]
fn peek_past_end_fails() {
    let bytes = [1u8, 2, 3];
    let cur = Cur::new(&bytes);
    assert_eq!(cur.peek_n_u8s(4), Err(DecodeError::UnexpectedEndOfStream));
    assert_eq!(cur.pos(), 0);
}

#[test]
fn a_copy_of_a_cursor_moves_on_its_own() {
    let bytes = [1u8, 2, 3];
    let mut cur = Cur::new(&bytes);
    assert_eq!(cur.next_u8(), Ok(1));
    let mut copy = cur;
    assert_eq!(copy.next_u8(), Ok(2));
    assert_eq!(copy.pos(), 2);
    assert_eq!(cur.pos(), 1);
    assert_eq!(cur.next_u8(), Ok(2));
}
