use bf::result::Error;
use bf::state::State;

fn make(memory: &[u8], pointer: usize) -> State {
    State::with_memory(memory.to_vec(), pointer)
}

#[test]
fn right_moves_right() {
    let mut actual = make(&[0, 0, 0], 0);
    let expected = make(&[0, 0, 0], 1);

    actual.right(1).unwrap();

    assert_eq!(actual, expected);
}

#[test]
fn right_then_left_restores() {
    let mut actual = make(&[0, 0, 0], 0);
    let expected = make(&[0, 0, 0], 0);

    actual.right(1).unwrap();
    actual.left(1).unwrap();

    assert_eq!(actual, expected);
}

#[test]
fn up_goes_to_1() {
    let mut actual = make(&[0, 0, 0], 0);
    actual.up(1);
    assert_eq!(actual, make(&[1, 0, 0], 0))
}

#[test]
fn down_goes_to_255() {
    let mut actual = make(&[0, 0, 0], 0);
    actual.down(1);
    assert_eq!(actual, make(&[255, 0, 0], 0))
}

#[test]
fn load_reads() {
    assert_eq!(make(&[0, 0, 0], 0).load(), 0);
    assert_eq!(make(&[1, 0, 0], 0).load(), 1);
    assert_eq!(make(&[1, 2, 0], 1).load(), 2);
}

#[test]
fn store_writes() {
    let mut actual = make(&[0, 0, 0], 0);
    actual.store(5);
    assert_eq!(actual, make(&[5, 0, 0], 0));
    actual.right(1).unwrap();
    actual.store(8);
    assert_eq!(actual, make(&[5, 8, 0], 1));
}

#[test]
fn longer_sequence_of_actions() {
    let mut actual = make(&[0, 0, 0], 0);
    actual.up(1);
    assert_eq!(actual, make(&[1, 0, 0], 0));
    actual.up(1);
    assert_eq!(actual, make(&[2, 0, 0], 0));
    actual.right(1).unwrap();
    assert_eq!(actual, make(&[2, 0, 0], 1));
    actual.down(1);
    assert_eq!(actual, make(&[2, 255, 0], 1));
    actual.down(1);
    assert_eq!(actual, make(&[2, 254, 0], 1));
    actual.right(1).unwrap();
    assert_eq!(actual, make(&[2, 254, 0], 2));
    actual.store(77);
    assert_eq!(actual, make(&[2, 254, 77], 2));
}

#[test]
fn right_to_right_edge_is_okay() {
    let mut actual = make(&[0, 0, 0], 0);
    actual.right(1).unwrap();
    actual.right(1).unwrap();
    assert_eq!(actual, make(&[0, 0, 0], 2));
}

#[test]
#[should_panic]
fn right_past_edge_is_error() {
    let mut actual = make(&[0, 0, 0], 0);
    actual.right(1).unwrap();
    actual.right(1).unwrap();
    actual.right(1).unwrap();
}

#[test]
#[should_panic]
fn move_left_is_error() {
    let mut machine = make(&[0, 0, 0], 0);
    machine.left(1).unwrap();
}

#[test]
fn right_past_edge_reports_overflow_and_stays() {
    let mut actual = make(&[0, 0, 0], 2);
    assert_eq!(actual.right(1), Err(Error::PointerOverflow));
    assert_eq!(actual, make(&[0, 0, 0], 2));
}

#[test]
fn left_past_start_reports_underflow_and_stays() {
    let mut actual = make(&[0, 0, 0], 1);
    assert_eq!(actual.left(2), Err(Error::PointerUnderflow));
    assert_eq!(actual, make(&[0, 0, 0], 1));
}

#[test]
fn new_state_has_default_capacity_of_zeros() {
    let mut state = State::new();
    assert_eq!(state.load(), 0);
    assert_eq!(state.right(29999), Ok(()));
    assert_eq!(state.right(1), Err(Error::PointerOverflow));
    assert_eq!(State::with_capacity(4), make(&[0, 0, 0, 0], 0));
}

#[test]
fn up_wraps_past_255() {
    let mut actual = make(&[250, 0], 0);
    actual.up(10);
    assert_eq!(actual, make(&[4, 0], 0));
}

#[test]
fn down_wraps_below_zero_by_more_than_one() {
    let mut actual = make(&[3, 0], 1);
    actual.down(5);
    assert_eq!(actual, make(&[3, 251], 1));
}

#[test]
fn up_pos_offset_adds_at_right() {
    let mut actual = make(&[1, 2, 250], 0);
    assert_eq!(actual.up_pos_offset(2, 10), Ok(()));
    assert_eq!(actual, make(&[1, 2, 4], 0));
    assert_eq!(actual.up_pos_offset(3, 1), Err(Error::PointerOverflow));
    assert_eq!(actual, make(&[1, 2, 4], 0));
}

#[test]
fn up_neg_offset_adds_at_left() {
    let mut actual = make(&[7, 2, 3], 2);
    assert_eq!(actual.up_neg_offset(2, 3), Ok(()));
    assert_eq!(actual, make(&[10, 2, 3], 2));
    assert_eq!(actual.up_neg_offset(3, 1), Err(Error::PointerUnderflow));
    assert_eq!(actual, make(&[10, 2, 3], 2));
}

#[test]
fn read_stores_input_or_zero_at_end() {
    let mut actual = make(&[9, 9], 1);
    actual.read(Some(42));
    assert_eq!(actual, make(&[9, 42], 1));
    actual.read(None);
    assert_eq!(actual, make(&[9, 0], 1));
}

#[test]
fn write_appends_current_byte() {
    let state = make(&[5, 6], 1);
    let mut out = vec![1u8];
    state.write(&mut out);
    state.write(&mut out);
    assert_eq!(out, vec![1u8, 6, 6]);
}
