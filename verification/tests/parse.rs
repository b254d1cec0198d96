use reversi_session::parse::parse_turn;
use reversi_session::turn::Turn;

#[test]
fn parse_c4() {
    assert_eq!(parse_turn(b"c4"), Some(Turn::Valid { row: 3, col: 2 }));
}

#[test]
fn parse_a1() {
    assert_eq!(parse_turn(b"a1"), Some(Turn::Valid { row: 0, col: 0 }));
}

#[test]
fn parse_z9() {
    assert_eq!(parse_turn(b"z9"), Some(Turn::Valid { row: 8, col: 25 }));
}

#[test]
fn parse_h8() {
    assert_eq!(parse_turn(b"h8"), Some(Turn::Valid { row: 7, col: 7 }));
}

#[test]
fn parse_clamps_row_below_one() {
    // '0' lies below '1': the row degrades to 0 instead of failing.
    assert_eq!(parse_turn(b"a0"), Some(Turn::Valid { row: 0, col: 0 }));
}

#[test]
fn parse_clamps_col_below_a() {
    // 'Z' lies below 'a': the column degrades to 0 instead of failing.
    assert_eq!(parse_turn(b"Z4"), Some(Turn::Valid { row: 3, col: 0 }));
}

#[test]
fn parse_one_char_is_rejected() {
    assert_eq!(parse_turn(b"c"), None);
}

#[test]
fn parse_three_chars_are_rejected() {
    assert_eq!(parse_turn(b"c44"), None);
}

#[test]
fn parse_empty_is_rejected() {
    assert_eq!(parse_turn(b""), None);
}

#[test]
fn parse_whitespace_only_is_rejected() {
    assert_eq!(parse_turn(b"  \t\n"), None);
}

#[test]
fn parse_trims_surrounding_whitespace() {
    assert_eq!(parse_turn(b"  c4\r\n"), Some(Turn::Valid { row: 3, col: 2 }));
}

#[test]
fn parse_interior_space_is_rejected() {
    // Trimming touches only the ends: "c 4" stays three characters long.
    assert_eq!(parse_turn(b"c 4"), None);
}
