use tictactoe::input::{declines, parse_move, ParseError};

#[test]
fn a_digit_is_its_number() {
    for n in 0..10usize {
        assert_eq!(parse_move(&format!("{}", n)), Ok(n));
    }
}

#[test]
fn the_line_feed_is_dropped() {
    assert_eq!(parse_move("0\n"), Ok(0));
    assert_eq!(parse_move("8\n"), Ok(8));
}

#[test]
fn carriage_return_and_line_feed_are_dropped() {
    assert_eq!(parse_move("4\r\n"), Ok(4));
}

#[test]
fn only_one_line_end_is_dropped() {
    assert_eq!(parse_move("4\n\n"), Err(ParseError));
    assert_eq!(parse_move("4\r\r\n"), Err(ParseError));
}

#[test]
fn a_carriage_return_alone_is_no_line_end() {
    assert_eq!(parse_move("4\r"), Err(ParseError));
    assert_eq!(parse_move("\r"), Err(ParseError));
}

#[test]
fn several_digits_are_read_in_base_ten() {
    assert_eq!(parse_move("12\n"), Ok(12));
    assert_eq!(parse_move("905"), Ok(905));
    assert_eq!(parse_move("1234567890\n"), Ok(1234567890));
}

#[test]
fn leading_zeros_do_not_count() {
    assert_eq!(parse_move("007\n"), Ok(7));
    assert_eq!(parse_move("0000000000000000000000000000000000003"), Ok(3));
}

#[test]
fn a_plus_sign_may_lead() {
    assert_eq!(parse_move("+5\n"), Ok(5));
    assert_eq!(parse_move("+0"), Ok(0));
}

#[test]
fn a_sign_alone_is_no_number() {
    assert_eq!(parse_move("+"), Err(ParseError));
    assert_eq!(parse_move("+\n"), Err(ParseError));
    assert_eq!(parse_move("-"), Err(ParseError));
    assert_eq!(parse_move("++1"), Err(ParseError));
}

#[test]
fn an_empty_line_is_no_number() {
    assert_eq!(parse_move(""), Err(ParseError));
    assert_eq!(parse_move("\n"), Err(ParseError));
    assert_eq!(parse_move("\r\n"), Err(ParseError));
}

#[test]
fn letters_are_no_number() {
    assert_eq!(parse_move("abc"), Err(ParseError));
    assert_eq!(parse_move("abc\n"), Err(ParseError));
    assert_eq!(parse_move("1a\n"), Err(ParseError));
    assert_eq!(parse_move("a1\n"), Err(ParseError));
}

#[test]
fn negative_numbers_are_no_number() {
    assert_eq!(parse_move("-1"), Err(ParseError));
    assert_eq!(parse_move("-1\n"), Err(ParseError));
    assert_eq!(parse_move("-0\n"), Err(ParseError));
}

#[test]
fn blanks_are_no_part_of_a_number() {
    assert_eq!(parse_move(" 3\n"), Err(ParseError));
    assert_eq!(parse_move("3 \n"), Err(ParseError));
    assert_eq!(parse_move("1 2\n"), Err(ParseError));
}

#[test]
fn a_fraction_is_no_number() {
    assert_eq!(parse_move("1.0\n"), Err(ParseError));
}

#[test]
fn digits_of_other_scripts_are_no_number() {
    assert_eq!(parse_move("\u{ff13}\n"), Err(ParseError));
    assert_eq!(parse_move("3\u{e9}\n"), Err(ParseError));
    assert_eq!(parse_move("\u{663}"), Err(ParseError));
}

#[test]
fn the_largest_number_is_read() {
    let largest = format!("{}\n", usize::MAX);
    assert_eq!(parse_move(&largest), Ok(usize::MAX));
}

#[test]
fn a_number_too_large_is_refused() {
    let mut digits = format!("{}", usize::MAX);
    let last = digits.pop().unwrap();
    // usize::MAX ends in 5, on 32 and on 64 bits.
    assert_eq!(last, '5');
    digits.push('6');
    assert_eq!(parse_move(&digits), Err(ParseError));
    assert_eq!(parse_move("99999999999999999999999999999999999999999\n"), Err(ParseError));
    assert_eq!(parse_move(&format!("{}0", usize::MAX)), Err(ParseError));
}

#[test]
fn a_number_too_large_followed_by_a_letter_is_refused() {
    assert_eq!(parse_move("99999999999999999999999999999999999999999x\n"), Err(ParseError));
}

#[test]
fn parse_agrees_with_the_numbers_it_was_given() {
    for n in (0..200000usize).step_by(37) {
        assert_eq!(parse_move(&format!("{}\n", n)), Ok(n));
        assert_eq!(parse_move(&format!("+{}\r\n", n)), Ok(n));
    }
}

#[test]
fn an_answer_with_n_declines() {
    assert!(declines("n"));
    assert!(declines("n\n"));
    assert!(declines("no\n"));
    assert!(declines("maybe not\n"));
    assert!(declines("yn"));
}

#[test]
fn an_answer_without_n_does_not_decline() {
    assert!(!declines(""));
    assert!(!declines("\n"));
    assert!(!declines("y\n"));
    assert!(!declines("yes\n"));
    assert!(!declines("7"));
}

#[test]
fn a_capital_n_does_not_decline() {
    assert!(!declines("N\n"));
    assert!(!declines("NO\n"));
}

#[test]
fn an_n_among_other_scripts_declines() {
    assert!(declines("\u{e9}\u{4e2d}n\u{ff13}"));
    assert!(!declines("\u{e9}\u{4e2d}\u{ff13}"));
}
