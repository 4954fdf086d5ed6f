use aoc_solution::Answer;
use aoc_solution::u64_to_text;

#[test]
fn renders_single_digits() {
    assert_eq!(u64_to_text(0), "0");
    assert_eq!(u64_to_text(9), "9");
}

#[test]
fn renders_multi_digit_numbers() {
    assert_eq!(u64_to_text(10), "10");
    assert_eq!(u64_to_text(305), "305");
    assert_eq!(u64_to_text(18446744073709551615), "18446744073709551615");
}

#[test]
fn renders_number_answers() {
    assert_eq!(Answer::Number(120).to_text(), "120");
}

#[test]
fn renders_text_answers() {
    assert_eq!(Answer::Text("snow".to_string()).to_text(), "snow");
}
