use aoc_solution::Answer;
use aoc_solution::SolveError;
use aoc_solution::solve_part_one;
use aoc_solution::solve_part_two;

#[test]
fn part_one_returns_twenty_five() {
    let r = solve_part_one("1 2 3\n", vec![]);
    assert_eq!(r, Ok(Answer::Number(25)));
}

#[test]
fn part_one_renders_twenty_five() {
    let answer = solve_part_one("1 2 3\n", vec![]).unwrap();
    assert_eq!(answer.to_text(), "25");
}

#[test]
fn part_two_returns_december() {
    let answer = solve_part_two("1 2 3\n", vec![]).unwrap();
    assert_eq!(answer, Answer::Text("December".to_string()));
    assert_eq!(answer.to_text(), "December");
}

#[test]
fn empty_input_is_harmless() {
    assert_eq!(solve_part_one("", vec![]).unwrap().to_text(), "25");
    assert_eq!(solve_part_two("", vec![]).unwrap().to_text(), "December");
}

#[test]
fn extra_arguments_are_ignored() {
    let args = vec!["--fast".to_string(), "x".to_string()];
    assert_eq!(solve_part_one("input", args.clone()).unwrap().to_text(), "25");
    assert_eq!(solve_part_two("input", args).unwrap().to_text(), "December");
}

#[test]
fn solving_is_deterministic() {
    let a = solve_part_one("same", vec!["a".to_string()]);
    let b = solve_part_one("same", vec!["a".to_string()]);
    assert_eq!(a, b);
    let c = solve_part_two("same", vec![]);
    let d = solve_part_two("same", vec![]);
    assert_eq!(c, d);
}

#[test]
fn error_carries_its_message() {
    let e = SolveError::new("no answer".to_string());
    assert_eq!(e.description(), "no answer");
    assert_eq!(e.message, "no answer");
}
