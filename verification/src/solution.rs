//! The two solving operations and the values that flow out of them.
//!
//! A solving function takes a read-only view of the puzzle's textual input
//! and an ordered sequence of extra textual arguments, and returns either an
//! answer that can be rendered to text or a single kind of typed failure.

use vstd::prelude::*;
use vstd::string::StringExecFns;
use crate::text::dec_str;
use crate::text::u64_to_text;

verus! {

/// A value a solving function hands to the runner for display: either a
/// number or a piece of text, each renderable to human-readable text.
#[derive(Debug, PartialEq, Eq)]
pub enum Answer {
    Number(u64),
    Text(String),
}

impl Answer {
    /// The text this answer renders to.
    pub open spec fn text_view(self) -> Seq<char> {
        match self {
            Answer::Number(n) => dec_str(n as nat),
            Answer::Text(t) => t@,
        }
    }

    /// Render the answer to human-readable text.
    pub fn to_text(&self) -> (s: String)
        ensures
            s@ == self.text_view(),
    {
        match self {
            Answer::Number(n) => u64_to_text(*n),
            Answer::Text(t) => t.clone(),
        }
    }
}

/// The single failure kind a solving function can return, carrying a
/// descriptive payload for the runner to present.
#[derive(Debug, PartialEq, Eq)]
pub struct SolveError {
    pub message: String,
}

impl SolveError {
    /// Build a failure from its descriptive message.
    pub fn new(message: String) -> (e: SolveError)
        ensures
            e.message@ == message@,
    {
        SolveError { message }
    }

    /// The descriptive payload of this failure.
    pub fn description(&self) -> (s: &str)
        ensures
            s@ == self.message@,
    {
        self.message.as_str()
    }
}

/// The views of a sequence of extra arguments.
pub open spec fn views_of(args: Seq<String>) -> Seq<Seq<char>> {
    args.map_values(|a: String| a@)
}

/// What a solving function's result amounts to: the rendered text of its
/// answer on success, the failure's message otherwise.
pub open spec fn outcome_of(r: Result<Answer, SolveError>) -> Result<Seq<char>, Seq<char>> {
    match r {
        Ok(a) => Ok(a.text_view()),
        Err(e) => Err(e.message@),
    }
}

/// The outcome part one owes for a given input and extra arguments: the
/// number 25, whatever the input holds.
pub open spec fn part_one_outcome(input: Seq<char>, args: Seq<Seq<char>>) -> Result<
    Seq<char>,
    Seq<char>,
> {
    Ok(dec_str(25))
}

/// The outcome part two owes for a given input and extra arguments: the
/// text `December`, whatever the input holds.
pub open spec fn part_two_outcome(input: Seq<char>, args: Seq<Seq<char>>) -> Result<
    Seq<char>,
    Seq<char>,
> {
    Ok("December"@)
}

/// Solve part one of the puzzle. Succeeds on every input, with the answer
/// the number 25; the input and the extra arguments are ignored.
pub fn solve_part_one(input_data: &str, args: Vec<String>) -> (r: Result<Answer, SolveError>)
    ensures
        r is Ok,
        outcome_of(r) == part_one_outcome(input_data@, views_of(args@)),
{
    Ok(Answer::Number(25))
}

/// Solve part two of the puzzle. Succeeds on every input, with the answer
/// the text `December`; the input and the extra arguments are ignored.
pub fn solve_part_two(input_data: &str, args: Vec<String>) -> (r: Result<Answer, SolveError>)
    ensures
        r is Ok,
        outcome_of(r) == part_two_outcome(input_data@, views_of(args@)),
{
    Ok(Answer::Text(String::from_str("December")))
}

/// Determinism of the solving functions: two calls with equal input and
/// equal extra arguments owe equal outcomes, for either part.
pub proof fn lemma_solving_deterministic(
    input1: Seq<char>,
    args1: Seq<Seq<char>>,
    input2: Seq<char>,
    args2: Seq<Seq<char>>,
)
    requires
        input1 == input2,
        args1 == args2,
    ensures
        part_one_outcome(input1, args1) == part_one_outcome(input2, args2),
        part_two_outcome(input1, args1) == part_two_outcome(input2, args2),
{
}

} // verus!
