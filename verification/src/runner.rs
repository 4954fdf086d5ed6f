//! The dispatch the runner performs around the two solving functions.
//!
//! Input acquisition is the runner's own affair and happens before a solving
//! function is invoked; it is represented here by its result. Given that
//! result, the dispatch invokes both parts and combines everything into one
//! overall outcome: success once both parts have succeeded, otherwise the
//! first failure encountered, acquisition first, then part one, then part
//! two.

use vstd::prelude::*;
use crate::solution::Answer;
use crate::solution::SolveError;
use crate::solution::outcome_of;
use crate::solution::part_one_outcome;
use crate::solution::part_two_outcome;
use crate::solution::solve_part_one;
use crate::solution::solve_part_two;
use crate::solution::views_of;

verus! {

/// What acquiring the puzzle input amounts to: the acquired text on
/// success, the failure's message otherwise.
pub open spec fn acquisition_of(r: Result<String, SolveError>) -> Result<Seq<char>, Seq<char>> {
    match r {
        Ok(input) => Ok(input@),
        Err(e) => Err(e.message@),
    }
}

/// What a whole run's result amounts to: the two rendered answers on
/// success, the failure's message otherwise.
pub open spec fn run_of(r: Result<(Answer, Answer), SolveError>) -> Result<
    (Seq<char>, Seq<char>),
    Seq<char>,
> {
    match r {
        Ok(pair) => Ok((pair.0.text_view(), pair.1.text_view())),
        Err(e) => Err(e.message@),
    }
}

/// The outcome the whole entry point owes: the first failure among input
/// acquisition, part one and part two, or both answers once all three
/// succeeded.
pub open spec fn entry_outcome(
    acquired: Result<Seq<char>, Seq<char>>,
    args_one: Seq<Seq<char>>,
    args_two: Seq<Seq<char>>,
) -> Result<(Seq<char>, Seq<char>), Seq<char>> {
    match acquired {
        Err(m) => Err(m),
        Ok(input) => match (part_one_outcome(input, args_one), part_two_outcome(
            input,
            args_two,
        )) {
            (Err(m), _) => Err(m),
            (Ok(_), Err(m)) => Err(m),
            (Ok(a), Ok(b)) => Ok((a, b)),
        },
    }
}

/// Invoke both solving functions on the same input, in either order; the
/// pair of results is the same whichever part ran first, as neither part
/// observes the other.
pub fn run_parts_in_order(
    part_one_first: bool,
    input_data: &str,
    args_one: Vec<String>,
    args_two: Vec<String>,
) -> (r: (Result<Answer, SolveError>, Result<Answer, SolveError>))
    ensures
        outcome_of(r.0) == part_one_outcome(input_data@, views_of(args_one@)),
        outcome_of(r.1) == part_two_outcome(input_data@, views_of(args_two@)),
{
    if part_one_first {
        let first = solve_part_one(input_data, args_one);
        let second = solve_part_two(input_data, args_two);
        (first, second)
    } else {
        let second = solve_part_two(input_data, args_two);
        let first = solve_part_one(input_data, args_one);
        (first, second)
    }
}

/// Combine the two parts' results into the run's result: both answers when
/// both parts succeeded, otherwise the first failure, part one's before
/// part two's.
pub fn combine_results(
    first: Result<Answer, SolveError>,
    second: Result<Answer, SolveError>,
) -> (r: Result<(Answer, Answer), SolveError>)
    ensures
        r is Ok <==> (first is Ok && second is Ok),
        first is Err ==> r == Err::<(Answer, Answer), SolveError>(first->Err_0),
        first is Ok && second is Err ==> r == Err::<(Answer, Answer), SolveError>(second->Err_0),
        first is Ok && second is Ok ==> r == Ok::<(Answer, Answer), SolveError>(
            (first->Ok_0, second->Ok_0),
        ),
{
    match first {
        Err(e) => Err(e),
        Ok(a) => match second {
            Err(e) => Err(e),
            Ok(b) => Ok((a, b)),
        },
    }
}

/// The entry point's dispatch once input acquisition has been attempted:
/// on acquired input both parts are invoked and their results combined; an
/// acquisition failure is the run's failure, unchanged.
pub fn run_parts(
    acquired: Result<String, SolveError>,
    args_one: Vec<String>,
    args_two: Vec<String>,
) -> (r: Result<(Answer, Answer), SolveError>)
    ensures
        run_of(r) == entry_outcome(
            acquisition_of(acquired),
            views_of(args_one@),
            views_of(args_two@),
        ),
        r is Ok <==> acquired is Ok,
        acquired is Err ==> r == Err::<(Answer, Answer), SolveError>(acquired->Err_0),
{
    match acquired {
        Err(e) => Err(e),
        Ok(input) => {
            let first = solve_part_one(input.as_str(), args_one);
            let second = solve_part_two(input.as_str(), args_two);
            combine_results(first, second)
        },
    }
}

/// The entry point succeeds exactly when input acquisition and both
/// solving-function invocations succeed; otherwise its outcome is the
/// first failure encountered.
pub proof fn lemma_entry_success_iff(
    acquired: Result<Seq<char>, Seq<char>>,
    args_one: Seq<Seq<char>>,
    args_two: Seq<Seq<char>>,
)
    ensures
        entry_outcome(acquired, args_one, args_two) is Ok <==> (acquired is Ok
            && part_one_outcome(acquired->Ok_0, args_one) is Ok && part_two_outcome(
            acquired->Ok_0,
            args_two,
        ) is Ok),
        acquired is Err ==> entry_outcome(acquired, args_one, args_two) == Err::<
            (Seq<char>, Seq<char>),
            Seq<char>,
        >(acquired->Err_0),
{
}

} // verus!
