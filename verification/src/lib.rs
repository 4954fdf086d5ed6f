//! A puzzle-solution module for an Advent of Code runner.
//!
//! The library implements the two solving operations a solution must expose,
//! a rendering capability for their answers, and the dispatch that combines
//! the parts' results into the overall outcome of a run.

pub mod runner;
pub mod solution;
pub mod text;

pub use runner::combine_results;
pub use runner::run_parts;
pub use runner::run_parts_in_order;
pub use solution::Answer;
pub use solution::SolveError;
pub use solution::solve_part_one;
pub use solution::solve_part_two;
pub use text::u64_to_text;
