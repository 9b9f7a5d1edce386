//! Fetches the sample tests of a judge problem and decides, case by case,
//! whether a solution's output matches the expected one.
//!
//! The library holds the decisions: how an identifier splits into contest and
//! index, which pages are tried and in what order, how a page becomes a list of
//! test cases, and how an exited program is judged. Network and process work
//! are left to the caller, who hands back plain values.
pub mod text;
pub mod problem;
pub mod page;
pub mod fetch;
pub mod verdict;
