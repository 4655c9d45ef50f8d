//! The input/expected-output pairs that a program is judged on.
use vstd::prelude::*;

verus! {

/// One judging input: what the program reads, and what it must write.
#[derive(Clone, Debug, PartialEq, Eq)]
pub struct Testcase {
    /// Position among the testcases of its kind.
    pub index: usize,
    /// A label for reports; it takes no part in judging.
    pub title: String,
    /// What the program is given on its standard input.
    pub test_in: String,
    /// What the program is expected to write on its standard output.
    pub test_out: String,
    /// Whether this is a validator rather than an example.
    pub is_validator: bool,
}

} // verus!
