use crate::text::string_of;
use vstd::prelude::*;

verus! {

/// Validates a whole input: every input is valid as it stands.
#[derive(Debug)]
pub struct InputValidate {}

impl InputValidate {
    pub fn new() -> (r: Self)
        ensures
            r == (InputValidate {}),
    {
        InputValidate {}
    }

    /// The validated input: `s` itself.
    pub fn validate(self, s: &str) -> (r: Option<String>)
        ensures
            r matches Some(v) && v@ == s@,
    {
        Some(string_of(s))
    }
}

impl Clone for InputValidate {
    fn clone(&self) -> (r: Self)
        ensures
            r == *self,
    {
        InputValidate {}
    }
}

impl Default for InputValidate {
    fn default() -> (r: Self)
        ensures
            r == (InputValidate {}),
    {
        InputValidate {}
    }
}

} // verus!
