use crate::entry_kind::EntryKind;
use crate::entry_validate::{append_char, converted_char, valid_entry_char_spec};
use vstd::prelude::*;

verus! {

/// The rules of an entry of a given kind: which characters it takes, and how.
#[derive(Debug)]
pub struct Validator {
    entry_kind: EntryKind,
}

impl View for Validator {
    type V = EntryKind;

    closed spec fn view(&self) -> EntryKind {
        self.entry_kind
    }
}

impl Clone for Validator {
    fn clone(&self) -> (r: Self)
        ensures
            r@ == self@,
    {
        Validator { entry_kind: self.entry_kind.clone() }
    }
}

impl Validator {
    /// The rules of an entry of `entry_kind`.
    pub fn new(entry_kind: EntryKind) -> (r: Self)
        ensures
            r@ == entry_kind,
    {
        Validator { entry_kind }
    }

    /// The entry after typing `ch`, or `None` where the entry does not take it.
    pub fn validate(&self, entry: &str, ch: char) -> (r: Option<String>)
        ensures
            valid_entry_char_spec(self@, ch) ==> (r matches Some(s) && s@ == converted_char(
                self@,
                entry@,
                ch,
            )),
            !valid_entry_char_spec(self@, ch) ==> r is None,
    {
        append_char(self.entry_kind.clone(), entry, ch)
    }
}

} // verus!
