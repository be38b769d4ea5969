use crate::completion_dispenser::CompletionDispenser;
use crate::control::{default_controls, default_controls_map, Control, Controls};
use crate::editor::{complete_input, completed, EntryEditorStatus};
use crate::action::ActionView;
use crate::entry_kind::EntryKind;
use crate::key_input::{editing_control, Key};
use crate::mode::Mode;
use crate::text::{push_char, string_of};
use crate::validator::Validator;
use vstd::prelude::*;

verus! {

/// An entry editor as contracts speak of it: the kind of its entry, the kind its validator
/// checks, and the tags that complete it, if any.
pub ghost struct EntryEditorView {
    pub entry_kind: EntryKind,
    pub validator: EntryKind,
    pub completion: Option<Set<Seq<char>>>,
}

/// Edits an entry key by key: Tab completes the tag being typed, any other key appends its
/// character.
pub struct EntryEditor {
    entry_kind: EntryKind,
    controls: Controls,
    validator: Validator,
    completion_dispenser_opt: Option<CompletionDispenser>,
}

impl View for EntryEditor {
    type V = EntryEditorView;

    closed spec fn view(&self) -> EntryEditorView {
        EntryEditorView {
            entry_kind: self.entry_kind,
            validator: self.validator@,
            completion: match self.completion_dispenser_opt {
                Some(d) => Some(d@),
                None => None,
            },
        }
    }
}

/// The input after appending the character of a key, if it has one.
pub open spec fn appended(input: Seq<char>, c: Option<char>) -> Seq<char> {
    match c {
        Some(ch) => input.push(ch),
        None => input,
    }
}

impl EntryEditor {
    pub closed spec fn wf(&self) -> bool {
        &&& self.controls.wf()
        &&& self.controls@ == default_controls_map()
        &&& self.completion_dispenser_opt matches Some(d) ==> d.wf()
    }

    /// An editor of an entry of `entry_kind`, completing with the dispenser's tags if any.
    pub fn new(
        entry_kind: EntryKind,
        validator: Validator,
        completion_dispenser_opt: Option<CompletionDispenser>,
    ) -> (r: Self)
        requires
            completion_dispenser_opt matches Some(d) ==> d.wf(),
        ensures
            r.wf(),
            r@ == (EntryEditorView {
                entry_kind,
                validator: validator@,
                completion: match completion_dispenser_opt {
                    Some(d) => Some(d@),
                    None => None,
                },
            }),
    {
        Self { entry_kind, controls: default_controls(), validator, completion_dispenser_opt }
    }

    /// The input unchanged, with no tip and no action.
    fn no_change(&self, input: &str) -> (r: EntryEditorStatus)
        ensures
            r@ == (input@, None::<Seq<char>>, None::<ActionView>),
    {
        EntryEditorStatus::new(input, None, None)
    }

    /// The status after asking to complete the tag being typed.
    fn complete(&self, input: &str) -> (r: EntryEditorStatus)
        requires
            self.wf(),
        ensures
            completed(self@.completion, input@, r@),
    {
        let status = complete_input(&self.completion_dispenser_opt, input);
        let new_input = status.input();
        EntryEditorStatus::new(
            new_input.as_str(),
            status.candidate_list_tip(),
            status.result_action(),
        )
    }

    /// The status after appending the character of `key`, if it has one.
    fn append_char_from_key(&self, input: &str, key: &Key) -> (r: EntryEditorStatus)
        ensures
            r@ == (appended(input@, key.unicode), None::<Seq<char>>, None::<ActionView>),
    {
        match key.unicode {
            Some(ch) => {
                let mut new_input = string_of(input);
                push_char(&mut new_input, ch);
                EntryEditorStatus::new(new_input.as_str(), None, None)
            },
            None => self.no_change(input),
        }
    }

    /// The status after pressing `key` on `input`: a key with no name changes nothing, the
    /// key that completes (Tab) completes the tag being typed, and any other key appends its
    /// character, if it has one.
    pub fn edit(&self, input: &str, key: Key) -> (r: EntryEditorStatus)
        requires
            self.wf(),
        ensures
            key.name is None ==> r@ == (input@, None::<Seq<char>>, None::<ActionView>),
            key.name matches Some(name) && editing_control(name@) == Some(Control::Complete)
                ==> completed(self@.completion, input@, r@),
            key.name matches Some(name) && editing_control(name@) != Some(Control::Complete)
                ==> r@ == (appended(input@, key.unicode), None::<Seq<char>>, None::<ActionView>),
    {
        match &key.name {
            None => self.no_change(input),
            Some(key_name) => match self.controls.get(key_name.as_str(), Mode::Editing) {
                Some(Control::Complete) => self.complete(input),
                _ => self.append_char_from_key(input, &key),
            },
        }
    }
}

} // verus!
