use crate::action::{Action, ActionView};
use crate::completion_dispenser::{candidate_set, CompletionDispenser};
use crate::key_input::lemma_sorted_no_duplicates;
use crate::text::{string_of, strictly_sorted, views};
use itertools::Itertools;
use vstd::prelude::*;

pub mod change_label_editor;
pub mod display_information_editor;
pub mod entry_editor;

verus! {

/// The words of `list` separated by `sep`.
pub open spec fn seq_join(list: Seq<Seq<char>>, sep: Seq<char>) -> Seq<char>
    decreases list.len(),
{
    if list.len() == 0 {
        Seq::empty()
    } else if list.len() == 1 {
        list[0]
    } else {
        seq_join(list.drop_last(), sep) + sep + list.last()
    }
}

/// The words separated by `sep` (itertools' `join`, which writes each word by its `Display`,
/// a `String` as itself).
#[verifier::external_body]
pub(crate) fn join_words(words: &Vec<String>, sep: &str) -> (r: String)
    ensures
        r@ == seq_join(views(words@), sep@),
{
    words.iter().join(sep)
}

/// The tip that lists candidates: `[ a b c ]`.
pub open spec fn candidates_tip(list: Seq<Seq<char>>) -> Seq<char> {
    "[ "@ + seq_join(list, " "@) + " ]"@
}

/// The tip listing the given candidates.
pub fn candidates_tip_string(candidates: &Vec<String>) -> (r: String)
    ensures
        r@ == candidates_tip(views(candidates@)),
{
    let mut r = string_of("[ ");
    let joined = join_words(candidates, " ");
    r.append(joined.as_str());
    r.append(" ]");
    r
}

/// A copy of an optional string.
pub fn clone_opt_string(s: &Option<String>) -> (r: Option<String>)
    ensures
        r == *s,
{
    match s {
        Some(t) => Some(t.clone()),
        None => None,
    }
}

/// A copy of an optional action.
pub fn clone_opt_action(a: &Option<Action>) -> (r: Option<Action>)
    ensures
        r == *a,
{
    match a {
        Some(t) => Some(t.clone()),
        None => None,
    }
}

/// The views of an optional string.
pub open spec fn opt_view(s: Option<String>) -> Option<Seq<char>> {
    match s {
        Some(t) => Some(t@),
        None => None,
    }
}

/// The view of an optional action.
pub open spec fn opt_action_view(a: Option<Action>) -> Option<ActionView> {
    match a {
        Some(t) => Some(t@),
        None => None,
    }
}

/// What editing an input gives: the new input, a tip listing completion candidates, and
/// the action that the edition launches.
#[derive(Debug)]
pub struct EditorStatus {
    input: String,
    candidate_list_tip: Option<String>,
    result_action: Option<Action>,
}

impl View for EditorStatus {
    type V = (Seq<char>, Option<Seq<char>>, Option<ActionView>);

    closed spec fn view(&self) -> (Seq<char>, Option<Seq<char>>, Option<ActionView>) {
        (self.input@, opt_view(self.candidate_list_tip), opt_action_view(self.result_action))
    }
}

impl Clone for EditorStatus {
    fn clone(&self) -> (r: Self)
        ensures
            r@ == self@,
    {
        EditorStatus {
            input: self.input.clone(),
            candidate_list_tip: clone_opt_string(&self.candidate_list_tip),
            result_action: clone_opt_action(&self.result_action),
        }
    }
}

impl EditorStatus {
    pub fn new(input: &str, candidate_list_tip: Option<String>, result_action: Option<Action>) -> (r: Self)
        ensures
            r@ == (input@, opt_view(candidate_list_tip), opt_action_view(result_action)),
    {
        Self { input: string_of(input), candidate_list_tip, result_action }
    }

    /// The input unchanged, with no tip and no action.
    pub fn no_change(input: &str) -> (r: Self)
        ensures
            r@ == (input@, None::<Seq<char>>, None::<ActionView>),
    {
        Self { input: string_of(input), candidate_list_tip: None, result_action: None }
    }

    /// The input unchanged, with a tip listing the candidates.
    pub fn candidates(input: &str, candidates: Vec<String>) -> (r: Self)
        ensures
            r@ == (input@, Some(candidates_tip(views(candidates@))), None::<ActionView>),
    {
        Self {
            input: string_of(input),
            candidate_list_tip: Some(candidates_tip_string(&candidates)),
            result_action: None,
        }
    }

    pub fn input(&self) -> (r: String)
        ensures
            r@ == self@.0,
    {
        self.input.clone()
    }

    pub fn candidate_list_tip(&self) -> (r: Option<String>)
        ensures
            opt_view(r) == self@.1,
    {
        clone_opt_string(&self.candidate_list_tip)
    }

    pub fn result_action(&self) -> (r: Option<Action>)
        ensures
            opt_action_view(r) == self@.2,
    {
        clone_opt_action(&self.result_action)
    }
}

/// What editing an entry gives: the new input, a tip listing completion candidates, and the
/// action that the edition launches.
#[derive(Debug)]
pub struct EntryEditorStatus {
    input: String,
    candidate_list_tip: Option<String>,
    result_action: Option<Action>,
}

impl View for EntryEditorStatus {
    type V = (Seq<char>, Option<Seq<char>>, Option<ActionView>);

    closed spec fn view(&self) -> (Seq<char>, Option<Seq<char>>, Option<ActionView>) {
        (self.input@, opt_view(self.candidate_list_tip), opt_action_view(self.result_action))
    }
}

impl Clone for EntryEditorStatus {
    fn clone(&self) -> (r: Self)
        ensures
            r@ == self@,
    {
        EntryEditorStatus {
            input: self.input.clone(),
            candidate_list_tip: clone_opt_string(&self.candidate_list_tip),
            result_action: clone_opt_action(&self.result_action),
        }
    }
}

impl EntryEditorStatus {
    pub fn new(input: &str, candidate_list_tip: Option<String>, result_action: Option<Action>) -> (r: Self)
        ensures
            r@ == (input@, opt_view(candidate_list_tip), opt_action_view(result_action)),
    {
        Self { input: string_of(input), candidate_list_tip, result_action }
    }

    pub fn input(&self) -> (r: String)
        ensures
            r@ == self@.0,
    {
        self.input.clone()
    }

    pub fn candidate_list_tip(&self) -> (r: Option<String>)
        ensures
            opt_view(r) == self@.1,
    {
        clone_opt_string(&self.candidate_list_tip)
    }

    pub fn result_action(&self) -> (r: Option<Action>)
        ensures
            opt_action_view(r) == self@.2,
    {
        clone_opt_action(&self.result_action)
    }
}

/// Whether `r` is what asking to complete `input` gives, with the known tags if any: the
/// input unchanged where nothing completes it, the one candidate where one does, and the input
/// with a tip listing the candidates in order where several do.
pub open spec fn completed(
    completion: Option<Set<Seq<char>>>,
    input: Seq<char>,
    r: (Seq<char>, Option<Seq<char>>, Option<ActionView>),
) -> bool {
    match completion {
        None => r == (input, None::<Seq<char>>, None::<ActionView>),
        Some(tags) => {
            let cs = candidate_set(tags, input);
            &&& cs.len() == 0 ==> r == (input, None::<Seq<char>>, None::<ActionView>)
            &&& cs.len() == 1 ==> cs == set![r.0] && r.1 is None && r.2 is None
            &&& cs.len() >= 2 ==> exists|list: Seq<Seq<char>>|
                {
                    &&& strictly_sorted(list)
                    &&& list.to_set() == cs
                    &&& r == (input, Some(candidates_tip(list)), None::<ActionView>)
                }
        },
    }
}

/// The status after asking to complete `input` with the tags of the dispenser, if any.
pub fn complete_input(completion_dispenser_opt: &Option<CompletionDispenser>, input: &str) -> (r: EditorStatus)
    requires
        completion_dispenser_opt matches Some(d) ==> d.wf(),
    ensures
        completed(
            match completion_dispenser_opt {
                Some(d) => Some(d@),
                None => None,
            },
            input@,
            r@,
        ),
{
    match completion_dispenser_opt {
        Some(completion_dispenser) => {
            let candidates = completion_dispenser.candidates(input);
            let ghost list = views(candidates@);
            proof {
                lemma_sorted_no_duplicates(list);
                list.unique_seq_to_set();
            }
            if candidates.len() == 0 {
                EditorStatus::no_change(input)
            } else if candidates.len() == 1 {
                proof {
                    assert(list.to_set() =~= set![list[0]]);
                    set![list[0]].lemma_singleton_size();
                }
                EditorStatus::new(candidates[0].as_str(), None, None)
            } else {
                let r = EditorStatus::candidates(input, candidates);
                proof {
                    assert(strictly_sorted(list) && list.to_set() == candidate_set(
                        completion_dispenser@,
                        input@,
                    ));
                    assert(r@ == (input@, Some(candidates_tip(list)), None::<ActionView>));
                }
                r
            }
        },
        None => EditorStatus::no_change(input),
    }
}

} // verus!
