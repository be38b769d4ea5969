use crate::key_input::{Accepter, Converter, KeyInput, KeyInputMode, KeyInputView, Launcher};
use crate::model::Tags;
use vstd::prelude::*;

verus! {

/// The editor of a picture's label: it takes ASCII letters, digits, dashes, underscores and
/// spaces, in lower case, completes with the known tags, and Return closes it (the label is
/// read from its input).
pub fn change_label_editor(completion_tags: Tags) -> (r: KeyInput)
    requires
        completion_tags.wf(),
    ensures
        r.wf(),
        r@ == (KeyInputView {
            prompt: "Enter a label"@,
            completion: Some(completion_tags@),
            mode: KeyInputMode::Entry,
            accepter: Accepter::LabelChars,
            converter: Converter::LowerCase,
            launcher: Launcher::Dismiss,
        }),
{
    KeyInput::new(
        "Enter a label",
        Some(completion_tags),
        KeyInputMode::Entry,
        Accepter::LabelChars,
        Converter::LowerCase,
        Launcher::Dismiss,
    )
}

} // verus!
