use crate::key_input::{Accepter, Converter, KeyInput, KeyInputMode, KeyInputView, Launcher};
use crate::model::{find_name, Find, Tags};
use crate::text::string_of;
use vstd::prelude::*;

verus! {

/// The entry of a label.
pub fn label_change_entry(completion_tags: Tags) -> (r: KeyInput)
    requires
        completion_tags.wf(),
    ensures
        r.wf(),
        r@ == (KeyInputView {
            prompt: "Enter a label"@,
            completion: Some(completion_tags@),
            mode: KeyInputMode::Entry,
            accepter: Accepter::LabelChars,
            converter: Converter::TagStyle,
            launcher: Launcher::Label,
        }),
{
    KeyInput::new(
        "Enter a label",
        Some(completion_tags),
        KeyInputMode::Entry,
        Accepter::LabelChars,
        Converter::TagStyle,
        Launcher::Label,
    )
}

/// The entry of tags to add.
pub fn add_tags_entry(completion_tags: Tags) -> (r: KeyInput)
    requires
        completion_tags.wf(),
    ensures
        r.wf(),
        r@ == (KeyInputView {
            prompt: "Enter new tags to add"@,
            completion: Some(completion_tags@),
            mode: KeyInputMode::Entry,
            accepter: Accepter::TagChars,
            converter: Converter::TagStyle,
            launcher: Launcher::AddTag,
        }),
{
    KeyInput::new(
        "Enter new tags to add",
        Some(completion_tags),
        KeyInputMode::Entry,
        Accepter::TagChars,
        Converter::TagStyle,
        Launcher::AddTag,
    )
}

/// The entry of a new category.
pub fn add_new_category() -> (r: KeyInput)
    ensures
        r.wf(),
        r@ == (KeyInputView {
            prompt: "Enter a new category"@,
            completion: None,
            mode: KeyInputMode::Entry,
            accepter: Accepter::NameChars,
            converter: Converter::TagStyle,
            launcher: Launcher::SelectCategoryAddTarget,
        }),
{
    KeyInput::new(
        "Enter a new category",
        None,
        KeyInputMode::Entry,
        Accepter::NameChars,
        Converter::TagStyle,
        Launcher::SelectCategoryAddTarget,
    )
}

/// The entry of tags to remove.
pub fn remove_tags_entry(completion_tags: Tags) -> (r: KeyInput)
    requires
        completion_tags.wf(),
    ensures
        r.wf(),
        r@ == (KeyInputView {
            prompt: "Enter new tags to remove"@,
            completion: Some(completion_tags@),
            mode: KeyInputMode::Entry,
            accepter: Accepter::TagChars,
            converter: Converter::TagStyle,
            launcher: Launcher::RemoveTag,
        }),
{
    KeyInput::new(
        "Enter new tags to remove",
        Some(completion_tags),
        KeyInputMode::Entry,
        Accepter::TagChars,
        Converter::TagStyle,
        Launcher::RemoveTag,
    )
}

/// The entry of a new name.
pub fn rename_entry() -> (r: KeyInput)
    ensures
        r.wf(),
        r@ == (KeyInputView {
            prompt: "Enter a name"@,
            completion: None,
            mode: KeyInputMode::Entry,
            accepter: Accepter::NameChars,
            converter: Converter::TagStyle,
            launcher: Launcher::Rename,
        }),
{
    KeyInput::new(
        "Enter a name",
        None,
        KeyInputMode::Entry,
        Accepter::NameChars,
        Converter::TagStyle,
        Launcher::Rename,
    )
}

/// Whether a criterion is about tags.
pub open spec fn is_tags_criterion(find: Find) -> bool {
    find == Find::AllTags || find == Find::SomeTags
}

/// The entry of the value to find on a criterion: tags are completed and typed as tags, any
/// other criterion takes any character as it is.
pub fn find_criteria_entry(find_criteria: Find, completion_tags: Tags) -> (r: KeyInput)
    requires
        completion_tags.wf(),
    ensures
        r.wf(),
        r@ == (KeyInputView {
            prompt: "Enter criteria for finding on "@ + find_name(find_criteria),
            completion: if is_tags_criterion(find_criteria) {
                Some(completion_tags@)
            } else {
                None
            },
            mode: KeyInputMode::Entry,
            accepter: if is_tags_criterion(find_criteria) {
                Accepter::TagChars
            } else {
                Accepter::AnyChar
            },
            converter: if is_tags_criterion(find_criteria) {
                Converter::TagStyle
            } else {
                Converter::Append
            },
            launcher: Launcher::Find(find_criteria),
        }),
{
    let mut prompt = string_of("Enter criteria for finding on ");
    let name = find_criteria.name();
    prompt.append(name.as_str());
    let tags_criterion = match find_criteria {
        Find::AllTags | Find::SomeTags => true,
        _ => false,
    };
    if tags_criterion {
        KeyInput::new(
            prompt.as_str(),
            Some(completion_tags),
            KeyInputMode::Entry,
            Accepter::TagChars,
            Converter::TagStyle,
            Launcher::Find(find_criteria),
        )
    } else {
        KeyInput::new(
            prompt.as_str(),
            None,
            KeyInputMode::Entry,
            Accepter::AnyChar,
            Converter::Append,
            Launcher::Find(find_criteria),
        )
    }
}

} // verus!
