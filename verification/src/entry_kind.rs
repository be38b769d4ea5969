use vstd::prelude::*;

verus! {

/// What an entry is for: the kind decides which characters it takes and how.
#[derive(PartialEq, Debug)]
pub enum EntryKind {
    Label,
    AddTag,
    Categorize,
    RemoveTag,
    Number,
    Order,
    DeleteConfirmation,
    MoveConfirmation,
    MoveToLabelConfirmation(String),
    Find,
    FindLabel,
    FindAllTags,
    FindSomeTags,
    FindSubCategory,
    Select,
    SelectAllTags,
    SelectSomeTags,
    SelectSubCategory,
    Change,
    View,
    Catalog,
    Information,
    Help,
    Rename,
    SetRestriction,
    SetSelection,
}

impl Clone for EntryKind {
    fn clone(&self) -> (r: Self)
        ensures
            r == *self,
    {
        match self {
            EntryKind::Label => EntryKind::Label,
            EntryKind::AddTag => EntryKind::AddTag,
            EntryKind::Categorize => EntryKind::Categorize,
            EntryKind::RemoveTag => EntryKind::RemoveTag,
            EntryKind::Number => EntryKind::Number,
            EntryKind::Order => EntryKind::Order,
            EntryKind::DeleteConfirmation => EntryKind::DeleteConfirmation,
            EntryKind::MoveConfirmation => EntryKind::MoveConfirmation,
            EntryKind::MoveToLabelConfirmation(label) => EntryKind::MoveToLabelConfirmation(
                label.clone(),
            ),
            EntryKind::Find => EntryKind::Find,
            EntryKind::FindLabel => EntryKind::FindLabel,
            EntryKind::FindAllTags => EntryKind::FindAllTags,
            EntryKind::FindSomeTags => EntryKind::FindSomeTags,
            EntryKind::FindSubCategory => EntryKind::FindSubCategory,
            EntryKind::Select => EntryKind::Select,
            EntryKind::SelectAllTags => EntryKind::SelectAllTags,
            EntryKind::SelectSomeTags => EntryKind::SelectSomeTags,
            EntryKind::SelectSubCategory => EntryKind::SelectSubCategory,
            EntryKind::Change => EntryKind::Change,
            EntryKind::View => EntryKind::View,
            EntryKind::Catalog => EntryKind::Catalog,
            EntryKind::Information => EntryKind::Information,
            EntryKind::Help => EntryKind::Help,
            EntryKind::Rename => EntryKind::Rename,
            EntryKind::SetRestriction => EntryKind::SetRestriction,
            EntryKind::SetSelection => EntryKind::SetSelection,
        }
    }
}

} // verus!
