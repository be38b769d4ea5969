use crate::action::{
    entry_name, entry_name_of, gio_action_name, gio_action_parameter_type, Action, ActionView,
    GioActionParameterType, GioActionType,
};
use crate::direction::{direction_code, direction_from_code, Direction};
use crate::model::{
    find_code, find_from_code, order_code, order_from_code, rank_code, rank_from_code,
    view_option_code, view_option_from_code, Category, Find, Order, Rank, ViewOption,
};
use crate::text::{chars_of, push_char, str_eq};
use vstd::prelude::*;

verus! {

/// The value that an activated action carries, by the shape of the value: a 32-bit integer,
/// a pair of them, one with a string, a 64-bit integer, an unsigned 64-bit integer, a string
/// or a pair of strings.
#[derive(Debug)]
pub enum GioActionParameter {
    Int32(i32),
    Int32Pair(i32, i32),
    Int32String(i32, String),
    Int64(i64),
    Uint64(u64),
    Str(String),
    StringPair(String, String),
}

/// A parameter as contracts speak of it: its strings by their characters.
pub ghost enum GioActionParameterView {
    Int32(i32),
    Int32Pair(i32, i32),
    Int32String(i32, Seq<char>),
    Int64(i64),
    Uint64(u64),
    Str(Seq<char>),
    StringPair(Seq<char>, Seq<char>),
}

impl View for GioActionParameter {
    type V = GioActionParameterView;

    open spec fn view(&self) -> GioActionParameterView {
        match self {
            GioActionParameter::Int32(n) => GioActionParameterView::Int32(*n),
            GioActionParameter::Int32Pair(a, b) => GioActionParameterView::Int32Pair(*a, *b),
            GioActionParameter::Int32String(n, s) => GioActionParameterView::Int32String(*n, s@),
            GioActionParameter::Int64(n) => GioActionParameterView::Int64(*n),
            GioActionParameter::Uint64(n) => GioActionParameterView::Uint64(*n),
            GioActionParameter::Str(s) => GioActionParameterView::Str(s@),
            GioActionParameter::StringPair(a, b) => GioActionParameterView::StringPair(a@, b@),
        }
    }
}

impl Clone for GioActionParameter {
    fn clone(&self) -> (r: Self)
        ensures
            r@ == self@,
    {
        match self {
            GioActionParameter::Int32(n) => GioActionParameter::Int32(*n),
            GioActionParameter::Int32Pair(a, b) => GioActionParameter::Int32Pair(*a, *b),
            GioActionParameter::Int32String(n, s) => GioActionParameter::Int32String(*n, s.clone()),
            GioActionParameter::Int64(n) => GioActionParameter::Int64(*n),
            GioActionParameter::Uint64(n) => GioActionParameter::Uint64(*n),
            GioActionParameter::Str(s) => GioActionParameter::Str(s.clone()),
            GioActionParameter::StringPair(a, b) => GioActionParameter::StringPair(a.clone(), b.clone()),
        }
    }
}

/// The view of an optional parameter.
pub open spec fn opt_parameter_view(p: Option<GioActionParameter>) -> Option<GioActionParameterView> {
    match p {
        Some(q) => Some(q@),
        None => None,
    }
}

/// The text that carries a category: its name, or nothing for no category.
pub open spec fn category_text(c: Category) -> Seq<char> {
    match c {
        Some(s) => s@,
        None => Seq::empty(),
    }
}

/// The category that a text carries: none for an empty text.
pub open spec fn text_category(s: Seq<char>) -> Option<Seq<char>> {
    if s.len() == 0 {
        None
    } else {
        Some(s)
    }
}

/// The parameter with which an action is activated.
pub open spec fn gio_parameter(action: Action) -> Option<GioActionParameterView> {
    match action {
        Action::AddCategory(a, b) => Some(GioActionParameterView::StringPair(a@, b@)),
        Action::AddTag(s) => Some(GioActionParameterView::Str(s@)),
        Action::ApplyOrderSetting(o) => Some(GioActionParameterView::Int32(order_code(o) as i32)),
        Action::ApplyViewSetting(o) => Some(GioActionParameterView::Int32(view_option_code(o) as i32)),
        Action::Cancel => None,
        Action::CancelSelectionRange => None,
        Action::Categorize(c) => Some(GioActionParameterView::Str(category_text(c))),
        Action::ConfirmDeleteFile => None,
        Action::ConfirmMoveFile(s) => Some(GioActionParameterView::Str(s@)),
        Action::Dismiss => None,
        Action::EnterAddTag => None,
        Action::EnterNewCategory => None,
        Action::EnterIndex => None,
        Action::EnterFind(f) => Some(GioActionParameterView::Int32(find_code(f) as i32)),
        Action::EnterLabel => None,
        Action::EnterRemoveTag => None,
        Action::EnterRename => None,
        Action::EnterSelect(f) => Some(GioActionParameterView::Int32(find_code(f) as i32)),
        Action::Find(f, s) => Some(GioActionParameterView::Int32String(find_code(f) as i32, s@)),
        Action::FindNext => None,
        Action::GotoDirectory => None,
        Action::JumpToIndex(n) => Some(GioActionParameterView::Int32(n as i32)),
        Action::JumpToMark(c) => Some(GioActionParameterView::Str(seq![c])),
        Action::JumpToRandom => None,
        Action::Label(s) => Some(GioActionParameterView::Str(s@)),
        Action::Mark(c) => Some(GioActionParameterView::Str(seq![c])),
        Action::MoveCategory(a, b) => Some(GioActionParameterView::StringPair(a@, b@)),
        Action::MoveFile => None,
        Action::FocusAt(a, b) => Some(GioActionParameterView::Int32Pair(a, b)),
        Action::MoveTowards(d) => Some(GioActionParameterView::Int32(direction_code(d))),
        Action::Nothing => None,
        Action::PickCatalogChange => None,
        Action::PickChange => None,
        Action::PickOrderSetting => None,
        Action::PickViewOption => None,
        Action::Quit => None,
        Action::QuitDirectory => None,
        Action::Rank(r) => Some(GioActionParameterView::Int64(rank_code(r))),
        Action::RemoveCategory(s) => Some(GioActionParameterView::Str(s@)),
        Action::RemoveTag(s) => Some(GioActionParameterView::Str(s@)),
        Action::Rename(s) => Some(GioActionParameterView::Str(s@)),
        Action::RepeatAction => None,
        Action::RepeatRangeSelection => None,
        Action::SelectCategoryAddTarget(s) => Some(GioActionParameterView::Str(s@)),
        Action::SelectCategoryForPicture => None,
        Action::SelectCategoryMoveTarget(s) => Some(GioActionParameterView::Str(s@)),
        Action::SelectCategoryToMove => None,
        Action::SelectCategoryToRemove => None,
        Action::Select(f, s) => Some(GioActionParameterView::Int32String(find_code(f) as i32, s@)),
        Action::SetSelectionAll => None,
        Action::SetSelectionPage => None,
        Action::SetSelectionRangeEnd(n) => Some(GioActionParameterView::Int32(n as i32)),
        Action::SetSelectionRangeStart(n) => Some(GioActionParameterView::Int32(n as i32)),
        Action::Test(s) => Some(GioActionParameterView::Str(s@)),
        Action::ToggleCover => None,
        Action::ToggleCoversView => None,
        Action::TogglePalette => None,
        Action::ToggleSelected(n) => Some(GioActionParameterView::Int32(n as i32)),
        Action::ToggleSelectedAt(a, b) => Some(GioActionParameterView::Int32Pair(a, b)),
        Action::ToggleSingleView => None,
        Action::ToggleSlideShow => None,
        Action::ToggleThumbnailsView => None,
        Action::ToggleTwoByTwoView => None,
        Action::Unlabel => None,
        Action::ViewCatalog => None,
    }
}

/// Whether an activation named `name` carries a parameter from which its action can be read.
pub open spec fn decodable(name: Seq<char>, p: Option<GioActionParameterView>) -> bool {
    if name == "add-category"@ {
        p matches Some(GioActionParameterView::StringPair(_, _))
    } else if name == "add-tag"@ {
        p matches Some(GioActionParameterView::Str(_))
    } else if name == "apply-order-setting"@ {
        p matches Some(GioActionParameterView::Int32(n)) && 0 <= n <= 255 && order_from_code(n as u8) is Some
    } else if name == "apply-view-setting"@ {
        p matches Some(GioActionParameterView::Int32(n)) && 0 <= n <= 255 && view_option_from_code(n as u8) is Some
    } else if name == "cancel"@ {
        true
    } else if name == "cancel-selection-range"@ {
        true
    } else if name == "categorize"@ {
        p matches Some(GioActionParameterView::Str(_))
    } else if name == "confirm-delete-file"@ {
        true
    } else if name == "confirm-move-file"@ {
        p matches Some(GioActionParameterView::Str(_))
    } else if name == "dismiss"@ {
        true
    } else if name == "enter-add-tag"@ {
        true
    } else if name == "enter-new-category"@ {
        true
    } else if name == "enter-index"@ {
        true
    } else if name == "enter-find"@ {
        p matches Some(GioActionParameterView::Int32(n)) && 0 <= n <= 255 && find_from_code(n as u8) is Some
    } else if name == "enter-label"@ {
        true
    } else if name == "enter-remove-tag"@ {
        true
    } else if name == "enter-rename"@ {
        true
    } else if name == "enter-select"@ {
        p matches Some(GioActionParameterView::Int32(n)) && 0 <= n <= 255 && find_from_code(n as u8) is Some
    } else if name == "find"@ {
        p matches Some(GioActionParameterView::Int32String(n, _)) && 0 <= n <= 255 && find_from_code(n as u8) is Some
    } else if name == "find-next"@ {
        true
    } else if name == "go-to-directory"@ {
        true
    } else if name == "jump-to-index"@ {
        p matches Some(GioActionParameterView::Int32(n)) && n >= 0
    } else if name == "jump-to-mark"@ {
        p matches Some(GioActionParameterView::Str(s)) && s.len() >= 1
    } else if name == "jump-to-random"@ {
        true
    } else if name == "label"@ {
        p matches Some(GioActionParameterView::Str(_))
    } else if name == "mark"@ {
        p matches Some(GioActionParameterView::Str(s)) && s.len() >= 1
    } else if name == "move-category"@ {
        p matches Some(GioActionParameterView::StringPair(_, _))
    } else if name == "move-file"@ {
        true
    } else if name == "focus-at"@ {
        p matches Some(GioActionParameterView::Int32Pair(_, _))
    } else if name == "move-towards"@ {
        p matches Some(GioActionParameterView::Int32(n)) && n >= -10
    } else if name == "nothing"@ {
        true
    } else if name == "pick-catalog-change"@ {
        true
    } else if name == "pick-change"@ {
        true
    } else if name == "pick-order-setting"@ {
        true
    } else if name == "pick-view-option"@ {
        true
    } else if name == "quit"@ {
        true
    } else if name == "quit-directory"@ {
        true
    } else if name == "rank"@ {
        p matches Some(GioActionParameterView::Int64(n)) && rank_from_code(n) is Some
    } else if name == "remove-category"@ {
        p matches Some(GioActionParameterView::Str(_))
    } else if name == "remove-tag"@ {
        p matches Some(GioActionParameterView::Str(_))
    } else if name == "rename"@ {
        p matches Some(GioActionParameterView::Str(_))
    } else if name == "repeat-action"@ {
        true
    } else if name == "repeat-range-selection"@ {
        true
    } else if name == "select-category-add-target"@ {
        p matches Some(GioActionParameterView::Str(_))
    } else if name == "select-category-for-picture"@ {
        true
    } else if name == "select-category-move-target"@ {
        p matches Some(GioActionParameterView::Str(_))
    } else if name == "select-category-to-move"@ {
        true
    } else if name == "select-category-to-remove"@ {
        true
    } else if name == "select"@ {
        p matches Some(GioActionParameterView::Int32String(n, _)) && 0 <= n <= 255 && find_from_code(n as u8) is Some
    } else if name == "set-selection-all"@ {
        true
    } else if name == "set-selection-page"@ {
        true
    } else if name == "set-selection-range-end"@ {
        p matches Some(GioActionParameterView::Int32(n)) && n >= 0
    } else if name == "set-selection-range-start"@ {
        p matches Some(GioActionParameterView::Int32(n)) && n >= 0
    } else if name == "test"@ {
        p matches Some(GioActionParameterView::Str(_))
    } else if name == "toggle-cover"@ {
        true
    } else if name == "toggle-covers-view"@ {
        true
    } else if name == "toggle-palette"@ {
        true
    } else if name == "toggle-selected"@ {
        p matches Some(GioActionParameterView::Int32(n)) && n >= 0
    } else if name == "toggle-selected-at"@ {
        p matches Some(GioActionParameterView::Int32Pair(_, _))
    } else if name == "toggle-single-view"@ {
        true
    } else if name == "toggle-slide-show"@ {
        true
    } else if name == "toggle-thumbnails-view"@ {
        true
    } else if name == "toggle-two-by-two-view"@ {
        true
    } else if name == "unlabel"@ {
        true
    } else if name == "view-catalog"@ {
        true
    } else {
        true
    }
}

/// The action that an activation named `name`, with parameter `p`, stands for: an unknown
/// name stands for nothing.
pub open spec fn decoded_action(name: Seq<char>, p: Option<GioActionParameterView>) -> ActionView {
    if name == "add-category"@ {
        match p { Some(GioActionParameterView::StringPair(a, b)) => ActionView::AddCategory(a, b), _ => ActionView::Nothing }
    } else if name == "add-tag"@ {
        match p { Some(GioActionParameterView::Str(s)) => ActionView::AddTag(s), _ => ActionView::Nothing }
    } else if name == "apply-order-setting"@ {
        match p { Some(GioActionParameterView::Int32(n)) => ActionView::ApplyOrderSetting(order_from_code(n as u8)->0), _ => ActionView::Nothing }
    } else if name == "apply-view-setting"@ {
        match p { Some(GioActionParameterView::Int32(n)) => ActionView::ApplyViewSetting(view_option_from_code(n as u8)->0), _ => ActionView::Nothing }
    } else if name == "cancel"@ {
        ActionView::Cancel
    } else if name == "cancel-selection-range"@ {
        ActionView::CancelSelectionRange
    } else if name == "categorize"@ {
        match p { Some(GioActionParameterView::Str(s)) => ActionView::Categorize(text_category(s)), _ => ActionView::Nothing }
    } else if name == "confirm-delete-file"@ {
        ActionView::ConfirmDeleteFile
    } else if name == "confirm-move-file"@ {
        match p { Some(GioActionParameterView::Str(s)) => ActionView::ConfirmMoveFile(s), _ => ActionView::Nothing }
    } else if name == "dismiss"@ {
        ActionView::Dismiss
    } else if name == "enter-add-tag"@ {
        ActionView::EnterAddTag
    } else if name == "enter-new-category"@ {
        ActionView::EnterNewCategory
    } else if name == "enter-index"@ {
        ActionView::EnterIndex
    } else if name == "enter-find"@ {
        match p { Some(GioActionParameterView::Int32(n)) => ActionView::EnterFind(find_from_code(n as u8)->0), _ => ActionView::Nothing }
    } else if name == "enter-label"@ {
        ActionView::EnterLabel
    } else if name == "enter-remove-tag"@ {
        ActionView::EnterRemoveTag
    } else if name == "enter-rename"@ {
        ActionView::EnterRename
    } else if name == "enter-select"@ {
        match p { Some(GioActionParameterView::Int32(n)) => ActionView::EnterSelect(find_from_code(n as u8)->0), _ => ActionView::Nothing }
    } else if name == "find"@ {
        match p { Some(GioActionParameterView::Int32String(n, s)) => ActionView::Find(find_from_code(n as u8)->0, s), _ => ActionView::Nothing }
    } else if name == "find-next"@ {
        ActionView::FindNext
    } else if name == "go-to-directory"@ {
        ActionView::GotoDirectory
    } else if name == "jump-to-index"@ {
        match p { Some(GioActionParameterView::Int32(n)) => ActionView::JumpToIndex(n as usize), _ => ActionView::Nothing }
    } else if name == "jump-to-mark"@ {
        match p { Some(GioActionParameterView::Str(s)) => ActionView::JumpToMark(s[0]), _ => ActionView::Nothing }
    } else if name == "jump-to-random"@ {
        ActionView::JumpToRandom
    } else if name == "label"@ {
        match p { Some(GioActionParameterView::Str(s)) => ActionView::Label(s), _ => ActionView::Nothing }
    } else if name == "mark"@ {
        match p { Some(GioActionParameterView::Str(s)) => ActionView::Mark(s[0]), _ => ActionView::Nothing }
    } else if name == "move-category"@ {
        match p { Some(GioActionParameterView::StringPair(a, b)) => ActionView::MoveCategory(a, b), _ => ActionView::Nothing }
    } else if name == "move-file"@ {
        ActionView::MoveFile
    } else if name == "focus-at"@ {
        match p { Some(GioActionParameterView::Int32Pair(a, b)) => ActionView::FocusAt(a, b), _ => ActionView::Nothing }
    } else if name == "move-towards"@ {
        match p { Some(GioActionParameterView::Int32(n)) => ActionView::MoveTowards(direction_from_code(n)), _ => ActionView::Nothing }
    } else if name == "nothing"@ {
        ActionView::Nothing
    } else if name == "pick-catalog-change"@ {
        ActionView::PickCatalogChange
    } else if name == "pick-change"@ {
        ActionView::PickChange
    } else if name == "pick-order-setting"@ {
        ActionView::PickOrderSetting
    } else if name == "pick-view-option"@ {
        ActionView::PickViewOption
    } else if name == "quit"@ {
        ActionView::Quit
    } else if name == "quit-directory"@ {
        ActionView::QuitDirectory
    } else if name == "rank"@ {
        match p { Some(GioActionParameterView::Int64(n)) => ActionView::Rank(rank_from_code(n)->0), _ => ActionView::Nothing }
    } else if name == "remove-category"@ {
        match p { Some(GioActionParameterView::Str(s)) => ActionView::RemoveCategory(s), _ => ActionView::Nothing }
    } else if name == "remove-tag"@ {
        match p { Some(GioActionParameterView::Str(s)) => ActionView::RemoveTag(s), _ => ActionView::Nothing }
    } else if name == "rename"@ {
        match p { Some(GioActionParameterView::Str(s)) => ActionView::Rename(s), _ => ActionView::Nothing }
    } else if name == "repeat-action"@ {
        ActionView::RepeatAction
    } else if name == "repeat-range-selection"@ {
        ActionView::RepeatRangeSelection
    } else if name == "select-category-add-target"@ {
        match p { Some(GioActionParameterView::Str(s)) => ActionView::SelectCategoryAddTarget(s), _ => ActionView::Nothing }
    } else if name == "select-category-for-picture"@ {
        ActionView::SelectCategoryForPicture
    } else if name == "select-category-move-target"@ {
        match p { Some(GioActionParameterView::Str(s)) => ActionView::SelectCategoryMoveTarget(s), _ => ActionView::Nothing }
    } else if name == "select-category-to-move"@ {
        ActionView::SelectCategoryToMove
    } else if name == "select-category-to-remove"@ {
        ActionView::SelectCategoryToRemove
    } else if name == "select"@ {
        match p { Some(GioActionParameterView::Int32String(n, s)) => ActionView::Select(find_from_code(n as u8)->0, s), _ => ActionView::Nothing }
    } else if name == "set-selection-all"@ {
        ActionView::SetSelectionAll
    } else if name == "set-selection-page"@ {
        ActionView::SetSelectionPage
    } else if name == "set-selection-range-end"@ {
        match p { Some(GioActionParameterView::Int32(n)) => ActionView::SetSelectionRangeEnd(n as usize), _ => ActionView::Nothing }
    } else if name == "set-selection-range-start"@ {
        match p { Some(GioActionParameterView::Int32(n)) => ActionView::SetSelectionRangeStart(n as usize), _ => ActionView::Nothing }
    } else if name == "test"@ {
        match p { Some(GioActionParameterView::Str(s)) => ActionView::Test(s), _ => ActionView::Nothing }
    } else if name == "toggle-cover"@ {
        ActionView::ToggleCover
    } else if name == "toggle-covers-view"@ {
        ActionView::ToggleCoversView
    } else if name == "toggle-palette"@ {
        ActionView::TogglePalette
    } else if name == "toggle-selected"@ {
        match p { Some(GioActionParameterView::Int32(n)) => ActionView::ToggleSelected(n as usize), _ => ActionView::Nothing }
    } else if name == "toggle-selected-at"@ {
        match p { Some(GioActionParameterView::Int32Pair(a, b)) => ActionView::ToggleSelectedAt(a, b), _ => ActionView::Nothing }
    } else if name == "toggle-single-view"@ {
        ActionView::ToggleSingleView
    } else if name == "toggle-slide-show"@ {
        ActionView::ToggleSlideShow
    } else if name == "toggle-thumbnails-view"@ {
        ActionView::ToggleThumbnailsView
    } else if name == "toggle-two-by-two-view"@ {
        ActionView::ToggleTwoByTwoView
    } else if name == "unlabel"@ {
        ActionView::Unlabel
    } else if name == "view-catalog"@ {
        ActionView::ViewCatalog
    } else {
        ActionView::Nothing
    }
}

/// The actions that survive their activation unchanged: an index, and the index of a
/// direction, that fit 32 bits, and a category with a name.
pub open spec fn round_trips(action: Action) -> bool {
    match action {
        Action::Categorize(Some(s)) => s@.len() > 0,
        Action::JumpToIndex(n) => n <= i32::MAX,
        Action::MoveTowards(Direction::Index { value }) => value <= i32::MAX,
        Action::SetSelectionRangeEnd(n) => n <= i32::MAX,
        Action::SetSelectionRangeStart(n) => n <= i32::MAX,
        Action::ToggleSelected(n) => n <= i32::MAX,
        _ => true,
    }
}

/// Reading the action back from the activation of an action gives the action again, for
/// every action that survives its activation (see `round_trips`).
#[verifier::spinoff_prover]
#[verifier::rlimit(50)]
pub proof fn lemma_gio_action_round_trip(action: Action)
    requires
        round_trips(action),
    ensures
        decodable(gio_action_name(action), gio_parameter(action)),
        decoded_action(gio_action_name(action), gio_parameter(action)) == action@,
{
    reveal_strlit("add-category");
    reveal_strlit("add-tag");
    reveal_strlit("apply-order-setting");
    reveal_strlit("apply-view-setting");
    reveal_strlit("cancel");
    reveal_strlit("cancel-selection-range");
    reveal_strlit("categorize");
    reveal_strlit("confirm-delete-file");
    reveal_strlit("confirm-move-file");
    reveal_strlit("dismiss");
    reveal_strlit("enter-add-tag");
    reveal_strlit("enter-new-category");
    reveal_strlit("enter-index");
    reveal_strlit("enter-find");
    reveal_strlit("enter-label");
    reveal_strlit("enter-remove-tag");
    reveal_strlit("enter-rename");
    reveal_strlit("enter-select");
    reveal_strlit("find");
    reveal_strlit("find-next");
    reveal_strlit("go-to-directory");
    reveal_strlit("jump-to-index");
    reveal_strlit("jump-to-mark");
    reveal_strlit("jump-to-random");
    reveal_strlit("label");
    reveal_strlit("mark");
    reveal_strlit("move-category");
    reveal_strlit("move-file");
    reveal_strlit("focus-at");
    reveal_strlit("move-towards");
    reveal_strlit("nothing");
    reveal_strlit("pick-catalog-change");
    reveal_strlit("pick-change");
    reveal_strlit("pick-order-setting");
    reveal_strlit("pick-view-option");
    reveal_strlit("quit");
    reveal_strlit("quit-directory");
    reveal_strlit("rank");
    reveal_strlit("remove-category");
    reveal_strlit("remove-tag");
    reveal_strlit("rename");
    reveal_strlit("repeat-action");
    reveal_strlit("repeat-range-selection");
    reveal_strlit("select-category-add-target");
    reveal_strlit("select-category-for-picture");
    reveal_strlit("select-category-move-target");
    reveal_strlit("select-category-to-move");
    reveal_strlit("select-category-to-remove");
    reveal_strlit("select");
    reveal_strlit("set-selection-all");
    reveal_strlit("set-selection-page");
    reveal_strlit("set-selection-range-end");
    reveal_strlit("set-selection-range-start");
    reveal_strlit("test");
    reveal_strlit("toggle-cover");
    reveal_strlit("toggle-covers-view");
    reveal_strlit("toggle-palette");
    reveal_strlit("toggle-selected");
    reveal_strlit("toggle-selected-at");
    reveal_strlit("toggle-single-view");
    reveal_strlit("toggle-slide-show");
    reveal_strlit("toggle-thumbnails-view");
    reveal_strlit("toggle-two-by-two-view");
    reveal_strlit("unlabel");
    reveal_strlit("view-catalog");
    // the names differ in length, or else at a character
    assert("add-category"@.len() == 12);
    assert("add-tag"@.len() == 7);
    assert("apply-order-setting"@.len() == 19);
    assert("apply-view-setting"@.len() == 18);
    assert("cancel"@.len() == 6);
    assert("cancel-selection-range"@.len() == 22);
    assert("categorize"@.len() == 10);
    assert("confirm-delete-file"@.len() == 19);
    assert("confirm-move-file"@.len() == 17);
    assert("dismiss"@.len() == 7);
    assert("enter-add-tag"@.len() == 13);
    assert("enter-new-category"@.len() == 18);
    assert("enter-index"@.len() == 11);
    assert("enter-find"@.len() == 10);
    assert("enter-label"@.len() == 11);
    assert("enter-remove-tag"@.len() == 16);
    assert("enter-rename"@.len() == 12);
    assert("enter-select"@.len() == 12);
    assert("find"@.len() == 4);
    assert("find-next"@.len() == 9);
    assert("go-to-directory"@.len() == 15);
    assert("jump-to-index"@.len() == 13);
    assert("jump-to-mark"@.len() == 12);
    assert("jump-to-random"@.len() == 14);
    assert("label"@.len() == 5);
    assert("mark"@.len() == 4);
    assert("move-category"@.len() == 13);
    assert("move-file"@.len() == 9);
    assert("focus-at"@.len() == 8);
    assert("move-towards"@.len() == 12);
    assert("nothing"@.len() == 7);
    assert("pick-catalog-change"@.len() == 19);
    assert("pick-change"@.len() == 11);
    assert("pick-order-setting"@.len() == 18);
    assert("pick-view-option"@.len() == 16);
    assert("quit"@.len() == 4);
    assert("quit-directory"@.len() == 14);
    assert("rank"@.len() == 4);
    assert("remove-category"@.len() == 15);
    assert("remove-tag"@.len() == 10);
    assert("rename"@.len() == 6);
    assert("repeat-action"@.len() == 13);
    assert("repeat-range-selection"@.len() == 22);
    assert("select-category-add-target"@.len() == 26);
    assert("select-category-for-picture"@.len() == 27);
    assert("select-category-move-target"@.len() == 27);
    assert("select-category-to-move"@.len() == 23);
    assert("select-category-to-remove"@.len() == 25);
    assert("select"@.len() == 6);
    assert("set-selection-all"@.len() == 17);
    assert("set-selection-page"@.len() == 18);
    assert("set-selection-range-end"@.len() == 23);
    assert("set-selection-range-start"@.len() == 25);
    assert("test"@.len() == 4);
    assert("toggle-cover"@.len() == 12);
    assert("toggle-covers-view"@.len() == 18);
    assert("toggle-palette"@.len() == 14);
    assert("toggle-selected"@.len() == 15);
    assert("toggle-selected-at"@.len() == 18);
    assert("toggle-single-view"@.len() == 18);
    assert("toggle-slide-show"@.len() == 17);
    assert("toggle-thumbnails-view"@.len() == 22);
    assert("toggle-two-by-two-view"@.len() == 22);
    assert("unlabel"@.len() == 7);
    assert("view-catalog"@.len() == 12);
    assert("add-category"@[0] == 'a');
    assert("add-tag"@[0] == 'a');
    assert("apply-order-setting"@[0] == 'a');
    assert("apply-view-setting"@[0] == 'a');
    assert("cancel"@[0] == 'c');
    assert("cancel-selection-range"@[0] == 'c');
    assert("categorize"@[0] == 'c');
    assert("confirm-delete-file"@[0] == 'c');
    assert("confirm-move-file"@[0] == 'c');
    assert("dismiss"@[0] == 'd');
    assert("enter-add-tag"@[0] == 'e');
    assert("enter-find"@[0] == 'e');
    assert("enter-index"@[0] == 'e');
    assert("enter-index"@[6] == 'i');
    assert("enter-label"@[0] == 'e');
    assert("enter-label"@[6] == 'l');
    assert("enter-new-category"@[0] == 'e');
    assert("enter-remove-tag"@[0] == 'e');
    assert("enter-rename"@[0] == 'e');
    assert("enter-rename"@[6] == 'r');
    assert("enter-select"@[0] == 'e');
    assert("enter-select"@[6] == 's');
    assert("find"@[0] == 'f');
    assert("find-next"@[0] == 'f');
    assert("go-to-directory"@[0] == 'g');
    assert("jump-to-index"@[0] == 'j');
    assert("jump-to-mark"@[0] == 'j');
    assert("jump-to-random"@[0] == 'j');
    assert("mark"@[0] == 'm');
    assert("move-category"@[0] == 'm');
    assert("move-file"@[0] == 'm');
    assert("move-towards"@[0] == 'm');
    assert("nothing"@[0] == 'n');
    assert("pick-catalog-change"@[0] == 'p');
    assert("pick-change"@[0] == 'p');
    assert("pick-order-setting"@[0] == 'p');
    assert("pick-view-option"@[0] == 'p');
    assert("quit"@[0] == 'q');
    assert("quit-directory"@[0] == 'q');
    assert("rank"@[0] == 'r');
    assert("remove-category"@[0] == 'r');
    assert("remove-tag"@[0] == 'r');
    assert("rename"@[0] == 'r');
    assert("repeat-action"@[0] == 'r');
    assert("repeat-range-selection"@[0] == 'r');
    assert("select"@[0] == 's');
    assert("select-category-for-picture"@[16] == 'f');
    assert("select-category-move-target"@[16] == 'm');
    assert("select-category-to-move"@[2] == 'l');
    assert("select-category-to-remove"@[2] == 'l');
    assert("set-selection-all"@[0] == 's');
    assert("set-selection-page"@[0] == 's');
    assert("set-selection-range-end"@[2] == 't');
    assert("set-selection-range-start"@[2] == 't');
    assert("test"@[0] == 't');
    assert("toggle-cover"@[0] == 't');
    assert("toggle-covers-view"@[0] == 't');
    assert("toggle-covers-view"@[7] == 'c');
    assert("toggle-palette"@[0] == 't');
    assert("toggle-selected"@[0] == 't');
    assert("toggle-selected-at"@[0] == 't');
    assert("toggle-selected-at"@[7] == 's');
    assert("toggle-selected-at"@[8] == 'e');
    assert("toggle-single-view"@[0] == 't');
    assert("toggle-single-view"@[7] == 's');
    assert("toggle-single-view"@[8] == 'i');
    assert("toggle-slide-show"@[0] == 't');
    assert("toggle-thumbnails-view"@[0] == 't');
    assert("toggle-thumbnails-view"@[8] == 'h');
    assert("toggle-two-by-two-view"@[0] == 't');
    assert("toggle-two-by-two-view"@[8] == 'w');
    assert("unlabel"@[0] == 'u');
    assert("view-catalog"@[0] == 'v');
}

/// Whether a parameter has the shape that actions of type `t` are registered with: none,
/// a one-character string, a 32-bit integer, a pair of them, one with a string, a 64-bit
/// integer, an unsigned 64-bit integer, a string or a pair of strings.
pub open spec fn carries_type(p: Option<GioActionParameterView>, t: GioActionParameterType) -> bool {
    match t {
        GioActionParameterType::NoParameter => p is None,
        GioActionParameterType::Char => p matches Some(GioActionParameterView::Str(s)) && s.len() == 1,
        GioActionParameterType::Int32 => p matches Some(GioActionParameterView::Int32(_)),
        GioActionParameterType::Int32Pair => p matches Some(GioActionParameterView::Int32Pair(_, _)),
        GioActionParameterType::Int32String => p matches Some(GioActionParameterView::Int32String(_, _)),
        GioActionParameterType::Int64 => p matches Some(GioActionParameterView::Int64(_)),
        GioActionParameterType::String => p matches Some(GioActionParameterView::Str(_)),
        GioActionParameterType::StringPair => p matches Some(GioActionParameterView::StringPair(_, _)),
        GioActionParameterType::Usize => p matches Some(GioActionParameterView::Uint64(_)),
    }
}

/// The parameter that an action carries has the type that the action is registered with,
/// for every action but `ToggleSelected`: that one is registered without a parameter yet
/// carries its index as a 32-bit integer.
pub proof fn lemma_parameter_has_registered_type(action: Action)
    requires
        !(action is ToggleSelected),
    ensures
        carries_type(gio_parameter(action), gio_action_parameter_type(action)),
{
}

/// The text that carries a category.
fn category_string(c: &Category) -> (r: String)
    ensures
        r@ == category_text(*c),
{
    match c {
        Some(s) => s.clone(),
        None => String::new(),
    }
}

/// The category that a text carries.
fn string_category(s: &String) -> (r: Category)
    ensures
        r matches Some(t) ==> t@ == s@,
        (r is Some) == (s@.len() > 0),
{
    let chars = chars_of(s.as_str());
    if chars.len() == 0 {
        None
    } else {
        Some(s.clone())
    }
}

/// The string of one character.
fn char_string(c: char) -> (r: String)
    ensures
        r@ == seq![c],
{
    let mut s = String::new();
    push_char(&mut s, c);
    s
}

/// The first character of a string, if any.
fn first_char(s: &String) -> (r: Option<char>)
    ensures
        s@.len() >= 1 ==> r == Some(s@[0]),
        s@.len() == 0 ==> r is None,
{
    let chars = chars_of(s.as_str());
    if chars.len() >= 1 {
        Some(chars[0])
    } else {
        None
    }
}

/// An index carried as a 32-bit integer (the low 32 bits of the index).
fn index_code(n: usize) -> (r: i32)
    ensures
        r == n as i32,
{
    #[verifier::truncate]
    (n as i32)
}

/// The index that a 32-bit integer carries, if it is not negative.
fn code_index(n: i32) -> (r: Option<usize>)
    ensures
        n >= 0 ==> r == Some(n as usize),
        n < 0 ==> r is None,
{
    if n >= 0 {
        Some(n as usize)
    } else {
        None
    }
}

/// The code of an option carried as a 32-bit integer, if it fits a byte.
fn code_u8(n: i32) -> (r: Option<u8>)
    ensures
        0 <= n <= 255 ==> r == Some(n as u8),
        !(0 <= n <= 255) ==> r is None,
{
    if 0 <= n && n <= 255 {
        Some(n as u8)
    } else {
        None
    }
}

/// An action ready to be activated: its name, the name under which the main controller's
/// group activates it, and the parameter it carries.
#[derive(Debug)]
pub struct GioAction {
    name: String,
    action_entry_name: String,
    parameter: Option<GioActionParameter>,
}

/// An activation as contracts speak of it.
pub ghost struct GioActionView {
    pub name: Seq<char>,
    pub action_entry_name: Seq<char>,
    pub parameter: Option<GioActionParameterView>,
}

impl View for GioAction {
    type V = GioActionView;

    closed spec fn view(&self) -> GioActionView {
        GioActionView {
            name: self.name@,
            action_entry_name: self.action_entry_name@,
            parameter: opt_parameter_view(self.parameter),
        }
    }
}

impl Clone for GioAction {
    fn clone(&self) -> (r: Self)
        ensures
            r@ == self@,
    {
        GioAction {
            name: self.name.clone(),
            action_entry_name: self.action_entry_name.clone(),
            parameter: match &self.parameter {
                Some(p) => Some(p.clone()),
                None => None,
            },
        }
    }
}

impl GioAction {
    /// The activation of the action named `name` with `parameter`, as the main controller's
    /// group receives it.
    pub fn from_activation(name: &str, parameter: Option<GioActionParameter>) -> (r: Self)
        ensures
            r@ == (GioActionView {
                name: name@,
                action_entry_name: entry_name_of(name@),
                parameter: opt_parameter_view(parameter),
            }),
    {
        GioAction { name: name.to_string(), action_entry_name: entry_name(name), parameter }
    }

    /// The activation of `action`: its registered name and the parameter that carries its
    /// values.
    pub fn from_action(action: Action) -> (r: Self)
        ensures
            r@ == (GioActionView {
                name: gio_action_name(action),
                action_entry_name: entry_name_of(gio_action_name(action)),
                parameter: gio_parameter(action),
            }),
    {
        let parameter = match &action {
            Action::AddCategory(a, b) => Some(GioActionParameter::StringPair(a.clone(), b.clone())),
            Action::AddTag(s) => Some(GioActionParameter::Str(s.clone())),
            Action::ApplyOrderSetting(o) => Some(GioActionParameter::Int32(o.code() as i32)),
            Action::ApplyViewSetting(o) => Some(GioActionParameter::Int32(o.code() as i32)),
            Action::Cancel => None,
            Action::CancelSelectionRange => None,
            Action::Categorize(c) => Some(GioActionParameter::Str(category_string(c))),
            Action::ConfirmDeleteFile => None,
            Action::ConfirmMoveFile(s) => Some(GioActionParameter::Str(s.clone())),
            Action::Dismiss => None,
            Action::EnterAddTag => None,
            Action::EnterNewCategory => None,
            Action::EnterIndex => None,
            Action::EnterFind(f) => Some(GioActionParameter::Int32(f.code() as i32)),
            Action::EnterLabel => None,
            Action::EnterRemoveTag => None,
            Action::EnterRename => None,
            Action::EnterSelect(f) => Some(GioActionParameter::Int32(f.code() as i32)),
            Action::Find(f, s) => Some(GioActionParameter::Int32String(f.code() as i32, s.clone())),
            Action::FindNext => None,
            Action::GotoDirectory => None,
            Action::JumpToIndex(n) => Some(GioActionParameter::Int32(index_code(*n))),
            Action::JumpToMark(c) => Some(GioActionParameter::Str(char_string(*c))),
            Action::JumpToRandom => None,
            Action::Label(s) => Some(GioActionParameter::Str(s.clone())),
            Action::Mark(c) => Some(GioActionParameter::Str(char_string(*c))),
            Action::MoveCategory(a, b) => Some(GioActionParameter::StringPair(a.clone(), b.clone())),
            Action::MoveFile => None,
            Action::FocusAt(a, b) => Some(GioActionParameter::Int32Pair(*a, *b)),
            Action::MoveTowards(d) => Some(GioActionParameter::Int32(d.to_code())),
            Action::Nothing => None,
            Action::PickCatalogChange => None,
            Action::PickChange => None,
            Action::PickOrderSetting => None,
            Action::PickViewOption => None,
            Action::Quit => None,
            Action::QuitDirectory => None,
            Action::Rank(r) => Some(GioActionParameter::Int64(r.code())),
            Action::RemoveCategory(s) => Some(GioActionParameter::Str(s.clone())),
            Action::RemoveTag(s) => Some(GioActionParameter::Str(s.clone())),
            Action::Rename(s) => Some(GioActionParameter::Str(s.clone())),
            Action::RepeatAction => None,
            Action::RepeatRangeSelection => None,
            Action::SelectCategoryAddTarget(s) => Some(GioActionParameter::Str(s.clone())),
            Action::SelectCategoryForPicture => None,
            Action::SelectCategoryMoveTarget(s) => Some(GioActionParameter::Str(s.clone())),
            Action::SelectCategoryToMove => None,
            Action::SelectCategoryToRemove => None,
            Action::Select(f, s) => Some(GioActionParameter::Int32String(f.code() as i32, s.clone())),
            Action::SetSelectionAll => None,
            Action::SetSelectionPage => None,
            Action::SetSelectionRangeEnd(n) => Some(GioActionParameter::Int32(index_code(*n))),
            Action::SetSelectionRangeStart(n) => Some(GioActionParameter::Int32(index_code(*n))),
            Action::Test(s) => Some(GioActionParameter::Str(s.clone())),
            Action::ToggleCover => None,
            Action::ToggleCoversView => None,
            Action::TogglePalette => None,
            Action::ToggleSelected(n) => Some(GioActionParameter::Int32(index_code(*n))),
            Action::ToggleSelectedAt(a, b) => Some(GioActionParameter::Int32Pair(*a, *b)),
            Action::ToggleSingleView => None,
            Action::ToggleSlideShow => None,
            Action::ToggleThumbnailsView => None,
            Action::ToggleTwoByTwoView => None,
            Action::Unlabel => None,
            Action::ViewCatalog => None,
        };
        let gio_action_type = GioActionType::from_action(action);
        GioAction {
            name: gio_action_type.name(),
            action_entry_name: gio_action_type.action_entry_name(),
            parameter,
        }
    }

    pub fn name(&self) -> (r: String)
        ensures
            r@ == self@.name,
    {
        self.name.clone()
    }

    pub fn action_entry_name(&self) -> (r: String)
        ensures
            r@ == self@.action_entry_name,
    {
        self.action_entry_name.clone()
    }

    pub fn parameter(&self) -> (r: Option<GioActionParameter>)
        ensures
            opt_parameter_view(r) == self@.parameter,
    {
        match &self.parameter {
            Some(p) => Some(p.clone()),
            None => None,
        }
    }
}

impl Action {
    /// The action that an activation stands for, or `None` where its parameter does not carry
    /// what its name asks for.
    pub fn try_from_gio_action(gio_action: &GioAction) -> (r: Option<Action>)
        ensures
            (r is Some) == decodable(gio_action@.name, gio_action@.parameter),
            r matches Some(a) ==> a@ == decoded_action(gio_action@.name, gio_action@.parameter),
    {
        let name = gio_action.name.as_str();
        let p = &gio_action.parameter;
        if str_eq(name, "add-category") {
            match p { Some(GioActionParameter::StringPair(a, b)) => Some(Action::AddCategory(a.clone(), b.clone())), _ => None }
        } else if str_eq(name, "add-tag") {
            match p { Some(GioActionParameter::Str(s)) => Some(Action::AddTag(s.clone())), _ => None }
        } else if str_eq(name, "apply-order-setting") {
            match p { Some(GioActionParameter::Int32(n)) => match code_u8(*n) { Some(c) => match Order::from_code(c) { Some(o) => Some(Action::ApplyOrderSetting(o)), None => None }, None => None }, _ => None }
        } else if str_eq(name, "apply-view-setting") {
            match p { Some(GioActionParameter::Int32(n)) => match code_u8(*n) { Some(c) => match ViewOption::from_code(c) { Some(o) => Some(Action::ApplyViewSetting(o)), None => None }, None => None }, _ => None }
        } else if str_eq(name, "cancel") {
            Some(Action::Cancel)
        } else if str_eq(name, "cancel-selection-range") {
            Some(Action::CancelSelectionRange)
        } else if str_eq(name, "categorize") {
            match p { Some(GioActionParameter::Str(s)) => Some(Action::Categorize(string_category(s))), _ => None }
        } else if str_eq(name, "confirm-delete-file") {
            Some(Action::ConfirmDeleteFile)
        } else if str_eq(name, "confirm-move-file") {
            match p { Some(GioActionParameter::Str(s)) => Some(Action::ConfirmMoveFile(s.clone())), _ => None }
        } else if str_eq(name, "dismiss") {
            Some(Action::Dismiss)
        } else if str_eq(name, "enter-add-tag") {
            Some(Action::EnterAddTag)
        } else if str_eq(name, "enter-new-category") {
            Some(Action::EnterNewCategory)
        } else if str_eq(name, "enter-index") {
            Some(Action::EnterIndex)
        } else if str_eq(name, "enter-find") {
            match p { Some(GioActionParameter::Int32(n)) => match code_u8(*n) { Some(c) => match Find::from_code(c) { Some(f) => Some(Action::EnterFind(f)), None => None }, None => None }, _ => None }
        } else if str_eq(name, "enter-label") {
            Some(Action::EnterLabel)
        } else if str_eq(name, "enter-remove-tag") {
            Some(Action::EnterRemoveTag)
        } else if str_eq(name, "enter-rename") {
            Some(Action::EnterRename)
        } else if str_eq(name, "enter-select") {
            match p { Some(GioActionParameter::Int32(n)) => match code_u8(*n) { Some(c) => match Find::from_code(c) { Some(f) => Some(Action::EnterSelect(f)), None => None }, None => None }, _ => None }
        } else if str_eq(name, "find") {
            match p { Some(GioActionParameter::Int32String(n, s)) => match code_u8(*n) { Some(c) => match Find::from_code(c) { Some(f) => Some(Action::Find(f, s.clone())), None => None }, None => None }, _ => None }
        } else if str_eq(name, "find-next") {
            Some(Action::FindNext)
        } else if str_eq(name, "go-to-directory") {
            Some(Action::GotoDirectory)
        } else if str_eq(name, "jump-to-index") {
            match p { Some(GioActionParameter::Int32(n)) => match code_index(*n) { Some(i) => Some(Action::JumpToIndex(i)), None => None }, _ => None }
        } else if str_eq(name, "jump-to-mark") {
            match p { Some(GioActionParameter::Str(s)) => match first_char(s) { Some(c) => Some(Action::JumpToMark(c)), None => None }, _ => None }
        } else if str_eq(name, "jump-to-random") {
            Some(Action::JumpToRandom)
        } else if str_eq(name, "label") {
            match p { Some(GioActionParameter::Str(s)) => Some(Action::Label(s.clone())), _ => None }
        } else if str_eq(name, "mark") {
            match p { Some(GioActionParameter::Str(s)) => match first_char(s) { Some(c) => Some(Action::Mark(c)), None => None }, _ => None }
        } else if str_eq(name, "move-category") {
            match p { Some(GioActionParameter::StringPair(a, b)) => Some(Action::MoveCategory(a.clone(), b.clone())), _ => None }
        } else if str_eq(name, "move-file") {
            Some(Action::MoveFile)
        } else if str_eq(name, "focus-at") {
            match p { Some(GioActionParameter::Int32Pair(a, b)) => Some(Action::FocusAt(*a, *b)), _ => None }
        } else if str_eq(name, "move-towards") {
            match p { Some(GioActionParameter::Int32(n)) => if *n >= -10 { Some(Action::MoveTowards(Direction::from_code(*n))) } else { None }, _ => None }
        } else if str_eq(name, "nothing") {
            Some(Action::Nothing)
        } else if str_eq(name, "pick-catalog-change") {
            Some(Action::PickCatalogChange)
        } else if str_eq(name, "pick-change") {
            Some(Action::PickChange)
        } else if str_eq(name, "pick-order-setting") {
            Some(Action::PickOrderSetting)
        } else if str_eq(name, "pick-view-option") {
            Some(Action::PickViewOption)
        } else if str_eq(name, "quit") {
            Some(Action::Quit)
        } else if str_eq(name, "quit-directory") {
            Some(Action::QuitDirectory)
        } else if str_eq(name, "rank") {
            match p { Some(GioActionParameter::Int64(n)) => match Rank::from_code(*n) { Some(r) => Some(Action::Rank(r)), None => None }, _ => None }
        } else if str_eq(name, "remove-category") {
            match p { Some(GioActionParameter::Str(s)) => Some(Action::RemoveCategory(s.clone())), _ => None }
        } else if str_eq(name, "remove-tag") {
            match p { Some(GioActionParameter::Str(s)) => Some(Action::RemoveTag(s.clone())), _ => None }
        } else if str_eq(name, "rename") {
            match p { Some(GioActionParameter::Str(s)) => Some(Action::Rename(s.clone())), _ => None }
        } else if str_eq(name, "repeat-action") {
            Some(Action::RepeatAction)
        } else if str_eq(name, "repeat-range-selection") {
            Some(Action::RepeatRangeSelection)
        } else if str_eq(name, "select-category-add-target") {
            match p { Some(GioActionParameter::Str(s)) => Some(Action::SelectCategoryAddTarget(s.clone())), _ => None }
        } else if str_eq(name, "select-category-for-picture") {
            Some(Action::SelectCategoryForPicture)
        } else if str_eq(name, "select-category-move-target") {
            match p { Some(GioActionParameter::Str(s)) => Some(Action::SelectCategoryMoveTarget(s.clone())), _ => None }
        } else if str_eq(name, "select-category-to-move") {
            Some(Action::SelectCategoryToMove)
        } else if str_eq(name, "select-category-to-remove") {
            Some(Action::SelectCategoryToRemove)
        } else if str_eq(name, "select") {
            match p { Some(GioActionParameter::Int32String(n, s)) => match code_u8(*n) { Some(c) => match Find::from_code(c) { Some(f) => Some(Action::Select(f, s.clone())), None => None }, None => None }, _ => None }
        } else if str_eq(name, "set-selection-all") {
            Some(Action::SetSelectionAll)
        } else if str_eq(name, "set-selection-page") {
            Some(Action::SetSelectionPage)
        } else if str_eq(name, "set-selection-range-end") {
            match p { Some(GioActionParameter::Int32(n)) => match code_index(*n) { Some(i) => Some(Action::SetSelectionRangeEnd(i)), None => None }, _ => None }
        } else if str_eq(name, "set-selection-range-start") {
            match p { Some(GioActionParameter::Int32(n)) => match code_index(*n) { Some(i) => Some(Action::SetSelectionRangeStart(i)), None => None }, _ => None }
        } else if str_eq(name, "test") {
            match p { Some(GioActionParameter::Str(s)) => Some(Action::Test(s.clone())), _ => None }
        } else if str_eq(name, "toggle-cover") {
            Some(Action::ToggleCover)
        } else if str_eq(name, "toggle-covers-view") {
            Some(Action::ToggleCoversView)
        } else if str_eq(name, "toggle-palette") {
            Some(Action::TogglePalette)
        } else if str_eq(name, "toggle-selected") {
            match p { Some(GioActionParameter::Int32(n)) => match code_index(*n) { Some(i) => Some(Action::ToggleSelected(i)), None => None }, _ => None }
        } else if str_eq(name, "toggle-selected-at") {
            match p { Some(GioActionParameter::Int32Pair(a, b)) => Some(Action::ToggleSelectedAt(*a, *b)), _ => None }
        } else if str_eq(name, "toggle-single-view") {
            Some(Action::ToggleSingleView)
        } else if str_eq(name, "toggle-slide-show") {
            Some(Action::ToggleSlideShow)
        } else if str_eq(name, "toggle-thumbnails-view") {
            Some(Action::ToggleThumbnailsView)
        } else if str_eq(name, "toggle-two-by-two-view") {
            Some(Action::ToggleTwoByTwoView)
        } else if str_eq(name, "unlabel") {
            Some(Action::Unlabel)
        } else if str_eq(name, "view-catalog") {
            Some(Action::ViewCatalog)
        } else {
            Some(Action::Nothing)
        }
    }

    /// The action that an activation stands for.
    pub fn from_gio_action(gio_action: &GioAction) -> (r: Action)
        requires
            decodable(gio_action@.name, gio_action@.parameter),
        ensures
            r@ == decoded_action(gio_action@.name, gio_action@.parameter),
    {
        Action::try_from_gio_action(gio_action).unwrap()
    }
}

} // verus!
