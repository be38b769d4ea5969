use crate::control::Control;
use crate::direction::Direction;
use crate::mode::Mode;
use crate::model::{Category, Find, Label, Order, Rank, ViewOption};
use crate::text::string_of;
use vstd::prelude::*;

pub mod gio_action;

verus! {

/// The name of the group in which the main controller registers its actions.
pub const MAIN_CONTROLLER_GROUP_NAME: &'static str = "main-controller";

/// Something that the user asks the application to do.
#[derive(Debug, PartialEq)]
pub enum Action {
    /// add a new sub category under a category
    AddCategory(String, String),
    /// add tag(s) to the selected pictures
    AddTag(Label),
    /// apply the order in which see the pictures
    ApplyOrderSetting(Order),
    /// change the view setting
    ApplyViewSetting(ViewOption),
    /// cancel current interaction
    Cancel,
    /// cancel selection
    CancelSelectionRange,
    /// change the category of the selected pictures
    Categorize(Category),
    /// input a yes to deleting selected picture files
    ConfirmDeleteFile,
    /// input a yes to moving selected picture files
    ConfirmMoveFile(String),
    /// dismiss after presentation of an information
    Dismiss,
    /// enter new tag(s) to add to the selected pictures
    EnterAddTag,
    /// enter new category to add to the catalog
    EnterNewCategory,
    /// interactively enter index to jump to
    EnterIndex,
    /// interactively enter criteria for finding
    EnterFind(Find),
    /// enter label to apply to the selected pictures
    EnterLabel,
    /// enter tag(s) to remove from the selected pictures
    EnterRemoveTag,
    /// enter new name for selected picture
    EnterRename,
    /// interactively enter criteria for selecting
    EnterSelect(Find),
    /// find the first picture matching the find criteria
    Find(Find, String),
    /// find the next picture matching the current criteria
    FindNext,
    /// view only pictures from a sub directory
    GotoDirectory,
    /// jump to picture #n
    JumpToIndex(usize),
    /// jump to picture marked a|b|…|z
    JumpToMark(char),
    /// jump to a random picture
    JumpToRandom,
    /// label the selected pictures
    Label(Label),
    /// set the mark a|b|…|z to the current picture
    Mark(char),
    /// move the sub category under a category
    MoveCategory(String, String),
    /// move selected picture files
    MoveFile,
    /// set the picture at col,row the current picture
    FocusAt(i32, i32),
    /// move to a direction
    MoveTowards(Direction),
    /// do nothing (test)
    Nothing,
    /// interactively select what catalog change to make
    PickCatalogChange,
    /// interactively select what change to make
    PickChange,
    /// interactively select which order setting to apply
    PickOrderSetting,
    /// interactively select what view setting to apply
    PickViewOption,
    /// exit from gsr
    Quit,
    /// view all pictures not only sub directory
    QuitDirectory,
    /// rank the selected pictures
    Rank(Rank),
    /// remove the sub category from the catalog
    RemoveCategory(String),
    /// remove tag(s) from the selected pictures
    RemoveTag(Label),
    /// rename the selected picture file
    Rename(String),
    /// redo the last action
    RepeatAction,
    /// redo the last selection
    RepeatRangeSelection,
    /// select category to add another category to in the catalog
    SelectCategoryAddTarget(String),
    /// select category to apply to the selected pictures
    SelectCategoryForPicture,
    /// select category to move another category to in the catalog
    SelectCategoryMoveTarget(String),
    /// select category to move in the catalog
    SelectCategoryToMove,
    /// select category to remove from the catalog
    SelectCategoryToRemove,
    /// view only pictures matching the find criteria
    Select(Find, String),
    /// set the selection to all pictures
    SetSelectionAll,
    /// set the selection to all pictures in the page
    SetSelectionPage,
    /// send the selection at the current picture
    SetSelectionRangeEnd(usize),
    /// start a selection from the current picture
    SetSelectionRangeStart(usize),
    /// test action for development test
    Test(String),
    /// toggle current picture set to cover or not
    ToggleCover,
    /// set the view on off to only covers
    ToggleCoversView,
    /// set the palette visible on / off
    TogglePalette,
    /// toggle current picture in or out the selection
    ToggleSelected(usize),
    /// set the picture at col,row selected or deselected
    ToggleSelectedAt(i32, i32),
    /// set the view to single / back to multiple
    ToggleSingleView,
    /// set the slide show on off
    ToggleSlideShow,
    /// set the view to thumbnails / back to previous
    ToggleThumbnailsView,
    /// set the view to 2x2 / back to previous
    ToggleTwoByTwoView,
    /// remove label from the selected pictures
    Unlabel,
    /// show a list of all categories
    ViewCatalog,
}

/// An action as contracts speak of it: its strings by their characters.
pub ghost enum ActionView {
    AddCategory(Seq<char>, Seq<char>),
    AddTag(Seq<char>),
    ApplyOrderSetting(Order),
    ApplyViewSetting(ViewOption),
    Cancel,
    CancelSelectionRange,
    Categorize(Option<Seq<char>>),
    ConfirmDeleteFile,
    ConfirmMoveFile(Seq<char>),
    Dismiss,
    EnterAddTag,
    EnterNewCategory,
    EnterIndex,
    EnterFind(Find),
    EnterLabel,
    EnterRemoveTag,
    EnterRename,
    EnterSelect(Find),
    Find(Find, Seq<char>),
    FindNext,
    GotoDirectory,
    JumpToIndex(usize),
    JumpToMark(char),
    JumpToRandom,
    Label(Seq<char>),
    Mark(char),
    MoveCategory(Seq<char>, Seq<char>),
    MoveFile,
    FocusAt(i32, i32),
    MoveTowards(Direction),
    Nothing,
    PickCatalogChange,
    PickChange,
    PickOrderSetting,
    PickViewOption,
    Quit,
    QuitDirectory,
    Rank(Rank),
    RemoveCategory(Seq<char>),
    RemoveTag(Seq<char>),
    Rename(Seq<char>),
    RepeatAction,
    RepeatRangeSelection,
    SelectCategoryAddTarget(Seq<char>),
    SelectCategoryForPicture,
    SelectCategoryMoveTarget(Seq<char>),
    SelectCategoryToMove,
    SelectCategoryToRemove,
    Select(Find, Seq<char>),
    SetSelectionAll,
    SetSelectionPage,
    SetSelectionRangeEnd(usize),
    SetSelectionRangeStart(usize),
    Test(Seq<char>),
    ToggleCover,
    ToggleCoversView,
    TogglePalette,
    ToggleSelected(usize),
    ToggleSelectedAt(i32, i32),
    ToggleSingleView,
    ToggleSlideShow,
    ToggleThumbnailsView,
    ToggleTwoByTwoView,
    Unlabel,
    ViewCatalog,
}

/// The characters of an optional string.
pub open spec fn opt_chars(s: Option<String>) -> Option<Seq<char>> {
    match s {
        Some(t) => Some(t@),
        None => None,
    }
}

impl View for Action {
    type V = ActionView;

    open spec fn view(&self) -> ActionView {
        match *self {
            Action::AddCategory(a0, a1) => ActionView::AddCategory(a0@, a1@),
            Action::AddTag(a0) => ActionView::AddTag(a0@),
            Action::ApplyOrderSetting(a0) => ActionView::ApplyOrderSetting(a0),
            Action::ApplyViewSetting(a0) => ActionView::ApplyViewSetting(a0),
            Action::Cancel => ActionView::Cancel,
            Action::CancelSelectionRange => ActionView::CancelSelectionRange,
            Action::Categorize(a0) => ActionView::Categorize(opt_chars(a0)),
            Action::ConfirmDeleteFile => ActionView::ConfirmDeleteFile,
            Action::ConfirmMoveFile(a0) => ActionView::ConfirmMoveFile(a0@),
            Action::Dismiss => ActionView::Dismiss,
            Action::EnterAddTag => ActionView::EnterAddTag,
            Action::EnterNewCategory => ActionView::EnterNewCategory,
            Action::EnterIndex => ActionView::EnterIndex,
            Action::EnterFind(a0) => ActionView::EnterFind(a0),
            Action::EnterLabel => ActionView::EnterLabel,
            Action::EnterRemoveTag => ActionView::EnterRemoveTag,
            Action::EnterRename => ActionView::EnterRename,
            Action::EnterSelect(a0) => ActionView::EnterSelect(a0),
            Action::Find(a0, a1) => ActionView::Find(a0, a1@),
            Action::FindNext => ActionView::FindNext,
            Action::GotoDirectory => ActionView::GotoDirectory,
            Action::JumpToIndex(a0) => ActionView::JumpToIndex(a0),
            Action::JumpToMark(a0) => ActionView::JumpToMark(a0),
            Action::JumpToRandom => ActionView::JumpToRandom,
            Action::Label(a0) => ActionView::Label(a0@),
            Action::Mark(a0) => ActionView::Mark(a0),
            Action::MoveCategory(a0, a1) => ActionView::MoveCategory(a0@, a1@),
            Action::MoveFile => ActionView::MoveFile,
            Action::FocusAt(a0, a1) => ActionView::FocusAt(a0, a1),
            Action::MoveTowards(a0) => ActionView::MoveTowards(a0),
            Action::Nothing => ActionView::Nothing,
            Action::PickCatalogChange => ActionView::PickCatalogChange,
            Action::PickChange => ActionView::PickChange,
            Action::PickOrderSetting => ActionView::PickOrderSetting,
            Action::PickViewOption => ActionView::PickViewOption,
            Action::Quit => ActionView::Quit,
            Action::QuitDirectory => ActionView::QuitDirectory,
            Action::Rank(a0) => ActionView::Rank(a0),
            Action::RemoveCategory(a0) => ActionView::RemoveCategory(a0@),
            Action::RemoveTag(a0) => ActionView::RemoveTag(a0@),
            Action::Rename(a0) => ActionView::Rename(a0@),
            Action::RepeatAction => ActionView::RepeatAction,
            Action::RepeatRangeSelection => ActionView::RepeatRangeSelection,
            Action::SelectCategoryAddTarget(a0) => ActionView::SelectCategoryAddTarget(a0@),
            Action::SelectCategoryForPicture => ActionView::SelectCategoryForPicture,
            Action::SelectCategoryMoveTarget(a0) => ActionView::SelectCategoryMoveTarget(a0@),
            Action::SelectCategoryToMove => ActionView::SelectCategoryToMove,
            Action::SelectCategoryToRemove => ActionView::SelectCategoryToRemove,
            Action::Select(a0, a1) => ActionView::Select(a0, a1@),
            Action::SetSelectionAll => ActionView::SetSelectionAll,
            Action::SetSelectionPage => ActionView::SetSelectionPage,
            Action::SetSelectionRangeEnd(a0) => ActionView::SetSelectionRangeEnd(a0),
            Action::SetSelectionRangeStart(a0) => ActionView::SetSelectionRangeStart(a0),
            Action::Test(a0) => ActionView::Test(a0@),
            Action::ToggleCover => ActionView::ToggleCover,
            Action::ToggleCoversView => ActionView::ToggleCoversView,
            Action::TogglePalette => ActionView::TogglePalette,
            Action::ToggleSelected(a0) => ActionView::ToggleSelected(a0),
            Action::ToggleSelectedAt(a0, a1) => ActionView::ToggleSelectedAt(a0, a1),
            Action::ToggleSingleView => ActionView::ToggleSingleView,
            Action::ToggleSlideShow => ActionView::ToggleSlideShow,
            Action::ToggleThumbnailsView => ActionView::ToggleThumbnailsView,
            Action::ToggleTwoByTwoView => ActionView::ToggleTwoByTwoView,
            Action::Unlabel => ActionView::Unlabel,
            Action::ViewCatalog => ActionView::ViewCatalog,
        }
    }
}

impl Clone for Action {
    fn clone(&self) -> (r: Self)
        ensures
            r == *self,
    {
        match self {
            Action::AddCategory(a0, a1) => Action::AddCategory(a0.clone(), a1.clone()),
            Action::AddTag(a0) => Action::AddTag(a0.clone()),
            Action::ApplyOrderSetting(a0) => Action::ApplyOrderSetting(*a0),
            Action::ApplyViewSetting(a0) => Action::ApplyViewSetting(*a0),
            Action::Cancel => Action::Cancel,
            Action::CancelSelectionRange => Action::CancelSelectionRange,
            Action::Categorize(a0) => Action::Categorize(a0.clone()),
            Action::ConfirmDeleteFile => Action::ConfirmDeleteFile,
            Action::ConfirmMoveFile(a0) => Action::ConfirmMoveFile(a0.clone()),
            Action::Dismiss => Action::Dismiss,
            Action::EnterAddTag => Action::EnterAddTag,
            Action::EnterNewCategory => Action::EnterNewCategory,
            Action::EnterIndex => Action::EnterIndex,
            Action::EnterFind(a0) => Action::EnterFind(*a0),
            Action::EnterLabel => Action::EnterLabel,
            Action::EnterRemoveTag => Action::EnterRemoveTag,
            Action::EnterRename => Action::EnterRename,
            Action::EnterSelect(a0) => Action::EnterSelect(*a0),
            Action::Find(a0, a1) => Action::Find(*a0, a1.clone()),
            Action::FindNext => Action::FindNext,
            Action::GotoDirectory => Action::GotoDirectory,
            Action::JumpToIndex(a0) => Action::JumpToIndex(*a0),
            Action::JumpToMark(a0) => Action::JumpToMark(*a0),
            Action::JumpToRandom => Action::JumpToRandom,
            Action::Label(a0) => Action::Label(a0.clone()),
            Action::Mark(a0) => Action::Mark(*a0),
            Action::MoveCategory(a0, a1) => Action::MoveCategory(a0.clone(), a1.clone()),
            Action::MoveFile => Action::MoveFile,
            Action::FocusAt(a0, a1) => Action::FocusAt(*a0, *a1),
            Action::MoveTowards(a0) => Action::MoveTowards(*a0),
            Action::Nothing => Action::Nothing,
            Action::PickCatalogChange => Action::PickCatalogChange,
            Action::PickChange => Action::PickChange,
            Action::PickOrderSetting => Action::PickOrderSetting,
            Action::PickViewOption => Action::PickViewOption,
            Action::Quit => Action::Quit,
            Action::QuitDirectory => Action::QuitDirectory,
            Action::Rank(a0) => Action::Rank(*a0),
            Action::RemoveCategory(a0) => Action::RemoveCategory(a0.clone()),
            Action::RemoveTag(a0) => Action::RemoveTag(a0.clone()),
            Action::Rename(a0) => Action::Rename(a0.clone()),
            Action::RepeatAction => Action::RepeatAction,
            Action::RepeatRangeSelection => Action::RepeatRangeSelection,
            Action::SelectCategoryAddTarget(a0) => Action::SelectCategoryAddTarget(a0.clone()),
            Action::SelectCategoryForPicture => Action::SelectCategoryForPicture,
            Action::SelectCategoryMoveTarget(a0) => Action::SelectCategoryMoveTarget(a0.clone()),
            Action::SelectCategoryToMove => Action::SelectCategoryToMove,
            Action::SelectCategoryToRemove => Action::SelectCategoryToRemove,
            Action::Select(a0, a1) => Action::Select(*a0, a1.clone()),
            Action::SetSelectionAll => Action::SetSelectionAll,
            Action::SetSelectionPage => Action::SetSelectionPage,
            Action::SetSelectionRangeEnd(a0) => Action::SetSelectionRangeEnd(*a0),
            Action::SetSelectionRangeStart(a0) => Action::SetSelectionRangeStart(*a0),
            Action::Test(a0) => Action::Test(a0.clone()),
            Action::ToggleCover => Action::ToggleCover,
            Action::ToggleCoversView => Action::ToggleCoversView,
            Action::TogglePalette => Action::TogglePalette,
            Action::ToggleSelected(a0) => Action::ToggleSelected(*a0),
            Action::ToggleSelectedAt(a0, a1) => Action::ToggleSelectedAt(*a0, *a1),
            Action::ToggleSingleView => Action::ToggleSingleView,
            Action::ToggleSlideShow => Action::ToggleSlideShow,
            Action::ToggleThumbnailsView => Action::ToggleThumbnailsView,
            Action::ToggleTwoByTwoView => Action::ToggleTwoByTwoView,
            Action::Unlabel => Action::Unlabel,
            Action::ViewCatalog => Action::ViewCatalog,
        }
    }
}

/// The actions that repeating the last action may redo.
pub open spec fn repeatable(action: Action) -> bool {
    match action {
        Action::AddTag(_) => true,
        Action::Categorize(_) => true,
        Action::Label(_) => true,
        Action::Rank(_) => true,
        Action::RemoveTag(_) => true,
        Action::Unlabel => true,
        _ => false,
    }
}

/// The action that a control launches directly; most controls launch none of their own.
pub open spec fn action_of_control(control: Control) -> ActionView {
    match control {
        Control::BackFromDirectory => ActionView::QuitDirectory,
        Control::CancelEdition => ActionView::Cancel,
        Control::Down => ActionView::MoveTowards(Direction::Down),
        Control::PickChange => ActionView::PickChange,
        Control::GotoDirectory => ActionView::GotoDirectory,
        Control::Left => ActionView::MoveTowards(Direction::Left),
        Control::MoveEndPage => ActionView::MoveTowards(Direction::PageEnd),
        Control::MoveFirst => ActionView::MoveTowards(Direction::First),
        Control::MoveLast => ActionView::MoveTowards(Direction::Last),
        Control::MoveNext => ActionView::MoveTowards(Direction::NextPage),
        Control::MovePrev => ActionView::MoveTowards(Direction::PrevPage),
        Control::MoveStartPage => ActionView::MoveTowards(Direction::PageStart),
        Control::Quit => ActionView::Quit,
        Control::RankNoStar => ActionView::Rank(Rank::NoStar),
        Control::RankOneStar => ActionView::Rank(Rank::OneStar),
        Control::RankThreeStars => ActionView::Rank(Rank::ThreeStars),
        Control::RankTwoStars => ActionView::Rank(Rank::TwoStars),
        Control::Right => ActionView::MoveTowards(Direction::Right),
        Control::SetOrder => ActionView::PickOrderSetting,
        Control::SetView => ActionView::PickViewOption,
        Control::ToggleFullSize => ActionView::ApplyViewSetting(ViewOption::FullSize),
        Control::TogglePalette => ActionView::TogglePalette,
        Control::ToggleSingleView => ActionView::ToggleSingleView,
        Control::ToggleThumbView => ActionView::ToggleThumbnailsView,
        Control::ToggleTwoByTwoView => ActionView::ToggleTwoByTwoView,
        Control::Up => ActionView::MoveTowards(Direction::Up),
        _ => ActionView::Nothing,
    }
}

impl Action {
    /// Whether repeating the last action may redo this one.
    pub fn is_repeatable(&self) -> (r: bool)
        ensures
            r == repeatable(*self),
    {
        match self {
            Action::AddTag(_) => true,
            Action::Categorize(_) => true,
            Action::Label(_) => true,
            Action::Rank(_) => true,
            Action::RemoveTag(_) => true,
            Action::Unlabel => true,
            _ => false,
        }
    }

    /// The entry name of the action that a key launches in a mode: for now always the test
    /// action of the main controller.
    pub fn single_action_name(_key_name: &str, _mode: Mode) -> (r: String)
        ensures
            r@ == MAIN_CONTROLLER_GROUP_NAME@ + "."@ + "test"@,
    {
        entry_name("test")
    }

    /// The action that a control launches.
    pub fn from_control(control: &Control) -> (r: Self)
        ensures
            r@ == action_of_control(*control),
    {
        match control {
            Control::BackFromDirectory => Action::QuitDirectory,
            Control::CancelEdition => Action::Cancel,
            Control::Down => Action::MoveTowards(Direction::Down),
            Control::PickChange => Action::PickChange,
            Control::GotoDirectory => Action::GotoDirectory,
            Control::Left => Action::MoveTowards(Direction::Left),
            Control::MoveEndPage => Action::MoveTowards(Direction::PageEnd),
            Control::MoveFirst => Action::MoveTowards(Direction::First),
            Control::MoveLast => Action::MoveTowards(Direction::Last),
            Control::MoveNext => Action::MoveTowards(Direction::NextPage),
            Control::MovePrev => Action::MoveTowards(Direction::PrevPage),
            Control::MoveStartPage => Action::MoveTowards(Direction::PageStart),
            Control::Quit => Action::Quit,
            Control::RankNoStar => Action::Rank(Rank::NoStar),
            Control::RankOneStar => Action::Rank(Rank::OneStar),
            Control::RankThreeStars => Action::Rank(Rank::ThreeStars),
            Control::RankTwoStars => Action::Rank(Rank::TwoStars),
            Control::Right => Action::MoveTowards(Direction::Right),
            Control::SetOrder => Action::PickOrderSetting,
            Control::SetView => Action::PickViewOption,
            Control::ToggleFullSize => Action::ApplyViewSetting(ViewOption::FullSize),
            Control::TogglePalette => Action::TogglePalette,
            Control::ToggleSingleView => Action::ToggleSingleView,
            Control::ToggleThumbView => Action::ToggleThumbnailsView,
            Control::ToggleTwoByTwoView => Action::ToggleTwoByTwoView,
            Control::Up => Action::MoveTowards(Direction::Up),
            _ => Action::Nothing,
        }
    }
}

/// `group.name`: the name by which an action of the main controller is activated.
pub open spec fn entry_name_of(name: Seq<char>) -> Seq<char> {
    MAIN_CONTROLLER_GROUP_NAME@ + "."@ + name
}

/// The entry name of the main controller's action `name`.
pub fn entry_name(name: &str) -> (r: String)
    ensures
        r@ == entry_name_of(name@),
{
    let mut r = string_of(MAIN_CONTROLLER_GROUP_NAME);
    r.append(".");
    r.append(name);
    r
}

/// The type of the parameter that an action carries when it is activated.
#[derive(Clone, Copy, Debug, PartialEq, Eq, Structural)]
pub enum GioActionParameterType {
    NoParameter,
    Char,
    Int32,
    Int32Pair,
    Int32String,
    Int64,
    String,
    StringPair,
    Usize,
}

/// The name under which an action is registered.
pub open spec fn gio_action_name(action: Action) -> Seq<char> {
    match action {
        Action::AddCategory(_, _) => "add-category"@,
        Action::AddTag(_) => "add-tag"@,
        Action::ApplyOrderSetting(_) => "apply-order-setting"@,
        Action::ApplyViewSetting(_) => "apply-view-setting"@,
        Action::Cancel => "cancel"@,
        Action::CancelSelectionRange => "cancel-selection-range"@,
        Action::Categorize(_) => "categorize"@,
        Action::ConfirmDeleteFile => "confirm-delete-file"@,
        Action::ConfirmMoveFile(_) => "confirm-move-file"@,
        Action::Dismiss => "dismiss"@,
        Action::EnterAddTag => "enter-add-tag"@,
        Action::EnterNewCategory => "enter-new-category"@,
        Action::EnterIndex => "enter-index"@,
        Action::EnterFind(_) => "enter-find"@,
        Action::EnterLabel => "enter-label"@,
        Action::EnterRemoveTag => "enter-remove-tag"@,
        Action::EnterRename => "enter-rename"@,
        Action::EnterSelect(_) => "enter-select"@,
        Action::Find(_, _) => "find"@,
        Action::FindNext => "find-next"@,
        Action::GotoDirectory => "go-to-directory"@,
        Action::JumpToIndex(_) => "jump-to-index"@,
        Action::JumpToMark(_) => "jump-to-mark"@,
        Action::JumpToRandom => "jump-to-random"@,
        Action::Label(_) => "label"@,
        Action::Mark(_) => "mark"@,
        Action::MoveCategory(_, _) => "move-category"@,
        Action::MoveFile => "move-file"@,
        Action::FocusAt(_, _) => "focus-at"@,
        Action::MoveTowards(_) => "move-towards"@,
        Action::Nothing => "nothing"@,
        Action::PickCatalogChange => "pick-catalog-change"@,
        Action::PickChange => "pick-change"@,
        Action::PickOrderSetting => "pick-order-setting"@,
        Action::PickViewOption => "pick-view-option"@,
        Action::Quit => "quit"@,
        Action::QuitDirectory => "quit-directory"@,
        Action::Rank(_) => "rank"@,
        Action::RemoveCategory(_) => "remove-category"@,
        Action::RemoveTag(_) => "remove-tag"@,
        Action::Rename(_) => "rename"@,
        Action::RepeatAction => "repeat-action"@,
        Action::RepeatRangeSelection => "repeat-range-selection"@,
        Action::SelectCategoryAddTarget(_) => "select-category-add-target"@,
        Action::SelectCategoryForPicture => "select-category-for-picture"@,
        Action::SelectCategoryMoveTarget(_) => "select-category-move-target"@,
        Action::SelectCategoryToMove => "select-category-to-move"@,
        Action::SelectCategoryToRemove => "select-category-to-remove"@,
        Action::Select(_, _) => "select"@,
        Action::SetSelectionAll => "set-selection-all"@,
        Action::SetSelectionPage => "set-selection-page"@,
        Action::SetSelectionRangeEnd(_) => "set-selection-range-end"@,
        Action::SetSelectionRangeStart(_) => "set-selection-range-start"@,
        Action::Test(_) => "test"@,
        Action::ToggleCover => "toggle-cover"@,
        Action::ToggleCoversView => "toggle-covers-view"@,
        Action::TogglePalette => "toggle-palette"@,
        Action::ToggleSelected(_) => "toggle-selected"@,
        Action::ToggleSelectedAt(_, _) => "toggle-selected-at"@,
        Action::ToggleSingleView => "toggle-single-view"@,
        Action::ToggleSlideShow => "toggle-slide-show"@,
        Action::ToggleThumbnailsView => "toggle-thumbnails-view"@,
        Action::ToggleTwoByTwoView => "toggle-two-by-two-view"@,
        Action::Unlabel => "unlabel"@,
        Action::ViewCatalog => "view-catalog"@,
    }
}

/// The type of the parameter with which an action is registered.
pub open spec fn gio_action_parameter_type(action: Action) -> GioActionParameterType {
    match action {
        Action::AddCategory(_, _) => GioActionParameterType::StringPair,
        Action::AddTag(_) => GioActionParameterType::String,
        Action::ApplyOrderSetting(_) => GioActionParameterType::Int32,
        Action::ApplyViewSetting(_) => GioActionParameterType::Int32,
        Action::Cancel => GioActionParameterType::NoParameter,
        Action::CancelSelectionRange => GioActionParameterType::NoParameter,
        Action::Categorize(_) => GioActionParameterType::String,
        Action::ConfirmDeleteFile => GioActionParameterType::NoParameter,
        Action::ConfirmMoveFile(_) => GioActionParameterType::String,
        Action::Dismiss => GioActionParameterType::NoParameter,
        Action::EnterAddTag => GioActionParameterType::NoParameter,
        Action::EnterNewCategory => GioActionParameterType::NoParameter,
        Action::EnterIndex => GioActionParameterType::NoParameter,
        Action::EnterFind(_) => GioActionParameterType::Int32,
        Action::EnterLabel => GioActionParameterType::NoParameter,
        Action::EnterRemoveTag => GioActionParameterType::NoParameter,
        Action::EnterRename => GioActionParameterType::NoParameter,
        Action::EnterSelect(_) => GioActionParameterType::Int32,
        Action::Find(_, _) => GioActionParameterType::Int32String,
        Action::FindNext => GioActionParameterType::NoParameter,
        Action::GotoDirectory => GioActionParameterType::NoParameter,
        Action::JumpToIndex(_) => GioActionParameterType::Int32,
        Action::JumpToMark(_) => GioActionParameterType::Char,
        Action::JumpToRandom => GioActionParameterType::NoParameter,
        Action::Label(_) => GioActionParameterType::String,
        Action::Mark(_) => GioActionParameterType::Char,
        Action::MoveCategory(_, _) => GioActionParameterType::StringPair,
        Action::MoveFile => GioActionParameterType::NoParameter,
        Action::FocusAt(_, _) => GioActionParameterType::Int32Pair,
        Action::MoveTowards(_) => GioActionParameterType::Int32,
        Action::Nothing => GioActionParameterType::NoParameter,
        Action::PickCatalogChange => GioActionParameterType::NoParameter,
        Action::PickChange => GioActionParameterType::NoParameter,
        Action::PickOrderSetting => GioActionParameterType::NoParameter,
        Action::PickViewOption => GioActionParameterType::NoParameter,
        Action::Quit => GioActionParameterType::NoParameter,
        Action::QuitDirectory => GioActionParameterType::NoParameter,
        Action::Rank(_) => GioActionParameterType::Int64,
        Action::RemoveCategory(_) => GioActionParameterType::String,
        Action::RemoveTag(_) => GioActionParameterType::String,
        Action::Rename(_) => GioActionParameterType::String,
        Action::RepeatAction => GioActionParameterType::NoParameter,
        Action::RepeatRangeSelection => GioActionParameterType::NoParameter,
        Action::SelectCategoryAddTarget(_) => GioActionParameterType::String,
        Action::SelectCategoryForPicture => GioActionParameterType::NoParameter,
        Action::SelectCategoryMoveTarget(_) => GioActionParameterType::String,
        Action::SelectCategoryToMove => GioActionParameterType::NoParameter,
        Action::SelectCategoryToRemove => GioActionParameterType::NoParameter,
        Action::Select(_, _) => GioActionParameterType::Int32String,
        Action::SetSelectionAll => GioActionParameterType::NoParameter,
        Action::SetSelectionPage => GioActionParameterType::NoParameter,
        Action::SetSelectionRangeEnd(_) => GioActionParameterType::Int32,
        Action::SetSelectionRangeStart(_) => GioActionParameterType::Int32,
        Action::Test(_) => GioActionParameterType::String,
        Action::ToggleCover => GioActionParameterType::NoParameter,
        Action::ToggleCoversView => GioActionParameterType::NoParameter,
        Action::TogglePalette => GioActionParameterType::NoParameter,
        Action::ToggleSelected(_) => GioActionParameterType::NoParameter,
        Action::ToggleSelectedAt(_, _) => GioActionParameterType::Int32Pair,
        Action::ToggleSingleView => GioActionParameterType::NoParameter,
        Action::ToggleSlideShow => GioActionParameterType::NoParameter,
        Action::ToggleThumbnailsView => GioActionParameterType::NoParameter,
        Action::ToggleTwoByTwoView => GioActionParameterType::NoParameter,
        Action::Unlabel => GioActionParameterType::NoParameter,
        Action::ViewCatalog => GioActionParameterType::NoParameter,
    }
}

/// Describes an action that can be activated: its name, the name under which the main
/// controller's group activates it, and the type of its parameter.
#[derive(Debug)]
pub struct GioActionType {
    name: String,
    action_entry_name: String,
    parameter_type: GioActionParameterType,
}

impl View for GioActionType {
    type V = (Seq<char>, Seq<char>, GioActionParameterType);

    closed spec fn view(&self) -> (Seq<char>, Seq<char>, GioActionParameterType) {
        (self.name@, self.action_entry_name@, self.parameter_type)
    }
}

impl GioActionType {
    pub fn new(name: &str, action_parameter_type: GioActionParameterType) -> (r: Self)
        ensures
            r@ == (name@, entry_name_of(name@), action_parameter_type),
    {
        Self {
            name: string_of(name),
            action_entry_name: entry_name(name),
            parameter_type: action_parameter_type,
        }
    }

    pub fn name(&self) -> (r: String)
        ensures
            r@ == self@.0,
    {
        self.name.clone()
    }

    pub fn action_entry_name(&self) -> (r: String)
        ensures
            r@ == self@.1,
    {
        self.action_entry_name.clone()
    }

    pub fn parameter_type(&self) -> (r: GioActionParameterType)
        ensures
            r == self@.2,
    {
        self.parameter_type
    }

    /// The description of an action.
    pub fn from_action(action: Action) -> (r: Self)
        ensures
            r@ == (gio_action_name(action), entry_name_of(gio_action_name(action)), gio_action_parameter_type(action)),
    {
        GioActionType::new(action_name_str(&action), action_parameter_type(&action))
    }
}

/// The name under which an action is registered.
pub fn action_name_str(action: &Action) -> (r: &'static str)
    ensures
        r@ == gio_action_name(*action),
{
    match action {
        Action::AddCategory(_, _) => "add-category",
        Action::AddTag(_) => "add-tag",
        Action::ApplyOrderSetting(_) => "apply-order-setting",
        Action::ApplyViewSetting(_) => "apply-view-setting",
        Action::Cancel => "cancel",
        Action::CancelSelectionRange => "cancel-selection-range",
        Action::Categorize(_) => "categorize",
        Action::ConfirmDeleteFile => "confirm-delete-file",
        Action::ConfirmMoveFile(_) => "confirm-move-file",
        Action::Dismiss => "dismiss",
        Action::EnterAddTag => "enter-add-tag",
        Action::EnterNewCategory => "enter-new-category",
        Action::EnterIndex => "enter-index",
        Action::EnterFind(_) => "enter-find",
        Action::EnterLabel => "enter-label",
        Action::EnterRemoveTag => "enter-remove-tag",
        Action::EnterRename => "enter-rename",
        Action::EnterSelect(_) => "enter-select",
        Action::Find(_, _) => "find",
        Action::FindNext => "find-next",
        Action::GotoDirectory => "go-to-directory",
        Action::JumpToIndex(_) => "jump-to-index",
        Action::JumpToMark(_) => "jump-to-mark",
        Action::JumpToRandom => "jump-to-random",
        Action::Label(_) => "label",
        Action::Mark(_) => "mark",
        Action::MoveCategory(_, _) => "move-category",
        Action::MoveFile => "move-file",
        Action::FocusAt(_, _) => "focus-at",
        Action::MoveTowards(_) => "move-towards",
        Action::Nothing => "nothing",
        Action::PickCatalogChange => "pick-catalog-change",
        Action::PickChange => "pick-change",
        Action::PickOrderSetting => "pick-order-setting",
        Action::PickViewOption => "pick-view-option",
        Action::Quit => "quit",
        Action::QuitDirectory => "quit-directory",
        Action::Rank(_) => "rank",
        Action::RemoveCategory(_) => "remove-category",
        Action::RemoveTag(_) => "remove-tag",
        Action::Rename(_) => "rename",
        Action::RepeatAction => "repeat-action",
        Action::RepeatRangeSelection => "repeat-range-selection",
        Action::SelectCategoryAddTarget(_) => "select-category-add-target",
        Action::SelectCategoryForPicture => "select-category-for-picture",
        Action::SelectCategoryMoveTarget(_) => "select-category-move-target",
        Action::SelectCategoryToMove => "select-category-to-move",
        Action::SelectCategoryToRemove => "select-category-to-remove",
        Action::Select(_, _) => "select",
        Action::SetSelectionAll => "set-selection-all",
        Action::SetSelectionPage => "set-selection-page",
        Action::SetSelectionRangeEnd(_) => "set-selection-range-end",
        Action::SetSelectionRangeStart(_) => "set-selection-range-start",
        Action::Test(_) => "test",
        Action::ToggleCover => "toggle-cover",
        Action::ToggleCoversView => "toggle-covers-view",
        Action::TogglePalette => "toggle-palette",
        Action::ToggleSelected(_) => "toggle-selected",
        Action::ToggleSelectedAt(_, _) => "toggle-selected-at",
        Action::ToggleSingleView => "toggle-single-view",
        Action::ToggleSlideShow => "toggle-slide-show",
        Action::ToggleThumbnailsView => "toggle-thumbnails-view",
        Action::ToggleTwoByTwoView => "toggle-two-by-two-view",
        Action::Unlabel => "unlabel",
        Action::ViewCatalog => "view-catalog",
    }
}

/// The type of the parameter with which an action is registered.
pub fn action_parameter_type(action: &Action) -> (r: GioActionParameterType)
    ensures
        r == gio_action_parameter_type(*action),
{
    match action {
        Action::AddCategory(_, _) => GioActionParameterType::StringPair,
        Action::AddTag(_) => GioActionParameterType::String,
        Action::ApplyOrderSetting(_) => GioActionParameterType::Int32,
        Action::ApplyViewSetting(_) => GioActionParameterType::Int32,
        Action::Cancel => GioActionParameterType::NoParameter,
        Action::CancelSelectionRange => GioActionParameterType::NoParameter,
        Action::Categorize(_) => GioActionParameterType::String,
        Action::ConfirmDeleteFile => GioActionParameterType::NoParameter,
        Action::ConfirmMoveFile(_) => GioActionParameterType::String,
        Action::Dismiss => GioActionParameterType::NoParameter,
        Action::EnterAddTag => GioActionParameterType::NoParameter,
        Action::EnterNewCategory => GioActionParameterType::NoParameter,
        Action::EnterIndex => GioActionParameterType::NoParameter,
        Action::EnterFind(_) => GioActionParameterType::Int32,
        Action::EnterLabel => GioActionParameterType::NoParameter,
        Action::EnterRemoveTag => GioActionParameterType::NoParameter,
        Action::EnterRename => GioActionParameterType::NoParameter,
        Action::EnterSelect(_) => GioActionParameterType::Int32,
        Action::Find(_, _) => GioActionParameterType::Int32String,
        Action::FindNext => GioActionParameterType::NoParameter,
        Action::GotoDirectory => GioActionParameterType::NoParameter,
        Action::JumpToIndex(_) => GioActionParameterType::Int32,
        Action::JumpToMark(_) => GioActionParameterType::Char,
        Action::JumpToRandom => GioActionParameterType::NoParameter,
        Action::Label(_) => GioActionParameterType::String,
        Action::Mark(_) => GioActionParameterType::Char,
        Action::MoveCategory(_, _) => GioActionParameterType::StringPair,
        Action::MoveFile => GioActionParameterType::NoParameter,
        Action::FocusAt(_, _) => GioActionParameterType::Int32Pair,
        Action::MoveTowards(_) => GioActionParameterType::Int32,
        Action::Nothing => GioActionParameterType::NoParameter,
        Action::PickCatalogChange => GioActionParameterType::NoParameter,
        Action::PickChange => GioActionParameterType::NoParameter,
        Action::PickOrderSetting => GioActionParameterType::NoParameter,
        Action::PickViewOption => GioActionParameterType::NoParameter,
        Action::Quit => GioActionParameterType::NoParameter,
        Action::QuitDirectory => GioActionParameterType::NoParameter,
        Action::Rank(_) => GioActionParameterType::Int64,
        Action::RemoveCategory(_) => GioActionParameterType::String,
        Action::RemoveTag(_) => GioActionParameterType::String,
        Action::Rename(_) => GioActionParameterType::String,
        Action::RepeatAction => GioActionParameterType::NoParameter,
        Action::RepeatRangeSelection => GioActionParameterType::NoParameter,
        Action::SelectCategoryAddTarget(_) => GioActionParameterType::String,
        Action::SelectCategoryForPicture => GioActionParameterType::NoParameter,
        Action::SelectCategoryMoveTarget(_) => GioActionParameterType::String,
        Action::SelectCategoryToMove => GioActionParameterType::NoParameter,
        Action::SelectCategoryToRemove => GioActionParameterType::NoParameter,
        Action::Select(_, _) => GioActionParameterType::Int32String,
        Action::SetSelectionAll => GioActionParameterType::NoParameter,
        Action::SetSelectionPage => GioActionParameterType::NoParameter,
        Action::SetSelectionRangeEnd(_) => GioActionParameterType::Int32,
        Action::SetSelectionRangeStart(_) => GioActionParameterType::Int32,
        Action::Test(_) => GioActionParameterType::String,
        Action::ToggleCover => GioActionParameterType::NoParameter,
        Action::ToggleCoversView => GioActionParameterType::NoParameter,
        Action::TogglePalette => GioActionParameterType::NoParameter,
        Action::ToggleSelected(_) => GioActionParameterType::NoParameter,
        Action::ToggleSelectedAt(_, _) => GioActionParameterType::Int32Pair,
        Action::ToggleSingleView => GioActionParameterType::NoParameter,
        Action::ToggleSlideShow => GioActionParameterType::NoParameter,
        Action::ToggleThumbnailsView => GioActionParameterType::NoParameter,
        Action::ToggleTwoByTwoView => GioActionParameterType::NoParameter,
        Action::Unlabel => GioActionParameterType::NoParameter,
        Action::ViewCatalog => GioActionParameterType::NoParameter,
    }
}

/// The name under which the older registration names an action (the test action for the
/// actions it does not name).
pub open spec fn gio_action_ty_name(action: Action) -> Seq<char> {
    match action {
        Action::AddCategory(_, _) => "add-category"@,
        Action::AddTag(_) => "add-tag"@,
        Action::ApplyOrderSetting(_) => "apply-order-setting"@,
        Action::ApplyViewSetting(_) => "apply-view-setting"@,
        Action::CancelSelectionRange => "cancel-selection-range"@,
        Action::Categorize(_) => "categorize"@,
        Action::ConfirmDeleteFile => "confirm-delete-file"@,
        Action::ConfirmMoveFile(_) => "confirm-move-file"@,
        Action::EnterAddTag => "enter-add-tag"@,
        Action::EnterIndex => "enter-index"@,
        Action::EnterLabel => "enter-label"@,
        Action::EnterRemoveTag => "enter-remove-tag"@,
        Action::EnterRename => "enter-rename"@,
        Action::Find(_, _) => "find"@,
        Action::FindNext => "find-next"@,
        Action::GotoDirectory => "go-to-directory"@,
        Action::JumpToIndex(_) => "jump-to-index"@,
        Action::JumpToMark(_) => "jump-to-mark"@,
        Action::JumpToRandom => "jump-to-random"@,
        Action::Label(_) => "label"@,
        Action::Mark(_) => "mark"@,
        Action::MoveCategory(_, _) => "move-category"@,
        Action::MoveFile => "move-file"@,
        Action::MoveTowards(_) => "move-towards"@,
        Action::Nothing => "nothing"@,
        Action::PickChange => "pick-change"@,
        Action::PickOrderSetting => "pick-order-setting"@,
        Action::PickViewOption => "pick-view-option"@,
        Action::Quit => "quit"@,
        Action::QuitDirectory => "quit-directory"@,
        Action::Rank(_) => "rank"@,
        Action::RemoveCategory(_) => "remove-category"@,
        Action::RemoveTag(_) => "remove-tag"@,
        Action::Rename(_) => "rename"@,
        Action::RepeatAction => "repeat-action"@,
        Action::RepeatRangeSelection => "repeat-range-selection"@,
        Action::Select(_, _) => "select"@,
        Action::SetSelectionAll => "set-selection-all"@,
        Action::SetSelectionPage => "set-selection-page"@,
        Action::SetSelectionRangeEnd(_) => "set-selection-range-end"@,
        Action::SetSelectionRangeStart(_) => "set-selection-range-start"@,
        Action::Test(_) => "test"@,
        Action::ToggleCover => "toggle-cover"@,
        Action::ToggleCoversView => "toggle-cover-view"@,
        Action::ToggleSelected(_) => "toggle-selected"@,
        Action::ToggleSingleView => "toggle-single-view"@,
        Action::ToggleSlideShow => "toggle-single-view"@,
        Action::ToggleThumbnailsView => "toggle-thumbnain-view"@,
        Action::Unlabel => "unlabel"@,
        _ => "test"@,
    }
}

/// The parameter type with which the older registration names an action.
pub open spec fn gio_action_ty_parameter_type(action: Action) -> GioActionParameterType {
    match action {
        Action::AddCategory(_, _) => GioActionParameterType::StringPair,
        Action::AddTag(_) => GioActionParameterType::String,
        Action::ApplyOrderSetting(_) => GioActionParameterType::String,
        Action::ApplyViewSetting(_) => GioActionParameterType::String,
        Action::CancelSelectionRange => GioActionParameterType::NoParameter,
        Action::Categorize(_) => GioActionParameterType::String,
        Action::ConfirmDeleteFile => GioActionParameterType::NoParameter,
        Action::ConfirmMoveFile(_) => GioActionParameterType::String,
        Action::EnterAddTag => GioActionParameterType::NoParameter,
        Action::EnterIndex => GioActionParameterType::NoParameter,
        Action::EnterLabel => GioActionParameterType::NoParameter,
        Action::EnterRemoveTag => GioActionParameterType::NoParameter,
        Action::EnterRename => GioActionParameterType::NoParameter,
        Action::Find(_, _) => GioActionParameterType::String,
        Action::FindNext => GioActionParameterType::NoParameter,
        Action::GotoDirectory => GioActionParameterType::String,
        Action::JumpToIndex(_) => GioActionParameterType::Int32,
        Action::JumpToMark(_) => GioActionParameterType::Char,
        Action::JumpToRandom => GioActionParameterType::NoParameter,
        Action::Label(_) => GioActionParameterType::String,
        Action::Mark(_) => GioActionParameterType::Char,
        Action::MoveCategory(_, _) => GioActionParameterType::StringPair,
        Action::MoveFile => GioActionParameterType::NoParameter,
        Action::MoveTowards(_) => GioActionParameterType::String,
        Action::Nothing => GioActionParameterType::NoParameter,
        Action::PickChange => GioActionParameterType::NoParameter,
        Action::PickOrderSetting => GioActionParameterType::NoParameter,
        Action::PickViewOption => GioActionParameterType::NoParameter,
        Action::Quit => GioActionParameterType::NoParameter,
        Action::QuitDirectory => GioActionParameterType::NoParameter,
        Action::Rank(_) => GioActionParameterType::Int32,
        Action::RemoveCategory(_) => GioActionParameterType::String,
        Action::RemoveTag(_) => GioActionParameterType::String,
        Action::Rename(_) => GioActionParameterType::String,
        Action::RepeatAction => GioActionParameterType::NoParameter,
        Action::RepeatRangeSelection => GioActionParameterType::NoParameter,
        Action::Select(_, _) => GioActionParameterType::String,
        Action::SetSelectionAll => GioActionParameterType::NoParameter,
        Action::SetSelectionPage => GioActionParameterType::NoParameter,
        Action::SetSelectionRangeEnd(_) => GioActionParameterType::Int32,
        Action::SetSelectionRangeStart(_) => GioActionParameterType::Int32,
        Action::Test(_) => GioActionParameterType::String,
        Action::ToggleCover => GioActionParameterType::NoParameter,
        Action::ToggleCoversView => GioActionParameterType::NoParameter,
        Action::ToggleSelected(_) => GioActionParameterType::NoParameter,
        Action::ToggleSingleView => GioActionParameterType::NoParameter,
        Action::ToggleSlideShow => GioActionParameterType::NoParameter,
        Action::ToggleThumbnailsView => GioActionParameterType::NoParameter,
        Action::Unlabel => GioActionParameterType::NoParameter,
        _ => GioActionParameterType::NoParameter,
    }
}

/// The older description of an action: its name, its entry name and its parameter type.
#[derive(Debug)]
pub struct GioActionTy {
    name: String,
    action_entry_name: String,
    parameter_type: GioActionParameterType,
}

impl View for GioActionTy {
    type V = (Seq<char>, Seq<char>, GioActionParameterType);

    closed spec fn view(&self) -> (Seq<char>, Seq<char>, GioActionParameterType) {
        (self.name@, self.action_entry_name@, self.parameter_type)
    }
}

impl GioActionTy {
    pub fn new(name: &str, action_parameter_type: GioActionParameterType) -> (r: Self)
        ensures
            r@ == (name@, entry_name_of(name@), action_parameter_type),
    {
        Self {
            name: string_of(name),
            action_entry_name: entry_name(name),
            parameter_type: action_parameter_type,
        }
    }

    pub fn name(&self) -> (r: String)
        ensures
            r@ == self@.0,
    {
        self.name.clone()
    }

    pub fn action_entry_name(&self) -> (r: String)
        ensures
            r@ == self@.1,
    {
        self.action_entry_name.clone()
    }

    pub fn parameter_type(&self) -> (r: GioActionParameterType)
        ensures
            r == self@.2,
    {
        self.parameter_type
    }

    /// The older description of an action.
    pub fn from_action(action: Action) -> (r: Self)
        ensures
            r@ == (gio_action_ty_name(action), entry_name_of(gio_action_ty_name(action)), gio_action_ty_parameter_type(action)),
    {
        GioActionTy::new(action_ty_name_str(&action), action_ty_parameter_type(&action))
    }
}

/// The name under which the older registration names an action.
pub fn action_ty_name_str(action: &Action) -> (r: &'static str)
    ensures
        r@ == gio_action_ty_name(*action),
{
    match action {
        Action::AddCategory(_, _) => "add-category",
        Action::AddTag(_) => "add-tag",
        Action::ApplyOrderSetting(_) => "apply-order-setting",
        Action::ApplyViewSetting(_) => "apply-view-setting",
        Action::CancelSelectionRange => "cancel-selection-range",
        Action::Categorize(_) => "categorize",
        Action::ConfirmDeleteFile => "confirm-delete-file",
        Action::ConfirmMoveFile(_) => "confirm-move-file",
        Action::EnterAddTag => "enter-add-tag",
        Action::EnterIndex => "enter-index",
        Action::EnterLabel => "enter-label",
        Action::EnterRemoveTag => "enter-remove-tag",
        Action::EnterRename => "enter-rename",
        Action::Find(_, _) => "find",
        Action::FindNext => "find-next",
        Action::GotoDirectory => "go-to-directory",
        Action::JumpToIndex(_) => "jump-to-index",
        Action::JumpToMark(_) => "jump-to-mark",
        Action::JumpToRandom => "jump-to-random",
        Action::Label(_) => "label",
        Action::Mark(_) => "mark",
        Action::MoveCategory(_, _) => "move-category",
        Action::MoveFile => "move-file",
        Action::MoveTowards(_) => "move-towards",
        Action::Nothing => "nothing",
        Action::PickChange => "pick-change",
        Action::PickOrderSetting => "pick-order-setting",
        Action::PickViewOption => "pick-view-option",
        Action::Quit => "quit",
        Action::QuitDirectory => "quit-directory",
        Action::Rank(_) => "rank",
        Action::RemoveCategory(_) => "remove-category",
        Action::RemoveTag(_) => "remove-tag",
        Action::Rename(_) => "rename",
        Action::RepeatAction => "repeat-action",
        Action::RepeatRangeSelection => "repeat-range-selection",
        Action::Select(_, _) => "select",
        Action::SetSelectionAll => "set-selection-all",
        Action::SetSelectionPage => "set-selection-page",
        Action::SetSelectionRangeEnd(_) => "set-selection-range-end",
        Action::SetSelectionRangeStart(_) => "set-selection-range-start",
        Action::Test(_) => "test",
        Action::ToggleCover => "toggle-cover",
        Action::ToggleCoversView => "toggle-cover-view",
        Action::ToggleSelected(_) => "toggle-selected",
        Action::ToggleSingleView => "toggle-single-view",
        Action::ToggleSlideShow => "toggle-single-view",
        Action::ToggleThumbnailsView => "toggle-thumbnain-view",
        Action::Unlabel => "unlabel",
        _ => "test",
    }
}

/// The parameter type with which the older registration names an action.
pub fn action_ty_parameter_type(action: &Action) -> (r: GioActionParameterType)
    ensures
        r == gio_action_ty_parameter_type(*action),
{
    match action {
        Action::AddCategory(_, _) => GioActionParameterType::StringPair,
        Action::AddTag(_) => GioActionParameterType::String,
        Action::ApplyOrderSetting(_) => GioActionParameterType::String,
        Action::ApplyViewSetting(_) => GioActionParameterType::String,
        Action::CancelSelectionRange => GioActionParameterType::NoParameter,
        Action::Categorize(_) => GioActionParameterType::String,
        Action::ConfirmDeleteFile => GioActionParameterType::NoParameter,
        Action::ConfirmMoveFile(_) => GioActionParameterType::String,
        Action::EnterAddTag => GioActionParameterType::NoParameter,
        Action::EnterIndex => GioActionParameterType::NoParameter,
        Action::EnterLabel => GioActionParameterType::NoParameter,
        Action::EnterRemoveTag => GioActionParameterType::NoParameter,
        Action::EnterRename => GioActionParameterType::NoParameter,
        Action::Find(_, _) => GioActionParameterType::String,
        Action::FindNext => GioActionParameterType::NoParameter,
        Action::GotoDirectory => GioActionParameterType::String,
        Action::JumpToIndex(_) => GioActionParameterType::Int32,
        Action::JumpToMark(_) => GioActionParameterType::Char,
        Action::JumpToRandom => GioActionParameterType::NoParameter,
        Action::Label(_) => GioActionParameterType::String,
        Action::Mark(_) => GioActionParameterType::Char,
        Action::MoveCategory(_, _) => GioActionParameterType::StringPair,
        Action::MoveFile => GioActionParameterType::NoParameter,
        Action::MoveTowards(_) => GioActionParameterType::String,
        Action::Nothing => GioActionParameterType::NoParameter,
        Action::PickChange => GioActionParameterType::NoParameter,
        Action::PickOrderSetting => GioActionParameterType::NoParameter,
        Action::PickViewOption => GioActionParameterType::NoParameter,
        Action::Quit => GioActionParameterType::NoParameter,
        Action::QuitDirectory => GioActionParameterType::NoParameter,
        Action::Rank(_) => GioActionParameterType::Int32,
        Action::RemoveCategory(_) => GioActionParameterType::String,
        Action::RemoveTag(_) => GioActionParameterType::String,
        Action::Rename(_) => GioActionParameterType::String,
        Action::RepeatAction => GioActionParameterType::NoParameter,
        Action::RepeatRangeSelection => GioActionParameterType::NoParameter,
        Action::Select(_, _) => GioActionParameterType::String,
        Action::SetSelectionAll => GioActionParameterType::NoParameter,
        Action::SetSelectionPage => GioActionParameterType::NoParameter,
        Action::SetSelectionRangeEnd(_) => GioActionParameterType::Int32,
        Action::SetSelectionRangeStart(_) => GioActionParameterType::Int32,
        Action::Test(_) => GioActionParameterType::String,
        Action::ToggleCover => GioActionParameterType::NoParameter,
        Action::ToggleCoversView => GioActionParameterType::NoParameter,
        Action::ToggleSelected(_) => GioActionParameterType::NoParameter,
        Action::ToggleSingleView => GioActionParameterType::NoParameter,
        Action::ToggleSlideShow => GioActionParameterType::NoParameter,
        Action::ToggleThumbnailsView => GioActionParameterType::NoParameter,
        Action::Unlabel => GioActionParameterType::NoParameter,
        _ => GioActionParameterType::NoParameter,
    }
}

/// The type of the parameter of a main controller action.
#[derive(Clone, Copy, Debug, PartialEq, Eq, Structural)]
pub enum ActionParameterType {
    NoParameter,
    Int32,
    String,
}

/// An action of the main controller: its name, entry name and parameter type.
#[derive(Debug)]
pub struct MainControllerAction {
    name: String,
    action_entry_name: String,
    parameter_type: ActionParameterType,
}

impl View for MainControllerAction {
    type V = (Seq<char>, Seq<char>, ActionParameterType);

    closed spec fn view(&self) -> (Seq<char>, Seq<char>, ActionParameterType) {
        (self.name@, self.action_entry_name@, self.parameter_type)
    }
}

impl MainControllerAction {
    pub fn new(name: &str, action_parameter_type: ActionParameterType) -> (r: Self)
        ensures
            r@ == (name@, entry_name_of(name@), action_parameter_type),
    {
        Self {
            name: string_of(name),
            action_entry_name: entry_name(name),
            parameter_type: action_parameter_type,
        }
    }

    pub fn name(&self) -> (r: String)
        ensures
            r@ == self@.0,
    {
        self.name.clone()
    }

    pub fn action_entry_name(&self) -> (r: String)
        ensures
            r@ == self@.1,
    {
        self.action_entry_name.clone()
    }

    pub fn parameter_type(&self) -> (r: ActionParameterType)
        ensures
            r == self@.2,
    {
        self.parameter_type
    }
}

} // verus!
