use gsr::action::gio_action::{GioAction, GioActionParameter};
use gsr::action::Action;
use gsr::direction::Direction;
use gsr::model::{Find, Order, Rank, ViewOption};

fn check_action_to_and_from(action: Action) {
    let source = action.clone();
    let gio_action = GioAction::from_action(source.clone());
    let target = Action::from_gio_action(&gio_action);
    assert_eq!(target, source);
}

#[test]
fn gio_action_from_action_and_vice_versa() {
    check_action_to_and_from(Action::AddCategory("foo".to_string(), "bar".to_string()));
    check_action_to_and_from(Action::AddTag("foo".to_string()));
    check_action_to_and_from(Action::ApplyOrderSetting(Order::Name));
    check_action_to_and_from(Action::ApplyViewSetting(ViewOption::Thumbnails));
    check_action_to_and_from(Action::CancelSelectionRange);
    check_action_to_and_from(Action::Categorize(Some("foo".to_string())));
    check_action_to_and_from(Action::ConfirmDeleteFile);
    check_action_to_and_from(Action::ConfirmMoveFile("foo".to_string()));
    check_action_to_and_from(Action::EnterAddTag);
    check_action_to_and_from(Action::EnterNewCategory);
    check_action_to_and_from(Action::SelectCategoryForPicture);
    check_action_to_and_from(Action::EnterIndex);
    check_action_to_and_from(Action::EnterLabel);
    check_action_to_and_from(Action::EnterRemoveTag);
    check_action_to_and_from(Action::EnterRename);
    check_action_to_and_from(Action::Find(Find::Label, String::new()));
    check_action_to_and_from(Action::FindNext);
    check_action_to_and_from(Action::FocusAt(3, 8));
    check_action_to_and_from(Action::GotoDirectory);
    check_action_to_and_from(Action::JumpToIndex(4807));
    check_action_to_and_from(Action::JumpToMark('f'));
    check_action_to_and_from(Action::JumpToRandom);
    check_action_to_and_from(Action::Label("foo".to_string()));
    check_action_to_and_from(Action::Mark('f'));
    check_action_to_and_from(Action::MoveCategory("foo".to_string(), "bar".to_string()));
    check_action_to_and_from(Action::MoveFile);
    check_action_to_and_from(Action::MoveTowards(Direction::Down));
    check_action_to_and_from(Action::MoveTowards(Direction::NextPage));
    check_action_to_and_from(Action::Nothing);
    check_action_to_and_from(Action::PickChange);
    check_action_to_and_from(Action::PickOrderSetting);
    check_action_to_and_from(Action::PickViewOption);
    check_action_to_and_from(Action::Quit);
    check_action_to_and_from(Action::QuitDirectory);
    check_action_to_and_from(Action::Rank(Rank::ThreeStars));
    check_action_to_and_from(Action::RemoveCategory("foo".to_string()));
    check_action_to_and_from(Action::RemoveTag("foo".to_string()));
    check_action_to_and_from(Action::Rename("foo".to_string()));
    check_action_to_and_from(Action::RepeatAction);
    check_action_to_and_from(Action::RepeatRangeSelection);
    check_action_to_and_from(Action::Select(Find::Label, String::new()));
    check_action_to_and_from(Action::SelectCategoryForPicture);
    check_action_to_and_from(Action::SelectCategoryToMove);
    check_action_to_and_from(Action::SelectCategoryToRemove);
    check_action_to_and_from(Action::SelectCategoryAddTarget("foo".to_string()));
    check_action_to_and_from(Action::SetSelectionAll);
    check_action_to_and_from(Action::SetSelectionPage);
    check_action_to_and_from(Action::SetSelectionRangeEnd(4807));
    check_action_to_and_from(Action::SetSelectionRangeStart(4807));
    check_action_to_and_from(Action::Test("foo".to_string()));
    check_action_to_and_from(Action::ToggleCover);
    check_action_to_and_from(Action::ToggleCoversView);
    check_action_to_and_from(Action::TogglePalette);
    check_action_to_and_from(Action::ToggleSelected(4807));
    check_action_to_and_from(Action::ToggleSelectedAt(3, 8));
    check_action_to_and_from(Action::ToggleSingleView);
    check_action_to_and_from(Action::ToggleSlideShow);
    check_action_to_and_from(Action::ToggleThumbnailsView);
    check_action_to_and_from(Action::Unlabel);
}

#[test]
fn activations_carry_their_values() {
    let g = GioAction::from_action(Action::Find(Find::SomeTags, "cat,dog".to_string()));
    assert_eq!("find", g.name());
    assert_eq!("main-controller.find", g.action_entry_name());
    assert!(matches!(g.parameter(), Some(GioActionParameter::Int32String(6, ref s)) if s == "cat,dog"));
    check_action_to_and_from(Action::Categorize(None));
    check_action_to_and_from(Action::EnterSelect(Find::FilePath));
    check_action_to_and_from(Action::MoveTowards(Direction::Index { value: 12 }));
}

#[test]
fn an_activation_without_its_parameter_reads_as_no_action() {
    let g = GioAction::from_activation("label", None);
    assert_eq!(None, Action::try_from_gio_action(&g));
    let g = GioAction::from_activation("rank", Some(GioActionParameter::Int64(7)));
    assert_eq!(None, Action::try_from_gio_action(&g));
    let g = GioAction::from_activation("jump-to-index", Some(GioActionParameter::Uint64(3)));
    assert_eq!(None, Action::try_from_gio_action(&g));
    let g = GioAction::from_activation("no-such-action", None);
    assert_eq!(Some(Action::Nothing), Action::try_from_gio_action(&g));
    let g = GioAction::from_activation("mark", Some(GioActionParameter::Str("q".to_string())));
    assert_eq!(Some(Action::Mark('q')), Action::try_from_gio_action(&g));
}
