use gsr::action::gio_action::{GioAction, GioActionParameter};
use gsr::action::{entry_name, Action, GioActionParameterType, GioActionType};
use gsr::application::{process_control, ControlOutcome};
use gsr::control::{default_controls, Control};
use gsr::controller::{view_setting_request, ViewSettingRequest};
use gsr::direction::Direction;
use gsr::display::{picture_label_display, small_picture_display, COVER_SYMBOL, SMALL_PICTURE_SYMBOL};
use gsr::editor::entry_editor::EntryEditor;
use gsr::entry_kind::EntryKind;
use gsr::entry_validate::{append_char, convert_char, entry_validate, valid_entry_char};
use gsr::input_validate::InputValidate;
use gsr::key_input::menu::{catalog_menu, change_menu, find_menu, order_menu, select_menu};
use gsr::key_input::Key;
use gsr::mode::Mode;
use gsr::model::{tags_from_str, Change, Find, Order, Rank, ViewOption};
use gsr::validator::Validator;

fn key_from_name(name: &str) -> Key {
    let unicode = match name {
        "Return" => Some('\r'),
        "BackSpace" => Some('\u{8}'),
        n if n.chars().count() == 1 => n.chars().next(),
        _ => None,
    };
    Key::new(Some(name.to_string()), unicode)
}

#[test]
fn direction_codes_read_back() {
    for d in [
        Direction::Down,
        Direction::First,
        Direction::Index { value: 4807 },
        Direction::Last,
        Direction::Left,
        Direction::NextPage,
        Direction::PageEnd,
        Direction::PageStart,
        Direction::PrevPage,
        Direction::Right,
        Direction::Up,
    ] {
        assert_eq!(d, Direction::from_code(d.to_code()));
    }
    assert_eq!(-1, Direction::Down.to_code());
    assert_eq!(Direction::Index { value: 0 }, Direction::from_code(0));
    assert_eq!(Direction::PrevPage, Direction::from_name("PrevPage"));
}

#[test]
fn option_codes_read_back() {
    assert_eq!(Some(Order::Score), Order::from_code(Order::Score.code()));
    assert_eq!(Some(ViewOption::Catalog), ViewOption::from_code(ViewOption::Catalog.code()));
    assert_eq!(Some(Find::FilePath), Find::from_code(Find::FilePath.code()));
    assert_eq!(Some(Change::Unlabel), Change::from_code(Change::Unlabel.code()));
    assert_eq!(None, Order::from_code(11));
    assert_eq!("ColorCount", Order::ColorCount.name());
}

#[test]
fn every_menu_key_launches_its_option() {
    let status = order_menu().edit("", &key_from_name("m"));
    assert_eq!(Some(Action::ApplyOrderSetting(Order::Score)), status.result_action());
    assert_eq!("", &status.input());
    let status = change_menu().edit("", &key_from_name("t"));
    assert_eq!(Some(Action::EnterAddTag), status.result_action());
    let status = catalog_menu().edit("", &key_from_name("m"));
    assert_eq!(Some(Action::SelectCategoryToMove), status.result_action());
    let status = find_menu().edit("", &key_from_name("f"));
    assert_eq!(Some(Action::EnterFind(Find::FilePath)), status.result_action());
    let status = select_menu().edit("", &key_from_name("s"));
    assert_eq!(Some(Action::EnterSelect(Find::SomeTags)), status.result_action());
}

#[test]
fn a_key_that_a_menu_does_not_list_changes_nothing() {
    let status = order_menu().edit("", &key_from_name("z"));
    assert_eq!(None, status.result_action());
    assert_eq!("", &status.input());
}

#[test]
fn backspace_deletes_the_last_character() {
    let entry = gsr::key_input::entry::label_change_entry(tags_from_str("foo"));
    assert_eq!("fi", &entry.edit("fib", &key_from_name("BackSpace")).input());
    assert_eq!("", &entry.edit("", &key_from_name("BackSpace")).input());
}

#[test]
fn entry_chars_follow_the_entry_kind() {
    assert_eq!(Some("foo,".to_string()), append_char(EntryKind::FindAllTags, "foo", ' '));
    assert_eq!(Some("foo-".to_string()), append_char(EntryKind::Label, "foo", ' '));
    assert_eq!(Some("foob".to_string()), append_char(EntryKind::Label, "foo", 'B'));
    assert_eq!(None, append_char(EntryKind::Label, "foo", '#'));
    assert_eq!(Some("Score".to_string()), append_char(EntryKind::Order, "", 'm'));
    assert_eq!(None, append_char(EntryKind::Order, "", 'z'));
    assert_eq!(Some("SubCategory".to_string()), convert_char(EntryKind::Find, "x", 'b'));
    assert_eq!(Some("RemoveTag".to_string()), convert_char(EntryKind::Change, "", 'r'));
    assert_eq!(Some("Thumbs".to_string()), convert_char(EntryKind::View, "", 't'));
    assert_eq!(Some("MoveCategory".to_string()), convert_char(EntryKind::Catalog, "", 'm'));
    assert_eq!(Some("ab€".to_string()), convert_char(EntryKind::Label, "ab", '€'));
    assert!(valid_entry_char(&EntryKind::MoveToLabelConfirmation("x".to_string()), '_'));
    assert!(!valid_entry_char(&EntryKind::Select, 'f'));
    assert_eq!(Some("foo".to_string()), entry_validate(EntryKind::Label, "foo", '#'));
    assert_eq!(Some("foo".to_string()), InputValidate::new().validate("foo"));
    assert_eq!(Some("ta-".to_string()), Validator::new(EntryKind::AddTag).validate("ta", ' '));
}

#[test]
fn controls_map_keys_by_mode() {
    let controls = default_controls();
    assert_eq!(Some(Control::Complete), controls.get("Tab", Mode::Editing));
    assert_eq!(None, controls.get("Tab", Mode::Selecting));
    assert_eq!(Action::Cancel, Action::from_control(&Control::CancelEdition));
}

#[test]
fn gio_action_types_name_their_actions() {
    let t = GioActionType::from_action(Action::JumpToIndex(4));
    assert_eq!("jump-to-index", t.name());
    assert_eq!("main-controller.jump-to-index", t.action_entry_name());
    assert_ne!(GioActionParameterType::NoParameter, t.parameter_type());
    assert_eq!("main-controller.quit", entry_name("quit"));
}

#[test]
fn a_binding_reads_back() {
    let mut controls = gsr::control::Controls::new();
    controls.insert("x".to_string(), Mode::View, Control::Quit);
    controls.insert("x".to_string(), Mode::Editing, Control::Complete);
    controls.insert("x".to_string(), Mode::View, Control::Up);
    assert_eq!(Some(Control::Up), controls.get("x", Mode::View));
    assert_eq!(Some(Control::Complete), controls.get("x", Mode::Editing));
    assert_eq!(None, controls.get("y", Mode::View));
}

#[test]
fn completion_offers_known_tags_that_extend_the_typed_tag() {
    let dispenser = gsr::completion_dispenser::CompletionDispenser::new_with(tags_from_str("lab,label,bar"));
    let candidates = dispenser.candidates("foo,la");
    assert_eq!(vec!["lab", "label"], candidates);
    assert!(dispenser.candidates("foo,l").is_empty());
    assert!(dispenser.candidates("zz").is_empty());
}

#[test]
fn picture_labels_show_size_cover_focus_label_and_rank() {
    assert_eq!("?", small_picture_display(None));
    assert_eq!(SMALL_PICTURE_SYMBOL, small_picture_display(Some(99_999)));
    assert_eq!(" ", small_picture_display(Some(100_000)));
    assert_eq!(
        format!(" {}(12) > foo ★★", COVER_SYMBOL),
        picture_label_display("foo", Rank::TwoStars, Some(12), Some('>'), Some(500_000))
    );
    assert_eq!("?   bar ", picture_label_display("bar", Rank::NoStar, Some(0), None, None));
    assert_eq!(format!("{}{}(1030)   x ★", SMALL_PICTURE_SYMBOL, COVER_SYMBOL),
        picture_label_display("x", Rank::OneStar, Some(1030), None, Some(1)));
}

#[test]
fn an_entry_editor_appends_the_character_of_any_other_key() {
    let editor = EntryEditor::new(EntryKind::Label, Validator::new(EntryKind::Label), None);
    assert_eq!("ab", &editor.edit("a", Key::new(Some("b".to_string()), Some('b'))).input());
    assert_eq!("a", &editor.edit("a", Key::new(None, Some('b'))).input());
    assert_eq!("a", &editor.edit("a", Key::new(Some("Shift_L".to_string()), None)).input());
    let status = editor.edit("fo", Key::new(Some("Tab".to_string()), Some('\t')));
    assert_eq!("fo", &status.input());
    assert_eq!(None, status.candidate_list_tip());
}

#[test]
fn escape_cancels_every_input() {
    let status = order_menu().edit("3", &key_from_name("Escape"));
    assert_eq!(Some(Action::Cancel), status.result_action());
    assert_eq!("", &status.input());
}

#[test]
fn controls_move_the_focus_page_by_page_in_a_grid() {

    let mut navigator = gsr::navigator::Navigator::new(10, 2);
    assert_eq!(ControlOutcome::RefreshView, process_control(&mut navigator, Control::MoveNext, false));
    assert_eq!(4, navigator.position());
    process_control(&mut navigator, Control::MoveNext, false);
    assert_eq!(8, navigator.position());
    assert_eq!(ControlOutcome::RefreshView, process_control(&mut navigator, Control::MoveNext, false));
    assert_eq!(8, navigator.position());
    process_control(&mut navigator, Control::MovePrev, false);
    assert_eq!(4, navigator.position());
    assert_eq!(ControlOutcome::Scroll(Direction::Left), process_control(&mut navigator, Control::Left, true));
    assert_eq!(4, navigator.position());
    assert_eq!(ControlOutcome::Nothing, process_control(&mut navigator, Control::MoveNext, true));
    process_control(&mut navigator, Control::MoveLast, true);
    assert_eq!(9, navigator.position());
    process_control(&mut navigator, Control::MoveStartPage, false);
    assert_eq!(8, navigator.position());
    assert_eq!(ControlOutcome::Quit, process_control(&mut navigator, Control::Quit, false));
    assert_eq!(ControlOutcome::BeginLabelInput, process_control(&mut navigator, Control::Label, false));
    assert_eq!(ControlOutcome::Nothing, process_control(&mut navigator, Control::Help, false));
}

#[test]
fn controls_move_the_focus_picture_by_picture_in_single_view() {

    let mut navigator = gsr::navigator::Navigator::new(3, 1);
    process_control(&mut navigator, Control::MoveNext, false);
    assert_eq!(1, navigator.position());
    process_control(&mut navigator, Control::MoveNext, false);
    process_control(&mut navigator, Control::MoveNext, false);
    assert_eq!(2, navigator.position());
    process_control(&mut navigator, Control::MovePrev, false);
    assert_eq!(1, navigator.position());
}

#[test]
fn view_settings_ask_for_the_control_that_toggles_them() {

    assert_eq!(ViewSettingRequest::Control(Control::TogglePicturesPerRow(4)), view_setting_request(ViewOption::Grid4x4));
    assert_eq!(ViewSettingRequest::ToggleDisplayOption(ViewOption::FileDate), view_setting_request(ViewOption::FileDate));
    assert_eq!(ViewSettingRequest::ToggleExpand, view_setting_request(ViewOption::FullSize));
    assert_eq!(ViewSettingRequest::ViewCatalog, view_setting_request(ViewOption::Catalog));
}

#[test]
fn completion_settles_on_its_single_candidate() {
    let dispenser = gsr::completion_dispenser::CompletionDispenser::new_with(tags_from_str("foo,bar,bartleby,law"));
    assert_eq!(vec!["foo"], dispenser.candidates("fo"));
    assert_eq!(vec!["foo"], dispenser.candidates("foo"));
    assert_eq!(vec!["bartleby"], dispenser.candidates("bart"));
    assert_eq!(vec!["bartleby"], dispenser.candidates("bartleby"));
}

#[test]
fn guarded_moves_keep_the_focus_in_the_gallery() {
    let mut navigator = gsr::navigator::Navigator::new(10, 2);
    assert_eq!(navigator.position(), navigator.old_position());
    let directions = [
        Direction::Last, Direction::Right, Direction::Down, Direction::NextPage,
        Direction::PrevPage, Direction::Up, Direction::Left, Direction::PageEnd,
        Direction::Index { value: 12 }, Direction::First, Direction::Up, Direction::PageStart,
    ];
    for direction in directions {
        let before = navigator.position();
        if navigator.can_move(direction) {
            navigator.move_towards(direction);
            assert_eq!(before, navigator.old_position());
        }
        assert!(navigator.position() < navigator.limit());
        assert!(navigator.page_start() <= navigator.position());
        assert!(navigator.position() <= navigator.page_end());
        assert!(navigator.page_end() < navigator.limit());
    }
}

#[test]
fn an_action_carries_the_parameter_it_is_registered_with() {

    let t = GioActionType::from_action(Action::Rank(Rank::OneStar));
    assert_eq!(GioActionParameterType::Int64, t.parameter_type());
    assert!(matches!(GioAction::from_action(Action::Rank(Rank::OneStar)).parameter(), Some(GioActionParameter::Int64(1))));
    let t = GioActionType::from_action(Action::ToggleSelected(3));
    assert_eq!(GioActionParameterType::NoParameter, t.parameter_type());
    assert!(matches!(GioAction::from_action(Action::ToggleSelected(3)).parameter(), Some(GioActionParameter::Int32(3))));
}
