use gsr::action::Action;
use gsr::key_input::entry::label_change_entry;
use gsr::key_input::information::information_key_input;
use gsr::key_input::menu::view_menu;
use gsr::key_input::Key;
use gsr::model::{tags_from_str, ViewOption};

/// The key that a keyboard sends under `name`, with the character it types.
fn key_from_name(name: &str) -> Key {
    let unicode = match name {
        "space" => Some(' '),
        "numbersign" => Some('#'),
        "Tab" => Some('\t'),
        "Escape" => Some('\u{1b}'),
        "Return" => Some('\r'),
        n if n.chars().count() == 1 => n.chars().next(),
        _ => None,
    };
    Key::new(Some(name.to_string()), unicode)
}

#[test]
fn entry_given_a_simple_key_append_that_to_the_input() {
    let key_input = label_change_entry(tags_from_str("foo,bar,bartleby,law"));
    let status = key_input.edit("fi", &key_from_name("b"));
    assert_eq!("fib", &status.input());
}

#[test]
fn entry_given_an_illegal_key_input_does_not_change() {
    let key_input = label_change_entry(tags_from_str("foo,bar,bartleby,law"));
    let status = key_input.edit("fi", &key_from_name("numbersign"));
    assert_eq!("fi", &status.input());
}

#[test]
fn given_an_uppercase_key_input_is_converted_to_lowercase() {
    let key_input = label_change_entry(tags_from_str("foo,bar,bartleby,law"));
    let status = key_input.edit("fi", &key_from_name("B"));
    assert_eq!("fib", &status.input());
}

#[test]
fn given_an_initial_input_that_is_too_short_complete_produce_no_candidates() {
    let key_input = label_change_entry(tags_from_str("foo,bar,bartleby,law"));
    let status = key_input.edit("f", &key_from_name("Tab"));
    assert_eq!(None, status.candidate_list_tip());
}

#[test]
fn given_an_initial_input_that_completes_with_one_candidates_input_is_set_to_that() {
    let key_input = label_change_entry(tags_from_str("foo,bar,bartleby,law"));
    let status = key_input.edit("fo", &key_from_name("Tab"));
    assert_eq!(None, status.candidate_list_tip());
    assert_eq!("foo", &status.input());
}

#[test]
fn given_an_initial_input_that_completes_with_two_candidates_these_candidates_are_tipped() {
    let key_input = label_change_entry(tags_from_str("foo,bar,bartleby,law"));
    let status = key_input.edit("ba", &key_from_name("Tab"));
    assert_eq!(Some("[ bar bartleby ]".to_string()), status.candidate_list_tip());
    assert_eq!("ba", &status.input());
}

#[test]
fn given_a_space_then_it_is_converted_to_dash() {
    let key_input = label_change_entry(tags_from_str("foo,bar,bartleby,law"));
    let status = key_input.edit("fib", &key_from_name("space"));
    assert_eq!("fib-", &status.input());
}

#[test]
fn entry_given_en_escape_then_it_returns_a_cancel_action() {
    let key_input = label_change_entry(tags_from_str("foo,bar,bartleby,law"));
    let status = key_input.edit("fib", &key_from_name("Escape"));
    assert_eq!(Some(Action::Cancel), status.result_action());
}

#[test]
fn entry_given_a_return_then_it_returns_the_input_and_its_specific_label_action() {
    let key_input = label_change_entry(tags_from_str("foo,bar,bartleby,law"));
    let status = key_input.edit("fib", &key_from_name("Return"));
    assert_eq!("fib", &status.input());
    assert_eq!(Some(Action::Label("fib".to_string())), status.result_action());
}

#[test]
fn information_given_any_key_does_not_change_the_input() {
    let key_input = information_key_input();
    let status = key_input.edit("foo", &key_from_name("b"));
    assert_eq!("foo", &status.input());
}

#[test]
fn given_any_key_lauche_the_dismiss_action() {
    let key_input = information_key_input();
    let status = key_input.edit("fib", &key_from_name("a"));
    assert_eq!(Some(Action::Dismiss), status.result_action());
}

#[test]
fn given_a_simple_key_launches_the_corresponding_action() {
    let key_input = view_menu();
    let status = key_input.edit("", &key_from_name("t"));
    assert_eq!(Some(Action::ApplyViewSetting(ViewOption::Thumbnails)), status.result_action());
    let key_input = view_menu();
    let status = key_input.edit("", &key_from_name("c"));
    assert_eq!(Some(Action::ApplyViewSetting(ViewOption::Covers)), status.result_action());
}

#[test]
fn given_a_simple_key_lauches_the_corresponding_action() {
    let editor = view_menu();
    let status = editor.edit("", &key_from_name("t"));
    assert_eq!(Some(Action::ApplyViewSetting(ViewOption::Thumbnails)), status.result_action());
    let editor = view_menu();
    let status = editor.edit("", &key_from_name("c"));
    assert_eq!(Some(Action::ApplyViewSetting(ViewOption::Covers)), status.result_action());
}
