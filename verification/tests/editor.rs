use gsr::action::Action;
use gsr::completion_dispenser::CompletionDispenser;
use gsr::editor::change_label_editor::change_label_editor;
use gsr::editor::display_information_editor::display_information_editor;
use gsr::editor::entry_editor::EntryEditor;
use gsr::entry_kind::EntryKind;
use gsr::key_input::Key;
use gsr::model::tags_from_str;
use gsr::validator::Validator;

/// The key that a keyboard sends under `name`, with the character it types.
fn key_from_name(name: &str) -> Key {
    let unicode = match name {
        "space" => Some(' '),
        "numbersign" => Some('#'),
        "Tab" => Some('\t'),
        "Escape" => Some('\u{1b}'),
        "Return" => Some('\r'),
        n if n.chars().count() == 1 => n.chars().next(),
        _ => None,
    };
    Key::new(Some(name.to_string()), unicode)
}

#[test]
fn change_label_editor_given_a_simple_key_append_that_to_the_input() {
    let editor = change_label_editor(tags_from_str("foo,bar,bartelby,law"));
    let status = editor.edit("fi", &key_from_name("b"));
    assert_eq!("fib", &status.input());
}

#[test]
fn change_label_editor_given_an_illegal_key_input_does_not_change() {
    let editor = change_label_editor(tags_from_str("foo,bar,bartelby,law"));
    let status = editor.edit("fi", &key_from_name("numbersign"));
    assert_eq!("fi", &status.input());
}

#[test]
fn display_information_editor_given_any_key_does_not_change_the_input() {
    let editor = display_information_editor();
    let status = editor.edit("foo", &key_from_name("b"));
    assert_eq!("foo", &status.input());
}

#[test]
fn display_information_editor_given_en_escape_then_it_returns_a_cancel_action() {
    let editor = change_label_editor(tags_from_str("foo,bar,bartleby,law"));
    let status = editor.edit("fib", &key_from_name("Escape"));
    assert_eq!(Some(Action::Cancel), status.result_action());
}

#[test]
fn display_information_editor_given_a_return_then_it_returns_the_input_and_its_specific_label_action() {
    let editor = change_label_editor(tags_from_str("foo,bar,bartleby,law"));
    let status = editor.edit("fib", &key_from_name("Return"));
    assert_eq!("fib", &status.input());
    assert_eq!(Some(Action::Dismiss), status.result_action());
}

#[test]
fn editor_for_entry_kind_label_simple_key_strokes() {
    let entry_editor = EntryEditor::new(
        EntryKind::Label,
        Validator::new(EntryKind::Label),
        Some(CompletionDispenser::new_with(tags_from_str("foo,bar,barnaby,lab"))),
    );
    let status = entry_editor.edit("f", key_from_name("o"));
    assert_eq!("fo", &status.input());
    let status = entry_editor.edit("b", key_from_name("a"));
    assert_eq!("ba", &status.input());
}

#[test]
fn editor_for_entry_kind_label_tab_key() {
    let entry_editor = EntryEditor::new(
        EntryKind::Label,
        Validator::new(EntryKind::Label),
        Some(CompletionDispenser::new_with(tags_from_str("foo,bar,barnaby,lab"))),
    );
    let status = entry_editor.edit("f", key_from_name("Tab"));
    assert_eq!("f", &status.input());
    assert_eq!(None, status.candidate_list_tip());

    let status = entry_editor.edit("fo", key_from_name("Tab"));
    assert_eq!("foo", &status.input());
    assert_eq!(None, status.candidate_list_tip());

    let status = entry_editor.edit("ba", key_from_name("Tab"));
    assert_eq!("ba", &status.input());
    assert_eq!(Some("[ bar barnaby ]".to_string()), status.candidate_list_tip());

    let status = entry_editor.edit("bar", key_from_name("Tab"));
    assert_eq!("bar", &status.input());
    assert_eq!(Some("[ bar barnaby ]".to_string()), status.candidate_list_tip());
}
