use gsr::control::{default_controls, Control};
use gsr::mode::Mode;

#[test]
fn from_key_name_and_mode_to_a_control() {
    const V: Mode = Mode::View;
    assert_eq!(Some(Control::MoveNext), default_controls().get("n", V));
    assert_eq!(Some(Control::MovePrev), default_controls().get("p", V));
    assert_eq!(Some(Control::MoveLast), default_controls().get("Z", V));
    assert_eq!(Some(Control::MoveFirst), default_controls().get("A", V));
    assert_eq!(Some(Control::MoveStartPage), default_controls().get("a", V));
    assert_eq!(Some(Control::MoveEndPage), default_controls().get("z", V));
    assert_eq!(Some(Control::Left), default_controls().get("Left", V));
    assert_eq!(Some(Control::Right), default_controls().get("Right", V));
    assert_eq!(Some(Control::Up), default_controls().get("Up", V));
    assert_eq!(Some(Control::Down), default_controls().get("Down", V));
    assert_eq!(Some(Control::Quit), default_controls().get("Q", V));
    assert_eq!(Some(Control::ToggleExpand), default_controls().get("e", V));
    assert_eq!(Some(Control::ToggleFullSize), default_controls().get("percent", V));
    assert_eq!(Some(Control::ToggleSingleView), default_controls().get("period", V));
    assert_eq!(Some(Control::CancelEdition), default_controls().get("Escape", Mode::Editing));
    assert_eq!(Some(Control::ConfirmEdition), default_controls().get("Return", Mode::Editing));
    assert_eq!(Some(Control::SetSelectionRangeEnd), default_controls().get("Return", Mode::View));
}
