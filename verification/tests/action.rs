use gsr::action::{Action, GioActionParameterType, GioActionType};
use gsr::model::Rank;

#[test]
fn not_all_action_are_repeatable() {
    assert!(Action::Rank(Rank::ThreeStars).is_repeatable());
    assert!(Action::Label("gio_action_type".to_string()).is_repeatable());
    assert!(!Action::AddCategory("gio_action_type".into(), "bar".into()).is_repeatable());
}

#[test]
fn gio_action_type_from_action() {
    let action = Action::PickChange;
    let gio_action_type = GioActionType::from_action(action);
    assert_eq!("pick-change", gio_action_type.name());
    assert_eq!(GioActionParameterType::NoParameter, gio_action_type.parameter_type());
}
