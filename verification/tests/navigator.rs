use gsr::direction::Direction;
use gsr::navigator::{Navigator, ONE_PICTURE_PER_ROW};

#[test]
fn navigator_cannot_move_past_gallery_limit() {
    let mut navigator = Navigator::new(3, ONE_PICTURE_PER_ROW);
    assert_eq!(0, navigator.position());
    assert!(navigator.can_move(Direction::Right));
    navigator.move_towards(Direction::Right);
    assert_eq!(1, navigator.position());
    navigator.move_towards(Direction::Right);
    assert!(!navigator.can_move(Direction::Right));
}

#[test]
fn navigator_cannot_move_before_first_position() {
    let mut navigator = Navigator::new(3, ONE_PICTURE_PER_ROW);
    assert!(!navigator.can_move(Direction::Left));
    navigator.move_towards(Direction::Right);
    assert!(navigator.can_move(Direction::Left));
    navigator.move_towards(Direction::Left);
    assert_eq!(0, navigator.position());
}

#[test]
fn navigator_can_move_to_first_and_last_position() {
    let mut navigator = Navigator::new(3, ONE_PICTURE_PER_ROW);
    navigator.move_towards(Direction::Last);
    assert_eq!(2, navigator.position());
    navigator.move_towards(Direction::First);
    assert_eq!(0, navigator.position());
}

#[test]
fn given_coords_can_tell_position_trivial_case() {
    let navigator = Navigator::new(3, ONE_PICTURE_PER_ROW);
    assert_eq!(Some(0), navigator.position_from_coords(0, 0));
}

#[test]
fn given_coords_can_tell_position_with_several_pictures_per_row_on_first_page() {
    assert_eq!(Some(0), Navigator::new(10, 2).position_from_coords(0, 0));
    assert_eq!(Some(1), Navigator::new(10, 2).position_from_coords(0, 1));
    assert_eq!(Some(2), Navigator::new(10, 2).position_from_coords(1, 0));
    assert_eq!(Some(3), Navigator::new(10, 2).position_from_coords(1, 1));
}

#[test]
fn given_illegal_coors_position_is_none() {
    assert_eq!(None, Navigator::new(1, 1).position_from_coords(0, 1));
    assert_eq!(None, Navigator::new(10, 4).position_from_coords(3, 3));
}

#[test]
fn after_page_change_position_from_coords_changes() {
    let mut navigator = Navigator::new(10, 2);
    assert_eq!(Some(3), navigator.position_from_coords(1, 1));
    for _ in 1..=4 {
        navigator.move_towards(Direction::Right)
    }
    assert_eq!(4, navigator.position());
    assert_eq!(Some(4), navigator.position_from_coords(0, 0));
    assert_eq!(Some(7), navigator.position_from_coords(1, 1));
}

#[test]
fn after_page_change_page_change_is_detected() {
    let mut navigator = Navigator::new(10, 2);
    assert!(!navigator.page_changed());
    assert_eq!(Some(3), navigator.position_from_coords(1, 1));
    for _ in 1..=4 {
        navigator.move_towards(Direction::Right);
    }
    assert!(navigator.page_changed());
}

#[test]
fn given_a_destination_index_can_move_if_within_limit() {
    let mut navigator = Navigator::new(10, 2);
    assert!(!navigator.can_move(Direction::Index { value: 10 }));
    assert!(navigator.can_move(Direction::Index { value: 7 }));
}

#[test]
fn moving_to_a_specific_index() {
    let mut navigator = Navigator::new(10, 2);
    navigator.move_towards(Direction::Index { value: 7 });
    assert_eq!(7, navigator.position());
}

#[test]
fn next_page_start_is_page_start_plus_page_size_modulo_limit() {
    let mut navigator = Navigator::new(10, 2);
    navigator.move_towards(Direction::Right);
    assert_eq!(1, navigator.position());
    assert_eq!(4, navigator.next_page_start());
    assert!(navigator.can_move_next_page());
    navigator.move_next_page();
    assert!(navigator.can_move_next_page());
    navigator.move_next_page();
    assert_eq!(8, navigator.page_start());
    assert_eq!(12, navigator.next_page_start());
}

#[test]
fn prev_page_start_is_page_start_minus_page_size() {
    let mut navigator = Navigator::new(10, 2);
    navigator.move_towards(Direction::Right);
    assert_eq!(1, navigator.position());
    assert_eq!(0, navigator.prev_page_start());
    navigator.move_next_page();
    navigator.move_next_page();
    assert_eq!(8, navigator.page_start());
    assert_eq!(4, navigator.prev_page_start());
    assert!(navigator.can_move_prev_page());
    navigator.move_prev_page();
    assert_eq!(4, navigator.position());
}

#[test]
fn moving_down_moves_to_entry_one_row_further() {
    let mut navigator = Navigator::new(10, 2);
    assert_eq!(0, navigator.position());
    navigator.move_towards(Direction::Down);
    assert_eq!(2, navigator.position());
    navigator.move_towards(Direction::Right);
    navigator.move_towards(Direction::Down);
    assert_eq!(5, navigator.position());
}

#[test]
fn cannot_move_down_if_beyond_limit() {
    let mut navigator = Navigator::new(10, 2);
    navigator.move_towards(Direction::Down);
    navigator.move_towards(Direction::Down);
    navigator.move_towards(Direction::Down);
    assert!(navigator.can_move(Direction::Down));
    navigator.move_towards(Direction::Down);
    assert!(!navigator.can_move(Direction::Down));
}

#[test]
fn moving_up_moves_to_entry_one_row_above() {
    let mut navigator = Navigator::new(10, 2);
    navigator.move_towards(Direction::Down);
    navigator.move_towards(Direction::Down);
    navigator.move_towards(Direction::Right);
    navigator.move_towards(Direction::Up);
    assert_eq!(3, navigator.position());
    navigator.move_towards(Direction::Up);
    assert_eq!(1, navigator.position());
}

#[test]
fn cannot_move_up_if_before_limit() {
    let mut navigator = Navigator::new(10, 2);
    navigator.move_towards(Direction::Down);
    assert!(navigator.can_move(Direction::Up));
    navigator.move_towards(Direction::Right);
    navigator.move_towards(Direction::Up);
    assert!(!navigator.can_move(Direction::Up));
}

#[test]
fn moving_to_beginning_of_page() {
    let mut navigator = Navigator::new(10, 2);
    navigator.move_towards(Direction::Down);
    navigator.move_towards(Direction::Down);
    navigator.move_towards(Direction::Right);
    navigator.move_towards(Direction::PageStart);
    assert_eq!(4, navigator.position());
}

#[test]
fn moving_to_end_of_page() {
    let mut navigator = Navigator::new(10, 2);
    navigator.move_towards(Direction::Down);
    navigator.move_towards(Direction::Down);
    navigator.move_towards(Direction::PageEnd);
    assert_eq!(7, navigator.position());
    navigator.move_towards(Direction::Right);
    navigator.move_towards(Direction::PageEnd);
    assert_eq!(9, navigator.position());
}

#[test]
fn position_from_coords_depnds_on_page_start() {
    let mut navigator = Navigator::new(10, 2);
    assert_eq!(Some(0), navigator.position_from_coords(0, 0));
    assert_eq!(Some(1), navigator.position_from_coords(0, 1));
    assert_eq!(Some(3), navigator.position_from_coords(1, 1));
    navigator.move_towards(Direction::Index {
        value: navigator.next_page_start(),
    });
    assert_eq!(Some(7), navigator.position_from_coords(1, 1));
}

#[test]
fn coords_from_position_depends_on_given_position() {
    let mut navigator = Navigator::new(10, 2);
    assert_eq!(None, navigator.coords_from_position(27));
    assert_eq!(Some((0, 0)), navigator.coords_from_position(0));
    assert_eq!(Some((0, 1)), navigator.coords_from_position(1));
    assert_eq!(Some((1, 0)), navigator.coords_from_position(2));
    navigator.move_towards(Direction::Last);
    assert_eq!(9, navigator.position());
    assert_eq!(Some((0, 1)), navigator.coords_from_position(9));
}

#[test]
fn after_moving_old_position_and_new_position_can_differ() {
    let mut navigator = Navigator::new(10, 2);
    assert!(navigator.position() == navigator.old_position());
    assert!(!navigator.has_moved());
    navigator.move_towards(Direction::Right);
    assert!(navigator.has_moved());
    navigator.move_towards(Direction::Last);
    assert!(navigator.has_moved());
    navigator.move_towards(Direction::Last);
    assert!(!navigator.has_moved());
}

#[test]
fn current_page_according_to_position_pictures_per_row() {
    let mut navigator = Navigator::new(10, 2);
    assert_eq!(navigator.current_page(), 1);
    navigator.move_towards(Direction::Index {
        value: navigator.next_page_start(),
    });
    assert_eq!(navigator.current_page(), 2);
    navigator.move_towards(Direction::Right);
    navigator.move_towards(Direction::Right);
    navigator.move_towards(Direction::Right);
    navigator.move_towards(Direction::Right);
    assert_eq!(navigator.current_page(), 3);
}

#[test]
fn total_pages_according_to_len_and_page_size() {
    let navigator = Navigator::new(10, 2);
    assert_eq!(navigator.total_pages(), 3);
}

#[test]
fn navigator_can_define_a_range() {
    let mut navigator = Navigator::new(10, 2);
    assert_eq!(None, navigator.range_start());
    assert_eq!(None, navigator.range_end());
    navigator.set_range(2);
    assert_eq!(Some(2), navigator.range_start());
    navigator.set_range(6);
    assert_eq!(Some(6), navigator.range_end());
}

#[test]
fn navigator_can_define_a_range_backwards() {
    let mut navigator = Navigator::new(10, 2);
    assert_eq!(None, navigator.range_start());
    assert_eq!(None, navigator.range_end());
    navigator.set_range(6);
    navigator.set_range(2);
    assert_eq!(Some(2), navigator.range_start());
    assert_eq!(Some(6), navigator.range_end());
}

#[test]
fn has_a_range_if_range_start_and_range_end_are_set() {
    let mut navigator = Navigator::new(10, 2);
    assert_eq!(None, navigator.range());
    navigator.set_range(2);
    assert_eq!(None, navigator.range());
    navigator.set_range(6);
    assert_eq!(Some((2, 6)), navigator.range());
}

#[test]
fn starting_a_new_range_cancels_current_range() {
    let mut navigator = Navigator::new(10, 2);
    assert_eq!(None, navigator.range_start());
    assert_eq!(None, navigator.range_end());
    navigator.set_range(6);
    navigator.set_range(2);
    assert_eq!(Some((2, 6)), navigator.range());
    navigator.set_range(4);
    assert_eq!(None, navigator.range());
}

#[test]
fn can_cancel_a_range() {
    let mut navigator = Navigator::new(10, 2);
    navigator.set_range(6);
    navigator.set_range(2);
    assert_eq!(Some((2, 6)), navigator.range());
    navigator.cancel_range();
    assert_eq!(None, navigator.range_start());
    assert_eq!(None, navigator.range_end());
}

#[test]
fn can_select_and_unselect_an_picture_index() {
    let mut navigator = Navigator::new(10, 2);
    assert!(!navigator.is_selected(0));
    navigator.select(9);
    assert!(navigator.is_selected(9));
    navigator.unselect(9);
    assert!(!navigator.is_selected(9));
}

#[test]
fn setting_a_range_selects_included_pictures() {
    let mut navigator = Navigator::new(10, 2);
    navigator.set_range(6);
    assert!(navigator.is_selected(6));
    navigator.set_range(2);
    navigator.select(9);
    assert!(!navigator.is_selected(1));
    assert!(navigator.is_selected(2));
    assert!(navigator.is_selected(3));
    assert!(navigator.is_selected(4));
    assert!(navigator.is_selected(5));
    assert!(navigator.is_selected(6));
    assert!(!navigator.is_selected(7));
}

#[test]
fn cancelling_a_range_unselects_included_pictures() {
    let mut navigator = Navigator::new(10, 2);
    navigator.set_range(6);
    navigator.set_range(2);
    navigator.cancel_range();
    assert!(!navigator.is_selected(2));
    assert!(!navigator.is_selected(3));
    assert!(!navigator.is_selected(4));
    assert!(!navigator.is_selected(5));
    assert!(!navigator.is_selected(6));
}

#[test]
fn can_yield_an_ordered_list_of_selected_pictures() {
    let mut navigator = Navigator::new(10, 2);
    navigator.set_range(6);
    navigator.set_range(2);
    assert_eq!(vec![2, 3, 4, 5, 6], navigator.selection());
}
