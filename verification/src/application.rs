use crate::action::{action_of_control, ActionView};
use crate::control::Control;
use crate::direction::Direction;
use crate::navigator::{
    after_can_move, can_move_to, lemma_allowed_move_stays_in_gallery, lemma_page_holds_focus, lemma_page_start, moved, navigator_wf, next_page_start_of,
    page_size_of, page_start_of, prev_page_start_of, target_of, can_compute_move, Navigator,
    NavigatorState,
};
use vstd::prelude::*;

verus! {

/// What the application does once a control has been handled on the navigator.
#[derive(PartialEq, Eq, Clone, Copy, Debug, Structural)]
pub enum ControlOutcome {
    /// show the pictures around the focus again
    RefreshView,
    /// nothing more
    Nothing,
    /// close the window
    Quit,
    /// show or hide the palette, then refresh the view
    TogglePalette,
    /// expand the picture or not, then refresh the view
    ToggleExpand,
    /// show the picture at full size or not, then refresh the view
    ToggleFullSize,
    /// switch between one picture and a grid, then refresh the view
    ToggleSingleView,
    /// start entering a label, then refresh the view
    BeginLabelInput,
    /// scroll the picture shown at full size one step towards the direction
    Scroll(Direction),
}

/// The move that a control asks of the navigator, if any, and whether it is made only where
/// the navigator allows it. With the picture at full size the arrows and the page keys do not
/// move the focus.
pub open spec fn control_move(s: NavigatorState, control: Control, full_size_on: bool) -> Option<(Direction, bool)> {
    match control {
        Control::MoveNext => if full_size_on {
            None
        } else if s.pictures_per_row == 1 {
            Some((Direction::Right, true))
        } else {
            Some((Direction::Index { value: next_page_start_of(s) as usize }, true))
        },
        Control::MovePrev => if full_size_on {
            None
        } else if s.pictures_per_row == 1 {
            Some((Direction::Left, true))
        } else {
            Some((Direction::Index { value: prev_page_start_of(s) as usize }, true))
        },
        Control::Right => if full_size_on { None } else { Some((Direction::Right, true)) },
        Control::Left => if full_size_on { None } else { Some((Direction::Left, true)) },
        Control::Down => if full_size_on { None } else { Some((Direction::Down, true)) },
        Control::Up => if full_size_on { None } else { Some((Direction::Up, true)) },
        Control::MoveEndPage => Some((Direction::PageEnd, false)),
        Control::MoveStartPage => Some((Direction::PageStart, false)),
        Control::MoveLast => Some((Direction::Last, false)),
        Control::MoveFirst => Some((Direction::First, false)),
        _ => None,
    }
}

/// The navigator after a control: a checked move is made where the navigator allows it (a
/// refused one records that the focus stayed), an unchecked move is made, and any other
/// control leaves the navigator as it was.
pub open spec fn navigated(s: NavigatorState, control: Control, full_size_on: bool) -> NavigatorState {
    match control_move(s, control, full_size_on) {
        Some((d, true)) => if can_move_to(s, d) {
            moved(s, d)
        } else {
            after_can_move(s, d)
        },
        Some((d, false)) => moved(s, d),
        None => s,
    }
}

/// What the application does after a control: refresh the view after a move, close the
/// window, toggle a setting, start entering a label, or scroll the picture shown at full size
/// with an arrow.
pub open spec fn control_outcome(s: NavigatorState, control: Control, full_size_on: bool) -> ControlOutcome {
    if control_move(s, control, full_size_on) is Some {
        ControlOutcome::RefreshView
    } else {
        match control {
            Control::Quit => ControlOutcome::Quit,
            Control::TogglePalette => ControlOutcome::TogglePalette,
            Control::ToggleExpand => ControlOutcome::ToggleExpand,
            Control::ToggleFullSize => ControlOutcome::ToggleFullSize,
            Control::ToggleSingleView => ControlOutcome::ToggleSingleView,
            Control::Label => ControlOutcome::BeginLabelInput,
            Control::Left => ControlOutcome::Scroll(Direction::Left),
            Control::Right => ControlOutcome::Scroll(Direction::Right),
            Control::Up => ControlOutcome::Scroll(Direction::Up),
            Control::Down => ControlOutcome::Scroll(Direction::Down),
            _ => ControlOutcome::Nothing,
        }
    }
}

/// The controls that need a picture in the gallery: the last picture, and a step to the
/// right, which the gallery's last index bounds.
pub open spec fn needs_a_picture(s: NavigatorState, control: Control, full_size_on: bool) -> bool {
    match control_move(s, control, full_size_on) {
        Some((Direction::Right, _)) | Some((Direction::Last, _)) => true,
        _ => false,
    }
}

/// A move towards a picture of the gallery, or back towards its start, leaves room for the
/// page that shows it.
proof fn lemma_target_computable(s: NavigatorState, d: Direction)
    requires
        navigator_wf(s),
        s.limit + page_size_of(s.pictures_per_row) <= usize::MAX + 1,
        s.position + page_size_of(s.pictures_per_row) <= usize::MAX,
        0 <= target_of(s, d),
        target_of(s, d) < s.limit || target_of(s, d) <= s.position,
    ensures
        can_compute_move(s, d),
{
    let t = target_of(s, d);
    if s.limit > 0 {
        vstd::arithmetic::mul::lemma_mul_inequality(1, s.pictures_per_row as int, s.pictures_per_row as int);
        lemma_page_start(t as usize, page_size_of(s.pictures_per_row));
        assert(page_start_of(t as usize, page_size_of(s.pictures_per_row)) <= t);
    }
}

/// Controls keep the focus on a picture of the gallery: whatever control is handled, a focus
/// on a picture stays on a picture.
pub proof fn lemma_controls_keep_focus_in_gallery(s: NavigatorState, control: Control, full_size_on: bool)
    requires
        navigator_wf(s),
        0 < s.limit,
        s.position < s.limit,
    ensures
        navigated(s, control, full_size_on).position < s.limit,
        navigated(s, control, full_size_on).limit == s.limit,
{
    lemma_page_holds_focus(s);
    match control_move(s, control, full_size_on) {
        Some((d, true)) => {
            if can_move_to(s, d) {
                lemma_allowed_move_stays_in_gallery(s, d);
            }
        },
        Some((d, false)) => {
            lemma_allowed_move_stays_in_gallery(s, d);
        },
        None => {},
    }
}

/// Outside the full size view, the arrow controls move the focus by one picture or one row
/// in their own direction, where the gallery allows it: Right one picture on, Left one
/// picture back, Down one row on and Up one row back; next and previous go a picture on or
/// back in the single view and a page on or back in a grid.
pub proof fn lemma_arrows_move_the_focus_their_way(s: NavigatorState)
    requires
        navigator_wf(s),
        0 < s.limit,
        s.position < s.limit,
        s.position + page_size_of(s.pictures_per_row) <= usize::MAX,
    ensures
        s.position + 1 < s.limit ==> navigated(s, Control::Right, false).position == s.position + 1,
        s.position > 0 ==> navigated(s, Control::Left, false).position == s.position - 1,
        s.position + s.pictures_per_row < s.limit ==> navigated(s, Control::Down, false).position
            == s.position + s.pictures_per_row,
        s.position >= s.pictures_per_row ==> navigated(s, Control::Up, false).position
            == s.position - s.pictures_per_row,
        navigated(s, Control::Right, false).position >= s.position,
        navigated(s, Control::Left, false).position <= s.position,
        navigated(s, Control::Down, false).position >= s.position,
        navigated(s, Control::Up, false).position <= s.position,
        navigated(s, Control::MoveNext, false).position >= s.position,
        navigated(s, Control::MovePrev, false).position <= s.position,
        s.pictures_per_row == 1 && s.position + 1 < s.limit ==> navigated(
            s,
            Control::MoveNext,
            false,
        ).position == s.position + 1,
        s.pictures_per_row == 1 && s.position > 0 ==> navigated(s, Control::MovePrev, false).position
            == s.position - 1,
        s.pictures_per_row > 1 && next_page_start_of(s) < s.limit ==> navigated(
            s,
            Control::MoveNext,
            false,
        ).position == next_page_start_of(s),
        s.pictures_per_row > 1 ==> navigated(s, Control::MovePrev, false).position
            == prev_page_start_of(s),
{
    lemma_page_holds_focus(s);
}

/// The movement controls launch moves their own way, from any state: Down a row on, Up a row
/// back (or to the start), Right a picture on, Left a picture back, first and last to the
/// gallery's ends, page start and end to the page's.
pub proof fn lemma_movement_actions_move_their_way(s: NavigatorState)
    ensures
        action_of_control(Control::Down) matches ActionView::MoveTowards(d) && target_of(s, d)
            == s.position + s.pictures_per_row,
        action_of_control(Control::Up) matches ActionView::MoveTowards(d) && target_of(s, d)
            == (if s.position >= s.pictures_per_row {
            s.position - s.pictures_per_row
        } else {
            0
        }),
        action_of_control(Control::Right) matches ActionView::MoveTowards(d) && target_of(s, d)
            == s.position + 1,
        action_of_control(Control::Left) matches ActionView::MoveTowards(d) && target_of(s, d)
            == s.position - 1,
        action_of_control(Control::MoveFirst) matches ActionView::MoveTowards(d) && target_of(s, d)
            == 0,
        action_of_control(Control::MoveLast) matches ActionView::MoveTowards(d) && target_of(s, d)
            == s.limit - 1,
        action_of_control(Control::MoveStartPage) matches ActionView::MoveTowards(d) && target_of(
            s,
            d,
        ) == s.page_start,
        action_of_control(Control::MoveEndPage) matches ActionView::MoveTowards(d) && target_of(
            s,
            d,
        ) == s.page_end,
{
}

/// Handles a control on the navigator: makes the move it asks for (see `navigated`) and tells
/// what the application does next (see `control_outcome`).
pub fn process_control(navigator: &mut Navigator, control: Control, full_size_on: bool) -> (r: ControlOutcome)
    requires
        old(navigator).wf(),
        old(navigator)@.limit + page_size_of(old(navigator)@.pictures_per_row) <= usize::MAX + 1,
        old(navigator)@.position + page_size_of(old(navigator)@.pictures_per_row) <= usize::MAX,
        needs_a_picture(old(navigator)@, control, full_size_on) ==> old(navigator)@.limit > 0,
    ensures
        final(navigator).wf(),
        final(navigator)@ == navigated(old(navigator)@, control, full_size_on),
        r == control_outcome(old(navigator)@, control, full_size_on),
{
    let ghost s = navigator@;
    proof {
        if s.limit > 0 {
            lemma_page_holds_focus(s);
        }
        if s.pictures_per_row >= 1 {
            vstd::arithmetic::mul::lemma_mul_inequality(1, s.pictures_per_row as int, s.pictures_per_row as int);
        }
        assert((s.pictures_per_row * s.pictures_per_row == 1) == (s.pictures_per_row == 1)) by (nonlinear_arith);
    }
    let step: Option<(Direction, bool)> = match control {
        Control::MoveNext if !full_size_on => if navigator.page_size() == 1 {
            Some((Direction::Right, true))
        } else {
            Some((Direction::Index { value: navigator.next_page_start() }, true))
        },
        Control::MovePrev if !full_size_on => if navigator.page_size() == 1 {
            Some((Direction::Left, true))
        } else {
            Some((Direction::Index { value: navigator.prev_page_start() }, true))
        },
        Control::Right if !full_size_on => Some((Direction::Right, true)),
        Control::Left if !full_size_on => Some((Direction::Left, true)),
        Control::Down if !full_size_on => Some((Direction::Down, true)),
        Control::Up if !full_size_on => Some((Direction::Up, true)),
        Control::MoveEndPage => Some((Direction::PageEnd, false)),
        Control::MoveStartPage => Some((Direction::PageStart, false)),
        Control::MoveLast => Some((Direction::Last, false)),
        Control::MoveFirst => Some((Direction::First, false)),
        _ => None,
    };
    proof {
        assert(step == control_move(s, control, full_size_on));
    }
    match step {
        Some((direction, true)) => {
            if navigator.can_move(direction) {
                proof {
                    lemma_target_computable(s, direction);
                }
                navigator.move_towards(direction);
            }
            ControlOutcome::RefreshView
        },
        Some((direction, false)) => {
            proof {
                lemma_target_computable(s, direction);
            }
            navigator.move_towards(direction);
            ControlOutcome::RefreshView
        },
        None => match control {
            Control::Quit => ControlOutcome::Quit,
            Control::TogglePalette => ControlOutcome::TogglePalette,
            Control::ToggleExpand => ControlOutcome::ToggleExpand,
            Control::ToggleFullSize => ControlOutcome::ToggleFullSize,
            Control::ToggleSingleView => ControlOutcome::ToggleSingleView,
            Control::Label => ControlOutcome::BeginLabelInput,
            Control::Left => ControlOutcome::Scroll(Direction::Left),
            Control::Right => ControlOutcome::Scroll(Direction::Right),
            Control::Up => ControlOutcome::Scroll(Direction::Up),
            Control::Down => ControlOutcome::Scroll(Direction::Down),
            _ => ControlOutcome::Nothing,
        },
    }
}

} // verus!
