use crate::direction::Direction;
use std::collections::HashSet;
use vstd::arithmetic::div_mod::{
    lemma_div_by_multiple, lemma_div_pos_is_pos, lemma_fundamental_div_mod, lemma_mod_multiples_basic,
    lemma_mod_pos_bound,
};
use vstd::arithmetic::mul::lemma_mul_inequality;
use vstd::prelude::*;
use vstd::std_specs::hash::spec_hash_keys_iter;
use vstd::std_specs::iter::IteratorSpec;

verus! {

/// The grid of one picture per row: the single view.
pub const ONE_PICTURE_PER_ROW: usize = 1;

broadcast use vstd::std_specs::hash::group_hash_axioms;

/// What a navigator is, seen from outside: the gallery size, the grid, the focus, the page
/// that shows it, the range being defined and the selected picture indices.
pub struct NavigatorState {
    pub limit: usize,
    pub pictures_per_row: usize,
    pub position: usize,
    pub old_position: usize,
    pub page_start: usize,
    pub page_end: usize,
    pub page_changed: bool,
    pub range_start: Option<usize>,
    pub range_end: Option<usize>,
    pub selected: Set<usize>,
}

/// Number of pictures on a page: a square grid of `pictures_per_row` rows.
pub open spec fn page_size_of(pictures_per_row: usize) -> int {
    pictures_per_row * pictures_per_row
}

/// First index of the page that shows `position`.
pub open spec fn page_start_of(position: usize, page_size: int) -> int {
    (position as int / page_size) * page_size
}

/// Whether the page that shows `position` can be delimited without overflow.
pub open spec fn page_fits(limit: usize, pictures_per_row: usize, position: usize) -> bool {
    limit > 0 ==> {
        &&& pictures_per_row > 0
        &&& page_start_of(position, page_size_of(pictures_per_row)) + page_size_of(pictures_per_row)
            - 1 <= usize::MAX
    }
}

/// The page limits recomputed from the position, as `update_page_limits` does; nothing
/// changes in an empty gallery.
pub open spec fn updated(s: NavigatorState) -> NavigatorState {
    if s.limit > 0 {
        let ps = page_size_of(s.pictures_per_row);
        let start = page_start_of(s.position, ps);
        let end = if start + ps - 1 <= s.limit - 1 {
            start + ps - 1
        } else {
            s.limit - 1
        };
        NavigatorState {
            page_start: start as usize,
            page_end: end as usize,
            page_changed: s.page_start != start,
            ..s
        }
    } else {
        s
    }
}

/// The range, when both of its ends are set.
pub open spec fn range_of(s: NavigatorState) -> Option<(usize, usize)> {
    match (s.range_start, s.range_end) {
        (Some(start), Some(end)) => Some((start, end)),
        _ => None,
    }
}

/// The indices from `start` to `end`, both included.
pub open spec fn interval(start: usize, end: usize) -> Set<usize> {
    Set::new(|i: usize| start <= i <= end)
}

/// First index of the next page.
pub open spec fn next_page_start_of(s: NavigatorState) -> int {
    s.page_start + page_size_of(s.pictures_per_row)
}

/// First index of the previous page, or 0 from the first page.
pub open spec fn prev_page_start_of(s: NavigatorState) -> int {
    if s.page_start >= page_size_of(s.pictures_per_row) {
        s.page_start - page_size_of(s.pictures_per_row)
    } else {
        0
    }
}

/// Whether the focus may move in `direction`.
pub open spec fn can_move_to(s: NavigatorState, direction: Direction) -> bool {
    match direction {
        Direction::First => true,
        Direction::Last => true,
        Direction::Left => s.position > 0,
        Direction::Right => s.position < s.limit - 1,
        Direction::Index { value } => value < s.limit,
        Direction::Down => s.position + s.pictures_per_row < s.limit,
        Direction::Up => s.position >= s.pictures_per_row,
        Direction::PageStart => true,
        Direction::PageEnd => true,
        Direction::NextPage => next_page_start_of(s) < s.limit,
        Direction::PrevPage => prev_page_start_of(s) < s.limit,
    }
}

/// The position that a move in `direction` reaches.
pub open spec fn target_of(s: NavigatorState, direction: Direction) -> int {
    match direction {
        Direction::Right => s.position + 1,
        Direction::Left => s.position - 1,
        Direction::Last => s.limit - 1,
        Direction::First => 0,
        Direction::Index { value } => value as int,
        Direction::Down => s.position + s.pictures_per_row,
        Direction::Up => if s.position >= s.pictures_per_row {
            s.position - s.pictures_per_row
        } else {
            0
        },
        Direction::PageStart => s.page_start as int,
        Direction::PageEnd => s.page_end as int,
        Direction::NextPage => next_page_start_of(s),
        Direction::PrevPage => prev_page_start_of(s),
    }
}

/// Whether a move in `direction` stays within the machine's integers and its page can be
/// delimited.
pub open spec fn can_compute_move(s: NavigatorState, direction: Direction) -> bool {
    let t = target_of(s, direction);
    &&& 0 <= t <= usize::MAX
    &&& page_fits(s.limit, s.pictures_per_row, t as usize)
}

/// The state after a move in `direction`.
pub open spec fn moved(s: NavigatorState, direction: Direction) -> NavigatorState {
    updated(
        NavigatorState {
            old_position: s.position,
            position: target_of(s, direction) as usize,
            ..s
        },
    )
}

/// The state after asking whether a move is possible: a refused move records that the focus
/// stayed where it was.
pub open spec fn after_can_move(s: NavigatorState, direction: Direction) -> NavigatorState {
    if can_move_to(s, direction) {
        s
    } else {
        NavigatorState { old_position: s.position, page_changed: false, ..s }
    }
}

/// The state after cancelling the range: its pictures are no longer selected (a range start
/// alone unselects its picture) and neither end is set.
pub open spec fn cancelled(s: NavigatorState) -> NavigatorState {
    let selected = if range_of(s) is Some {
        Set::empty()
    } else if s.range_start is Some {
        s.selected.remove(s.range_start->0)
    } else {
        s.selected
    };
    NavigatorState { range_start: None, range_end: None, selected, ..s }
}

/// The state after `set_range(index)`: a complete range is first cancelled; then `index`
/// starts a range and is selected, or ends the started range, whose ends are put in order and
/// whose pictures become the selection.
pub open spec fn range_set(s: NavigatorState, index: usize) -> NavigatorState {
    let s1 = if range_of(s) is Some {
        cancelled(s)
    } else {
        s
    };
    if s1.range_start is None {
        NavigatorState {
            range_start: Some(index),
            selected: s1.selected.insert(index),
            ..s1
        }
    } else {
        let first = s1.range_start->0;
        let lo = if index < first {
            index
        } else {
            first
        };
        let hi = if index < first {
            first
        } else {
            index
        };
        NavigatorState {
            range_start: Some(lo),
            range_end: Some(hi),
            selected: interval(lo, hi),
            ..s1
        }
    }
}

/// The invariant of a navigator: the page holds in the machine's integers, an end of range
/// needs a start, a complete range is in order, and the page limits follow the position
/// (they stay at 0 in an empty gallery).
pub open spec fn navigator_wf(s: NavigatorState) -> bool {
    &&& page_size_of(s.pictures_per_row) <= usize::MAX
    &&& page_fits(s.limit, s.pictures_per_row, s.position)
    &&& s.range_end is Some ==> s.range_start is Some
    &&& range_of(s) matches Some((start, end)) ==> start <= end
    &&& s.limit > 0 ==> {
        &&& s.page_start == page_start_of(s.position, page_size_of(s.pictures_per_row))
        &&& s.page_end == updated(s).page_end
    }
    &&& s.limit == 0 ==> s.page_start == 0 && s.page_end == 0
}

/// Facts on the start of the page that shows a position.
pub proof fn lemma_page_start(position: usize, page_size: int)
    requires
        page_size > 0,
    ensures
        0 <= page_start_of(position, page_size) <= position,
        position < page_start_of(position, page_size) + page_size,
        page_start_of(position, page_size) % page_size == 0,
        page_start_of(position, page_size) / page_size == position as int / page_size,
{
    let q = position as int / page_size;
    lemma_fundamental_div_mod(position as int, page_size);
    lemma_mod_pos_bound(position as int, page_size);
    lemma_div_pos_is_pos(position as int, page_size);
    lemma_mul_inequality(0, q, page_size);
    lemma_mod_multiples_basic(q, page_size);
    lemma_div_by_multiple(q, page_size);
    assert(page_size * q == q * page_size) by (nonlinear_arith);
}

/// A move that `can_move` allows keeps the focus on a picture of the gallery.
pub proof fn lemma_allowed_move_stays_in_gallery(s: NavigatorState, direction: Direction)
    requires
        navigator_wf(s),
        s.limit > 0,
        s.position < s.limit,
        can_move_to(s, direction),
    ensures
        0 <= target_of(s, direction) < s.limit,
{
    lemma_mul_inequality(1, s.pictures_per_row as int, s.pictures_per_row as int);
    lemma_page_start(s.position, page_size_of(s.pictures_per_row));
}

/// The page always shows the focus: it starts at a multiple of the page size, at most one
/// page before the focus, and its number is the focus' page number; a focus inside the
/// gallery lies between the page's first and last index.
pub proof fn lemma_page_holds_focus(s: NavigatorState)
    requires
        navigator_wf(s),
        s.limit > 0,
    ensures
        s.page_start <= s.position < s.page_start + page_size_of(s.pictures_per_row),
        s.page_start as int % page_size_of(s.pictures_per_row) == 0,
        s.page_start as int / page_size_of(s.pictures_per_row) == s.position as int / page_size_of(
            s.pictures_per_row,
        ),
        s.position < s.limit ==> s.position <= s.page_end,
{
    lemma_mul_inequality(1, s.pictures_per_row as int, s.pictures_per_row as int);
    lemma_page_start(s.position, page_size_of(s.pictures_per_row));
}

/// The cell of a picture shown on the page leads back to that picture, and the picture at a
/// cell of the page has that cell.
pub proof fn lemma_coords_round_trip(s: NavigatorState, position: usize, row: usize, col: usize)
    requires
        navigator_wf(s),
        s.pictures_per_row > 0,
    ensures
        s.page_start <= position <= s.page_end ==> {
            let r = (position - s.page_start) / (s.pictures_per_row as int);
            let c = (position - s.page_start) % (s.pictures_per_row as int);
            &&& 0 <= c < s.pictures_per_row
            &&& s.page_start + r * s.pictures_per_row + c == position
        },
        col < s.pictures_per_row && position == s.page_start + row * s.pictures_per_row + col
            && position <= s.page_end ==> {
            &&& (position - s.page_start) / (s.pictures_per_row as int) == row
            &&& (position - s.page_start) % (s.pictures_per_row as int) == col
        },
{
    let ppr = s.pictures_per_row as int;
    if s.page_start <= position <= s.page_end {
        let d = position - s.page_start;
        lemma_fundamental_div_mod(d, ppr);
        lemma_mod_pos_bound(d, ppr);
        assert(ppr * (d / ppr) == (d / ppr) * ppr) by (nonlinear_arith);
    }
    if col < s.pictures_per_row && position == s.page_start + row * s.pictures_per_row + col {
        let d = position - s.page_start;
        assert(d == row * ppr + col);
        vstd::arithmetic::div_mod::lemma_fundamental_div_mod_converse(d, ppr, row as int, col as int);
    }
}

/// Two calls of `set_range`, from a navigator with no range started, define the range
/// between the two indices, in order, and select exactly its pictures; a third call cancels
/// that range and starts a new one at its index.
pub proof fn lemma_range_from_two_ends(s: NavigatorState, a: usize, b: usize, c: usize)
    requires
        navigator_wf(s),
        s.range_start is None,
    ensures
        ({
            let lo = if b < a { b } else { a };
            let hi = if b < a { a } else { b };
            let s2 = range_set(range_set(s, a), b);
            &&& range_of(range_set(s, a)) is None
            &&& range_set(s, a).range_start == Some(a)
            &&& range_of(s2) == Some((lo, hi))
            &&& s2.selected == interval(lo, hi)
            &&& range_of(range_set(s2, c)) is None
            &&& range_set(s2, c).range_start == Some(c)
            &&& range_set(s2, c).selected == set![c]
        }),
{
    let s2 = range_set(range_set(s, a), b);
    assert(range_set(s2, c).selected =~= set![c]);
}

/// Cancelling a complete range leaves nothing selected and no range.
pub proof fn lemma_cancel_complete_range(s: NavigatorState)
    requires
        range_of(s) is Some,
    ensures
        cancelled(s).selected == Set::<usize>::empty(),
        cancelled(s).range_start is None,
        cancelled(s).range_end is None,
{
}

/// A move that `can_move` refuses leaves the navigator reporting no move.
pub proof fn lemma_refused_move_is_no_move(s: NavigatorState, direction: Direction)
    requires
        !can_move_to(s, direction),
    ensures
        ({
            let t = after_can_move(s, direction);
            !(t.page_changed || t.old_position != t.position) && t.position == s.position
        }),
{
}

/// A move remembers where the focus was, and reports a page change exactly when the page
/// that shows the focus starts elsewhere.
pub proof fn lemma_move_records_previous_position(s: NavigatorState, direction: Direction)
    ensures
        moved(s, direction).old_position == s.position,
        0 <= target_of(s, direction) <= usize::MAX ==> moved(s, direction).position == target_of(
            s,
            direction,
        ),
        navigator_wf(s) && can_compute_move(s, direction) && s.limit > 0 ==> moved(
            s,
            direction,
        ).page_changed == (moved(s, direction).page_start != s.page_start),
{
    if navigator_wf(s) && can_compute_move(s, direction) && s.limit > 0 {
        lemma_mul_inequality(1, s.pictures_per_row as int, s.pictures_per_row as int);
        lemma_page_start(target_of(s, direction) as usize, page_size_of(s.pictures_per_row));
    }
}

/// The state of a new navigator on a gallery of `limit` pictures shown `pictures_per_row`
/// to a row: focused on the first picture, which is also where it was, with no range and
/// nothing selected.
pub open spec fn fresh(limit: usize, pictures_per_row: usize) -> NavigatorState {
    updated(
        NavigatorState {
            limit,
            pictures_per_row,
            position: 0,
            old_position: 0,
            page_start: 0,
            page_end: 0,
            page_changed: false,
            range_start: None,
            range_end: None,
            selected: Set::empty(),
        },
    )
}

/// The focus is on a picture of the gallery, and the page that shows it lies in the gallery.
pub open spec fn focus_in_gallery(s: NavigatorState) -> bool {
    &&& s.position < s.limit
    &&& s.page_start <= s.position <= s.page_end < s.limit
}

/// The state after a move made only where `can_move` allows it: otherwise the refusal is
/// recorded and the focus stays.
pub open spec fn guarded_move(s: NavigatorState, direction: Direction) -> NavigatorState {
    if can_move_to(s, direction) {
        moved(s, direction)
    } else {
        after_can_move(s, direction)
    }
}

/// The state after guarded moves in the directions of `directions`, in order.
pub open spec fn guarded_moves(s: NavigatorState, directions: Seq<Direction>) -> NavigatorState
    decreases directions.len(),
{
    if directions.len() == 0 {
        s
    } else {
        guarded_move(guarded_moves(s, directions.drop_last()), directions.last())
    }
}

/// A new navigator on a non-empty gallery is focused on a picture, its first, which is also
/// where it was.
pub proof fn lemma_fresh_focus_in_gallery(limit: usize, pictures_per_row: usize)
    requires
        limit > 0,
        pictures_per_row > 0,
        page_size_of(pictures_per_row) <= usize::MAX,
    ensures
        navigator_wf(fresh(limit, pictures_per_row)),
        focus_in_gallery(fresh(limit, pictures_per_row)),
        fresh(limit, pictures_per_row).position == 0,
        fresh(limit, pictures_per_row).old_position == 0,
{
    lemma_mul_inequality(1, pictures_per_row as int, pictures_per_row as int);
    lemma_page_start(0, page_size_of(pictures_per_row));
}

/// A guarded move keeps the focus on a picture of the gallery and the page around it inside
/// the gallery, as long as the page of the gallery's last picture fits the machine's integers.
pub proof fn lemma_guarded_move_keeps_focus_in_gallery(s: NavigatorState, direction: Direction)
    requires
        navigator_wf(s),
        focus_in_gallery(s),
        s.limit + page_size_of(s.pictures_per_row) <= usize::MAX + 1,
    ensures
        navigator_wf(guarded_move(s, direction)),
        focus_in_gallery(guarded_move(s, direction)),
        guarded_move(s, direction).limit == s.limit,
        guarded_move(s, direction).pictures_per_row == s.pictures_per_row,
{
    let ps = page_size_of(s.pictures_per_row);
    lemma_mul_inequality(1, s.pictures_per_row as int, s.pictures_per_row as int);
    if can_move_to(s, direction) {
        lemma_allowed_move_stays_in_gallery(s, direction);
        let t = target_of(s, direction);
        lemma_page_start(t as usize, ps);
        let m = moved(s, direction);
        assert(m.position == t);
        assert(m.page_start == page_start_of(t as usize, ps));
        assert(updated(m).page_end == m.page_end);
    }
}

/// Guarded moves keep the focus of a new navigator on a picture of the gallery, with the
/// page around it inside the gallery, whatever the moves: the state after any sequence of
/// `can_move` checks, each followed by its move where allowed (the page moves included, as
/// `NextPage` and `PrevPage`), has its focus on a picture and its page within the gallery.
pub proof fn lemma_guarded_moves_keep_focus_in_gallery(
    limit: usize,
    pictures_per_row: usize,
    directions: Seq<Direction>,
)
    requires
        limit > 0,
        pictures_per_row > 0,
        limit + page_size_of(pictures_per_row) <= usize::MAX + 1,
    ensures
        navigator_wf(guarded_moves(fresh(limit, pictures_per_row), directions)),
        focus_in_gallery(guarded_moves(fresh(limit, pictures_per_row), directions)),
        guarded_moves(fresh(limit, pictures_per_row), directions).limit == limit,
        guarded_moves(fresh(limit, pictures_per_row), directions).pictures_per_row
            == pictures_per_row,
    decreases directions.len(),
{
    if directions.len() == 0 {
        lemma_fresh_focus_in_gallery(limit, pictures_per_row);
    } else {
        lemma_guarded_moves_keep_focus_in_gallery(limit, pictures_per_row, directions.drop_last());
        lemma_guarded_move_keeps_focus_in_gallery(
            guarded_moves(fresh(limit, pictures_per_row), directions.drop_last()),
            directions.last(),
        );
    }
}

/// Tracks the focus in a gallery shown as pages of a square grid, the range being defined
/// and the selected pictures.
#[derive(Debug)]
pub struct Navigator {
    limit: usize,
    pictures_per_row: usize,
    position: usize,
    old_position: usize,
    page_start: usize,
    page_end: usize,
    page_changed: bool,
    range_start: Option<usize>,
    range_end: Option<usize>,
    selected_pictures: HashSet<usize>,
}

impl View for Navigator {
    type V = NavigatorState;

    closed spec fn view(&self) -> NavigatorState {
        NavigatorState {
            limit: self.limit,
            pictures_per_row: self.pictures_per_row,
            position: self.position,
            old_position: self.old_position,
            page_start: self.page_start,
            page_end: self.page_end,
            page_changed: self.page_changed,
            range_start: self.range_start,
            range_end: self.range_end,
            selected: self.selected_pictures@,
        }
    }
}

impl Navigator {
    /// The invariant of the navigator.
    pub open spec fn wf(&self) -> bool {
        navigator_wf(self@)
    }

    /// A navigator on a gallery of `limit` pictures, focused on the first one, with nothing
    /// selected.
    pub fn new(limit: usize, pictures_per_row: usize) -> (result: Self)
        requires
            page_size_of(pictures_per_row) <= usize::MAX,
            limit > 0 ==> pictures_per_row > 0,
        ensures
            result.wf(),
            result@ == fresh(limit, pictures_per_row),
    {
        let mut result = Navigator {
            limit,
            pictures_per_row,
            position: 0,
            old_position: 0,
            page_start: 0,
            page_end: 0,
            page_changed: false,
            range_start: None,
            range_end: None,
            selected_pictures: HashSet::new(),
        };
        proof {
            if limit > 0 {
                lemma_mul_inequality(1, pictures_per_row as int, pictures_per_row as int);
                lemma_page_start(0, page_size_of(pictures_per_row));
            }
        }
        result.update_page_limits();
        result
    }

    pub fn limit(&self) -> (r: usize)
        ensures
            r == self@.limit,
    {
        self.limit
    }

    pub fn position(&self) -> (r: usize)
        ensures
            r == self@.position,
    {
        self.position
    }

    pub fn old_position(&self) -> (r: usize)
        ensures
            r == self@.old_position,
    {
        self.old_position
    }

    pub fn page_start(&self) -> (r: usize)
        ensures
            r == self@.page_start,
    {
        self.page_start
    }

    pub fn page_end(&self) -> (r: usize)
        ensures
            r == self@.page_end,
    {
        self.page_end
    }

    /// The range, when both of its ends are set.
    pub fn range(&self) -> (r: Option<(usize, usize)>)
        ensures
            r == range_of(self@),
    {
        if let Some(start) = self.range_start {
            if let Some(end) = self.range_end {
                return Some((start, end));
            }
        }
        None
    }

    /// Number of pictures on a page.
    pub fn page_size(&self) -> (r: usize)
        requires
            page_size_of(self@.pictures_per_row) <= usize::MAX,
        ensures
            r == page_size_of(self@.pictures_per_row),
    {
        self.pictures_per_row * self.pictures_per_row
    }

    /// Number, from 1, of the page that shows the focus.
    pub fn current_page(&self) -> (r: usize)
        requires
            self.wf(),
            self@.pictures_per_row > 0,
            self@.position as int / page_size_of(self@.pictures_per_row) + 1 <= usize::MAX,
        ensures
            r == self@.position as int / page_size_of(self@.pictures_per_row) + 1,
    {
        proof {
            lemma_mul_inequality(1, self@.pictures_per_row as int, self@.pictures_per_row as int);
        }
        self.position() / self.page_size() + 1
    }

    /// Number of pages that the gallery takes (a last, empty page counts when the pictures
    /// fill their pages exactly).
    pub fn total_pages(&self) -> (r: usize)
        requires
            self.wf(),
            self@.pictures_per_row > 0,
            self@.limit as int / page_size_of(self@.pictures_per_row) + 1 <= usize::MAX,
        ensures
            r == self@.limit as int / page_size_of(self@.pictures_per_row) + 1,
    {
        proof {
            lemma_mul_inequality(1, self@.pictures_per_row as int, self@.pictures_per_row as int);
        }
        self.limit / self.page_size() + 1
    }

    /// First index of the next page.
    pub fn next_page_start(&self) -> (r: usize)
        requires
            self.wf(),
            next_page_start_of(self@) <= usize::MAX,
        ensures
            r == next_page_start_of(self@),
    {
        self.page_start + self.page_size()
    }

    /// First index of the previous page, or 0 from the first page.
    pub fn prev_page_start(&self) -> (r: usize)
        requires
            self.wf(),
        ensures
            r == prev_page_start_of(self@),
    {
        if self.page_start >= self.page_size() {
            self.page_start - self.page_size()
        } else {
            0
        }
    }

    pub fn range_start(&self) -> (r: Option<usize>)
        ensures
            r == self@.range_start,
    {
        self.range_start
    }

    pub fn range_end(&self) -> (r: Option<usize>)
        ensures
            r == self@.range_end,
    {
        self.range_end
    }

    /// Selects the pictures from `start` to `end`, both included.
    fn select_interval(&mut self, start: usize, end: usize)
        requires
            start <= end,
            old(self)@.selected == Set::<usize>::empty(),
        ensures
            final(self)@ == (NavigatorState { selected: interval(start, end), ..old(self)@ }),
    {
        let mut i = start;
        proof {
            assert(self@.selected =~= Set::new(|k: usize| start <= k < i));
        }
        while i < end
            invariant
                start <= i <= end,
                self@ == (NavigatorState {
                    selected: Set::new(|k: usize| start <= k < i),
                    ..old(self)@
                }),
            decreases end - i,
        {
            self.select(i);
            proof {
                assert(self@.selected =~= Set::new(|k: usize| start <= k < i + 1));
            }
            i = i + 1;
        }
        self.select(end);
        proof {
            assert(self@.selected =~= interval(start, end));
        }
    }

    /// Starts a range at `index`, or ends the started range there; a complete range is
    /// cancelled first. Ending a range makes its pictures the selection.
    pub fn set_range(&mut self, index: usize)
        requires
            old(self).wf(),
        ensures
            final(self).wf(),
            final(self)@ == range_set(old(self)@, index),
    {
        if self.range().is_some() {
            self.cancel_range();
        }
        if self.range_start.is_none() {
            self.range_start = Some(index);
            self.select(index);
        } else {
            self.range_end = Some(index);
            let first = self.range_start.unwrap();
            if index < first {
                self.range_start = Some(index);
                self.range_end = Some(first);
            }
        }
        if let Some((start, end)) = self.range() {
            self.selected_pictures.clear();
            self.select_interval(start, end);
        }
    }

    /// Cancels the range: its pictures are unselected and neither end stays set.
    pub fn cancel_range(&mut self)
        requires
            old(self).wf(),
        ensures
            final(self).wf(),
            final(self)@ == cancelled(old(self)@),
    {
        if let Some((_start, _end)) = self.range() {
            self.selected_pictures.clear();
        } else if let Some(start) = self.range_start {
            self.unselect(start)
        }
        self.range_start = None;
        self.range_end = None;
    }

    /// Whether the focus left its previous position or the page changed.
    pub fn has_moved(&self) -> (r: bool)
        ensures
            r == (self@.page_changed || self@.old_position != self@.position),
    {
        self.page_changed || (self.old_position != self.position)
    }

    pub fn page_changed(&self) -> (r: bool)
        ensures
            r == self@.page_changed,
    {
        self.page_changed
    }

    pub fn set_page_changed(&mut self)
        requires
            old(self).wf(),
        ensures
            final(self).wf(),
            final(self)@ == (NavigatorState { page_changed: true, ..old(self)@ }),
    {
        self.page_changed = true
    }

    pub fn set_page_unchanged(&mut self)
        requires
            old(self).wf(),
        ensures
            final(self).wf(),
            final(self)@ == (NavigatorState { page_changed: false, ..old(self)@ }),
    {
        self.page_changed = false
    }

    /// Changes the grid and recomputes the page that shows the focus.
    pub fn set_pictures_per_row(&mut self, pictures_per_row: usize)
        requires
            old(self).wf(),
            page_size_of(pictures_per_row) <= usize::MAX,
            page_fits(old(self)@.limit, pictures_per_row, old(self)@.position),
        ensures
            final(self).wf(),
            final(self)@ == updated(
                NavigatorState { pictures_per_row, ..old(self)@ },
            ),
    {
        self.pictures_per_row = pictures_per_row;
        self.update_page_limits();
    }

    /// The picture index at a cell of the current page, when the gallery has one there.
    pub fn position_from_coords(&self, row: usize, col: usize) -> (r: Option<usize>)
        requires
            self@.page_start + row * self@.pictures_per_row + col <= usize::MAX,
        ensures
            ({
                let p = self@.page_start + row * self@.pictures_per_row + col;
                r == if p < self@.limit {
                    Some(p as usize)
                } else {
                    None
                }
            }),
    {
        proof {
            lemma_mul_inequality(0, row as int, self.pictures_per_row as int);
            assert(row * self.pictures_per_row == self.pictures_per_row * row) by (nonlinear_arith);
        }
        let position_from_coords = self.page_start + row * self.pictures_per_row + col;
        if position_from_coords < self.limit {
            Some(position_from_coords)
        } else {
            None
        }
    }

    /// The cell (row, column) of a picture index on the current page, when the page holds it.
    pub fn coords_from_position(&self, position: usize) -> (r: Option<(usize, usize)>)
        requires
            self@.page_start <= position <= self@.page_end ==> self@.pictures_per_row > 0,
        ensures
            r == if self@.page_start <= position <= self@.page_end {
                Some(
                    (
                        ((position - self@.page_start) / (self@.pictures_per_row as int)) as usize,
                        ((position - self@.page_start) % (self@.pictures_per_row as int)) as usize,
                    ),
                )
            } else {
                None
            },
    {
        if self.page_start() <= position && position <= self.page_end() {
            let row = (position - self.page_start()) / self.pictures_per_row;
            let col = (position - self.page_start()) % self.pictures_per_row;
            Some((row, col))
        } else {
            None
        }
    }

    /// Whether the focus may move in `direction`. A refused move records that the focus
    /// stayed where it was.
    pub fn can_move(&mut self, direction: Direction) -> (r: bool)
        requires
            old(self).wf(),
            direction == Direction::Right ==> old(self)@.limit >= 1,
            direction == Direction::Down ==> old(self)@.position + old(self)@.pictures_per_row
                <= usize::MAX,
            direction == Direction::NextPage ==> next_page_start_of(old(self)@) <= usize::MAX,
        ensures
            final(self).wf(),
            r == can_move_to(old(self)@, direction),
            final(self)@ == after_can_move(old(self)@, direction),
    {
        let can_move = match direction {
            Direction::First => true,
            Direction::Last => true,
            Direction::Left => self.position > 0,
            Direction::Right => self.position < self.limit - 1,
            Direction::Index { value } => value < self.limit,
            Direction::Down => self.position + self.pictures_per_row < self.limit,
            Direction::Up => self.position >= self.pictures_per_row,
            Direction::PageStart => true,
            Direction::PageEnd => true,
            Direction::NextPage => self.next_page_start() < self.limit,
            Direction::PrevPage => self.prev_page_start() < self.limit,
        };
        if !can_move {
            self.old_position = self.position;
            self.page_changed = false;
        }
        can_move
    }

    /// Whether the focus may move to the start of the next page.
    pub fn can_move_next_page(&mut self) -> (r: bool)
        requires
            old(self).wf(),
            next_page_start_of(old(self)@) <= usize::MAX,
        ensures
            final(self).wf(),
            r == can_move_to(old(self)@, Direction::NextPage),
            final(self)@ == after_can_move(old(self)@, Direction::NextPage),
    {
        let value = self.next_page_start();
        let r = self.can_move(Direction::Index { value });
        r
    }

    /// Whether the focus may move to the start of the previous page.
    pub fn can_move_prev_page(&mut self) -> (r: bool)
        requires
            old(self).wf(),
        ensures
            final(self).wf(),
            r == can_move_to(old(self)@, Direction::PrevPage),
            final(self)@ == after_can_move(old(self)@, Direction::PrevPage),
    {
        let value = self.prev_page_start();
        let r = self.can_move(Direction::Index { value });
        r
    }

    /// Moves the focus in `direction`, remembering where it was, and recomputes the page.
    pub fn move_towards(&mut self, direction: Direction)
        requires
            old(self).wf(),
            can_compute_move(old(self)@, direction),
        ensures
            final(self).wf(),
            final(self)@ == moved(old(self)@, direction),
    {
        self.old_position = self.position;
        match direction {
            Direction::Right => self.position = self.position + 1,
            Direction::Left => self.position = self.position - 1,
            Direction::Last => self.position = self.limit - 1,
            Direction::First => self.position = 0,
            Direction::Index { value } => self.position = value,
            Direction::Down => self.position = self.position + self.pictures_per_row,
            Direction::Up => {
                self.position =
                    if self.position >= self.pictures_per_row {
                        self.position - self.pictures_per_row
                    } else {
                        0
                    }
            },
            Direction::PageStart => self.position = self.page_start,
            Direction::PageEnd => self.position = self.page_end,
            Direction::NextPage => self.position = self.page_start + self.page_size(),
            Direction::PrevPage => self.position = self.prev_page_start(),
        };
        self.update_page_limits();
    }

    /// Moves the focus to the start of the next page.
    pub fn move_next_page(&mut self)
        requires
            old(self).wf(),
            can_compute_move(old(self)@, Direction::NextPage),
        ensures
            final(self).wf(),
            final(self)@ == moved(old(self)@, Direction::NextPage),
    {
        let value = self.next_page_start();
        self.move_towards(Direction::Index { value })
    }

    /// Moves the focus to the start of the previous page.
    pub fn move_prev_page(&mut self)
        requires
            old(self).wf(),
            can_compute_move(old(self)@, Direction::PrevPage),
        ensures
            final(self).wf(),
            final(self)@ == moved(old(self)@, Direction::PrevPage),
    {
        let value = self.prev_page_start();
        self.move_towards(Direction::Index { value })
    }

    /// Recomputes the page that shows the focus: its first index is the position rounded down
    /// to a multiple of the page size, its last is a page further or the gallery's last.
    pub fn update_page_limits(&mut self)
        requires
            page_size_of(old(self)@.pictures_per_row) <= usize::MAX,
            page_fits(old(self)@.limit, old(self)@.pictures_per_row, old(self)@.position),
            old(self)@.range_end is Some ==> old(self)@.range_start is Some,
            range_of(old(self)@) matches Some((start, end)) ==> start <= end,
            old(self)@.limit == 0 ==> old(self)@.page_start == 0 && old(self)@.page_end == 0,
        ensures
            final(self).wf(),
            final(self)@ == updated(old(self)@),
    {
        if self.limit > 0 {
            let ghost ps = page_size_of(self.pictures_per_row);
            proof {
                lemma_mul_inequality(1, self.pictures_per_row as int, self.pictures_per_row as int);
                lemma_page_start(self.position, ps);
            }
            let old_page_start: usize = self.page_start;
            let page_size = self.page_size();
            self.page_start = (self.position / page_size) * page_size;
            assert(self.page_start == page_start_of(self.position, ps));
            let last = self.page_start + (page_size - 1);
            self.page_end = if last <= self.limit - 1 {
                last
            } else {
                self.limit - 1
            };
            self.page_changed = old_page_start != self.page_start;
        }
    }

    /// Whether the picture at `index` is selected.
    pub fn is_selected(&self, index: usize) -> (r: bool)
        ensures
            r == self@.selected.contains(index),
    {
        self.selected_pictures.contains(&index)
    }

    /// Selects the picture at `index`.
    pub fn select(&mut self, index: usize)
        ensures
            final(self)@ == (NavigatorState {
                selected: old(self)@.selected.insert(index),
                ..old(self)@
            }),
    {
        let _ = self.selected_pictures.insert(index);
    }

    /// Unselects the picture at `index`.
    pub fn unselect(&mut self, index: usize)
        ensures
            final(self)@ == (NavigatorState {
                selected: old(self)@.selected.remove(index),
                ..old(self)@
            }),
    {
        let _ = self.selected_pictures.remove(&index);
    }

    /// The selected picture indices in increasing order.
    pub fn selection(&mut self) -> (r: Vec<usize>)
        ensures
            final(self)@ == old(self)@,
            r@.to_set() == old(self)@.selected,
            forall|i: int, j: int| 0 <= i < j < r@.len() ==> r@[i] < r@[j],
    {
        let mut result: Vec<usize> = Vec::new();
        let ghost keys = spec_hash_keys_iter(&self.selected_pictures).remaining();
        proof {
            assert(keys.unref().to_set() == self@.selected);
            assert(keys.no_duplicates());
        }
        for x in it: self.selected_pictures.iter()
            invariant
                it.seq() == keys,
                keys.no_duplicates(),
                forall|i: int, j: int| 0 <= i < j < result@.len() ==> result@[i] < result@[j],
                result@.to_set() == keys.take(it.index() as int).unref().to_set(),
        {
            let v = *x;
            let ghost idx = it.index() as int;
            proof {
                assert(keys[idx] == x);
                if result@.contains(v) {
                    assert(result@.to_set().contains(v));
                    assert(keys.take(idx).unref().to_set().contains(v));
                    let j = choose|j: int| 0 <= j < idx && keys.take(idx).unref()[j] == v;
                    assert(keys[j] == keys[idx]);
                }
            }
            let mut k: usize = 0;
            while k < result.len() && result[k] < v
                invariant
                    k <= result.len(),
                    forall|i: int| 0 <= i < k ==> result@[i] < v,
                decreases result.len() - k,
            {
                k = k + 1;
            }
            let ghost before = result@;
            proof {
                if k < result.len() {
                    assert(result@[k as int] != v) by {
                        assert(result@.contains(result@[k as int]));
                    }
                }
            }
            result.insert(k, v);
            proof {
                assert(result@ == before.insert(k as int, v));
                assert forall|i: int, j: int| 0 <= i < j < result@.len() implies result@[i] < result@[j] by {
                    if j < k {
                    } else if j == k {
                    } else if i < k {
                        assert(result@[j] == before[j - 1]);
                        if j - 1 > k { assert(before[k as int] < before[j - 1]); }
                    } else if i == k {
                        assert(result@[j] == before[j - 1]);
                        if j - 1 > k { assert(before[k as int] < before[j - 1]); }
                    } else {
                        assert(result@[j] == before[j - 1]);
                        assert(result@[i] == before[i - 1]);
                    }
                }
                assert(keys.take(idx + 1).unref() == keys.take(idx).unref().push(v));
                assert(result@.to_set() =~= before.to_set().insert(v)) by {
                    assert forall|e: usize| result@.to_set().contains(e) implies before.to_set().insert(v).contains(e) by {
                        let t = choose|t: int| 0 <= t < result@.len() && result@[t] == e;
                        if t < k { assert(before[t] == e); } else if t > k { assert(before[t - 1] == e); }
                    }
                    assert forall|e: usize| before.to_set().insert(v).contains(e) implies result@.to_set().contains(e) by {
                        if e == v {
                            assert(result@[k as int] == v);
                        } else {
                            let t = choose|t: int| 0 <= t < before.len() && before[t] == e;
                            if t < k { assert(result@[t] == e); } else { assert(result@[t + 1] == e); }
                        }
                    }
                }
                keys.take(idx).unref().lemma_push_to_set_commute(v);
            }
        }
        proof {
            assert(keys.take(keys.len() as int) == keys);
        }
        result
    }
}

} // verus!
