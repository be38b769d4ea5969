use crate::action::{action_of_control, ActionView};
use crate::direction::direction_from_name;
use crate::key_input::digit_char;
use crate::mode::Mode;
use crate::model::{rank_code, rank_text};
use crate::text::{push_char, string_eq, string_of};
use vstd::prelude::*;

verus! {

/// What a key does, in a mode.
#[derive(PartialEq, Eq, Hash, Clone, Copy, Debug, Structural)]
pub enum Control {
    AddTag,
    BackFromDirectory,
    CancelEdition,
    CancelRange,
    CancelSelection,
    Categorize,
    Complete,
    ConfirmEdition,
    ConfirmSelection,
    CopyTemp,
    DeleteChar,
    DeletePicture,
    DisplayDate,
    DisplayFocus,
    DisplaySize,
    Down,
    PickChange,
    EnterFind,
    EnterSelect,
    SetView,
    EnterRank,
    ExtractFileNames,
    FindName,
    FindNext,
    GotoDirectory,
    GotoMark,
    Help,
    Information,
    Jump,
    JumpMarkChar(char),
    Label,
    Left,
    MoveEndPage,
    MoveFirst,
    MoveLast,
    MoveNext,
    MovePicture,
    MovePrev,
    MoveRandom,
    MoveStartPage,
    OrderByCategory,
    OrderByColorCount,
    OrderByCover,
    OrderByDate,
    OrderByLabel,
    OrderByName,
    OrderByPalette,
    OrderByScore,
    OrderBySize,
    OrderByValue,
    PickMark,
    Quit,
    Randomize,
    RankNoStar,
    RankOneStar,
    RankThreeStars,
    RankTwoStars,
    RemoveTag,
    RedoFind,
    Rename,
    RepeatLastAction,
    RepeatRange,
    Right,
    SelectCategory,
    SetDisplay,
    SetMark,
    SetMarkChar(char),
    SetOrder,
    SetSelectionRangeEnd,
    SetSelectionRangeAll,
    SetSelectionRangePage,
    SetRank,
    Test,
    ToggleCover,
    ToggleCoverSelection,
    ToggleExpand,
    ToggleFullSize,
    DisplayPath,
    ToggleBlinking,
    TogglePalette,
    TogglePicturesPerRow(i32),
    ToggleSelected,
    ToggleTwoByTwoView,
    ToggleSingleView,
    ToggleThumbView,
    ToggleSlideShow,
    Uncategorize,
    Unlabel,
    Up,
}

/// A key name and the mode in which it is pressed.
pub type KeyAndMode = (String, Mode);

/// The control bound to each key name in each mode.
pub struct Controls {
    entries: Vec<(String, Mode, Control)>,
}

/// The bindings listed in `entries`, a later one replacing an earlier one of the same key
/// and mode.
pub open spec fn bindings(entries: Seq<(Seq<char>, Mode, Control)>) -> Map<(Seq<char>, Mode), Control>
    decreases entries.len(),
{
    if entries.len() == 0 {
        Map::empty()
    } else {
        let e = entries.last();
        bindings(entries.drop_last()).insert((e.0, e.1), e.2)
    }
}

impl View for Controls {
    type V = Map<(Seq<char>, Mode), Control>;

    closed spec fn view(&self) -> Map<(Seq<char>, Mode), Control> {
        Map::new(
            |k: (Seq<char>, Mode)|
                exists|i: int|
                    0 <= i < self.entries@.len() && #[trigger] self.entries@[i].0@ == k.0
                        && self.entries@[i].1 == k.1,
            |k: (Seq<char>, Mode)|
                {
                    let i = choose|i: int|
                        0 <= i < self.entries@.len() && #[trigger] self.entries@[i].0@ == k.0
                            && self.entries@[i].1 == k.1;
                    self.entries@[i].2
                },
        )
    }
}

impl Controls {
    /// No two entries bind the same key in the same mode.
    pub closed spec fn wf(&self) -> bool {
        forall|i: int, j: int|
            0 <= i < j < self.entries@.len() ==> !(#[trigger] self.entries@[i].0@
                == #[trigger] self.entries@[j].0@ && self.entries@[i].1 == self.entries@[j].1)
    }

    /// No binding.
    pub fn new() -> (r: Self)
        ensures
            r.wf(),
            r@ == Map::<(Seq<char>, Mode), Control>::empty(),
    {
        let r = Controls { entries: Vec::new() };
        proof {
            assert(r@ =~= Map::<(Seq<char>, Mode), Control>::empty());
        }
        r
    }

    /// Binds `key` in `mode` to `control`, replacing a binding of the same key and mode.
    pub fn insert(&mut self, key: String, mode: Mode, control: Control)
        requires
            old(self).wf(),
        ensures
            final(self).wf(),
            final(self)@ == old(self)@.insert((key@, mode), control),
    {
        let mut i: usize = 0;
        while i < self.entries.len()
            invariant
                i <= self.entries.len(),
                self.wf(),
                self@ == old(self)@,
                self.entries@ == old(self).entries@,
                forall|j: int|
                    0 <= j < i ==> !(#[trigger] self.entries@[j].0@ == key@ && self.entries@[j].1
                        == mode),
            decreases self.entries.len() - i,
        {
            if string_eq(&self.entries[i].0, &key) && self.entries[i].1 == mode {
                let ghost before = self.entries@;
                let k = self.entries[i].0.clone();
                self.entries.set(i, (k, mode, control));
                proof {
                    assert(self@ =~= old(self)@.insert((key@, mode), control)) by {
                        assert forall|q: (Seq<char>, Mode)| #[trigger] self@.contains_key(q) implies
                            old(self)@.insert((key@, mode), control).contains_key(q) by {
                            let t = choose|t: int|
                                0 <= t < self.entries@.len() && #[trigger] self.entries@[t].0@ == q.0
                                    && self.entries@[t].1 == q.1;
                            if t != i {
                                assert(before[t].0@ == q.0 && before[t].1 == q.1);
                            }
                        }
                        assert forall|q: (Seq<char>, Mode)|
                            old(self)@.insert((key@, mode), control).contains_key(q) implies
                            #[trigger] self@.contains_key(q) by {
                            if q != (key@, mode) {
                                let t = choose|t: int|
                                    0 <= t < before.len() && #[trigger] before[t].0@ == q.0
                                        && before[t].1 == q.1;
                                assert(self.entries@[t].0@ == q.0 && self.entries@[t].1 == q.1);
                            } else {
                                assert(self.entries@[i as int].0@ == q.0
                                    && self.entries@[i as int].1 == q.1);
                            }
                        }
                        assert forall|q: (Seq<char>, Mode)| #[trigger] self@.contains_key(q) implies
                            self@[q] == old(self)@.insert((key@, mode), control)[q] by {
                            let t = choose|t: int|
                                0 <= t < self.entries@.len() && #[trigger] self.entries@[t].0@ == q.0
                                    && self.entries@[t].1 == q.1;
                            if q == (key@, mode) {
                                if t != i {
                                    assert(before[t].0@ == before[i as int].0@);
                                }
                            } else {
                                assert(t != i);
                                assert(before[t].0@ == q.0 && before[t].1 == q.1);
                                let u = choose|u: int|
                                    0 <= u < before.len() && #[trigger] before[u].0@ == q.0
                                        && before[u].1 == q.1;
                                if u != t {
                                    if u < t {
                                        assert(!(before[u].0@ == before[t].0@ && before[u].1 == before[t].1));
                                    } else {
                                        assert(!(before[t].0@ == before[u].0@ && before[t].1 == before[u].1));
                                    }
                                }
                            }
                        }
                    }
                }
                return;
            }
            i = i + 1;
        }
        let ghost before = self.entries@;
        self.entries.push((key, mode, control));
        proof {
            assert(self@ =~= old(self)@.insert((key@, mode), control)) by {
                assert forall|q: (Seq<char>, Mode)| #[trigger] self@.contains_key(q) implies
                    old(self)@.insert((key@, mode), control).contains_key(q) by {
                    let t = choose|t: int|
                        0 <= t < self.entries@.len() && #[trigger] self.entries@[t].0@ == q.0
                            && self.entries@[t].1 == q.1;
                    if t < before.len() {
                        assert(before[t].0@ == q.0 && before[t].1 == q.1);
                    }
                }
                assert forall|q: (Seq<char>, Mode)|
                    old(self)@.insert((key@, mode), control).contains_key(q) implies
                    #[trigger] self@.contains_key(q) by {
                    if q != (key@, mode) {
                        let t = choose|t: int|
                            0 <= t < before.len() && #[trigger] before[t].0@ == q.0 && before[t].1
                                == q.1;
                        assert(self.entries@[t].0@ == q.0 && self.entries@[t].1 == q.1);
                    } else {
                        assert(self.entries@[before.len() as int].0@ == q.0);
                    }
                }
                assert forall|q: (Seq<char>, Mode)| #[trigger] self@.contains_key(q) implies
                    self@[q] == old(self)@.insert((key@, mode), control)[q] by {
                    let t = choose|t: int|
                        0 <= t < self.entries@.len() && #[trigger] self.entries@[t].0@ == q.0
                            && self.entries@[t].1 == q.1;
                    if q == (key@, mode) {
                        assert(t == before.len());
                    } else {
                        assert(t < before.len());
                        assert(before[t].0@ == q.0 && before[t].1 == q.1);
                        let u = choose|u: int|
                            0 <= u < before.len() && #[trigger] before[u].0@ == q.0 && before[u].1
                                == q.1;
                        if u != t {
                            if u < t {
                                assert(!(before[u].0@ == before[t].0@ && before[u].1 == before[t].1));
                            } else {
                                assert(!(before[t].0@ == before[u].0@ && before[t].1 == before[u].1));
                            }
                        }
                    }
                }
            }
        }
    }

    /// The control bound to `key` in `mode`, if any.
    pub fn get(&self, key: &str, mode: Mode) -> (r: Option<Control>)
        requires
            self.wf(),
        ensures
            r == if self@.contains_key((key@, mode)) {
                Some(self@[(key@, mode)])
            } else {
                None
            },
    {
        let k = string_of(key);
        let mut i: usize = 0;
        while i < self.entries.len()
            invariant
                i <= self.entries.len(),
                k@ == key@,
                self.wf(),
                forall|j: int|
                    0 <= j < i ==> !(#[trigger] self.entries@[j].0@ == key@ && self.entries@[j].1
                        == mode),
            decreases self.entries.len() - i,
        {
            if string_eq(&self.entries[i].0, &k) && self.entries[i].1 == mode {
                proof {
                    assert(self@.contains_key((key@, mode)));
                    let t = choose|t: int|
                        0 <= t < self.entries@.len() && #[trigger] self.entries@[t].0@ == key@
                            && self.entries@[t].1 == mode;
                    if t != i {
                        if t < i {
                        } else {
                            assert(!(self.entries@[i as int].0@ == self.entries@[t].0@
                                && self.entries@[i as int].1 == self.entries@[t].1));
                        }
                    }
                }
                return Some(self.entries[i].2);
            }
            i = i + 1;
        }
        None
    }
}

/// A binding reads back: once `key` is bound in `mode` to `control`, looking the key up in
/// that mode gives `control`, and every other key and mode keeps the binding it had, or its
/// lack of one.
pub proof fn lemma_binding_reads_back(
    bindings: Map<(Seq<char>, Mode), Control>,
    key: Seq<char>,
    mode: Mode,
    control: Control,
    other: (Seq<char>, Mode),
)
    ensures
        bindings.insert((key, mode), control).contains_key((key, mode)),
        bindings.insert((key, mode), control)[(key, mode)] == control,
        other != (key, mode) ==> (bindings.insert((key, mode), control).contains_key(other)
            == bindings.contains_key(other)),
        other != (key, mode) && bindings.contains_key(other) ==> bindings.insert(
            (key, mode),
            control,
        )[other] == bindings[other],
{
}

/// The help text listing the keys of the view mode.
pub const HELP_TEXT: &'static str = "n: next page  p: prev. page \n\
        a: beginning z: end of page \n\
        A: first picture Z: last picture\n\
        return: set range start/end\n\
        space: toggle in/out of range \n\
        esc: cancel range  $: repeat range\n\
        !: whole range _: page range\n\
        F: find…  N: find next /: redo find\n\
        S: select…\n\
        J: jump to picture #…\n\
        k then a,b,c,d,e : set mark A/B/C/D/E\n\
        j then a,b,c,d,e : jump to mark A/B/C/D/E\n\
        c change…\n\
        0,1,2,3: set rank\n\
        o order by…\n\
        v view option…\n\
        C: view covers only\n\
        P: palette on/off\n\
        . or ^ : single view, e: expand, %: full size \n\
        R go to random picture  S: resume slide show\n\
        M: move selected pictures to target dir set by label\n\
        X: delete selected pictures\n\
        g: view this cover subgroup, or directory\n\
        q: back from subgroup or directory\n\
        q: quit  H:help";

/// The help on the controls, followed by a new line.
pub fn help_on_controls() -> (r: String)
    ensures
        r@ == HELP_TEXT@.push('\n'),
{
    let mut r = string_of(HELP_TEXT);
    push_char(&mut r, '\n');
    r
}

/// The fixed bindings of the default controls.
pub open spec fn fixed_controls() -> Map<(Seq<char>, Mode), Control> {
    Map::empty()
        .insert(("colon"@, Mode::View), Control::SelectCategory)
        .insert(("question"@, Mode::View), Control::CopyTemp)
        .insert(("Escape"@, Mode::Editing), Control::CancelEdition)
        .insert(("Return"@, Mode::Editing), Control::ConfirmEdition)
        .insert(("Escape"@, Mode::Categorizing), Control::CancelSelection)
        .insert(("Return"@, Mode::Categorizing), Control::ConfirmSelection)
        .insert(("Tab"@, Mode::Editing), Control::Complete)
        .insert(("Return"@, Mode::View), Control::SetSelectionRangeEnd)
        .insert(("ampersand"@, Mode::View), Control::Test)
        .insert(("exclam"@, Mode::View), Control::SetSelectionRangeAll)
        .insert(("underscore"@, Mode::View), Control::SetSelectionRangePage)
        .insert(("Escape"@, Mode::View), Control::CancelRange)
        .insert(("dollar"@, Mode::View), Control::RepeatRange)
        .insert(("space"@, Mode::View), Control::ToggleSelected)
        .insert(("BackSpace"@, Mode::Editing), Control::DeleteChar)
        .insert(("E"@, Mode::View), Control::ExtractFileNames)
        .insert(("J"@, Mode::View), Control::Jump)
        .insert(("k"@, Mode::View), Control::SetMark)
        .insert(("j"@, Mode::View), Control::GotoMark)
        .insert(("H"@, Mode::View), Control::Help)
        .insert(("slash"@, Mode::View), Control::RedoFind)
        .insert(("S"@, Mode::View), Control::EnterSelect)
        .insert(("F"@, Mode::View), Control::EnterFind)
        .insert(("N"@, Mode::View), Control::FindNext)
        .insert(("n"@, Mode::View), Control::MoveNext)
        .insert(("p"@, Mode::View), Control::MovePrev)
        .insert(("Z"@, Mode::View), Control::MoveLast)
        .insert(("A"@, Mode::View), Control::MoveFirst)
        .insert(("a"@, Mode::View), Control::MoveStartPage)
        .insert(("z"@, Mode::View), Control::MoveEndPage)
        .insert(("e"@, Mode::View), Control::ToggleExpand)
        .insert(("percent"@, Mode::View), Control::ToggleFullSize)
        .insert(("C"@, Mode::View), Control::ToggleCoverSelection)
        .insert(("P"@, Mode::View), Control::TogglePalette)
        .insert(("B"@, Mode::View), Control::ToggleBlinking)
        .insert(("R"@, Mode::View), Control::MoveRandom)
        .insert(("X"@, Mode::View), Control::DeletePicture)
        .insert(("asterisk"@, Mode::View), Control::ToggleSlideShow)
        .insert(("c"@, Mode::View), Control::PickChange)
        .insert(("Q"@, Mode::View), Control::Quit)
        .insert(("T"@, Mode::View), Control::ToggleThumbView)
        .insert(("W"@, Mode::View), Control::ToggleTwoByTwoView)
        .insert(("Left"@, Mode::View), Control::Left)
        .insert(("t"@, Mode::View), Control::Left)
        .insert(("Right"@, Mode::View), Control::Right)
        .insert(("r"@, Mode::View), Control::Right)
        .insert(("Up"@, Mode::View), Control::Up)
        .insert(("d"@, Mode::View), Control::Up)
        .insert(("Down"@, Mode::View), Control::Down)
        .insert(("s"@, Mode::View), Control::Down)
        .insert(("numbersign"@, Mode::View), Control::CancelSelection)
        .insert(("period"@, Mode::View), Control::ToggleSingleView)
        .insert(("h"@, Mode::View), Control::ToggleSingleView)
        .insert(("dead_circumflex"@, Mode::View), Control::ToggleSingleView)
        .insert(("M"@, Mode::View), Control::MovePicture)
        .insert(("m"@, Mode::View), Control::PickMark)
        .insert(("v"@, Mode::View), Control::SetView)
        .insert(("4"@, Mode::View), Control::EnterRank)
        .insert(("o"@, Mode::View), Control::SetOrder)
        .insert(("d"@, Mode::Setting(Control::SetDisplay)), Control::DisplayDate)
        .insert(("s"@, Mode::Setting(Control::SetDisplay)), Control::DisplaySize)
        .insert(("f"@, Mode::Setting(Control::SetOrder)), Control::DisplayFocus)
        .insert(("a"@, Mode::Setting(Control::SetOrder)), Control::OrderByCategory)
        .insert(("n"@, Mode::Setting(Control::SetOrder)), Control::OrderByName)
        .insert(("d"@, Mode::Setting(Control::SetOrder)), Control::OrderByDate)
        .insert(("s"@, Mode::Setting(Control::SetOrder)), Control::OrderBySize)
        .insert(("r"@, Mode::Setting(Control::SetOrder)), Control::Randomize)
        .insert(("m"@, Mode::Setting(Control::SetOrder)), Control::OrderByScore)
        .insert(("v"@, Mode::Setting(Control::SetOrder)), Control::OrderByValue)
        .insert(("l"@, Mode::Setting(Control::SetOrder)), Control::OrderByLabel)
        .insert(("c"@, Mode::Setting(Control::SetOrder)), Control::OrderByColorCount)
        .insert(("p"@, Mode::Setting(Control::SetOrder)), Control::OrderByPalette)
        .insert(("4"@, Mode::View), Control::EnterRank)
        .insert(("0"@, Mode::View), Control::RankNoStar)
        .insert(("1"@, Mode::View), Control::RankOneStar)
        .insert(("2"@, Mode::View), Control::RankTwoStars)
        .insert(("3"@, Mode::View), Control::RankThreeStars)
        .insert(("Tab"@, Mode::View), Control::RepeatLastAction)
        .insert(("g"@, Mode::View), Control::GotoDirectory)
        .insert(("G"@, Mode::View), Control::BackFromDirectory)
        .insert(("q"@, Mode::View), Control::BackFromDirectory)
}

/// The controls that leave what is under way.
pub open spec fn cancels(c: Control) -> bool {
    c == Control::CancelEdition || c == Control::CancelSelection || c == Control::CancelRange
}

/// The control that completes what the cancelling control `c` would leave.
pub open spec fn confirming_pair(c: Control) -> Control {
    if c == Control::CancelEdition {
        Control::ConfirmEdition
    } else if c == Control::CancelSelection {
        Control::ConfirmSelection
    } else {
        Control::SetSelectionRangeEnd
    }
}

/// In every mode, Escape and Return are bound together or not at all; where they are,
/// Escape leaves what is under way and Return completes that same thing: an edition, a
/// selection or a range.
pub proof fn lemma_escape_cancels_and_return_confirms(mode: Mode)
    ensures
        default_controls_map().contains_key(("Escape"@, mode)) == default_controls_map().contains_key(
            ("Return"@, mode),
        ),
        default_controls_map().contains_key(("Escape"@, mode)) ==> {
            let escape = default_controls_map()[("Escape"@, mode)];
            &&& cancels(escape)
            &&& default_controls_map()[("Return"@, mode)] == confirming_pair(escape)
        },
        default_controls_map().contains_key(("Escape"@, Mode::Editing)),
        default_controls_map().contains_key(("Escape"@, Mode::Categorizing)),
        default_controls_map().contains_key(("Escape"@, Mode::View)),
{
    reveal_strlit("0");
    reveal_strlit("1");
    reveal_strlit("2");
    reveal_strlit("3");
    reveal_strlit("4");
    reveal_strlit("A");
    reveal_strlit("B");
    reveal_strlit("BackSpace");
    reveal_strlit("C");
    reveal_strlit("Down");
    reveal_strlit("E");
    reveal_strlit("Escape");
    reveal_strlit("F");
    reveal_strlit("G");
    reveal_strlit("H");
    reveal_strlit("J");
    reveal_strlit("Left");
    reveal_strlit("M");
    reveal_strlit("N");
    reveal_strlit("P");
    reveal_strlit("Q");
    reveal_strlit("R");
    reveal_strlit("Return");
    reveal_strlit("Right");
    reveal_strlit("S");
    reveal_strlit("T");
    reveal_strlit("Tab");
    reveal_strlit("Up");
    reveal_strlit("W");
    reveal_strlit("X");
    reveal_strlit("Z");
    reveal_strlit("a");
    reveal_strlit("ampersand");
    reveal_strlit("asterisk");
    reveal_strlit("c");
    reveal_strlit("colon");
    reveal_strlit("d");
    reveal_strlit("dead_circumflex");
    reveal_strlit("dollar");
    reveal_strlit("e");
    reveal_strlit("exclam");
    reveal_strlit("f");
    reveal_strlit("g");
    reveal_strlit("h");
    reveal_strlit("j");
    reveal_strlit("k");
    reveal_strlit("l");
    reveal_strlit("m");
    reveal_strlit("n");
    reveal_strlit("numbersign");
    reveal_strlit("o");
    reveal_strlit("p");
    reveal_strlit("percent");
    reveal_strlit("period");
    reveal_strlit("q");
    reveal_strlit("question");
    reveal_strlit("r");
    reveal_strlit("s");
    reveal_strlit("slash");
    reveal_strlit("space");
    reveal_strlit("t");
    reveal_strlit("underscore");
    reveal_strlit("v");
    reveal_strlit("z");
    assert("0"@.len() == 1);
    assert("1"@.len() == 1);
    assert("2"@.len() == 1);
    assert("3"@.len() == 1);
    assert("4"@.len() == 1);
    assert("A"@.len() == 1);
    assert("B"@.len() == 1);
    assert("BackSpace"@.len() == 9);
    assert("C"@.len() == 1);
    assert("Down"@.len() == 4);
    assert("E"@.len() == 1);
    assert("Escape"@.len() == 6);
    assert("F"@.len() == 1);
    assert("G"@.len() == 1);
    assert("H"@.len() == 1);
    assert("J"@.len() == 1);
    assert("Left"@.len() == 4);
    assert("M"@.len() == 1);
    assert("N"@.len() == 1);
    assert("P"@.len() == 1);
    assert("Q"@.len() == 1);
    assert("R"@.len() == 1);
    assert("Return"@.len() == 6);
    assert("Right"@.len() == 5);
    assert("S"@.len() == 1);
    assert("T"@.len() == 1);
    assert("Tab"@.len() == 3);
    assert("Up"@.len() == 2);
    assert("W"@.len() == 1);
    assert("X"@.len() == 1);
    assert("Z"@.len() == 1);
    assert("a"@.len() == 1);
    assert("ampersand"@.len() == 9);
    assert("asterisk"@.len() == 8);
    assert("c"@.len() == 1);
    assert("colon"@.len() == 5);
    assert("d"@.len() == 1);
    assert("dead_circumflex"@.len() == 15);
    assert("dollar"@.len() == 6);
    assert("e"@.len() == 1);
    assert("exclam"@.len() == 6);
    assert("f"@.len() == 1);
    assert("g"@.len() == 1);
    assert("h"@.len() == 1);
    assert("j"@.len() == 1);
    assert("k"@.len() == 1);
    assert("l"@.len() == 1);
    assert("m"@.len() == 1);
    assert("n"@.len() == 1);
    assert("numbersign"@.len() == 10);
    assert("o"@.len() == 1);
    assert("p"@.len() == 1);
    assert("percent"@.len() == 7);
    assert("period"@.len() == 6);
    assert("q"@.len() == 1);
    assert("question"@.len() == 8);
    assert("r"@.len() == 1);
    assert("s"@.len() == 1);
    assert("slash"@.len() == 5);
    assert("space"@.len() == 5);
    assert("t"@.len() == 1);
    assert("underscore"@.len() == 10);
    assert("v"@.len() == 1);
    assert("z"@.len() == 1);
    assert("Escape"@[0] == 'E');
    assert("Return"@[0] == 'R');
    assert("dollar"@[0] == 'd');
    assert("exclam"@[0] == 'e');
    assert("period"@[0] == 'p');
    assert(!is_mark_key(MARK_LETTERS@, ("Escape"@, mode)));
    assert(!is_mark_key(MARK_LETTERS@, ("Return"@, mode)));
}

/// In the view, each digit key from 0 to 3 ranks the selected pictures with as many stars
/// as the digit says.
pub proof fn lemma_digit_keys_rank_by_their_digit(d: int)
    requires
        0 <= d <= 3,
    ensures
        default_controls_map().contains_key((seq![digit_char(d)], Mode::View)),
        action_of_control(default_controls_map()[(seq![digit_char(d)], Mode::View)]) matches ActionView::Rank(
            r,
        ) && rank_code(r) == d && rank_text(r).len() == d,
{
    reveal_strlit("0");
    reveal_strlit("1");
    reveal_strlit("2");
    reveal_strlit("3");
    reveal_strlit("4");
    reveal_strlit("A");
    reveal_strlit("B");
    reveal_strlit("BackSpace");
    reveal_strlit("C");
    reveal_strlit("Down");
    reveal_strlit("E");
    reveal_strlit("Escape");
    reveal_strlit("F");
    reveal_strlit("G");
    reveal_strlit("H");
    reveal_strlit("J");
    reveal_strlit("Left");
    reveal_strlit("M");
    reveal_strlit("N");
    reveal_strlit("P");
    reveal_strlit("Q");
    reveal_strlit("R");
    reveal_strlit("Return");
    reveal_strlit("Right");
    reveal_strlit("S");
    reveal_strlit("T");
    reveal_strlit("Tab");
    reveal_strlit("Up");
    reveal_strlit("W");
    reveal_strlit("X");
    reveal_strlit("Z");
    reveal_strlit("a");
    reveal_strlit("ampersand");
    reveal_strlit("asterisk");
    reveal_strlit("c");
    reveal_strlit("colon");
    reveal_strlit("d");
    reveal_strlit("dead_circumflex");
    reveal_strlit("dollar");
    reveal_strlit("e");
    reveal_strlit("exclam");
    reveal_strlit("f");
    reveal_strlit("g");
    reveal_strlit("h");
    reveal_strlit("j");
    reveal_strlit("k");
    reveal_strlit("l");
    reveal_strlit("m");
    reveal_strlit("n");
    reveal_strlit("numbersign");
    reveal_strlit("o");
    reveal_strlit("p");
    reveal_strlit("percent");
    reveal_strlit("period");
    reveal_strlit("q");
    reveal_strlit("question");
    reveal_strlit("r");
    reveal_strlit("s");
    reveal_strlit("slash");
    reveal_strlit("space");
    reveal_strlit("t");
    reveal_strlit("underscore");
    reveal_strlit("v");
    reveal_strlit("z");
    assert("0"@.len() == 1);
    assert("1"@.len() == 1);
    assert("2"@.len() == 1);
    assert("3"@.len() == 1);
    assert("4"@.len() == 1);
    assert("A"@.len() == 1);
    assert("B"@.len() == 1);
    assert("BackSpace"@.len() == 9);
    assert("C"@.len() == 1);
    assert("Down"@.len() == 4);
    assert("E"@.len() == 1);
    assert("Escape"@.len() == 6);
    assert("F"@.len() == 1);
    assert("G"@.len() == 1);
    assert("H"@.len() == 1);
    assert("J"@.len() == 1);
    assert("Left"@.len() == 4);
    assert("M"@.len() == 1);
    assert("N"@.len() == 1);
    assert("P"@.len() == 1);
    assert("Q"@.len() == 1);
    assert("R"@.len() == 1);
    assert("Return"@.len() == 6);
    assert("Right"@.len() == 5);
    assert("S"@.len() == 1);
    assert("T"@.len() == 1);
    assert("Tab"@.len() == 3);
    assert("Up"@.len() == 2);
    assert("W"@.len() == 1);
    assert("X"@.len() == 1);
    assert("Z"@.len() == 1);
    assert("a"@.len() == 1);
    assert("ampersand"@.len() == 9);
    assert("asterisk"@.len() == 8);
    assert("c"@.len() == 1);
    assert("colon"@.len() == 5);
    assert("d"@.len() == 1);
    assert("dead_circumflex"@.len() == 15);
    assert("dollar"@.len() == 6);
    assert("e"@.len() == 1);
    assert("exclam"@.len() == 6);
    assert("f"@.len() == 1);
    assert("g"@.len() == 1);
    assert("h"@.len() == 1);
    assert("j"@.len() == 1);
    assert("k"@.len() == 1);
    assert("l"@.len() == 1);
    assert("m"@.len() == 1);
    assert("n"@.len() == 1);
    assert("numbersign"@.len() == 10);
    assert("o"@.len() == 1);
    assert("p"@.len() == 1);
    assert("percent"@.len() == 7);
    assert("period"@.len() == 6);
    assert("q"@.len() == 1);
    assert("question"@.len() == 8);
    assert("r"@.len() == 1);
    assert("s"@.len() == 1);
    assert("slash"@.len() == 5);
    assert("space"@.len() == 5);
    assert("t"@.len() == 1);
    assert("underscore"@.len() == 10);
    assert("v"@.len() == 1);
    assert("z"@.len() == 1);
    assert("0"@[0] == '0');
    assert("1"@[0] == '1');
    assert("2"@[0] == '2');
    assert("3"@[0] == '3');
    assert("4"@[0] == '4');
    assert("A"@[0] == 'A');
    assert("B"@[0] == 'B');
    assert("C"@[0] == 'C');
    assert("E"@[0] == 'E');
    assert("F"@[0] == 'F');
    assert("G"@[0] == 'G');
    assert("H"@[0] == 'H');
    assert("J"@[0] == 'J');
    assert("M"@[0] == 'M');
    assert("N"@[0] == 'N');
    assert("P"@[0] == 'P');
    assert("Q"@[0] == 'Q');
    assert("R"@[0] == 'R');
    assert("S"@[0] == 'S');
    assert("T"@[0] == 'T');
    assert("W"@[0] == 'W');
    assert("X"@[0] == 'X');
    assert("Z"@[0] == 'Z');
    assert("a"@[0] == 'a');
    assert("c"@[0] == 'c');
    assert("d"@[0] == 'd');
    assert("e"@[0] == 'e');
    assert("f"@[0] == 'f');
    assert("g"@[0] == 'g');
    assert("h"@[0] == 'h');
    assert("j"@[0] == 'j');
    assert("k"@[0] == 'k');
    assert("l"@[0] == 'l');
    assert("m"@[0] == 'm');
    assert("n"@[0] == 'n');
    assert("o"@[0] == 'o');
    assert("p"@[0] == 'p');
    assert("q"@[0] == 'q');
    assert("r"@[0] == 'r');
    assert("s"@[0] == 's');
    assert("t"@[0] == 't');
    assert("v"@[0] == 'v');
    assert("z"@[0] == 'z');
    assert(seq![digit_char(d)] == if d == 0 {
        "0"@
    } else if d == 1 {
        "1"@
    } else if d == 2 {
        "2"@
    } else {
        "3"@
    });
    assert(!is_mark_key(MARK_LETTERS@, (seq![digit_char(d)], Mode::View)));
}

/// In the view, each arrow key launches a move towards the direction of its own name.
pub proof fn lemma_arrow_keys_move_their_way(key: Seq<char>)
    requires
        key == "Left"@ || key == "Right"@ || key == "Up"@ || key == "Down"@,
    ensures
        default_controls_map().contains_key((key, Mode::View)),
        direction_from_name(key) is Some,
        action_of_control(default_controls_map()[(key, Mode::View)]) == ActionView::MoveTowards(
            direction_from_name(key)->0,
        ),
{
    reveal_strlit("0");
    reveal_strlit("1");
    reveal_strlit("2");
    reveal_strlit("3");
    reveal_strlit("4");
    reveal_strlit("A");
    reveal_strlit("B");
    reveal_strlit("BackSpace");
    reveal_strlit("C");
    reveal_strlit("Down");
    reveal_strlit("E");
    reveal_strlit("Escape");
    reveal_strlit("F");
    reveal_strlit("First");
    reveal_strlit("G");
    reveal_strlit("H");
    reveal_strlit("J");
    reveal_strlit("Last");
    reveal_strlit("Left");
    reveal_strlit("M");
    reveal_strlit("N");
    reveal_strlit("NextPage");
    reveal_strlit("P");
    reveal_strlit("PageEnd");
    reveal_strlit("PageStart");
    reveal_strlit("PrevPage");
    reveal_strlit("Q");
    reveal_strlit("R");
    reveal_strlit("Return");
    reveal_strlit("Right");
    reveal_strlit("S");
    reveal_strlit("T");
    reveal_strlit("Tab");
    reveal_strlit("Up");
    reveal_strlit("W");
    reveal_strlit("X");
    reveal_strlit("Z");
    reveal_strlit("a");
    reveal_strlit("ampersand");
    reveal_strlit("asterisk");
    reveal_strlit("c");
    reveal_strlit("colon");
    reveal_strlit("d");
    reveal_strlit("dead_circumflex");
    reveal_strlit("dollar");
    reveal_strlit("e");
    reveal_strlit("exclam");
    reveal_strlit("f");
    reveal_strlit("g");
    reveal_strlit("h");
    reveal_strlit("j");
    reveal_strlit("k");
    reveal_strlit("l");
    reveal_strlit("m");
    reveal_strlit("n");
    reveal_strlit("numbersign");
    reveal_strlit("o");
    reveal_strlit("p");
    reveal_strlit("percent");
    reveal_strlit("period");
    reveal_strlit("q");
    reveal_strlit("question");
    reveal_strlit("r");
    reveal_strlit("s");
    reveal_strlit("slash");
    reveal_strlit("space");
    reveal_strlit("t");
    reveal_strlit("underscore");
    reveal_strlit("v");
    reveal_strlit("z");
    assert("0"@.len() == 1);
    assert("1"@.len() == 1);
    assert("2"@.len() == 1);
    assert("3"@.len() == 1);
    assert("4"@.len() == 1);
    assert("A"@.len() == 1);
    assert("B"@.len() == 1);
    assert("BackSpace"@.len() == 9);
    assert("C"@.len() == 1);
    assert("Down"@.len() == 4);
    assert("E"@.len() == 1);
    assert("Escape"@.len() == 6);
    assert("F"@.len() == 1);
    assert("First"@.len() == 5);
    assert("G"@.len() == 1);
    assert("H"@.len() == 1);
    assert("J"@.len() == 1);
    assert("Last"@.len() == 4);
    assert("Left"@.len() == 4);
    assert("M"@.len() == 1);
    assert("N"@.len() == 1);
    assert("NextPage"@.len() == 8);
    assert("P"@.len() == 1);
    assert("PageEnd"@.len() == 7);
    assert("PageStart"@.len() == 9);
    assert("PrevPage"@.len() == 8);
    assert("Q"@.len() == 1);
    assert("R"@.len() == 1);
    assert("Return"@.len() == 6);
    assert("Right"@.len() == 5);
    assert("S"@.len() == 1);
    assert("T"@.len() == 1);
    assert("Tab"@.len() == 3);
    assert("Up"@.len() == 2);
    assert("W"@.len() == 1);
    assert("X"@.len() == 1);
    assert("Z"@.len() == 1);
    assert("a"@.len() == 1);
    assert("ampersand"@.len() == 9);
    assert("asterisk"@.len() == 8);
    assert("c"@.len() == 1);
    assert("colon"@.len() == 5);
    assert("d"@.len() == 1);
    assert("dead_circumflex"@.len() == 15);
    assert("dollar"@.len() == 6);
    assert("e"@.len() == 1);
    assert("exclam"@.len() == 6);
    assert("f"@.len() == 1);
    assert("g"@.len() == 1);
    assert("h"@.len() == 1);
    assert("j"@.len() == 1);
    assert("k"@.len() == 1);
    assert("l"@.len() == 1);
    assert("m"@.len() == 1);
    assert("n"@.len() == 1);
    assert("numbersign"@.len() == 10);
    assert("o"@.len() == 1);
    assert("p"@.len() == 1);
    assert("percent"@.len() == 7);
    assert("period"@.len() == 6);
    assert("q"@.len() == 1);
    assert("question"@.len() == 8);
    assert("r"@.len() == 1);
    assert("s"@.len() == 1);
    assert("slash"@.len() == 5);
    assert("space"@.len() == 5);
    assert("t"@.len() == 1);
    assert("underscore"@.len() == 10);
    assert("v"@.len() == 1);
    assert("z"@.len() == 1);
    assert("BackSpace"@[0] == 'B');
    assert("Down"@[0] == 'D');
    assert("First"@[0] == 'F');
    assert("Last"@[0] == 'L');
    assert("Last"@[1] == 'a');
    assert("Left"@[0] == 'L');
    assert("Left"@[1] == 'e');
    assert("NextPage"@[0] == 'N');
    assert("PageEnd"@[0] == 'P');
    assert("PageStart"@[0] == 'P');
    assert("PrevPage"@[0] == 'P');
    assert("Right"@[0] == 'R');
    assert("ampersand"@[0] == 'a');
    assert("asterisk"@[0] == 'a');
    assert("colon"@[0] == 'c');
    assert("percent"@[0] == 'p');
    assert("question"@[0] == 'q');
    assert("slash"@[0] == 's');
    assert("space"@[0] == 's');
    assert(!is_mark_key(MARK_LETTERS@, (key, Mode::View)));
}

/// The letters that name marks.
pub const MARK_LETTERS: &'static str = "abcdefghijklmnopqrstuvwxyz";

/// A key of a mark setting: one of `letters`, in the mode that sets or jumps to a mark.
pub open spec fn is_mark_key(letters: Seq<char>, k: (Seq<char>, Mode)) -> bool {
    &&& k.0.len() == 1
    &&& letters.contains(k.0[0])
    &&& (k.1 == Mode::Setting(Control::SetMark) || k.1 == Mode::Setting(Control::GotoMark))
}

/// In the setting modes for marks, each of `letters` sets or jumps to its mark.
pub open spec fn mark_controls(letters: Seq<char>) -> Map<(Seq<char>, Mode), Control> {
    Map::new(
        |k: (Seq<char>, Mode)| is_mark_key(letters, k),
        |k: (Seq<char>, Mode)| mark_control(k),
    )
}

/// The control of a mark key: set the mark of its letter, or jump to it.
pub open spec fn mark_control(k: (Seq<char>, Mode)) -> Control {
    if k.1 == Mode::Setting(Control::SetMark) {
        Control::SetMarkChar(k.0[0])
    } else {
        Control::JumpMarkChar(k.0[0])
    }
}

/// Whether `k` is bound in `base` or as a mark of one of `letters`.
pub open spec fn bound_with_marks(
    base: Map<(Seq<char>, Mode), Control>,
    letters: Seq<char>,
    k: (Seq<char>, Mode),
) -> bool {
    base.contains_key(k) || is_mark_key(letters, k)
}

/// The control of `k`: that of a mark of one of `letters`, else the one in `base`.
pub open spec fn control_with_marks(
    base: Map<(Seq<char>, Mode), Control>,
    letters: Seq<char>,
    k: (Seq<char>, Mode),
) -> Control {
    if is_mark_key(letters, k) {
        mark_control(k)
    } else {
        base[k]
    }
}

/// The bindings of `base`, then the marks of `letters`, which prevail.
pub open spec fn with_marks(base: Map<(Seq<char>, Mode), Control>, letters: Seq<char>) -> Map<
    (Seq<char>, Mode),
    Control,
> {
    Map::new(
        |k: (Seq<char>, Mode)| bound_with_marks(base, letters, k),
        |k: (Seq<char>, Mode)| control_with_marks(base, letters, k),
    )
}

/// The default controls: the fixed bindings, then the marks of the letters `a` to `z`.
pub open spec fn default_controls_map() -> Map<(Seq<char>, Mode), Control> {
    with_marks(fixed_controls(), MARK_LETTERS@)
}

/// Binding the two mark keys of `ch` adds `ch` to the letters with marks.
proof fn lemma_mark_step(
    base: Map<(Seq<char>, Mode), Control>,
    prevl: Seq<char>,
    ch: char,
    key: Seq<char>,
)
    requires
        key == seq![ch],
    ensures
        with_marks(base, prevl).insert((key, Mode::Setting(Control::SetMark)), Control::SetMarkChar(ch)).insert(
            (key, Mode::Setting(Control::GotoMark)),
            Control::JumpMarkChar(ch),
        ) == with_marks(base, prevl.push(ch)),
{
    let next = prevl.push(ch);
    let prev = with_marks(base, prevl);
    let ka = (key, Mode::Setting(Control::SetMark));
    let kb = (key, Mode::Setting(Control::GotoMark));
    let m = prev.insert(ka, Control::SetMarkChar(ch)).insert(kb, Control::JumpMarkChar(ch));
    let target = with_marks(base, next);
    assert(next.contains(ch)) by {
        assert(next[prevl.len() as int] == ch);
    }
    assert(is_mark_key(next, ka) && is_mark_key(next, kb));
    assert forall|k: (Seq<char>, Mode)| #[trigger] target.contains_key(k) implies m.contains_key(k)
        && m[k] == target[k] by {
        if k == ka || k == kb {
        } else if is_mark_key(next, k) {
            if k.0[0] == ch {
                assert(k.0 =~= key);
            } else {
                let j = choose|j: int| 0 <= j < next.len() && next[j] == k.0[0];
                assert(prevl[j] == k.0[0]);
                assert(is_mark_key(prevl, k));
            }
        } else {
            if is_mark_key(prevl, k) {
                let j = choose|j: int| 0 <= j < prevl.len() && prevl[j] == k.0[0];
                assert(next[j] == k.0[0]);
            }
        }
    }
    assert forall|k: (Seq<char>, Mode)| #[trigger] m.contains_key(k) implies target.contains_key(k) by {
        if k == ka || k == kb {
        } else if is_mark_key(prevl, k) {
            let j = choose|j: int| 0 <= j < prevl.len() && prevl[j] == k.0[0];
            assert(next[j] == k.0[0]);
        }
    }
    assert(m =~= target);
}

/// Adds to `controls` the marks of the letters `a` to `z`.
fn add_mark_controls(controls: &mut Controls)
    requires
        old(controls).wf(),
    ensures
        final(controls).wf(),
        final(controls)@ == with_marks(old(controls)@, MARK_LETTERS@),
{
    let ghost base = controls@;
    let letters = crate::text::chars_of(MARK_LETTERS);
    let mut i: usize = 0;
    proof {
        assert(letters@.take(0) =~= Seq::<char>::empty());
        assert(base =~= with_marks(base, letters@.take(0)));
        assert(base =~= with_marks(base, letters@.take(0)));
    }
    while i < letters.len()
        invariant
            i <= letters.len(),
            letters@ == MARK_LETTERS@,
            controls.wf(),
            controls@ == with_marks(base, letters@.take(i as int)),
        decreases letters.len() - i,
    {
        let ch: char = letters[i];
        let mut key = String::new();
        push_char(&mut key, ch);
        let key2 = key.clone();
        proof {
            assert(key@ =~= seq![ch]);
        }
        controls.insert(key, Mode::Setting(Control::SetMark), Control::SetMarkChar(ch));
        controls.insert(key2, Mode::Setting(Control::GotoMark), Control::JumpMarkChar(ch));
        proof {
            let next = letters@.take(i + 1);
            let prevl = letters@.take(i as int);
            assert(next =~= prevl.push(ch));
            lemma_mark_step(base, prevl, ch, key2@);
        }
        i = i + 1;
    }
    proof {
        assert(letters@.take(letters.len() as int) =~= letters@);
    }
}

/// The default key bindings.
pub fn default_controls() -> (r: Controls)
    ensures
        r.wf(),
        r@ == default_controls_map(),
{
    let mut controls = Controls::new();
    controls.insert(string_of("colon"), Mode::View, Control::SelectCategory);
    controls.insert(string_of("question"), Mode::View, Control::CopyTemp);
    controls.insert(string_of("Escape"), Mode::Editing, Control::CancelEdition);
    controls.insert(string_of("Return"), Mode::Editing, Control::ConfirmEdition);
    controls.insert(string_of("Escape"), Mode::Categorizing, Control::CancelSelection);
    controls.insert(string_of("Return"), Mode::Categorizing, Control::ConfirmSelection);
    controls.insert(string_of("Tab"), Mode::Editing, Control::Complete);
    controls.insert(string_of("Return"), Mode::View, Control::SetSelectionRangeEnd);
    controls.insert(string_of("ampersand"), Mode::View, Control::Test);
    controls.insert(string_of("exclam"), Mode::View, Control::SetSelectionRangeAll);
    controls.insert(string_of("underscore"), Mode::View, Control::SetSelectionRangePage);
    controls.insert(string_of("Escape"), Mode::View, Control::CancelRange);
    controls.insert(string_of("dollar"), Mode::View, Control::RepeatRange);
    controls.insert(string_of("space"), Mode::View, Control::ToggleSelected);
    controls.insert(string_of("BackSpace"), Mode::Editing, Control::DeleteChar);
    controls.insert(string_of("E"), Mode::View, Control::ExtractFileNames);
    controls.insert(string_of("J"), Mode::View, Control::Jump);
    controls.insert(string_of("k"), Mode::View, Control::SetMark);
    controls.insert(string_of("j"), Mode::View, Control::GotoMark);
    controls.insert(string_of("H"), Mode::View, Control::Help);
    controls.insert(string_of("slash"), Mode::View, Control::RedoFind);
    controls.insert(string_of("S"), Mode::View, Control::EnterSelect);
    controls.insert(string_of("F"), Mode::View, Control::EnterFind);
    controls.insert(string_of("N"), Mode::View, Control::FindNext);
    controls.insert(string_of("n"), Mode::View, Control::MoveNext);
    controls.insert(string_of("p"), Mode::View, Control::MovePrev);
    controls.insert(string_of("Z"), Mode::View, Control::MoveLast);
    controls.insert(string_of("A"), Mode::View, Control::MoveFirst);
    controls.insert(string_of("a"), Mode::View, Control::MoveStartPage);
    controls.insert(string_of("z"), Mode::View, Control::MoveEndPage);
    controls.insert(string_of("e"), Mode::View, Control::ToggleExpand);
    controls.insert(string_of("percent"), Mode::View, Control::ToggleFullSize);
    controls.insert(string_of("C"), Mode::View, Control::ToggleCoverSelection);
    controls.insert(string_of("P"), Mode::View, Control::TogglePalette);
    controls.insert(string_of("B"), Mode::View, Control::ToggleBlinking);
    controls.insert(string_of("R"), Mode::View, Control::MoveRandom);
    controls.insert(string_of("X"), Mode::View, Control::DeletePicture);
    controls.insert(string_of("asterisk"), Mode::View, Control::ToggleSlideShow);
    controls.insert(string_of("c"), Mode::View, Control::PickChange);
    controls.insert(string_of("Q"), Mode::View, Control::Quit);
    controls.insert(string_of("T"), Mode::View, Control::ToggleThumbView);
    controls.insert(string_of("W"), Mode::View, Control::ToggleTwoByTwoView);
    controls.insert(string_of("Left"), Mode::View, Control::Left);
    controls.insert(string_of("t"), Mode::View, Control::Left);
    controls.insert(string_of("Right"), Mode::View, Control::Right);
    controls.insert(string_of("r"), Mode::View, Control::Right);
    controls.insert(string_of("Up"), Mode::View, Control::Up);
    controls.insert(string_of("d"), Mode::View, Control::Up);
    controls.insert(string_of("Down"), Mode::View, Control::Down);
    controls.insert(string_of("s"), Mode::View, Control::Down);
    controls.insert(string_of("numbersign"), Mode::View, Control::CancelSelection);
    controls.insert(string_of("period"), Mode::View, Control::ToggleSingleView);
    controls.insert(string_of("h"), Mode::View, Control::ToggleSingleView);
    controls.insert(string_of("dead_circumflex"), Mode::View, Control::ToggleSingleView);
    controls.insert(string_of("M"), Mode::View, Control::MovePicture);
    controls.insert(string_of("m"), Mode::View, Control::PickMark);
    controls.insert(string_of("v"), Mode::View, Control::SetView);
    controls.insert(string_of("4"), Mode::View, Control::EnterRank);
    controls.insert(string_of("o"), Mode::View, Control::SetOrder);
    controls.insert(string_of("d"), Mode::Setting(Control::SetDisplay), Control::DisplayDate);
    controls.insert(string_of("s"), Mode::Setting(Control::SetDisplay), Control::DisplaySize);
    controls.insert(string_of("f"), Mode::Setting(Control::SetOrder), Control::DisplayFocus);
    controls.insert(string_of("a"), Mode::Setting(Control::SetOrder), Control::OrderByCategory);
    controls.insert(string_of("n"), Mode::Setting(Control::SetOrder), Control::OrderByName);
    controls.insert(string_of("d"), Mode::Setting(Control::SetOrder), Control::OrderByDate);
    controls.insert(string_of("s"), Mode::Setting(Control::SetOrder), Control::OrderBySize);
    controls.insert(string_of("r"), Mode::Setting(Control::SetOrder), Control::Randomize);
    controls.insert(string_of("m"), Mode::Setting(Control::SetOrder), Control::OrderByScore);
    controls.insert(string_of("v"), Mode::Setting(Control::SetOrder), Control::OrderByValue);
    controls.insert(string_of("l"), Mode::Setting(Control::SetOrder), Control::OrderByLabel);
    controls.insert(string_of("c"), Mode::Setting(Control::SetOrder), Control::OrderByColorCount);
    controls.insert(string_of("p"), Mode::Setting(Control::SetOrder), Control::OrderByPalette);
    controls.insert(string_of("4"), Mode::View, Control::EnterRank);
    controls.insert(string_of("0"), Mode::View, Control::RankNoStar);
    controls.insert(string_of("1"), Mode::View, Control::RankOneStar);
    controls.insert(string_of("2"), Mode::View, Control::RankTwoStars);
    controls.insert(string_of("3"), Mode::View, Control::RankThreeStars);
    controls.insert(string_of("Tab"), Mode::View, Control::RepeatLastAction);
    controls.insert(string_of("g"), Mode::View, Control::GotoDirectory);
    controls.insert(string_of("G"), Mode::View, Control::BackFromDirectory);
    controls.insert(string_of("q"), Mode::View, Control::BackFromDirectory);
    assert(controls@ == fixed_controls());
    add_mark_controls(&mut controls);
    controls
}

} // verus!
