use vstd::prelude::*;
use crate::text::str_eq;

verus! {

/// A move of the focus inside the gallery.
#[derive(PartialEq, Eq, Clone, Copy, Debug, Structural)]
pub enum Direction {
    Down,
    First,
    Index { value: usize },
    Last,
    Left,
    NextPage,
    PageEnd,
    PageStart,
    PrevPage,
    Right,
    Up,
}

/// The integer that encodes a direction: an index stands for itself (truncated to 32 bits),
/// the other directions are small negative codes.
pub open spec fn direction_code(direction: Direction) -> i32 {
    match direction {
        Direction::Down => -1i32,
        Direction::First => -2i32,
        Direction::Index { value } => value as i32,
        Direction::Last => -3i32,
        Direction::Left => -4i32,
        Direction::NextPage => -5i32,
        Direction::PageEnd => -6i32,
        Direction::PageStart => -7i32,
        Direction::PrevPage => -8i32,
        Direction::Right => -9i32,
        Direction::Up => -10i32,
    }
}

/// The direction that a code stands for; codes below `-10` stand for none.
pub open spec fn direction_from_code(n: i32) -> Direction
    recommends
        n >= -10,
{
    if n >= 0 {
        Direction::Index { value: n as usize }
    } else if n == -1 {
        Direction::Down
    } else if n == -2 {
        Direction::First
    } else if n == -3 {
        Direction::Last
    } else if n == -4 {
        Direction::Left
    } else if n == -5 {
        Direction::NextPage
    } else if n == -6 {
        Direction::PageEnd
    } else if n == -7 {
        Direction::PageStart
    } else if n == -8 {
        Direction::PrevPage
    } else if n == -9 {
        Direction::Right
    } else {
        Direction::Up
    }
}

/// The names by which a direction without an index is written.
pub open spec fn direction_from_name(s: Seq<char>) -> Option<Direction> {
    if s == "Down"@ {
        Some(Direction::Down)
    } else if s == "First"@ {
        Some(Direction::First)
    } else if s == "Last"@ {
        Some(Direction::Last)
    } else if s == "Left"@ {
        Some(Direction::Left)
    } else if s == "NextPage"@ {
        Some(Direction::NextPage)
    } else if s == "PageEnd"@ {
        Some(Direction::PageEnd)
    } else if s == "PageStart"@ {
        Some(Direction::PageStart)
    } else if s == "PrevPage"@ {
        Some(Direction::PrevPage)
    } else if s == "Right"@ {
        Some(Direction::Right)
    } else if s == "Up"@ {
        Some(Direction::Up)
    } else {
        None
    }
}

impl Direction {
    /// The code of this direction, see `direction_code`.
    pub fn to_code(&self) -> (n: i32)
        ensures
            n == direction_code(*self),
    {
        match self {
            Direction::Down => -1,
            Direction::First => -2,
            Direction::Index { value } => {
                let v: usize = *value;
                #[verifier::truncate]
                (v as i32)
            },
            Direction::Last => -3,
            Direction::Left => -4,
            Direction::NextPage => -5,
            Direction::PageEnd => -6,
            Direction::PageStart => -7,
            Direction::PrevPage => -8,
            Direction::Right => -9,
            Direction::Up => -10,
        }
    }

    /// The direction that a code stands for. Codes below `-10` stand for no direction.
    pub fn from_code(n: i32) -> (d: Direction)
        requires
            n >= -10,
        ensures
            d == direction_from_code(n),
    {
        if n >= 0 {
            Direction::Index { value: n as usize }
        } else if n == -1 {
            Direction::Down
        } else if n == -2 {
            Direction::First
        } else if n == -3 {
            Direction::Last
        } else if n == -4 {
            Direction::Left
        } else if n == -5 {
            Direction::NextPage
        } else if n == -6 {
            Direction::PageEnd
        } else if n == -7 {
            Direction::PageStart
        } else if n == -8 {
            Direction::PrevPage
        } else if n == -9 {
            Direction::Right
        } else {
            Direction::Up
        }
    }

    /// The direction written by its name, such as `"PageEnd"`.
    pub fn from_name(s: &str) -> (d: Direction)
        requires
            direction_from_name(s@) is Some,
        ensures
            Some(d) == direction_from_name(s@),
    {
        if str_eq(s, "Down") {
            Direction::Down
        } else if str_eq(s, "First") {
            Direction::First
        } else if str_eq(s, "Last") {
            Direction::Last
        } else if str_eq(s, "Left") {
            Direction::Left
        } else if str_eq(s, "NextPage") {
            Direction::NextPage
        } else if str_eq(s, "PageEnd") {
            Direction::PageEnd
        } else if str_eq(s, "PageStart") {
            Direction::PageStart
        } else if str_eq(s, "PrevPage") {
            Direction::PrevPage
        } else if str_eq(s, "Right") {
            Direction::Right
        } else {
            Direction::Up
        }
    }
}

/// Decoding the code of a direction gives the direction back, for every index that fits in
/// 31 bits.
pub proof fn lemma_direction_code_round_trip(d: Direction)
    requires
        d matches Direction::Index { value } ==> value <= i32::MAX,
    ensures
        direction_code(d) >= -10,
        direction_from_code(direction_code(d)) == d,
{
}

/// Every code from `-10` up is the code of the direction it decodes to.
pub proof fn lemma_direction_decode_round_trip(n: i32)
    requires
        n >= -10,
    ensures
        direction_code(direction_from_code(n)) == n,
{
}

} // verus!
