//! From the name of a key to the direction it asks for.

use crate::grid::Direction;
use vstd::prelude::*;

verus! {

/// The direction that the key named `key` asks for: an arrow key, or one of
/// the letters that stand in for it. Other keys ask for none.
pub open spec fn key_direction(key: Seq<char>) -> Option<Direction> {
    if key == "ArrowUp"@ || key == "w"@ || key == "k"@ {
        Some(Direction::Up)
    } else if key == "ArrowDown"@ || key == "s"@ || key == "j"@ {
        Some(Direction::Down)
    } else if key == "ArrowRight"@ || key == "d"@ || key == "l"@ {
        Some(Direction::Right)
    } else if key == "ArrowLeft"@ || key == "a"@ || key == "h"@ {
        Some(Direction::Left)
    } else {
        None
    }
}

/// Whether the two strings hold the same characters.
fn same(a: &str, b: &str) -> (equal: bool)
    ensures
        equal == (a@ == b@),
{
    a.to_owned() == b.to_owned()
}

/// The direction that the key named `key` asks for, if any.
pub fn direction_for_key(key: &str) -> (d: Option<Direction>)
    ensures
        d == key_direction(key@),
{
    if same(key, "ArrowUp") || same(key, "w") || same(key, "k") {
        Some(Direction::Up)
    } else if same(key, "ArrowDown") || same(key, "s") || same(key, "j") {
        Some(Direction::Down)
    } else if same(key, "ArrowRight") || same(key, "d") || same(key, "l") {
        Some(Direction::Right)
    } else if same(key, "ArrowLeft") || same(key, "a") || same(key, "h") {
        Some(Direction::Left)
    } else {
        None
    }
}

} // verus!
