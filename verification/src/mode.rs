use crate::control::Control;
use vstd::prelude::*;

verus! {

/// The mode in which a key is pressed.
#[derive(PartialEq, Eq, Hash, Clone, Copy, Debug, Structural)]
pub enum Mode {
    Setting(Control),
    View,
    Editing,
    Selecting,
    Categorizing,
}

} // verus!
