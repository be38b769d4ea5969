use crate::key_input::{
    Accepter, Converter, KeyInput, KeyInputMode, KeyInputView, Launcher, INFORMATION_SYMBOL,
};
use vstd::prelude::*;

verus! {

/// The editor that presents an information: it keeps its input, and any key dismisses it.
pub fn display_information_editor() -> (r: KeyInput)
    ensures
        r.wf(),
        r@ == (KeyInputView {
            prompt: INFORMATION_SYMBOL@,
            completion: None,
            mode: KeyInputMode::Information,
            accepter: Accepter::AnyChar,
            converter: Converter::Keep,
            launcher: Launcher::Dismiss,
        }),
{
    KeyInput::new(
        INFORMATION_SYMBOL,
        None,
        KeyInputMode::Information,
        Accepter::AnyChar,
        Converter::Keep,
        Launcher::Dismiss,
    )
}

} // verus!
