//! The two input modes of the engine.

use vstd::prelude::*;

verus! {

/// Kana mode shapes typed keys for kana-kanji conversion; Latin mode lets
/// them through unchanged.
#[derive(Clone, Copy, Debug, PartialEq, Eq, Structural)]
pub enum InputMode {
    Kana,
    Latin,
}

impl InputMode {
    /// The other mode.
    pub open spec fn toggled_spec(self) -> InputMode {
        match self {
            InputMode::Kana => InputMode::Latin,
            InputMode::Latin => InputMode::Kana,
        }
    }

    pub fn toggled(self) -> (r: InputMode)
        ensures
            r == self.toggled_spec(),
    {
        match self {
            InputMode::Kana => InputMode::Latin,
            InputMode::Latin => InputMode::Kana,
        }
    }
}

} // verus!
