//! The ambient input mode.

use vstd::prelude::*;

verus! {

/// What typed characters become: kana to be converted, or Latin text.
#[derive(Debug, Clone, Copy, PartialEq, Eq, Structural)]
pub enum InputMode {
    Kana,
    Latin,
}

impl InputMode {
    /// The label under which the candidate service knows the mode.
    pub open spec fn spec_label(self) -> Seq<char> {
        match self {
            InputMode::Latin => seq!['A'],
            InputMode::Kana => seq!['あ'],
        }
    }

    /// The label under which the candidate service knows the mode.
    pub fn label(self) -> (text: String)
        ensures
            text@ == self.spec_label(),
    {
        match self {
            InputMode::Latin => crate::text::char_text('A'),
            InputMode::Kana => crate::text::char_text('あ'),
        }
    }
}

} // verus!
