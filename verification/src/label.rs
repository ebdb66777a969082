//! The label that shows the score.

use vstd::prelude::*;

verus! {

/// A label in two parts: a caption that stays, and the value shown after it.
#[derive(Clone, Debug, PartialEq, Eq)]
pub struct ScoreLabel {
    pub prefix: String,
    pub value: String,
}

impl ScoreLabel {
    /// A label with the caption `prefix` and nothing shown after it yet.
    pub fn new(prefix: String) -> (label: ScoreLabel)
        ensures
            label.prefix == prefix,
            label.value@ == Seq::<char>::empty(),
    {
        ScoreLabel { prefix, value: String::new() }
    }
}

} // verus!
