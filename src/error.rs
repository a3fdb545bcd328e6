use vstd::prelude::*;

verus! {

/// What went wrong while reading a value of the wire format.
#[derive(Clone, Debug, PartialEq, Eq)]
pub enum DeserializationError {
    /// The `emoji` field of a dice held a string that names no dice kind.
    UnknownDiceEmoji { emoji: String },
    /// A field pinned to one boolean literal held the other one.
    UnexpectedBool { actual: bool, expected: bool },
}

} // verus!
