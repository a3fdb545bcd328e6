use vstd::prelude::*;

use crate::error::DeserializationError;

verus! {

/// Telegram Integer type.
pub type Integer = i64;

/// Represents a unique message identifier.
#[derive(Copy, Clone, Debug, PartialEq, Eq)]
pub struct MessageId {
    /// Unique message identifier.
    pub message_id: Integer,
}

/// A boolean field that may only ever hold `true`.
///
/// A value is obtained only from `True::from_bool`, which rejects `false`.
#[derive(Copy, Clone, Debug, PartialEq, Eq)]
pub struct True {
    marker: (),
}

/// A boolean field that may only ever hold `false`.
///
/// A value is obtained only from `False::from_bool`, which rejects `true`.
#[derive(Copy, Clone, Debug, PartialEq, Eq)]
pub struct False {
    marker: (),
}

impl True {
    /// Accepts the boolean read from the wire if it is `true`.
    pub fn from_bool(b: bool) -> (r: Result<True, DeserializationError>)
        ensures
            b <==> r is Ok,
            !b ==> r == Err::<True, DeserializationError>(
                DeserializationError::UnexpectedBool { actual: false, expected: true },
            ),
    {
        if b {
            Ok(True { marker: () })
        } else {
            Err(DeserializationError::UnexpectedBool { actual: b, expected: true })
        }
    }

    /// The boolean written to the wire for this field.
    pub fn to_bool(self) -> (r: bool)
        ensures
            r == true,
    {
        true
    }
}

impl False {
    /// Accepts the boolean read from the wire if it is `false`.
    pub fn from_bool(b: bool) -> (r: Result<False, DeserializationError>)
        ensures
            !b <==> r is Ok,
            b ==> r == Err::<False, DeserializationError>(
                DeserializationError::UnexpectedBool { actual: true, expected: false },
            ),
    {
        if !b {
            Ok(False { marker: () })
        } else {
            Err(DeserializationError::UnexpectedBool { actual: b, expected: false })
        }
    }

    /// The boolean written to the wire for this field.
    pub fn to_bool(self) -> (r: bool)
        ensures
            r == false,
    {
        false
    }
}

} // verus!
