//! Types of the Telegram Bot API: the dice message and the literal boolean markers.

pub mod dice;
pub mod error;
pub mod primitive;
