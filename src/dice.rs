use vstd::prelude::*;
use vstd::string::*;

use crate::error::DeserializationError;
use crate::primitive::Integer;

verus! {

/// Represents a dice with random value.
#[derive(Clone, Copy, Debug, Eq, Hash, PartialEq, PartialOrd, Ord)]
pub struct Dice {
    kind: DiceKind,
    value: Integer,
}

impl Dice {
    /// Kind of the dice, in specifications.
    pub closed spec fn spec_kind(&self) -> DiceKind {
        self.kind
    }

    /// Value of the dice, in specifications.
    pub closed spec fn spec_value(&self) -> Integer {
        self.value
    }

    /// Kind of the dice.
    #[verifier::when_used_as_spec(spec_kind)]
    pub fn kind(&self) -> (r: DiceKind)
        ensures
            r == self.spec_kind(),
    {
        self.kind
    }

    /// Value of the dice.
    #[verifier::when_used_as_spec(spec_value)]
    pub fn value(&self) -> (r: Integer)
        ensures
            r == self.spec_value(),
    {
        self.value
    }

    /// Reads a dice from the two fields of its wire object: `emoji`, which must be
    /// exactly the emoji of one kind, and `value`, taken as it is.
    pub fn from_fields(emoji: &str, value: Integer) -> (r: Result<Dice, DeserializationError>)
        ensures
            match kind_of_emoji(emoji@) {
                Some(k) => r matches Ok(d) && d.kind() == k && d.value() == value,
                None => r matches Err(DeserializationError::UnknownDiceEmoji { emoji: e })
                    && e@ == emoji@,
            },
    {
        match DiceKind::from_emoji(emoji) {
            Some(kind) => Ok(Dice { kind, value }),
            None => Err(DeserializationError::UnknownDiceEmoji { emoji: String::from_str(emoji) }),
        }
    }

    /// The `emoji` field of the wire object: the emoji of the kind.
    pub fn emoji(&self) -> (r: String)
        ensures
            r@ == emoji_of(self.kind()),
    {
        self.kind.to_string()
    }
}

/// Kind of the dice: the animation that the value was drawn with.
#[derive(Debug, Copy, Clone, Eq, Hash, Ord, PartialEq, PartialOrd)]
#[non_exhaustive]
pub enum DiceKind {
    /// Basketball, values 1 to 5.
    Basketball,
    /// Bones, values 1 to 6.
    Bones,
    /// Bowling, values 1 to 6.
    Bowling,
    /// Darts, values 1 to 6.
    Darts,
    /// Football, values 1 to 5.
    Football,
    /// Slot machine, values 1 to 64.
    SlotMachine,
}

impl DiceKind {
    /// The emoji that stands for this kind on the wire and on screen.
    pub open spec fn symbol(self) -> char {
        match self {
            DiceKind::Basketball => '🏀',
            DiceKind::Bones => '🎲',
            DiceKind::Bowling => '🎳',
            DiceKind::Darts => '🎯',
            DiceKind::Football => '⚽',
            DiceKind::SlotMachine => '🎰',
        }
    }

    /// Returns the emoji of this kind.
    pub fn as_char(self) -> (r: char)
        ensures
            r == self.symbol(),
    {
        match self {
            DiceKind::Basketball => '🏀',
            DiceKind::Bones => '🎲',
            DiceKind::Bowling => '🎳',
            DiceKind::Darts => '🎯',
            DiceKind::Football => '⚽',
            DiceKind::SlotMachine => '🎰',
        }
    }
}


impl DiceKind {
    /// Returns the kind whose emoji is `c`, if there is one.
    pub fn from_char(c: char) -> (r: Option<DiceKind>)
        ensures
            r == kind_of_symbol(c),
    {
        if c == '🏀' {
            Some(DiceKind::Basketball)
        } else if c == '🎲' {
            Some(DiceKind::Bones)
        } else if c == '🎳' {
            Some(DiceKind::Bowling)
        } else if c == '🎯' {
            Some(DiceKind::Darts)
        } else if c == '⚽' {
            Some(DiceKind::Football)
        } else if c == '🎰' {
            Some(DiceKind::SlotMachine)
        } else {
            None
        }
    }

    /// Returns the kind whose emoji is the whole of `s`, if there is one.
    pub fn from_emoji(s: &str) -> (r: Option<DiceKind>)
        ensures
            r == kind_of_emoji(s@),
    {
        if s.unicode_len() == 1 {
            DiceKind::from_char(s.get_char(0))
        } else {
            None
        }
    }

    /// Renders the kind as its emoji.
    pub fn to_string(self) -> (r: String)
        ensures
            r@ == emoji_of(self),
    {
        let r = match self {
            DiceKind::Basketball => String::from_str("🏀"),
            DiceKind::Bones => String::from_str("🎲"),
            DiceKind::Bowling => String::from_str("🎳"),
            DiceKind::Darts => String::from_str("🎯"),
            DiceKind::Football => String::from_str("⚽"),
            DiceKind::SlotMachine => String::from_str("🎰"),
        };
        proof {
            reveal_strlit("🏀");
            reveal_strlit("🎲");
            reveal_strlit("🎳");
            reveal_strlit("🎯");
            reveal_strlit("⚽");
            reveal_strlit("🎰");
            assert(r@ =~= emoji_of(self));
        }
        r
    }
}

impl From<DiceKind> for char {
    fn from(kind: DiceKind) -> (r: char)
        ensures
            r == kind.symbol(),
    {
        kind.as_char()
    }
}

impl vstd::std_specs::convert::FromSpecImpl<DiceKind> for char {
    open spec fn obeys_from_spec() -> bool {
        true
    }

    open spec fn from_spec(kind: DiceKind) -> char {
        kind.symbol()
    }
}

/// The kind whose emoji is `c`, if there is one.
pub open spec fn kind_of_symbol(c: char) -> Option<DiceKind> {
    if c == '🏀' {
        Some(DiceKind::Basketball)
    } else if c == '🎲' {
        Some(DiceKind::Bones)
    } else if c == '🎳' {
        Some(DiceKind::Bowling)
    } else if c == '🎯' {
        Some(DiceKind::Darts)
    } else if c == '⚽' {
        Some(DiceKind::Football)
    } else if c == '🎰' {
        Some(DiceKind::SlotMachine)
    } else {
        None
    }
}

/// The kind whose emoji is the whole string `s`, if there is one.
pub open spec fn kind_of_emoji(s: Seq<char>) -> Option<DiceKind> {
    if s.len() == 1 {
        kind_of_symbol(s[0])
    } else {
        None
    }
}

/// The text of the `emoji` field for a kind: its one emoji.
pub open spec fn emoji_of(k: DiceKind) -> Seq<char> {
    seq![k.symbol()]
}

/// No two kinds share an emoji.
pub proof fn lemma_symbols_distinct(k1: DiceKind, k2: DiceKind)
    ensures
        k1 != k2 ==> k1.symbol() != k2.symbol(),
{
}

/// Round trip of the wire object: reading `{emoji: emoji_of(k), value: v}` succeeds for
/// every kind `k`, and the dice it gives (kind `k`, value `v`) is written back as
/// exactly the same two fields, whatever the value.
pub proof fn lemma_round_trip(k: DiceKind, v: Integer, d: Dice)
    ensures
        kind_of_emoji(emoji_of(k)) == Some(k),
        d.kind() == k && d.value() == v ==> emoji_of(d.kind()) == emoji_of(k) && d.value() == v,
{
}

/// A string that is read as a kind is exactly the emoji written for that kind.
pub proof fn lemma_emoji_of_kind_of(s: Seq<char>)
    ensures
        kind_of_emoji(s) matches Some(k) ==> emoji_of(k) == s,
{
    if kind_of_emoji(s) is Some {
        assert(emoji_of(kind_of_emoji(s)->0) =~= s);
    }
}

} // verus!
