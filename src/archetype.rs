//! Identity-card archetypes and their one-byte codes.
use vstd::prelude::*;

verus! {

/// The role an identity card plays.
#[derive(Debug, Clone, Copy, PartialEq, Eq, Structural)]
pub enum Archetype {
    Sentinel,
    Catalyst,
    Harmonizer,
    Prophet,
}

/// The label shown for a card's archetype code; codes past the last
/// archetype read as "Unknown".
pub open spec fn archetype_label(code: u8) -> Seq<char> {
    if code == 0 {
        "Sentinel"@
    } else if code == 1 {
        "Catalyst"@
    } else if code == 2 {
        "Harmonizer"@
    } else if code == 3 {
        "Prophet"@
    } else {
        "Unknown"@
    }
}

impl Archetype {
    /// The code stored in a card: the archetype's position, from 0.
    pub open spec fn code_spec(self) -> u8 {
        match self {
            Archetype::Sentinel => 0,
            Archetype::Catalyst => 1,
            Archetype::Harmonizer => 2,
            Archetype::Prophet => 3,
        }
    }

    pub fn code(self) -> (r: u8)
        ensures
            r == self.code_spec(),
    {
        match self {
            Archetype::Sentinel => 0,
            Archetype::Catalyst => 1,
            Archetype::Harmonizer => 2,
            Archetype::Prophet => 3,
        }
    }

    /// The archetype stored under `code`, if any.
    pub fn from_code(code: u8) -> (r: Option<Archetype>)
        ensures
            r matches Some(a) ==> a.code_spec() == code,
            r is None <==> code > 3,
    {
        match code {
            0 => Some(Archetype::Sentinel),
            1 => Some(Archetype::Catalyst),
            2 => Some(Archetype::Harmonizer),
            3 => Some(Archetype::Prophet),
            _ => None,
        }
    }
}

/// The label of an archetype code, as a card inspection shows it.
pub fn archetype_name(code: u8) -> (r: &'static str)
    ensures
        r@ == archetype_label(code),
{
    match code {
        0 => "Sentinel",
        1 => "Catalyst",
        2 => "Harmonizer",
        3 => "Prophet",
        _ => "Unknown",
    }
}

} // verus!
