use vstd::prelude::*;
use vstd::string::StringExecFns;

verus! {

/// One item-shop event on a match timeline.
#[derive(Clone, Copy, PartialEq, Eq, Structural, Debug)]
pub struct ItemEvent {
    pub item_id: u32,
    pub event_type: ItemEventType,
}

/// Whether the item was bought or sold back.
#[derive(Clone, Copy, PartialEq, Eq, Structural, Debug)]
pub enum ItemEventType {
    Purchased,
    Sold,
}

/// One of the four castable ability slots.
#[derive(Clone, Copy, PartialEq, Eq, Structural, Debug)]
pub enum Skill {
    Q,
    W,
    E,
    R,
}

/// The slot a provider value names; only one to four name a slot.
pub open spec fn spec_skill_from(value: u8) -> Skill {
    match value {
        1 => Skill::Q,
        2 => Skill::W,
        3 => Skill::E,
        _ => Skill::R,
    }
}

impl Skill {
    /// The slot a provider value names. Values outside one to four name no
    /// slot and are not accepted.
    pub fn from_value(value: u8) -> (r: Skill)
        requires
            1 <= value <= 4,
        ensures
            r == spec_skill_from(value),
    {
        match value {
            1 => Skill::Q,
            2 => Skill::W,
            3 => Skill::E,
            _ => Skill::R,
        }
    }

    /// The slot's letter.
    pub open spec fn spec_name(self) -> Seq<char> {
        match self {
            Skill::Q => "Q"@,
            Skill::W => "W"@,
            Skill::E => "E"@,
            Skill::R => "R"@,
        }
    }

    /// Renders the slot's letter.
    pub fn name(&self) -> (r: String)
        ensures
            r@ == self.spec_name(),
    {
        match *self {
            Skill::Q => String::from_str("Q"),
            Skill::W => String::from_str("W"),
            Skill::E => String::from_str("E"),
            Skill::R => String::from_str("R"),
        }
    }
}

} // verus!
