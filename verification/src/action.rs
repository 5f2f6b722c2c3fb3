use vstd::prelude::*;

verus! {

/// The four measures by which posts are ranked.
#[derive(Clone, Copy, Debug, PartialEq, Eq, Structural)]
pub enum ActionType {
    Replies,
    Reactions,
    Forwards,
    Views,
}

/// Number of measures, and so of sections in a digest.
pub const ACTION_COUNT: usize = 4;

impl ActionType {
    /// Position of the measure in the order replies, reactions, forwards, views.
    pub open spec fn position(self) -> nat {
        match self {
            ActionType::Replies => 0,
            ActionType::Reactions => 1,
            ActionType::Forwards => 2,
            ActionType::Views => 3,
        }
    }

    /// The measure at a given position; defined for positions below four.
    pub open spec fn at_position(value: nat) -> ActionType {
        if value == 0 {
            ActionType::Replies
        } else if value == 1 {
            ActionType::Reactions
        } else if value == 2 {
            ActionType::Forwards
        } else {
            ActionType::Views
        }
    }

    /// Position of this measure (the discriminant in the order of declaration).
    pub fn index(self) -> (r: usize)
        ensures
            r == self.position(),
            r < ACTION_COUNT,
    {
        match self {
            ActionType::Replies => 0,
            ActionType::Reactions => 1,
            ActionType::Forwards => 2,
            ActionType::Views => 3,
        }
    }

    /// The measure at position `value`; there is none from four on.
    pub fn from(value: usize) -> (r: ActionType)
        requires
            value < ACTION_COUNT,
        ensures
            r == ActionType::at_position(value as nat),
            r.position() == value,
    {
        match value {
            0 => ActionType::Replies,
            1 => ActionType::Reactions,
            2 => ActionType::Forwards,
            _ => ActionType::Views,
        }
    }
}

/// Reading a measure's position back gives the measure: `from` and `index`
/// are inverse to each other.
pub proof fn lemma_position_round_trip(action: ActionType, value: nat)
    requires
        value < ACTION_COUNT,
    ensures
        ActionType::at_position(action.position()) == action,
        ActionType::at_position(value).position() == value,
{
}

} // verus!
