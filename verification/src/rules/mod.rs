use vstd::prelude::*;

pub mod attack;
pub mod cards;
pub mod events;
pub mod player_actions;
pub mod states;

verus! {

/// One of the two seats at the table.
#[derive(Clone, Copy, Debug, PartialEq, Eq, Structural)]
pub enum PlayerPos {
    P1,
    P2,
}

impl PlayerPos {
    /// The seat across the table.
    pub open spec fn spec_other(self) -> PlayerPos {
        match self {
            PlayerPos::P1 => PlayerPos::P2,
            PlayerPos::P2 => PlayerPos::P1,
        }
    }

    /// Returns the opponent's seat.
    pub fn other(&self) -> (res: PlayerPos)
        ensures
            res == self.spec_other(),
            res != *self,
    {
        match self {
            PlayerPos::P1 => PlayerPos::P2,
            PlayerPos::P2 => PlayerPos::P1,
        }
    }

    /// Both seats, first player first.
    pub fn iter() -> (res: Vec<PlayerPos>)
        ensures
            res@ == seq![PlayerPos::P1, PlayerPos::P2],
    {
        let mut v: Vec<PlayerPos> = Vec::new();
        v.push(PlayerPos::P1);
        v.push(PlayerPos::P2);
        v
    }
}

/// Taking the other seat twice gives back the seat one started from.
pub proof fn lemma_other_involutive(p: PlayerPos)
    ensures
        p.spec_other().spec_other() == p,
        p.spec_other() != p,
{
}

/// From whose point of view hidden information is shown.
#[derive(Clone, Copy, Debug, PartialEq, Eq, Structural)]
pub enum ObservePosition {
    /// Can view hidden information open to the given player.
    RelativeTo(PlayerPos),
    /// Can view all hidden information.
    MasterView,
    /// Can see only open information.
    ByStander,
}

/// How a game ended.
#[derive(Clone, Copy, Debug, PartialEq, Eq, Structural)]
pub enum GameResult {
    Draw,
    Winner(PlayerPos),
}

} // verus!
