//! The two player marks and the human participant.

use vstd::prelude::*;

verus! {

/// A player's mark. `X` always moves first.
#[derive(Debug, Clone, Copy, PartialEq, Eq, Structural)]
pub enum Player {
    X,
    O,
}

impl Player {
    /// The opposing mark.
    pub fn opponent(&self) -> (r: Self)
        ensures
            r == self.spec_opponent(),
    {
        match self {
            Player::X => Player::O,
            Player::O => Player::X,
        }
    }

    /// The opposing mark, as a mathematical function.
    pub open spec fn spec_opponent(self) -> Player {
        match self {
            Player::X => Player::O,
            Player::O => Player::X,
        }
    }
}

/// A human participant: the mark they play and their display name.
/// Collecting their moves from the console is a front-end concern and
/// happens outside this crate.
pub struct HumanPlayer {
    player_type: Player,
    name: String,
}

impl HumanPlayer {
    /// The mark this player plays.
    pub closed spec fn spec_player_type(self) -> Player {
        self.player_type
    }

    /// The player's display name.
    pub closed spec fn spec_name(self) -> Seq<char> {
        self.name@
    }

    /// Create a new human player.
    pub fn new(player_type: Player, name: String) -> (r: Self)
        ensures
            r.spec_player_type() == player_type,
            r.spec_name() == name@,
    {
        Self { player_type, name }
    }

    /// The mark this player plays.
    pub fn get_player_type(&self) -> (r: Player)
        ensures
            r == self.spec_player_type(),
    {
        self.player_type
    }

    /// The player's display name.
    pub fn get_name(&self) -> (r: &String)
        ensures
            r@ == self.spec_name(),
    {
        &self.name
    }
}

} // verus!
