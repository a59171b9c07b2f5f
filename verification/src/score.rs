//! The points of the two players.
//!
//! A point is worth one; the game keeps each score in a single-precision
//! float that starts at zero, which counts exactly up to 2^24 and from then
//! on stays put when one is added (the sum rounds back to 2^24). The
//! scoreboard keeps the same counts as integers with that same ceiling.
use vstd::prelude::*;
use crate::racket::Player;

verus! {

/// The largest score: 2^24, beyond which adding a point changes nothing.
pub const SCORE_LIMIT: u32 = 16777216;

/// The side of the screen through which the ball left the field.
#[derive(Clone, Copy, Debug, PartialEq, Eq, Structural)]
pub enum Side {
    Left,
    Right,
}

/// The player who wins the point when the ball leaves through `side`: the
/// player defending the other side.
pub open spec fn spec_scorer(side: Side) -> Player {
    match side {
        Side::Left => Player::Two,
        Side::Right => Player::One,
    }
}

/// The player credited when the ball leaves through `side`.
pub fn scorer(side: Side) -> (p: Player)
    ensures
        p == spec_scorer(side),
{
    match side {
        Side::Left => Player::Two,
        Side::Right => Player::One,
    }
}

/// A score after one more point, held at the ceiling.
pub open spec fn add_point(score: nat) -> nat {
    if score < SCORE_LIMIT {
        score + 1
    } else {
        score
    }
}

/// The score of each player.
pub struct Scoreboard {
    player_1: u32,
    player_2: u32,
}

impl View for Scoreboard {
    /// The scores of player one and player two.
    type V = (nat, nat);

    closed spec fn view(&self) -> (nat, nat) {
        (self.player_1 as nat, self.player_2 as nat)
    }
}

/// The score of `player` in a view of the scoreboard.
pub open spec fn points_of(scores: (nat, nat), player: Player) -> nat {
    match player {
        Player::One => scores.0,
        Player::Two => scores.1,
    }
}

/// The scores after `player` wins a point.
pub open spec fn spec_award(scores: (nat, nat), player: Player) -> (nat, nat) {
    match player {
        Player::One => (add_point(scores.0), scores.1),
        Player::Two => (scores.0, add_point(scores.1)),
    }
}

/// Both scores are within the ceiling.
pub open spec fn within_limit(scores: (nat, nat)) -> bool {
    scores.0 <= SCORE_LIMIT && scores.1 <= SCORE_LIMIT
}

impl Scoreboard {
    #[verifier::type_invariant]
    spec fn inv(self) -> bool {
        self.player_1 <= SCORE_LIMIT && self.player_2 <= SCORE_LIMIT
    }

    /// A scoreboard at the start of a game: nil all.
    pub fn new() -> (s: Scoreboard)
        ensures
            s@ == (0nat, 0nat),
            within_limit(s@),
    {
        Scoreboard { player_1: 0, player_2: 0 }
    }

    /// The score of player one.
    pub fn player_1(&self) -> (p: u32)
        ensures
            p as nat == self@.0,
            p <= SCORE_LIMIT,
    {
        proof {
            use_type_invariant(self);
        }
        self.player_1
    }

    /// The score of player two.
    pub fn player_2(&self) -> (p: u32)
        ensures
            p as nat == self@.1,
            p <= SCORE_LIMIT,
    {
        proof {
            use_type_invariant(self);
        }
        self.player_2
    }

    /// Gives `player` one point; the other score does not change.
    pub fn award(&mut self, player: Player)
        ensures
            final(self)@ == spec_award(old(self)@, player),
            within_limit(final(self)@),
    {
        proof {
            use_type_invariant(&*self);
        }
        match player {
            Player::One => {
                if self.player_1 < SCORE_LIMIT {
                    self.player_1 = self.player_1 + 1;
                }
            },
            Player::Two => {
                if self.player_2 < SCORE_LIMIT {
                    self.player_2 = self.player_2 + 1;
                }
            },
        }
    }

    /// Records a ball that left the field through `side`: the player
    /// defending the other side wins the point.
    pub fn ball_out(&mut self, side: Side)
        ensures
            final(self)@ == spec_award(old(self)@, spec_scorer(side)),
            within_limit(final(self)@),
    {
        let p = scorer(side);
        self.award(p);
    }
}

/// A point never lowers a score, raises the winner's by at most one, and
/// leaves the other player's untouched.
pub proof fn award_is_monotone(scores: (nat, nat), player: Player, other: Player)
    requires
        other != player,
    ensures
        points_of(scores, player) <= points_of(spec_award(scores, player), player)
            <= points_of(scores, player) + 1,
        points_of(spec_award(scores, player), other) == points_of(scores, other),
{
}

/// Below the ceiling a point raises the winner's score by exactly one.
pub proof fn award_counts_one_point(scores: (nat, nat), player: Player)
    requires
        points_of(scores, player) < SCORE_LIMIT,
    ensures
        points_of(spec_award(scores, player), player) == points_of(scores, player) + 1,
{
}

/// Awarding points keeps both scores within the ceiling.
pub proof fn award_keeps_limit(scores: (nat, nat), player: Player)
    requires
        within_limit(scores),
    ensures
        within_limit(spec_award(scores, player)),
{
}


/// A ball out on the left is player two's point and one on the right is
/// player one's: never the player defending the side the ball left through.
pub proof fn ball_out_credits_the_other_side(side: Side)
    ensures
        spec_scorer(side) == Player::Two <==> side == Side::Left,
        spec_scorer(side) == Player::One <==> side == Side::Right,
{
}

} // verus!
