//! The discrete state of a game in progress: where the ball is heading and
//! the score.
use vstd::prelude::*;
use crate::ball::{
    BallDirection, Heading, Surface, spec_bounce, spec_serve, spec_wall_contact, serve, serve_with,
    wall_contact,
};
use crate::racket::Player;
use crate::score::{Scoreboard, Side, SCORE_LIMIT, points_of, spec_award, spec_scorer};

verus! {

/// The state of a game that is not made of screen coordinates.
pub struct Rally {
    pub direction: BallDirection,
    pub scores: Scoreboard,
}

/// The direction after the contacts of one frame, in the order the game
/// checks them: the wall (top before bottom), then racket one, then racket
/// two, so that racket two decides when the ball overlaps both.
pub open spec fn spec_after_contacts(
    d: BallDirection,
    past_top: bool,
    past_bottom: bool,
    hit_1: bool,
    hit_2: bool,
) -> BallDirection {
    let d1 = match spec_wall_contact(past_top, past_bottom) {
        Some(w) => spec_bounce(d, w),
        None => d,
    };
    let d2 = if hit_1 { spec_bounce(d1, Surface::Racket1) } else { d1 };
    if hit_2 { spec_bounce(d2, Surface::Racket2) } else { d2 }
}

/// The scores after the exits of one frame: the left exit is checked first
/// and credits player two, the right exit credits player one.
pub open spec fn spec_frame_scores(scores: (nat, nat), left_out: bool, right_out: bool) -> (nat, nat) {
    let s1 = if left_out { spec_award(scores, Player::Two) } else { scores };
    if right_out { spec_award(s1, Player::One) } else { s1 }
}

/// Every exit of a frame counts one point for the player defending the other
/// side, below the ceiling: a ball out on the left gives player two a point,
/// on the right player one; a score at the ceiling stays there, and a player
/// whose side saw no exit keeps the score.
pub proof fn frame_counts_each_exit(scores: (nat, nat), left_out: bool, right_out: bool)
    ensures
        points_of(spec_frame_scores(scores, left_out, right_out), Player::Two) == if left_out
            && scores.1 < SCORE_LIMIT {
            scores.1 + 1
        } else {
            scores.1
        },
        points_of(spec_frame_scores(scores, left_out, right_out), Player::One) == if right_out
            && scores.0 < SCORE_LIMIT {
            scores.0 + 1
        } else {
            scores.0
        },
{
}

/// The contacts of a frame act on each axis separately: the horizontal sign
/// is set only by the rackets (left after racket two, else right after
/// racket one, else kept), the vertical sign only by the walls (down after
/// the top, else up after the bottom, else kept).
pub proof fn contacts_act_per_axis(
    d: BallDirection,
    past_top: bool,
    past_bottom: bool,
    hit_1: bool,
    hit_2: bool,
)
    ensures
        spec_after_contacts(d, past_top, past_bottom, hit_1, hit_2).x == if hit_2 {
            Heading::Negative
        } else if hit_1 {
            Heading::Positive
        } else {
            d.x
        },
        spec_after_contacts(d, past_top, past_bottom, hit_1, hit_2).y == if past_top {
            Heading::Positive
        } else if past_bottom {
            Heading::Negative
        } else {
            d.y
        },
{
}

/// A frame in which the ball touches no racket keeps its horizontal sign,
/// and one in which it touches no wall keeps its vertical sign.
pub proof fn untouched_axes_are_kept(d: BallDirection, past_top: bool, past_bottom: bool, hit_1: bool, hit_2: bool)
    ensures
        spec_after_contacts(d, past_top, past_bottom, false, false).x == d.x,
        spec_after_contacts(d, false, false, hit_1, hit_2).y == d.y,
{
    contacts_act_per_axis(d, past_top, past_bottom, false, false);
    contacts_act_per_axis(d, false, false, hit_1, hit_2);
}

impl Rally {
    /// A new game: nil all, ball served in a random direction.
    pub fn start() -> (r: Rally)
        ensures
            r.scores@ == (0nat, 0nat),
            exists|x_coin: bool, y_coin: bool| r.direction == spec_serve(x_coin, y_coin),
    {
        Rally { direction: serve(), scores: Scoreboard::new() }
    }

    /// The ball touched `surface`: it heads away from it; the score is kept.
    pub fn touch(&mut self, surface: Surface)
        ensures
            final(self).direction == spec_bounce(old(self).direction, surface),
            final(self).scores@ == old(self).scores@,
    {
        self.direction = self.direction.bounce(surface);
    }

    /// The ball left the field through `side` and the serve comes up with the
    /// given coins: the player defending the other side wins a point and the
    /// ball is served in the coins' direction.
    pub fn ball_out_with(&mut self, side: Side, x_coin: bool, y_coin: bool)
        ensures
            final(self).scores@ == spec_award(old(self).scores@, spec_scorer(side)),
            final(self).direction == spec_serve(x_coin, y_coin),
    {
        self.direction = serve_with(x_coin, y_coin);
        self.scores.ball_out(side);
    }

    /// The ball left the field through `side`: the player defending the other
    /// side wins a point and the ball is served again in a random direction.
    pub fn ball_out(&mut self, side: Side)
        ensures
            final(self).scores@ == spec_award(old(self).scores@, spec_scorer(side)),
            exists|x_coin: bool, y_coin: bool| final(self).direction == spec_serve(x_coin, y_coin),
    {
        self.direction = serve();
        self.scores.ball_out(side);
    }

    /// The ball's contacts of one frame, the exits already handled: wall,
    /// then racket one, then racket two. The score is kept.
    fn contacts(&mut self, past_top: bool, past_bottom: bool, hit_1: bool, hit_2: bool)
        ensures
            final(self).direction == spec_after_contacts(
                old(self).direction,
                past_top,
                past_bottom,
                hit_1,
                hit_2,
            ),
            final(self).scores@ == old(self).scores@,
    {
        match wall_contact(past_top, past_bottom) {
            Some(w) => self.touch(w),
            None => {},
        }
        if hit_1 {
            self.touch(Surface::Racket1);
        }
        if hit_2 {
            self.touch(Surface::Racket2);
        }
    }

    /// The decisions of one frame, given what the screen geometry found and
    /// the coins of the serve: a ball out on the left (checked first) or on
    /// the right scores for the other player and is served with the coins;
    /// then the wall, racket one and racket two turn the ball in that order.
    pub fn frame_with(
        &mut self,
        left_out: bool,
        right_out: bool,
        past_top: bool,
        past_bottom: bool,
        hit_1: bool,
        hit_2: bool,
        x_coin: bool,
        y_coin: bool,
    )
        ensures
            final(self).scores@ == spec_frame_scores(old(self).scores@, left_out, right_out),
            final(self).direction == spec_after_contacts(
                if left_out || right_out { spec_serve(x_coin, y_coin) } else { old(self).direction },
                past_top,
                past_bottom,
                hit_1,
                hit_2,
            ),
    {
        if left_out {
            self.ball_out_with(Side::Left, x_coin, y_coin);
        }
        if right_out {
            self.ball_out_with(Side::Right, x_coin, y_coin);
        }
        self.contacts(past_top, past_bottom, hit_1, hit_2);
    }

    /// The decisions of one frame, given what the screen geometry found: a
    /// ball out on the left (checked first) or on the right scores for the
    /// other player and is served again at random; then the wall (top before
    /// bottom), racket one and racket two turn the ball in that order, so
    /// racket two decides when the ball overlaps both rackets.
    pub fn frame(
        &mut self,
        left_out: bool,
        right_out: bool,
        past_top: bool,
        past_bottom: bool,
        hit_1: bool,
        hit_2: bool,
    )
        ensures
            final(self).scores@ == spec_frame_scores(old(self).scores@, left_out, right_out),
            !(left_out || right_out) ==> final(self).direction == spec_after_contacts(
                old(self).direction,
                past_top,
                past_bottom,
                hit_1,
                hit_2,
            ),
            (left_out || right_out) ==> exists|x_coin: bool, y_coin: bool|
                final(self).direction == spec_after_contacts(
                    spec_serve(x_coin, y_coin),
                    past_top,
                    past_bottom,
                    hit_1,
                    hit_2,
                ),
            hit_2 ==> final(self).direction.x == Heading::Negative,
            hit_1 && !hit_2 ==> final(self).direction.x == Heading::Positive,
            past_top ==> final(self).direction.y == Heading::Positive,
            !past_top && past_bottom ==> final(self).direction.y == Heading::Negative,
    {
        if left_out {
            self.ball_out(Side::Left);
        }
        if right_out {
            self.ball_out(Side::Right);
        }
        let ghost served = self.direction;
        self.contacts(past_top, past_bottom, hit_1, hit_2);
        proof {
            if left_out || right_out {
                let (a, b) = choose|a: bool, b: bool| served == spec_serve(a, b);
                assert(self.direction == spec_after_contacts(spec_serve(a, b), past_top, past_bottom, hit_1, hit_2));
            }
        }
    }
}


} // verus!
