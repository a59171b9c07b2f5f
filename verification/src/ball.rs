//! The direction in which the ball travels.
//!
//! Each component of the ball's velocity always has the same magnitude (the
//! ball speed): a serve picks a sign for each, and a bounce only changes a
//! sign. The direction therefore holds the two signs and nothing else.
use vstd::prelude::*;
use rand::Rng;

verus! {

/// The sign of one velocity component.
#[derive(Clone, Copy, Debug, PartialEq, Eq, Structural)]
pub enum Heading {
    Negative,
    Positive,
}

impl Heading {
    pub open spec fn spec_sign(self) -> int {
        match self {
            Heading::Negative => -1,
            Heading::Positive => 1,
        }
    }

    /// The sign of the component: -1 or 1.
    pub fn sign(self) -> (s: i8)
        ensures
            s == self.spec_sign(),
    {
        match self {
            Heading::Negative => -1,
            Heading::Positive => 1,
        }
    }
}

/// The direction of the ball: the sign of its x and of its y velocity.
/// On the screen x grows to the right and y grows downwards.
#[derive(Clone, Copy, Debug, PartialEq, Eq, Structural)]
pub struct BallDirection {
    pub x: Heading,
    pub y: Heading,
}

/// A surface the ball can bounce off.
#[derive(Clone, Copy, Debug, PartialEq, Eq, Structural)]
pub enum Surface {
    /// The top edge of the screen.
    TopWall,
    /// The bottom edge of the screen.
    BottomWall,
    /// Player one's racket, on the left.
    Racket1,
    /// Player two's racket, on the right.
    Racket2,
}

/// The direction after touching a surface: the component across the
/// surface is made to point away from it, the other one is kept.
pub open spec fn spec_bounce(d: BallDirection, s: Surface) -> BallDirection {
    match s {
        Surface::TopWall => BallDirection { x: d.x, y: Heading::Positive },
        Surface::BottomWall => BallDirection { x: d.x, y: Heading::Negative },
        Surface::Racket1 => BallDirection { x: Heading::Positive, y: d.y },
        Surface::Racket2 => BallDirection { x: Heading::Negative, y: d.y },
    }
}

/// The direction of a serve, given one fair coin for each axis: heads
/// (`true`) sends the ball towards growing coordinates.
pub open spec fn spec_serve(x_coin: bool, y_coin: bool) -> BallDirection {
    BallDirection {
        x: if x_coin { Heading::Positive } else { Heading::Negative },
        y: if y_coin { Heading::Positive } else { Heading::Negative },
    }
}

impl BallDirection {
    /// The direction after the ball touches `surface`.
    pub fn bounce(self, surface: Surface) -> (d: BallDirection)
        ensures
            d == spec_bounce(self, surface),
    {
        match surface {
            Surface::TopWall => BallDirection { x: self.x, y: Heading::Positive },
            Surface::BottomWall => BallDirection { x: self.x, y: Heading::Negative },
            Surface::Racket1 => BallDirection { x: Heading::Positive, y: self.y },
            Surface::Racket2 => BallDirection { x: Heading::Negative, y: self.y },
        }
    }
}

/// The wall the ball is in contact with, given whether it is past the top
/// limit and whether it is past the bottom limit; the top is checked first.
pub open spec fn spec_wall_contact(past_top: bool, past_bottom: bool) -> Option<Surface> {
    if past_top {
        Some(Surface::TopWall)
    } else if past_bottom {
        Some(Surface::BottomWall)
    } else {
        None
    }
}

/// Decides which wall, if any, the ball touches: the top when it is past the
/// top limit, otherwise the bottom when it is past the bottom limit.
pub fn wall_contact(past_top: bool, past_bottom: bool) -> (w: Option<Surface>)
    ensures
        w == spec_wall_contact(past_top, past_bottom),
{
    if past_top {
        Some(Surface::TopWall)
    } else if past_bottom {
        Some(Surface::BottomWall)
    } else {
        None
    }
}

/// The direction of a serve for the given coin results.
pub fn serve_with(x_coin: bool, y_coin: bool) -> (d: BallDirection)
    ensures
        d == spec_serve(x_coin, y_coin),
{
    BallDirection {
        x: if x_coin { Heading::Positive } else { Heading::Negative },
        y: if y_coin { Heading::Positive } else { Heading::Negative },
    }
}

/// Draws `true` with probability `numerator / denominator` from the
/// thread-local generator, through `rand::Rng::gen_ratio` on
/// `rand::thread_rng()`. Only the two certain cases are stated: rand's
/// documentation promises `true` when the numerator equals the denominator
/// and `false` when the numerator is zero; any other outcome is left open,
/// since it rests on chance.
#[verifier::external_body]
fn random_ratio(numerator: u32, denominator: u32) -> (r: bool)
    requires
        0 < denominator,
        numerator <= denominator,
    ensures
        numerator == denominator ==> r,
        numerator == 0 ==> !r,
{
    rand::thread_rng().gen_ratio(numerator, denominator)
}

/// Serves the ball in a random diagonal direction: two fair coins, one per
/// axis. Whatever the coins give, the direction is the serve of those coins.
pub fn serve() -> (d: BallDirection)
    ensures
        exists|x_coin: bool, y_coin: bool| d == spec_serve(x_coin, y_coin),
{
    let x_coin = random_ratio(1, 2);
    let y_coin = random_ratio(1, 2);
    serve_with(x_coin, y_coin)
}

/// Touching the same surface again changes nothing: a ball that stays in
/// contact for several frames keeps moving away from the surface instead of
/// being turned back into it.
pub proof fn bounce_is_idempotent(d: BallDirection, s: Surface)
    ensures
        spec_bounce(spec_bounce(d, s), s) == spec_bounce(d, s),
{
}

/// After a bounce the ball always moves away from the surface it touched,
/// and the component along the surface is unchanged.
pub proof fn bounce_moves_away(d: BallDirection, s: Surface)
    ensures
        s == Surface::TopWall ==> spec_bounce(d, s).y == Heading::Positive && spec_bounce(d, s).x == d.x,
        s == Surface::BottomWall ==> spec_bounce(d, s).y == Heading::Negative && spec_bounce(d, s).x == d.x,
        s == Surface::Racket1 ==> spec_bounce(d, s).x == Heading::Positive && spec_bounce(d, s).y == d.y,
        s == Surface::Racket2 ==> spec_bounce(d, s).x == Heading::Negative && spec_bounce(d, s).y == d.y,
{
}

/// A wall bounce and a racket bounce act on different axes, so the order in
/// which they are applied within a frame does not matter.
pub proof fn wall_and_racket_bounces_commute(d: BallDirection, wall: Surface, racket: Surface)
    requires
        wall == Surface::TopWall || wall == Surface::BottomWall,
        racket == Surface::Racket1 || racket == Surface::Racket2,
    ensures
        spec_bounce(spec_bounce(d, wall), racket) == spec_bounce(spec_bounce(d, racket), wall),
{
}

/// Every direction is the serve of exactly one pair of coin results, so each
/// of the four diagonals is served with the same chance.
pub proof fn serve_is_one_to_one(d: BallDirection)
    ensures
        exists|x_coin: bool, y_coin: bool| spec_serve(x_coin, y_coin) == d,
        forall|a1: bool, b1: bool, a2: bool, b2: bool|
            spec_serve(a1, b1) == d && spec_serve(a2, b2) == d ==> a1 == a2 && b1 == b2,
{
    let a = d.x == Heading::Positive;
    let b = d.y == Heading::Positive;
    assert(spec_serve(a, b) == d);
}


/// The ball touches a wall exactly when it is past a limit; past the top it
/// is the top wall, whatever the bottom test says.
pub proof fn wall_contact_prefers_top(past_top: bool, past_bottom: bool)
    ensures
        spec_wall_contact(past_top, past_bottom) is Some <==> past_top || past_bottom,
        past_top ==> spec_wall_contact(past_top, past_bottom) == Some(Surface::TopWall),
        !past_top && past_bottom ==> spec_wall_contact(past_top, past_bottom) == Some(
            Surface::BottomWall,
        ),
{
}

/// The first coin alone decides the horizontal sign of a serve and the
/// second coin alone the vertical one.
pub proof fn serve_coin_per_axis(x_coin: bool, y_coin: bool)
    ensures
        spec_serve(x_coin, y_coin).x == Heading::Positive <==> x_coin,
        spec_serve(x_coin, y_coin).y == Heading::Positive <==> y_coin,
{
}

} // verus!
