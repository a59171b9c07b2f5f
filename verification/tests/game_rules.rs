use pingpong::ball::{serve, serve_with, wall_contact, BallDirection, Heading, Surface};
use pingpong::racket::{command_move, Player, RacketMove, UserCommand, Vertical, REMOTE_SPEED_FACTOR};
use pingpong::rally::Rally;
use pingpong::score::{scorer, Scoreboard, Side, SCORE_LIMIT};

#[test]
fn remote_commands_move_one_racket_each() {
    assert_eq!(
        command_move(UserCommand::Up1),
        Some(RacketMove { player: Player::One, direction: Vertical::Up })
    );
    assert_eq!(
        command_move(UserCommand::Down1),
        Some(RacketMove { player: Player::One, direction: Vertical::Down })
    );
    assert_eq!(
        command_move(UserCommand::Up2),
        Some(RacketMove { player: Player::Two, direction: Vertical::Up })
    );
    assert_eq!(
        command_move(UserCommand::Down2),
        Some(RacketMove { player: Player::Two, direction: Vertical::Down })
    );
    assert_eq!(command_move(UserCommand::NoCommand), None);
}

#[test]
fn remote_moves_are_five_times_the_keyboard_step() {
    assert_eq!(REMOTE_SPEED_FACTOR, 5);
    assert_eq!(Vertical::Up.sign(), -1);
    assert_eq!(Vertical::Down.sign(), 1);
    let up = command_move(UserCommand::Up1).unwrap();
    let down = command_move(UserCommand::Down2).unwrap();
    assert_eq!(up.factor(), -5);
    assert_eq!(down.factor(), 5);
}

#[test]
fn bounces_send_the_ball_away_from_the_surface() {
    let d = BallDirection { x: Heading::Negative, y: Heading::Negative };
    assert_eq!(d.bounce(Surface::TopWall), BallDirection { x: Heading::Negative, y: Heading::Positive });
    assert_eq!(d.bounce(Surface::BottomWall), d);
    assert_eq!(d.bounce(Surface::Racket1), BallDirection { x: Heading::Positive, y: Heading::Negative });
    assert_eq!(d.bounce(Surface::Racket2), d);
    let e = BallDirection { x: Heading::Positive, y: Heading::Positive };
    assert_eq!(e.bounce(Surface::Racket2), BallDirection { x: Heading::Negative, y: Heading::Positive });
    assert_eq!(e.bounce(Surface::BottomWall), BallDirection { x: Heading::Positive, y: Heading::Negative });
}

#[test]
fn bouncing_twice_is_bouncing_once() {
    let d = BallDirection { x: Heading::Positive, y: Heading::Negative };
    for s in [Surface::TopWall, Surface::BottomWall, Surface::Racket1, Surface::Racket2] {
        assert_eq!(d.bounce(s).bounce(s), d.bounce(s));
    }
}

#[test]
fn heading_signs() {
    assert_eq!(Heading::Negative.sign(), -1);
    assert_eq!(Heading::Positive.sign(), 1);
}

#[test]
fn serve_follows_the_coins() {
    assert_eq!(serve_with(true, true), BallDirection { x: Heading::Positive, y: Heading::Positive });
    assert_eq!(serve_with(true, false), BallDirection { x: Heading::Positive, y: Heading::Negative });
    assert_eq!(serve_with(false, true), BallDirection { x: Heading::Negative, y: Heading::Positive });
    assert_eq!(serve_with(false, false), BallDirection { x: Heading::Negative, y: Heading::Negative });
}

#[test]
fn random_serves_reach_every_diagonal() {
    let mut seen = [false; 4];
    for _ in 0..2000 {
        let d = serve();
        let i = (if d.x == Heading::Positive { 2 } else { 0 }) + (if d.y == Heading::Positive { 1 } else { 0 });
        seen[i] = true;
    }
    assert_eq!(seen, [true; 4]);
}

#[test]
fn top_wall_is_checked_first() {
    assert_eq!(wall_contact(true, true), Some(Surface::TopWall));
    assert_eq!(wall_contact(true, false), Some(Surface::TopWall));
    assert_eq!(wall_contact(false, true), Some(Surface::BottomWall));
    assert_eq!(wall_contact(false, false), None);
}

#[test]
fn ball_out_credits_the_other_player() {
    assert_eq!(scorer(Side::Left), Player::Two);
    assert_eq!(scorer(Side::Right), Player::One);
    let mut board = Scoreboard::new();
    assert_eq!((board.player_1(), board.player_2()), (0, 0));
    board.ball_out(Side::Left);
    assert_eq!((board.player_1(), board.player_2()), (0, 1));
    board.ball_out(Side::Right);
    board.ball_out(Side::Right);
    assert_eq!((board.player_1(), board.player_2()), (2, 1));
    board.award(Player::Two);
    assert_eq!((board.player_1(), board.player_2()), (2, 2));
}

#[test]
fn score_stops_at_the_float_ceiling() {
    let mut board = Scoreboard::new();
    for _ in 0..(SCORE_LIMIT as u64 + 3) {
        board.award(Player::One);
    }
    assert_eq!(board.player_1(), 16777216);
    assert_eq!(board.player_2(), 0);
    // the game's own float score behaves the same way
    let mut f: f32 = 16777216.0;
    f += 1.0;
    assert_eq!(f, 16777216.0);
}

#[test]
fn rally_keeps_score_and_direction() {
    let mut rally = Rally::start();
    assert_eq!((rally.scores.player_1(), rally.scores.player_2()), (0, 0));
    rally.direction = BallDirection { x: Heading::Negative, y: Heading::Positive };
    rally.touch(Surface::Racket1);
    assert_eq!(rally.direction, BallDirection { x: Heading::Positive, y: Heading::Positive });
    assert_eq!((rally.scores.player_1(), rally.scores.player_2()), (0, 0));
    rally.ball_out_with(Side::Right, false, false);
    assert_eq!(rally.direction, BallDirection { x: Heading::Negative, y: Heading::Negative });
    assert_eq!((rally.scores.player_1(), rally.scores.player_2()), (1, 0));
    rally.ball_out(Side::Left);
    assert_eq!((rally.scores.player_1(), rally.scores.player_2()), (1, 1));
}

#[test]
fn frame_decisions_in_order() {
    let mut rally = Rally::start();
    rally.direction = BallDirection { x: Heading::Positive, y: Heading::Negative };
    // both rackets overlap: racket two decides; the top wall turns the ball down
    rally.frame(false, false, true, true, true, true);
    assert_eq!(rally.direction, BallDirection { x: Heading::Negative, y: Heading::Positive });
    assert_eq!((rally.scores.player_1(), rally.scores.player_2()), (0, 0));
    // racket one alone, bottom wall
    rally.frame(false, false, false, true, true, false);
    assert_eq!(rally.direction, BallDirection { x: Heading::Positive, y: Heading::Negative });
    // nothing touched: unchanged
    rally.frame(false, false, false, false, false, false);
    assert_eq!(rally.direction, BallDirection { x: Heading::Positive, y: Heading::Negative });
    // out on the left: player two scores, served with the coins, then racket one
    rally.frame_with(true, false, false, false, true, false, false, true);
    assert_eq!(rally.direction, BallDirection { x: Heading::Positive, y: Heading::Positive });
    assert_eq!((rally.scores.player_1(), rally.scores.player_2()), (0, 1));
    // out on both sides: one point each
    rally.frame_with(true, true, false, false, false, false, false, false);
    assert_eq!(rally.direction, BallDirection { x: Heading::Negative, y: Heading::Negative });
    assert_eq!((rally.scores.player_1(), rally.scores.player_2()), (1, 2));
    // a random serve on the right exit, then racket two
    rally.frame(false, true, false, false, false, true);
    assert_eq!(rally.direction.x, Heading::Negative);
    assert_eq!((rally.scores.player_1(), rally.scores.player_2()), (2, 2));
}
