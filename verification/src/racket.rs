//! Remote commands and the racket movement they ask for.
use vstd::prelude::*;

verus! {

/// A command sent by a remote controller to the game.
#[derive(Clone, Copy, Debug, PartialEq, Eq, Structural)]
pub enum UserCommand {
    Up1,
    Down1,
    Up2,
    Down2,
    NoCommand,
}

/// One of the two players; player one holds the left racket.
#[derive(Clone, Copy, Debug, PartialEq, Eq, Structural)]
pub enum Player {
    One,
    Two,
}

/// A vertical direction on the screen, where y grows downwards.
#[derive(Clone, Copy, Debug, PartialEq, Eq, Structural)]
pub enum Vertical {
    Up,
    Down,
}

/// How many times the racket speed a remote command moves a racket by,
/// compared with a key held on the game's own keyboard.
pub const REMOTE_SPEED_FACTOR: i8 = 5;

impl Vertical {
    /// The sign of the y displacement: up is towards smaller y.
    pub open spec fn spec_sign(self) -> int {
        match self {
            Vertical::Up => -1,
            Vertical::Down => 1,
        }
    }

    /// The sign of the y displacement that this direction asks for.
    pub fn sign(self) -> (s: i8)
        ensures
            s == self.spec_sign(),
    {
        match self {
            Vertical::Up => -1,
            Vertical::Down => 1,
        }
    }
}

/// A displacement of one racket asked for by a remote command.
#[derive(Clone, Copy, Debug, PartialEq, Eq, Structural)]
pub struct RacketMove {
    pub player: Player,
    pub direction: Vertical,
}

impl RacketMove {
    /// The displacement, as a signed multiple of the racket speed times the
    /// frame time.
    pub fn factor(self) -> (f: i8)
        ensures
            f == REMOTE_SPEED_FACTOR * self.direction.spec_sign(),
    {
        match self.direction {
            Vertical::Up => -REMOTE_SPEED_FACTOR,
            Vertical::Down => REMOTE_SPEED_FACTOR,
        }
    }
}

/// The racket movement that a command asks for, if any.
pub open spec fn spec_command_move(cmd: UserCommand) -> Option<RacketMove> {
    match cmd {
        UserCommand::Up1 => Some(RacketMove { player: Player::One, direction: Vertical::Up }),
        UserCommand::Down1 => Some(RacketMove { player: Player::One, direction: Vertical::Down }),
        UserCommand::Up2 => Some(RacketMove { player: Player::Two, direction: Vertical::Up }),
        UserCommand::Down2 => Some(RacketMove { player: Player::Two, direction: Vertical::Down }),
        UserCommand::NoCommand => Option::None,
    }
}

/// Decides which racket a remote command moves and which way; the empty
/// command moves nothing.
pub fn command_move(cmd: UserCommand) -> (m: Option<RacketMove>)
    ensures
        m == spec_command_move(cmd),
{
    match cmd {
        UserCommand::Up1 => Some(RacketMove { player: Player::One, direction: Vertical::Up }),
        UserCommand::Down1 => Some(RacketMove { player: Player::One, direction: Vertical::Down }),
        UserCommand::Up2 => Some(RacketMove { player: Player::Two, direction: Vertical::Up }),
        UserCommand::Down2 => Some(RacketMove { player: Player::Two, direction: Vertical::Down }),
        UserCommand::NoCommand => Option::None,
    }
}


/// A command moves a racket exactly when it is not the empty command; the
/// number in its name is the player whose racket moves, and an `Up` command
/// moves towards smaller y, a `Down` command towards larger y.
pub proof fn commands_move_as_named(cmd: UserCommand)
    ensures
        spec_command_move(cmd) is Some <==> cmd != UserCommand::NoCommand,
        cmd == UserCommand::Up1 || cmd == UserCommand::Down1 ==> spec_command_move(cmd)->Some_0.player
            == Player::One,
        cmd == UserCommand::Up2 || cmd == UserCommand::Down2 ==> spec_command_move(cmd)->Some_0.player
            == Player::Two,
        cmd == UserCommand::Up1 || cmd == UserCommand::Up2 ==> spec_command_move(
            cmd,
        )->Some_0.direction.spec_sign() == -1,
        cmd == UserCommand::Down1 || cmd == UserCommand::Down2 ==> spec_command_move(
            cmd,
        )->Some_0.direction.spec_sign() == 1,
{
}

} // verus!
