//! Rules of a two-player ping-pong game played over the network: what a
//! remote command does to the rackets, how the ball changes direction, how
//! points are kept and shown, how keyboard input becomes a command, and how
//! commands and received text travel on the wire.
pub mod racket;
pub mod ball;
pub mod score;
pub mod score_text;
pub mod input;
pub mod receive;
pub mod rally;
