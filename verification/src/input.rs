//! The controller side: keyboard input becomes a command, and a command
//! becomes the bytes sent to the game.
use vstd::prelude::*;

verus! {

/// A command of the controller.
#[derive(Clone, Copy, Debug, PartialEq, Eq, Structural)]
pub enum Command {
    Up,
    Down,
    Get,
}

/// A key as far as the controller tells keys apart.
#[derive(Clone, Copy, Debug, PartialEq, Eq, Structural)]
pub enum Key {
    Up,
    Down,
    Other,
}

/// A terminal event: a key press, or any other event (mouse, resize, ...).
#[derive(Clone, Copy, Debug, PartialEq, Eq, Structural)]
pub enum InputEvent {
    Key(Key),
    Other,
}

/// The command for what the terminal reported in one poll: `None` when no
/// event was waiting.
pub open spec fn spec_command_for(event: Option<InputEvent>) -> Command {
    match event {
        Some(InputEvent::Key(Key::Up)) => Command::Up,
        Some(InputEvent::Key(Key::Down)) => Command::Down,
        _ => Command::Get,
    }
}

/// Decides the command for one poll of the terminal: the arrow keys ask to
/// move, and anything else, or nothing at all, asks for the game state.
pub fn command_for_input(event: Option<InputEvent>) -> (c: Command)
    ensures
        c == spec_command_for(event),
{
    match event {
        Some(InputEvent::Key(Key::Up)) => Command::Up,
        Some(InputEvent::Key(Key::Down)) => Command::Down,
        _ => Command::Get,
    }
}

/// The name of a command, as written on the wire.
pub open spec fn spec_command_name(c: Command) -> Seq<char> {
    match c {
        Command::Up => seq!['U', 'p'],
        Command::Down => seq!['D', 'o', 'w', 'n'],
        Command::Get => seq!['G', 'e', 't'],
    }
}

/// The bytes of an ASCII text.
pub open spec fn ascii_bytes(s: Seq<char>) -> Seq<u8> {
    s.map_values(|c: char| c as u8)
}

/// The bytes sent for a command: its name as a JSON string, in double
/// quotes.
pub open spec fn wire_bytes(c: Command) -> Seq<u8> {
    seq![34u8] + ascii_bytes(spec_command_name(c)) + seq![34u8]
}

/// A text that JSON writes without escapes: no control character, no double
/// quote and no backslash.
pub open spec fn needs_no_escape(s: Seq<char>) -> bool {
    forall|i: int| 0 <= i < s.len() ==> ' ' <= #[trigger] s[i] && s[i] != '"' && s[i] != '\\'
}

#[verifier::external_type_specification]
#[verifier::external_body]
pub struct ExJsonError(serde_json::Error);

/// Serialises a string with `serde_json::to_vec`. serde_json writes a string
/// as a double quote, the string's bytes with the characters below U+0020,
/// the double quote and the backslash escaped, and a closing double quote;
/// writing into a vector cannot fail. Only strings that need no escape are
/// admitted, and for them the result is stated exactly.
#[verifier::external_body]
fn json_string(s: &str) -> (r: Result<Vec<u8>, serde_json::Error>)
    requires
        needs_no_escape(s@),
    ensures
        r is Ok,
        r is Ok ==> r->Ok_0@ == seq![34u8] + vstd::utf8::encode_utf8(s@) + seq![34u8],
{
    serde_json::to_vec(s)
}

/// The name of a command.
pub fn command_name(c: Command) -> (s: &'static str)
    ensures
        s@ == spec_command_name(c),
{
    match c {
        Command::Up => {
            proof { reveal_strlit("Up"); }
            "Up"
        },
        Command::Down => {
            proof { reveal_strlit("Down"); }
            "Down"
        },
        Command::Get => {
            proof { reveal_strlit("Get"); }
            "Get"
        },
    }
}

/// Encodes a command for the wire, as serde_json writes the command: a JSON
/// string holding its name.
pub fn encode_command(c: Command) -> (bytes: Vec<u8>)
    ensures
        bytes@ == wire_bytes(c),
{
    let name = command_name(c);
    assert(needs_no_escape(name@));
    proof {
        vstd::utf8::is_ascii_chars_encode_utf8(name@);
        assert(vstd::utf8::encode_utf8(name@) =~= ascii_bytes(spec_command_name(c)));
    }
    json_string(name).unwrap()
}

/// Different commands are sent as different bytes, so the receiver can
/// always tell them apart.
pub proof fn wire_bytes_one_to_one(a: Command, b: Command)
    requires
        wire_bytes(a) == wire_bytes(b),
    ensures
        a == b,
{
    assert(wire_bytes(a)[1] == spec_command_name(a)[0] as u8);
    assert(wire_bytes(b)[1] == spec_command_name(b)[0] as u8);
}


/// Only the arrow keys ask to move: up gives `Up`, down gives `Down`, and any
/// other key, any other event, or no event asks for the game state.
pub proof fn only_arrow_keys_move(event: Option<InputEvent>)
    ensures
        spec_command_for(event) == Command::Up <==> event == Some(InputEvent::Key(Key::Up)),
        spec_command_for(event) == Command::Down <==> event == Some(InputEvent::Key(Key::Down)),
{
}

/// A command is sent as its name between two double quotes, one byte per
/// letter.
pub proof fn wire_bytes_frame_the_name(c: Command)
    ensures
        wire_bytes(c).len() == spec_command_name(c).len() + 2,
        wire_bytes(c)[0] == 34u8,
        wire_bytes(c)[wire_bytes(c).len() - 1] == 34u8,
        forall|i: int|
            0 <= i < spec_command_name(c).len() ==> wire_bytes(c)[i + 1] == #[trigger] spec_command_name(c)[i] as u8,
{
}

} // verus!
