use pingpong::input::{command_for_input, command_name, encode_command, Command, InputEvent, Key};
use pingpong::receive::{decode_received, ReceiveError, RECEIVE_BUFFER_SIZE};
use pingpong::score::{Scoreboard, Side};
use pingpong::score_text::{decimal_string, score_text};

#[test]
fn decimal_writing() {
    assert_eq!(decimal_string(0), "0");
    assert_eq!(decimal_string(7), "7");
    assert_eq!(decimal_string(10), "10");
    assert_eq!(decimal_string(305), "305");
    assert_eq!(decimal_string(16777216), "16777216");
    assert_eq!(decimal_string(u32::MAX), "4294967295");
}

#[test]
fn decimal_matches_float_display_of_scores() {
    for n in [0u32, 1, 9, 10, 99, 12345, 16777216] {
        assert_eq!(decimal_string(n), format!("{}", n as f32));
    }
}

#[test]
fn score_line_layout() {
    let mut board = Scoreboard::new();
    assert_eq!(score_text(&board), "0         0");
    for _ in 0..12 {
        board.ball_out(Side::Left);
    }
    for _ in 0..3 {
        board.ball_out(Side::Right);
    }
    assert_eq!(score_text(&board), "3         12");
    assert_eq!(score_text(&board), format!("{}         {}", 3.0f32, 12.0f32));
}

#[test]
fn keys_become_commands() {
    assert_eq!(command_for_input(Some(InputEvent::Key(Key::Up))), Command::Up);
    assert_eq!(command_for_input(Some(InputEvent::Key(Key::Down))), Command::Down);
    assert_eq!(command_for_input(Some(InputEvent::Key(Key::Other))), Command::Get);
    assert_eq!(command_for_input(Some(InputEvent::Other)), Command::Get);
    assert_eq!(command_for_input(None), Command::Get);
}

#[test]
fn commands_on_the_wire() {
    assert_eq!(command_name(Command::Up), "Up");
    assert_eq!(command_name(Command::Down), "Down");
    assert_eq!(command_name(Command::Get), "Get");
    assert_eq!(encode_command(Command::Up), b"\"Up\"".to_vec());
    assert_eq!(encode_command(Command::Down), b"\"Down\"".to_vec());
    assert_eq!(encode_command(Command::Get), b"\"Get\"".to_vec());
    assert_eq!(encode_command(Command::Down), serde_json::to_vec("Down").unwrap());
}

#[test]
fn received_text_is_decoded() {
    assert_eq!(RECEIVE_BUFFER_SIZE, 1024);
    assert_eq!(decode_received(b"\"Up1\""), Ok("\"Up1\"".to_string()));
    assert_eq!(decode_received(b""), Ok(String::new()));
    assert_eq!(decode_received("héllo".as_bytes()), Ok("héllo".to_string()));
}

#[test]
fn invalid_utf8_is_refused() {
    assert_eq!(decode_received(&[0x66, 0xff, 0x67]), Err(ReceiveError::InvalidUtf8));
    assert_eq!(decode_received(&[0xc3]), Err(ReceiveError::InvalidUtf8));
    assert_eq!(decode_received(&[0xed, 0xa0, 0x80]), Err(ReceiveError::InvalidUtf8));
    assert_eq!(ReceiveError::InvalidUtf8.message(), "Invalid UTF-8 sequence");
}
