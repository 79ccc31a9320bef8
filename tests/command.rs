use tello::channel::{ack_step, is_ack, AckStep, TelloError, ACK_POLL_MS, ACK_TIMEOUT_MS};
use tello::command::{Flip, TextCommand};
use tello::connection::{next_state, Connection, ConnectionState, Event};

fn text(c: TextCommand) -> String {
    String::from_utf8(c.text()).unwrap()
}

#[test]
fn command_texts() {
    assert_eq!(text(TextCommand::Command), "command");
    assert_eq!(text(TextCommand::TakeOff), "takeoff");
    assert_eq!(text(TextCommand::StreamOff), "streamoff");
    assert_eq!(text(TextCommand::Up(0)), "up 0");
    assert_eq!(text(TextCommand::Ccw(3600)), "ccw 3600");
    assert_eq!(text(TextCommand::Back(65535)), "back 65535");
    assert_eq!(text(TextCommand::Flip(Flip::Backward)), "flip b");
    assert_eq!(text(TextCommand::Go(10, 20, 300, 55)), "go 10 20 300 55");
    assert_eq!(text(TextCommand::Curve(1, 2, 3, 4, 5, 6, 7)), "curve 1 2 3 4 5 6 7");
    assert_eq!(text(TextCommand::Rc(-128, 0, 127, -5)), "rc -128 0 127 -5");
    assert_eq!(text(TextCommand::Speed(100)), "speed 100");
    assert_eq!(text(TextCommand::Wifi(b"net".to_vec(), b"pw".to_vec())), "wifi net pw");
}

#[test]
fn acknowledged_commands() {
    assert!(!TextCommand::TakeOff.requires_ack());
    assert!(!TextCommand::Land.requires_ack());
    assert!(!TextCommand::Rc(1, 2, 3, 4).requires_ack());
    assert!(TextCommand::Command.requires_ack());
    assert!(TextCommand::Up(20).requires_ack());
    assert_eq!(Flip::Left.value(), 'l');
}

#[test]
fn unacknowledged_command_succeeds_at_once() {
    assert!(matches!(ack_step(7, false, false, 0), AckStep::Done(7)));
    assert!(matches!(ack_step(7, false, true, 99_999), AckStep::Done(7)));
}

#[test]
fn missing_ack_times_out() {
    assert!(matches!(ack_step(4, true, false, 0), AckStep::Wait(ms) if ms == ACK_POLL_MS));
    assert!(matches!(ack_step(4, true, false, ACK_TIMEOUT_MS - 1), AckStep::Wait(_)));
    assert!(matches!(ack_step(4, true, false, ACK_TIMEOUT_MS), AckStep::Fail(TelloError::AckNotReceived)));
    assert!(matches!(ack_step(4, true, true, 120), AckStep::Acknowledged(4)));
    assert_eq!(ACK_TIMEOUT_MS, 10_000);
}

#[test]
fn ack_reply() {
    assert!(is_ack(b"ok"));
    assert!(!is_ack(b"error"));
    assert!(!is_ack(b"o"));
    assert!(!is_ack(b""));
}

#[test]
fn state_transitions() {
    assert_eq!(next_state(ConnectionState::Disconnected, Event::ConnectionRequest), ConnectionState::Connecting);
    assert_eq!(next_state(ConnectionState::Connecting, Event::ConnectionAcknowledge), ConnectionState::Connected);
    assert_eq!(next_state(ConnectionState::Connected, Event::Timeout), ConnectionState::Disconnected);
    assert_eq!(next_state(ConnectionState::Connected, Event::Disconnected), ConnectionState::Disconnected);
    assert_eq!(next_state(ConnectionState::Connecting, Event::QuitRequest), ConnectionState::Quit);
    assert_eq!(next_state(ConnectionState::Quit, Event::ConnectionRequest), ConnectionState::Quit);
    assert_eq!(next_state(ConnectionState::Disconnected, Event::Timeout), ConnectionState::Disconnected);
    assert!(ConnectionState::Disconnected < ConnectionState::Quit);
}

#[test]
fn connection_session() {
    let mut c = Connection::new();
    assert_eq!(c.sequence_number(), 0x01e4);
    assert!(!c.sends_keep_alive());
    c.state_machine(Event::ConnectionRequest);
    c.state_machine(Event::ConnectionAcknowledge);
    assert_eq!(c.state(), ConnectionState::Connected);
    assert!(c.sends_keep_alive());
    c.state_machine(Event::QuitRequest);
    assert_eq!(c.state(), ConnectionState::Quit);
}
