use tello::crc::get_crc8;
use tello::protocol::{time_of_day, Command, Flip, Packet, TimeOfDay};

#[test]
fn checksum_values() {
    assert_eq!(get_crc8(&[]), 0x77);
    assert_eq!(get_crc8(&[0xcc, 0x58, 0x00]), 0x7c);
    assert_eq!(get_crc8(&[0xcc, 0x60, 0x00]), 0x27);
}

#[test]
fn new_packet_header() {
    let p = Packet::new(Command::LogConfigMsg, 0x50, vec![1, 2]);
    assert_eq!(p.as_bytes(), &[0xcc, 0, 0, 0, 0x50, 0x52, 0x10, 0, 0, 1, 2]);
}

#[test]
fn complete_takeoff_packet() {
    let mut p = Packet::new(Command::TakeoffCmd, 0x68, vec![]);
    let c = p.complete(0x01e4);
    assert_eq!(c.as_bytes(), &[0xcc, 0x58, 0x00, 0x7c, 0x68, 0x54, 0x00, 0xe4, 0x01]);
    assert_eq!(p.as_bytes(), c.as_bytes());
}

#[test]
fn complete_sets_checksum_and_sequence() {
    let mut p = Packet::new(Command::FlipCmd, 0x70, vec![]);
    p.add_u8(Flip::FlipBackRight.value());
    let c = p.complete(0xbeef);
    let b = c.as_bytes();
    assert_eq!(b.len(), 10);
    assert_eq!(b[1], (12u8) << 3);
    assert_eq!(b[2], 0);
    assert_eq!(b[3], get_crc8(&b[0..3]));
    assert_eq!(b[7], 0xef);
    assert_eq!(b[8], 0xbe);
    assert_eq!(b[9], 6);
}

#[test]
fn complete_leaves_text_unchanged() {
    let mut p = Packet::from_str(String::from("command"));
    let c = p.complete(42);
    assert_eq!(c.as_bytes(), b"command");
    let mut q = Packet::from_bytes(&[0x01, 0xcc, 0x00]);
    assert_eq!(q.complete(7).as_bytes(), &[0x01, 0xcc, 0x00]);
    let mut e = Packet::from_bytes(&[]);
    assert_eq!(e.complete(7).as_bytes(), &[] as &[u8]);
}

#[test]
fn add_values() {
    let mut p = Packet::from_bytes(&[]);
    p.add_u8(0xab);
    p.add_u16(0x1234);
    assert_eq!(p.as_bytes(), &[0xab, 0x34, 0x12]);
}

#[test]
fn add_time_layout() {
    let mut p = Packet::from_bytes(&[]);
    p.add_time_of_day(TimeOfDay { hour: 13, minute: 5, second: 59, nanosecond: 987_654_321 });
    assert_eq!(p.as_bytes(), &[13, 0, 5, 0, 59, 0, 0xdb, 0, 0x03, 0]);
}

#[test]
fn add_time_from_clock_value() {
    let t = chrono::NaiveTime::from_hms_nano_opt(23, 59, 59, 1_500_000_000).unwrap();
    assert_eq!(
        time_of_day(&t),
        TimeOfDay { hour: 23, minute: 59, second: 59, nanosecond: 1_500_000_000 }
    );
    let mut p = Packet::new(Command::TimeCmd, 0x50, vec![]);
    p.add_time(t);
    assert_eq!(&p.as_bytes()[9..], &[23, 0, 59, 0, 59, 0, 0xdc, 0, 0x05, 0]);
}

#[test]
fn command_codes() {
    assert_eq!(Command::WifiMsg.value(), 0x001a);
    assert_eq!(Command::TakeoffCmd.value(), 0x0054);
    assert_eq!(Command::TelloCmdFileComplete.value(), 0x0064);
    assert_eq!(Command::LogDataMsg.value(), 0x1051);
}
