use tello::telemetry::{decode_telemetry, parse_fields, parse_int, split_bytes};

const LINE: &str = "roll:1;pitch:2;yaw:3;vgx:4;vgy:5;vgz:6;templ:7;temph:8;tof:9;h:10;bat:11;baro:1.5;time:12;agx:1.1;agy:1.2;agz:1.3;";

#[test]
fn decodes_every_field() {
    let t = decode_telemetry(LINE.as_bytes()).unwrap();
    assert_eq!(t.roll, 1);
    assert_eq!(t.pitch, 2);
    assert_eq!(t.yaw, 3);
    assert_eq!(t.ground_velocity_x, 4);
    assert_eq!(t.ground_velocity_y, 5);
    assert_eq!(t.ground_velocity_z, 6);
    assert_eq!(t.temperature_minimum, 7);
    assert_eq!(t.temperature_maximum, 8);
    assert_eq!(t.tof_value, 9);
    assert_eq!(t.height, 10);
    assert_eq!(t.battery_percentage, 11);
    assert_eq!(t.barometer_height, b"1.5".to_vec());
    assert_eq!(t.time, 12);
    assert_eq!(t.ground_acceleration_x, b"1.1".to_vec());
    assert_eq!(t.ground_acceleration_y, b"1.2".to_vec());
    assert_eq!(t.ground_acceleration_z, b"1.3".to_vec());
    assert_eq!(t.barometer_height.iter().map(|b| *b as char).collect::<String>().parse::<f32>().unwrap(), 1.5f32);
}

#[test]
fn missing_field_rejects_message() {
    let line = LINE.replace("tof:9;", "");
    assert!(decode_telemetry(line.as_bytes()).is_none());
    assert!(decode_telemetry(b"").is_none());
}

#[test]
fn bad_number_rejects_message() {
    let line = LINE.replace("roll:1;", "roll:x1;");
    assert!(decode_telemetry(line.as_bytes()).is_none());
    let line = LINE.replace("bat:11;", "bat:256;");
    assert!(decode_telemetry(line.as_bytes()).is_none());
    let line = LINE.replace("bat:11;", "bat:-1;");
    assert!(decode_telemetry(line.as_bytes()).is_none());
}

#[test]
fn negative_and_repeated_fields() {
    let line = format!("{}yaw:-45;roll:+7;", LINE);
    let t = decode_telemetry(line.as_bytes()).unwrap();
    assert_eq!(t.yaw, -45);
    assert_eq!(t.roll, 7);
}

#[test]
fn short_pieces_are_skipped() {
    let fs = parse_fields(b"a;x:1;;bc;k:v:w;:");
    assert_eq!(fs.len(), 2);
    assert_eq!(fs[0].key, b"x".to_vec());
    assert_eq!(fs[0].value, b"1".to_vec());
    assert_eq!(fs[1].key, b"k".to_vec());
    assert_eq!(fs[1].value, b"v".to_vec());
}

#[test]
fn split_pieces() {
    let parts = split_bytes(b"a;;b;", b';');
    assert_eq!(parts, vec![b"a".to_vec(), vec![], b"b".to_vec(), vec![]]);
    assert_eq!(split_bytes(b"", b';'), vec![Vec::<u8>::new()]);
}

#[test]
fn integer_parsing() {
    assert_eq!(parse_int(b"32767", true, -32768, 32767), Some(32767));
    assert_eq!(parse_int(b"-32768", true, -32768, 32767), Some(-32768));
    assert_eq!(parse_int(b"32768", true, -32768, 32767), None);
    assert_eq!(parse_int(b"99999999999999999999", false, 0, 65535), None);
    assert_eq!(parse_int(b"-0", false, 0, 255), None);
    assert_eq!(parse_int(b"+", true, -10, 10), None);
    assert_eq!(parse_int(b"", true, -10, 10), None);
    assert_eq!(parse_int(b"007", false, 0, 255), Some(7));
    assert_eq!(parse_int(b"1.5", true, -10, 10), None);
}
