use tello::flight_data::{Error, FlightData};
use tello::utils::{as_i16, as_u16};

fn sample() -> Vec<u8> {
    vec![
        0x34, 0x12, // height
        0xff, 0xff, // north speed
        0x05, 0x00, // east speed
        0x00, 0x80, // ground speed
        0x10, 0x27, // fly time
        0b1011_0101, // imu, pressure, ...
        0x42, // imu calibration
        87,   // battery percentage
        0x01, 0x02, // battery left
        0x03, 0x04, // fly time left
        0b0110_1001, // em flags
        6,    // fly mode
        7,    // throw fly timer
        8,    // camera
        9,    // electrical machinery
        0b0000_0110, // front flags
        0b0000_0001, // temperature height
    ]
}

#[test]
fn decodes_fields() {
    let d = FlightData::from_buffer(sample()).unwrap();
    assert_eq!(d.height, 0x1234);
    assert_eq!(d.north_speed, -1);
    assert_eq!(d.east_speed, 5);
    assert_eq!(d.ground_speed, i16::MIN);
    assert_eq!(d.fly_time, 10000);
    assert_eq!(d.imu_state, 1);
    assert_eq!(d.pressure_state, 0);
    assert_eq!(d.down_visual_state, 1);
    assert_eq!(d.power_state, 0);
    assert_eq!(d.battery_state, 1);
    assert_eq!(d.gravity_state, 1);
    assert_eq!(d.wind_state, 1);
    assert_eq!(d.imu_calibration_state, 0x42);
    assert_eq!(d.battery_percentage, 87);
    assert_eq!(d.drone_battery_left, 0x0201);
    assert_eq!(d.drone_fly_time_left, 0x0403);
    assert_eq!(d.em_sky, 1);
    assert_eq!(d.em_ground, 0);
    assert_eq!(d.em_open, 0);
    assert_eq!(d.drone_hover, 1);
    assert_eq!(d.outage_recording, 0);
    assert_eq!(d.battery_low, 1);
    assert_eq!(d.battery_lower, 1);
    assert_eq!(d.factory_mode, 0);
    assert_eq!(d.fly_mode, 6);
    assert_eq!(d.throw_fly_timer, 7);
    assert_eq!(d.camera_state, 8);
    assert_eq!(d.electrical_machinery_state, 9);
    assert_eq!(d.front_in, 0);
    assert_eq!(d.front_out, 1);
    assert_eq!(d.front_lsc, 1);
    assert_eq!(d.temperature_height, 1);
    assert_eq!(d.fly_speed, 0);
    assert_eq!(d.wifi_strength, 0);
}

fn put(b: &mut [u8], i: usize, v: u16) {
    b[i] = (v & 0xff) as u8;
    b[i + 1] = (v >> 8) as u8;
}

#[test]
fn numeric_fields_round_trip() {
    let original = sample();
    let d = FlightData::from_buffer(original.clone()).unwrap();
    let mut b = vec![0u8; 24];
    b[10] = original[10];
    b[17] = original[17];
    b[22] = original[22];
    b[23] = original[23];
    put(&mut b, 0, d.height);
    put(&mut b, 2, d.north_speed as u16);
    put(&mut b, 4, d.east_speed as u16);
    put(&mut b, 6, d.ground_speed as u16);
    put(&mut b, 8, d.fly_time);
    b[11] = d.imu_calibration_state;
    b[12] = d.battery_percentage;
    put(&mut b, 13, d.drone_battery_left);
    put(&mut b, 15, d.drone_fly_time_left);
    b[18] = d.fly_mode;
    b[19] = d.throw_fly_timer;
    b[20] = d.camera_state;
    b[21] = d.electrical_machinery_state;
    assert_eq!(b, original);
}

#[test]
fn short_buffer_is_rejected() {
    for n in 0..24usize {
        assert!(matches!(FlightData::from_buffer(vec![0xff; n]), Err(Error::NotEnoughData)));
    }
    assert!(FlightData::from_buffer(vec![0; 24]).is_ok());
    assert!(FlightData::from_buffer(vec![0; 100]).is_ok());
}

#[test]
fn little_endian_reads() {
    assert_eq!(as_u16(&[0x01, 0x02]), 0x0201);
    assert_eq!(as_u16(&[0xff, 0xff, 0x00]), 0xffff);
    assert_eq!(as_i16(&[0xfe, 0xff]), -2);
    assert_eq!(as_i16(&[0x00, 0x80]), i16::MIN);
    assert_eq!(as_i16(&[0xff, 0x7f]), i16::MAX);
}
