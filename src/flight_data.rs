use vstd::prelude::*;

use crate::utils::{as_i16, as_u16, le_u16};

verus! {

/// Number of bytes that a flight-data message must hold at least.
pub const FLIGHT_DATA_LEN: usize = 24;

/// Extended flight data decoded from the vehicle's binary telemetry message.
#[derive(Clone, Copy, Debug, PartialEq, Eq)]
pub struct FlightData {
    pub battery_low: u8,
    pub battery_lower: u8,
    pub battery_percentage: u8,
    pub battery_state: u8,
    pub camera_state: u8,
    pub down_visual_state: u8,
    pub drone_battery_left: u16,
    pub drone_fly_time_left: u16,
    pub drone_hover: u8,
    pub em_open: u8,
    pub em_sky: u8,
    pub em_ground: u8,
    pub east_speed: i16,
    pub electrical_machinery_state: u8,
    pub factory_mode: u8,
    pub fly_mode: u8,
    pub fly_speed: u8,
    pub fly_time: u16,
    pub front_in: u8,
    pub front_lsc: u8,
    pub front_out: u8,
    pub gravity_state: u8,
    pub ground_speed: i16,
    pub height: u16,
    pub imu_calibration_state: u8,
    pub imu_state: u8,
    pub light_strength: u8,
    pub north_speed: i16,
    pub outage_recording: u8,
    pub power_state: u8,
    pub pressure_state: u8,
    pub smart_video_exit_mode: u8,
    pub temperature_height: u8,
    pub throw_fly_timer: u8,
    pub wifi_disturb: u8,
    pub wifi_strength: u8,
    pub wind_state: u8,
}

/// Why a flight-data message could not be decoded.
#[derive(Clone, Copy, Debug, PartialEq, Eq, Structural)]
pub enum Error {
    NotEnoughData,
}

/// Bit `k` of `b`, as 0 or 1.
pub open spec fn bit(b: u8, k: u8) -> u8 {
    (b >> k) & 1u8
}

/// The little-endian `u16` stored at `b[i]`, `b[i + 1]`.
pub open spec fn u16_at(b: Seq<u8>, i: int) -> u16 {
    le_u16(b[i], b[i + 1])
}

/// The little-endian `i16` stored at `b[i]`, `b[i + 1]`.
pub open spec fn i16_at(b: Seq<u8>, i: int) -> i16 {
    le_u16(b[i], b[i + 1]) as i16
}

/// The flight data that a message of at least 24 bytes encodes.
pub open spec fn flight_data_of(b: Seq<u8>) -> FlightData {
    FlightData {
        height: u16_at(b, 0),
        north_speed: i16_at(b, 2),
        east_speed: i16_at(b, 4),
        ground_speed: i16_at(b, 6),
        fly_time: u16_at(b, 8),
        imu_state: bit(b[10], 0),
        pressure_state: bit(b[10], 1),
        down_visual_state: bit(b[10], 2),
        power_state: bit(b[10], 3),
        battery_state: bit(b[10], 4),
        gravity_state: bit(b[10], 5),
        wind_state: bit(b[10], 7),
        imu_calibration_state: b[11],
        battery_percentage: b[12],
        drone_battery_left: u16_at(b, 13),
        drone_fly_time_left: u16_at(b, 15),
        em_sky: bit(b[17], 0),
        em_ground: bit(b[17], 1),
        em_open: bit(b[17], 2),
        drone_hover: bit(b[17], 3),
        outage_recording: bit(b[17], 4),
        battery_low: bit(b[17], 5),
        battery_lower: bit(b[17], 6),
        factory_mode: bit(b[17], 7),
        fly_mode: b[18],
        throw_fly_timer: b[19],
        camera_state: b[20],
        electrical_machinery_state: b[21],
        front_in: bit(b[22], 0),
        front_out: bit(b[22], 1),
        front_lsc: bit(b[22], 2),
        temperature_height: bit(b[23], 0),
        fly_speed: 0,
        light_strength: 0,
        smart_video_exit_mode: 0,
        wifi_disturb: 0,
        wifi_strength: 0,
    }
}

/// The low byte of `v`.
pub open spec fn lo_byte(v: u16) -> u8 {
    (v & 0xffu16) as u8
}

/// The high byte of `v`.
pub open spec fn hi_byte(v: u16) -> u8 {
    (v >> 8u16) as u8
}

/// `b` with `v` written little-endian at `b[i]`, `b[i + 1]`.
pub open spec fn put_u16(b: Seq<u8>, i: int, v: u16) -> Seq<u8> {
    b.update(i, lo_byte(v)).update(i + 1, hi_byte(v))
}

/// `b` with the numeric fields of `d` written back at the positions they are read from.
pub open spec fn write_numeric(d: FlightData, b: Seq<u8>) -> Seq<u8> {
    let b = put_u16(b, 0, d.height);
    let b = put_u16(b, 2, d.north_speed as u16);
    let b = put_u16(b, 4, d.east_speed as u16);
    let b = put_u16(b, 6, d.ground_speed as u16);
    let b = put_u16(b, 8, d.fly_time);
    let b = b.update(11, d.imu_calibration_state);
    let b = b.update(12, d.battery_percentage);
    let b = put_u16(b, 13, d.drone_battery_left);
    let b = put_u16(b, 15, d.drone_fly_time_left);
    let b = b.update(18, d.fly_mode);
    let b = b.update(19, d.throw_fly_timer);
    let b = b.update(20, d.camera_state);
    b.update(21, d.electrical_machinery_state)
}

proof fn lemma_u16_bytes(lo: u8, hi: u8)
    ensures
        lo_byte(le_u16(lo, hi)) == lo,
        hi_byte(le_u16(lo, hi)) == hi,
        lo_byte((le_u16(lo, hi) as i16) as u16) == lo,
        hi_byte((le_u16(lo, hi) as i16) as u16) == hi,
{
    assert(((lo as u16 | ((hi as u16) << 8u16)) & 0xffu16) as u8 == lo) by (bit_vector);
    assert(((lo as u16 | ((hi as u16) << 8u16)) >> 8u16) as u8 == hi) by (bit_vector);
    let v = le_u16(lo, hi);
    assert((v as i16) as u16 == v) by (bit_vector);
}

proof fn lemma_put_u16_same(b: Seq<u8>, i: int)
    requires
        0 <= i,
        i + 1 < b.len(),
    ensures
        put_u16(b, i, u16_at(b, i)) == b,
        put_u16(b, i, i16_at(b, i) as u16) == b,
{
    lemma_u16_bytes(b[i], b[i + 1]);
    assert(put_u16(b, i, u16_at(b, i)) =~= b);
    assert(put_u16(b, i, i16_at(b, i) as u16) =~= b);
}

/// Decoding a message and writing its numeric fields back at the positions they were
/// read from gives the message unchanged.
pub proof fn lemma_numeric_round_trip(b: Seq<u8>)
    requires
        b.len() >= 24,
    ensures
        write_numeric(flight_data_of(b), b) == b,
{
    let d = flight_data_of(b);
    lemma_put_u16_same(b, 0);
    lemma_put_u16_same(b, 2);
    lemma_put_u16_same(b, 4);
    lemma_put_u16_same(b, 6);
    lemma_put_u16_same(b, 8);
    lemma_put_u16_same(b, 13);
    lemma_put_u16_same(b, 15);
    assert(b.update(11, b[11]) =~= b);
    assert(b.update(12, b[12]) =~= b);
    assert(b.update(18, b[18]) =~= b);
    assert(b.update(19, b[19]) =~= b);
    assert(b.update(20, b[20]) =~= b);
    assert(b.update(21, b[21]) =~= b);
}

fn bit_of(b: u8, k: u8) -> (r: u8)
    requires
        k < 8,
    ensures
        r == bit(b, k),
        r <= 1,
{
    let r = (b >> k) & 1u8;
    assert(r <= 1) by (bit_vector)
        requires r == (b >> k) & 1u8;
    r
}

fn u16_from(buffer: &Vec<u8>, i: usize) -> (r: u16)
    requires
        i < FLIGHT_DATA_LEN,
        i + 1 < buffer@.len(),
    ensures
        r == u16_at(buffer@, i as int),
{
    as_u16(&buffer.as_slice()[i..i + 2])
}

fn i16_from(buffer: &Vec<u8>, i: usize) -> (r: i16)
    requires
        i < FLIGHT_DATA_LEN,
        i + 1 < buffer@.len(),
    ensures
        r == i16_at(buffer@, i as int),
{
    as_i16(&buffer.as_slice()[i..i + 2])
}

impl FlightData {
    /// Decodes the binary flight-data message in `buffer`.
    pub fn from_buffer(buffer: Vec<u8>) -> (r: Result<FlightData, Error>)
        ensures
            buffer@.len() < FLIGHT_DATA_LEN ==> r == Err::<FlightData, Error>(Error::NotEnoughData),
            buffer@.len() >= FLIGHT_DATA_LEN ==> r == Ok::<FlightData, Error>(flight_data_of(buffer@)),
    {
        if buffer.len() < FLIGHT_DATA_LEN {
            return Err(Error::NotEnoughData);
        }
        let height = u16_from(&buffer, 0);
        let north_speed = i16_from(&buffer, 2);
        let east_speed = i16_from(&buffer, 4);
        let ground_speed = i16_from(&buffer, 6);
        let fly_time = u16_from(&buffer, 8);

        let imu_state = bit_of(buffer[10], 0);
        let pressure_state = bit_of(buffer[10], 1);
        let down_visual_state = bit_of(buffer[10], 2);
        let power_state = bit_of(buffer[10], 3);
        let battery_state = bit_of(buffer[10], 4);
        let gravity_state = bit_of(buffer[10], 5);
        let wind_state = bit_of(buffer[10], 7);

        let imu_calibration_state = buffer[11];
        let battery_percentage = buffer[12];
        let drone_battery_left = u16_from(&buffer, 13);
        let drone_fly_time_left = u16_from(&buffer, 15);

        let em_sky = bit_of(buffer[17], 0);
        let em_ground = bit_of(buffer[17], 1);
        let em_open = bit_of(buffer[17], 2);
        let drone_hover = bit_of(buffer[17], 3);
        let outage_recording = bit_of(buffer[17], 4);
        let battery_low = bit_of(buffer[17], 5);
        let battery_lower = bit_of(buffer[17], 6);
        let factory_mode = bit_of(buffer[17], 7);

        let fly_mode = buffer[18];
        let throw_fly_timer = buffer[19];
        let camera_state = buffer[20];
        let electrical_machinery_state = buffer[21];

        let front_in = bit_of(buffer[22], 0);
        let front_out = bit_of(buffer[22], 1);
        let front_lsc = bit_of(buffer[22], 2);

        let temperature_height = bit_of(buffer[23], 0);

        Ok(FlightData {
            battery_low,
            battery_lower,
            battery_percentage,
            battery_state,
            camera_state,
            down_visual_state,
            drone_battery_left,
            drone_fly_time_left,
            drone_hover,
            em_open,
            em_sky,
            em_ground,
            east_speed,
            electrical_machinery_state,
            factory_mode,
            fly_mode,
            fly_speed: 0,
            fly_time,
            front_in,
            front_lsc,
            front_out,
            gravity_state,
            ground_speed,
            height,
            imu_calibration_state,
            imu_state,
            light_strength: 0,
            north_speed,
            outage_recording,
            power_state,
            pressure_state,
            smart_video_exit_mode: 0,
            temperature_height,
            throw_fly_timer,
            wifi_disturb: 0,
            wifi_strength: 0,
            wind_state,
        })
    }
}

} // verus!
