use vstd::prelude::*;

use crate::crc::{crc8, get_crc8};
use vstd::utf8::encode_utf8;

use chrono::Timelike;

verus! {

/// First byte of every binary packet.
pub const PACKET_START: u8 = 0xcc;

/// Number of bytes in the header of a binary packet.
pub const HEADER_LEN: usize = 9;

/// Identifiers of the commands of the binary protocol.
#[derive(Clone, Copy, Debug, PartialEq, Eq, Structural)]
pub enum Command {
    WifiMsg,
    VideoEncoderRateCmd,
    VideoStartCmd,
    VideoRateQuery,
    TakePictureCommand,
    VideoModeCmd,
    ExposureCmd,
    LightMsg,
    TimeCmd,
    StickCmd,
    TakeoffCmd,
    LandCmd,
    FlightMsg,
    SetAltLimitCmd,
    FlipCmd,
    ThrowAndGoCmd,
    PalmLandCmd,
    TelloCmdFileSize,
    TelloCmdFileData,
    TelloCmdFileComplete,
    LogHeaderMsg,
    LogDataMsg,
    LogConfigMsg,
}

/// The numeric code of each command.
pub open spec fn command_code(c: Command) -> u16 {
    match c {
        Command::WifiMsg => 0x001a,
        Command::VideoEncoderRateCmd => 0x0020,
        Command::VideoStartCmd => 0x0025,
        Command::VideoRateQuery => 0x0028,
        Command::TakePictureCommand => 0x0030,
        Command::VideoModeCmd => 0x0031,
        Command::ExposureCmd => 0x0034,
        Command::LightMsg => 0x0035,
        Command::TimeCmd => 0x0046,
        Command::StickCmd => 0x0050,
        Command::TakeoffCmd => 0x0054,
        Command::LandCmd => 0x0055,
        Command::FlightMsg => 0x0056,
        Command::SetAltLimitCmd => 0x0058,
        Command::FlipCmd => 0x005c,
        Command::ThrowAndGoCmd => 0x005d,
        Command::PalmLandCmd => 0x005e,
        Command::TelloCmdFileSize => 0x0062,
        Command::TelloCmdFileData => 0x0063,
        Command::TelloCmdFileComplete => 0x0064,
        Command::LogHeaderMsg => 0x1050,
        Command::LogDataMsg => 0x1051,
        Command::LogConfigMsg => 0x1052,
    }
}

impl Command {
    /// The numeric code of this command.
    pub fn value(&self) -> (r: u16)
        ensures
            r == command_code(*self),
    {
        match self {
            Command::WifiMsg => 0x001a,
            Command::VideoEncoderRateCmd => 0x0020,
            Command::VideoStartCmd => 0x0025,
            Command::VideoRateQuery => 0x0028,
            Command::TakePictureCommand => 0x0030,
            Command::VideoModeCmd => 0x0031,
            Command::ExposureCmd => 0x0034,
            Command::LightMsg => 0x0035,
            Command::TimeCmd => 0x0046,
            Command::StickCmd => 0x0050,
            Command::TakeoffCmd => 0x0054,
            Command::LandCmd => 0x0055,
            Command::FlightMsg => 0x0056,
            Command::SetAltLimitCmd => 0x0058,
            Command::FlipCmd => 0x005c,
            Command::ThrowAndGoCmd => 0x005d,
            Command::PalmLandCmd => 0x005e,
            Command::TelloCmdFileSize => 0x0062,
            Command::TelloCmdFileData => 0x0063,
            Command::TelloCmdFileComplete => 0x0064,
            Command::LogHeaderMsg => 0x1050,
            Command::LogDataMsg => 0x1051,
            Command::LogConfigMsg => 0x1052,
        }
    }
}

/// Directions of a flip in the binary protocol.
#[derive(Clone, Copy, Debug, PartialEq, Eq, Structural)]
pub enum Flip {
    /// Flips forward.
    FlipFront,
    /// Flips left.
    FlipLeft,
    /// Flips backwards.
    FlipBack,
    /// Flips to the right.
    FlipRight,
    /// Flips forwards and to the left.
    FlipForwardLeft,
    /// Flips backwards and to the left.
    FlipBackLeft,
    /// Flips backwards and to the right.
    FlipBackRight,
    /// Flips forwards and to the right.
    FlipForwardRight,
}

impl Flip {
    /// The numeric code of this flip.
    pub fn value(&self) -> (r: u8)
        ensures
            r == match *self {
                Flip::FlipFront => 0u8,
                Flip::FlipLeft => 1,
                Flip::FlipBack => 2,
                Flip::FlipRight => 3,
                Flip::FlipForwardLeft => 4,
                Flip::FlipBackLeft => 5,
                Flip::FlipBackRight => 6,
                Flip::FlipForwardRight => 7,
            },
    {
        match self {
            Flip::FlipFront => 0,
            Flip::FlipLeft => 1,
            Flip::FlipBack => 2,
            Flip::FlipRight => 3,
            Flip::FlipForwardLeft => 4,
            Flip::FlipBackLeft => 5,
            Flip::FlipBackRight => 6,
            Flip::FlipForwardRight => 7,
        }
    }
}

/// A time of day as chrono holds it, carried as it is.
#[verifier::external_type_specification]
#[verifier::external_body]
pub struct ExNaiveTime(chrono::NaiveTime);

/// Relies on chrono's `Timelike::hour` of `NaiveTime`: the hour, from 0 to 23.
#[verifier::external_body]
fn hour_of(t: &chrono::NaiveTime) -> (r: u32)
    ensures
        r < 24,
{
    t.hour()
}

/// Relies on chrono's `Timelike::minute` of `NaiveTime`: the minute, from 0 to 59.
#[verifier::external_body]
fn minute_of(t: &chrono::NaiveTime) -> (r: u32)
    ensures
        r < 60,
{
    t.minute()
}

/// Relies on chrono's `Timelike::second` of `NaiveTime`: the second, from 0 to 59.
#[verifier::external_body]
fn second_of(t: &chrono::NaiveTime) -> (r: u32)
    ensures
        r < 60,
{
    t.second()
}

/// Relies on chrono's `Timelike::nanosecond` of `NaiveTime`: the nanoseconds since the
/// whole second, below 2_000_000_000 (a leap second counts from 1_000_000_000 on).
#[verifier::external_body]
fn nanosecond_of(t: &chrono::NaiveTime) -> (r: u32)
    ensures
        r < 2_000_000_000,
{
    t.nanosecond()
}

/// Whether `t` is a valid time of day.
pub open spec fn valid_time(t: TimeOfDay) -> bool {
    t.hour < 24 && t.minute < 60 && t.second < 60 && t.nanosecond < 2_000_000_000
}

/// The time of day of `time`.
pub fn time_of_day(time: &chrono::NaiveTime) -> (r: TimeOfDay)
    ensures
        valid_time(r),
{
    TimeOfDay {
        hour: hour_of(time),
        minute: minute_of(time),
        second: second_of(time),
        nanosecond: nanosecond_of(time),
    }
}

/// A time of day, as the packet that sets the vehicle's clock carries it.
#[derive(Clone, Copy, Debug, PartialEq, Eq, Structural)]
pub struct TimeOfDay {
    pub hour: u32,
    pub minute: u32,
    pub second: u32,
    pub nanosecond: u32,
}

/// The low byte of `v`.
pub open spec fn low(v: u16) -> u8 {
    (v & 0xffu16) as u8
}

/// The high byte of `v`.
pub open spec fn high(v: u16) -> u8 {
    ((v >> 8u16) & 0xffu16) as u8
}

/// `v` as two bytes, low byte first.
pub open spec fn le_bytes(v: u16) -> Seq<u8> {
    seq![low(v), high(v)]
}

/// The header of a fresh binary packet, with length, checksum and sequence number zero.
pub open spec fn header(command: Command, packet_type: u8) -> Seq<u8> {
    seq![
        PACKET_START,
        0u8,
        0u8,
        0u8,
        packet_type,
        low(command_code(command)),
        high(command_code(command)),
        0u8,
        0u8,
    ]
}

/// Whether `b` is framed as a binary packet.
pub open spec fn is_binary(b: Seq<u8>) -> bool {
    b.len() > 0 && b[0] == PACKET_START
}

/// The value of the length field of a packet of `n` bytes.
pub open spec fn packet_length(n: nat) -> u16 {
    ((n + 2) % 0x10000) as u16
}

/// The first byte of the length field, as the wire format places it.
pub open spec fn length_lo(length: u16) -> u8 {
    ((length as u8) << 3u8) as u8
}

/// The bytes of `b` once its header is completed for sequence number `seq_no`.
pub open spec fn completed(b: Seq<u8>, seq_no: u16) -> Seq<u8> {
    if !is_binary(b) {
        b
    } else {
        let length = packet_length(b.len());
        let lo = length_lo(length);
        let hi = high(length);
        b.update(1, lo).update(2, hi).update(3, crc8(seq![PACKET_START, lo, hi])).update(
            7,
            low(seq_no),
        ).update(8, high(seq_no))
    }
}

/// Completing a binary packet puts in its checksum byte the checksum of its first three
/// bytes, and in its two sequence-number bytes the sequence number, low byte first.
pub proof fn lemma_completed_header(b: Seq<u8>, seq_no: u16)
    requires
        is_binary(b),
        b.len() >= HEADER_LEN,
    ensures
        completed(b, seq_no).len() == b.len(),
        completed(b, seq_no)[3] == crc8(completed(b, seq_no).subrange(0, 3)),
        completed(b, seq_no)[7] as int + 256 * completed(b, seq_no)[8] as int == seq_no as int,
        completed(b, seq_no).subrange(HEADER_LEN as int, b.len() as int) == b.subrange(
            HEADER_LEN as int,
            b.len() as int,
        ),
{
    let c = completed(b, seq_no);
    assert(c.subrange(0, 3) =~= seq![PACKET_START, c[1], c[2]]);
    assert(c.subrange(HEADER_LEN as int, b.len() as int) =~= b.subrange(HEADER_LEN as int, b.len() as int));
    assert((seq_no & 0xffu16) as u8 as int + 256 * ((seq_no >> 8u16) & 0xffu16) as u8 as int
        == seq_no as int) by (bit_vector);
}

/// The bytes that carry `t`: hour, minute, second and the two bytes of the millisecond,
/// each as a little-endian `u16`.
pub open spec fn time_bytes(t: TimeOfDay) -> Seq<u8> {
    let ms = (t.nanosecond / 1_000_000) as u16;
    le_bytes(t.hour as u16) + le_bytes(t.minute as u16) + le_bytes(t.second as u16) + le_bytes(
        ms & 0xffu16,
    ) + le_bytes((ms >> 8u16) & 0xffu16)
}

fn low_byte(v: u16) -> (r: u8)
    ensures
        r == low(v),
{
    let r = v & 0xffu16;
    assert(r < 256) by (bit_vector)
        requires r == v & 0xffu16;
    r as u8
}

fn high_byte(v: u16) -> (r: u8)
    ensures
        r == high(v),
{
    let r = (v >> 8u16) & 0xffu16;
    assert(r < 256) by (bit_vector)
        requires r == (v >> 8u16) & 0xffu16;
    r as u8
}

/// A packet being built.
pub struct Packet {
    buffer: Vec<u8>,
}

/// A packet whose header is final.
pub struct CompletedPacket {
    buffer: Vec<u8>,
}

impl View for Packet {
    type V = Seq<u8>;

    closed spec fn view(&self) -> Seq<u8> {
        self.buffer@
    }
}

impl View for CompletedPacket {
    type V = Seq<u8>;

    closed spec fn view(&self) -> Seq<u8> {
        self.buffer@
    }
}

impl CompletedPacket {
    /// The bytes of the packet.
    pub fn as_bytes(&self) -> (r: &[u8])
        ensures
            r@ == self@,
    {
        self.buffer.as_slice()
    }
}

impl Packet {
    /// A binary packet for `command` of type `packet_type` whose payload is `data`.
    pub fn new(command: Command, packet_type: u8, data: Vec<u8>) -> (r: Self)
        ensures
            r@ == header(command, packet_type) + data@,
    {
        let raw_command = command.value();
        let mut buffer: Vec<u8> = vec![
            PACKET_START,
            0,
            0,
            0,
            packet_type,
            low_byte(raw_command),
            high_byte(raw_command),
            0,
            0,
        ];
        let ghost payload = data@;
        let mut data = data;
        buffer.append(&mut data);
        let r = Packet { buffer };
        assert(r@ =~= header(command, packet_type) + payload);
        r
    }

    /// A packet that carries the text `data` as it is.
    pub fn from_str(data: String) -> (r: Self)
        ensures
            r@ == encode_utf8(data@),
    {
        Packet { buffer: vstd::slice::slice_to_vec(data.as_str().as_bytes()) }
    }

    /// A packet that carries `bytes` as they are.
    pub fn from_bytes(bytes: &[u8]) -> (r: Self)
        ensures
            r@ == bytes@,
    {
        Packet { buffer: vstd::slice::slice_to_vec(bytes) }
    }

    /// The bytes of the packet so far.
    pub fn as_bytes(&self) -> (r: &[u8])
        ensures
            r@ == self@,
    {
        self.buffer.as_slice()
    }

    /// Fills in the length, checksum and sequence number `sequence_number` of a binary
    /// packet; a packet that does not start with the binary marker is left as it is.
    pub fn complete(&mut self, sequence_number: u16) -> (r: CompletedPacket)
        requires
            is_binary(old(self)@) ==> old(self)@.len() >= HEADER_LEN,
        ensures
            final(self)@ == completed(old(self)@, sequence_number),
            r@ == final(self)@,
    {
        if self.buffer.len() == 0 || self.buffer[0] != PACKET_START {
            return CompletedPacket { buffer: self.buffer.clone() };
        }
        let n: usize = self.buffer.len();
        let m: usize = n % 0x10000;
        assert((n as int + 2) % 0x10000 == (m as int + 2) % 0x10000) by (nonlinear_arith)
            requires m == n % 0x10000;
        let length: u16 = ((m + 2) % 0x10000) as u16;
        let l8: u8 = low_byte(length);
        assert(l8 == length as u8) by (bit_vector)
            requires l8 == (length & 0xffu16) as u8;
        let lo: u8 = l8 << 3u8;
        let hi: u8 = high_byte(length);
        self.buffer.set(1, lo);
        self.buffer.set(2, hi);
        let crc = get_crc8(&self.buffer.as_slice()[0..3]);
        proof {
            assert(self.buffer@.subrange(0, 3) =~= seq![PACKET_START, lo, hi]);
        }
        self.buffer.set(3, crc);
        self.buffer.set(7, low_byte(sequence_number));
        self.buffer.set(8, high_byte(sequence_number));
        CompletedPacket { buffer: self.buffer.clone() }
    }

    /// Appends the byte `value`.
    pub fn add_u8(&mut self, value: u8)
        ensures
            final(self)@ == old(self)@.push(value),
    {
        self.buffer.push(value);
    }

    /// Appends `value`, low byte first.
    pub fn add_u16(&mut self, value: u16)
        ensures
            final(self)@ == old(self)@ + le_bytes(value),
    {
        self.buffer.push(low_byte(value));
        self.buffer.push(high_byte(value));
        assert(self.buffer@ =~= old(self)@ + le_bytes(value));
    }

    /// Appends the time of day of `time`.
    pub fn add_time(&mut self, time: chrono::NaiveTime)
        ensures
            exists|t: TimeOfDay| valid_time(t) && final(self)@ == old(self)@ + time_bytes(t),
    {
        let t = time_of_day(&time);
        self.add_time_of_day(t);
    }

    /// Appends the time of day `time`.
    pub fn add_time_of_day(&mut self, time: TimeOfDay)
        ensures
            final(self)@ == old(self)@ + time_bytes(time),
    {
        #[verifier::truncate]
        let ms: u16 = (time.nanosecond / 1_000_000) as u16;
        #[verifier::truncate]
        let hour: u16 = time.hour as u16;
        #[verifier::truncate]
        let minute: u16 = time.minute as u16;
        #[verifier::truncate]
        let second: u16 = time.second as u16;
        self.add_u16(hour);
        self.add_u16(minute);
        self.add_u16(second);
        self.add_u16(ms & 0xff);
        self.add_u16((ms >> 8) & 0xff);
        assert(self@ =~= old(self)@ + time_bytes(time));
    }
}

} // verus!
