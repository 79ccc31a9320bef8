use vstd::prelude::*;

use crate::utils::{ascii, key_bytes, COLON, DIGIT_NINE, DIGIT_ZERO, MINUS, PLUS, SEMICOLON};

verus! {

/// The pieces of `s` between occurrences of `sep`; as many as there are separators, plus one.
pub open spec fn split(s: Seq<u8>, sep: u8) -> Seq<Seq<u8>>
    decreases s.len(),
{
    if s.len() == 0 {
        seq![Seq::<u8>::empty()]
    } else {
        let prev = split(s.drop_last(), sep);
        if s.last() == sep {
            prev.push(Seq::<u8>::empty())
        } else {
            prev.update(prev.len() - 1, prev.last().push(s.last()))
        }
    }
}

proof fn lemma_split_nonempty(s: Seq<u8>, sep: u8)
    ensures
        split(s, sep).len() >= 1,
    decreases s.len(),
{
    if s.len() > 0 {
        lemma_split_nonempty(s.drop_last(), sep);
    }
}

/// A text with a separator in it splits into two pieces at least.
proof fn lemma_split_contains(s: Seq<u8>, sep: u8)
    requires
        s.contains(sep),
    ensures
        split(s, sep).len() >= 2,
    decreases s.len(),
{
    lemma_split_nonempty(s, sep);
    if s.last() != sep {
        let i = choose|i: int| 0 <= i < s.len() && s[i] == sep;
        assert(s.drop_last()[i] == sep);
        lemma_split_contains(s.drop_last(), sep);
    } else {
        lemma_split_nonempty(s.drop_last(), sep);
    }
}

/// Splits `s` at each occurrence of `sep`.
pub fn split_bytes(s: &[u8], sep: u8) -> (r: Vec<Vec<u8>>)
    ensures
        r@.len() == split(s@, sep).len(),
        forall|i: int| 0 <= i < r@.len() ==> #[trigger] r@[i]@ == split(s@, sep)[i],
{
    let mut done: Vec<Vec<u8>> = Vec::new();
    let mut cur: Vec<u8> = Vec::new();
    let mut i: usize = 0;
    while i < s.len()
        invariant
            i <= s@.len(),
            done@.len() + 1 == split(s@.take(i as int), sep).len(),
            forall|k: int| 0 <= k < done@.len() ==> #[trigger] done@[k]@ == split(s@.take(i as int), sep)[k],
            cur@ == split(s@.take(i as int), sep).last(),
        decreases s@.len() - i,
    {
        proof {
            lemma_split_nonempty(s@.take(i as int), sep);
            assert(s@.take(i as int + 1).drop_last() =~= s@.take(i as int));
        }
        if s[i] == sep {
            let piece = cur;
            done.push(piece);
            cur = Vec::new();
        } else {
            cur.push(s[i]);
        }
        i = i + 1;
    }
    assert(s@.take(s@.len() as int) =~= s@);
    done.push(cur);
    done
}

/// Whether a piece of a message is a `key:value` field rather than one to skip.
pub open spec fn is_field(part: Seq<u8>) -> bool {
    part.len() > 1 && part.contains(COLON)
}

/// The `(key, value)` pairs of the fields among `parts`, in order.
pub open spec fn fields_of(parts: Seq<Seq<u8>>) -> Seq<(Seq<u8>, Seq<u8>)>
    decreases parts.len(),
{
    if parts.len() == 0 {
        Seq::empty()
    } else {
        let prev = fields_of(parts.drop_last());
        let part = parts.last();
        if is_field(part) {
            prev.push((split(part, COLON)[0], split(part, COLON)[1]))
        } else {
            prev
        }
    }
}

/// The `(key, value)` pairs of the text message `line`.
pub open spec fn fields(line: Seq<u8>) -> Seq<(Seq<u8>, Seq<u8>)> {
    fields_of(split(line, SEMICOLON))
}

/// The value of the last field named `key`.
pub open spec fn lookup(fs: Seq<(Seq<u8>, Seq<u8>)>, key: Seq<u8>) -> Option<Seq<u8>>
    decreases fs.len(),
{
    if fs.len() == 0 {
        None
    } else if fs.last().0 == key {
        Some(fs.last().1)
    } else {
        lookup(fs.drop_last(), key)
    }
}

/// Whether `b` is an ASCII decimal digit.
pub open spec fn is_digit(b: u8) -> bool {
    DIGIT_ZERO <= b <= DIGIT_NINE
}

/// Whether `s` is one or more decimal digits.
pub open spec fn all_digits(s: Seq<u8>) -> bool {
    s.len() > 0 && forall|i: int| 0 <= i < s.len() ==> is_digit(#[trigger] s[i])
}

/// The number that the decimal digits `s` write.
pub open spec fn digits_value(s: Seq<u8>) -> int
    decreases s.len(),
{
    if s.len() == 0 {
        0
    } else {
        10 * digits_value(s.drop_last()) + (s.last() - DIGIT_ZERO)
    }
}

/// The integer that `s` writes: digits after an optional `+`, or, where `signed`
/// holds, an optional `-`.
pub open spec fn int_text(s: Seq<u8>, signed: bool) -> Option<int> {
    if s.len() > 0 && (s[0] == PLUS || (signed && s[0] == MINUS)) {
        let rest = s.drop_first();
        if all_digits(rest) {
            if s[0] == MINUS {
                Some(-digits_value(rest))
            } else {
                Some(digits_value(rest))
            }
        } else {
            None
        }
    } else if all_digits(s) {
        Some(digits_value(s))
    } else {
        None
    }
}

/// The integer that `s` writes, where it lies in `min ..= max`.
pub open spec fn int_in_range(s: Seq<u8>, signed: bool, min: int, max: int) -> Option<int> {
    match int_text(s, signed) {
        Some(v) => if min <= v <= max {
            Some(v)
        } else {
            None
        },
        None => None,
    }
}

/// A bound above every range that fields are read into.
pub const PARSE_CAP: u64 = 1_000_000;

proof fn digits_prefix(s: Seq<u8>, i: int)
    requires
        0 <= i < s.len(),
    ensures
        s.take(i + 1).drop_last() == s.take(i),
        s.take(i + 1).last() == s[i],
{
    assert(s.take(i + 1).drop_last() =~= s.take(i));
}

/// Reads the decimal digits `s[start..]`; the result is the number they write, or
/// anything above `PARSE_CAP` where that number is above it.
fn parse_digits(s: &[u8], start: usize) -> (r: Option<u64>)
    requires
        start <= s@.len(),
    ensures
        r is Some <==> all_digits(s@.subrange(start as int, s@.len() as int)),
        r matches Some(v) ==> {
            let d = digits_value(s@.subrange(start as int, s@.len() as int));
            &&& d <= PARSE_CAP ==> v == d
            &&& d > PARSE_CAP ==> v > PARSE_CAP
        },
{
    if start == s.len() {
        return None;
    }
    let ghost t = s@.subrange(start as int, s@.len() as int);
    let mut acc: u64 = 0;
    let mut i: usize = start;
    while i < s.len()
        invariant
            start <= i <= s@.len(),
            t == s@.subrange(start as int, s@.len() as int),
            forall|k: int| 0 <= k < i - start ==> is_digit(#[trigger] t[k]),
            digits_value(t.take(i - start)) >= 0,
            digits_value(t.take(i - start)) <= PARSE_CAP ==> acc == digits_value(t.take(i - start)),
            digits_value(t.take(i - start)) > PARSE_CAP ==> acc == PARSE_CAP + 1,
        decreases s@.len() - i,
    {
        let b = s[i];
        if b < DIGIT_ZERO || b > DIGIT_NINE {
            assert(!is_digit(t[i - start]));
            return None;
        }
        proof {
            digits_prefix(t, i - start);
        }
        let ghost prev = digits_value(t.take(i - start));
        assert(digits_value(t.take(i - start + 1)) == 10 * prev + (b - DIGIT_ZERO));
        if acc > PARSE_CAP {
            assert(10 * prev + (b - DIGIT_ZERO) > PARSE_CAP) by (nonlinear_arith)
                requires prev > PARSE_CAP, b >= DIGIT_ZERO;
        } else {
            acc = acc * 10 + (b - DIGIT_ZERO) as u64;
            if acc > PARSE_CAP {
                acc = PARSE_CAP + 1;
            }
        }
        i = i + 1;
    }
    assert(t.take(s@.len() - start) =~= t);
    Some(acc)
}

/// Reads the integer that `s` writes and checks that it lies in `min ..= max`.
pub fn parse_int(s: &[u8], signed: bool, min: i64, max: i64) -> (r: Option<i64>)
    requires
        -(PARSE_CAP as int) <= min,
        max <= PARSE_CAP,
    ensures
        r matches Some(v) ==> int_in_range(s@, signed, min as int, max as int) == Some(v as int),
        r is None ==> int_in_range(s@, signed, min as int, max as int) is None,
{
    let negative = s.len() > 0 && signed && s[0] == MINUS;
    let start: usize = if s.len() > 0 && (s[0] == PLUS || negative) {
        1
    } else {
        0
    };
    assert(s@.subrange(start as int, s@.len() as int) =~= if start == 1 {
        s@.drop_first()
    } else {
        s@
    });
    match parse_digits(s, start) {
        None => None,
        Some(v) => {
            if v > PARSE_CAP {
                None
            } else {
                let x: i64 = if negative {
                    -(v as i64)
                } else {
                    v as i64
                };
                if min <= x && x <= max {
                    Some(x)
                } else {
                    None
                }
            }
        },
    }
}

fn contains_byte(s: &[u8], b: u8) -> (r: bool)
    ensures
        r == s@.contains(b),
{
    let mut i: usize = 0;
    while i < s.len()
        invariant
            i <= s@.len(),
            forall|k: int| 0 <= k < i ==> s@[k] != b,
        decreases s@.len() - i,
    {
        if s[i] == b {
            return true;
        }
        i = i + 1;
    }
    false
}

fn bytes_eq(a: &[u8], b: &[u8]) -> (r: bool)
    ensures
        r == (a@ == b@),
{
    if a.len() != b.len() {
        return false;
    }
    let mut i: usize = 0;
    while i < a.len()
        invariant
            i <= a@.len(),
            a@.len() == b@.len(),
            forall|k: int| 0 <= k < i ==> a@[k] == b@[k],
        decreases a@.len() - i,
    {
        if a[i] != b[i] {
            return false;
        }
        i = i + 1;
    }
    assert(a@ =~= b@);
    true
}

/// One `key:value` field of a telemetry message.
pub struct Field {
    pub key: Vec<u8>,
    pub value: Vec<u8>,
}

/// The `(key, value)` pairs that `fs` holds.
pub open spec fn fields_view(fs: Seq<Field>) -> Seq<(Seq<u8>, Seq<u8>)> {
    Seq::new(fs.len(), |i: int| (fs[i].key@, fs[i].value@))
}

/// Splits the text message `line` into its `key:value` fields, in order, skipping
/// pieces shorter than two bytes or without a `:`.
pub fn parse_fields(line: &[u8]) -> (r: Vec<Field>)
    ensures
        fields_view(r@) == fields(line@),
{
    let parts = split_bytes(line, SEMICOLON);
    let ghost ps = split(line@, SEMICOLON);
    let mut out: Vec<Field> = Vec::new();
    let mut i: usize = 0;
    while i < parts.len()
        invariant
            i <= parts@.len(),
            parts@.len() == ps.len(),
            forall|k: int| 0 <= k < parts@.len() ==> #[trigger] parts@[k]@ == ps[k],
            fields_view(out@) == fields_of(ps.take(i as int)),
        decreases parts@.len() - i,
    {
        assert(ps.take(i as int + 1).drop_last() =~= ps.take(i as int));
        let part = &parts[i];
        assert(part@ == ps[i as int]);
        if part.len() > 1 && contains_byte(part.as_slice(), COLON) {
            let sub = split_bytes(part.as_slice(), COLON);
            proof {
                lemma_split_contains(part@, COLON);
            }
            let f = Field { key: sub[0].clone(), value: sub[1].clone() };
            out.push(f);
            assert(fields_view(out@) =~= fields_of(ps.take(i as int + 1)));
        }
        i = i + 1;
    }
    assert(ps.take(ps.len() as int) =~= ps);
    out
}

/// Finds the value of the last field of `fs` named `key`.
pub fn find_value<'a>(fs: &'a Vec<Field>, key: &[u8]) -> (r: Option<&'a Vec<u8>>)
    ensures
        r matches Some(v) ==> lookup(fields_view(fs@), key@) == Some(v@),
        r is None ==> lookup(fields_view(fs@), key@) is None,
{
    let ghost fv = fields_view(fs@);
    let mut found: Option<&Vec<u8>> = None;
    let mut i: usize = 0;
    while i < fs.len()
        invariant
            i <= fs@.len(),
            fv == fields_view(fs@),
            found matches Some(v) ==> lookup(fv.take(i as int), key@) == Some(v@),
            found is None ==> lookup(fv.take(i as int), key@) is None,
        decreases fs@.len() - i,
    {
        assert(fv.take(i as int + 1).drop_last() =~= fv.take(i as int));
        if bytes_eq(fs[i].key.as_slice(), key) {
            found = Some(&fs[i].value);
        }
        i = i + 1;
    }
    assert(fv.take(fs@.len() as int) =~= fv);
    found
}

/// The fields of one telemetry message. The integer fields are read; the decimal
/// fields are handed on as the text the message holds.
pub struct Telemetry {
    pub roll: i16,
    pub pitch: i16,
    pub yaw: i16,
    pub ground_velocity_x: i16,
    pub ground_velocity_y: i16,
    pub ground_velocity_z: i16,
    pub temperature_minimum: u8,
    pub temperature_maximum: u8,
    pub tof_value: i16,
    pub height: i16,
    pub battery_percentage: u8,
    pub time: u16,
    pub barometer_height: Vec<u8>,
    pub ground_acceleration_x: Vec<u8>,
    pub ground_acceleration_y: Vec<u8>,
    pub ground_acceleration_z: Vec<u8>,
}

/// The integer value of the field `name` of `line`, where it is present, well formed
/// and in range.
pub open spec fn int_field(line: Seq<u8>, name: Seq<char>, signed: bool, min: int, max: int) -> Option<int> {
    match lookup(fields(line), ascii(name)) {
        Some(v) => int_in_range(v, signed, min, max),
        None => None,
    }
}

pub open spec fn i16_field(line: Seq<u8>, name: Seq<char>) -> Option<int> {
    int_field(line, name, true, -32768, 32767)
}

pub open spec fn u8_field(line: Seq<u8>, name: Seq<char>) -> Option<int> {
    int_field(line, name, false, 0, 255)
}

pub open spec fn u16_field(line: Seq<u8>, name: Seq<char>) -> Option<int> {
    int_field(line, name, false, 0, 65535)
}

/// The text of the field `name` of `line`, where it is present.
pub open spec fn text_field(line: Seq<u8>, name: Seq<char>) -> Option<Seq<u8>> {
    lookup(fields(line), ascii(name))
}

/// Whether every field of a telemetry message is present in `line` and well formed.
pub open spec fn decodable(line: Seq<u8>) -> bool {
    &&& i16_field(line, "roll"@) is Some
    &&& i16_field(line, "pitch"@) is Some
    &&& i16_field(line, "yaw"@) is Some
    &&& i16_field(line, "vgx"@) is Some
    &&& i16_field(line, "vgy"@) is Some
    &&& i16_field(line, "vgz"@) is Some
    &&& u8_field(line, "templ"@) is Some
    &&& u8_field(line, "temph"@) is Some
    &&& i16_field(line, "tof"@) is Some
    &&& i16_field(line, "h"@) is Some
    &&& u8_field(line, "bat"@) is Some
    &&& u16_field(line, "time"@) is Some
    &&& text_field(line, "baro"@) is Some
    &&& text_field(line, "agx"@) is Some
    &&& text_field(line, "agy"@) is Some
    &&& text_field(line, "agz"@) is Some
}

/// Whether `t` holds the fields of the telemetry message `line`.
pub open spec fn decodes_to(line: Seq<u8>, t: Telemetry) -> bool {
    &&& i16_field(line, "roll"@) == Some(t.roll as int)
    &&& i16_field(line, "pitch"@) == Some(t.pitch as int)
    &&& i16_field(line, "yaw"@) == Some(t.yaw as int)
    &&& i16_field(line, "vgx"@) == Some(t.ground_velocity_x as int)
    &&& i16_field(line, "vgy"@) == Some(t.ground_velocity_y as int)
    &&& i16_field(line, "vgz"@) == Some(t.ground_velocity_z as int)
    &&& u8_field(line, "templ"@) == Some(t.temperature_minimum as int)
    &&& u8_field(line, "temph"@) == Some(t.temperature_maximum as int)
    &&& i16_field(line, "tof"@) == Some(t.tof_value as int)
    &&& i16_field(line, "h"@) == Some(t.height as int)
    &&& u8_field(line, "bat"@) == Some(t.battery_percentage as int)
    &&& u16_field(line, "time"@) == Some(t.time as int)
    &&& text_field(line, "baro"@) == Some(t.barometer_height@)
    &&& text_field(line, "agx"@) == Some(t.ground_acceleration_x@)
    &&& text_field(line, "agy"@) == Some(t.ground_acceleration_y@)
    &&& text_field(line, "agz"@) == Some(t.ground_acceleration_z@)
}

fn read_int(fs: &Vec<Field>, name: &str, signed: bool, min: i64, max: i64) -> (r: Option<i64>)
    requires
        vstd::string::is_ascii(name),
        -(PARSE_CAP as int) <= min,
        max <= PARSE_CAP,
    ensures
        r matches Some(v) ==> {
            &&& min <= v <= max
            &&& (match lookup(fields_view(fs@), ascii(name@)) {
                Some(t) => int_in_range(t, signed, min as int, max as int),
                None => None,
            }) == Some(v as int)
        },
        r is None ==> (match lookup(fields_view(fs@), ascii(name@)) {
            Some(t) => int_in_range(t, signed, min as int, max as int),
            None => None,
        }) is None,
{
    match find_value(fs, key_bytes(name)) {
        Some(v) => parse_int(v.as_slice(), signed, min, max),
        None => None,
    }
}

fn read_text(fs: &Vec<Field>, name: &str) -> (r: Option<Vec<u8>>)
    requires
        vstd::string::is_ascii(name),
    ensures
        r matches Some(v) ==> lookup(fields_view(fs@), ascii(name@)) == Some(v@),
        r is None ==> lookup(fields_view(fs@), ascii(name@)) is None,
{
    match find_value(fs, key_bytes(name)) {
        Some(v) => Some(v.clone()),
        None => None,
    }
}

/// Decodes the text telemetry message `line`. Every field must be present and well
/// formed; otherwise the whole message is rejected.
pub fn decode_telemetry(line: &[u8]) -> (r: Option<Telemetry>)
    ensures
        r is Some <==> decodable(line@),
        r matches Some(t) ==> decodes_to(line@, t),
{
    let fs = parse_fields(line);
    proof {
        reveal_strlit("roll");
        reveal_strlit("pitch");
        reveal_strlit("yaw");
        reveal_strlit("vgx");
        reveal_strlit("vgy");
        reveal_strlit("vgz");
        reveal_strlit("templ");
        reveal_strlit("temph");
        reveal_strlit("tof");
        reveal_strlit("h");
        reveal_strlit("bat");
        reveal_strlit("time");
        reveal_strlit("baro");
        reveal_strlit("agx");
        reveal_strlit("agy");
        reveal_strlit("agz");
    }
    let roll: i16 = match read_int(&fs, "roll", true, -32768, 32767) {
        Some(v) => v as i16,
        None => return None,
    };
    let pitch: i16 = match read_int(&fs, "pitch", true, -32768, 32767) {
        Some(v) => v as i16,
        None => return None,
    };
    let yaw: i16 = match read_int(&fs, "yaw", true, -32768, 32767) {
        Some(v) => v as i16,
        None => return None,
    };
    let ground_velocity_x: i16 = match read_int(&fs, "vgx", true, -32768, 32767) {
        Some(v) => v as i16,
        None => return None,
    };
    let ground_velocity_y: i16 = match read_int(&fs, "vgy", true, -32768, 32767) {
        Some(v) => v as i16,
        None => return None,
    };
    let ground_velocity_z: i16 = match read_int(&fs, "vgz", true, -32768, 32767) {
        Some(v) => v as i16,
        None => return None,
    };
    let temperature_minimum: u8 = match read_int(&fs, "templ", false, 0, 255) {
        Some(v) => v as u8,
        None => return None,
    };
    let temperature_maximum: u8 = match read_int(&fs, "temph", false, 0, 255) {
        Some(v) => v as u8,
        None => return None,
    };
    let tof_value: i16 = match read_int(&fs, "tof", true, -32768, 32767) {
        Some(v) => v as i16,
        None => return None,
    };
    let height: i16 = match read_int(&fs, "h", true, -32768, 32767) {
        Some(v) => v as i16,
        None => return None,
    };
    let battery_percentage: u8 = match read_int(&fs, "bat", false, 0, 255) {
        Some(v) => v as u8,
        None => return None,
    };
    let time: u16 = match read_int(&fs, "time", false, 0, 65535) {
        Some(v) => v as u16,
        None => return None,
    };
    let barometer_height = match read_text(&fs, "baro") {
        Some(v) => v,
        None => return None,
    };
    let ground_acceleration_x = match read_text(&fs, "agx") {
        Some(v) => v,
        None => return None,
    };
    let ground_acceleration_y = match read_text(&fs, "agy") {
        Some(v) => v,
        None => return None,
    };
    let ground_acceleration_z = match read_text(&fs, "agz") {
        Some(v) => v,
        None => return None,
    };
    Some(Telemetry {
        roll,
        pitch,
        yaw,
        ground_velocity_x,
        ground_velocity_y,
        ground_velocity_z,
        temperature_minimum,
        temperature_maximum,
        tof_value,
        height,
        battery_percentage,
        time,
        barometer_height,
        ground_acceleration_x,
        ground_acceleration_y,
        ground_acceleration_z,
    })
}

} // verus!
