use vstd::prelude::*;

use crate::utils::{ascii, key_bytes, push_bytes, DIGIT_ZERO, MINUS, SPACE};

verus! {

/// The decimal digits of `n`, most significant first, with no leading zeros.
pub open spec fn decimal(n: nat) -> Seq<u8>
    decreases n,
{
    if n < 10 {
        seq![(DIGIT_ZERO + n) as u8]
    } else {
        decimal(n / 10).push((DIGIT_ZERO + n % 10) as u8)
    }
}

/// `n` in decimal, with a leading `-` where it is negative.
pub open spec fn signed_decimal(n: int) -> Seq<u8> {
    if n < 0 {
        seq![MINUS] + decimal((-n) as nat)
    } else {
        decimal(n as nat)
    }
}

/// Appends the decimal digits of `n` to `out`.
pub fn push_decimal(out: &mut Vec<u8>, n: u64)
    ensures
        final(out)@ == old(out)@ + decimal(n as nat),
    decreases n,
{
    if n >= 10 {
        push_decimal(out, n / 10);
    }
    out.push(DIGIT_ZERO + (n % 10) as u8);
    assert(out@ =~= old(out)@ + decimal(n as nat));
}

/// Appends `n` in decimal to `out`, with a leading `-` where it is negative.
pub fn push_signed_decimal(out: &mut Vec<u8>, n: i8)
    ensures
        final(out)@ == old(out)@ + signed_decimal(n as int),
{
    if n < 0 {
        out.push(MINUS);
        push_decimal(out, (-(n as i16)) as u64);
        assert(out@ =~= old(out)@ + signed_decimal(n as int));
    } else {
        push_decimal(out, n as u64);
    }
}

/// Directions of a flip.
#[derive(Clone, Copy, Debug, PartialEq, Eq, Structural)]
pub enum Flip {
    Left,
    Right,
    Forward,
    Backward,
}

/// The letter that names each flip direction.
pub open spec fn flip_letter(f: Flip) -> char {
    match f {
        Flip::Left => 'l',
        Flip::Right => 'r',
        Flip::Forward => 'f',
        Flip::Backward => 'b',
    }
}

impl Flip {
    /// The letter that names this direction.
    pub fn value(self) -> (r: char)
        ensures
            r == flip_letter(self),
    {
        match self {
            Flip::Left => 'l',
            Flip::Right => 'r',
            Flip::Forward => 'f',
            Flip::Backward => 'b',
        }
    }
}

/// The commands of the text protocol.
#[derive(Debug)]
pub enum TextCommand {
    /// Enters the text command mode; the vehicle's first command.
    Command,
    TakeOff,
    Land,
    StreamOn,
    StreamOff,
    Emergency,
    Up(u16),
    Down(u16),
    Left(u16),
    Right(u16),
    Forward(u16),
    Back(u16),
    Cw(u16),
    Ccw(u16),
    Flip(Flip),
    Go(u16, u16, u16, u8),
    Curve(u16, u16, u16, u16, u16, u16, u8),
    Rc(i8, i8, i8, i8),
    Speed(u8),
    Wifi(Vec<u8>, Vec<u8>),
}

/// ` ` followed by `n` in decimal.
pub open spec fn arg(n: int) -> Seq<u8> {
    seq![SPACE] + signed_decimal(n)
}

/// The text that the vehicle is sent for `c`.
pub open spec fn command_text(c: TextCommand) -> Seq<u8> {
    match c {
        TextCommand::Command => ascii("command"@),
        TextCommand::TakeOff => ascii("takeoff"@),
        TextCommand::Land => ascii("land"@),
        TextCommand::StreamOn => ascii("streamon"@),
        TextCommand::StreamOff => ascii("streamoff"@),
        TextCommand::Emergency => ascii("emergency"@),
        TextCommand::Up(d) => ascii("up"@) + arg(d as int),
        TextCommand::Down(d) => ascii("down"@) + arg(d as int),
        TextCommand::Left(d) => ascii("left"@) + arg(d as int),
        TextCommand::Right(d) => ascii("right"@) + arg(d as int),
        TextCommand::Forward(d) => ascii("forward"@) + arg(d as int),
        TextCommand::Back(d) => ascii("back"@) + arg(d as int),
        TextCommand::Cw(a) => ascii("cw"@) + arg(a as int),
        TextCommand::Ccw(a) => ascii("ccw"@) + arg(a as int),
        TextCommand::Flip(f) => ascii("flip"@) + seq![SPACE, flip_letter(f) as u8],
        TextCommand::Go(x, y, z, s) => ascii("go"@) + arg(x as int) + arg(y as int) + arg(z as int)
            + arg(s as int),
        TextCommand::Curve(x1, y1, z1, x2, y2, z2, s) => ascii("curve"@) + arg(x1 as int) + arg(
            y1 as int,
        ) + arg(z1 as int) + arg(x2 as int) + arg(y2 as int) + arg(z2 as int) + arg(s as int),
        TextCommand::Rc(a, b, c, d) => ascii("rc"@) + arg(a as int) + arg(b as int) + arg(c as int)
            + arg(d as int),
        TextCommand::Speed(s) => ascii("speed"@) + arg(s as int),
        TextCommand::Wifi(ssid, password) => ascii("wifi"@) + seq![SPACE] + ssid@ + seq![SPACE]
            + password@,
    }
}

/// Whether the vehicle is expected to acknowledge `c`. The stick command, take-off and
/// landing are sent without waiting.
pub open spec fn spec_requires_ack(c: TextCommand) -> bool {
    match c {
        TextCommand::TakeOff | TextCommand::Land | TextCommand::Rc(..) => false,
        _ => true,
    }
}

fn push_arg(out: &mut Vec<u8>, n: u64)
    ensures
        final(out)@ == old(out)@ + arg(n as int),
{
    out.push(SPACE);
    push_decimal(out, n);
    assert(out@ =~= old(out)@ + arg(n as int));
}

fn push_signed_arg(out: &mut Vec<u8>, n: i8)
    ensures
        final(out)@ == old(out)@ + arg(n as int),
{
    out.push(SPACE);
    push_signed_decimal(out, n);
    assert(out@ =~= old(out)@ + arg(n as int));
}

fn keyword(k: &str) -> (r: Vec<u8>)
    requires
        vstd::string::is_ascii(k),
    ensures
        r@ == ascii(k@),
{
    let mut out: Vec<u8> = Vec::new();
    push_bytes(&mut out, key_bytes(k));
    assert(out@ =~= ascii(k@));
    out
}

impl TextCommand {
    /// Whether the vehicle is expected to acknowledge this command.
    pub fn requires_ack(&self) -> (r: bool)
        ensures
            r == spec_requires_ack(*self),
    {
        match self {
            TextCommand::TakeOff | TextCommand::Land | TextCommand::Rc(..) => false,
            _ => true,
        }
    }

    /// The text that the vehicle is sent for this command.
    pub fn text(&self) -> (r: Vec<u8>)
        ensures
            r@ == command_text(*self),
    {
        proof {
            reveal_strlit("command");
            reveal_strlit("takeoff");
            reveal_strlit("land");
            reveal_strlit("streamon");
            reveal_strlit("streamoff");
            reveal_strlit("emergency");
            reveal_strlit("up");
            reveal_strlit("down");
            reveal_strlit("left");
            reveal_strlit("right");
            reveal_strlit("forward");
            reveal_strlit("back");
            reveal_strlit("cw");
            reveal_strlit("ccw");
            reveal_strlit("flip");
            reveal_strlit("go");
            reveal_strlit("curve");
            reveal_strlit("rc");
            reveal_strlit("speed");
            reveal_strlit("wifi");
        }
        match self {
            TextCommand::Command => keyword("command"),
            TextCommand::TakeOff => keyword("takeoff"),
            TextCommand::Land => keyword("land"),
            TextCommand::StreamOn => keyword("streamon"),
            TextCommand::StreamOff => keyword("streamoff"),
            TextCommand::Emergency => keyword("emergency"),
            TextCommand::Up(d) => {
                let mut out = keyword("up");
                push_arg(&mut out, *d as u64);
                out
            },
            TextCommand::Down(d) => {
                let mut out = keyword("down");
                push_arg(&mut out, *d as u64);
                out
            },
            TextCommand::Left(d) => {
                let mut out = keyword("left");
                push_arg(&mut out, *d as u64);
                out
            },
            TextCommand::Right(d) => {
                let mut out = keyword("right");
                push_arg(&mut out, *d as u64);
                out
            },
            TextCommand::Forward(d) => {
                let mut out = keyword("forward");
                push_arg(&mut out, *d as u64);
                out
            },
            TextCommand::Back(d) => {
                let mut out = keyword("back");
                push_arg(&mut out, *d as u64);
                out
            },
            TextCommand::Cw(a) => {
                let mut out = keyword("cw");
                push_arg(&mut out, *a as u64);
                out
            },
            TextCommand::Ccw(a) => {
                let mut out = keyword("ccw");
                push_arg(&mut out, *a as u64);
                out
            },
            TextCommand::Flip(f) => {
                let mut out = keyword("flip");
                out.push(SPACE);
                let c = f.value();
                out.push(c as u8);
                assert(out@ =~= command_text(*self));
                out
            },
            TextCommand::Go(x, y, z, s) => {
                let mut out = keyword("go");
                push_arg(&mut out, *x as u64);
                push_arg(&mut out, *y as u64);
                push_arg(&mut out, *z as u64);
                push_arg(&mut out, *s as u64);
                out
            },
            TextCommand::Curve(x1, y1, z1, x2, y2, z2, s) => {
                let mut out = keyword("curve");
                push_arg(&mut out, *x1 as u64);
                push_arg(&mut out, *y1 as u64);
                push_arg(&mut out, *z1 as u64);
                push_arg(&mut out, *x2 as u64);
                push_arg(&mut out, *y2 as u64);
                push_arg(&mut out, *z2 as u64);
                push_arg(&mut out, *s as u64);
                out
            },
            TextCommand::Rc(a, b, c, d) => {
                let mut out = keyword("rc");
                push_signed_arg(&mut out, *a);
                push_signed_arg(&mut out, *b);
                push_signed_arg(&mut out, *c);
                push_signed_arg(&mut out, *d);
                out
            },
            TextCommand::Speed(s) => {
                let mut out = keyword("speed");
                push_arg(&mut out, *s as u64);
                out
            },
            TextCommand::Wifi(ssid, password) => {
                let mut out = keyword("wifi");
                out.push(SPACE);
                push_bytes(&mut out, ssid.as_slice());
                out.push(SPACE);
                push_bytes(&mut out, password.as_slice());
                assert(out@ =~= command_text(*self));
                out
            },
        }
    }
}

} // verus!
