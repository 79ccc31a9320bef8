use vstd::prelude::*;

use crate::utils::{ascii, key_bytes};

verus! {

/// The transport's error, carried through unchanged in `TelloError::IO`.
#[verifier::external_type_specification]
#[verifier::external_body]
pub struct ExIoError(std::io::Error);

/// Why a command could not be carried out.
#[derive(Debug)]
pub enum TelloError {
    /// The transport failed.
    IO(std::io::Error),
    /// The vehicle did not acknowledge the command in time.
    AckNotReceived,
}

/// How long a command that needs an acknowledgment waits for it, in milliseconds.
pub const ACK_TIMEOUT_MS: u64 = 10000;

/// How long the wait for an acknowledgment sleeps between two looks at it, in milliseconds.
pub const ACK_POLL_MS: u64 = 50;

/// What the sender of a command does next.
#[derive(Debug)]
pub enum AckStep {
    /// The command is done: report this many bytes sent.
    Done(usize),
    /// The acknowledgment came: clear it and report this many bytes sent.
    Acknowledged(usize),
    /// Sleep this many milliseconds, then look again.
    Wait(u64),
    /// Give up with this error.
    Fail(TelloError),
}

/// Decides what a sender does once its command of `sent` bytes is on its way,
/// `elapsed_ms` milliseconds after it was sent, with `acked` telling whether the
/// acknowledgment has been seen.
pub fn ack_step(sent: usize, requires_ack: bool, acked: bool, elapsed_ms: u64) -> (r: AckStep)
    ensures
        !requires_ack ==> (r matches AckStep::Done(n) && n == sent),
        requires_ack && elapsed_ms < ACK_TIMEOUT_MS && acked ==> (r matches AckStep::Acknowledged(n)
            && n == sent),
        requires_ack && elapsed_ms < ACK_TIMEOUT_MS && !acked ==> (r matches AckStep::Wait(ms) && ms
            == ACK_POLL_MS),
        requires_ack && elapsed_ms >= ACK_TIMEOUT_MS ==> r matches AckStep::Fail(
            TelloError::AckNotReceived,
        ),
{
    if !requires_ack {
        AckStep::Done(sent)
    } else if elapsed_ms >= ACK_TIMEOUT_MS {
        AckStep::Fail(TelloError::AckNotReceived)
    } else if acked {
        AckStep::Acknowledged(sent)
    } else {
        AckStep::Wait(ACK_POLL_MS)
    }
}

/// The affirmative reply of the vehicle.
pub open spec fn ok_reply() -> Seq<u8> {
    ascii("ok"@)
}

/// Whether the (trimmed) reply `reply` acknowledges a command.
pub fn is_ack(reply: &[u8]) -> (r: bool)
    ensures
        r == (reply@ == ok_reply()),
{
    proof {
        reveal_strlit("ok");
    }
    let ok = key_bytes("ok");
    if reply.len() != ok.len() {
        return false;
    }
    let r = reply[0] == ok[0] && reply[1] == ok[1];
    if r {
        assert(reply@ =~= ok@);
    }
    r
}

} // verus!
