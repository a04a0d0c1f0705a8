use crate::error::Error;
use crate::exit_kind::ExitKind;
use vstd::prelude::*;

verus! {

/// How the helper process reported the end of one run.
#[derive(Clone, Copy, Debug, PartialEq, Eq, Structural)]
pub enum RunStatus {
    /// No acknowledgment came within the timeout.
    TimedOut,
    /// The target was ended by this signal.
    Signaled(i32),
    /// The target exited with this code.
    Exited(i32),
}

/// Whether an exit code matches the configured crash code in its low byte, the only
/// part of an exit status a process can set (so -1 matches 255).
pub open spec fn same_low_byte(code: i32, c: i8) -> bool {
    (code as int) % 256 == (c as int) % 256
}

/// The kind of a run: a timeout stays a timeout, a signal is a crash, and so is the
/// exit code configured to mean a crash; anything else is normal.
pub open spec fn classify_spec(status: RunStatus, crash_exitcode: Option<i8>) -> ExitKind {
    match status {
        RunStatus::TimedOut => ExitKind::Timeout,
        RunStatus::Signaled(_) => ExitKind::Crash,
        RunStatus::Exited(code) => match crash_exitcode {
            Some(c) => if same_low_byte(code, c) {
                ExitKind::Crash
            } else {
                ExitKind::Normal
            },
            None => ExitKind::Normal,
        },
    }
}

fn low_byte_matches(code: i32, c: i8) -> (r: bool)
    ensures
        r == same_low_byte(code, c),
{
    let a: u64 = (code as i64 + 2147483648i64) as u64;
    let b: u64 = (c as i64 + 256i64) as u64;
    proof {
        assert((a as int) % 256 == (code as int) % 256) by (nonlinear_arith)
            requires
                a as int == code as int + 2147483648,
        ;
        assert((b as int) % 256 == (c as int) % 256) by (nonlinear_arith)
            requires
                b as int == c as int + 256,
        ;
    }
    a % 256 == b % 256
}

pub fn classify_run(status: RunStatus, crash_exitcode: Option<i8>) -> (r: ExitKind)
    ensures
        r == classify_spec(status, crash_exitcode),
{
    match status {
        RunStatus::TimedOut => ExitKind::Timeout,
        RunStatus::Signaled(_) => ExitKind::Crash,
        RunStatus::Exited(code) => match crash_exitcode {
            Some(c) => if low_byte_matches(code, c) {
                ExitKind::Crash
            } else {
                ExitKind::Normal
            },
            None => ExitKind::Normal,
        },
    }
}

/// The little-endian value of four bytes.
pub open spec fn le_u32(b: Seq<u8>) -> int {
    b[0] as int + b[1] as int * 256 + b[2] as int * 65536 + b[3] as int * 16777216
}

/// Reads one control word sent by the helper process; anything but four bytes breaks
/// the protocol.
pub fn read_control_word(bytes: &Vec<u8>) -> (r: Result<u32, Error>)
    ensures
        bytes@.len() == 4 ==> r == Ok::<u32, Error>(le_u32(bytes@) as u32),
        bytes@.len() != 4 ==> r == Err::<u32, Error>(Error::ProtocolViolation),
{
    if bytes.len() != 4 {
        return Err(Error::ProtocolViolation);
    }
    let v: u32 = bytes[0] as u32 + bytes[1] as u32 * 256 + bytes[2] as u32 * 65536 + bytes[3] as u32
        * 16777216;
    Ok(v)
}

/// The four bytes, little-endian, of a control word sent to the helper process.
pub fn write_control_word(word: u32) -> (r: Vec<u8>)
    ensures
        r@.len() == 4,
        le_u32(r@) == word as int,
{
    let b0 = (word % 256) as u8;
    let b1 = ((word / 256) % 256) as u8;
    let b2 = ((word / 65536) % 256) as u8;
    let b3 = (word / 16777216) as u8;
    let r = vec![b0, b1, b2, b3];
    assert(r@[0] == b0 && r@[1] == b1 && r@[2] == b2 && r@[3] == b3);
    r
}

} // verus!
