//! Mode bits, speed codes and call selectors of the Linux terminal interface.
//!
//! The constants below are the model that the contracts of this crate speak of.
//! The numbers that reach the device are read from the `termios` crate by the
//! functions at the end of this module, each of which is trusted to return the
//! constant it is named after.

use vstd::prelude::*;

verus! {

/// Input mode bit: ignore a break condition on the line.
pub const IGNBRK: u32 = 0o000001;

/// Input mode bit: ignore bytes that arrive with a framing or parity error.
pub const IGNPAR: u32 = 0o000004;

/// Input mode bit: software flow control on output.
pub const IXON: u32 = 0o002000;

/// Input mode bit: software flow control on input.
pub const IXOFF: u32 = 0o010000;

/// Output mode bit: post-process output.
pub const OPOST: u32 = 0o000001;

/// Control mode mask of the character size.
pub const CSIZE: u32 = 0o000060;

/// Control mode value of the character size: eight bits.
pub const CS8: u32 = 0o000060;

/// Control mode bit: send two stop bits instead of one.
pub const CSTOPB: u32 = 0o000100;

/// Control mode bit: enable the receiver.
pub const CREAD: u32 = 0o000200;

/// Control mode bit: generate and check parity.
pub const PARENB: u32 = 0o000400;

/// Control mode bit: ignore modem status lines.
pub const CLOCAL: u32 = 0o004000;

/// Control mode bit: hardware flow control.
pub const CRTSCTS: u32 = 0o20000000000;

/// Local mode bit: generate signals from control characters.
pub const ISIG: u32 = 0o000001;

/// Local mode bit: line editing.
pub const ICANON: u32 = 0o000002;

/// Local mode bit: echo input.
pub const ECHO: u32 = 0o000010;

/// Speed code of 9600 baud.
pub const B9600: u32 = 0o000015;

/// Speed code of 38400 baud.
pub const B38400: u32 = 0o000017;

/// Speed code of 57600 baud.
pub const B57600: u32 = 0o010001;

/// Speed code of 115200 baud.
pub const B115200: u32 = 0o010002;

/// Selector for applying attributes: at once.
pub const TCSANOW: i32 = 0;

/// Selector for discarding queued data: both directions.
pub const TCIOFLUSH: i32 = 2;

/// Reads `termios::os::linux::IGNBRK`, which that crate defines as 0o000001.
#[verifier::external_body]
pub(crate) fn ignbrk() -> (bit: u32)
    ensures
        bit == IGNBRK,
{
    termios::os::linux::IGNBRK
}

/// Reads `termios::os::linux::IGNPAR`, which that crate defines as 0o000004.
#[verifier::external_body]
pub(crate) fn ignpar() -> (bit: u32)
    ensures
        bit == IGNPAR,
{
    termios::os::linux::IGNPAR
}

/// Reads `termios::os::linux::CS8`, which that crate defines as 0o000060.
#[verifier::external_body]
pub(crate) fn cs8() -> (bits: u32)
    ensures
        bits == CS8,
{
    termios::os::linux::CS8
}

/// Reads `termios::os::linux::CREAD`, which that crate defines as 0o000200.
#[verifier::external_body]
pub(crate) fn cread() -> (bit: u32)
    ensures
        bit == CREAD,
{
    termios::os::linux::CREAD
}

/// Reads `termios::os::linux::CLOCAL`, which that crate defines as 0o004000.
#[verifier::external_body]
pub(crate) fn clocal() -> (bit: u32)
    ensures
        bit == CLOCAL,
{
    termios::os::linux::CLOCAL
}

/// Reads `termios::os::linux::B9600`, which that crate defines as 0o000015.
#[verifier::external_body]
pub(crate) fn b9600() -> (code: u32)
    ensures
        code == B9600,
{
    termios::os::linux::B9600
}

/// Reads `termios::os::linux::B38400`, which that crate defines as 0o000017.
#[verifier::external_body]
pub(crate) fn b38400() -> (code: u32)
    ensures
        code == B38400,
{
    termios::os::linux::B38400
}

/// Reads `termios::os::linux::B57600`, which that crate defines as 0o010001.
#[verifier::external_body]
pub(crate) fn b57600() -> (code: u32)
    ensures
        code == B57600,
{
    termios::os::linux::B57600
}

/// Reads `termios::os::linux::B115200`, which that crate defines as 0o010002.
#[verifier::external_body]
pub(crate) fn b115200() -> (code: u32)
    ensures
        code == B115200,
{
    termios::os::linux::B115200
}

/// Reads `termios::os::linux::TCSANOW`, which that crate defines as 0.
#[verifier::external_body]
pub(crate) fn tcsanow() -> (selector: i32)
    ensures
        selector == TCSANOW,
{
    termios::os::linux::TCSANOW
}

/// Reads `termios::os::linux::TCIOFLUSH`, which that crate defines as 2.
#[verifier::external_body]
pub(crate) fn tcioflush() -> (selector: i32)
    ensures
        selector == TCIOFLUSH,
{
    termios::os::linux::TCIOFLUSH
}

} // verus!
