//! The echo handler: what to do with a connection after each socket operation.
//!
//! The handler reads, writes back what it read, and reads again. It closes
//! the connection at the end of input and at the first operation that fails.

use vstd::prelude::*;

verus! {

/// What the socket reported of the last operation.
#[derive(Clone, Copy, Debug, PartialEq, Eq)]
pub enum Report {
    /// The connection was handed over; nothing was done yet.
    Opened,
    /// A read gave this many bytes; none at the end of input.
    Read(usize),
    /// All bytes of the last write went out.
    Wrote,
    /// The operation failed.
    Failed,
}

/// What the handler does next.
#[derive(Clone, Copy, Debug, PartialEq, Eq)]
pub enum EchoStep {
    /// Read from the connection.
    Read,
    /// Write back the first bytes of the buffer, this many.
    Write(usize),
    /// Give the connection up.
    Close,
}

/// The handler's next step after `report`.
pub fn echo_step(report: Report) -> (step: EchoStep)
    ensures
        step is Read <==> report is Opened || report is Wrote,
        step is Close <==> report is Failed || report == Report::Read(0),
        step is Write <==> report is Read && report->Read_0 > 0,
        step is Write ==> step->Write_0 == report->Read_0,
{
    match report {
        Report::Opened | Report::Wrote => EchoStep::Read,
        Report::Read(n) => if n == 0 {
            EchoStep::Close
        } else {
            EchoStep::Write(n)
        },
        Report::Failed => EchoStep::Close,
    }
}

} // verus!
