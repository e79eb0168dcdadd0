//! Banner collection on an open connection: what each outcome of writing
//! the probe and of reading the answer means for the capture.
//!
//! The caller owns the connection. It writes the probe, then reads chunk by
//! chunk, and after every call asks here whether to read on, to finish with
//! the bytes it has, or to give the capture up.

use crate::task::{EventView, TaskEvent};
use vstd::prelude::*;

verus! {

/// How one read on the connection ended.
#[derive(Clone, Copy, Debug, PartialEq, Eq, Structural)]
pub enum ReadOutcome {
    /// The peer sent bytes.
    Data,
    /// The peer closed the connection.
    Closed,
    /// The read was interrupted before anything arrived.
    Interrupted,
    /// Nothing arrived before the time for the capture ran out.
    TimedOut,
    /// The read failed for any other reason.
    Failed,
}

/// What to do after a write or a read.
#[derive(Clone, Copy, Debug, PartialEq, Eq, Structural)]
pub enum ReadStep {
    /// Read again.
    ReadOn,
    /// The capture is over; the bytes read so far are the answer.
    Finish,
    /// The capture failed; the bytes read so far are dropped.
    Fail,
}

/// What follows writing the probe: reading where it was sent, else failure.
pub open spec fn spec_after_probe(sent: bool) -> ReadStep {
    if sent {
        ReadStep::ReadOn
    } else {
        ReadStep::Fail
    }
}

/// What follows a read: bytes and interruptions lead to the next read, the
/// peer's closing and the timeout end the capture, any other error fails it.
pub open spec fn spec_after_read(outcome: ReadOutcome) -> ReadStep {
    match outcome {
        ReadOutcome::Data => ReadStep::ReadOn,
        ReadOutcome::Interrupted => ReadStep::ReadOn,
        ReadOutcome::Closed => ReadStep::Finish,
        ReadOutcome::TimedOut => ReadStep::Finish,
        ReadOutcome::Failed => ReadStep::Fail,
    }
}

/// The event that a capture ends with: a failed capture is a failure
/// whatever was read; any other capture hands over what was read.
pub open spec fn spec_capture_event(step: ReadStep, bytes: Seq<u8>) -> EventView {
    match step {
        ReadStep::Fail => EventView::BannerFailed,
        _ => EventView::BannerRead(bytes),
    }
}

/// Says what to do after the probe was written; `sent` tells whether the
/// whole probe went out.
pub fn after_probe(sent: bool) -> (step: ReadStep)
    ensures
        step == spec_after_probe(sent),
{
    if sent {
        ReadStep::ReadOn
    } else {
        ReadStep::Fail
    }
}

/// Says what to do after a read.
pub fn after_read(outcome: ReadOutcome) -> (step: ReadStep)
    ensures
        step == spec_after_read(outcome),
{
    match outcome {
        ReadOutcome::Data => ReadStep::ReadOn,
        ReadOutcome::Interrupted => ReadStep::ReadOn,
        ReadOutcome::Closed => ReadStep::Finish,
        ReadOutcome::TimedOut => ReadStep::Finish,
        ReadOutcome::Failed => ReadStep::Fail,
    }
}

/// The event with which the capture is reported to the port's task, from
/// the step that ended it and the bytes read until then.
pub fn capture_event(step: ReadStep, bytes: Vec<u8>) -> (event: TaskEvent)
    ensures
        event@ == spec_capture_event(step, bytes@),
{
    match step {
        ReadStep::Fail => TaskEvent::BannerFailed,
        _ => TaskEvent::BannerRead(bytes),
    }
}

/// A capture never ends in failure because the peer was slow or silent:
/// the timeout and the peer's closing both keep what was read, and only an
/// error that is neither of them, nor an interruption, drops it.
pub proof fn lemma_only_errors_drop_bytes(outcome: ReadOutcome, bytes: Seq<u8>)
    ensures
        spec_capture_event(spec_after_read(outcome), bytes) is BannerFailed <==> outcome
            == ReadOutcome::Failed,
        outcome != ReadOutcome::Failed ==> spec_capture_event(spec_after_read(outcome), bytes)
            == EventView::BannerRead(bytes),
{
}

} // verus!
