//! The fetch timer: a one-shot, self-addressed delayed command.
//!
//! The timer is never periodic. It is armed once when the handshake
//! completes and once more each time a fetch command is handled, so at most
//! one fetch is outstanding at any time.

use crate::action::{Action, ActionView};
use crate::messages::StreamWorkerCmd;
use std::time::Duration;
use vstd::prelude::*;

verus! {

/// The delay, in milliseconds, before the first fetch after the handshake.
pub const FIRST_FETCH_DELAY_MILLIS: u64 = 10;

/// What `Duration::as_nanos` returns: the whole duration in nanoseconds.
pub uninterp spec fn duration_nanos(duration: Duration) -> nat;

/// `Duration::from_millis`: the duration of that many milliseconds, which
/// is a million nanoseconds each.
#[verifier::external_body]
pub(crate) fn duration_from_millis(millis: u64) -> (res: Duration)
    ensures
        duration_nanos(res) == millis * 1_000_000,
{
    Duration::from_millis(millis)
}

/// Dispatch a fetch event with an interval duration: the action that arms
/// the timer to deliver a fetch command after `interval`.
///
/// It has to be issued again whenever a fetch command is handled.
pub fn fetch_interval(interval: Duration) -> (action: Action)
    ensures
        action@ == (ActionView::Schedule {
            delay_nanos: duration_nanos(interval),
            command: StreamWorkerCmd::Fetch,
        }),
{
    Action::Schedule { delay: interval, command: StreamWorkerCmd::fetch() }
}

} // verus!
