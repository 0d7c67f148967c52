//! What the following of a provider's progress asks the caller to do next,
//! and the waiting rule that the providers with an estimate share.
use vstd::prelude::*;

use crate::error::ApiError;

verus! {

/// The next step of following a provider's progress.
#[derive(Debug)]
pub enum PollAction {
    /// Sleep this many milliseconds, then ask the provider for its status.
    WaitThenCheck { millis: u64 },
    /// Ask the provider for the full result (not only the status).
    FetchResult,
    /// Send the provider the task's input.
    UpdateTask,
    /// Stop: the outcome is known.
    Finish(Result<(), ApiError>),
}

/// A poll step as plain values; an error by its status code and message.
pub enum PollStep {
    WaitThenCheck(u64),
    FetchResult,
    UpdateTask,
    Finish(Option<(u16, Seq<char>)>),
}

/// The step that an action stands for.
pub open spec fn step_of(a: PollAction) -> PollStep {
    match a {
        PollAction::WaitThenCheck { millis } => PollStep::WaitThenCheck(millis),
        PollAction::FetchResult => PollStep::FetchResult,
        PollAction::UpdateTask => PollStep::UpdateTask,
        PollAction::Finish(r) => PollStep::Finish(
            match r {
                Ok(_) => None,
                Err(e) => Some((e.code, e.message@)),
            },
        ),
    }
}

/// The waiting time for a provider's estimate: the estimate, but no less
/// than `default` and no more than `max`.
pub open spec fn clamp_wait(estimate: u32, default: u32, max: u32) -> u32 {
    if estimate > max {
        max
    } else if estimate > default {
        estimate
    } else {
        default
    }
}

/// The waiting time for a provider's estimate (see `clamp_wait`).
pub fn clamped_wait_time(estimate: u32, default: u32, max: u32) -> (r: u32)
    ensures
        r == clamp_wait(estimate, default, max),
        default <= max ==> default <= r <= max,
{
    if estimate > max {
        max
    } else if estimate > default {
        estimate
    } else {
        default
    }
}

/// The longest time, in seconds, that a provider is waited for.
pub const MAX_ELAPSED_SECS: u32 = 600;

} // verus!
