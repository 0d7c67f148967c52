//! The LabML provider.
use vstd::prelude::*;

use crate::dto::GenerateMediaDto;
use crate::error::{internal_error_view, internal_server_error, ApiError, INTERNAL_SERVER_ERROR};
use crate::poll::{clamp_wait, clamped_wait_time, step_of, PollAction, PollStep, MAX_ELAPSED_SECS};

verus! {

/// The sizes that LabML offers: 512 x 512.
pub open spec fn labml_size_ok(width: u16, height: u16) -> bool {
    width == 512 && height == 512
}

/// LabML always makes two images.
pub open spec fn labml_number_ok(number: u8) -> bool {
    number == 2
}

/// Whether LabML offers images of `width` x `height`.
pub fn is_valid_size(width: &u16, height: &u16) -> (r: bool)
    ensures
        r == labml_size_ok(*width, *height),
{
    if *width != 512 {
        return false;
    }
    if *height != 512 {
        return false;
    }
    true
}

/// Whether LabML makes `number` images at once.
pub fn is_valid_number(number: u8) -> (r: bool)
    ensures
        r == labml_number_ok(number),
{
    number == 2
}

} // verus!

verus! {

/// A LabML time estimate: whether it is above zero, and its whole seconds.
#[derive(Debug)]
pub struct LabmlEstimate {
    pub positive: bool,
    pub whole_secs: u32,
}

/// The seconds that an estimate stands for: its whole seconds where it is
/// above zero, else `default`.
pub open spec fn estimate_secs(e: LabmlEstimate, default: u32) -> u32 {
    if e.positive {
        e.whole_secs
    } else {
        default
    }
}

/// What a LabML status check reports.
#[derive(Debug)]
pub struct LabmlStatus {
    pub is_completed: bool,
    pub eta: LabmlEstimate,
}

/// What the following of a LabML job hears back.
#[derive(Debug)]
pub enum LabmlEvent {
    /// The job was submitted (with LabML's estimate), or could not be.
    Generated(Result<LabmlEstimate, ApiError>),
    /// A status check answered, or failed (`None`).
    Checked(Option<LabmlStatus>),
}

/// Where the following of a LabML job stands.
#[derive(Debug)]
pub enum LabmlPhase {
    Generating,
    FirstCheck,
    Waiting,
    Finished,
}

/// The following of a LabML job: its phase, the seconds waited so far
/// between status checks, and the next wait.
#[derive(Debug)]
pub struct LabmlPoll {
    pub phase: LabmlPhase,
    pub elapsed: u32,
    pub wait_time: u32,
}

/// The seconds waited between checks when LabML gives no estimate, the
/// least wait, and the most.
pub const LABML_DEFAULT_WAIT: u32 = 3;

pub const LABML_MAX_WAIT: u32 = 60;

/// While waiting, the next wait lies between the least and the most, and
/// no more than the time limit has been waited.
pub open spec fn labml_inv(s: LabmlPoll) -> bool {
    s.phase is Waiting ==> LABML_DEFAULT_WAIT <= s.wait_time <= LABML_MAX_WAIT && s.elapsed
        <= MAX_ELAPSED_SECS
}

/// The event is one that the phase waits for.
pub open spec fn labml_expects(s: LabmlPoll, e: LabmlEvent) -> bool {
    match s.phase {
        LabmlPhase::Generating => e is Generated,
        LabmlPhase::FirstCheck => e is Checked,
        LabmlPhase::Waiting => e is Checked,
        LabmlPhase::Finished => false,
    }
}

/// The first wait, in milliseconds, is computed in 32 bits.
pub open spec fn labml_event_ok(e: LabmlEvent) -> bool {
    e matches LabmlEvent::Generated(Ok(est)) ==> 1000 * estimate_secs(est, LABML_DEFAULT_WAIT)
        <= u32::MAX
}

/// The next state and step of following a LabML job. After submission it
/// sleeps for LabML's estimate (3 s without one) and checks once; then,
/// while the job is not completed, it waits LabML's estimate clamped to
/// 3..60 s between checks. It fails on a failed check, and when more than
/// 600 s have been waited between checks.
pub open spec fn labml_next(s: LabmlPoll, e: LabmlEvent) -> (LabmlPoll, PollStep) {
    let finished = LabmlPoll { phase: LabmlPhase::Finished, ..s };
    match e {
        LabmlEvent::Generated(Ok(est)) => (
            LabmlPoll { phase: LabmlPhase::FirstCheck, ..s },
            PollStep::WaitThenCheck((1000 * estimate_secs(est, LABML_DEFAULT_WAIT)) as u64),
        ),
        LabmlEvent::Generated(Err(err)) => (
            finished,
            PollStep::Finish(Some((err.code, err.message@))),
        ),
        LabmlEvent::Checked(None) => (finished, PollStep::Finish(internal_error_view())),
        LabmlEvent::Checked(Some(st)) => {
            let w = clamp_wait(
                estimate_secs(st.eta, LABML_DEFAULT_WAIT),
                LABML_DEFAULT_WAIT,
                LABML_MAX_WAIT,
            );
            let el: int = if s.phase is FirstCheck {
                0
            } else {
                s.elapsed + s.wait_time
            };
            if el > MAX_ELAPSED_SECS {
                (finished, PollStep::Finish(internal_error_view()))
            } else if st.is_completed {
                (finished, PollStep::Finish(None))
            } else {
                (
                    LabmlPoll { phase: LabmlPhase::Waiting, elapsed: el as u32, wait_time: w },
                    PollStep::WaitThenCheck((w * 1000) as u64),
                )
            }
        },
    }
}

/// How far a LabML job is from the end of its following; every step
/// brings it closer.
pub open spec fn labml_remaining(s: LabmlPoll) -> nat {
    match s.phase {
        LabmlPhase::Generating => 1000,
        LabmlPhase::FirstCheck => 900,
        LabmlPhase::Waiting => (700 - s.elapsed) as nat,
        LabmlPhase::Finished => 0,
    }
}

impl LabmlPoll {
    /// The following of a job that is about to be submitted.
    pub fn start() -> (s: LabmlPoll)
        ensures
            s.phase is Generating,
            s.elapsed == 0,
            s.wait_time == LABML_DEFAULT_WAIT,
            labml_inv(s),
    {
        LabmlPoll { phase: LabmlPhase::Generating, elapsed: 0, wait_time: LABML_DEFAULT_WAIT }
    }

    /// The next state and action, given what was heard back.
    pub fn step(&self, event: LabmlEvent) -> (r: (LabmlPoll, PollAction))
        requires
            labml_inv(*self),
            labml_expects(*self, event),
            labml_event_ok(event),
        ensures
            (r.0, step_of(r.1)) == labml_next(*self, event),
            labml_inv(r.0),
    {
        let finished = LabmlPoll {
            phase: LabmlPhase::Finished,
            elapsed: self.elapsed,
            wait_time: self.wait_time,
        };
        match event {
            LabmlEvent::Generated(Ok(est)) => {
                let eta: u32 = if est.positive {
                    est.whole_secs
                } else {
                    LABML_DEFAULT_WAIT
                };
                let millis: u32 = 1000 * eta;
                (
                    LabmlPoll {
                        phase: LabmlPhase::FirstCheck,
                        elapsed: self.elapsed,
                        wait_time: self.wait_time,
                    },
                    PollAction::WaitThenCheck { millis: millis as u64 },
                )
            },
            LabmlEvent::Generated(Err(err)) => (finished, PollAction::Finish(Err(err))),
            LabmlEvent::Checked(None) => (
                finished,
                PollAction::Finish(Err(internal_server_error())),
            ),
            LabmlEvent::Checked(Some(st)) => {
                let eta: u32 = if st.eta.positive {
                    st.eta.whole_secs
                } else {
                    LABML_DEFAULT_WAIT
                };
                let w = clamped_wait_time(eta, LABML_DEFAULT_WAIT, LABML_MAX_WAIT);
                let el: u32 = match self.phase {
                    LabmlPhase::FirstCheck => 0,
                    _ => self.elapsed + self.wait_time,
                };
                if el > MAX_ELAPSED_SECS {
                    (finished, PollAction::Finish(Err(internal_server_error())))
                } else if st.is_completed {
                    (finished, PollAction::Finish(Ok(())))
                } else {
                    (
                        LabmlPoll { phase: LabmlPhase::Waiting, elapsed: el, wait_time: w },
                        PollAction::WaitThenCheck { millis: (w as u64) * 1000 },
                    )
                }
            },
        }
    }
}

/// Following a LabML job ends: every step either finishes or brings the
/// job strictly closer to its end, and between status checks no more than
/// 600 s in all are waited before the job is given up.
pub proof fn lemma_labml_progress(s: LabmlPoll, e: LabmlEvent)
    requires
        labml_inv(s),
        labml_expects(s, e),
    ensures
        labml_remaining(labml_next(s, e).0) < labml_remaining(s),
        labml_next(s, e).0.phase is Waiting ==> labml_next(s, e).0.elapsed <= MAX_ELAPSED_SECS,
{
}

/// Whether a LabML reply reports success; one that does not is retried
/// as a failure.
pub fn accept_reply(is_success: bool, operation: &str) -> (r: Result<(), ApiError>)
    ensures
        is_success <==> r is Ok,
        r matches Err(e) ==> e.code == INTERNAL_SERVER_ERROR && e.message@ == operation@
            + " failed (not is_success)"@,
{
    if is_success {
        Ok(())
    } else {
        let mut message = String::from_str(operation);
        message.append(" failed (not is_success)");
        Err(ApiError { code: INTERNAL_SERVER_ERROR, message })
    }
}

} // verus!

verus! {

/// A LabML generation request (the prompt and image strengths, fractions,
/// are never set and are left out).
#[derive(Debug)]
pub struct InputSpec {
    pub api_token: String,
    pub prompt: String,
    pub negative_prompt: Option<String>,
    pub n_steps: Option<u16>,
    pub sampling_method: Option<String>,
    pub seeds: Option<Vec<String>>,
    pub source: Option<String>,
    pub mask: Option<String>,
}

/// The LabML request for a generation request: its prompt, 50 steps,
/// LabML's defaults for the rest.
pub fn provide_input_spec(dto: &GenerateMediaDto, labml_api_key: &str) -> (r: InputSpec)
    ensures
        r.api_token@ == labml_api_key@,
        r.prompt@ == dto.prompt@,
        r.negative_prompt is None,
        r.n_steps == Some(50u16),
        r.sampling_method is None,
        r.seeds is None,
        r.source is None,
        r.mask is None,
{
    InputSpec {
        api_token: String::from_str(labml_api_key),
        prompt: dto.prompt.clone(),
        negative_prompt: None,
        n_steps: Some(50),
        sampling_method: None,
        seeds: None,
        source: None,
        mask: None,
    }
}

/// An image that LabML made: its link and the link of its thumbnail.
#[derive(Debug)]
pub struct LabmlImage {
    pub image: String,
    pub thumbnail: String,
}

} // verus!

verus! {

/// The images of a finished LabML job; a job that made none fails with
/// "LabML generated no images.".
pub fn labml_images(images: Vec<LabmlImage>) -> (r: Result<Vec<LabmlImage>, ApiError>)
    ensures
        images@.len() >= 1 <==> r is Ok,
        r matches Ok(v) ==> v == images,
        r matches Err(e) ==> e.code == INTERNAL_SERVER_ERROR && e.message@
            == "LabML generated no images."@,
{
    if images.len() < 1 {
        return Err(ApiError::new(INTERNAL_SERVER_ERROR, "LabML generated no images."));
    }
    Ok(images)
}

} // verus!
