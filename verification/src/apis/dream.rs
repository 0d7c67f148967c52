//! The Dream provider: one task per image, created, given its input and
//! followed until it is no longer pending or generating.
use vstd::prelude::*;

use crate::dto::GenerateMediaDto;
use crate::error::{internal_error_view, internal_server_error, ApiError, BAD_REQUEST};
use crate::poll::{step_of, PollAction, PollStep};

verus! {

/// The states of a Dream task.
#[derive(Debug)]
pub struct DreamTaskState;

impl DreamTaskState {
    pub const INPUT: &'static str = "input";

    pub const PENDING: &'static str = "pending";

    pub const GENERATING: &'static str = "generating";

    pub const COMPLETED: &'static str = "completed";
}

/// The input of a Dream task (the weight of a target image, a fraction,
/// is never set and is left out).
#[derive(Debug)]
pub struct InputSpec {
    pub style: u8,
    pub prompt: String,
    pub width: Option<u16>,
    pub height: Option<u16>,
}

/// Where a task's target image is uploaded.
#[derive(Debug)]
pub struct TargetImageUrl {
    pub url: String,
    pub fields: Fields,
}

/// The form fields of a target image upload.
#[derive(Debug)]
pub struct Fields {
    pub key: String,
    pub aws_access_key_id: String,
    pub policy: String,
    pub signature: String,
}

/// The sizes that Dream offers.
pub open spec fn dream_size_ok(width: u16, height: u16) -> bool {
    (width == 512 && height == 512) || (width == 512 && height == 1024) || (width == 1024 && height
        == 512) || (width == 640 && height == 1024) || (width == 1024 && height == 640)
}

/// The refusal of a size that Dream does not offer.
pub open spec fn dream_size_message() -> Seq<char> {
    "Size must be one of: 512x512, 512x1024, 1024x512, 640x1024, 1024x640"@
}

/// The input of a task for a generation request, in style 3; refused when
/// Dream does not offer the size.
pub fn provide_input_spec(dto: &GenerateMediaDto) -> (r: Result<InputSpec, ApiError>)
    ensures
        dream_size_ok(dto.width, dto.height) <==> r is Ok,
        r matches Ok(spec) ==> spec.style == 3 && spec.prompt@ == dto.prompt@ && spec.width == Some(
            dto.width,
        ) && spec.height == Some(dto.height),
        r matches Err(e) ==> e.code == BAD_REQUEST && e.message@ == dream_size_message(),
{
    let w = dto.width;
    let h = dto.height;
    let valid = (w == 512 && h == 512) || (w == 512 && h == 1024) || (w == 1024 && h == 512) || (w
        == 640 && h == 1024) || (w == 1024 && h == 640);
    if !valid {
        return Err(
            ApiError::new(
                BAD_REQUEST,
                "Size must be one of: 512x512, 512x1024, 1024x512, 640x1024, 1024x640",
            ),
        );
    }
    Ok(
        InputSpec {
            style: 3,
            prompt: dto.prompt.clone(),
            width: Some(dto.width),
            height: Some(dto.height),
        },
    )
}

/// The number of Dream tasks started for a request: one per requested
/// image, each followed on its own.
pub fn dream_task_count(dto: &GenerateMediaDto) -> (n: usize)
    ensures
        n == dto.number,
{
    dto.number as usize
}

/// What the following of a Dream task hears back.
#[derive(Debug)]
pub enum DreamEvent {
    /// The task was created, or could not be.
    Created(Result<(), ApiError>),
    /// The task was given its input and reports its state, or the update
    /// failed.
    Updated(Result<String, ApiError>),
    /// A check reports the task's state, or failed.
    Checked(Option<String>),
}

/// Where the following of a Dream task stands.
#[derive(Debug)]
pub enum DreamPhase {
    Creating,
    Updating,
    Waiting,
    Finished,
}

/// A task in this state is still being worked on.
pub open spec fn dream_busy(state: Seq<char>) -> bool {
    state == DreamTaskState::GENERATING@ || state == DreamTaskState::PENDING@
}

/// The event is one that the phase waits for.
pub open spec fn dream_expects(p: DreamPhase, e: DreamEvent) -> bool {
    match p {
        DreamPhase::Creating => e is Created,
        DreamPhase::Updating => e is Updated,
        DreamPhase::Waiting => e is Checked,
        DreamPhase::Finished => false,
    }
}

/// What follows a reported task state: another check 5 s later while the
/// task is pending or generating; success once it is completed; failure in
/// any other state.
pub open spec fn dream_after_state(state: Seq<char>) -> (DreamPhase, PollStep) {
    if dream_busy(state) {
        (DreamPhase::Waiting, PollStep::WaitThenCheck(5000))
    } else if state == DreamTaskState::COMPLETED@ {
        (DreamPhase::Finished, PollStep::Finish(None))
    } else {
        (DreamPhase::Finished, PollStep::Finish(internal_error_view()))
    }
}

/// The next phase and step of following a Dream task.
pub open spec fn dream_next(p: DreamPhase, e: DreamEvent) -> (DreamPhase, PollStep) {
    match e {
        DreamEvent::Created(Ok(_)) => (DreamPhase::Updating, PollStep::UpdateTask),
        DreamEvent::Created(Err(err)) => (
            DreamPhase::Finished,
            PollStep::Finish(Some((err.code, err.message@))),
        ),
        DreamEvent::Updated(Ok(state)) => dream_after_state(state@),
        DreamEvent::Updated(Err(err)) => (
            DreamPhase::Finished,
            PollStep::Finish(Some((err.code, err.message@))),
        ),
        DreamEvent::Checked(Some(state)) => dream_after_state(state@),
        DreamEvent::Checked(None) => (DreamPhase::Finished, PollStep::Finish(internal_error_view())),
    }
}

/// What follows a reported task state.
fn after_state(state: &String) -> (r: (DreamPhase, PollAction))
    ensures
        (r.0, step_of(r.1)) == dream_after_state(state@),
{
    let s = state.as_str();
    if crate::text::str_equals(s, DreamTaskState::GENERATING) || crate::text::str_equals(
        s,
        DreamTaskState::PENDING,
    ) {
        (DreamPhase::Waiting, PollAction::WaitThenCheck { millis: 5000 })
    } else if crate::text::str_equals(s, DreamTaskState::COMPLETED) {
        (DreamPhase::Finished, PollAction::Finish(Ok(())))
    } else {
        (DreamPhase::Finished, PollAction::Finish(Err(internal_server_error())))
    }
}

impl DreamPhase {
    /// The next phase and action, given what was heard back.
    pub fn step(&self, event: DreamEvent) -> (r: (DreamPhase, PollAction))
        requires
            dream_expects(*self, event),
        ensures
            (r.0, step_of(r.1)) == dream_next(*self, event),
    {
        match event {
            DreamEvent::Created(Ok(_)) => (DreamPhase::Updating, PollAction::UpdateTask),
            DreamEvent::Created(Err(err)) => (DreamPhase::Finished, PollAction::Finish(Err(err))),
            DreamEvent::Updated(Ok(state)) => after_state(&state),
            DreamEvent::Updated(Err(err)) => (DreamPhase::Finished, PollAction::Finish(Err(err))),
            DreamEvent::Checked(Some(state)) => after_state(&state),
            DreamEvent::Checked(None) => (
                DreamPhase::Finished,
                PollAction::Finish(Err(internal_server_error())),
            ),
        }
    }
}

/// A Dream task succeeds only in the completed state, and is checked
/// again only while it is pending or generating.
pub proof fn lemma_dream_outcomes(p: DreamPhase, state: String)
    requires
        p is Updating || p is Waiting,
    ensures
        ({
            let e = if p is Updating {
                DreamEvent::Updated(Ok(state))
            } else {
                DreamEvent::Checked(Some(state))
            };
            &&& dream_next(p, e).1 == PollStep::Finish(None) ==> state@
                == DreamTaskState::COMPLETED@
            &&& dream_next(p, e).1 is WaitThenCheck ==> dream_busy(state@)
        }),
{
    reveal_strlit("completed");
    reveal_strlit("generating");
    reveal_strlit("pending");
}

} // verus!
