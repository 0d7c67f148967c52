//! The Replicate provider: the request it is sent for each model, the
//! following of a prediction, and the seed it reports in its logs.
use vstd::prelude::*;

use crate::dto::{effective_model, has_default_model, opt_chars, GenerateMediaDto};
use crate::enums::MediaModel;
use crate::error::{internal_error_view, internal_server_error, ApiError};
use crate::poll::{step_of, PollAction, PollStep, MAX_ELAPSED_SECS};
use crate::text::{char_range, is_prefix, starts_with, str_equals};
use crate::dto::copy_opt_string;

verus! {

/// The states of a Replicate prediction.
#[derive(Debug)]
pub enum ReplicatePredictionStatus {
    Starting,
    Processing,
    Succeeded,
    Failed,
    Canceled,
}

/// The name under which Replicate reports a state.
pub open spec fn status_name(s: ReplicatePredictionStatus) -> Seq<char> {
    match s {
        ReplicatePredictionStatus::Starting => "starting"@,
        ReplicatePredictionStatus::Processing => "processing"@,
        ReplicatePredictionStatus::Succeeded => "succeeded"@,
        ReplicatePredictionStatus::Failed => "failed"@,
        ReplicatePredictionStatus::Canceled => "canceled"@,
    }
}

impl ReplicatePredictionStatus {
    /// The name under which Replicate reports this state.
    pub fn value(&self) -> (r: String)
        ensures
            r@ == status_name(*self),
    {
        match *self {
            ReplicatePredictionStatus::Starting => String::from_str("starting"),
            ReplicatePredictionStatus::Processing => String::from_str("processing"),
            ReplicatePredictionStatus::Succeeded => String::from_str("succeeded"),
            ReplicatePredictionStatus::Failed => String::from_str("failed"),
            ReplicatePredictionStatus::Canceled => String::from_str("canceled"),
        }
    }
}

/// The links that Replicate gives for a prediction.
#[derive(Debug)]
pub struct ReplicateUrls {
    pub get: String,
    pub cancel: String,
}

/// The first line of `s`: everything before its first line break.
pub open spec fn first_line(s: Seq<char>) -> Seq<char>
    decreases s.len(),
{
    if s.len() == 0 {
        s
    } else if s[0] == '\n' {
        Seq::empty()
    } else {
        seq![s[0]] + first_line(s.drop_first())
    }
}

proof fn lemma_first_line(s: Seq<char>, i: int)
    requires
        0 <= i <= s.len(),
        forall|j: int| 0 <= j < i ==> s[j] != '\n',
        i < s.len() ==> s[i] == '\n',
    ensures
        first_line(s) == s.subrange(0, i),
    decreases i,
{
    if i == 0 {
        assert(s.subrange(0, 0) =~= Seq::<char>::empty());
    } else {
        lemma_first_line(s.drop_first(), i - 1);
        assert(s.subrange(0, i) =~= seq![s[0]] + s.drop_first().subrange(0, i - 1));
    }
}

/// The line with which Replicate's logs begin when they report the seed.
pub open spec fn seed_prefix() -> Seq<char> {
    "Using seed: "@
}

/// The seed that Replicate's logs report: the rest of their first line,
/// where that line begins with "Using seed: ".
pub open spec fn seed_in_logs(logs: Option<Seq<char>>) -> Option<Seq<char>> {
    match logs {
        None => None,
        Some(l) => {
            let line = first_line(l);
            if is_prefix(seed_prefix(), line) {
                Some(line.subrange(seed_prefix().len() as int, line.len() as int))
            } else {
                None
            }
        },
    }
}

/// The seed that Replicate's logs report, if they report one.
pub fn get_seed_from_logs(logs: Option<String>) -> (r: Option<String>)
    ensures
        opt_chars(r) == seed_in_logs(opt_chars(logs)),
{
    let Some(logs) = logs else {
        return None;
    };
    let s = logs.as_str();
    let n = s.unicode_len();
    let mut end: usize = 0;
    while end < n && s.get_char(end) != '\n'
        invariant
            n == s@.len(),
            end <= n,
            forall|j: int| 0 <= j < end ==> s@[j] != '\n',
        decreases n - end,
    {
        end = end + 1;
    }
    proof {
        lemma_first_line(s@, end as int);
    }
    let line = char_range(s, 0, end);
    let prefix = "Using seed: ";
    proof {
        reveal_strlit("Using seed: ");
    }
    if starts_with(line.as_str(), prefix) {
        let plen = prefix.unicode_len();
        Some(char_range(line.as_str(), plen, end))
    } else {
        None
    }
}

/// The Replicate versions of the models it runs.
#[derive(Debug)]
pub enum ReplicateModelVersion {
    StableDiffusion15,
    StableDiffusion21,
    Openjourney,
}

/// The input of Stable Diffusion 1.5 on Replicate.
#[derive(Debug)]
pub struct InputStableDiffusion15 {
    pub prompt: String,
    pub negative_prompt: Option<String>,
    pub width: u16,
    pub height: u16,
    pub num_outputs: u8,
    pub num_inference_steps: u16,
    pub guidance_scale: u8,
    pub scheduler: Option<String>,
    pub seed: Option<u64>,
}

/// The input of Stable Diffusion 2.1 on Replicate.
#[derive(Debug)]
pub struct InputStableDiffusion21 {
    pub prompt: String,
    pub negative_prompt: Option<String>,
    pub width: u16,
    pub height: u16,
    pub num_outputs: u8,
    pub num_inference_steps: u16,
    pub guidance_scale: u8,
    pub scheduler: Option<String>,
    pub seed: Option<u64>,
}

/// The input of Openjourney on Replicate.
#[derive(Debug)]
pub struct InputSpecOpenjourney {
    pub prompt: String,
    pub width: u16,
    pub height: u16,
    pub num_outputs: u8,
    pub num_inference_steps: u16,
    pub guidance_scale: u8,
    pub seed: Option<u64>,
}

/// The model-specific input of a prediction.
#[derive(Debug)]
pub enum ReplicateInput {
    StableDiffusion15(InputStableDiffusion15),
    StableDiffusion21(InputStableDiffusion21),
    Openjourney(InputSpecOpenjourney),
}

/// A prediction request: the model version and its input.
#[derive(Debug)]
pub struct InputSpec {
    pub version: ReplicateModelVersion,
    pub input: ReplicateInput,
    pub webhook_completed: Option<String>,
}

/// The models that the service runs on Replicate.
pub open spec fn replicate_model(model: Seq<char>) -> bool {
    model == MediaModel::STABLE_DIFFUSION_1_5@ || model == MediaModel::STABLE_DIFFUSION_2_1@
        || model == MediaModel::OPENJOURNEY@
}

/// Whether the service runs `model` on Replicate.
pub fn is_replicate_model(model: &str) -> (r: bool)
    ensures
        r == replicate_model(model@),
{
    str_equals(model, MediaModel::STABLE_DIFFUSION_1_5) || str_equals(
        model,
        MediaModel::STABLE_DIFFUSION_2_1,
    ) || str_equals(model, MediaModel::OPENJOURNEY)
}

/// The style phrase that Openjourney prompts begin with.
pub open spec fn openjourney_style() -> Seq<char> {
    "mdjrny-v4 style"@
}

/// An Openjourney prompt: the prompt as it is where it already begins with
/// the style phrase, else the phrase, a space and the prompt.
pub open spec fn openjourney_prompt(prompt: Seq<char>) -> Seq<char> {
    if is_prefix(openjourney_style(), prompt) {
        prompt
    } else {
        openjourney_style() + " "@ + prompt
    }
}

/// The guidance scale of a request: its own, else 8.
pub open spec fn guidance_of(dto: GenerateMediaDto) -> u8 {
    match dto.cfg_scale {
        Some(c) => c,
        None => 8,
    }
}

/// The prediction request that a generation request becomes: 50 inference
/// steps, the request's guidance scale (8 by default), the K_EULER
/// scheduler for Stable Diffusion, and the style phrase for Openjourney.
pub open spec fn input_spec_matches(dto: GenerateMediaDto, r: InputSpec) -> bool {
    let model = effective_model(dto);
    &&& r.webhook_completed is None
    &&& if model == MediaModel::STABLE_DIFFUSION_1_5@ {
        &&& r.version is StableDiffusion15
        &&& r.input matches ReplicateInput::StableDiffusion15(i) && i.prompt@ == dto.prompt@
            && opt_chars(i.negative_prompt) == opt_chars(dto.negative_prompt) && i.width
            == dto.width && i.height == dto.height && i.num_outputs == dto.number
            && i.num_inference_steps == 50 && i.guidance_scale == guidance_of(dto) && opt_chars(
            i.scheduler,
        ) == Some("K_EULER"@) && i.seed is None
    } else if model == MediaModel::STABLE_DIFFUSION_2_1@ {
        &&& r.version is StableDiffusion21
        &&& r.input matches ReplicateInput::StableDiffusion21(i) && i.prompt@ == dto.prompt@
            && opt_chars(i.negative_prompt) == opt_chars(dto.negative_prompt) && i.width
            == dto.width && i.height == dto.height && i.num_outputs == dto.number
            && i.num_inference_steps == 50 && i.guidance_scale == guidance_of(dto) && opt_chars(
            i.scheduler,
        ) == Some("K_EULER"@) && i.seed is None
    } else {
        &&& r.version is Openjourney
        &&& r.input matches ReplicateInput::Openjourney(i) && i.prompt@ == openjourney_prompt(
            dto.prompt@,
        ) && i.width == dto.width && i.height == dto.height && i.num_outputs == dto.number
            && i.num_inference_steps == 50 && i.guidance_scale == guidance_of(dto) && i.seed is None
    }
}

/// The prediction request for a generation request whose model runs on
/// Replicate.
pub fn provide_input_spec(dto: &GenerateMediaDto) -> (r: InputSpec)
    requires
        has_default_model(dto.generator@),
        replicate_model(effective_model(*dto)),
    ensures
        input_spec_matches(*dto, r),
{
    let model = dto.model_or_default();
    let guidance_scale: u8 = match dto.cfg_scale {
        Some(c) => c,
        None => 8,
    };
    if str_equals(model.as_str(), MediaModel::STABLE_DIFFUSION_1_5) {
        InputSpec {
            version: ReplicateModelVersion::StableDiffusion15,
            input: ReplicateInput::StableDiffusion15(
                InputStableDiffusion15 {
                    prompt: dto.prompt.clone(),
                    negative_prompt: copy_opt_string(&dto.negative_prompt),
                    width: dto.width,
                    height: dto.height,
                    num_outputs: dto.number,
                    num_inference_steps: 50,
                    guidance_scale,
                    scheduler: Some(String::from_str("K_EULER")),
                    seed: None,
                },
            ),
            webhook_completed: None,
        }
    } else if str_equals(model.as_str(), MediaModel::STABLE_DIFFUSION_2_1) {
        InputSpec {
            version: ReplicateModelVersion::StableDiffusion21,
            input: ReplicateInput::StableDiffusion21(
                InputStableDiffusion21 {
                    prompt: dto.prompt.clone(),
                    negative_prompt: copy_opt_string(&dto.negative_prompt),
                    width: dto.width,
                    height: dto.height,
                    num_outputs: dto.number,
                    num_inference_steps: 50,
                    guidance_scale,
                    scheduler: Some(String::from_str("K_EULER")),
                    seed: None,
                },
            ),
            webhook_completed: None,
        }
    } else {
        let prompt = if starts_with(dto.prompt.as_str(), "mdjrny-v4 style") {
            dto.prompt.clone()
        } else {
            let mut p = String::from_str("mdjrny-v4 style ");
            p.append(dto.prompt.as_str());
            proof {
                reveal_strlit("mdjrny-v4 style ");
                reveal_strlit("mdjrny-v4 style");
                reveal_strlit(" ");
                assert("mdjrny-v4 style "@ =~= "mdjrny-v4 style"@ + " "@);
            }
            p
        };
        InputSpec {
            version: ReplicateModelVersion::Openjourney,
            input: ReplicateInput::Openjourney(
                InputSpecOpenjourney {
                    prompt,
                    width: dto.width,
                    height: dto.height,
                    num_outputs: dto.number,
                    num_inference_steps: 50,
                    guidance_scale,
                    seed: None,
                },
            ),
            webhook_completed: None,
        }
    }
}

/// Where the following of a Replicate prediction stands.
#[derive(Debug)]
pub enum ReplicatePhase {
    Creating,
    Waiting,
    Finished,
}

/// The following of a Replicate prediction: its phase and the seconds
/// waited so far between status checks.
#[derive(Debug)]
pub struct ReplicatePoll {
    pub phase: ReplicatePhase,
    pub elapsed: u32,
}

/// What the following of a Replicate prediction hears back.
#[derive(Debug)]
pub enum ReplicateEvent {
    /// The prediction was created, or could not be.
    Created(Result<(), ApiError>),
    /// A status check answered with the prediction's state, or failed.
    Checked(Option<String>),
}

/// The seconds waited between status checks.
pub const REPLICATE_WAIT: u32 = 5;

/// While waiting, no more than the time limit has been waited.
pub open spec fn replicate_inv(s: ReplicatePoll) -> bool {
    s.phase is Waiting ==> s.elapsed <= MAX_ELAPSED_SECS
}

/// The event is one that the phase waits for.
pub open spec fn replicate_expects(s: ReplicatePoll, e: ReplicateEvent) -> bool {
    match s.phase {
        ReplicatePhase::Creating => e is Created,
        ReplicatePhase::Waiting => e is Checked,
        ReplicatePhase::Finished => false,
    }
}

/// The next state and step of following a Replicate prediction. It
/// checks every 5 s until the prediction has succeeded; it fails when a
/// check fails, when the prediction failed or was canceled, and when more
/// than 600 s have been waited.
pub open spec fn replicate_next(s: ReplicatePoll, e: ReplicateEvent) -> (ReplicatePoll, PollStep) {
    let finished = ReplicatePoll { phase: ReplicatePhase::Finished, ..s };
    match e {
        ReplicateEvent::Created(Ok(_)) => (
            ReplicatePoll { phase: ReplicatePhase::Waiting, elapsed: 0 },
            PollStep::WaitThenCheck(5000),
        ),
        ReplicateEvent::Created(Err(err)) => (
            finished,
            PollStep::Finish(Some((err.code, err.message@))),
        ),
        ReplicateEvent::Checked(None) => (finished, PollStep::Finish(internal_error_view())),
        ReplicateEvent::Checked(Some(status)) => {
            let el = s.elapsed + REPLICATE_WAIT;
            if el > MAX_ELAPSED_SECS {
                (finished, PollStep::Finish(internal_error_view()))
            } else if status@ == "failed"@ || status@ == "canceled"@ {
                (finished, PollStep::Finish(internal_error_view()))
            } else if status@ == "succeeded"@ {
                (finished, PollStep::Finish(None))
            } else {
                (
                    ReplicatePoll { phase: ReplicatePhase::Waiting, elapsed: el as u32 },
                    PollStep::WaitThenCheck(5000),
                )
            }
        },
    }
}

impl ReplicatePoll {
    /// The following of a prediction that is about to be created.
    pub fn start() -> (s: ReplicatePoll)
        ensures
            s.phase is Creating,
            replicate_inv(s),
    {
        ReplicatePoll { phase: ReplicatePhase::Creating, elapsed: 0 }
    }

    /// The next state and action, given what was heard back.
    pub fn step(&self, event: ReplicateEvent) -> (r: (ReplicatePoll, PollAction))
        requires
            replicate_inv(*self),
            replicate_expects(*self, event),
        ensures
            (r.0, step_of(r.1)) == replicate_next(*self, event),
            replicate_inv(r.0),
    {
        let finished = ReplicatePoll { phase: ReplicatePhase::Finished, elapsed: self.elapsed };
        match event {
            ReplicateEvent::Created(Ok(_)) => (
                ReplicatePoll { phase: ReplicatePhase::Waiting, elapsed: 0 },
                PollAction::WaitThenCheck { millis: 5000 },
            ),
            ReplicateEvent::Created(Err(err)) => (finished, PollAction::Finish(Err(err))),
            ReplicateEvent::Checked(None) => (
                finished,
                PollAction::Finish(Err(internal_server_error())),
            ),
            ReplicateEvent::Checked(Some(status)) => {
                let el = self.elapsed + REPLICATE_WAIT;
                if el > MAX_ELAPSED_SECS {
                    return (finished, PollAction::Finish(Err(internal_server_error())));
                }
                let succeeded = status == ReplicatePredictionStatus::Succeeded.value();
                let failed = status == ReplicatePredictionStatus::Failed.value();
                let canceled = status == ReplicatePredictionStatus::Canceled.value();
                if failed || canceled {
                    (finished, PollAction::Finish(Err(internal_server_error())))
                } else if succeeded {
                    (finished, PollAction::Finish(Ok(())))
                } else {
                    (
                        ReplicatePoll { phase: ReplicatePhase::Waiting, elapsed: el },
                        PollAction::WaitThenCheck { millis: 5000 },
                    )
                }
            },
        }
    }
}

/// How far a Replicate prediction is from the end of its following.
pub open spec fn replicate_remaining(s: ReplicatePoll) -> nat {
    match s.phase {
        ReplicatePhase::Creating => 1000,
        ReplicatePhase::Waiting => (700 - s.elapsed) as nat,
        ReplicatePhase::Finished => 0,
    }
}

/// Following a Replicate prediction ends: every step finishes it or
/// brings it strictly closer to its end, and no more than 600 s are waited
/// before it is given up.
pub proof fn lemma_replicate_progress(s: ReplicatePoll, e: ReplicateEvent)
    requires
        replicate_inv(s),
        replicate_expects(s, e),
    ensures
        replicate_remaining(replicate_next(s, e).0) < replicate_remaining(s),
        replicate_next(s, e).0.phase is Waiting ==> replicate_next(s, e).0.elapsed
            <= MAX_ELAPSED_SECS,
{
}

} // verus!

verus! {

/// The output links of a finished prediction; a prediction without output
/// fails with "Replicate generated no images.".
pub fn prediction_outputs(output: Option<Vec<String>>) -> (r: Result<Vec<String>, ApiError>)
    ensures
        output is Some <==> r is Ok,
        r matches Ok(v) ==> output == Some(v),
        r matches Err(e) ==> e.code == crate::error::INTERNAL_SERVER_ERROR && e.message@
            == "Replicate generated no images."@,
{
    match output {
        Some(urls) => Ok(urls),
        None => Err(
            ApiError::new(crate::error::INTERNAL_SERVER_ERROR, "Replicate generated no images."),
        ),
    }
}

} // verus!

verus! {

/// The service runs exactly three models on Replicate: Stable Diffusion
/// 1.5, Stable Diffusion 2.1 and Openjourney.
pub proof fn lemma_replicate_models(model: Seq<char>)
    ensures
        replicate_model(model) <==> (model == "stable_diffusion_1_5"@ || model
            == "stable_diffusion_2_1"@ || model == "openjourney"@),
{
}

} // verus!
