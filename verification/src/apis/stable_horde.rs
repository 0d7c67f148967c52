//! The Stable Horde provider.
use vstd::prelude::*;

use crate::apis::mist::side_512_768_1024;
use crate::enums::MediaModel;
use crate::dto::{effective_model, has_default_model, GenerateMediaDto};
use crate::error::{internal_error_view, internal_server_error, ApiError};
use crate::poll::{clamp_wait, clamped_wait_time, step_of, PollAction, PollStep, MAX_ELAPSED_SECS};
use crate::text::{str_equals, views};

verus! {

/// The models that Stable Horde offers.
pub open spec fn stable_horde_model_ok(model: Seq<char>) -> bool {
    model == MediaModel::STABLE_DIFFUSION_1_5@ || model == MediaModel::STABLE_DIFFUSION_2_1@
}

/// The sizes that Stable Horde offers: both sides in {512, 768, 1024}.
pub open spec fn stable_horde_size_ok(width: u16, height: u16) -> bool {
    side_512_768_1024(width) && side_512_768_1024(height)
}

/// The numbers of images that Stable Horde offers: 1 to 8.
pub open spec fn stable_horde_number_ok(number: u8) -> bool {
    0 < number < 9
}

/// Whether Stable Horde offers `model`.
pub fn is_valid_model(model: &str) -> (r: bool)
    ensures
        r == stable_horde_model_ok(model@),
{
    str_equals(model, MediaModel::STABLE_DIFFUSION_1_5) || str_equals(
        model,
        MediaModel::STABLE_DIFFUSION_2_1,
    )
}

/// Whether Stable Horde offers images of `width` x `height`.
pub fn is_valid_size(width: &u16, height: &u16) -> (r: bool)
    ensures
        r == stable_horde_size_ok(*width, *height),
{
    let w = *width;
    let h = *height;
    if !(w == 512 || w == 768 || w == 1024) {
        return false;
    }
    if !(h == 512 || h == 768 || h == 1024) {
        return false;
    }
    true
}

/// Whether Stable Horde makes `number` images at once.
pub fn is_valid_number(number: u8) -> (r: bool)
    ensures
        r == stable_horde_number_ok(number),
{
    (number > 0) && (number < 9)
}

} // verus!

verus! {

/// The Stable Horde names of the models it runs.
#[derive(Debug)]
pub struct StableHordeModelVersion;

impl StableHordeModelVersion {
    pub const STABLE_DIFFUSION: &'static str = "stable_diffusion";

    pub const STABLE_DIFFUSION_2_1: &'static str = "stable_diffusion_2.1";
}

/// The generation parameters of a Stable Horde request (the denoising
/// strength, a fraction, is never set and is left out).
#[derive(Debug)]
pub struct InputSpecParams {
    pub sample_namer: Option<String>,
    pub cfg_scale: Option<i8>,
    pub seed: Option<String>,
    pub height: Option<u16>,
    pub width: Option<u16>,
    pub seed_variation: Option<u16>,
    pub post_processing: Option<Vec<String>>,
    pub karras: Option<bool>,
    pub steps: Option<u16>,
    pub n: Option<u8>,
}

/// A Stable Horde generation request.
#[derive(Debug)]
pub struct InputSpec {
    pub prompt: String,
    pub params: Option<InputSpecParams>,
    pub nsfw: Option<bool>,
    pub trusted_workers: Option<bool>,
    pub censor_nsfw: Option<bool>,
    pub workers: Option<Vec<String>>,
    pub models: Option<Vec<String>>,
    pub source_image: Option<String>,
    pub source_processing: Option<String>,
    pub source_mask: Option<String>,
    pub r2: Option<bool>,
}

/// The Stable Horde name of a model that it runs.
pub open spec fn horde_version(model: Seq<char>) -> Seq<char> {
    if model == MediaModel::STABLE_DIFFUSION_1_5@ {
        StableHordeModelVersion::STABLE_DIFFUSION@
    } else {
        StableHordeModelVersion::STABLE_DIFFUSION_2_1@
    }
}

/// The request that a generation request becomes: its prompt, size,
/// number and guidance scale, 50 steps, GFPGAN post-processing, trusted
/// workers only, no NSFW content and censoring on, results through R2.
pub open spec fn horde_input_matches(dto: GenerateMediaDto, r: InputSpec) -> bool {
    &&& r.prompt@ == dto.prompt@
    &&& r.params matches Some(p) && p.sample_namer is None && p.cfg_scale == match dto.cfg_scale {
        Some(c) => Some(c as i8),
        None => None,
    } && p.seed is None && p.height == Some(dto.height) && p.width == Some(dto.width)
        && p.seed_variation is None && (p.post_processing matches Some(v) && views(v@) == seq![
        "GFPGAN"@]) && p.karras is None && p.steps == Some(50u16) && p.n == Some(dto.number)
    &&& r.nsfw == Some(false)
    &&& r.trusted_workers == Some(true)
    &&& r.censor_nsfw == Some(true)
    &&& r.workers is None
    &&& r.models matches Some(v) && views(v@) == seq![horde_version(effective_model(dto))]
    &&& r.source_image is None
    &&& r.source_processing is None
    &&& r.source_mask is None
    &&& r.r2 == Some(true)
}

/// The Stable Horde request for a generation request whose model it runs.
pub fn provide_input_spec(dto: &GenerateMediaDto) -> (r: InputSpec)
    requires
        has_default_model(dto.generator@),
        stable_horde_model_ok(effective_model(*dto)),
    ensures
        horde_input_matches(*dto, r),
{
    let model = dto.model_or_default();
    let version = if str_equals(model.as_str(), MediaModel::STABLE_DIFFUSION_1_5) {
        StableHordeModelVersion::STABLE_DIFFUSION
    } else {
        StableHordeModelVersion::STABLE_DIFFUSION_2_1
    };
    let cfg_scale: Option<i8> = match dto.cfg_scale {
        Some(cfg_scale) => Some(cfg_scale as i8),
        None => None,
    };
    let post_processing = vec![String::from_str("GFPGAN")];
    let models = vec![String::from_str(version)];
    assert(views(post_processing@) =~= seq!["GFPGAN"@]);
    assert(views(models@) =~= seq![horde_version(effective_model(*dto))]);
    InputSpec {
        prompt: dto.prompt.clone(),
        params: Some(
            InputSpecParams {
                sample_namer: None,
                cfg_scale,
                seed: None,
                height: Some(dto.height),
                width: Some(dto.width),
                seed_variation: None,
                post_processing: Some(post_processing),
                karras: None,
                steps: Some(50),
                n: Some(dto.number),
            },
        ),
        nsfw: Some(false),
        trusted_workers: Some(true),
        censor_nsfw: Some(true),
        workers: None,
        models: Some(models),
        source_image: None,
        source_processing: None,
        source_mask: None,
        r2: Some(true),
    }
}

/// The reply to an asynchronous generation request.
#[derive(Debug)]
pub struct StableHordeGenerateAsyncResponse {
    pub id: String,
    pub message: Option<String>,
}

/// One generated image; `censored` where Stable Horde withheld it.
#[derive(Debug)]
pub struct StableHordeGeneration {
    pub worker_id: String,
    pub worker_name: String,
    pub model: String,
    pub img: String,
    pub seed: String,
    pub censored: bool,
}

/// What a Stable Horde status check reports.
#[derive(Debug)]
pub struct HordeCheck {
    pub done: bool,
    pub faulted: bool,
    pub is_possible: bool,
    pub wait_time: u32,
}

/// What the following of a Stable Horde request hears back.
#[derive(Debug)]
pub enum HordeEvent {
    /// The request was submitted, or could not be.
    Submitted(Result<(), ApiError>),
    /// A status check answered, or failed.
    Checked(Option<HordeCheck>),
    /// The full result was fetched, or could not be.
    Fetched(bool),
}

/// Where the following of a Stable Horde request stands.
#[derive(Debug)]
pub enum HordePhase {
    Submitting,
    FirstCheck,
    Waiting,
    Fetching,
    Finished,
}

/// The following of a Stable Horde request: its phase, the seconds waited
/// so far between checks, and the next wait.
#[derive(Debug)]
pub struct HordePoll {
    pub phase: HordePhase,
    pub elapsed: u32,
    pub wait_time: u32,
}

/// The least and the most seconds waited between checks.
pub const HORDE_DEFAULT_WAIT: u32 = 10;

pub const HORDE_MAX_WAIT: u32 = 60;

/// While waiting, the next wait lies between the least and the most, and
/// no more than the time limit has been waited.
pub open spec fn horde_inv(s: HordePoll) -> bool {
    s.phase is Waiting ==> HORDE_DEFAULT_WAIT <= s.wait_time <= HORDE_MAX_WAIT && s.elapsed
        <= MAX_ELAPSED_SECS
}

/// The event is one that the phase waits for.
pub open spec fn horde_expects(s: HordePoll, e: HordeEvent) -> bool {
    match s.phase {
        HordePhase::Submitting => e is Submitted,
        HordePhase::FirstCheck => e is Checked,
        HordePhase::Waiting => e is Checked,
        HordePhase::Fetching => e is Fetched,
        HordePhase::Finished => false,
    }
}

/// The next state and step of following a Stable Horde request. After
/// submission it sleeps 5 s and checks; a request that Stable Horde cannot
/// serve fails. While the request is neither done nor faulted it waits
/// Stable Horde's estimate clamped to 10..60 s between checks, and gives
/// up after more than 600 s. A faulted request fails; a done one has its
/// full result fetched.
pub open spec fn horde_next(s: HordePoll, e: HordeEvent) -> (HordePoll, PollStep) {
    let finished = HordePoll { phase: HordePhase::Finished, ..s };
    match e {
        HordeEvent::Submitted(Ok(_)) => (
            HordePoll { phase: HordePhase::FirstCheck, ..s },
            PollStep::WaitThenCheck(5000),
        ),
        HordeEvent::Submitted(Err(err)) => (
            finished,
            PollStep::Finish(Some((err.code, err.message@))),
        ),
        HordeEvent::Checked(None) => (finished, PollStep::Finish(internal_error_view())),
        HordeEvent::Checked(Some(c)) => {
            let w = clamp_wait(c.wait_time, HORDE_DEFAULT_WAIT, HORDE_MAX_WAIT);
            let el: int = if s.phase is FirstCheck {
                0
            } else {
                s.elapsed + s.wait_time
            };
            if s.phase is FirstCheck && !c.is_possible {
                (finished, PollStep::Finish(internal_error_view()))
            } else if el > MAX_ELAPSED_SECS || c.faulted {
                (finished, PollStep::Finish(internal_error_view()))
            } else if c.done {
                (HordePoll { phase: HordePhase::Fetching, ..s }, PollStep::FetchResult)
            } else {
                (
                    HordePoll { phase: HordePhase::Waiting, elapsed: el as u32, wait_time: w },
                    PollStep::WaitThenCheck((w * 1000) as u64),
                )
            }
        },
        HordeEvent::Fetched(ok) => (
            finished,
            PollStep::Finish(
                if ok {
                    None
                } else {
                    internal_error_view()
                },
            ),
        ),
    }
}

impl HordePoll {
    /// The following of a request that is about to be submitted.
    pub fn start() -> (s: HordePoll)
        ensures
            s.phase is Submitting,
            s.elapsed == 0,
            s.wait_time == HORDE_DEFAULT_WAIT,
            horde_inv(s),
    {
        HordePoll { phase: HordePhase::Submitting, elapsed: 0, wait_time: HORDE_DEFAULT_WAIT }
    }

    /// The next state and action, given what was heard back.
    pub fn step(&self, event: HordeEvent) -> (r: (HordePoll, PollAction))
        requires
            horde_inv(*self),
            horde_expects(*self, event),
        ensures
            (r.0, step_of(r.1)) == horde_next(*self, event),
            horde_inv(r.0),
    {
        let finished = HordePoll {
            phase: HordePhase::Finished,
            elapsed: self.elapsed,
            wait_time: self.wait_time,
        };
        match event {
            HordeEvent::Submitted(Ok(_)) => (
                HordePoll {
                    phase: HordePhase::FirstCheck,
                    elapsed: self.elapsed,
                    wait_time: self.wait_time,
                },
                PollAction::WaitThenCheck { millis: 5000 },
            ),
            HordeEvent::Submitted(Err(err)) => (finished, PollAction::Finish(Err(err))),
            HordeEvent::Checked(None) => (
                finished,
                PollAction::Finish(Err(internal_server_error())),
            ),
            HordeEvent::Checked(Some(c)) => {
                let first = match self.phase {
                    HordePhase::FirstCheck => true,
                    _ => false,
                };
                if first && !c.is_possible {
                    return (finished, PollAction::Finish(Err(internal_server_error())));
                }
                let w = clamped_wait_time(c.wait_time, HORDE_DEFAULT_WAIT, HORDE_MAX_WAIT);
                let el: u32 = if first {
                    0
                } else {
                    self.elapsed + self.wait_time
                };
                if el > MAX_ELAPSED_SECS || c.faulted {
                    (finished, PollAction::Finish(Err(internal_server_error())))
                } else if c.done {
                    (
                        HordePoll {
                            phase: HordePhase::Fetching,
                            elapsed: self.elapsed,
                            wait_time: self.wait_time,
                        },
                        PollAction::FetchResult,
                    )
                } else {
                    (
                        HordePoll { phase: HordePhase::Waiting, elapsed: el, wait_time: w },
                        PollAction::WaitThenCheck { millis: (w as u64) * 1000 },
                    )
                }
            },
            HordeEvent::Fetched(ok) => {
                if ok {
                    (finished, PollAction::Finish(Ok(())))
                } else {
                    (finished, PollAction::Finish(Err(internal_server_error())))
                }
            },
        }
    }
}

/// How far a Stable Horde request is from the end of its following.
pub open spec fn horde_remaining(s: HordePoll) -> nat {
    match s.phase {
        HordePhase::Submitting => 1000,
        HordePhase::FirstCheck => 900,
        HordePhase::Waiting => (800 - s.elapsed) as nat,
        HordePhase::Fetching => 100,
        HordePhase::Finished => 0,
    }
}

/// Following a Stable Horde request ends: every step finishes it or
/// brings it strictly closer to its end, and no more than 600 s are waited
/// between checks before it is given up.
pub proof fn lemma_horde_progress(s: HordePoll, e: HordeEvent)
    requires
        horde_inv(s),
        horde_expects(s, e),
    ensures
        horde_remaining(horde_next(s, e).0) < horde_remaining(s),
        horde_next(s, e).0.phase is Waiting ==> horde_next(s, e).0.elapsed <= MAX_ELAPSED_SECS,
{
}

/// A faulted request never reaches the fetching of a result, nor does one
/// that Stable Horde reports impossible at the first check.
pub proof fn lemma_horde_fetch_only_when_done(s: HordePoll, c: HordeCheck)
    requires
        horde_expects(s, HordeEvent::Checked(Some(c))),
        horde_next(s, HordeEvent::Checked(Some(c))).1 is FetchResult,
    ensures
        c.done,
        !c.faulted,
        s.phase is FirstCheck ==> c.is_possible,
{
}

} // verus!

verus! {

/// The generations of a finished request; a request without generations
/// fails with "Stable Horde generated no images.".
pub fn horde_generations(generations: Option<Vec<StableHordeGeneration>>) -> (r: Result<
    Vec<StableHordeGeneration>,
    ApiError,
>)
    ensures
        generations is Some <==> r is Ok,
        r matches Ok(v) ==> generations == Some(v),
        r matches Err(e) ==> e.code == crate::error::INTERNAL_SERVER_ERROR && e.message@
            == "Stable Horde generated no images."@,
{
    match generations {
        Some(g) => Ok(g),
        None => Err(
            ApiError::new(crate::error::INTERNAL_SERVER_ERROR, "Stable Horde generated no images."),
        ),
    }
}

} // verus!

verus! {

/// The generations that were not censored, in order.
pub open spec fn uncensored(s: Seq<StableHordeGeneration>) -> Seq<StableHordeGeneration>
    decreases s.len(),
{
    if s.len() == 0 {
        Seq::empty()
    } else {
        (if s[0].censored {
            Seq::empty()
        } else {
            seq![s[0]]
        }) + uncensored(s.drop_first())
    }
}

/// The generations to store: censored images are skipped, the others kept
/// in order.
pub fn uncensored_generations(generations: Vec<StableHordeGeneration>) -> (r: Vec<
    StableHordeGeneration,
>)
    ensures
        r@ == uncensored(generations@),
{
    let ghost all = generations@;
    let mut rest = generations;
    let mut out: Vec<StableHordeGeneration> = Vec::new();
    while rest.len() > 0
        invariant
            uncensored(all) == out@ + uncensored(rest@),
        decreases rest.len(),
    {
        let ghost before = rest@;
        let first = rest.remove(0);
        assert(rest@ =~= before.drop_first());
        if first.censored {
            assert(uncensored(before) =~= uncensored(rest@));
        } else {
            let ghost prev = out@;
            out.push(first);
            assert(out@ + uncensored(rest@) =~= prev + (seq![before[0]] + uncensored(rest@)));
        }
    }
    assert(out@ + uncensored(rest@) =~= out@);
    out
}

} // verus!

verus! {

/// Stable Horde is asked for the model requested, under its own name:
/// "stable_diffusion" for Stable Diffusion 1.5 and "stable_diffusion_2.1"
/// for Stable Diffusion 2.1, so the two requested models never run as the
/// same one.
pub proof fn lemma_horde_model_names(dto: GenerateMediaDto, r: InputSpec)
    requires
        horde_input_matches(dto, r),
    ensures
        effective_model(dto) == "stable_diffusion_1_5"@ ==> (r.models matches Some(v) && views(v@)
            == seq!["stable_diffusion"@]),
        effective_model(dto) == "stable_diffusion_2_1"@ ==> (r.models matches Some(v) && views(v@)
            == seq!["stable_diffusion_2.1"@]),
{
    reveal_strlit("stable_diffusion_1_5");
    reveal_strlit("stable_diffusion_2_1");
    assert("stable_diffusion_1_5"@[17] != "stable_diffusion_2_1"@[17]);
}

} // verus!
