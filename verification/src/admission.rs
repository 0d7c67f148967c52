//! The admission of a generation request: validation, the maintenance
//! switch, the user's ink, prompt moderation, the transaction that
//! reserves ink and stores the request, and the choice of provider.
use vstd::prelude::*;

use crate::apis::replicate::{is_replicate_model, replicate_model};
use crate::dto::{effective_model, has_default_model, sanitized_of, validation_failure, GenerateMediaDto};
use crate::enums::MediaGenerator;
use crate::error::{
    internal_error_message, internal_server_error, ApiError, BAD_REQUEST, INTERNAL_SERVER_ERROR,
    NOT_ACCEPTABLE, SERVICE_UNAVAILABLE,
};
use crate::ink::dtos::EditUserInkDto;
use crate::ink::{calculate_ink_cost, ink_cost};
use crate::media::Media;
use crate::text::str_equals;

verus! {

/// The providers that a request can be handed to.
#[derive(Debug)]
pub enum Backend {
    Replicate,
    StableHorde,
    Dalle,
}

/// The provider that serves a request: Replicate for the mist generator's
/// Replicate models, Stable Horde and DALL-E for their own generators;
/// none otherwise.
pub open spec fn backend_for(dto: GenerateMediaDto) -> Option<Backend> {
    let g = dto.generator@;
    if g == MediaGenerator::MIST@ {
        if replicate_model(effective_model(dto)) {
            Some(Backend::Replicate)
        } else {
            None
        }
    } else if g == MediaGenerator::STABLE_HORDE@ {
        Some(Backend::StableHorde)
    } else if g == MediaGenerator::DALLE@ {
        Some(Backend::Dalle)
    } else {
        None
    }
}

/// The provider that serves a request, if any.
pub fn select_backend(dto: &GenerateMediaDto) -> (r: Option<Backend>)
    requires
        has_default_model(dto.generator@),
    ensures
        r == backend_for(*dto),
{
    let model = dto.model_or_default();
    if str_equals(dto.generator.as_str(), MediaGenerator::MIST) {
        if is_replicate_model(model.as_str()) {
            Some(Backend::Replicate)
        } else {
            None
        }
    } else if str_equals(dto.generator.as_str(), MediaGenerator::STABLE_HORDE) {
        Some(Backend::StableHorde)
    } else if str_equals(dto.generator.as_str(), MediaGenerator::DALLE) {
        Some(Backend::Dalle)
    } else {
        None
    }
}

/// A user's ink balances.
#[derive(Debug)]
pub struct UserInk {
    pub ink: i64,
    pub ink_pending: i64,
}

/// What the admission of a request hears back.
#[derive(Debug)]
pub enum AdmissionEvent {
    /// The user's balances were read, or could not be.
    UserFetched(Result<UserInk, ApiError>),
    /// Moderation flagged each of its results or not; `None` where the
    /// moderation service could not be asked, which lets the prompt pass.
    PromptChecked(Option<Vec<bool>>),
    /// A storage transaction was begun, or could not be.
    TransactionBegun(bool),
    /// The ink was reserved in the transaction, or could not be.
    InkReserved(bool),
    /// The request was stored in the transaction, or could not be.
    RequestCreated(bool),
    /// The transaction was committed, or could not be.
    Committed(bool),
}

/// What the admission asks to be done next.
#[derive(Debug)]
pub enum AdmissionAction {
    FetchUser,
    CheckPrompt,
    BeginTransaction,
    /// Apply this change to the user's ink in the transaction.
    ReserveInk(EditUserInkDto),
    CreateRequest,
    Commit,
    /// Roll the transaction back and answer this error.
    RollbackThenFail(ApiError),
    /// Answer this error.
    Fail(ApiError),
    /// Hand the stored request to this provider and answer it.
    Dispatch(Backend),
}

/// An admission step as plain values.
pub enum AdmissionStep {
    FetchUser,
    CheckPrompt,
    BeginTransaction,
    ReserveInk(EditUserInkDto),
    CreateRequest,
    Commit,
    RollbackThenFail(u16, Seq<char>),
    Fail(u16, Seq<char>),
    Dispatch(Backend),
}

/// The step that an action stands for.
pub open spec fn admission_step_of(a: AdmissionAction) -> AdmissionStep {
    match a {
        AdmissionAction::FetchUser => AdmissionStep::FetchUser,
        AdmissionAction::CheckPrompt => AdmissionStep::CheckPrompt,
        AdmissionAction::BeginTransaction => AdmissionStep::BeginTransaction,
        AdmissionAction::ReserveInk(d) => AdmissionStep::ReserveInk(d),
        AdmissionAction::CreateRequest => AdmissionStep::CreateRequest,
        AdmissionAction::Commit => AdmissionStep::Commit,
        AdmissionAction::RollbackThenFail(e) => AdmissionStep::RollbackThenFail(e.code, e.message@),
        AdmissionAction::Fail(e) => AdmissionStep::Fail(e.code, e.message@),
        AdmissionAction::Dispatch(b) => AdmissionStep::Dispatch(b),
    }
}

/// Where the admission of a request stands.
#[derive(Debug)]
pub enum AdmissionPhase {
    FetchingUser,
    CheckingPrompt,
    BeginningTransaction,
    ReservingInk,
    CreatingRequest,
    Committing,
    Finished,
}

/// The admission of a request: its phase, the request's cost in ink, and
/// the ink the user had available (balance less pending) when it was read.
#[derive(Debug)]
pub struct Admission {
    pub phase: AdmissionPhase,
    pub cost: i64,
    pub available: i64,
}

/// The refusal of a request while the service is under maintenance.
pub open spec fn maintenance_message() -> Seq<char> {
    "Service is undergoing maintenance, try again later."@
}

/// How the admission of a request begins: the request is refused where it
/// is invalid, then where the service is under maintenance; otherwise the
/// user's balances are read.
pub open spec fn admission_begin(dto: GenerateMediaDto, maintenance: bool) -> (
    AdmissionPhase,
    AdmissionStep,
) {
    match validation_failure(dto) {
        Some(msg) => (AdmissionPhase::Finished, AdmissionStep::Fail(BAD_REQUEST, msg)),
        None => if maintenance {
            (
                AdmissionPhase::Finished,
                AdmissionStep::Fail(SERVICE_UNAVAILABLE, maintenance_message()),
            )
        } else {
            (AdmissionPhase::FetchingUser, AdmissionStep::FetchUser)
        },
    }
}

/// The change to the user's ink that admission makes: the request's cost
/// becomes pending.
pub open spec fn reservation(cost: i64) -> EditUserInkDto {
    EditUserInkDto {
        ink_increase: None,
        ink_decrease: None,
        ink_pending_increase: Some(cost),
        ink_pending_decrease: None,
    }
}

/// The event is one that the phase waits for.
pub open spec fn admission_expects(s: Admission, e: AdmissionEvent) -> bool {
    match s.phase {
        AdmissionPhase::FetchingUser => e is UserFetched,
        AdmissionPhase::CheckingPrompt => e is PromptChecked,
        AdmissionPhase::BeginningTransaction => e is TransactionBegun,
        AdmissionPhase::ReservingInk => e is InkReserved,
        AdmissionPhase::CreatingRequest => e is RequestCreated,
        AdmissionPhase::Committing => e is Committed,
        AdmissionPhase::Finished => false,
    }
}

/// The user's available ink is computed without overflow.
pub open spec fn admission_event_ok(e: AdmissionEvent) -> bool {
    e matches AdmissionEvent::UserFetched(Ok(u)) ==> i64::MIN <= u.ink - u.ink_pending <= i64::MAX
}

/// Whether moderation flagged the prompt: its first result says so.
pub open spec fn flagged(results: Option<Seq<bool>>) -> bool {
    match results {
        Some(r) => r.len() > 0 && r[0],
        None => false,
    }
}

/// The next state and step of admitting `dto`. A user whose available ink
/// is below the cost is refused; a flagged prompt is refused; the ink is
/// reserved and the request stored in one transaction, rolled back where
/// either fails; once committed, the request goes to its provider.
pub open spec fn admission_next(dto: GenerateMediaDto, s: Admission, e: AdmissionEvent) -> (
    Admission,
    AdmissionStep,
) {
    let finished = Admission { phase: AdmissionPhase::Finished, ..s };
    match e {
        AdmissionEvent::UserFetched(Err(err)) => (
            finished,
            AdmissionStep::Fail(err.code, err.message@),
        ),
        AdmissionEvent::UserFetched(Ok(u)) => {
            let available = u.ink - u.ink_pending;
            if available < s.cost {
                (finished, AdmissionStep::Fail(NOT_ACCEPTABLE, "Not enough ink."@))
            } else {
                (
                    Admission {
                        phase: AdmissionPhase::CheckingPrompt,
                        cost: s.cost,
                        available: available as i64,
                    },
                    AdmissionStep::CheckPrompt,
                )
            }
        },
        AdmissionEvent::PromptChecked(results) => {
            let r = match results {
                Some(v) => Some(v@),
                None => None,
            };
            if flagged(r) {
                (
                    finished,
                    AdmissionStep::Fail(
                        BAD_REQUEST,
                        "Your prompt was flagged for inappropriate content."@,
                    ),
                )
            } else {
                (
                    Admission { phase: AdmissionPhase::BeginningTransaction, ..s },
                    AdmissionStep::BeginTransaction,
                )
            }
        },
        AdmissionEvent::TransactionBegun(ok) => if ok {
            (
                Admission { phase: AdmissionPhase::ReservingInk, ..s },
                AdmissionStep::ReserveInk(reservation(s.cost)),
            )
        } else {
            (
                finished,
                AdmissionStep::Fail(INTERNAL_SERVER_ERROR, "Failed to begin transaction."@),
            )
        },
        AdmissionEvent::InkReserved(ok) => if ok {
            (
                Admission { phase: AdmissionPhase::CreatingRequest, ..s },
                AdmissionStep::CreateRequest,
            )
        } else {
            (
                finished,
                AdmissionStep::RollbackThenFail(
                    INTERNAL_SERVER_ERROR,
                    "Failed to complete transaction."@,
                ),
            )
        },
        AdmissionEvent::RequestCreated(ok) => if ok {
            (Admission { phase: AdmissionPhase::Committing, ..s }, AdmissionStep::Commit)
        } else {
            (
                finished,
                AdmissionStep::RollbackThenFail(
                    INTERNAL_SERVER_ERROR,
                    "Failed to complete transaction."@,
                ),
            )
        },
        AdmissionEvent::Committed(ok) => if !ok {
            (finished, AdmissionStep::Fail(INTERNAL_SERVER_ERROR, "An error occurred."@))
        } else {
            match backend_for(dto) {
                Some(b) => (finished, AdmissionStep::Dispatch(b)),
                None => (
                    finished,
                    AdmissionStep::Fail(INTERNAL_SERVER_ERROR, internal_error_message()),
                ),
            }
        },
    }
}

/// What every state of an admission past the balance check holds: the
/// cost is that of the request, and the user had that much ink available.
pub open spec fn admission_inv(dto: GenerateMediaDto, s: Admission) -> bool {
    &&& s.cost == ink_cost(dto, None)
    &&& (s.phase is CheckingPrompt || s.phase is BeginningTransaction || s.phase is ReservingInk
        || s.phase is CreatingRequest || s.phase is Committing) ==> s.available >= s.cost
}

impl Admission {
    /// The admission of `dto` as it begins.
    pub fn begin(dto: &GenerateMediaDto, maintenance: bool) -> (r: (Admission, AdmissionAction))
        requires
            has_default_model(dto.generator@),
        ensures
            (r.0.phase, admission_step_of(r.1)) == admission_begin(*dto, maintenance),
            admission_inv(*dto, r.0),
    {
        let cost = calculate_ink_cost(dto, None);
        let s = Admission { phase: AdmissionPhase::Finished, cost, available: 0 };
        match dto.is_valid() {
            Err(e) => (s, AdmissionAction::Fail(e)),
            Ok(()) => {
                if maintenance {
                    (
                        s,
                        AdmissionAction::Fail(
                            ApiError::new(
                                SERVICE_UNAVAILABLE,
                                "Service is undergoing maintenance, try again later.",
                            ),
                        ),
                    )
                } else {
                    (
                        Admission { phase: AdmissionPhase::FetchingUser, cost, available: 0 },
                        AdmissionAction::FetchUser,
                    )
                }
            },
        }
    }

    /// The next state and action of admitting `dto`, given what was heard
    /// back.
    pub fn step(&self, dto: &GenerateMediaDto, event: AdmissionEvent) -> (r: (
        Admission,
        AdmissionAction,
    ))
        requires
            has_default_model(dto.generator@),
            admission_inv(*dto, *self),
            admission_expects(*self, event),
            admission_event_ok(event),
        ensures
            (r.0, admission_step_of(r.1)) == admission_next(*dto, *self, event),
            admission_inv(*dto, r.0),
    {
        let finished = Admission {
            phase: AdmissionPhase::Finished,
            cost: self.cost,
            available: self.available,
        };
        match event {
            AdmissionEvent::UserFetched(Err(err)) => (finished, AdmissionAction::Fail(err)),
            AdmissionEvent::UserFetched(Ok(u)) => {
                let available = u.ink - u.ink_pending;
                if available < self.cost {
                    (
                        finished,
                        AdmissionAction::Fail(ApiError::new(NOT_ACCEPTABLE, "Not enough ink.")),
                    )
                } else {
                    (
                        Admission { phase: AdmissionPhase::CheckingPrompt, cost: self.cost, available },
                        AdmissionAction::CheckPrompt,
                    )
                }
            },
            AdmissionEvent::PromptChecked(results) => {
                let is_flagged = match &results {
                    Some(v) => v.len() > 0 && v[0],
                    None => false,
                };
                if is_flagged {
                    (
                        finished,
                        AdmissionAction::Fail(
                            ApiError::new(
                                BAD_REQUEST,
                                "Your prompt was flagged for inappropriate content.",
                            ),
                        ),
                    )
                } else {
                    (
                        Admission {
                            phase: AdmissionPhase::BeginningTransaction,
                            cost: self.cost,
                            available: self.available,
                        },
                        AdmissionAction::BeginTransaction,
                    )
                }
            },
            AdmissionEvent::TransactionBegun(ok) => {
                if ok {
                    (
                        Admission {
                            phase: AdmissionPhase::ReservingInk,
                            cost: self.cost,
                            available: self.available,
                        },
                        AdmissionAction::ReserveInk(
                            EditUserInkDto {
                                ink_increase: None,
                                ink_decrease: None,
                                ink_pending_increase: Some(self.cost),
                                ink_pending_decrease: None,
                            },
                        ),
                    )
                } else {
                    (
                        finished,
                        AdmissionAction::Fail(
                            ApiError::new(INTERNAL_SERVER_ERROR, "Failed to begin transaction."),
                        ),
                    )
                }
            },
            AdmissionEvent::InkReserved(ok) => {
                if ok {
                    (
                        Admission {
                            phase: AdmissionPhase::CreatingRequest,
                            cost: self.cost,
                            available: self.available,
                        },
                        AdmissionAction::CreateRequest,
                    )
                } else {
                    (
                        finished,
                        AdmissionAction::RollbackThenFail(
                            ApiError::new(INTERNAL_SERVER_ERROR, "Failed to complete transaction."),
                        ),
                    )
                }
            },
            AdmissionEvent::RequestCreated(ok) => {
                if ok {
                    (
                        Admission {
                            phase: AdmissionPhase::Committing,
                            cost: self.cost,
                            available: self.available,
                        },
                        AdmissionAction::Commit,
                    )
                } else {
                    (
                        finished,
                        AdmissionAction::RollbackThenFail(
                            ApiError::new(INTERNAL_SERVER_ERROR, "Failed to complete transaction."),
                        ),
                    )
                }
            },
            AdmissionEvent::Committed(ok) => {
                if !ok {
                    (
                        finished,
                        AdmissionAction::Fail(
                            ApiError::new(INTERNAL_SERVER_ERROR, "An error occurred."),
                        ),
                    )
                } else {
                    match select_backend(dto) {
                        Some(b) => (finished, AdmissionAction::Dispatch(b)),
                        None => (finished, AdmissionAction::Fail(internal_server_error())),
                    }
                }
            },
        }
    }
}

/// Ink is reserved, and a request stored, only for a user whose available
/// ink covered the request's cost when it was read, and the amount put
/// pending is exactly that cost.
pub proof fn lemma_reserve_only_when_covered(dto: GenerateMediaDto, s: Admission, e: AdmissionEvent)
    requires
        admission_inv(dto, s),
        admission_expects(s, e),
        admission_next(dto, s, e).1 is ReserveInk || admission_next(dto, s, e).1 is CreateRequest,
    ensures
        s.available >= ink_cost(dto, None),
        admission_next(dto, s, e).1 is ReserveInk ==> admission_next(dto, s, e).1
            == AdmissionStep::ReserveInk(reservation(ink_cost(dto, None) as i64)),
{
}

/// A prompt that moderation flags is never admitted: the admission ends
/// with the refusal.
pub proof fn lemma_flagged_prompt_refused(dto: GenerateMediaDto, s: Admission, results: Vec<bool>)
    requires
        s.phase is CheckingPrompt,
        results@.len() > 0 && results@[0],
    ensures
        admission_next(dto, s, AdmissionEvent::PromptChecked(Some(results))).0.phase is Finished,
        admission_next(dto, s, AdmissionEvent::PromptChecked(Some(results))).1
            == AdmissionStep::Fail(BAD_REQUEST, "Your prompt was flagged for inappropriate content."@),
{
}

} // verus!

verus! {

/// The refusal of an input image whose size differs from the request's.
pub open spec fn input_size_message() -> Seq<char> {
    "Input image must have the same dimensions as request."@
}

/// An input image for a request: accepted where its stored size, read as
/// unsigned, is the request's size.
pub fn check_input_media(dto: &GenerateMediaDto, media: Media) -> (r: Result<Media, ApiError>)
    ensures
        (media.width as u16 == dto.width && media.height as u16 == dto.height) <==> r is Ok,
        r matches Ok(m) ==> m == media,
        r matches Err(e) ==> e.code == BAD_REQUEST && e.message@ == input_size_message(),
{
    if media.width as u16 != dto.width || media.height as u16 != dto.height {
        Err(ApiError::new(BAD_REQUEST, "Input image must have the same dimensions as request."))
    } else {
        Ok(media)
    }
}

} // verus!

verus! {

/// Sanitizing a request changes neither whether it is refused (nor why),
/// nor the provider it goes to, nor its cost in ink.
pub proof fn lemma_sanitizing_preserves_admission(dto: GenerateMediaDto, clean: GenerateMediaDto)
    requires
        sanitized_of(dto, clean),
    ensures
        validation_failure(clean) == validation_failure(dto),
        backend_for(clean) == backend_for(dto),
        ink_cost(clean, None) == ink_cost(dto, None),
{
    assert(effective_model(clean) == effective_model(dto));
}

} // verus!

verus! {

/// A mist request for Stable Diffusion 1.5, Stable Diffusion 2.1 or
/// Openjourney goes to Replicate: once its ink is reserved and the request
/// stored, the admission hands it to Replicate; a mist request for any
/// other model is not dispatched.
pub proof fn lemma_mist_models_go_to_replicate(dto: GenerateMediaDto, s: Admission)
    requires
        dto.generator@ == "mist"@,
    ensures
        (effective_model(dto) == "stable_diffusion_1_5"@ || effective_model(dto)
            == "stable_diffusion_2_1"@ || effective_model(dto) == "openjourney"@) ==> (
        backend_for(dto) == Some(Backend::Replicate) && admission_next(
            dto,
            s,
            AdmissionEvent::Committed(true),
        ).1 == AdmissionStep::Dispatch(Backend::Replicate)),
        !(effective_model(dto) == "stable_diffusion_1_5"@ || effective_model(dto)
            == "stable_diffusion_2_1"@ || effective_model(dto) == "openjourney"@)
            ==> backend_for(dto) is None,
{
}

} // verus!
