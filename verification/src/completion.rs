//! What happens when a provider is done with a request: the request's
//! status is stored, the pending ink is released, the ink for the images
//! actually made is charged, and the images are published.
use vstd::prelude::*;

use crate::admission::reservation;
use crate::dto::GenerateMediaDto;
use crate::error::{ApiError, INTERNAL_SERVER_ERROR};
use crate::ink::dtos::EditUserInkDto;
use crate::ink::{calculate_ink_cost, ink_cost, lemma_ink_cost_monotonic};

verus! {

/// The number of images made, as the 8-bit count the charge is computed
/// for (counts above 255 wrap).
pub open spec fn generated_count(media_count: Option<usize>) -> u8 {
    match media_count {
        Some(n) => n as u8,
        None => 0,
    }
}

/// The settlement of a request's ink once its images are made: the whole
/// pending cost is released, and the cost of the images actually made is
/// charged where it is above zero.
pub open spec fn settlement(dto: GenerateMediaDto, media_count: Option<usize>) -> EditUserInkDto {
    let actual = ink_cost(dto, Some(generated_count(media_count)));
    EditUserInkDto {
        ink_increase: None,
        ink_decrease: if actual > 0 {
            Some(actual as i64)
        } else {
            None
        },
        ink_pending_increase: None,
        ink_pending_decrease: Some(ink_cost(dto, None) as i64),
    }
}

/// The ink settlement of a request for which `media_count` images were
/// made (`None` where generation failed).
pub fn settle_ink(dto: &GenerateMediaDto, media_count: Option<usize>) -> (r: EditUserInkDto)
    ensures
        r == settlement(*dto, media_count),
{
    let media_generated: u8 = match media_count {
        Some(n) => n as u8,
        None => 0,
    };
    let ink_cost_original = calculate_ink_cost(dto, None);
    let ink_cost_actual = calculate_ink_cost(dto, Some(media_generated));
    EditUserInkDto {
        ink_increase: None,
        ink_decrease: if ink_cost_actual > 0 {
            Some(ink_cost_actual)
        } else {
            None
        },
        ink_pending_increase: None,
        ink_pending_decrease: Some(ink_cost_original),
    }
}

/// What the completion of a request hears back.
#[derive(Debug)]
pub enum CompletionEvent {
    TransactionBegun(bool),
    /// The request's status was stored in the transaction, or could not be.
    StatusStored(bool),
    /// The user's ink was settled in the transaction, or could not be.
    InkSettled(bool),
    Committed(bool),
}

/// What the completion asks to be done next.
#[derive(Debug)]
pub enum CompletionAction {
    BeginTransaction,
    /// Store the request's status in the transaction.
    StoreStatus,
    /// Apply this change to the user's ink in the transaction.
    SettleInk(EditUserInkDto),
    Commit,
    /// Publish the images as a post and tell the user; then succeed.
    Publish,
    /// Succeed with nothing to publish.
    Succeed,
    RollbackThenFail(ApiError),
    Fail(ApiError),
}

/// A completion step as plain values.
pub enum CompletionStep {
    BeginTransaction,
    StoreStatus,
    SettleInk(EditUserInkDto),
    Commit,
    Publish,
    Succeed,
    RollbackThenFail(u16, Seq<char>),
    Fail(u16, Seq<char>),
}

/// The step that an action stands for.
pub open spec fn completion_step_of(a: CompletionAction) -> CompletionStep {
    match a {
        CompletionAction::BeginTransaction => CompletionStep::BeginTransaction,
        CompletionAction::StoreStatus => CompletionStep::StoreStatus,
        CompletionAction::SettleInk(d) => CompletionStep::SettleInk(d),
        CompletionAction::Commit => CompletionStep::Commit,
        CompletionAction::Publish => CompletionStep::Publish,
        CompletionAction::Succeed => CompletionStep::Succeed,
        CompletionAction::RollbackThenFail(e) => CompletionStep::RollbackThenFail(
            e.code,
            e.message@,
        ),
        CompletionAction::Fail(e) => CompletionStep::Fail(e.code, e.message@),
    }
}

/// Where the completion of a request stands.
#[derive(Debug)]
pub enum CompletionPhase {
    BeginningTransaction,
    StoringStatus,
    SettlingInk,
    Committing,
    Finished,
}

/// The event is one that the phase waits for.
pub open spec fn completion_expects(p: CompletionPhase, e: CompletionEvent) -> bool {
    match p {
        CompletionPhase::BeginningTransaction => e is TransactionBegun,
        CompletionPhase::StoringStatus => e is StatusStored,
        CompletionPhase::SettlingInk => e is InkSettled,
        CompletionPhase::Committing => e is Committed,
        CompletionPhase::Finished => false,
    }
}

/// The next phase and step of completing a request for which
/// `media_count` images were made. Status and settlement are written in one
/// transaction, rolled back where either fails; after the commit the images,
/// if any, are published.
pub open spec fn completion_next(
    dto: GenerateMediaDto,
    media_count: Option<usize>,
    p: CompletionPhase,
    e: CompletionEvent,
) -> (CompletionPhase, CompletionStep) {
    match e {
        CompletionEvent::TransactionBegun(ok) => if ok {
            (CompletionPhase::StoringStatus, CompletionStep::StoreStatus)
        } else {
            (
                CompletionPhase::Finished,
                CompletionStep::Fail(INTERNAL_SERVER_ERROR, "Failed to begin pool transaction."@),
            )
        },
        CompletionEvent::StatusStored(ok) => if ok {
            (
                CompletionPhase::SettlingInk,
                CompletionStep::SettleInk(settlement(dto, media_count)),
            )
        } else {
            (
                CompletionPhase::Finished,
                CompletionStep::RollbackThenFail(
                    INTERNAL_SERVER_ERROR,
                    "Failed to complete edit_generate_media_request_by_id_as_tx"@,
                ),
            )
        },
        CompletionEvent::InkSettled(ok) => if ok {
            (CompletionPhase::Committing, CompletionStep::Commit)
        } else {
            (
                CompletionPhase::Finished,
                CompletionStep::RollbackThenFail(
                    INTERNAL_SERVER_ERROR,
                    "Failed to complete edit_user_ink_by_id"@,
                ),
            )
        },
        CompletionEvent::Committed(ok) => if !ok {
            (
                CompletionPhase::Finished,
                CompletionStep::Fail(INTERNAL_SERVER_ERROR, "Failed to commit tx"@),
            )
        } else if media_count is Some {
            (CompletionPhase::Finished, CompletionStep::Publish)
        } else {
            (CompletionPhase::Finished, CompletionStep::Succeed)
        },
    }
}

impl CompletionPhase {
    /// The first step of completing a request.
    pub fn begin() -> (r: (CompletionPhase, CompletionAction))
        ensures
            r.0 is BeginningTransaction,
            r.1 is BeginTransaction,
    {
        (CompletionPhase::BeginningTransaction, CompletionAction::BeginTransaction)
    }

    /// The next phase and action, given what was heard back.
    pub fn step(&self, dto: &GenerateMediaDto, media_count: Option<usize>, event: CompletionEvent) -> (r: (
        CompletionPhase,
        CompletionAction,
    ))
        requires
            completion_expects(*self, event),
        ensures
            (r.0, completion_step_of(r.1)) == completion_next(*dto, media_count, *self, event),
    {
        match event {
            CompletionEvent::TransactionBegun(ok) => {
                if ok {
                    (CompletionPhase::StoringStatus, CompletionAction::StoreStatus)
                } else {
                    (
                        CompletionPhase::Finished,
                        CompletionAction::Fail(
                            ApiError::new(INTERNAL_SERVER_ERROR, "Failed to begin pool transaction."),
                        ),
                    )
                }
            },
            CompletionEvent::StatusStored(ok) => {
                if ok {
                    (
                        CompletionPhase::SettlingInk,
                        CompletionAction::SettleInk(settle_ink(dto, media_count)),
                    )
                } else {
                    (
                        CompletionPhase::Finished,
                        CompletionAction::RollbackThenFail(
                            ApiError::new(
                                INTERNAL_SERVER_ERROR,
                                "Failed to complete edit_generate_media_request_by_id_as_tx",
                            ),
                        ),
                    )
                }
            },
            CompletionEvent::InkSettled(ok) => {
                if ok {
                    (CompletionPhase::Committing, CompletionAction::Commit)
                } else {
                    (
                        CompletionPhase::Finished,
                        CompletionAction::RollbackThenFail(
                            ApiError::new(
                                INTERNAL_SERVER_ERROR,
                                "Failed to complete edit_user_ink_by_id",
                            ),
                        ),
                    )
                }
            },
            CompletionEvent::Committed(ok) => {
                if !ok {
                    (
                        CompletionPhase::Finished,
                        CompletionAction::Fail(
                            ApiError::new(INTERNAL_SERVER_ERROR, "Failed to commit tx"),
                        ),
                    )
                } else if media_count.is_some() {
                    (CompletionPhase::Finished, CompletionAction::Publish)
                } else {
                    (CompletionPhase::Finished, CompletionAction::Succeed)
                }
            },
        }
    }
}

/// The ink put pending when a request was admitted is released in full
/// when it completes, whatever the outcome.
pub proof fn lemma_pending_released_as_reserved(dto: GenerateMediaDto, media_count: Option<usize>)
    ensures
        settlement(dto, media_count).ink_pending_decrease == reservation(
            ink_cost(dto, None) as i64,
        ).ink_pending_increase,
{
}

/// A user is never charged more than was reserved when no more images
/// were made than requested; a request that made no image charges nothing.
pub proof fn lemma_charge_within_reservation(dto: GenerateMediaDto, media_count: Option<usize>)
    ensures
        media_count matches Some(n) && n <= dto.number ==> match settlement(
            dto,
            media_count,
        ).ink_decrease {
            Some(charged) => charged <= ink_cost(dto, None),
            None => true,
        },
        media_count is None ==> settlement(dto, media_count).ink_decrease is None,
{
    if media_count is Some && media_count.unwrap() <= dto.number {
        let n = media_count.unwrap();
        assert(n as u8 == n);
        lemma_ink_cost_monotonic(dto, n as u8, dto.number);
        assert(ink_cost(dto, Some(dto.number)) == ink_cost(dto, None));
    }
    if media_count is None {
        assert(ink_cost(dto, Some(0u8)) == 0) by (nonlinear_arith);
    }
}

} // verus!
