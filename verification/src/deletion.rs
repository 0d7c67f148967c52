//! The deletion of a media item by its owner: the stored file is removed,
//! then the item; an item made by Stable Horde has the ink of one image
//! refunded in the same transaction that removes it.
use vstd::prelude::*;

use crate::dto::{opt_chars, GenerateMediaDto};
use crate::enums::MediaGenerator;
use crate::error::{internal_server_error, ApiError, BAD_REQUEST, INTERNAL_SERVER_ERROR};
use crate::error::{internal_error_message, MediaApiError, NOT_FOUND};
use crate::ink::dtos::EditUserInkDto;
use crate::ink::{calculate_ink_cost, ink_cost};
use crate::media::Media;
use crate::text::str_equals;

verus! {

/// The answer to a lookup of one item: the item; "Media not found." where
/// there is none; the internal error where the lookup failed.
pub fn lookup_outcome<T>(found: Result<Option<T>, ()>) -> (r: Result<T, ApiError>)
    ensures
        found matches Ok(Some(x)) ==> r == Ok::<T, ApiError>(x),
        found matches Ok(None) ==> (r matches Err(e) && e.code == NOT_FOUND && e.message@
            == "Media not found."@),
        found is Err ==> (r matches Err(e) && e.code == INTERNAL_SERVER_ERROR && e.message@
            == internal_error_message()),
{
    match found {
        Ok(Some(x)) => Ok(x),
        Ok(None) => Err(MediaApiError::MediaNotFound.value()),
        Err(_) => Err(internal_server_error()),
    }
}

/// The path under which a user's media item is stored.
pub open spec fn media_file_name(user_id: Seq<char>, media_id: Seq<char>) -> Seq<char> {
    "media/"@ + user_id + "/"@ + media_id
}

/// The path under which a user's media item is stored.
pub fn media_file_path(user_id: &str, media_id: &str) -> (r: String)
    ensures
        r@ == media_file_name(user_id@, media_id@),
{
    let mut path = String::from_str("media/");
    path.append(user_id);
    path.append("/");
    path.append(media_id);
    path
}

/// Whether deleting an item refunds ink: it was made by Stable Horde and
/// its request is known.
pub open spec fn refunds_ink(m: Media) -> bool {
    m.source@ == MediaGenerator::STABLE_HORDE@ && m.generate_media_dto is Some
}

/// The refund for deleting an item made for `dto`: the cost of one image,
/// where it is above zero.
pub open spec fn refund(dto: GenerateMediaDto) -> EditUserInkDto {
    let amount = ink_cost(dto, Some(1u8));
    EditUserInkDto {
        ink_increase: if amount > 0 {
            Some(amount as i64)
        } else {
            None
        },
        ink_decrease: None,
        ink_pending_increase: None,
        ink_pending_decrease: None,
    }
}

/// The refund for deleting an item made for `dto`.
pub fn refund_for(dto: &GenerateMediaDto) -> (r: EditUserInkDto)
    ensures
        r == refund(*dto),
{
    let ink_refunded = calculate_ink_cost(dto, Some(1));
    EditUserInkDto {
        ink_increase: if ink_refunded > 0 {
            Some(ink_refunded)
        } else {
            None
        },
        ink_decrease: None,
        ink_pending_increase: None,
        ink_pending_decrease: None,
    }
}

/// What the deletion hears back.
#[derive(Debug)]
pub enum DeletionEvent {
    /// The item was looked up: found, not found, or the lookup failed.
    Fetched(Result<Option<Media>, ()>),
    /// The stored file was removed (or was already gone), or could not be.
    FileDeleted(Result<(), ApiError>),
    /// The item was removed, with the count of rows removed, or the
    /// removal failed.
    RowDeleted(Result<u64, ()>),
    TransactionBegun(bool),
    /// The item was removed in the transaction, with the count of rows
    /// removed, or the removal failed.
    RowDeletedInTransaction(Result<u64, ()>),
    /// The refund was applied in the transaction, or could not be.
    InkRefunded(bool),
    Committed(bool),
}

/// What the deletion asks to be done next.
#[derive(Debug)]
pub enum DeletionAction {
    FetchMedia,
    /// Remove the stored file with this path and id.
    DeleteFile { file_name: String, file_id: String },
    /// Remove the item with this id if it belongs to this user.
    DeleteRow { media_id: String, user_id: String },
    BeginTransaction,
    /// Remove the item with this id in the transaction.
    DeleteRowInTransaction { media_id: String },
    /// Apply this change to the user's ink in the transaction.
    RefundInk { user_id: String, change: EditUserInkDto },
    Commit,
    /// Succeed; where the item belonged to a post, remove it from the post.
    Succeed { post_id: Option<String>, media_id: String },
    RollbackThenFail(ApiError),
    Fail(ApiError),
}

/// A deletion step as plain values.
pub enum DeletionStep {
    FetchMedia,
    DeleteFile(Seq<char>, Seq<char>),
    DeleteRow(Seq<char>, Seq<char>),
    BeginTransaction,
    DeleteRowInTransaction(Seq<char>),
    RefundInk(Seq<char>, EditUserInkDto),
    Commit,
    Succeed(Option<Seq<char>>, Seq<char>),
    RollbackThenFail(u16, Seq<char>),
    Fail(u16, Seq<char>),
}

/// The step that an action stands for.
pub open spec fn deletion_step_of(a: DeletionAction) -> DeletionStep {
    match a {
        DeletionAction::FetchMedia => DeletionStep::FetchMedia,
        DeletionAction::DeleteFile { file_name, file_id } => DeletionStep::DeleteFile(
            file_name@,
            file_id@,
        ),
        DeletionAction::DeleteRow { media_id, user_id } => DeletionStep::DeleteRow(
            media_id@,
            user_id@,
        ),
        DeletionAction::BeginTransaction => DeletionStep::BeginTransaction,
        DeletionAction::DeleteRowInTransaction { media_id } => DeletionStep::DeleteRowInTransaction(
            media_id@,
        ),
        DeletionAction::RefundInk { user_id, change } => DeletionStep::RefundInk(user_id@, change),
        DeletionAction::Commit => DeletionStep::Commit,
        DeletionAction::Succeed { post_id, media_id } => DeletionStep::Succeed(
            opt_chars(post_id),
            media_id@,
        ),
        DeletionAction::RollbackThenFail(e) => DeletionStep::RollbackThenFail(e.code, e.message@),
        DeletionAction::Fail(e) => DeletionStep::Fail(e.code, e.message@),
    }
}

/// Where the deletion stands.
#[derive(Debug)]
pub enum DeletionPhase {
    Fetching,
    DeletingFile,
    DeletingRow,
    BeginningTransaction,
    DeletingRowInTransaction,
    RefundingInk,
    Committing,
    Finished,
}

/// The deletion of an item: its phase and, once looked up, the item.
#[derive(Debug)]
pub struct Deletion {
    pub phase: DeletionPhase,
    pub media: Option<Media>,
}

/// Every phase after the lookup knows the item, and it belongs to the
/// requester.
pub open spec fn deletion_inv(requester: Seq<char>, s: Deletion) -> bool {
    &&& !(s.phase is Fetching || s.phase is Finished) ==> (s.media matches Some(m) && m.user_id@
        == requester)
    &&& (s.phase is BeginningTransaction || s.phase is DeletingRowInTransaction || s.phase is RefundingInk
        || s.phase is Committing) ==> (s.media matches Some(m) && refunds_ink(m))
}

/// The event is one that the phase waits for.
pub open spec fn deletion_expects(s: Deletion, e: DeletionEvent) -> bool {
    match s.phase {
        DeletionPhase::Fetching => e is Fetched,
        DeletionPhase::DeletingFile => e is FileDeleted,
        DeletionPhase::DeletingRow => e is RowDeleted,
        DeletionPhase::BeginningTransaction => e is TransactionBegun,
        DeletionPhase::DeletingRowInTransaction => e is RowDeletedInTransaction,
        DeletionPhase::RefundingInk => e is InkRefunded,
        DeletionPhase::Committing => e is Committed,
        DeletionPhase::Finished => false,
    }
}

/// The success of a deletion of `m`.
pub open spec fn deletion_success(m: Media) -> DeletionStep {
    DeletionStep::Succeed(opt_chars(m.post_id), m.id@)
}

/// The next state and step of deleting the item `id` for `requester`.
/// Only the owner may delete an item. Its stored file goes first. A
/// Stable Horde item is then removed and the ink of one image refunded in
/// one transaction, rolled back where either fails; any other item is
/// removed on its own.
pub open spec fn deletion_next(requester: Seq<char>, id: Seq<char>, s: Deletion, e: DeletionEvent) -> (
    Deletion,
    DeletionStep,
) {
    let finished = Deletion { phase: DeletionPhase::Finished, ..s };
    let tx_failure = DeletionStep::RollbackThenFail(
        INTERNAL_SERVER_ERROR,
        "Failed to complete transaction."@,
    );
    match e {
        DeletionEvent::Fetched(Ok(Some(m))) => if m.user_id@ != requester {
            (
                Deletion { phase: DeletionPhase::Finished, media: Some(m) },
                DeletionStep::Fail(BAD_REQUEST, "Permission denied."@),
            )
        } else {
            (
                Deletion { phase: DeletionPhase::DeletingFile, media: Some(m) },
                DeletionStep::DeleteFile(media_file_name(requester, m.id@), m.file_id@),
            )
        },
        DeletionEvent::Fetched(Ok(None)) => (
            finished,
            DeletionStep::Fail(NOT_FOUND, "Media not found."@),
        ),
        DeletionEvent::Fetched(Err(_)) => (
            finished,
            DeletionStep::Fail(INTERNAL_SERVER_ERROR, internal_error_message()),
        ),
        DeletionEvent::FileDeleted(Err(err)) => (
            finished,
            DeletionStep::Fail(err.code, err.message@),
        ),
        DeletionEvent::FileDeleted(Ok(_)) => {
            let m = s.media->0;
            if refunds_ink(m) {
                (
                    Deletion { phase: DeletionPhase::BeginningTransaction, ..s },
                    DeletionStep::BeginTransaction,
                )
            } else {
                (
                    Deletion { phase: DeletionPhase::DeletingRow, ..s },
                    DeletionStep::DeleteRow(id, m.user_id@),
                )
            }
        },
        DeletionEvent::RowDeleted(Ok(n)) => if n > 0 {
            (finished, deletion_success(s.media->0))
        } else {
            (finished, DeletionStep::Fail(NOT_FOUND, "Media not found."@))
        },
        DeletionEvent::RowDeleted(Err(_)) => (
            finished,
            DeletionStep::Fail(INTERNAL_SERVER_ERROR, internal_error_message()),
        ),
        DeletionEvent::TransactionBegun(ok) => if ok {
            (
                Deletion { phase: DeletionPhase::DeletingRowInTransaction, ..s },
                DeletionStep::DeleteRowInTransaction(s.media->0.id@),
            )
        } else {
            (
                finished,
                DeletionStep::Fail(INTERNAL_SERVER_ERROR, "Failed to begin transaction."@),
            )
        },
        DeletionEvent::RowDeletedInTransaction(r) => if r matches Ok(n) && n > 0 {
            (
                Deletion { phase: DeletionPhase::RefundingInk, ..s },
                DeletionStep::RefundInk(
                    s.media->0.user_id@,
                    refund(s.media->0.generate_media_dto->0),
                ),
            )
        } else {
            (finished, tx_failure)
        },
        DeletionEvent::InkRefunded(ok) => if ok {
            (Deletion { phase: DeletionPhase::Committing, ..s }, DeletionStep::Commit)
        } else {
            (finished, tx_failure)
        },
        DeletionEvent::Committed(ok) => if ok {
            (finished, deletion_success(s.media->0))
        } else {
            (
                finished,
                DeletionStep::Fail(INTERNAL_SERVER_ERROR, "Failed to complete transaction."@),
            )
        },
    }
}

/// A copy of a media item's reference to its post.
fn post_of(m: &Media) -> (r: Option<String>)
    ensures
        opt_chars(r) == opt_chars(m.post_id),
{
    crate::dto::copy_opt_string(&m.post_id)
}

impl Deletion {
    /// The deletion as it begins: the item is looked up.
    pub fn begin() -> (r: (Deletion, DeletionAction))
        ensures
            r.0.phase is Fetching,
            r.1 is FetchMedia,
    {
        (Deletion { phase: DeletionPhase::Fetching, media: None }, DeletionAction::FetchMedia)
    }

    /// The next state and action of deleting the item `id` for
    /// `requester`, given what was heard back.
    pub fn step(self, requester: &str, id: &str, event: DeletionEvent) -> (r: (
        Deletion,
        DeletionAction,
    ))
        requires
            deletion_inv(requester@, self),
            deletion_expects(self, event),
        ensures
            (r.0, deletion_step_of(r.1)) == deletion_next(requester@, id@, self, event),
            deletion_inv(requester@, r.0),
    {
        match event {
            DeletionEvent::Fetched(Ok(Some(m))) => {
                if !str_equals(m.user_id.as_str(), requester) {
                    (
                        Deletion { phase: DeletionPhase::Finished, media: Some(m) },
                        DeletionAction::Fail(ApiError::new(BAD_REQUEST, "Permission denied.")),
                    )
                } else {
                    let file_name = media_file_path(requester, m.id.as_str());
                    let file_id = m.file_id.clone();
                    (
                        Deletion { phase: DeletionPhase::DeletingFile, media: Some(m) },
                        DeletionAction::DeleteFile { file_name, file_id },
                    )
                }
            },
            DeletionEvent::Fetched(Ok(None)) => (
                Deletion { phase: DeletionPhase::Finished, media: self.media },
                DeletionAction::Fail(MediaApiError::MediaNotFound.value()),
            ),
            DeletionEvent::Fetched(Err(_)) => (
                Deletion { phase: DeletionPhase::Finished, media: self.media },
                DeletionAction::Fail(internal_server_error()),
            ),
            DeletionEvent::FileDeleted(Err(err)) => (
                Deletion { phase: DeletionPhase::Finished, media: self.media },
                DeletionAction::Fail(err),
            ),
            DeletionEvent::FileDeleted(Ok(_)) => {
                let m = self.media.unwrap();
                let refunds = str_equals(m.source.as_str(), MediaGenerator::STABLE_HORDE)
                    && m.generate_media_dto.is_some();
                if refunds {
                    (
                        Deletion { phase: DeletionPhase::BeginningTransaction, media: Some(m) },
                        DeletionAction::BeginTransaction,
                    )
                } else {
                    let user_id = m.user_id.clone();
                    (
                        Deletion { phase: DeletionPhase::DeletingRow, media: Some(m) },
                        DeletionAction::DeleteRow { media_id: String::from_str(id), user_id },
                    )
                }
            },
            DeletionEvent::RowDeleted(Ok(n)) => {
                let m = self.media.unwrap();
                if n > 0 {
                    let post_id = post_of(&m);
                    let media_id = m.id.clone();
                    (
                        Deletion { phase: DeletionPhase::Finished, media: Some(m) },
                        DeletionAction::Succeed { post_id, media_id },
                    )
                } else {
                    (
                        Deletion { phase: DeletionPhase::Finished, media: Some(m) },
                        DeletionAction::Fail(MediaApiError::MediaNotFound.value()),
                    )
                }
            },
            DeletionEvent::RowDeleted(Err(_)) => (
                Deletion { phase: DeletionPhase::Finished, media: self.media },
                DeletionAction::Fail(internal_server_error()),
            ),
            DeletionEvent::TransactionBegun(ok) => {
                if ok {
                    let m = self.media.unwrap();
                    let media_id = m.id.clone();
                    (
                        Deletion { phase: DeletionPhase::DeletingRowInTransaction, media: Some(m) },
                        DeletionAction::DeleteRowInTransaction { media_id },
                    )
                } else {
                    (
                        Deletion { phase: DeletionPhase::Finished, media: self.media },
                        DeletionAction::Fail(
                            ApiError::new(INTERNAL_SERVER_ERROR, "Failed to begin transaction."),
                        ),
                    )
                }
            },
            DeletionEvent::RowDeletedInTransaction(r) => {
                let removed = match r {
                    Ok(n) => n > 0,
                    Err(_) => false,
                };
                if removed {
                    let m = self.media.unwrap();
                    let change = refund_for(m.generate_media_dto.as_ref().unwrap());
                    let user_id = m.user_id.clone();
                    (
                        Deletion { phase: DeletionPhase::RefundingInk, media: Some(m) },
                        DeletionAction::RefundInk { user_id, change },
                    )
                } else {
                    (
                        Deletion { phase: DeletionPhase::Finished, media: self.media },
                        DeletionAction::RollbackThenFail(
                            ApiError::new(INTERNAL_SERVER_ERROR, "Failed to complete transaction."),
                        ),
                    )
                }
            },
            DeletionEvent::InkRefunded(ok) => {
                if ok {
                    (
                        Deletion { phase: DeletionPhase::Committing, media: self.media },
                        DeletionAction::Commit,
                    )
                } else {
                    (
                        Deletion { phase: DeletionPhase::Finished, media: self.media },
                        DeletionAction::RollbackThenFail(
                            ApiError::new(INTERNAL_SERVER_ERROR, "Failed to complete transaction."),
                        ),
                    )
                }
            },
            DeletionEvent::Committed(ok) => {
                let m = self.media.unwrap();
                if ok {
                    let post_id = post_of(&m);
                    let media_id = m.id.clone();
                    (
                        Deletion { phase: DeletionPhase::Finished, media: Some(m) },
                        DeletionAction::Succeed { post_id, media_id },
                    )
                } else {
                    (
                        Deletion { phase: DeletionPhase::Finished, media: Some(m) },
                        DeletionAction::Fail(
                            ApiError::new(INTERNAL_SERVER_ERROR, "Failed to complete transaction."),
                        ),
                    )
                }
            },
        }
    }
}

/// Only the owner's items are touched: the stored file, the item and the
/// owner's ink are changed only in a deletion whose item belongs to the
/// requester, and ink is refunded only for a Stable Horde item, by the
/// cost of one image of its request.
pub proof fn lemma_owner_only(requester: Seq<char>, id: Seq<char>, s: Deletion, e: DeletionEvent)
    requires
        deletion_inv(requester, s),
        deletion_expects(s, e),
    ensures
        ({
            let (t, step) = deletion_next(requester, id, s, e);
            &&& (step is DeleteFile || step is DeleteRow || step is DeleteRowInTransaction
                || step is RefundInk) ==> (t.media matches Some(m) && m.user_id@ == requester)
            &&& step matches DeletionStep::RefundInk(u, change) ==> (t.media matches Some(m)
                && refunds_ink(m) && u == requester && change == refund(
                m.generate_media_dto->0,
            ))
        }),
{
}

} // verus!

verus! {

/// Ink is refunded only for Stable Horde items. Once an owner's stored file
/// is removed, an item whose source is "stable_horde" and whose request is
/// known goes on to the refund transaction; every other item has its row
/// removed on its own, with no refund. No step of the refund transaction is
/// ever taken for an item of another source.
pub proof fn lemma_refund_only_for_stable_horde(
    requester: Seq<char>,
    id: Seq<char>,
    s: Deletion,
    e: DeletionEvent,
)
    requires
        deletion_inv(requester, s),
        deletion_expects(s, e),
    ensures
        ({
            let (t, step) = deletion_next(requester, id, s, e);
            &&& (step is BeginTransaction || step is DeleteRowInTransaction || step is RefundInk
                || step is Commit) ==> (t.media matches Some(m) && m.source@ == "stable_horde"@
                && m.generate_media_dto is Some)
            &&& (e matches DeletionEvent::FileDeleted(Ok(_)) && s.media matches Some(m) && (
            m.source@ != "stable_horde"@ || m.generate_media_dto is None)) ==> step
                == DeletionStep::DeleteRow(id, s.media->0.user_id@)
            &&& (e matches DeletionEvent::FileDeleted(Ok(_)) && s.media matches Some(m)
                && m.source@ == "stable_horde"@ && m.generate_media_dto is Some) ==> step
                is BeginTransaction
        }),
{
}

} // verus!
