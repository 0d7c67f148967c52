use mist_media::admission::{
    check_input_media, select_backend, Admission, AdmissionAction, AdmissionEvent, AdmissionPhase,
    Backend, UserInk,
};
use mist_media::b2::BackblazeUploadFileResponse;
use mist_media::completion::{CompletionAction, CompletionEvent, CompletionPhase};
use mist_media::deletion::{lookup_outcome, Deletion, DeletionAction, DeletionEvent, DeletionPhase};
use mist_media::dto::GenerateMediaDto;
use mist_media::enums::{MediaGenerator, MediaModel};
use mist_media::error::ApiError;
use mist_media::media::Media;

fn dto(generator: &str, model: Option<&str>, number: u8) -> GenerateMediaDto {
    GenerateMediaDto {
        prompt: "a fox".to_string(),
        number,
        width: 512,
        height: 512,
        generator: generator.to_string(),
        model: model.map(|m| m.to_string()),
        negative_prompt: None,
        cfg_scale: None,
        input_media_id: None,
        publish: None,
    }
}

fn fail_of(a: &AdmissionAction) -> Option<(u16, String)> {
    match a {
        AdmissionAction::Fail(e) | AdmissionAction::RollbackThenFail(e) => Some((e.code, e.message.clone())),
        _ => None,
    }
}

#[test]
fn admission_happy_path_reserves_cost() {
    let d = dto(MediaGenerator::STABLE_HORDE, None, 2);
    let (s, a) = Admission::begin(&d, false);
    assert!(matches!(a, AdmissionAction::FetchUser));
    assert_eq!(s.cost, 8);
    let (s, a) = s.step(&d, AdmissionEvent::UserFetched(Ok(UserInk { ink: 20, ink_pending: 12 })));
    assert!(matches!(a, AdmissionAction::CheckPrompt));
    assert_eq!(s.available, 8);
    let (s, a) = s.step(&d, AdmissionEvent::PromptChecked(Some(vec![false, true])));
    assert!(matches!(a, AdmissionAction::BeginTransaction));
    let (s, a) = s.step(&d, AdmissionEvent::TransactionBegun(true));
    match a {
        AdmissionAction::ReserveInk(change) => {
            assert_eq!(change.ink_pending_increase, Some(8));
            assert_eq!(change.ink_increase, None);
            assert_eq!(change.ink_decrease, None);
            assert_eq!(change.ink_pending_decrease, None);
        }
        _ => panic!("expected a reservation"),
    }
    let (s, a) = s.step(&d, AdmissionEvent::InkReserved(true));
    assert!(matches!(a, AdmissionAction::CreateRequest));
    let (s, a) = s.step(&d, AdmissionEvent::RequestCreated(true));
    assert!(matches!(a, AdmissionAction::Commit));
    let (s, a) = s.step(&d, AdmissionEvent::Committed(true));
    assert!(matches!(a, AdmissionAction::Dispatch(Backend::StableHorde)));
    assert!(matches!(s.phase, AdmissionPhase::Finished));
}

#[test]
fn admission_refusals() {
    let d = dto(MediaGenerator::DALLE, None, 9);
    let (_, a) = Admission::begin(&d, false);
    assert_eq!(fail_of(&a), Some((400, "This generator does not support this number.".to_string())));
    let d = dto(MediaGenerator::DALLE, None, 1);
    let (_, a) = Admission::begin(&d, true);
    assert_eq!(fail_of(&a), Some((503, "Service is undergoing maintenance, try again later.".to_string())));
    let (s, _) = Admission::begin(&d, false);
    let (_, a) = s.step(&d, AdmissionEvent::UserFetched(Ok(UserInk { ink: 10, ink_pending: 6 })));
    assert_eq!(fail_of(&a), Some((406, "Not enough ink.".to_string())));
    let (s, _) = s.step(&d, AdmissionEvent::UserFetched(Ok(UserInk { ink: 10, ink_pending: 0 })));
    let (_, a) = s.step(&d, AdmissionEvent::PromptChecked(Some(vec![true])));
    assert_eq!(fail_of(&a), Some((400, "Your prompt was flagged for inappropriate content.".to_string())));
    let (next, a) = s.step(&d, AdmissionEvent::PromptChecked(None));
    assert!(matches!(a, AdmissionAction::BeginTransaction));
    let (_, a) = next.step(&d, AdmissionEvent::TransactionBegun(false));
    assert_eq!(fail_of(&a), Some((500, "Failed to begin transaction.".to_string())));
    let (r, _) = next.step(&d, AdmissionEvent::TransactionBegun(true));
    let (_, a) = r.step(&d, AdmissionEvent::InkReserved(false));
    assert!(matches!(a, AdmissionAction::RollbackThenFail(_)));
    assert_eq!(fail_of(&a), Some((500, "Failed to complete transaction.".to_string())));
    let (c, _) = r.step(&d, AdmissionEvent::InkReserved(true));
    let (_, a) = c.step(&d, AdmissionEvent::RequestCreated(false));
    assert!(matches!(a, AdmissionAction::RollbackThenFail(_)));
    let (m, _) = c.step(&d, AdmissionEvent::RequestCreated(true));
    let (_, a) = m.step(&d, AdmissionEvent::Committed(false));
    assert_eq!(fail_of(&a), Some((500, "An error occurred.".to_string())));
    let e = ApiError { code: 404, message: "User not found.".to_string() };
    let (_, a) = s.step(&d, AdmissionEvent::UserFetched(Err(e)));
    assert_eq!(fail_of(&a), Some((404, "User not found.".to_string())));
}

#[test]
fn backends() {
    assert!(matches!(select_backend(&dto(MediaGenerator::MIST, None, 1)), Some(Backend::Replicate)));
    assert!(matches!(select_backend(&dto(MediaGenerator::MIST, Some(MediaModel::OPENJOURNEY), 1)), Some(Backend::Replicate)));
    assert!(select_backend(&dto(MediaGenerator::MIST, Some(MediaModel::DREAMSHAPER), 1)).is_none());
    assert!(matches!(select_backend(&dto(MediaGenerator::DALLE, None, 1)), Some(Backend::Dalle)));
    let d = dto(MediaGenerator::MIST, Some(MediaModel::DREAMSHAPER), 1);
    let (s, _) = Admission::begin(&d, false);
    let (s, _) = s.step(&d, AdmissionEvent::UserFetched(Ok(UserInk { ink: 100, ink_pending: 0 })));
    let (s, _) = s.step(&d, AdmissionEvent::PromptChecked(None));
    let (s, _) = s.step(&d, AdmissionEvent::TransactionBegun(true));
    let (s, _) = s.step(&d, AdmissionEvent::InkReserved(true));
    let (s, _) = s.step(&d, AdmissionEvent::RequestCreated(true));
    let (_, a) = s.step(&d, AdmissionEvent::Committed(true));
    assert_eq!(fail_of(&a).unwrap().0, 500);
}

fn media(user: &str, source: &str, dto: Option<GenerateMediaDto>, post: Option<&str>) -> Media {
    Media {
        id: "m1".to_string(),
        user_id: user.to_string(),
        file_id: "f1".to_string(),
        post_id: post.map(|p| p.to_string()),
        url: "u".to_string(),
        width: 512,
        height: 512,
        mime_type: "image/png".to_string(),
        generate_media_dto: dto,
        seed: None,
        source: source.to_string(),
        model: None,
        created_at: 0,
    }
}

#[test]
fn input_media_must_match_size() {
    let d = dto(MediaGenerator::MIST, None, 1);
    assert!(check_input_media(&d, media("u", "mist", None, None)).is_ok());
    let mut m = media("u", "mist", None, None);
    m.height = 768;
    let e = check_input_media(&d, m).unwrap_err();
    assert_eq!(e.message, "Input image must have the same dimensions as request.");
}

#[test]
fn completion_flow() {
    let d = dto(MediaGenerator::STABLE_HORDE, None, 2);
    let (p, a) = CompletionPhase::begin();
    assert!(matches!(a, CompletionAction::BeginTransaction));
    let (p, a) = p.step(&d, Some(1), CompletionEvent::TransactionBegun(true));
    assert!(matches!(a, CompletionAction::StoreStatus));
    let (p, a) = p.step(&d, Some(1), CompletionEvent::StatusStored(true));
    match a {
        CompletionAction::SettleInk(change) => {
            assert_eq!(change.ink_pending_decrease, Some(8));
            assert_eq!(change.ink_decrease, Some(4));
        }
        _ => panic!("expected a settlement"),
    }
    let (p, a) = p.step(&d, Some(1), CompletionEvent::InkSettled(true));
    assert!(matches!(a, CompletionAction::Commit));
    let (_, a) = p.step(&d, Some(1), CompletionEvent::Committed(true));
    assert!(matches!(a, CompletionAction::Publish));
    let (_, a) = CompletionPhase::Committing.step(&d, None, CompletionEvent::Committed(true));
    assert!(matches!(a, CompletionAction::Succeed));
    let (_, a) = CompletionPhase::StoringStatus.step(&d, None, CompletionEvent::StatusStored(false));
    match a {
        CompletionAction::RollbackThenFail(e) => {
            assert_eq!(e.message, "Failed to complete edit_generate_media_request_by_id_as_tx")
        }
        _ => panic!("expected a rollback"),
    }
    let (_, a) = CompletionPhase::SettlingInk.step(&d, None, CompletionEvent::InkSettled(false));
    assert!(matches!(a, CompletionAction::RollbackThenFail(_)));
    let (_, a) = CompletionPhase::Committing.step(&d, None, CompletionEvent::Committed(false));
    assert!(matches!(a, CompletionAction::Fail(_)));
    let (_, a) = CompletionPhase::BeginningTransaction.step(&d, None, CompletionEvent::TransactionBegun(false));
    match a {
        CompletionAction::Fail(e) => assert_eq!(e.message, "Failed to begin pool transaction."),
        _ => panic!("expected a failure"),
    }
}

#[test]
fn deletion_by_owner_of_plain_item() {
    let (s, a) = Deletion::begin();
    assert!(matches!(a, DeletionAction::FetchMedia));
    let (s, a) = s.step("u1", "m1", DeletionEvent::Fetched(Ok(Some(media("u1", "dalle", None, Some("p1"))))));
    match &a {
        DeletionAction::DeleteFile { file_name, file_id } => {
            assert_eq!(file_name, "media/u1/m1");
            assert_eq!(file_id, "f1");
        }
        _ => panic!("expected the file deletion"),
    }
    let (s, a) = s.step("u1", "m1", DeletionEvent::FileDeleted(Ok(())));
    match &a {
        DeletionAction::DeleteRow { media_id, user_id } => {
            assert_eq!(media_id, "m1");
            assert_eq!(user_id, "u1");
        }
        _ => panic!("expected the row deletion"),
    }
    let (s, a) = s.step("u1", "m1", DeletionEvent::RowDeleted(Ok(1)));
    match &a {
        DeletionAction::Succeed { post_id, media_id } => {
            assert_eq!(post_id.as_deref(), Some("p1"));
            assert_eq!(media_id, "m1");
        }
        _ => panic!("expected success"),
    }
    assert!(matches!(s.phase, DeletionPhase::Finished));
}

#[test]
fn deletion_refunds_stable_horde_items() {
    let d = dto(MediaGenerator::STABLE_HORDE, None, 2);
    let (s, _) = Deletion::begin();
    let (s, _) = s.step("u1", "m1", DeletionEvent::Fetched(Ok(Some(media("u1", MediaGenerator::STABLE_HORDE, Some(d), None)))));
    let (s, a) = s.step("u1", "m1", DeletionEvent::FileDeleted(Ok(())));
    assert!(matches!(a, DeletionAction::BeginTransaction));
    let (s, a) = s.step("u1", "m1", DeletionEvent::TransactionBegun(true));
    assert!(matches!(a, DeletionAction::DeleteRowInTransaction { .. }));
    let (s, a) = s.step("u1", "m1", DeletionEvent::RowDeletedInTransaction(Ok(1)));
    match &a {
        DeletionAction::RefundInk { user_id, change } => {
            assert_eq!(user_id, "u1");
            assert_eq!(change.ink_increase, Some(4));
        }
        _ => panic!("expected a refund"),
    }
    let (s, a) = s.step("u1", "m1", DeletionEvent::InkRefunded(true));
    assert!(matches!(a, DeletionAction::Commit));
    let (_, a) = s.step("u1", "m1", DeletionEvent::Committed(true));
    assert!(matches!(a, DeletionAction::Succeed { post_id: None, .. }));
}

#[test]
fn deletion_refusals() {
    let (s, _) = Deletion::begin();
    let (_, a) = s.step("intruder", "m1", DeletionEvent::Fetched(Ok(Some(media("u1", "dalle", None, None)))));
    match a {
        DeletionAction::Fail(e) => assert_eq!((e.code, e.message.as_str()), (400, "Permission denied.")),
        _ => panic!("expected a refusal"),
    }
    let (s, _) = Deletion::begin();
    let (_, a) = s.step("u1", "m1", DeletionEvent::Fetched(Ok(None)));
    assert!(matches!(a, DeletionAction::Fail(ref e) if e.code == 404));
    let (s, _) = Deletion::begin();
    let (s, _) = s.step("u1", "m1", DeletionEvent::Fetched(Ok(Some(media("u1", "dalle", None, None)))));
    let (s2, _) = s.step("u1", "m1", DeletionEvent::FileDeleted(Ok(())));
    let (_, a) = s2.step("u1", "m1", DeletionEvent::RowDeleted(Ok(0)));
    assert!(matches!(a, DeletionAction::Fail(ref e) if e.code == 404));
    let e = ApiError { code: 500, message: "b2".to_string() };
    let (s, _) = Deletion::begin();
    let (s, _) = s.step("u1", "m1", DeletionEvent::Fetched(Ok(Some(media("u1", "dalle", None, None)))));
    let (_, a) = s.step("u1", "m1", DeletionEvent::FileDeleted(Err(e)));
    assert!(matches!(a, DeletionAction::Fail(ref e) if e.message == "b2"));
}

#[test]
fn lookups() {
    assert_eq!(lookup_outcome(Ok(Some(3))).ok(), Some(3));
    let e = lookup_outcome::<u8>(Ok(None)).unwrap_err();
    assert_eq!((e.code, e.message.as_str()), (404, "Media not found."));
    assert_eq!(lookup_outcome::<u8>(Err(())).unwrap_err().code, 500);
}

#[test]
fn upload_response_is_plain_data() {
    let r = BackblazeUploadFileResponse {
        bucket_id: "b".to_string(),
        content_length: 3,
        content_md5: "m".to_string(),
        content_sha1: "s".to_string(),
        content_type: "image/png".to_string(),
        file_id: "f".to_string(),
        file_name: "n".to_string(),
        upload_timestamp: 1,
    };
    assert_eq!(r.content_length, 3);
}
