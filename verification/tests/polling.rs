use mist_media::apis::dream::{DreamEvent, DreamPhase};
use mist_media::apis::labml::{
    accept_reply, labml_images, LabmlEstimate, LabmlEvent, LabmlImage, LabmlPhase, LabmlPoll,
    LabmlStatus,
};
use mist_media::apis::replicate::{prediction_outputs, ReplicateEvent, ReplicatePhase, ReplicatePoll};
use mist_media::apis::stable_horde::{
    horde_generations, uncensored_generations, HordeCheck, HordeEvent, HordePhase, HordePoll,
    StableHordeGeneration,
};
use mist_media::error::ApiError;
use mist_media::poll::{clamped_wait_time, PollAction};

fn waits(a: &PollAction) -> Option<u64> {
    match a {
        PollAction::WaitThenCheck { millis } => Some(*millis),
        _ => None,
    }
}

fn finished_ok(a: &PollAction) -> bool {
    matches!(a, PollAction::Finish(Ok(())))
}

fn finished_err(a: &PollAction) -> Option<(u16, String)> {
    match a {
        PollAction::Finish(Err(e)) => Some((e.code, e.message.clone())),
        _ => None,
    }
}

fn status(done: bool, eta: u32) -> LabmlEvent {
    LabmlEvent::Checked(Some(LabmlStatus {
        is_completed: done,
        eta: LabmlEstimate { positive: eta > 0, whole_secs: eta },
    }))
}

#[test]
fn clamp() {
    assert_eq!(clamped_wait_time(0, 3, 60), 3);
    assert_eq!(clamped_wait_time(30, 3, 60), 30);
    assert_eq!(clamped_wait_time(61, 3, 60), 60);
}

#[test]
fn labml_follows_estimates() {
    let s = LabmlPoll::start();
    let (s, a) = s.step(LabmlEvent::Generated(Ok(LabmlEstimate { positive: true, whole_secs: 7 })));
    assert_eq!(waits(&a), Some(7000));
    let (s, a) = s.step(status(false, 100));
    assert_eq!(waits(&a), Some(60_000));
    assert!(matches!(s.phase, LabmlPhase::Waiting));
    assert_eq!(s.elapsed, 0);
    let (s, a) = s.step(status(false, 0));
    assert_eq!(waits(&a), Some(3000));
    assert_eq!(s.elapsed, 60);
    let (s, a) = s.step(status(true, 0));
    assert!(finished_ok(&a));
    assert!(matches!(s.phase, LabmlPhase::Finished));
}

#[test]
fn labml_without_estimate_waits_three_seconds() {
    let (_, a) = LabmlPoll::start().step(LabmlEvent::Generated(Ok(LabmlEstimate { positive: false, whole_secs: 0 })));
    assert_eq!(waits(&a), Some(3000));
}

#[test]
fn labml_gives_up_after_600_seconds() {
    let (mut s, _) = LabmlPoll::start().step(LabmlEvent::Generated(Ok(LabmlEstimate { positive: false, whole_secs: 0 })));
    let (next, _) = s.step(status(false, 60));
    s = next;
    let mut checks = 0;
    loop {
        let (next, a) = s.step(status(false, 60));
        checks += 1;
        if let Some(e) = finished_err(&a) {
            assert_eq!(e.0, 500);
            break;
        }
        s = next;
        assert!(s.elapsed <= 600);
    }
    assert_eq!(checks, 11);
}

#[test]
fn labml_failures() {
    let err = ApiError { code: 500, message: "boom".to_string() };
    let (_, a) = LabmlPoll::start().step(LabmlEvent::Generated(Err(err)));
    assert_eq!(finished_err(&a), Some((500, "boom".to_string())));
    let (s, _) = LabmlPoll::start().step(LabmlEvent::Generated(Ok(LabmlEstimate { positive: true, whole_secs: 1 })));
    let (_, a) = s.step(LabmlEvent::Checked(None));
    assert_eq!(finished_err(&a).unwrap().0, 500);
    assert!(accept_reply(true, "generate_with_retry").is_ok());
    let e = accept_reply(false, "generate_with_retry").unwrap_err();
    assert_eq!(e.message, "generate_with_retry failed (not is_success)");
    assert!(labml_images(vec![]).is_err());
    assert_eq!(
        labml_images(vec![LabmlImage { image: "a".to_string(), thumbnail: "b".to_string() }]).unwrap().len(),
        1
    );
}

#[test]
fn replicate_checks_every_five_seconds() {
    let (s, a) = ReplicatePoll::start().step(ReplicateEvent::Created(Ok(())));
    assert_eq!(waits(&a), Some(5000));
    let (s, a) = s.step(ReplicateEvent::Checked(Some("processing".to_string())));
    assert_eq!(waits(&a), Some(5000));
    assert_eq!(s.elapsed, 5);
    let (s, a) = s.step(ReplicateEvent::Checked(Some("succeeded".to_string())));
    assert!(finished_ok(&a));
    assert!(matches!(s.phase, ReplicatePhase::Finished));
}

#[test]
fn replicate_failures() {
    let (s, _) = ReplicatePoll::start().step(ReplicateEvent::Created(Ok(())));
    let (_, a) = s.step(ReplicateEvent::Checked(Some("failed".to_string())));
    assert_eq!(finished_err(&a).unwrap().0, 500);
    let (_, a) = s.step(ReplicateEvent::Checked(Some("canceled".to_string())));
    assert_eq!(finished_err(&a).unwrap().0, 500);
    let (_, a) = s.step(ReplicateEvent::Checked(None));
    assert_eq!(finished_err(&a).unwrap().0, 500);
    let mut s = s;
    let mut checks = 0;
    loop {
        let (next, a) = s.step(ReplicateEvent::Checked(Some("starting".to_string())));
        checks += 1;
        if finished_err(&a).is_some() {
            break;
        }
        s = next;
    }
    assert_eq!(checks, 121);
    assert!(prediction_outputs(None).is_err());
    assert_eq!(prediction_outputs(Some(vec![])).unwrap().len(), 0);
}

fn check(done: bool, faulted: bool, possible: bool, wait: u32) -> HordeEvent {
    HordeEvent::Checked(Some(HordeCheck { done, faulted, is_possible: possible, wait_time: wait }))
}

#[test]
fn horde_follows_and_fetches() {
    let (s, a) = HordePoll::start().step(HordeEvent::Submitted(Ok(())));
    assert_eq!(waits(&a), Some(5000));
    let (s, a) = s.step(check(false, false, true, 2));
    assert_eq!(waits(&a), Some(10_000));
    let (s, a) = s.step(check(false, false, false, 45));
    assert_eq!(waits(&a), Some(45_000));
    assert_eq!(s.elapsed, 10);
    let (s, a) = s.step(check(true, false, false, 0));
    assert!(matches!(a, PollAction::FetchResult));
    assert!(matches!(s.phase, HordePhase::Fetching));
    let (_, a) = s.step(HordeEvent::Fetched(true));
    assert!(finished_ok(&a));
}

#[test]
fn horde_failures() {
    let (s, _) = HordePoll::start().step(HordeEvent::Submitted(Ok(())));
    let (_, a) = s.step(check(false, false, false, 10));
    assert_eq!(finished_err(&a).unwrap().0, 500);
    let (_, a) = s.step(check(true, true, true, 10));
    assert_eq!(finished_err(&a).unwrap().0, 500);
    let (w, _) = s.step(check(false, false, true, 10));
    let (f, _) = w.step(check(true, false, true, 10));
    let (_, a) = f.step(HordeEvent::Fetched(false));
    assert_eq!(finished_err(&a).unwrap().0, 500);
    assert!(horde_generations(None).is_err());
}

#[test]
fn dream_waits_while_busy() {
    let (p, a) = DreamPhase::Creating.step(DreamEvent::Created(Ok(())));
    assert!(matches!(a, PollAction::UpdateTask));
    let (p, a) = p.step(DreamEvent::Updated(Ok("pending".to_string())));
    assert_eq!(waits(&a), Some(5000));
    let (p, a) = p.step(DreamEvent::Checked(Some("generating".to_string())));
    assert_eq!(waits(&a), Some(5000));
    let (p, a) = p.step(DreamEvent::Checked(Some("completed".to_string())));
    assert!(finished_ok(&a));
    assert!(matches!(p, DreamPhase::Finished));
}

#[test]
fn dream_other_states_fail() {
    let (_, a) = DreamPhase::Updating.step(DreamEvent::Updated(Ok("input".to_string())));
    assert_eq!(finished_err(&a).unwrap().0, 500);
    let (_, a) = DreamPhase::Waiting.step(DreamEvent::Checked(None));
    assert_eq!(finished_err(&a).unwrap().0, 500);
    let e = ApiError { code: 400, message: "bad size".to_string() };
    let (_, a) = DreamPhase::Updating.step(DreamEvent::Updated(Err(e)));
    assert_eq!(finished_err(&a), Some((400, "bad size".to_string())));
}

fn generation(seed: &str, censored: bool) -> StableHordeGeneration {
    StableHordeGeneration {
        worker_id: "w".to_string(),
        worker_name: "worker".to_string(),
        model: "stable_diffusion".to_string(),
        img: format!("https://img/{}", seed),
        seed: seed.to_string(),
        censored,
    }
}

#[test]
fn censored_generations_are_skipped() {
    let kept = uncensored_generations(vec![
        generation("1", false),
        generation("2", true),
        generation("3", false),
        generation("4", true),
    ]);
    let seeds: Vec<&str> = kept.iter().map(|g| g.seed.as_str()).collect();
    assert_eq!(seeds, vec!["1", "3"]);
    assert!(uncensored_generations(vec![generation("5", true)]).is_empty());
    assert!(uncensored_generations(Vec::new()).is_empty());
}
