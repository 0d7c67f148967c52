use mist_media::apis::{dalle, labml, mist, mist_stability, modal, replicate, stable_horde};
use mist_media::apis::replicate::{get_seed_from_logs, ReplicatePredictionStatus};
use mist_media::dto::GenerateMediaDto;
use mist_media::enums::{MediaGenerator, MediaModel, MediaSource};
use mist_media::error::{MediaApiError, DefaultApiError};
use mist_media::text::{decimal_string, single_line_string, starts_with, str_equals};

fn dto(generator: &str, model: Option<&str>, width: u16, height: u16, number: u8) -> GenerateMediaDto {
    GenerateMediaDto {
        prompt: "a cat".to_string(),
        number,
        width,
        height,
        generator: generator.to_string(),
        model: model.map(|m| m.to_string()),
        negative_prompt: None,
        cfg_scale: None,
        input_media_id: None,
        publish: None,
    }
}

#[test]
fn mist_sizes_exclude_1024_square() {
    assert!(mist::is_valid_size(&512, &768, "x"));
    assert!(mist::is_valid_size(&1024, &768, "x"));
    assert!(!mist::is_valid_size(&1024, &1024, "x"));
    assert!(!mist::is_valid_size(&640, &512, "x"));
}

#[test]
fn numbers_per_provider() {
    assert!(mist::is_valid_number(6, "x"));
    assert!(!mist::is_valid_number(7, "x"));
    assert!(!mist::is_valid_number(0, "x"));
    assert!(stable_horde::is_valid_number(8));
    assert!(!stable_horde::is_valid_number(9));
    assert!(dalle::is_valid_number(1));
    assert!(!dalle::is_valid_number(0));
    assert!(labml::is_valid_number(2));
    assert!(!labml::is_valid_number(1));
}

#[test]
fn sizes_per_provider() {
    assert!(dalle::is_valid_size(&512, &512));
    assert!(!dalle::is_valid_size(&512, &768));
    assert!(labml::is_valid_size(&512, &512));
    assert!(!labml::is_valid_size(&768, &512));
    assert!(stable_horde::is_valid_size(&1024, &1024));
    assert!(mist_stability::is_valid_size(&1024, &1024));
    assert!(!mist_stability::is_valid_size(&256, &1024));
}

#[test]
fn models_per_provider() {
    assert!(mist::is_valid_model(MediaModel::DREAMSHAPER));
    assert!(!mist::is_valid_model(MediaModel::DALLE));
    assert!(stable_horde::is_valid_model(MediaModel::STABLE_DIFFUSION_2_1));
    assert!(!stable_horde::is_valid_model(MediaModel::OPENJOURNEY));
    assert!(dalle::is_valid_model(MediaModel::DALLE));
    assert!(!dalle::is_valid_model(MediaModel::STABLE_DIFFUSION_1_5));
}

#[test]
fn default_models() {
    assert_eq!(dto(MediaGenerator::MIST, None, 512, 512, 1).default_model(), MediaModel::STABLE_DIFFUSION_1_5);
    assert_eq!(dto(MediaGenerator::STABLE_HORDE, None, 512, 512, 1).default_model(), MediaModel::STABLE_DIFFUSION_1_5);
    assert_eq!(dto(MediaGenerator::DALLE, None, 512, 512, 1).default_model(), MediaModel::DALLE);
    assert_eq!(GenerateMediaDto::default_cfg_scale(), 8);
}

#[test]
fn is_valid_reports_first_failure() {
    assert!(dto(MediaGenerator::MIST, None, 512, 512, 4).is_valid().is_ok());
    let e = dto(MediaGenerator::MIST, Some(MediaModel::DALLE), 1024, 1024, 9).is_valid().unwrap_err();
    assert_eq!(e.code, 400);
    assert_eq!(e.message, "This generator does not support this model.");
    let e = dto(MediaGenerator::MIST, None, 1024, 1024, 9).is_valid().unwrap_err();
    assert_eq!(e.message, "This generator does not support this size.");
    let e = dto(MediaGenerator::DALLE, None, 512, 512, 9).is_valid().unwrap_err();
    assert_eq!(e.message, "This generator does not support this number.");
    assert!(dto(MediaGenerator::STABLE_HORDE, None, 1024, 768, 8).is_valid().is_ok());
}

#[test]
fn sanitized_prompts_are_single_line() {
    let mut d = dto(MediaGenerator::MIST, None, 512, 512, 1);
    d.prompt = "  a cat\non a\r\nmat \t".to_string();
    d.negative_prompt = Some("\nblurry\n".to_string());
    let s = d.sanitized();
    assert_eq!(s.prompt, "a cat on a  mat");
    assert_eq!(s.negative_prompt, Some("blurry".to_string()));
    assert_eq!(s.model, Some(MediaModel::STABLE_DIFFUSION_1_5.to_string()));
    assert_eq!(s.number, 1);
}

#[test]
fn text_helpers() {
    assert_eq!(single_line_string("\u{3000} x \u{85}"), "x");
    assert_eq!(single_line_string("   "), "");
    assert_eq!(decimal_string(0), "0");
    assert_eq!(decimal_string(1024), "1024");
    assert_eq!(decimal_string(u64::MAX), u64::MAX.to_string());
    assert!(starts_with("Using seed: 1", "Using seed: "));
    assert!(!starts_with("Using", "Using seed: "));
    assert!(str_equals("dalle", "dalle"));
    assert!(!str_equals("dalle", "dall"));
}

#[test]
fn enum_values() {
    assert_eq!(MediaSource::Mist.value(), MediaGenerator::MIST);
    assert_eq!(MediaSource::StableHorde.value(), MediaGenerator::STABLE_HORDE);
    assert_eq!(MediaSource::Dalle.value(), MediaGenerator::DALLE);
    assert_eq!(MediaSource::Import.value(), "import");
    assert_eq!(ReplicatePredictionStatus::Starting.value(), "starting");
    assert_eq!(ReplicatePredictionStatus::Processing.value(), "processing");
    assert_eq!(ReplicatePredictionStatus::Succeeded.value(), "succeeded");
    assert_eq!(ReplicatePredictionStatus::Failed.value(), "failed");
    assert_eq!(ReplicatePredictionStatus::Canceled.value(), "canceled");
    let e = MediaApiError::MediaNotFound.value();
    assert_eq!((e.code, e.message.as_str()), (404, "Media not found."));
    let e = DefaultApiError::InternalServerError.value();
    assert_eq!(e.code, 500);
}

#[test]
fn modal_endpoints() {
    assert_eq!(
        modal::api_url(MediaModel::STABLE_DIFFUSION_1_5),
        "https://ydubuc--mist-runwayml-stable-diffusion-v1-5-entrypoint.modal.run"
    );
    assert_eq!(
        modal::api_url(MediaModel::ARCANE_DIFFUSION),
        "https://ydubuc--mist-nitrosocke-arcane-diffusion-entrypoint.modal.run"
    );
    assert_eq!(modal::api_url("unknown"), "");
}

#[test]
fn seed_from_logs() {
    assert_eq!(get_seed_from_logs(Some("Using seed: 1234\nstep 1".to_string())), Some("1234".to_string()));
    assert_eq!(get_seed_from_logs(Some("Using seed: 99".to_string())), Some("99".to_string()));
    assert_eq!(get_seed_from_logs(Some("step 1\nUsing seed: 5".to_string())), None);
    assert_eq!(get_seed_from_logs(Some("".to_string())), None);
    assert_eq!(get_seed_from_logs(None), None);
}

#[test]
fn replicate_models() {
    assert!(replicate::is_replicate_model(MediaModel::OPENJOURNEY));
    assert!(!replicate::is_replicate_model(MediaModel::DREAMSHAPER));
}

#[test]
fn sanitizing_twice_changes_nothing() {
    let mut d = dto(MediaGenerator::STABLE_HORDE, None, 768, 768, 3);
    d.prompt = "\t line one\r\nline two  ".to_string();
    d.negative_prompt = Some(" x\ny ".to_string());
    let once = d.sanitized();
    let twice = once.sanitized();
    assert_eq!(once.prompt, twice.prompt);
    assert_eq!(once.negative_prompt, twice.negative_prompt);
    assert_eq!(once.model, twice.model);
}

#[test]
fn sanitizing_keeps_validation_and_cost() {
    for (g, m, w, h, n) in [
        (MediaGenerator::MIST, None, 1024, 1024, 2),
        (MediaGenerator::MIST, Some(MediaModel::DALLE), 512, 512, 2),
        (MediaGenerator::DALLE, None, 512, 512, 9),
        (MediaGenerator::STABLE_HORDE, None, 768, 512, 4),
    ] {
        let d = dto(g, m, w, h, n);
        let s = d.sanitized();
        assert_eq!(d.is_valid().err().map(|e| e.message), s.is_valid().err().map(|e| e.message));
        assert_eq!(
            mist_media::ink::calculate_ink_cost(&d, None),
            mist_media::ink::calculate_ink_cost(&s, None)
        );
    }
}
