use mist_media::completion::settle_ink;
use mist_media::deletion::refund_for;
use mist_media::dto::GenerateMediaDto;
use mist_media::enums::MediaGenerator;
use mist_media::ink::dtos::EditUserInkDto;
use mist_media::ink::{calculate_ink_cost, ink_update_outcome};
use mist_media::ink_uniform;

fn dto(generator: &str, width: u16, height: u16, number: u8) -> GenerateMediaDto {
    GenerateMediaDto {
        prompt: "p".to_string(),
        number,
        width,
        height,
        generator: generator.to_string(),
        model: None,
        negative_prompt: None,
        cfg_scale: None,
        input_media_id: None,
        publish: None,
    }
}

/// The same cost computed as the service does, in floating point.
fn float_cost(base: f64, number: u8, width: u16, height: u16) -> i64 {
    let pixels = (number as u64) * (width as u64 * height as u64);
    ((pixels as f64) * (base / (512.0 * 512.0))).round() as i64
}

#[test]
fn ink_cost_per_generator() {
    assert_eq!(calculate_ink_cost(&dto(MediaGenerator::DALLE, 512, 512, 2), None), 10);
    assert_eq!(calculate_ink_cost(&dto(MediaGenerator::DREAM, 512, 512, 1), None), 10);
    assert_eq!(calculate_ink_cost(&dto(MediaGenerator::MIST_STABILITY, 512, 512, 1), None), 15);
    assert_eq!(calculate_ink_cost(&dto(MediaGenerator::STABLE_HORDE, 512, 512, 3), None), 12);
    assert_eq!(calculate_ink_cost(&dto(MediaGenerator::MIST, 1024, 768, 4), None), 120);
    assert_eq!(calculate_ink_cost(&dto(MediaGenerator::MIST, 1024, 768, 4), Some(1)), 30);
    assert_eq!(calculate_ink_cost(&dto(MediaGenerator::MIST, 1024, 768, 4), Some(0)), 0);
}

#[test]
fn ink_cost_rounds_half_up_like_floating_point() {
    for (g, base) in [
        (MediaGenerator::DALLE, 5.0),
        (MediaGenerator::STABLE_HORDE, 4.0),
        (MediaGenerator::MIST, 10.0),
        (MediaGenerator::MIST_STABILITY, 15.0),
    ] {
        for (w, h) in [(1u16, 1u16), (100, 100), (181, 181), (256, 256), (333, 777), (65535, 65535)] {
            for n in [0u8, 1, 7, 255] {
                assert_eq!(
                    calculate_ink_cost(&dto(g, w, h, n), None),
                    float_cost(base, n, w, h),
                    "{} {}x{} {}",
                    g,
                    w,
                    h,
                    n
                );
            }
        }
    }
}

#[test]
fn uniform_ink_cost() {
    assert_eq!(ink_uniform::calculate_ink_cost(&dto(MediaGenerator::DALLE, 512, 512, 2), None), 20);
    assert_eq!(ink_uniform::calculate_ink_cost(&dto(MediaGenerator::DALLE, 512, 512, 2), Some(1)), 10);
    assert_eq!(ink_uniform::calculate_ink_cost(&dto(MediaGenerator::DALLE, 256, 256, 1), None), 3);
}

#[test]
fn ink_cost_grows_with_images() {
    let d = dto(MediaGenerator::STABLE_HORDE, 768, 512, 5);
    let mut last = 0;
    for n in 0u8..=10 {
        let c = calculate_ink_cost(&d, Some(n));
        assert!(c >= last);
        last = c;
    }
}

#[test]
fn update_statement_and_binds() {
    let d = EditUserInkDto {
        ink_increase: Some(3),
        ink_decrease: None,
        ink_pending_increase: None,
        ink_pending_decrease: Some(7),
    };
    assert_eq!(
        d.to_sql().unwrap(),
        "UPDATE users SET ink = ink + $1, ink_sum = ink_sum + $2, ink_pending = ink_pending - $3 WHERE id = $4"
    );
    assert_eq!(d.bind_values(), vec![3, 3, 7]);
    let all = EditUserInkDto {
        ink_increase: Some(1),
        ink_decrease: Some(2),
        ink_pending_increase: Some(3),
        ink_pending_decrease: Some(4),
    };
    assert_eq!(
        all.to_sql().unwrap(),
        "UPDATE users SET ink = ink + $1, ink_sum = ink_sum + $2, ink = ink - $3, ink_pending = ink_pending + $4, ink_pending = ink_pending - $5 WHERE id = $6"
    );
    assert_eq!(all.bind_values(), vec![1, 1, 2, 3, 4]);
}

#[test]
fn empty_update_is_refused() {
    let d = EditUserInkDto { ink_increase: None, ink_decrease: None, ink_pending_increase: None, ink_pending_decrease: None };
    let e = d.to_sql().unwrap_err();
    assert_eq!((e.code, e.message.as_str()), (400, "Received nothing to edit."));
    assert!(d.bind_values().is_empty());
}

#[test]
fn uniform_update_statement() {
    let d = ink_uniform::EditUserInkDto {
        ink_increase: Some(1),
        ink_decrease: Some(2),
        ink_pending_increase: None,
        ink_pending_decrease: Some(4),
    };
    assert_eq!(
        d.to_sql().unwrap(),
        "UPDATE users SET ink = ink + $1, ink = ink - $2, ink_pending = ink_pending - $3 WHERE id = $4"
    );
    assert_eq!(d.bind_values(), vec![1, 2, 4]);
    // a pending decrease alone writes no assignment
    let only_pending = ink_uniform::EditUserInkDto {
        ink_increase: None,
        ink_decrease: None,
        ink_pending_increase: None,
        ink_pending_decrease: Some(4),
    };
    assert_eq!(only_pending.to_sql().unwrap_err().code, 400);
}

#[test]
fn update_outcomes() {
    assert!(ink_update_outcome(Ok(1)).is_ok());
    let e = ink_update_outcome(Ok(0)).unwrap_err();
    assert_eq!((e.code, e.message.as_str()), (404, "User not found."));
    let e = ink_update_outcome(Err(())).unwrap_err();
    assert_eq!((e.code, e.message.as_str()), (500, "Failed to update user ink."));
}

#[test]
fn settlement_releases_reservation_and_charges_made_images() {
    let d = dto(MediaGenerator::STABLE_HORDE, 512, 512, 4);
    let s = settle_ink(&d, Some(3));
    assert_eq!(s.ink_pending_decrease, Some(16));
    assert_eq!(s.ink_decrease, Some(12));
    assert_eq!(s.ink_increase, None);
    assert_eq!(s.ink_pending_increase, None);
    let failed = settle_ink(&d, None);
    assert_eq!(failed.ink_pending_decrease, Some(16));
    assert_eq!(failed.ink_decrease, None);
    // counts above 255 wrap around
    assert_eq!(settle_ink(&d, Some(257)).ink_decrease, Some(4));
}

#[test]
fn refund_is_one_image() {
    let d = dto(MediaGenerator::STABLE_HORDE, 1024, 1024, 4);
    let r = refund_for(&d);
    assert_eq!(r.ink_increase, Some(16));
    assert_eq!(r.ink_decrease, None);
    let tiny = dto(MediaGenerator::STABLE_HORDE, 1, 1, 4);
    assert_eq!(refund_for(&tiny).ink_increase, None);
}

#[test]
fn uniform_binds_disagree_with_placeholders_when_only_one_decrease_is_given() {
    let d = ink_uniform::EditUserInkDto {
        ink_increase: None,
        ink_decrease: Some(2),
        ink_pending_increase: None,
        ink_pending_decrease: None,
    };
    // two assignments but one bound value before the id
    assert_eq!(d.to_sql().unwrap(), "UPDATE users SET ink = ink - $1, ink_pending = ink_pending - $2 WHERE id = $3");
    assert_eq!(d.bind_values(), vec![2]);
}
