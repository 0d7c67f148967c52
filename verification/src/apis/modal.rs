//! The Modal provider: one endpoint per model, answering through a
//! webhook.
use vstd::prelude::*;

use crate::dto::{copy_opt_string, opt_chars, GenerateMediaDto};
use crate::enums::MediaModel;
use crate::error::{ApiError, INTERNAL_SERVER_ERROR};
use crate::text::str_equals;

verus! {

/// The endpoint of each model that runs on Modal; the empty string for
/// any other model.
pub open spec fn modal_url(model: Seq<char>) -> Seq<char> {
    if model == MediaModel::STABLE_DIFFUSION_1_5@ {
        "https://ydubuc--mist-runwayml-stable-diffusion-v1-5-entrypoint.modal.run"@
    } else if model == MediaModel::STABLE_DIFFUSION_2_1@ {
        "https://ydubuc--mist-stabilityai-stable-diffusion-2-1-entrypoint.modal.run"@
    } else if model == MediaModel::OPENJOURNEY@ {
        "https://ydubuc--mist-prompthero-openjourney-entrypoint.modal.run"@
    } else if model == MediaModel::OPENJOURNEY_4@ {
        "https://ydubuc--mist-prompthero-openjourney-v4-entrypoint.modal.run"@
    } else if model == MediaModel::DREAMSHAPER@ {
        "https://ydubuc--mist-lykon-dreamshaper-entrypoint.modal.run"@
    } else if model == MediaModel::DREAMLIKE_DIFFUSION_1@ {
        "https://ydubuc--mist-dreamlike-art-dreamlike-diffusion-1-0-entrypoint.modal.run"@
    } else if model == MediaModel::ARCANE_DIFFUSION@ {
        "https://ydubuc--mist-nitrosocke-arcane-diffusion-entrypoint.modal.run"@
    } else {
        ""@
    }
}

/// The Modal endpoint that runs `model` (empty for a model it does not run).
pub fn api_url(model: &str) -> (r: &'static str)
    ensures
        r@ == modal_url(model@),
{
    if str_equals(model, MediaModel::STABLE_DIFFUSION_1_5) {
        "https://ydubuc--mist-runwayml-stable-diffusion-v1-5-entrypoint.modal.run"
    } else if str_equals(model, MediaModel::STABLE_DIFFUSION_2_1) {
        "https://ydubuc--mist-stabilityai-stable-diffusion-2-1-entrypoint.modal.run"
    } else if str_equals(model, MediaModel::OPENJOURNEY) {
        "https://ydubuc--mist-prompthero-openjourney-entrypoint.modal.run"
    } else if str_equals(model, MediaModel::OPENJOURNEY_4) {
        "https://ydubuc--mist-prompthero-openjourney-v4-entrypoint.modal.run"
    } else if str_equals(model, MediaModel::DREAMSHAPER) {
        "https://ydubuc--mist-lykon-dreamshaper-entrypoint.modal.run"
    } else if str_equals(model, MediaModel::DREAMLIKE_DIFFUSION_1) {
        "https://ydubuc--mist-dreamlike-art-dreamlike-diffusion-1-0-entrypoint.modal.run"
    } else if str_equals(model, MediaModel::ARCANE_DIFFUSION) {
        "https://ydubuc--mist-nitrosocke-arcane-diffusion-entrypoint.modal.run"
    } else {
        ""
    }
}

/// The input of a Stable Diffusion run on Modal.
#[derive(Debug)]
pub struct InputStableDiffusion15 {
    pub request_id: String,
    pub prompt: String,
    pub negative_prompt: Option<String>,
    pub width: u16,
    pub height: u16,
    pub number: u8,
    pub steps: u16,
    pub cfg_scale: u8,
    pub callback_url: String,
}

/// Modal's answer to a run: the id under which it will call back.
#[derive(Debug)]
pub struct ModalEntrypointResponse {
    pub request_id: String,
}

/// The input of a run for a stored generation request: its id, the
/// request's prompt, negative prompt, size and number, 50 steps, its
/// guidance scale (8 by default), and the service's webhook to call back.
pub fn provide_input_spec(request_id: &str, dto: &GenerateMediaDto, static_url: &str) -> (r:
    InputStableDiffusion15)
    ensures
        r.request_id@ == request_id@,
        r.prompt@ == dto.prompt@,
        opt_chars(r.negative_prompt) == opt_chars(dto.negative_prompt),
        r.width == dto.width,
        r.height == dto.height,
        r.number == dto.number,
        r.steps == 50,
        r.cfg_scale == match dto.cfg_scale {
            Some(c) => c,
            None => 8u8,
        },
        r.callback_url@ == static_url@ + "/webhooks/modal"@,
{
    let mut callback_url = String::from_str(static_url);
    callback_url.append("/webhooks/modal");
    InputStableDiffusion15 {
        request_id: String::from_str(request_id),
        prompt: dto.prompt.clone(),
        negative_prompt: copy_opt_string(&dto.negative_prompt),
        width: dto.width,
        height: dto.height,
        number: dto.number,
        steps: 50,
        cfg_scale: match dto.cfg_scale {
            Some(c) => c,
            None => 8,
        },
        callback_url,
    }
}

} // verus!

verus! {

/// The base64 images that Modal's webhook delivered; a delivery without
/// images fails with "Modal generated no images.".
pub fn webhook_images(images: Vec<String>) -> (r: Result<Vec<String>, ApiError>)
    ensures
        images@.len() >= 1 <==> r is Ok,
        r matches Ok(v) ==> v == images,
        r matches Err(e) ==> e.code == INTERNAL_SERVER_ERROR && e.message@
            == "Modal generated no images."@,
{
    if images.len() < 1 {
        return Err(ApiError::new(INTERNAL_SERVER_ERROR, "Modal generated no images."));
    }
    Ok(images)
}

} // verus!
