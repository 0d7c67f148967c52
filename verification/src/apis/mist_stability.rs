//! The mist stability provider.
use vstd::prelude::*;

use crate::apis::mist::side_512_768_1024;
use crate::dto::GenerateMediaDto;

verus! {

/// The sizes that mist stability offers: both sides in {512, 768, 1024}.
pub open spec fn mist_stability_size_ok(width: u16, height: u16) -> bool {
    side_512_768_1024(width) && side_512_768_1024(height)
}

/// Whether mist stability offers images of `width` x `height`.
pub fn is_valid_size(width: &u16, height: &u16) -> (r: bool)
    ensures
        r == mist_stability_size_ok(*width, *height),
{
    let w = *width;
    let h = *height;
    if !(w == 512 || w == 768 || w == 1024) {
        return false;
    }
    if !(h == 512 || h == 768 || h == 1024) {
        return false;
    }
    true
}

} // verus!

verus! {

/// A mist stability generation request.
#[derive(Debug)]
pub struct InputSpec {
    pub prompt: String,
    pub width: u16,
    pub height: u16,
    pub number: u8,
    pub steps: Option<u8>,
    pub engine: Option<String>,
}

/// The mist stability request for a generation request: its prompt, size
/// and number, 50 steps, the default engine.
pub fn provide_input_spec(dto: &GenerateMediaDto) -> (r: InputSpec)
    ensures
        r.prompt@ == dto.prompt@,
        r.width == dto.width,
        r.height == dto.height,
        r.number == dto.number,
        r.steps == Some(50u8),
        r.engine is None,
{
    InputSpec {
        prompt: dto.prompt.clone(),
        width: dto.width,
        height: dto.height,
        number: dto.number,
        steps: Some(50),
        engine: None,
    }
}

/// The mist stability answer: the images as base64.
#[derive(Debug)]
pub struct MistStabilityGenerateImagesResponse {
    pub base64_data: Vec<String>,
}

/// An image and its seed, in the earlier form of the answer.
#[derive(Debug)]
pub struct MistStabilityImageData {
    pub base64: String,
    pub seed: String,
}

} // verus!
