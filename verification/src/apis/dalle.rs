//! The OpenAI DALL-E provider.
use vstd::prelude::*;

use crate::enums::MediaModel;
use crate::dto::GenerateMediaDto;
use crate::error::{ApiError, BAD_REQUEST};
use crate::text::{decimal, decimal_string, str_equals};

verus! {

/// The models that DALL-E offers: its own.
pub open spec fn dalle_model_ok(model: Seq<char>) -> bool {
    model == MediaModel::DALLE@
}

/// The sizes that DALL-E is asked for: 512 x 512.
pub open spec fn dalle_size_ok(width: u16, height: u16) -> bool {
    width == 512 && height == 512
}

/// The numbers of images that DALL-E offers: 1 to 8.
pub open spec fn dalle_number_ok(number: u8) -> bool {
    0 < number < 9
}

/// Whether DALL-E offers `model`.
pub fn is_valid_model(model: &str) -> (r: bool)
    ensures
        r == dalle_model_ok(model@),
{
    str_equals(model, MediaModel::DALLE)
}

/// Whether DALL-E is asked for images of `width` x `height`.
pub fn is_valid_size(width: &u16, height: &u16) -> (r: bool)
    ensures
        r == dalle_size_ok(*width, *height),
{
    if *width != 512 {
        return false;
    }
    if *height != 512 {
        return false;
    }
    true
}

/// Whether DALL-E makes `number` images at once.
pub fn is_valid_number(number: u8) -> (r: bool)
    ensures
        r == dalle_number_ok(number),
{
    (number > 0) && (number < 9)
}

} // verus!

verus! {

/// A DALL-E image request.
#[derive(Debug)]
pub struct InputSpec {
    pub prompt: String,
    pub n: u8,
    pub size: String,
    pub response_format: String,
}

/// The size of an image as DALL-E names it: width, "x", height.
pub open spec fn size_name(width: u16, height: u16) -> Seq<char> {
    decimal(width as nat) + "x"@ + decimal(height as nat)
}

/// The size name of `width` x `height`.
pub fn size_string(width: u16, height: u16) -> (r: String)
    ensures
        r@ == size_name(width, height),
{
    let mut size = decimal_string(width as u64);
    size.append("x");
    let h = decimal_string(height as u64);
    size.append(h.as_str());
    size
}

/// The request that a generation request becomes: its prompt, its number
/// of images, its size, with the images returned as base64 JSON.
pub open spec fn dalle_input_matches(dto: GenerateMediaDto, r: InputSpec) -> bool {
    &&& r.prompt@ == dto.prompt@
    &&& r.n == dto.number
    &&& r.size@ == size_name(dto.width, dto.height)
    &&& r.response_format@ == "b64_json"@
}

/// The DALL-E request for a generation request.
pub fn provide_input_spec(dto: &GenerateMediaDto) -> (r: InputSpec)
    ensures
        dalle_input_matches(*dto, r),
{
    let size = size_string(dto.width, dto.height);
    InputSpec {
        prompt: dto.prompt.clone(),
        n: dto.number,
        size,
        response_format: String::from_str("b64_json"),
    }
}

/// The sizes that DALL-E can produce, by name.
pub open spec fn dalle_size_name_ok(size: Seq<char>) -> bool {
    size == "256x256"@ || size == "512x512"@ || size == "1024x1024"@
}

/// The refusal of a size that DALL-E cannot produce.
pub open spec fn dalle_size_message() -> Seq<char> {
    "Size must be one of: 256x256,512x512,1024x1024"@
}

/// The DALL-E request for a generation request, refused when DALL-E
/// cannot produce the requested size.
pub fn provide_checked_input_spec(dto: &GenerateMediaDto) -> (r: Result<InputSpec, ApiError>)
    ensures
        dalle_size_name_ok(size_name(dto.width, dto.height)) <==> r is Ok,
        r matches Ok(spec) ==> dalle_input_matches(*dto, spec),
        r matches Err(e) ==> e.code == BAD_REQUEST && e.message@ == dalle_size_message(),
{
    let size = size_string(dto.width, dto.height);
    let s = size.as_str();
    if !(str_equals(s, "256x256") || str_equals(s, "512x512") || str_equals(s, "1024x1024")) {
        return Err(ApiError::new(BAD_REQUEST, "Size must be one of: 256x256,512x512,1024x1024"));
    }
    Ok(
        InputSpec {
            prompt: dto.prompt.clone(),
            n: dto.number,
            size,
            response_format: String::from_str("b64_json"),
        },
    )
}

/// DALL-E's answer, with its images as base64.
#[derive(Debug)]
pub struct DalleGenerateImageResponse {
    pub created: u64,
    pub data: Vec<DalleDataBase64Json>,
}

/// An image given by its link.
#[derive(Debug)]
pub struct DalleDataUrl {
    pub url: String,
}

/// An image given as base64.
#[derive(Debug)]
pub struct DalleDataBase64Json {
    pub b64_json: String,
}

} // verus!

verus! {

/// A DALL-E request for its model and size is refused for its number
/// exactly when it asks for fewer than 1 or more than 8 images; it is
/// accepted exactly when it asks for 1 to 8.
pub proof fn lemma_dalle_numbers(dto: crate::dto::GenerateMediaDto)
    requires
        dto.generator@ == "dalle"@,
        crate::dto::effective_model(dto) == "dalle"@,
        dto.width == 512 && dto.height == 512,
    ensures
        crate::dto::validation_failure(dto) is None <==> 1 <= dto.number <= 8,
        crate::dto::validation_failure(dto) == Some(
            "This generator does not support this number."@,
        ) <==> !(1 <= dto.number <= 8),
{
    crate::enums::lemma_generators_distinct();
    reveal_strlit("This generator is not supported.");
    reveal_strlit("This generator does not support this model.");
    reveal_strlit("This generator does not support this size.");
    reveal_strlit("This generator does not support this number.");
}

} // verus!
