//! The bodies of the requests that create media.
use vstd::prelude::*;

use crate::apis::{dalle, mist, stable_horde};
use crate::apis::dalle::{dalle_model_ok, dalle_number_ok, dalle_size_ok};
use crate::apis::mist::{mist_model_ok, mist_number_ok, mist_size_ok};
use crate::apis::stable_horde::{stable_horde_model_ok, stable_horde_number_ok, stable_horde_size_ok};
use crate::enums::{MediaGenerator, MediaModel};
use crate::error::{ApiError, BAD_REQUEST};
use crate::text::{single_line, single_line_string, str_equals};

verus! {

/// A request to generate images from a prompt.
#[derive(Debug)]
pub struct GenerateMediaDto {
    pub prompt: String,
    pub number: u8,
    pub width: u16,
    pub height: u16,
    pub generator: String,
    pub model: Option<String>,
    pub negative_prompt: Option<String>,
    pub cfg_scale: Option<u8>,
    pub input_media_id: Option<String>,
    pub publish: Option<bool>,
}

/// A request to create media (the earlier form of a generation request).
#[derive(Debug)]
pub struct CreateMediaDto {
    pub prompt: String,
    pub number: u8,
    pub size: String,
}

/// An optional string as an optional sequence of characters.
pub open spec fn opt_chars(o: Option<String>) -> Option<Seq<char>> {
    match o {
        Some(s) => Some(s@),
        None => None,
    }
}

/// The generators for which a default model is defined.
pub open spec fn has_default_model(generator: Seq<char>) -> bool {
    generator == MediaGenerator::MIST@ || generator == MediaGenerator::STABLE_HORDE@ || generator
        == MediaGenerator::DALLE@
}

/// The model used when a request names none.
pub open spec fn default_model_of(generator: Seq<char>) -> Seq<char> {
    if generator == MediaGenerator::MIST@ {
        MediaModel::STABLE_DIFFUSION_1_5@
    } else if generator == MediaGenerator::STABLE_HORDE@ {
        MediaModel::STABLE_DIFFUSION_1_5@
    } else {
        MediaModel::DALLE@
    }
}

/// The model that a request is served with: the one it names, else the
/// generator's default.
pub open spec fn effective_model(dto: GenerateMediaDto) -> Seq<char> {
    match dto.model {
        Some(m) => m@,
        None => default_model_of(dto.generator@),
    }
}

/// Why a request is refused, if it is: the first of generator, model,
/// size and number that its generator does not support, with its message.
pub open spec fn validation_failure(dto: GenerateMediaDto) -> Option<Seq<char>> {
    let g = dto.generator@;
    let model = effective_model(dto);
    let (known, model_ok, size_ok, number_ok) = if g == MediaGenerator::MIST@ {
        (
            true,
            mist_model_ok(model),
            mist_size_ok(dto.width, dto.height),
            mist_number_ok(dto.number),
        )
    } else if g == MediaGenerator::STABLE_HORDE@ {
        (
            true,
            stable_horde_model_ok(model),
            stable_horde_size_ok(dto.width, dto.height),
            stable_horde_number_ok(dto.number),
        )
    } else if g == MediaGenerator::DALLE@ {
        (
            true,
            dalle_model_ok(model),
            dalle_size_ok(dto.width, dto.height),
            dalle_number_ok(dto.number),
        )
    } else {
        (false, false, false, false)
    };
    if !known {
        Some("This generator is not supported."@)
    } else if !model_ok {
        Some("This generator does not support this model."@)
    } else if !size_ok {
        Some("This generator does not support this size."@)
    } else if !number_ok {
        Some("This generator does not support this number."@)
    } else {
        None
    }
}

/// A request with its free-text fields made single-line and its model
/// made explicit.
pub open spec fn sanitized_of(dto: GenerateMediaDto, r: GenerateMediaDto) -> bool {
    &&& r.prompt@ == single_line(dto.prompt@)
    &&& r.number == dto.number
    &&& r.width == dto.width
    &&& r.height == dto.height
    &&& r.generator@ == dto.generator@
    &&& opt_chars(r.model) == Some(effective_model(dto))
    &&& opt_chars(r.negative_prompt) == match dto.negative_prompt {
        Some(p) => Some(single_line(p@)),
        None => None,
    }
    &&& r.cfg_scale == dto.cfg_scale
    &&& opt_chars(r.input_media_id) == opt_chars(dto.input_media_id)
    &&& r.publish == dto.publish
}

/// A copy of an optional string.
pub fn copy_opt_string(o: &Option<String>) -> (r: Option<String>)
    ensures
        r == *o,
{
    match o {
        Some(s) => Some(s.clone()),
        None => None,
    }
}

impl GenerateMediaDto {
    /// A field-by-field copy.
    pub fn duplicate(&self) -> (r: GenerateMediaDto)
        ensures
            r == *self,
    {
        GenerateMediaDto {
            prompt: self.prompt.clone(),
            number: self.number,
            width: self.width,
            height: self.height,
            generator: self.generator.clone(),
            model: copy_opt_string(&self.model),
            negative_prompt: copy_opt_string(&self.negative_prompt),
            cfg_scale: self.cfg_scale,
            input_media_id: copy_opt_string(&self.input_media_id),
            publish: self.publish,
        }
    }

    /// The model used when the request names none; defined for the mist,
    /// Stable Horde and DALL-E generators.
    pub fn default_model(&self) -> (r: &'static str)
        requires
            has_default_model(self.generator@),
        ensures
            r@ == default_model_of(self.generator@),
    {
        if str_equals(self.generator.as_str(), MediaGenerator::MIST) {
            MediaModel::STABLE_DIFFUSION_1_5
        } else if str_equals(self.generator.as_str(), MediaGenerator::STABLE_HORDE) {
            MediaModel::STABLE_DIFFUSION_1_5
        } else {
            MediaModel::DALLE
        }
    }

    /// The classifier-free guidance scale used when a request sets none.
    pub fn default_cfg_scale() -> (r: u8)
        ensures
            r == 8,
    {
        8
    }

    /// The model that the request is served with.
    pub fn model_or_default(&self) -> (r: String)
        requires
            has_default_model(self.generator@),
        ensures
            r@ == effective_model(*self),
    {
        // the default is computed whether or not it is used
        let default_model = self.default_model();
        match &self.model {
            Some(m) => m.clone(),
            None => String::from_str(default_model),
        }
    }

    /// The request with prompt and negative prompt trimmed and made
    /// single-line, and the model made explicit.
    pub fn sanitized(&self) -> (r: Self)
        requires
            has_default_model(self.generator@),
        ensures
            sanitized_of(*self, r),
    {
        let negative_prompt = match &self.negative_prompt {
            Some(negative_prompt) => Some(single_line_string(negative_prompt.as_str())),
            None => None,
        };
        GenerateMediaDto {
            prompt: single_line_string(self.prompt.as_str()),
            number: self.number,
            width: self.width,
            height: self.height,
            generator: self.generator.clone(),
            model: Some(self.model_or_default()),
            negative_prompt,
            cfg_scale: self.cfg_scale,
            input_media_id: copy_opt_string(&self.input_media_id),
            publish: self.publish,
        }
    }

    /// Whether the generator supports the requested model, size and
    /// number; the error names the first that it does not support.
    pub fn is_valid(&self) -> (r: Result<(), ApiError>)
        requires
            has_default_model(self.generator@),
        ensures
            r is Ok <==> validation_failure(*self) is None,
            r matches Err(e) ==> e.code == BAD_REQUEST && Some(e.message@) == validation_failure(
                *self,
            ),
    {
        let model = self.model_or_default();
        let is_valid_generator: bool;
        let is_valid_model: bool;
        let is_valid_size: bool;
        let is_valid_number: bool;

        if str_equals(self.generator.as_str(), MediaGenerator::MIST) {
            is_valid_generator = true;
            is_valid_model = mist::is_valid_model(model.as_str());
            is_valid_size = mist::is_valid_size(&self.width, &self.height, model.as_str());
            is_valid_number = mist::is_valid_number(self.number, model.as_str());
        } else if str_equals(self.generator.as_str(), MediaGenerator::STABLE_HORDE) {
            is_valid_generator = true;
            is_valid_model = stable_horde::is_valid_model(model.as_str());
            is_valid_size = stable_horde::is_valid_size(&self.width, &self.height);
            is_valid_number = stable_horde::is_valid_number(self.number);
        } else if str_equals(self.generator.as_str(), MediaGenerator::DALLE) {
            is_valid_generator = true;
            is_valid_model = dalle::is_valid_model(model.as_str());
            is_valid_size = dalle::is_valid_size(&self.width, &self.height);
            is_valid_number = dalle::is_valid_number(self.number);
        } else {
            is_valid_generator = false;
            is_valid_model = false;
            is_valid_size = false;
            is_valid_number = false;
        }

        if !is_valid_generator {
            return Err(ApiError::new(BAD_REQUEST, "This generator is not supported."));
        }
        if !is_valid_model {
            return Err(ApiError::new(BAD_REQUEST, "This generator does not support this model."));
        }
        if !is_valid_size {
            return Err(ApiError::new(BAD_REQUEST, "This generator does not support this size."));
        }
        if !is_valid_number {
            return Err(ApiError::new(BAD_REQUEST, "This generator does not support this number."));
        }
        Ok(())
    }
}

} // verus!

verus! {

/// Sanitizing a sanitized request changes nothing.
pub proof fn lemma_sanitize_idempotent(
    dto: GenerateMediaDto,
    once: GenerateMediaDto,
    twice: GenerateMediaDto,
)
    requires
        sanitized_of(dto, once),
        sanitized_of(once, twice),
    ensures
        twice.prompt@ == once.prompt@,
        opt_chars(twice.negative_prompt) == opt_chars(once.negative_prompt),
        opt_chars(twice.model) == opt_chars(once.model),
        twice.number == once.number && twice.width == once.width && twice.height == once.height,
        twice.generator@ == once.generator@,
        twice.cfg_scale == once.cfg_scale && twice.publish == once.publish,
        opt_chars(twice.input_media_id) == opt_chars(once.input_media_id),
{
    crate::text::lemma_single_line_idempotent(dto.prompt@);
    if let Some(p) = dto.negative_prompt {
        crate::text::lemma_single_line_idempotent(p@);
    }
}

} // verus!
