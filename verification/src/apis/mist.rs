//! The service's own generator ("mist"), which runs its models through
//! other providers.
use vstd::prelude::*;

use crate::enums::MediaModel;
use crate::text::str_equals;

verus! {

/// The models that the mist generator offers.
pub open spec fn mist_model_ok(model: Seq<char>) -> bool {
    model == MediaModel::STABLE_DIFFUSION_1_5@ || model == MediaModel::STABLE_DIFFUSION_2_1@
        || model == MediaModel::OPENJOURNEY@ || model == MediaModel::OPENJOURNEY_2@ || model
        == MediaModel::DREAMSHAPER@ || model == MediaModel::DREAMLIKE_DIFFUSION_1@ || model
        == MediaModel::ARCANE_DIFFUSION@
}

/// A side length of 512, 768 or 1024 pixels.
pub open spec fn side_512_768_1024(side: u16) -> bool {
    side == 512 || side == 768 || side == 1024
}

/// The sizes that the mist generator offers: both sides in
/// {512, 768, 1024}, but not 1024 x 1024.
pub open spec fn mist_size_ok(width: u16, height: u16) -> bool {
    side_512_768_1024(width) && side_512_768_1024(height) && !(width == 1024 && height == 1024)
}

/// The numbers of images that the mist generator offers: 1 to 6.
pub open spec fn mist_number_ok(number: u8) -> bool {
    0 < number < 7
}

/// Whether the mist generator offers `model`.
pub fn is_valid_model(model: &str) -> (r: bool)
    ensures
        r == mist_model_ok(model@),
{
    str_equals(model, MediaModel::STABLE_DIFFUSION_1_5) || str_equals(
        model,
        MediaModel::STABLE_DIFFUSION_2_1,
    ) || str_equals(model, MediaModel::OPENJOURNEY) || str_equals(model, MediaModel::OPENJOURNEY_2)
        || str_equals(model, MediaModel::DREAMSHAPER) || str_equals(
        model,
        MediaModel::DREAMLIKE_DIFFUSION_1,
    ) || str_equals(model, MediaModel::ARCANE_DIFFUSION)
}

/// Whether the mist generator offers images of `width` x `height`
/// (the model does not matter).
pub fn is_valid_size(width: &u16, height: &u16, _model: &str) -> (r: bool)
    ensures
        r == mist_size_ok(*width, *height),
{
    let w = *width;
    let h = *height;
    if !(w == 512 || w == 768 || w == 1024) {
        return false;
    }
    if !(h == 512 || h == 768 || h == 1024) {
        return false;
    }
    if w == 1024 && h == 1024 {
        return false;
    }
    true
}

/// Whether the mist generator makes `number` images at once
/// (the model does not matter).
pub fn is_valid_number(number: u8, _model: &str) -> (r: bool)
    ensures
        r == mist_number_ok(number),
{
    number > 0 && number < 7
}

} // verus!
