//! Ink, the currency in which image generation is paid: what a request
//! costs, and how a change to a user's ink balances is written to storage.
//!
//! The cost is proportional to the number of pixels generated, at a rate
//! per 512 x 512 image that depends on the generator, rounded to the
//! nearest whole unit (halves up). The rate divided by 512 * 512 = 2^18 is
//! exact in binary floating point, and so are the pixel count (below 2^53)
//! and their product; the floating-point rounding the service performs
//! therefore gives exactly the integer quotient stated here.
pub mod dtos;

use vstd::prelude::*;

use crate::dto::GenerateMediaDto;
use crate::enums::MediaGenerator;
use crate::error::{ApiError, INTERNAL_SERVER_ERROR, NOT_FOUND};
use crate::text::str_equals;

verus! {

/// Ink per 512 x 512 pixels for each generator.
pub open spec fn base_ink(generator: Seq<char>) -> nat {
    if generator == MediaGenerator::DALLE@ {
        5
    } else if generator == MediaGenerator::DREAM@ {
        10
    } else if generator == MediaGenerator::MIST_STABILITY@ {
        15
    } else if generator == MediaGenerator::STABLE_HORDE@ {
        4
    } else {
        10
    }
}

/// The number of images that a cost is computed for: the number
/// generated where it is known, else the number requested.
pub open spec fn images_counted(dto: GenerateMediaDto, number_generated: Option<u8>) -> nat {
    match number_generated {
        Some(n) => n as nat,
        None => dto.number as nat,
    }
}

/// `pixels * rate / 2^18`, rounded to the nearest integer, halves up.
pub open spec fn rounded_ink(pixels: nat, rate: nat) -> nat {
    (pixels * rate + 131072) / 262144
}

/// The ink that a request costs for the images counted.
pub open spec fn ink_cost(dto: GenerateMediaDto, number_generated: Option<u8>) -> nat {
    rounded_ink(
        images_counted(dto, number_generated) * (dto.width as nat * dto.height as nat),
        base_ink(dto.generator@),
    )
}

/// The ink per 512 x 512 pixels of the request's generator.
fn base_ink_of(generator: &str) -> (r: u64)
    ensures
        r == base_ink(generator@),
{
    if str_equals(generator, MediaGenerator::DALLE) {
        5
    } else if str_equals(generator, MediaGenerator::DREAM) {
        10
    } else if str_equals(generator, MediaGenerator::MIST_STABILITY) {
        15
    } else if str_equals(generator, MediaGenerator::STABLE_HORDE) {
        4
    } else {
        10
    }
}

/// The ink that generating `number_generated` images (or, for `None`, the
/// requested number) costs.
pub fn calculate_ink_cost(dto: &GenerateMediaDto, number_generated: Option<u8>) -> (r: i64)
    ensures
        r == ink_cost(*dto, number_generated),
{
    let base = base_ink_of(dto.generator.as_str());
    let number: u8 = match number_generated {
        Some(number_generated) => number_generated,
        None => dto.number,
    };
    let w = dto.width as u64;
    let h = dto.height as u64;
    let n = number as u64;
    assert(w * h <= 65535 * 65535) by (nonlinear_arith)
        requires
            w <= 65535,
            h <= 65535,
    ;
    let area = w * h;
    assert(n * area <= 255 * (65535 * 65535)) by (nonlinear_arith)
        requires
            n <= 255,
            area <= 65535 * 65535,
    ;
    let pixels = n * area;
    assert(pixels * base <= 255 * (65535 * 65535) * 15) by (nonlinear_arith)
        requires
            pixels <= 255 * (65535 * 65535),
            base <= 15,
    ;
    let cost = (pixels * base + 131072) / 262144;
    cost as i64
}

/// Ink costs grow with the number of images: counting fewer images never
/// costs more.
pub proof fn lemma_ink_cost_monotonic(dto: GenerateMediaDto, fewer: u8, more: u8)
    requires
        fewer <= more,
    ensures
        ink_cost(dto, Some(fewer)) <= ink_cost(dto, Some(more)),
{
    let area = dto.width as nat * dto.height as nat;
    let rate = base_ink(dto.generator@);
    assert(fewer as nat * area * rate + 131072 <= more as nat * area * rate + 131072)
        by (nonlinear_arith)
        requires
            fewer <= more,
    ;
    vstd::arithmetic::div_mod::lemma_div_is_ordered(
        (fewer as nat * area * rate + 131072) as int,
        (more as nat * area * rate + 131072) as int,
        262144,
    );
}

/// The result of a storage update of a user's ink, as the count of rows
/// it changed, or `Err` where the update itself failed.
pub fn ink_update_outcome(rows_affected: Result<u64, ()>) -> (r: Result<(), ApiError>)
    ensures
        rows_affected matches Ok(n) && n > 0 ==> r is Ok,
        rows_affected matches Ok(n) && n == 0 ==> (r matches Err(e) && e.code == NOT_FOUND
            && e.message@ == "User not found."@),
        rows_affected is Err ==> (r matches Err(e) && e.code == INTERNAL_SERVER_ERROR
            && e.message@ == "Failed to update user ink."@),
{
    match rows_affected {
        Ok(n) => {
            if n > 0 {
                Ok(())
            } else {
                Err(ApiError::new(NOT_FOUND, "User not found."))
            }
        },
        Err(_) => Err(ApiError::new(INTERNAL_SERVER_ERROR, "Failed to update user ink.")),
    }
}

} // verus!
