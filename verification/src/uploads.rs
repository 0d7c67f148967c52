//! Preparing images for storage: checking an import, reading an imported
//! image's size, decoding a generated image, naming and typing the file.
use vstd::prelude::*;
use vstd::utf8::encode_utf8;

use crate::codec::{base64_decoded, decode_base64};
use crate::error::{ApiError, BAD_REQUEST, INTERNAL_SERVER_ERROR};
use crate::text::{is_prefix, starts_with};

verus! {

/// A file about to be stored: its id (also its field and file name), its
/// MIME type, and its bytes.
#[derive(Debug)]
pub struct FileProperties {
    pub id: String,
    pub field_name: String,
    pub file_name: String,
    pub mime_type: String,
    pub data: Vec<u8>,
}

/// `mime::IMAGE.to_string()`. Claimed: "image", the constant's text in
/// the `mime` crate.
#[verifier::external_body]
fn image_top_level_type() -> (r: String)
    ensures
        r@ == "image"@,
{
    mime::IMAGE.to_string()
}

/// `mime::IMAGE_PNG.to_string()`. Claimed: "image/png", the constant's
/// text in the `mime` crate.
#[verifier::external_body]
fn png_mime_type() -> (r: String)
    ensures
        r@ == "image/png"@,
{
    mime::IMAGE_PNG.to_string()
}

/// `mime::IMAGE_JPEG.to_string()`. Claimed: "image/jpeg", the constant's
/// text in the `mime` crate.
#[verifier::external_body]
fn jpeg_mime_type() -> (r: String)
    ensures
        r@ == "image/jpeg"@,
{
    mime::IMAGE_JPEG.to_string()
}

/// `uuid::Uuid::new_v4().to_string()`: a fresh random id. Claimed only
/// what holds of every outcome: the hyphenated form, 36 characters with
/// hyphens at 8, 13, 18 and 23.
#[verifier::external_body]
fn new_file_id() -> (r: String)
    ensures
        r@.len() == 36,
        r@[8] == '-' && r@[13] == '-' && r@[18] == '-' && r@[23] == '-',
{
    uuid::Uuid::new_v4().to_string()
}

/// What `imagesize::blob_size` gives for `data`: the width and height in
/// pixels of the image it holds, or `None` where the format is not
/// recognised or the data is too short.
pub uninterp spec fn image_dimensions(data: Seq<u8>) -> Option<(usize, usize)>;

/// The 16-bit number at `i`, in the byte order that a TIFF header names
/// (`little` for "II", big-endian for "MM").
pub open spec fn tiff_u16(data: Seq<u8>, i: int, little: bool) -> int {
    if little {
        data[i] + 256 * data[i + 1]
    } else {
        256 * data[i] + data[i + 1]
    }
}

/// The 32-bit number at `i`, in the byte order that a TIFF header names.
pub open spec fn tiff_u32(data: Seq<u8>, i: int, little: bool) -> int {
    if little {
        tiff_u16(data, i, true) + 65536 * tiff_u16(data, i + 2, true)
    } else {
        65536 * tiff_u16(data, i, false) + tiff_u16(data, i + 2, false)
    }
}

/// The byte order of a TIFF file: `Some(true)` for "II*\0", `Some(false)`
/// for "MM\0*", `None` for data that is not TIFF.
pub open spec fn tiff_order(data: Seq<u8>) -> Option<bool> {
    if data.len() >= 4 && data[0] == 0x49 && data[1] == 0x49 && data[2] == 0x2A && data[3] == 0 {
        Some(true)
    } else if data.len() >= 4 && data[0] == 0x4D && data[1] == 0x4D && data[2] == 0 && data[3]
        == 0x2A {
        Some(false)
    } else {
        None
    }
}

/// Where entry `i` of a TIFF file's first directory begins: the directory's
/// offset is the 32-bit number at 4, its entry count takes 2 bytes, and each
/// entry 12.
pub open spec fn tiff_entry_start(data: Seq<u8>, little: bool, i: int) -> int {
    tiff_u32(data, 4, little) + 2 + 12 * i
}

/// Entry `i` of the first directory lies wholly in the data, is the image
/// width (tag 0x100) or height (tag 0x101), and has a value count other
/// than 1.
pub open spec fn tiff_size_entry_not_single(data: Seq<u8>, little: bool, i: int) -> bool {
    let e = tiff_entry_start(data, little, i);
    &&& e + 12 <= data.len()
    &&& (tiff_u16(data, e, little) == 0x100 || tiff_u16(data, e, little) == 0x101)
    &&& tiff_u32(data, e + 4, little) != 1
}

/// A TIFF file at least 12 bytes long whose first directory holds a width
/// or height entry with a value count other than 1 (the TIFF format gives
/// each of them a single value).
pub open spec fn tiff_size_count_not_one(data: Seq<u8>) -> bool {
    match tiff_order(data) {
        Some(little) => {
            let ifd = tiff_u32(data, 4, little);
            &&& data.len() >= 12
            &&& ifd + 2 <= data.len()
            &&& exists|i: int|
                0 <= i < tiff_u16(data, ifd, little) && #[trigger] tiff_size_entry_not_single(
                    data,
                    little,
                    i,
                )
        },
        None => false,
    }
}

/// Data whose bytes 4 to 8 read "ftyp", the start of a HEIF file.
pub open spec fn ftyp_box(data: Seq<u8>) -> bool {
    data.len() >= 8 && data[4] == 0x66 && data[5] == 0x74 && data[6] == 0x79 && data[7] == 0x70
}

/// The images whose size this library does not read, because
/// `imagesize::blob_size` may stop on them with a failed debug assertion
/// (a TIFF width or height entry whose count is not 1) or an overflow of
/// the area product on targets whose `usize` has 32 bits (HEIF).
pub open spec fn image_size_refused(data: Seq<u8>) -> bool {
    tiff_size_count_not_one(data) || (usize::BITS != 64 && ftyp_box(data))
}

/// The 16-bit number at `i` in the given byte order.
fn read_u16_at(data: &Vec<u8>, i: usize, little: bool) -> (r: u32)
    requires
        i + 2 <= data.len(),
    ensures
        r == tiff_u16(data@, i as int, little),
        r <= 65535,
{
    let a = data[i] as u32;
    let b = data[i + 1] as u32;
    if little {
        a + 256 * b
    } else {
        256 * a + b
    }
}

/// The 32-bit number at `i` in the given byte order.
fn read_u32_at(data: &Vec<u8>, i: usize, little: bool) -> (r: u64)
    requires
        i + 4 <= data.len(),
    ensures
        r == tiff_u32(data@, i as int, little),
        r <= 0xFFFF_FFFF,
{
    let lo = read_u16_at(data, i, little) as u64;
    let hi = read_u16_at(data, i + 2, little) as u64;
    if little {
        lo + 65536 * hi
    } else {
        65536 * lo + hi
    }
}

/// Whether the data is a TIFF file with a width or height entry whose
/// count is not 1.
fn has_tiff_size_count_not_one(data: &Vec<u8>) -> (r: bool)
    ensures
        r == tiff_size_count_not_one(data@),
{
    let n = data.len();
    if n < 12 {
        return false;
    }
    let little: bool;
    if data[0] == 0x49 && data[1] == 0x49 && data[2] == 0x2A && data[3] == 0 {
        little = true;
    } else if data[0] == 0x4D && data[1] == 0x4D && data[2] == 0 && data[3] == 0x2A {
        little = false;
    } else {
        return false;
    }
    assert(tiff_order(data@) == Some(little));
    let ifd = read_u32_at(data, 4, little);
    if ifd + 2 > n as u64 {
        return false;
    }
    let count = read_u16_at(data, ifd as usize, little);
    let mut i: u32 = 0;
    while i < count
        invariant
            n == data@.len(),
            n >= 12,
            tiff_order(data@) == Some(little),
            ifd == tiff_u32(data@, 4, little),
            ifd <= 0xFFFF_FFFF,
            ifd + 2 <= n,
            count == tiff_u16(data@, ifd as int, little),
            count <= 65535,
            i <= count,
            forall|k: int| 0 <= k < i ==> !#[trigger] tiff_size_entry_not_single(data@, little, k),
        decreases count - i,
    {
        let e: u64 = ifd + 2 + 12 * (i as u64);
        if e + 12 <= n as u64 {
            let tag = read_u16_at(data, e as usize, little);
            let cnt = read_u32_at(data, (e + 4) as usize, little);
            if (tag == 0x100 || tag == 0x101) && cnt != 1 {
                assert(e == tiff_entry_start(data@, little, i as int));
                assert(tiff_size_entry_not_single(data@, little, i as int));
                assert(0 <= i < tiff_u16(data@, tiff_u32(data@, 4, little), little));
                return true;
            }
        }
        assert(!tiff_size_entry_not_single(data@, little, i as int));
        i = i + 1;
    }
    false
}

/// Whether this library refuses to read the size of the image in `data`
/// (see `image_size_refused`).
pub fn is_size_refused(data: &Vec<u8>) -> (r: bool)
    ensures
        r == image_size_refused(data@),
{
    let n = data.len();
    let ftyp = n >= 8 && data[4] == 0x66 && data[5] == 0x74 && data[6] == 0x79 && data[7] == 0x70;
    if usize::BITS != 64 && ftyp {
        return true;
    }
    has_tiff_size_count_not_one(data)
}

/// `imagesize::blob_size`: the image's width and height, or `None` on an
/// `ImageError`. Claimed: the result is `image_dimensions` of the bytes, a
/// function of them alone. The data on which the crate may panic (see
/// `image_size_refused`) is left out.
#[verifier::external_body]
fn blob_dimensions(data: &[u8]) -> (r: Option<(usize, usize)>)
    requires
        !image_size_refused(data@),
    ensures
        r == image_dimensions(data@),
{
    match imagesize::blob_size(data) {
        Ok(size) => Some((size.width, size.height)),
        Err(_) => None,
    }
}

/// The size of an imported image; the internal failure "Failed to get
/// image size." where it cannot be read. Images whose size is refused (see
/// `image_size_refused`) are left out.
pub fn import_image_size(data: &Vec<u8>) -> (r: Result<(usize, usize), ApiError>)
    requires
        !image_size_refused(data@),
    ensures
        image_dimensions(data@) matches Some(d) ==> r == Ok::<(usize, usize), ApiError>(d),
        image_dimensions(data@) is None ==> (r matches Err(e) && e.code == INTERNAL_SERVER_ERROR
            && e.message@ == "Failed to get image size."@),
{
    match blob_dimensions(data.as_slice()) {
        Some(d) => Ok(d),
        None => Err(ApiError::new(INTERNAL_SERVER_ERROR, "Failed to get image size.")),
    }
}

/// Whether an import may go ahead: there is at least one file, and every
/// file's MIME type begins with "image".
pub open spec fn import_refusal(mime_types: Seq<Seq<char>>) -> Option<Seq<char>> {
    if mime_types.len() == 0 {
        Some("Received nothing to upload."@)
    } else if exists|i: int| 0 <= i < mime_types.len() && !is_prefix("image"@, mime_types[i]) {
        Some("Files must be images."@)
    } else {
        None
    }
}

/// Checks the MIME types of the files of an import.
pub fn check_import(mime_types: &Vec<String>) -> (r: Result<(), ApiError>)
    ensures
        r is Ok <==> import_refusal(mime_types@.map_values(|s: String| s@)) is None,
        r matches Err(e) ==> e.code == BAD_REQUEST && Some(e.message@) == import_refusal(
            mime_types@.map_values(|s: String| s@),
        ),
{
    let ghost types = mime_types@.map_values(|s: String| s@);
    if mime_types.len() == 0 {
        return Err(ApiError::new(BAD_REQUEST, "Received nothing to upload."));
    }
    let image = image_top_level_type();
    let n = mime_types.len();
    let mut i: usize = 0;
    while i < n
        invariant
            n == mime_types@.len(),
            types == mime_types@.map_values(|s: String| s@),
            image@ == "image"@,
            i <= n,
            forall|j: int| 0 <= j < i ==> is_prefix("image"@, #[trigger] types[j]),
        decreases n - i,
    {
        if !starts_with(mime_types[i].as_str(), image.as_str()) {
            assert(!is_prefix("image"@, types[i as int]));
            return Err(ApiError::new(BAD_REQUEST, "Files must be images."));
        }
        i = i + 1;
    }
    Ok(())
}

/// The file formats in which providers deliver images.
#[derive(Debug)]
pub enum ImageFormat {
    Png,
    Jpeg,
    Webp,
}

/// The MIME type of a format.
pub open spec fn format_mime(f: ImageFormat) -> Seq<char> {
    match f {
        ImageFormat::Png => "image/png"@,
        ImageFormat::Jpeg => "image/jpeg"@,
        ImageFormat::Webp => "image/webp"@,
    }
}

/// The file for generated image bytes: a fresh id used as its field and
/// file name too, the format's MIME type, and the bytes.
pub fn generated_file(data: Vec<u8>, format: ImageFormat) -> (r: FileProperties)
    ensures
        r.id@.len() == 36,
        r.field_name@ == r.id@,
        r.file_name@ == r.id@,
        r.mime_type@ == format_mime(format),
        r.data@ == data@,
{
    let id = new_file_id();
    let mime_type = match format {
        ImageFormat::Png => png_mime_type(),
        ImageFormat::Jpeg => jpeg_mime_type(),
        ImageFormat::Webp => String::from_str("image/webp"),
    };
    FileProperties { id: id.clone(), field_name: id.clone(), file_name: id, mime_type, data }
}

/// The file for a generated image delivered as base64; the internal
/// failure "Could not decode image." where it is not valid base64.
pub fn decoded_file(encoded: &str, format: ImageFormat) -> (r: Result<FileProperties, ApiError>)
    requires
        encode_utf8(encoded@).len() <= usize::MAX / 2,
    ensures
        base64_decoded(encode_utf8(encoded@)) is Some <==> r is Ok,
        r matches Ok(f) ==> Some(f.data@) == base64_decoded(encode_utf8(encoded@)) && f.mime_type@
            == format_mime(format) && f.id@.len() == 36,
        r matches Err(e) ==> e.code == INTERNAL_SERVER_ERROR && e.message@
            == "Could not decode image."@,
{
    match decode_base64(encoded) {
        Some(bytes) => Ok(generated_file(bytes, format)),
        None => Err(ApiError::new(INTERNAL_SERVER_ERROR, "Could not decode image.")),
    }
}

/// The folder of a user's media.
pub open spec fn media_folder(user_id: Seq<char>) -> Seq<char> {
    "media/"@ + user_id
}

/// The folder of a user's media.
pub fn media_sub_folder(user_id: &str) -> (r: Option<String>)
    ensures
        r matches Some(f) && f@ == media_folder(user_id@),
{
    let mut folder = String::from_str("media/");
    folder.append(user_id);
    Some(folder)
}

} // verus!

verus! {

/// An import goes ahead only when it has at least one file and every one of
/// its files, the first included, has a MIME type that begins with "image";
/// otherwise it is refused.
pub proof fn lemma_import_only_images(mime_types: Seq<Seq<char>>)
    ensures
        import_refusal(mime_types) is None <==> (mime_types.len() > 0 && forall|i: int|
            0 <= i < mime_types.len() ==> #[trigger] is_prefix("image"@, mime_types[i])),
        mime_types.len() > 0 && !is_prefix("image"@, mime_types[0]) ==> import_refusal(mime_types)
            == Some("Files must be images."@),
{
}

} // verus!
