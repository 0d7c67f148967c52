//! Base64, as the `base64` crate computes it.
use vstd::prelude::*;
use vstd::utf8::encode_utf8;

verus! {

/// What `base64::decode` (standard alphabet, padded) gives for the bytes of
/// `text`; `None` where they are not valid base64.
pub uninterp spec fn base64_decoded(text: Seq<u8>) -> Option<Seq<u8>>;

/// What `base64::encode` (standard alphabet, padded) gives for `data`.
pub uninterp spec fn base64_encoded(data: Seq<u8>) -> Seq<char>;

/// `base64::decode` of the UTF-8 bytes of `text`: the decoded bytes, or
/// `None` where the crate reports a `DecodeError`. Claimed: the result is
/// `base64_decoded` of those bytes, a function of them alone. Lengths near
/// `usize::MAX`, on which the crate panics, are left out.
#[verifier::external_body]
pub(crate) fn decode_base64(text: &str) -> (r: Option<Vec<u8>>)
    requires
        encode_utf8(text@).len() <= usize::MAX / 2,
    ensures
        match r {
            Some(v) => base64_decoded(encode_utf8(text@)) == Some(v@),
            None => base64_decoded(encode_utf8(text@)) is None,
        },
{
    match base64::decode(text) {
        Ok(bytes) => Some(bytes),
        Err(_) => None,
    }
}

/// `base64::encode` of `data`. Claimed: the result is `base64_encoded` of
/// `data`, a function of it alone. Lengths near `usize::MAX`, on which the
/// crate panics, are left out.
#[verifier::external_body]
pub(crate) fn encode_base64(data: &[u8]) -> (r: String)
    requires
        data@.len() <= usize::MAX / 2,
    ensures
        r@ == base64_encoded(data@),
{
    base64::encode(data)
}

} // verus!
