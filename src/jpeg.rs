//! The one outside capability: turning a JPEG byte stream into RGB triples.
use vstd::prelude::*;

verus! {

/// What the JPEG decoder makes of a byte stream: the decoded samples, the width
/// and the height, or `None` when the stream is not one it can decode.
pub uninterp spec fn jpeg_decoded(bytes: Seq<u8>) -> Option<(Seq<u8>, u16, u16)>;

/// The stream opens with the start-of-image marker `FF D8`.
pub open spec fn starts_with_soi(bytes: Seq<u8>) -> bool {
    bytes.len() >= 2 && bytes[0] == 0xFF && bytes[1] == 0xD8
}

/// Relies on `jpeg_decoder::Decoder`: `new` over the bytes, then `decode` for the
/// samples and `info` for the dimensions. Built with the crate's
/// `platform_independent` feature, which keeps its SIMD paths out, the result
/// depends on the bytes alone, the same on every machine and target. `decode`
/// reads the two-byte SOI marker first and fails without it, and it refuses the
/// component counts for which `info` would panic.
#[verifier::external_body]
pub(crate) fn decode_jpeg(bytes: &[u8]) -> (r: Option<(Vec<u8>, u16, u16)>)
    ensures
        r is None ==> jpeg_decoded(bytes@) is None,
        r matches Some((px, w, h)) ==> jpeg_decoded(bytes@) == Some((px@, w, h)),
        !starts_with_soi(bytes@) ==> r is None,
{
    let mut decoder = jpeg_decoder::Decoder::new(bytes);
    let pixels = decoder.decode().ok()?;
    let info = decoder.info()?;
    Some((pixels, info.width, info.height))
}

} // verus!
