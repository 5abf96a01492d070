//! The output region and the decode-and-repack step that fills it.
use vstd::prelude::*;

use crate::jpeg::{decode_jpeg, jpeg_decoded, starts_with_soi};

verus! {

/// Bytes per output pixel: red, green, blue and alpha.
pub const RGBA_BYTES: usize = 4;

/// The alpha byte written for every pixel: fully opaque.
pub const OPAQUE: u8 = 0xFF;

/// The RGBA quads for a run of RGB triples: each triple followed by an opaque
/// alpha byte, in pixel order.
pub open spec fn rgba_of(rgb: Seq<u8>) -> Seq<u8> {
    Seq::new(
        (rgb.len() / 3 * 4) as nat,
        |k: int| if k % 4 == 3 { OPAQUE } else { rgb[(k / 4) * 3 + k % 4] },
    )
}

/// `out` with its leading bytes replaced by the quads of `rgb`; the rest of `out`
/// is left as it was.
pub open spec fn repacked(out: Seq<u8>, rgb: Seq<u8>) -> Seq<u8> {
    Seq::new(
        out.len(),
        |k: int| if k < rgb.len() / 3 * 4 { rgba_of(rgb)[k] } else { out[k] },
    )
}

/// Decoded samples fit an output region of `capacity` bytes: a nonempty image
/// with exactly one triple per pixel, and room for one quad per pixel.
pub open spec fn rgb_fits(rgb: Seq<u8>, width: u16, height: u16, capacity: nat) -> bool {
    &&& width > 0
    &&& height > 0
    &&& rgb.len() == 3 * (width * height)
    &&& 4 * (width * height) <= capacity
}

/// What a decoder shows a host: its output region and the reported dimensions.
pub struct DecoderView {
    pub output: Seq<u8>,
    pub width: u16,
    pub height: u16,
}

/// The state after handing decoded samples to a decoder in state `before`.
pub open spec fn stored(before: DecoderView, rgb: Seq<u8>, width: u16, height: u16) -> DecoderView {
    if rgb_fits(rgb, width, height, before.output.len()) {
        DecoderView { output: repacked(before.output, rgb), width, height }
    } else {
        DecoderView { output: before.output, width: 0, height: 0 }
    }
}

/// Decoding `input` succeeds on an output region of `capacity` bytes.
pub open spec fn decode_succeeds(input: Seq<u8>, capacity: nat) -> bool {
    match jpeg_decoded(input) {
        Some((rgb, w, h)) => rgb_fits(rgb, w, h, capacity),
        None => false,
    }
}

/// The `p`-th triple of a run of RGB samples.
pub open spec fn triple(rgb: Seq<u8>, p: int) -> (u8, u8, u8) {
    (rgb[3 * p], rgb[3 * p + 1], rgb[3 * p + 2])
}

/// The `p`-th quad of an RGBA region.
pub open spec fn quad(out: Seq<u8>, p: int) -> (u8, u8, u8, u8) {
    (out[4 * p], out[4 * p + 1], out[4 * p + 2], out[4 * p + 3])
}

/// The state after decoding `input` in state `before`.
pub open spec fn decoded(before: DecoderView, input: Seq<u8>) -> DecoderView {
    match jpeg_decoded(input) {
        Some((rgb, w, h)) => stored(before, rgb, w, h),
        None => DecoderView { output: before.output, width: 0, height: 0 },
    }
}

/// Writes the quads of `rgb` over the leading bytes of `out`.
pub fn repack_rgb_to_rgba(out: &mut Vec<u8>, rgb: &[u8])
    requires
        rgb@.len() % 3 == 0,
        rgb@.len() / 3 * 4 <= old(out)@.len(),
    ensures
        final(out)@ == repacked(old(out)@, rgb@),
{
    let n: usize = rgb.len();
    let len: usize = out.len();
    let ghost pixels: int = n as int / 3;
    let mut i: usize = 0;
    let mut j: usize = 0;
    let ghost p: int = 0;
    while i < n
        invariant
            n == rgb@.len(),
            n == 3 * pixels,
            4 * pixels <= out@.len(),
            0 <= p <= pixels,
            i == 3 * p,
            j == 4 * p,
            out@.len() == old(out)@.len(),
            out@.len() == len,
            forall|k: int|
                0 <= k < out@.len() ==> #[trigger] out@[k] == if k < j {
                    rgba_of(rgb@)[k]
                } else {
                    old(out)@[k]
                },
        decreases n - i,
    {
        out.set(j, rgb[i]);
        out.set(j + 1, rgb[i + 1]);
        out.set(j + 2, rgb[i + 2]);
        out.set(j + 3, OPAQUE);
        proof {
            assert forall|k: int| j <= k < j + 4 implies #[trigger] rgba_of(rgb@)[k] == out@[k] by {
                assert(k / 4 == p);
                assert(k % 4 == k - j);
            }
            p = p + 1;
        }
        i = i + 3;
        j = j + 4;
    }
    proof {
        assert(out@ =~= repacked(old(out)@, rgb@));
    }
}

/// Holds the output region, sized once for an expected image, and the
/// dimensions of the last decode.
pub struct JpegDecoder {
    rgba_out: Vec<u8>,
    width: u16,
    height: u16,
}

impl View for JpegDecoder {
    type V = DecoderView;

    closed spec fn view(&self) -> DecoderView {
        DecoderView { output: self.rgba_out@, width: self.width, height: self.height }
    }
}

impl JpegDecoder {
    /// A decoder whose zero-filled output region holds `width * height` quads,
    /// with no image decoded yet.
    pub fn new(width: usize, height: usize) -> (r: JpegDecoder)
        requires
            width * height * RGBA_BYTES <= usize::MAX,
        ensures
            r@.output == Seq::new((width * height * 4) as nat, |i: int| 0u8),
            r@.width == 0,
            r@.height == 0,
    {
        let size: usize = width * height * RGBA_BYTES;
        let rgba_out: Vec<u8> = vec![0u8; size];
        proof {
            assert(rgba_out@ =~= Seq::new((width * height * 4) as nat, |i: int| 0u8));
        }
        JpegDecoder { rgba_out, width: 0, height: 0 }
    }

    /// The output region, read by the host after a successful decode.
    pub fn output_ptr(&self) -> (region: &[u8])
        ensures
            region@ == self@.output,
    {
        self.rgba_out.as_slice()
    }

    /// The width of the last decoded image; 0 before any decode and after a
    /// failed one.
    pub fn width(&self) -> (r: u16)
        ensures
            r == self@.width,
    {
        self.width
    }

    /// The height of the last decoded image; 0 before any decode and after a
    /// failed one.
    pub fn height(&self) -> (r: u16)
        ensures
            r == self@.height,
    {
        self.height
    }

    /// Takes decoded samples and their dimensions: where they fit the output
    /// region, writes them as quads and reports the dimensions; otherwise leaves
    /// the region as it is and reports no image.
    pub fn store_rgb(&mut self, rgb: &[u8], width: u16, height: u16) -> (ok: bool)
        ensures
            ok == rgb_fits(rgb@, width, height, old(self)@.output.len()),
            final(self)@ == stored(old(self)@, rgb@, width, height),
    {
        self.width = 0;
        self.height = 0;
        proof {
            assert(width * height <= 65535 * 65535) by (nonlinear_arith)
                requires width <= 65535, height <= 65535;
        }
        let pixels: u64 = width as u64 * height as u64;
        let fits: bool = width > 0 && height > 0
            && rgb.len() as u64 == 3 * pixels
            && 4 * pixels <= self.rgba_out.len() as u64;
        if !fits {
            return false;
        }
        repack_rgb_to_rgba(&mut self.rgba_out, rgb);
        self.width = width;
        self.height = height;
        true
    }

    /// Decodes the encoded stream `input` into the output region. On success the
    /// region starts with one opaque quad per pixel and the dimensions are those
    /// of the image; on failure the dimensions are 0 and the region is unchanged.
    pub fn decode(&mut self, input: &[u8]) -> (ok: bool)
        ensures
            ok == decode_succeeds(input@, old(self)@.output.len()),
            final(self)@ == decoded(old(self)@, input@),
            !starts_with_soi(input@) ==> !ok,
            input@.len() == 0 ==> !ok,
    {
        self.width = 0;
        self.height = 0;
        match decode_jpeg(input) {
            Some((rgb, w, h)) => self.store_rgb(rgb.as_slice(), w, h),
            None => false,
        }
    }
}

/// After a successful decode of an image of N = width * height pixels, which
/// came as N triples, the first N quads of the output region are those triples
/// in order, each with an opaque alpha.
pub proof fn decoded_pixels_are_opaque_quads(before: DecoderView, input: Seq<u8>)
    requires
        decode_succeeds(input, before.output.len()),
    ensures
        ({
            let (rgb, w, h) = jpeg_decoded(input)->0;
            let out = decoded(before, input).output;
            &&& w > 0 && h > 0
            &&& rgb.len() == 3 * (w * h)
            &&& 4 * (w * h) <= out.len()
            &&& forall|p: int|
                0 <= p < w * h ==> {
                    let (r, g, b) = triple(rgb, p);
                    #[trigger] quad(out, p) == (r, g, b, OPAQUE)
                }
        }),
{
    let (rgb, w, h) = jpeg_decoded(input)->0;
    let out = decoded(before, input).output;
    assert forall|p: int| 0 <= p < w * h implies {
        let (r, g, b) = triple(rgb, p);
        #[trigger] quad(out, p) == (r, g, b, OPAQUE)
    } by {
        assert((4 * p) / 4 == p && (4 * p) % 4 == 0);
        assert((4 * p + 1) / 4 == p && (4 * p + 1) % 4 == 1);
        assert((4 * p + 2) / 4 == p && (4 * p + 2) % 4 == 2);
        assert((4 * p + 3) / 4 == p && (4 * p + 3) % 4 == 3);
    }
}

/// After a successful decode the reported dimensions are the image's own.
pub proof fn successful_decode_reports_dimensions(before: DecoderView, input: Seq<u8>)
    requires
        decode_succeeds(input, before.output.len()),
    ensures
        decoded(before, input).width == (jpeg_decoded(input)->0).1,
        decoded(before, input).height == (jpeg_decoded(input)->0).2,
{
}

/// After a failed decode both dimensions read 0.
pub proof fn failed_decode_reports_no_image(before: DecoderView, input: Seq<u8>)
    requires
        !decode_succeeds(input, before.output.len()),
    ensures
        decoded(before, input).width == 0,
        decoded(before, input).height == 0,
{
}

/// A stream the JPEG decoder rejects makes the decode fail, with both
/// dimensions 0 afterwards.
pub proof fn malformed_input_fails(before: DecoderView, input: Seq<u8>)
    requires
        jpeg_decoded(input) is None,
    ensures
        !decode_succeeds(input, before.output.len()),
        decoded(before, input).width == 0,
        decoded(before, input).height == 0,
{
}

/// Decoding the same stream twice leaves the decoder as decoding it once did.
pub proof fn decode_is_idempotent(before: DecoderView, input: Seq<u8>)
    ensures
        decoded(decoded(before, input), input) == decoded(before, input),
{
    let once = decoded(before, input);
    if let Some((rgb, w, h)) = jpeg_decoded(input) {
        if rgb_fits(rgb, w, h, before.output.len()) {
            assert(repacked(once.output, rgb) =~= once.output);
        }
    }
}

} // verus!
