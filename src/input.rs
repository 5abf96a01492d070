//! The region a host writes an encoded image into.
use vstd::prelude::*;

verus! {

/// A zero-filled byte buffer of fixed length, owned by the guest and filled by
/// the host.
pub struct JpegDecoderInput {
    jpeg_in: Vec<u8>,
}

impl View for JpegDecoderInput {
    type V = Seq<u8>;

    closed spec fn view(&self) -> Seq<u8> {
        self.jpeg_in@
    }
}

impl JpegDecoderInput {
    /// A buffer of `size` zero bytes.
    pub fn new(size: usize) -> (r: JpegDecoderInput)
        ensures
            r@ == Seq::new(size as nat, |i: int| 0u8),
    {
        let jpeg_in: Vec<u8> = vec![0u8; size];
        proof {
            assert(jpeg_in@ =~= Seq::new(size as nat, |i: int| 0u8));
        }
        JpegDecoderInput { jpeg_in }
    }

    /// The whole buffer as a writable region, where the host puts the encoded
    /// stream. Its length is the one given at construction.
    pub fn input_ptr(&mut self) -> (region: &mut [u8])
        ensures
            region@ == old(self)@,
            final(self)@ == final(region)@,
    {
        self.jpeg_in.as_mut_slice()
    }
}

} // verus!
