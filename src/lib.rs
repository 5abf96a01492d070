//! Buffers that a host shares with a sandboxed JPEG decoder: an input region the
//! host fills with encoded bytes, and an output region that receives the decoded
//! image as opaque RGBA quads.
use vstd::prelude::*;

pub mod decoder;
pub mod input;
pub mod jpeg;
