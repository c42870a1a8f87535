//! Items shared by the clients of both API versions.

use vstd::prelude::*;

pub mod http;
pub mod query;
pub mod secret;

verus! {

/// A length or a coordinate inside an image, in pixels.
pub type PixelCount = u32;

} // verus!
