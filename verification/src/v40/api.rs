//! The data that the Analyze Image API 4.0 sends and takes, as far as it is
//! made of integers, flags and texts.

use crate::common::query::QueryName;
use crate::common::PixelCount;
use vstd::prelude::*;

verus! {

/// A bounding box for an area inside an image.
#[derive(Debug)]
pub struct BoundingBox {
    /// Height of the area, in pixels.
    pub h: PixelCount,
    /// Width of the area, in pixels.
    pub w: PixelCount,
    /// Left-coordinate of the top left point of the area, in pixels.
    pub x: PixelCount,
    /// Top-coordinate of the top left point of the area, in pixels.
    pub y: PixelCount,
}

/// A stretch of the concatenated content, given by where it starts and how
/// long it is.
#[derive(Debug)]
pub struct DocumentSpan {
    /// Number of characters in the content represented by the span.
    pub length: usize,
    /// Zero-based index of the content represented by the span.
    pub offset: usize,
}

/// Response returned when an error occurs.
#[derive(Debug)]
pub struct ErrorResponse {
    /// Error info.
    pub error: ErrorResponseDetails,
}

/// Error info.
#[derive(Debug)]
pub struct ErrorResponseDetails {
    /// Error code.
    pub code: String,
    /// List of detailed errors.
    pub details: Option<Vec<ErrorResponseDetails>>,
    /// Detailed error.
    pub innererror: Option<ErrorResponseInnerError>,
    /// Error message.
    pub message: String,
    /// Target of the error.
    pub target: Option<String>,
}

/// Detailed error.
#[derive(Debug)]
pub struct ErrorResponseInnerError {
    /// Error code.
    pub code: String,
    /// Detailed error, where the service gives one more level.
    pub innererror: Option<Box<ErrorResponseInnerError>>,
    /// Error message.
    pub message: String,
}

/// The metadata of an image.
#[derive(Debug)]
pub struct ImageMetadataApiModel {
    /// The height of the image in pixels.
    pub height: PixelCount,
    /// The width of the image in pixels.
    pub width: PixelCount,
}

/// The body of a request that names the image by its address.
#[derive(Debug)]
pub struct ImageUrl {
    /// Publicly reachable URL of an image.
    pub url: String,
}

/// A visual feature to ask for: `tags`, `objects`, `caption`,
/// `denseCaptions`, `read`, `smartCrops` or `people`.
#[derive(Debug)]
pub enum VisualFeature {
    Caption,
    DenseCaptions,
    Objects,
    People,
    Read,
    SmartCrops,
    Tags,
}

impl Clone for VisualFeature {
    fn clone(&self) -> (r: Self)
        ensures
            r == *self,
    {
        match self {
            VisualFeature::Caption => VisualFeature::Caption,
            VisualFeature::DenseCaptions => VisualFeature::DenseCaptions,
            VisualFeature::Objects => VisualFeature::Objects,
            VisualFeature::People => VisualFeature::People,
            VisualFeature::Read => VisualFeature::Read,
            VisualFeature::SmartCrops => VisualFeature::SmartCrops,
            VisualFeature::Tags => VisualFeature::Tags,
        }
    }
}

impl QueryName for VisualFeature {
    open spec fn query_name_spec(&self) -> Seq<char> {
        match self {
            VisualFeature::Caption => "caption"@,
            VisualFeature::DenseCaptions => "denseCaptions"@,
            VisualFeature::Objects => "objects"@,
            VisualFeature::People => "people"@,
            VisualFeature::Read => "read"@,
            VisualFeature::SmartCrops => "smartCrops"@,
            VisualFeature::Tags => "tags"@,
        }
    }

    fn query_name(&self) -> (r: &'static str) {
        match self {
            VisualFeature::Caption => "caption",
            VisualFeature::DenseCaptions => "denseCaptions",
            VisualFeature::Objects => "objects",
            VisualFeature::People => "people",
            VisualFeature::Read => "read",
            VisualFeature::SmartCrops => "smartCrops",
            VisualFeature::Tags => "tags",
        }
    }
}

impl VisualFeature {
    /// The feature as the service spells it.
    pub fn to_string(&self) -> (r: String)
        ensures
            r@ == self.query_name_spec(),
    {
        self.query_name().to_owned()
    }
}

} // verus!
