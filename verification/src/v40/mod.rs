//! A client for the Analyze Image API, version 4.0 (`2023-04-01-preview`),
//! and the data it works on.

mod api;
pub mod client;

pub use api::{
    BoundingBox, DocumentSpan, ErrorResponse, ErrorResponseDetails, ErrorResponseInnerError,
    ImageMetadataApiModel, ImageUrl, VisualFeature,
};
