//! A client for the Analyze Image API, version 3.2, and the data it works on.

mod api;
pub mod client;

pub use api::{
    BoundingRect, ColorInfo, ComputerVisionError, ComputerVisionErrorCodes,
    ComputerVisionErrorResponse, ComputerVisionInnerError, ComputerVisionInnerErrorCodeValue,
    DescriptionExclude, Details, FaceDescription, FaceRectangle, Gender, ImageMetadata, ImageType,
    ImageUrl, VisualFeatureTypes,
};
