//! The data that the Analyze Image API 3.2 sends and takes, as far as it is
//! made of integers, flags and texts.

use crate::common::query::QueryName;
use crate::common::PixelCount;
use vstd::prelude::*;

verus! {

/// A bounding box for an area inside an image.
#[derive(Debug)]
pub struct BoundingRect {
    /// Height of the area, in pixels.
    pub h: PixelCount,
    /// Width of the area, in pixels.
    pub w: PixelCount,
    /// X-coordinate of the top left point of the area, in pixels.
    pub x: PixelCount,
    /// Y-coordinate of the top left point of the area, in pixels.
    pub y: PixelCount,
}

/// The colour attributes of an image.
#[derive(Debug)]
pub struct ColorInfo {
    /// Possible accent colour.
    pub accent_color: String,
    /// Possible dominant background colour.
    pub dominant_color_background: String,
    /// Possible dominant foreground colour.
    pub dominant_color_foreground: String,
    /// The possible dominant colours.
    pub dominant_colors: Vec<String>,
    /// Whether the image is black and white.
    pub is_bw_img: bool,
}

/// The error of an API request.
#[derive(Debug)]
pub struct ComputerVisionError {
    /// The error code.
    pub code: ComputerVisionErrorCodes,
    /// More specific information.
    pub innererror: ComputerVisionInnerError,
    /// A message explaining the error reported by the service.
    pub message: String,
}

/// The error code of an API request.
#[derive(Debug)]
pub enum ComputerVisionErrorCodes {
    InternalServerError,
    InvalidArgument,
    InvalidRequest,
    ServiceUnavailable,
}

impl ComputerVisionErrorCodes {
    /// The code in words.
    pub open spec fn text_spec(&self) -> Seq<char> {
        match self {
            Self::InternalServerError => "Internal Server Error"@,
            Self::InvalidArgument => "Invalid Argument"@,
            Self::InvalidRequest => "Invalid Request"@,
            Self::ServiceUnavailable => "Service Unavailable"@,
        }
    }

    /// The code in words, as it is shown to a reader.
    pub fn to_string(&self) -> (r: String)
        ensures
            r@ == self.text_spec(),
    {
        let s = match self {
            Self::InternalServerError => "Internal Server Error",
            Self::InvalidArgument => "Invalid Argument",
            Self::InvalidRequest => "Invalid Request",
            Self::ServiceUnavailable => "Service Unavailable",
        };
        s.to_owned()
    }
}

/// The error response of the API.
#[derive(Debug)]
pub struct ComputerVisionErrorResponse {
    /// Error contents.
    pub error: ComputerVisionError,
}

/// Details about the error of an API request.
#[derive(Debug)]
pub struct ComputerVisionInnerError {
    /// The error code.
    pub code: ComputerVisionInnerErrorCodeValue,
    /// Error message.
    pub message: String,
}

/// The detailed error code of an API request.
#[derive(Debug, PartialEq)]
pub enum ComputerVisionInnerErrorCodeValue {
    BadArgument,
    CancelledRequest,
    DetectFaceError,
    FailedToProcess,
    InternalServerError,
    InvalidDetails,
    InvalidImageFormat,
    InvalidImageSize,
    InvalidImageUrl,
    InvalidModel,
    InvalidThumbnailSize,
    /// The service spells this code `UnsupportedFeature`.
    NotSupportedFeature,
    NotSupportedImage,
    NotSupportedLanguage,
    NotSupportedVisualFeature,
    StorageException,
    Timeout,
    Unspecified,
    UnsupportedMediaType,
}

/// A domain model to leave out when the description is generated.
#[derive(Debug)]
pub enum DescriptionExclude {
    Celebrities,
    Landmarks,
}

impl QueryName for DescriptionExclude {
    open spec fn query_name_spec(&self) -> Seq<char> {
        match self {
            Self::Celebrities => "Celebrities"@,
            Self::Landmarks => "Landmarks"@,
        }
    }

    fn query_name(&self) -> (r: &'static str) {
        match self {
            Self::Celebrities => "Celebrities",
            Self::Landmarks => "Landmarks",
        }
    }
}

/// A kind of domain-specific detail to return.
///
/// - `Celebrities`: identifies celebrities if detected in the image.
/// - `Landmarks`: identifies notable landmarks in the image.
#[derive(Debug)]
pub enum Details {
    Celebrities,
    Landmarks,
}

impl QueryName for Details {
    open spec fn query_name_spec(&self) -> Seq<char> {
        match self {
            Self::Celebrities => "Celebrities"@,
            Self::Landmarks => "Landmarks"@,
        }
    }

    fn query_name(&self) -> (r: &'static str) {
        match self {
            Self::Celebrities => "Celebrities",
            Self::Landmarks => "Landmarks",
        }
    }
}

/// A face identified in the image.
#[derive(Debug)]
pub struct FaceDescription {
    /// Possible age of the face.
    pub age: Option<u32>,
    /// Rectangle in the image containing the identified face.
    pub face_rectangle: FaceRectangle,
    /// Possible gender of the face.
    pub gender: Option<Gender>,
}

/// The rectangle of a face.
#[derive(Debug)]
pub struct FaceRectangle {
    /// Height of the face, in pixels.
    pub height: PixelCount,
    /// X-coordinate of the top left point of the face, in pixels.
    pub left: PixelCount,
    /// Y-coordinate of the top left point of the face, in pixels.
    pub top: PixelCount,
    /// Width of the face, in pixels.
    pub width: PixelCount,
}

/// Possible gender of a face.
#[derive(Debug)]
pub enum Gender {
    Female,
    Male,
}

/// Image metadata.
#[derive(Debug)]
pub struct ImageMetadata {
    /// Image format.
    pub format: String,
    /// Image height, in pixels.
    pub height: PixelCount,
    /// Image width, in pixels.
    pub width: PixelCount,
}

/// The possible image types and the confidence in each.
#[derive(Debug)]
pub struct ImageType {
    /// Confidence that the image is a clip art: `0` none, `1` ambiguous,
    /// `2` normal, `3` good.
    pub clipart_type: u8,
    /// Confidence that the image is a line drawing: `0` none, or `1`.
    pub line_drawing_type: u8,
}

/// The body of a request that names the image by its address.
#[derive(Debug)]
pub struct ImageUrl {
    /// Publicly reachable URL of an image.
    pub url: String,
}

/// A kind of visual feature to return.
///
/// - `Categories`: categorizes image content according to a taxonomy.
/// - `Tags`: tags the image with words related to its content.
/// - `Description`: describes the image content with a complete sentence.
/// - `Faces`: detects faces, with coordinates, gender and age.
/// - `ImageType`: detects if the image is clip art or a line drawing.
/// - `Color`: determines the accent colour, the dominant colour, and whether
///   the image is black and white.
/// - `Adult`: detects adult, racy and gory content.
/// - `Objects`: detects objects and their approximate location.
/// - `Brands`: detects brands and their approximate location.
#[derive(Debug)]
pub enum VisualFeatureTypes {
    Adult,
    Brands,
    Categories,
    Color,
    Description,
    Faces,
    ImageType,
    Objects,
    Tags,
}

impl QueryName for VisualFeatureTypes {
    open spec fn query_name_spec(&self) -> Seq<char> {
        match self {
            Self::Adult => "Adult"@,
            Self::Brands => "Brands"@,
            Self::Categories => "Categories"@,
            Self::Color => "Color"@,
            Self::Description => "Description"@,
            Self::Faces => "Faces"@,
            Self::ImageType => "ImageType"@,
            Self::Objects => "Objects"@,
            Self::Tags => "Tags"@,
        }
    }

    fn query_name(&self) -> (r: &'static str) {
        match self {
            Self::Adult => "Adult",
            Self::Brands => "Brands",
            Self::Categories => "Categories",
            Self::Color => "Color",
            Self::Description => "Description",
            Self::Faces => "Faces",
            Self::ImageType => "ImageType",
            Self::Objects => "Objects",
            Self::Tags => "Tags",
        }
    }
}

} // verus!
