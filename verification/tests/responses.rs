use az_analyze_image::common::http::{expected_body, subscription_headers, BodyKind};
use az_analyze_image::common::query::{join_names, render_query};
use az_analyze_image::common::secret::Secret;
use az_analyze_image::v32::client as v32_client;
use az_analyze_image::v32::{
    ComputerVisionError, ComputerVisionErrorCodes, ComputerVisionErrorResponse,
    ComputerVisionInnerError, ComputerVisionInnerErrorCodeValue, Details,
};
use az_analyze_image::v40::client as v40_client;
use az_analyze_image::v40::{ErrorResponse, ErrorResponseDetails, ErrorResponseInnerError};

#[test]
fn status_decides_the_shape_of_the_body() {
    assert_eq!(expected_body(200), BodyKind::Analysis);
    assert_eq!(expected_body(204), BodyKind::Analysis);
    assert_eq!(expected_body(299), BodyKind::Analysis);
    assert_eq!(expected_body(199), BodyKind::ErrorEnvelope);
    assert_eq!(expected_body(300), BodyKind::ErrorEnvelope);
    assert_eq!(expected_body(400), BodyKind::ErrorEnvelope);
    assert_eq!(expected_body(404), BodyKind::ErrorEnvelope);
    assert_eq!(expected_body(500), BodyKind::ErrorEnvelope);
    assert_eq!(expected_body(0), BodyKind::ErrorEnvelope);
    assert_eq!(expected_body(u16::MAX), BodyKind::ErrorEnvelope);
}

#[test]
fn v32_error_envelope_is_surfaced_as_api_error() {
    assert_eq!(expected_body(400), BodyKind::ErrorEnvelope);
    let envelope = ComputerVisionErrorResponse {
        error: ComputerVisionError {
            code: ComputerVisionErrorCodes::InvalidRequest,
            innererror: ComputerVisionInnerError {
                code: ComputerVisionInnerErrorCodeValue::InvalidImageSize,
                message: "Input image is too large.".to_string(),
            },
            message: "Input data is not a valid image.".to_string(),
        },
    };
    let decoded: v32_client::Decoded<u32> = v32_client::Decoded::ApiError(envelope);

    match v32_client::Client::handle_response(decoded) {
        Err(v32_client::Error::API(response)) => {
            assert!(matches!(
                response.error.code,
                ComputerVisionErrorCodes::InvalidRequest
            ));
            assert_eq!(response.error.message, "Input data is not a valid image.");
            assert_eq!(
                response.error.innererror.code,
                ComputerVisionInnerErrorCodeValue::InvalidImageSize
            );
            assert_eq!(
                response.error.innererror.message,
                "Input image is too large."
            );
        }
        other => panic!("Expected Error::API, but got other {:?}", other),
    }
}

#[test]
fn v32_decoded_result_is_handed_on() {
    let decoded: v32_client::Decoded<Vec<u8>> = v32_client::Decoded::Analysis(vec![1, 2, 3]);
    match v32_client::Client::handle_response(decoded) {
        Ok(analysis) => assert_eq!(analysis, vec![1, 2, 3]),
        Err(other) => panic!("Expected the result, but got {:?}", other),
    }
}

#[test]
fn v32_errors_are_made_from_their_causes() {
    let envelope = ComputerVisionErrorResponse {
        error: ComputerVisionError {
            code: ComputerVisionErrorCodes::ServiceUnavailable,
            innererror: ComputerVisionInnerError {
                code: ComputerVisionInnerErrorCodeValue::Timeout,
                message: String::new(),
            },
            message: "later".to_string(),
        },
    };
    assert!(matches!(
        v32_client::Error::from(envelope),
        v32_client::Error::API(_)
    ));

    let invalid = subscription_headers(&Secret::new("\n".into())).unwrap_err();
    let validation = v32_client::ValidationError::from(invalid);
    assert!(matches!(
        validation,
        v32_client::ValidationError::InvalidHeaderValue(_)
    ));
    assert!(matches!(
        v32_client::Error::from(validation),
        v32_client::Error::Validation(v32_client::ValidationError::InvalidHeaderValue(_))
    ));
}

#[test]
fn v32_error_codes_read_as_words() {
    assert_eq!(
        ComputerVisionErrorCodes::InternalServerError.to_string(),
        "Internal Server Error"
    );
    assert_eq!(
        ComputerVisionErrorCodes::InvalidArgument.to_string(),
        "Invalid Argument"
    );
    assert_eq!(
        ComputerVisionErrorCodes::InvalidRequest.to_string(),
        "Invalid Request"
    );
    assert_eq!(
        ComputerVisionErrorCodes::ServiceUnavailable.to_string(),
        "Service Unavailable"
    );
}

#[test]
fn v40_error_envelope_is_surfaced_as_api_error() {
    assert_eq!(expected_body(413), BodyKind::ErrorEnvelope);
    let envelope = ErrorResponse {
        error: ErrorResponseDetails {
            code: "InvalidRequest".to_string(),
            details: None,
            innererror: Some(ErrorResponseInnerError {
                code: "InvalidImageSize".to_string(),
                innererror: None,
                message: "The image is too large.".to_string(),
            }),
            message: "The image size is not allowed.".to_string(),
            target: None,
        },
    };
    let decoded: v40_client::Decoded<u32> = v40_client::Decoded::ApiError(envelope);

    match v40_client::Client::handle_response(decoded) {
        Err(v40_client::Error::API(response)) => {
            assert_eq!(response.error.code, "InvalidRequest");
            assert_eq!(response.error.message, "The image size is not allowed.");
            assert_eq!(
                response.error.innererror.unwrap().code,
                "InvalidImageSize"
            );
        }
        other => panic!("Expected Error::API, but got other {:?}", other),
    }
}

#[test]
fn v40_errors_are_made_from_their_causes() {
    let envelope = ErrorResponse {
        error: ErrorResponseDetails {
            code: "NotFound".to_string(),
            details: Some(Vec::new()),
            innererror: None,
            message: "no such model".to_string(),
            target: Some("model-name".to_string()),
        },
    };
    assert!(matches!(
        v40_client::Error::from(envelope),
        v40_client::Error::API(_)
    ));
    assert!(matches!(
        v40_client::Error::from(v40_client::ValidationError::NoFeaturesOrModelName),
        v40_client::Error::Validation(v40_client::ValidationError::NoFeaturesOrModelName)
    ));
    let invalid = subscription_headers(&Secret::new("a\nb".into())).unwrap_err();
    assert!(matches!(
        v40_client::ValidationError::from(invalid),
        v40_client::ValidationError::InvalidHeaderValue(_)
    ));
    let decoded: v40_client::Decoded<&str> = v40_client::Decoded::Analysis("result");
    assert!(matches!(
        v40_client::Client::handle_response(decoded),
        Ok("result")
    ));
}

#[test]
fn names_are_joined_in_their_order() {
    assert_eq!(join_names::<Details>(&[]), "");
    assert_eq!(join_names(&[Details::Landmarks]), "Landmarks");
    assert_eq!(
        join_names(&[Details::Landmarks, Details::Celebrities]),
        "Landmarks,Celebrities"
    );
    assert_eq!(
        join_names(&[Details::Celebrities, Details::Celebrities, Details::Landmarks]),
        "Celebrities,Celebrities,Landmarks"
    );
}

#[test]
fn parameters_are_rendered_in_their_order() {
    assert_eq!(render_query(&Vec::new()), "");
    assert_eq!(render_query(&vec![("a", "1".to_string())]), "a=1");
    assert_eq!(
        render_query(&vec![
            ("b", "2".to_string()),
            ("a", String::new()),
            ("c", "x,y".to_string()),
        ]),
        "b=2&a=&c=x,y"
    );
}

fn http_error() -> reqwest::Error {
    reqwest::Client::new()
        .get("not an address")
        .build()
        .unwrap_err()
}

#[test]
fn v32_failures_of_the_http_layer_are_handed_on() {
    let decoded: v32_client::Decoded<u32> = v32_client::Decoded::Failed(http_error());
    assert!(matches!(
        v32_client::Client::handle_response(decoded),
        Err(v32_client::Error::Reqwest(_))
    ));
    assert!(matches!(
        v32_client::Client::built_client(Err(http_error())),
        Err(v32_client::Error::Reqwest(_))
    ));
    assert!(v32_client::Client::built_client(Ok(reqwest::Client::new())).is_ok());
    assert!(matches!(
        v32_client::Error::from(http_error()),
        v32_client::Error::Reqwest(_)
    ));
}

#[test]
fn v40_failures_of_the_http_layer_are_handed_on() {
    let decoded: v40_client::Decoded<u32> = v40_client::Decoded::Failed(http_error());
    assert!(matches!(
        v40_client::Client::handle_response(decoded),
        Err(v40_client::Error::Reqwest(_))
    ));
    assert!(matches!(
        v40_client::Client::built_client(Err(http_error())),
        Err(v40_client::Error::Reqwest(_))
    ));
    assert!(v40_client::Client::built_client(Ok(reqwest::Client::new())).is_ok());
    assert!(matches!(
        v40_client::Error::from(http_error()),
        v40_client::Error::Reqwest(_)
    ));
}
