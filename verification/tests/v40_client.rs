use az_analyze_image::common::secret::Secret;
use az_analyze_image::v40::client::{
    AnalyzeImageOptions, Client, Error, ImageInput, RequestBody, ValidationError,
    DEFAULT_API_VERSION, MAX_IMAGE_SIZE,
};
use az_analyze_image::v40::VisualFeature;

fn header_value_to_str(value: &reqwest::header::HeaderValue) -> &str {
    value.to_str().unwrap_or("")
}

#[test]
fn client_test_create_headers() {
    let key = Secret::new("dummy_key".into());
    let headers = Client::create_headers(&key).unwrap();

    assert_eq!(
        header_value_to_str(headers.get("Ocp-Apim-Subscription-Key").unwrap()),
        key.value()
    );

    assert_eq!(
        header_value_to_str(headers.get(reqwest::header::CONTENT_TYPE).unwrap()),
        "application/octet-stream"
    );
}

#[test]
fn client_test_create_headers_returns_error_invalid_header_value() {
    let result = Client::create_headers(&Secret::new("dummy\nkey".into()));

    assert!(matches!(
        result,
        Err(ValidationError::InvalidHeaderValue(_))
    ));
}

#[test]
fn client_test_create_http_client() {
    let result = Client::create_http_client(Secret::new("dummy_key".into()));

    assert!(result.is_ok());
}

#[test]
fn client_test_build_query_params_edge_case() {
    let options = AnalyzeImageOptions {
        features: Some(&[]),
        gender_neutral_caption: None,
        language: Some(""),
        model_name: Some(""),
        smartcrops_aspect_ratios: Some(""),
    };
    let query_params = Client::build_query_params(&options);

    assert_eq!(query_params.len(), 1);
}

#[test]
fn client_test_error_invalid_header_value() {
    let invalid_key = "mock\n_invalid_key";
    let endpoint = "mock_endpoint";

    let result = Client::new(invalid_key.into(), endpoint);

    match result {
        Ok(_) => panic!("Expected Error::InvalidHeaderValue, but got Ok"),
        Err(err) => match err {
            Error::Validation(ValidationError::InvalidHeaderValue(_)) => { /* Test passed */ }
            other => panic!("Expected Error::InvalidHeaderValue, but got {:?}", other),
        },
    }
}

#[test]
fn client_test_build_query_params_no_options() {
    let options = AnalyzeImageOptions::default();

    let query_params = Client::build_query_params(&options);

    assert_eq!(query_params.len(), 1);
    assert_eq!(
        query_params[0],
        ("api-version", DEFAULT_API_VERSION.to_string())
    );
}

#[test]
fn test_build_query_params_with_features() {
    let features = vec![VisualFeature::Tags, VisualFeature::Objects];
    let options = AnalyzeImageOptions {
        features: Some(&features),
        ..Default::default()
    };

    let query_params = Client::build_query_params(&options);

    assert!(query_params.contains(&("features", "tags,objects".to_string())));
}

#[test]
fn test_build_query_params_with_gender_neutral_caption() {
    let options = AnalyzeImageOptions {
        gender_neutral_caption: Some(true),
        ..Default::default()
    };

    let query_params = Client::build_query_params(&options);

    assert!(query_params.contains(&("gender-neutral-caption", "true".to_string())));
}

#[test]
fn client_test_build_query_params_with_language() {
    let options = AnalyzeImageOptions {
        language: Some("fr"),
        ..Default::default()
    };

    let query_params = Client::build_query_params(&options);

    assert!(query_params.contains(&("language", "fr".to_string())));
}

#[test]
fn test_build_query_params_with_smartcrops_aspect_ratios() {
    let options = AnalyzeImageOptions {
        smartcrops_aspect_ratios: Some("1.0,1.5"),
        ..Default::default()
    };

    let query_params = Client::build_query_params(&options);

    assert!(query_params.contains(&("smartcrops-aspect-ratios", "1.0,1.5".to_string())));
}

#[test]
fn client_test_build_query_params_all_options() {
    let features = vec![VisualFeature::Tags];

    let options = AnalyzeImageOptions {
        features: Some(&features),
        gender_neutral_caption: Some(false),
        language: Some("en"),
        model_name: Some("my-model"),
        smartcrops_aspect_ratios: Some("1.0"),
    };

    let query_params = Client::build_query_params(&options);

    assert!(query_params.contains(&("api-version", DEFAULT_API_VERSION.to_string())));
    assert!(query_params.contains(&("features", "tags".to_string())));
    assert!(query_params.contains(&("gender-neutral-caption", "false".to_string())));
    assert!(query_params.contains(&("language", "en".to_string())));
    assert!(query_params.contains(&("model-name", "my-model".to_string())));
    assert!(query_params.contains(&("smartcrops-aspect-ratios", "1.0".to_string())));
}

#[test]
fn v40_all_options_come_in_the_fixed_order() {
    let features = vec![VisualFeature::Caption, VisualFeature::SmartCrops];
    let options = AnalyzeImageOptions {
        features: Some(&features),
        gender_neutral_caption: Some(false),
        language: Some("en"),
        model_name: Some("my-model"),
        smartcrops_aspect_ratios: Some("1.0,1.5"),
    };

    assert_eq!(
        Client::build_query_params(&options),
        vec![
            ("api-version", "2023-04-01-preview".to_string()),
            ("features", "caption,smartCrops".to_string()),
            ("gender-neutral-caption", "false".to_string()),
            ("language", "en".to_string()),
            ("model-name", "my-model".to_string()),
            ("smartcrops-aspect-ratios", "1.0,1.5".to_string()),
        ]
    );
    assert_eq!(
        Client::query_string(&options),
        "api-version=2023-04-01-preview&features=caption,smartCrops\
         &gender-neutral-caption=false&language=en&model-name=my-model\
         &smartcrops-aspect-ratios=1.0,1.5"
    );
}

#[test]
fn v40_tags_and_objects_scenario() {
    let features = [VisualFeature::Tags, VisualFeature::Objects];
    let options = AnalyzeImageOptions {
        features: Some(&features),
        ..Default::default()
    };

    assert_eq!(
        Client::query_string(&options),
        "api-version=2023-04-01-preview&features=tags,objects"
    );
}

#[test]
fn v40_nothing_asked_sends_the_version_alone() {
    let expected = vec![("api-version", "2023-04-01-preview".to_string())];
    assert_eq!(
        Client::build_query_params(&AnalyzeImageOptions::default()),
        expected
    );
    let options = AnalyzeImageOptions {
        features: Some(&[]),
        gender_neutral_caption: None,
        language: Some(""),
        model_name: Some(""),
        smartcrops_aspect_ratios: Some(""),
    };
    assert_eq!(Client::build_query_params(&options), expected);
    assert_eq!(
        Client::query_string(&options),
        "api-version=2023-04-01-preview"
    );
}

#[test]
fn v40_flag_is_sent_whenever_it_is_given() {
    let yes = AnalyzeImageOptions {
        gender_neutral_caption: Some(true),
        ..Default::default()
    };
    let no = AnalyzeImageOptions {
        gender_neutral_caption: Some(false),
        ..Default::default()
    };
    assert_eq!(
        Client::query_string(&yes),
        "api-version=2023-04-01-preview&gender-neutral-caption=true"
    );
    assert_eq!(
        Client::query_string(&no),
        "api-version=2023-04-01-preview&gender-neutral-caption=false"
    );
}

#[test]
fn v40_every_feature_has_its_name() {
    let all = [
        VisualFeature::Caption,
        VisualFeature::DenseCaptions,
        VisualFeature::Objects,
        VisualFeature::People,
        VisualFeature::Read,
        VisualFeature::SmartCrops,
        VisualFeature::Tags,
    ];
    let options = AnalyzeImageOptions {
        features: Some(&all),
        ..Default::default()
    };
    assert_eq!(
        Client::build_query_params(&options)[1],
        (
            "features",
            "caption,denseCaptions,objects,people,read,smartCrops,tags".to_string()
        )
    );
    assert_eq!(VisualFeature::DenseCaptions.to_string(), "denseCaptions");
    assert_eq!(VisualFeature::Tags.clone().to_string(), "tags");
}

#[test]
fn v40_a_field_changes_its_own_parameter_only() {
    let features = [VisualFeature::People];
    let first = AnalyzeImageOptions {
        features: Some(&features),
        language: Some("en"),
        model_name: Some("a"),
        ..Default::default()
    };
    let second = AnalyzeImageOptions {
        features: Some(&features),
        language: Some("de"),
        model_name: Some("a"),
        ..Default::default()
    };
    let a = Client::build_query_params(&first);
    let b = Client::build_query_params(&second);

    assert_eq!(a.iter().filter(|p| p.0 == "language").count(), 1);
    assert_eq!(b.iter().filter(|p| p.0 == "language").count(), 1);
    assert_eq!(a.iter().filter(|p| p.0 == "api-version").count(), 1);
    assert_eq!(b[2], ("language", "de".to_string()));
    let rest_a: Vec<_> = a.iter().filter(|p| p.0 != "language").collect();
    let rest_b: Vec<_> = b.iter().filter(|p| p.0 != "language").collect();
    assert_eq!(rest_a, rest_b);
    assert_eq!(rest_a.len(), 3);
}

#[test]
fn v40_building_twice_gives_the_same_query() {
    let features = vec![VisualFeature::Read, VisualFeature::Tags];
    let copy = features.clone();
    let options = AnalyzeImageOptions {
        features: Some(&features),
        gender_neutral_caption: Some(true),
        ..Default::default()
    };
    let same_values = AnalyzeImageOptions {
        features: Some(&copy),
        gender_neutral_caption: Some(true),
        ..Default::default()
    };
    assert_eq!(
        Client::build_query_params(&options),
        Client::build_query_params(&options)
    );
    assert_eq!(Client::query_string(&options), Client::query_string(&options));
    assert_eq!(
        Client::query_string(&options),
        Client::query_string(&same_values)
    );
}

#[test]
fn v40_validation_wants_features_or_a_model() {
    let client = Client::new("dummy_key".into(), "https://example.test/").unwrap();
    let features = [VisualFeature::People];

    let neither = AnalyzeImageOptions {
        language: Some("en"),
        gender_neutral_caption: Some(true),
        smartcrops_aspect_ratios: Some("1.0"),
        ..Default::default()
    };
    assert!(matches!(
        client.validate_parameters(&neither),
        Err(ValidationError::NoFeaturesOrModelName)
    ));
    assert!(matches!(
        client.validate_parameters(&AnalyzeImageOptions::default()),
        Err(ValidationError::NoFeaturesOrModelName)
    ));

    let only_features = AnalyzeImageOptions {
        features: Some(&features),
        ..Default::default()
    };
    assert!(client.validate_parameters(&only_features).is_ok());

    let only_model = AnalyzeImageOptions {
        model_name: Some("my-model"),
        ..Default::default()
    };
    assert!(client.validate_parameters(&only_model).is_ok());

    let both = AnalyzeImageOptions {
        features: Some(&features),
        model_name: Some("my-model"),
        ..Default::default()
    };
    assert!(client.validate_parameters(&both).is_ok());

    let empty_but_present = AnalyzeImageOptions {
        features: Some(&[]),
        ..Default::default()
    };
    assert!(client.validate_parameters(&empty_but_present).is_ok());
}

#[test]
fn v40_request_is_refused_before_anything_is_built() {
    let client = Client::new("dummy_key".into(), "https://example.test/").unwrap();
    let image = [1u8, 2, 3];
    let result = client.request(ImageInput::Data(&image), &AnalyzeImageOptions::default());
    match result {
        Err(Error::Validation(ValidationError::NoFeaturesOrModelName)) => {}
        other => panic!("Expected NoFeaturesOrModelName, but got other {:?}", other),
    }
}

#[test]
fn v40_request_holds_address_query_and_body() {
    let client = Client::new("dummy_key".into(), "https://example.test/").unwrap();
    assert_eq!(
        client.url(),
        "https://example.test/computervision/imageanalysis:analyze"
    );
    let features = [VisualFeature::People];
    let options = AnalyzeImageOptions {
        features: Some(&features),
        ..Default::default()
    };

    let request = client
        .request(ImageInput::Url("https://images.test/a.jpg"), &options)
        .unwrap();
    assert_eq!(
        request.url,
        "https://example.test/computervision/imageanalysis:analyze"
    );
    assert_eq!(
        request.query,
        vec![
            ("api-version", "2023-04-01-preview".to_string()),
            ("features", "people".to_string()),
        ]
    );
    match request.body {
        RequestBody::Json(doc) => assert_eq!(doc.url, "https://images.test/a.jpg"),
        other => panic!("expected a JSON body, got {:?}", other),
    }

    let image = [9u8, 8, 7];
    let request = client.request(ImageInput::Data(&image), &options).unwrap();
    match request.body {
        RequestBody::Bytes(bytes) => assert_eq!(bytes, vec![9u8, 8, 7]),
        other => panic!("expected the image bytes, got {:?}", other),
    }
}

#[test]
fn v40_headers_hold_the_key_as_a_sensitive_value() {
    let key = Secret::new("0123456789abcdef".into());
    let headers = Client::create_headers(&key).unwrap();

    assert_eq!(headers.len(), 2);
    let sent = headers.get("ocp-apim-subscription-key").unwrap();
    assert_eq!(sent.as_bytes(), b"0123456789abcdef");
    assert!(sent.is_sensitive());
    assert!(!headers.get("content-type").unwrap().is_sensitive());
    assert!(matches!(
        Client::create_http_client(Secret::new("key\r\n".into())),
        Err(Error::Validation(ValidationError::InvalidHeaderValue(_)))
    ));
}

#[test]
fn v40_largest_image_is_twenty_mebibytes() {
    assert_eq!(MAX_IMAGE_SIZE, 20_971_520);
}
