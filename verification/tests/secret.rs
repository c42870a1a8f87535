use az_analyze_image::common::secret::{Secret, SECRET_DEBUG_OUTPUT};

const TEST_VALUE: &str = "f73ff2c2addc4ab7b2480278c8c6ff90";

#[test]
fn test_secret_new() {
    let _secret = Secret::new(TEST_VALUE.to_string());
}

#[test]
fn test_secret_get_value() {
    let secret = Secret::new(TEST_VALUE.to_string());
    assert_eq!(secret.value(), TEST_VALUE);
}

#[test]
fn test_secret_debug() {
    let secret = Secret::new(TEST_VALUE.to_string());

    assert_eq!(format!("{secret:?}"), SECRET_DEBUG_OUTPUT);
    assert_eq!(format!("{secret:#?}"), SECRET_DEBUG_OUTPUT);
}

#[test]
fn test_secret_from_string() {
    let _secret: Secret = TEST_VALUE.to_string().into();
}

#[test]
fn test_secret_partial_equality() {
    let secret_1 = Secret::new(TEST_VALUE.to_string());
    let secret_2 = Secret::new(TEST_VALUE.to_string());
    let secret_3 = Secret::new("different_value".to_string());

    assert_eq!(secret_1, secret_2);
    assert_ne!(secret_1, secret_3);
}

#[test]
fn secret_debug_string_is_the_placeholder() {
    let secret = Secret::new(TEST_VALUE.to_string());
    assert_eq!(secret.debug_string(), "Secret { * }");
    assert!(!format!("{:>40?}", secret).contains(TEST_VALUE));
    assert_eq!(Secret::new(String::new()).debug_string(), "Secret { * }");
}

#[test]
fn secret_from_string_keeps_the_value() {
    let secret: Secret = TEST_VALUE.to_string().into();
    assert_eq!(secret.value(), TEST_VALUE);
    assert_eq!(Secret::from("a".to_string()), Secret::new("a".to_string()));
}

#[test]
fn secret_equality_sees_every_byte() {
    let base = Secret::new("abcdef".to_string());
    assert_ne!(base, Secret::new("abcdeg".to_string()));
    assert_ne!(base, Secret::new("bbcdef".to_string()));
    assert_ne!(base, Secret::new("abcde".to_string()));
    assert_ne!(base, Secret::new("abcdefg".to_string()));
    assert_ne!(base, Secret::new(String::new()));
    assert_eq!(Secret::new(String::new()), Secret::new(String::new()));
    assert_eq!(base.clone(), base);
}

#[test]
fn secret_is_empty_after_wiping() {
    let mut secret = Secret::new(TEST_VALUE.to_string());
    secret.wipe();
    assert_eq!(secret.value(), "");
    assert_eq!(secret, Secret::new(String::new()));
}

#[test]
fn secret_clone_holds_the_same_value() {
    let secret = Secret::new(TEST_VALUE.to_string());
    let mut copy = secret.clone();
    assert_eq!(copy.value(), TEST_VALUE);
    copy.wipe();
    assert_eq!(secret.value(), TEST_VALUE);
}
