use axum::http::{HeaderMap, HeaderValue};
use rustdrop::auth::{check_credential, credential_of, same_bytes, Config};
use rustdrop::reply::AuthError;

fn config() -> Config {
    Config::new("mysecretkey123".to_string())
}

#[test]
fn config_keeps_the_secret() {
    assert_eq!(config().secret, "mysecretkey123");
}

#[test]
fn same_bytes_compares_every_byte() {
    assert!(same_bytes(b"", b""));
    assert!(same_bytes(b"abc", b"abc"));
    assert!(!same_bytes(b"abc", b"abd"));
    assert!(!same_bytes(b"abc", b"ab"));
    assert!(!same_bytes(b"ab", b"abc"));
    assert!(!same_bytes(b"", b"a"));
}

#[test]
fn the_secret_opens_the_upload() {
    let presented = Some(b"mysecretkey123".to_vec());
    assert_eq!(check_credential(&config(), &presented), Ok(()));
}

#[test]
fn no_credential_is_missing() {
    assert_eq!(check_credential(&config(), &None), Err(AuthError::Missing));
}

#[test]
fn any_other_credential_is_invalid() {
    for wrong in ["", "mysecretkey12", "mysecretkey1234", "MYSECRETKEY123", "wrong"] {
        let presented = Some(wrong.as_bytes().to_vec());
        assert_eq!(check_credential(&config(), &presented), Err(AuthError::Invalid));
    }
}

#[test]
fn credential_that_is_no_text_is_invalid() {
    let presented = Some(vec![0xff, 0xfe, 0x00]);
    assert_eq!(check_credential(&config(), &presented), Err(AuthError::Invalid));
}

#[test]
fn secret_is_compared_as_bytes() {
    let config = Config::new("clé".to_string());
    assert_eq!(check_credential(&config, &Some("clé".as_bytes().to_vec())), Ok(()));
    assert_eq!(check_credential(&config, &Some("cle".as_bytes().to_vec())), Err(AuthError::Invalid));
}

#[test]
fn credential_is_the_authorization_header() {
    let mut headers = HeaderMap::new();
    headers.insert("content-type", HeaderValue::from_static("multipart/form-data"));
    headers.insert("authorization", HeaderValue::from_static("mysecretkey123"));
    assert_eq!(credential_of(&headers), Some(b"mysecretkey123".to_vec()));
}

#[test]
fn credential_is_absent_without_the_header() {
    let mut headers = HeaderMap::new();
    assert_eq!(credential_of(&headers), None);
    headers.insert("x-api-key", HeaderValue::from_static("mysecretkey123"));
    assert_eq!(credential_of(&headers), None);
}

#[test]
fn credential_is_the_first_of_several() {
    let mut headers = HeaderMap::new();
    headers.append("authorization", HeaderValue::from_static("first"));
    headers.append("authorization", HeaderValue::from_static("second"));
    assert_eq!(credential_of(&headers), Some(b"first".to_vec()));
}

#[test]
fn credential_may_hold_bytes_that_are_no_text() {
    let mut headers = HeaderMap::new();
    headers.insert("authorization", HeaderValue::from_bytes(&[0xe9, 0x80]).unwrap());
    assert_eq!(credential_of(&headers), Some(vec![0xe9, 0x80]));
}
