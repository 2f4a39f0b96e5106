use rustdrop::filename::{extension, is_allowed, validate};
use rustdrop::reply::ValidationError;

#[test]
fn extension_is_the_text_behind_the_last_dot() {
    assert_eq!(extension("report.pdf"), Some("pdf"));
    assert_eq!(extension("archive.tar.gz"), Some("gz"));
    assert_eq!(extension("README"), None);
    assert_eq!(extension("trailing."), Some(""));
    assert_eq!(extension(".hidden"), Some("hidden"));
    assert_eq!(extension(""), None);
    assert_eq!(extension("naïve.txt"), Some("txt"));
}

#[test]
fn allow_list_is_exact() {
    for accepted in ["txt", "png", "jpg", "jpeg", "pdf"] {
        assert!(is_allowed(accepted));
    }
    for refused in ["", "TXT", "exe", "bin", "pdfx", "tx"] {
        assert!(!is_allowed(refused));
    }
}

#[test]
fn validation_names_the_reason() {
    assert_eq!(validate("report.pdf"), Ok(()));
    assert_eq!(validate("report"), Err(ValidationError::NoExtension));
    assert_eq!(validate("report.exe"), Err(ValidationError::TypeNotAllowed));
    assert_eq!(validate("report."), Err(ValidationError::TypeNotAllowed));
}
