use render_host::diagnostics::is_reported;
use render_host::error::Error;

#[test]
fn notifications_are_suppressed() {
    assert!(!is_reported(gl::DEBUG_SEVERITY_NOTIFICATION));
    assert!(!is_reported(0x826B));
}

#[test]
fn every_other_severity_is_reported() {
    assert!(is_reported(gl::DEBUG_SEVERITY_HIGH));
    assert!(is_reported(gl::DEBUG_SEVERITY_MEDIUM));
    assert!(is_reported(gl::DEBUG_SEVERITY_LOW));
    assert!(is_reported(0));
    assert!(is_reported(u32::MAX));
    assert!(is_reported(0x826A));
    assert!(is_reported(0x826C));
}

#[test]
fn error_carries_its_details() {
    let error = Error::new("vertices not found");
    assert_eq!(error.details(), "vertices not found");
    assert_eq!(error.to_text(), "vertices not found".to_string());
    assert_eq!(error.clone(), error);
    assert_ne!(error, Error::new("vertices not found "));
    assert_eq!(Error::new("").details(), "");
}
