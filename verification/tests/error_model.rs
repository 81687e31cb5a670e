use uiautomation::errors::{ERR_NONE, ERR_NOTFOUND, ERR_TIMEOUT, ERR_TYPE, HR_NOINTERFACE};
use uiautomation::native::NativeError;
use uiautomation::Error;

#[test]
fn error_new_reads_back() {
    let e = Error::new(5, "boom");
    assert_eq!(e.code(), 5);
    assert_eq!(e.message(), "boom");
}

#[test]
fn negative_code_reports_native_status() {
    let e = Error::new(-7, "native failure");
    assert_eq!(e.result(), Some(-7));
    let e = Error::new(HR_NOINTERFACE, "No such interface supported");
    assert_eq!(e.result(), Some(HR_NOINTERFACE));
}

#[test]
fn non_negative_code_reports_no_native_status() {
    assert_eq!(Error::new(ERR_NONE, "none").result(), None);
    assert_eq!(Error::new(ERR_NOTFOUND, "not found").result(), None);
    assert_eq!(Error::new(ERR_TIMEOUT, "timeout").result(), None);
    assert_eq!(Error::new(ERR_TYPE, "wrong type").result(), None);
}

#[test]
fn native_failure_keeps_code_and_message() {
    let e = Error::from(NativeError { code: -42, message: String::from("object is gone") });
    assert_eq!(e.code(), -42);
    assert_eq!(e.message(), "object is gone");
    assert_eq!(e.result(), Some(-42));
}

#[test]
fn plain_message_carries_no_native_code() {
    let e = Error::from(String::from("just words"));
    assert_eq!(e.code(), ERR_NONE);
    assert_eq!(e.message(), "just words");
    assert_eq!(e.result(), None);
}

#[test]
fn local_codes_are_distinct() {
    assert_eq!(ERR_NONE, 0);
    assert_eq!(ERR_NOTFOUND, 1);
    assert_eq!(ERR_TIMEOUT, 2);
    assert_eq!(ERR_TYPE, 3);
    assert!(HR_NOINTERFACE < 0);
}
