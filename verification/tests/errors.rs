use console_backend::OsError;

#[test]
fn nonzero_status_is_success() {
    assert_eq!(OsError::check(1, 5), Ok(()));
    assert_eq!(OsError::check(-1, 5), Ok(()));
    assert_eq!(OsError::check(42, 0), Ok(()));
}

#[test]
fn zero_status_is_failure_with_the_code() {
    assert_eq!(OsError::check(0, 5), Err(OsError { code: 5 }));
    assert_eq!(OsError::check(0, 0), Err(OsError { code: 0 }));
    assert_eq!(OsError::check(0, -2147024891), Err(OsError { code: -2147024891 }));
}
