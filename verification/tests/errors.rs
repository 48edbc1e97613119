use win_desktop_duplication::errors::{
    session_error, AcquireFailure, DDApiError, DXGI_ERROR_ACCESS_DENIED, DXGI_ERROR_ACCESS_LOST,
    DXGI_ERROR_INVALID_CALL, DXGI_ERROR_MORE_DATA, DXGI_ERROR_SESSION_DISCONNECTED,
    DXGI_ERROR_UNSUPPORTED, DXGI_ERROR_WAIT_TIMEOUT, E_ACCESSDENIED, E_INVALIDARG,
};

#[test]
fn result_codes_are_those_of_the_graphics_stack() {
    assert_eq!(E_INVALIDARG, windows::Win32::Foundation::E_INVALIDARG.0);
    assert_eq!(E_ACCESSDENIED, windows::Win32::Foundation::E_ACCESSDENIED.0);
    assert_eq!(DXGI_ERROR_INVALID_CALL, windows::Win32::Graphics::Dxgi::DXGI_ERROR_INVALID_CALL.0);
    assert_eq!(DXGI_ERROR_MORE_DATA, windows::Win32::Graphics::Dxgi::DXGI_ERROR_MORE_DATA.0);
    assert_eq!(DXGI_ERROR_UNSUPPORTED, windows::Win32::Graphics::Dxgi::DXGI_ERROR_UNSUPPORTED.0);
    assert_eq!(DXGI_ERROR_ACCESS_LOST, windows::Win32::Graphics::Dxgi::DXGI_ERROR_ACCESS_LOST.0);
    assert_eq!(DXGI_ERROR_WAIT_TIMEOUT, windows::Win32::Graphics::Dxgi::DXGI_ERROR_WAIT_TIMEOUT.0);
    assert_eq!(DXGI_ERROR_SESSION_DISCONNECTED, windows::Win32::Graphics::Dxgi::DXGI_ERROR_SESSION_DISCONNECTED.0);
    assert_eq!(DXGI_ERROR_ACCESS_DENIED, windows::Win32::Graphics::Dxgi::DXGI_ERROR_ACCESS_DENIED.0);
}

#[test]
fn result_codes_in_hexadecimal() {
    assert_eq!(E_INVALIDARG as u32, 0x8007_0057);
    assert_eq!(E_ACCESSDENIED as u32, 0x8007_0005);
    assert_eq!(DXGI_ERROR_INVALID_CALL as u32, 0x887A_0001);
    assert_eq!(DXGI_ERROR_MORE_DATA as u32, 0x887A_0003);
    assert_eq!(DXGI_ERROR_UNSUPPORTED as u32, 0x887A_0004);
    assert_eq!(DXGI_ERROR_ACCESS_LOST as u32, 0x887A_0026);
    assert_eq!(DXGI_ERROR_WAIT_TIMEOUT as u32, 0x887A_0027);
    assert_eq!(DXGI_ERROR_SESSION_DISCONNECTED as u32, 0x887A_0028);
    assert_eq!(DXGI_ERROR_ACCESS_DENIED as u32, 0x887A_002B);
}

#[test]
fn session_errors_by_code() {
    assert!(matches!(
        session_error(E_INVALIDARG, "bad pairing".to_string()),
        DDApiError::BadParam(d) if d == "bad pairing"
    ));
    assert!(matches!(session_error(E_ACCESSDENIED, String::new()), DDApiError::AccessDenied));
    assert!(matches!(session_error(DXGI_ERROR_UNSUPPORTED, String::new()), DDApiError::Unsupported));
    assert!(matches!(
        session_error(DXGI_ERROR_SESSION_DISCONNECTED, String::new()),
        DDApiError::Disconnected
    ));
    assert!(matches!(
        session_error(-1, "anything else".to_string()),
        DDApiError::Unexpected(d) if d == "anything else"
    ));
    assert!(matches!(
        session_error(DXGI_ERROR_ACCESS_LOST, "lost".to_string()),
        DDApiError::Unexpected(d) if d == "lost"
    ));
}

#[test]
fn session_errors_from_the_error_type_of_the_graphics_stack() {
    let refused = windows::core::Error::from_hresult(windows::Win32::Foundation::E_ACCESSDENIED);
    assert!(matches!(session_error(refused.code().0, String::new()), DDApiError::AccessDenied));
    let odd = windows::core::Error::from_hresult(windows::Win32::Graphics::Dxgi::DXGI_ERROR_UNSUPPORTED);
    assert!(matches!(session_error(odd.code().0, String::new()), DDApiError::Unsupported));
}

#[test]
fn acquire_failures_by_code() {
    assert_eq!(AcquireFailure::classify(DXGI_ERROR_ACCESS_LOST), AcquireFailure::AccessLost);
    assert_eq!(AcquireFailure::classify(DXGI_ERROR_ACCESS_DENIED), AcquireFailure::AccessDenied);
    assert_eq!(AcquireFailure::classify(DXGI_ERROR_INVALID_CALL), AcquireFailure::InvalidCall);
    assert_eq!(AcquireFailure::classify(DXGI_ERROR_WAIT_TIMEOUT), AcquireFailure::WaitTimeout);
    assert_eq!(AcquireFailure::classify(E_ACCESSDENIED), AcquireFailure::Other);
    assert_eq!(AcquireFailure::classify(0), AcquireFailure::Other);
}

#[test]
fn recoverable_and_fatal_errors() {
    assert!(DDApiError::AccessLost.recoverable());
    assert!(DDApiError::AccessDenied.recoverable());
    assert!(!DDApiError::Unexpected(String::new()).recoverable());
    assert!(!DDApiError::BadParam(String::new()).recoverable());
    assert!(!DDApiError::Unsupported.recoverable());
    assert!(!DDApiError::Disconnected.recoverable());
    assert!(!DDApiError::TimeOut.recoverable());
    assert!(!DDApiError::CursorNotAvailable.recoverable());
    assert!(DDApiError::Unexpected("x".to_string()).fatal());
    assert!(!DDApiError::AccessLost.fatal());
}
