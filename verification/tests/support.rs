use std::collections::hash_map::DefaultHasher;
use std::hash::{Hash, Hasher};

use windows_sys::Win32::Foundation as f;
use windows_sys::Win32::System::Services as s;

use msr_driver_rs::{
    hash_bytes, Error, ERROR_ALREADY_EXISTS, ERROR_FILE_NOT_FOUND, ERROR_PATH_NOT_FOUND,
    ERROR_SERVICE_ALREADY_RUNNING, ERROR_SERVICE_DOES_NOT_EXIST, ERROR_SERVICE_EXISTS,
    INVALID_HANDLE_VALUE, MSR_VALUE_SIZE, SC_MANAGER_ALL_ACCESS, SC_MANAGER_CONNECT, SERVICE_ALL_ACCESS,
    SERVICE_QUERY_STATUS, SERVICE_START,
};

#[test]
fn constants_match_the_windows_headers() {
    assert_eq!(ERROR_FILE_NOT_FOUND, f::ERROR_FILE_NOT_FOUND);
    assert_eq!(ERROR_PATH_NOT_FOUND, f::ERROR_PATH_NOT_FOUND);
    assert_eq!(ERROR_ALREADY_EXISTS, f::ERROR_ALREADY_EXISTS);
    assert_eq!(ERROR_SERVICE_ALREADY_RUNNING, f::ERROR_SERVICE_ALREADY_RUNNING);
    assert_eq!(ERROR_SERVICE_DOES_NOT_EXIST, f::ERROR_SERVICE_DOES_NOT_EXIST);
    assert_eq!(ERROR_SERVICE_EXISTS, f::ERROR_SERVICE_EXISTS);
    assert_eq!(INVALID_HANDLE_VALUE, f::INVALID_HANDLE_VALUE as isize);
    assert_eq!(SC_MANAGER_CONNECT, s::SC_MANAGER_CONNECT);
    assert_eq!(SC_MANAGER_ALL_ACCESS, s::SC_MANAGER_ALL_ACCESS);
    assert_eq!(SERVICE_QUERY_STATUS, s::SERVICE_QUERY_STATUS);
    assert_eq!(SERVICE_START, s::SERVICE_START);
    assert_eq!(SERVICE_ALL_ACCESS, s::SERVICE_ALL_ACCESS);
    assert_eq!(MSR_VALUE_SIZE as usize, std::mem::size_of::<u64>());
}

fn std_slice_hash(bytes: &[u8]) -> u64 {
    let mut hasher = DefaultHasher::new();
    bytes.hash(&mut hasher);
    hasher.finish()
}

#[test]
fn hash_bytes_agrees_with_hashing_the_slice() {
    for bytes in [&b""[..], &b"x"[..], &b"ScaphandreDrv.sys"[..], &[0u8; 300][..]] {
        assert_eq!(hash_bytes(bytes), std_slice_hash(bytes));
    }
}

#[test]
fn hash_bytes_is_deterministic_and_content_sensitive() {
    assert_eq!(hash_bytes(b"driver"), hash_bytes(b"driver"));
    assert_ne!(hash_bytes(b"driver"), hash_bytes(b"drivers"));
}

#[test]
fn messages_match_the_display_texts() {
    assert_eq!(
        Error::WinApi { context: "CreateFileW", code: 1060 }.message(),
        "Windows API error in CreateFileW (code 1060)"
    );
    assert_eq!(Error::WinApi { context: "CloseHandle", code: 0 }.message(), "Windows API error in CloseHandle (code 0)");
    assert_eq!(
        Error::WinApi { context: "DeleteService", code: u32::MAX }.message(),
        "Windows API error in DeleteService (code 4294967295)"
    );
    assert_eq!(
        Error::DriverProtocol { context: "unexpected output size" }.message(),
        "Driver protocol error: unexpected output size"
    );
    assert_eq!(Error::NotInstalled.message(), "Driver is not installed");
    assert_eq!(Error::NotRunning.message(), "Driver is installed but not running");
    assert_eq!(Error::DeviceClosed.message(), "Driver handle is closed");
    let io = std::io::Error::new(std::io::ErrorKind::Other, "disk full");
    assert_eq!(Error::Io(io).message(), "I/O error: disk full");
}

#[test]
fn io_errors_convert_into_io_variant() {
    let err: Error = std::io::Error::new(std::io::ErrorKind::NotFound, "gone").into();
    assert!(matches!(err, Error::Io(ref e) if e.kind() == std::io::ErrorKind::NotFound));
}
