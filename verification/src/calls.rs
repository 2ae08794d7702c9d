use vstd::multiset::Multiset;
use vstd::prelude::*;

use crate::error::{Error, Result};

verus! {

/// Value of a device handle that refers to nothing: `CreateFileW` reports
/// failure with it, and a closed device handle holds it.
pub const INVALID_HANDLE_VALUE: isize = -1;

/// Value of a service-manager or service handle that refers to nothing:
/// the service-control functions report failure with it.
pub const NULL_HANDLE: isize = 0;

/// Win32 error codes the decisions depend on.
pub const ERROR_FILE_NOT_FOUND: u32 = 2;
pub const ERROR_PATH_NOT_FOUND: u32 = 3;
pub const ERROR_ALREADY_EXISTS: u32 = 183;
pub const ERROR_SERVICE_ALREADY_RUNNING: u32 = 1056;
pub const ERROR_SERVICE_DOES_NOT_EXIST: u32 = 1060;
pub const ERROR_SERVICE_EXISTS: u32 = 1073;

/// Access rights requested from the service control manager.
pub const SC_MANAGER_CONNECT: u32 = 0x0001;
pub const SC_MANAGER_ALL_ACCESS: u32 = 0xF003F;

/// Access rights requested on the driver service.
pub const SERVICE_QUERY_STATUS: u32 = 0x0004;
pub const SERVICE_START: u32 = 0x0010;
pub const SERVICE_ALL_ACCESS: u32 = 0xF01FF;

/// Number of bytes a register read must deliver: one `u64`.
pub const MSR_VALUE_SIZE: u32 = 8;

/// One system operation that the caller performs on the library's behalf.
/// Handles are raw handle values as signed integers.
#[derive(Debug, Clone, Copy, PartialEq, Eq, Structural)]
pub enum Request {
    /// `CreateFileW` on the driver's device path, for reading and writing.
    OpenDevice,
    /// `DeviceIoControl` with code 0, sending the register and CPU index,
    /// receiving one `u64`.
    ReadMsr { device: isize, msr_register: u32, cpu_index: u32 },
    /// `CloseHandle` on the device handle.
    CloseDevice { device: isize },
    /// `OpenSCManagerW` on the local machine with the given access.
    OpenManager { access: u32 },
    /// `OpenServiceW` for the driver service with the given access.
    OpenService { manager: isize, access: u32 },
    /// `CreateServiceW` for the driver service: a kernel driver that starts
    /// automatically, with full access, backed by the deployed binary.
    CreateService { manager: isize },
    /// `ChangeServiceConfigW` setting the start type to automatic and the
    /// binary path to the deployed binary, changing nothing else.
    ConfigureAutoStart { service: isize },
    /// `StartServiceW` without arguments.
    StartService { service: isize },
    /// `ControlService` with the stop control.
    StopService { service: isize },
    /// `DeleteService`.
    DeleteService { service: isize },
    /// `CloseServiceHandle`.
    CloseServiceHandle { handle: isize },
    /// Read the deployed driver binary.
    ReadDeployedDriver,
    /// Create the directory that holds the deployed driver binary.
    CreateDriverDirectory,
    /// Ask whether the deployed driver binary exists.
    CheckDriverFile,
    /// Write the bundled driver binary to the deployment path.
    WriteDriverFile,
    /// Remove the deployed driver binary.
    RemoveDriverFile,
}

/// What reading the deployed driver binary gave.
#[derive(Debug)]
pub enum DeployedDriver {
    /// The file does not exist.
    Missing,
    /// The file's contents.
    Contents(Vec<u8>),
    /// Reading failed for another reason.
    Unreadable(std::io::Error),
}

/// What a performed request reported. `last_error` is the value of
/// `GetLastError` read right after the call.
#[derive(Debug)]
pub enum Reply {
    /// A call that returns a handle.
    Handle { raw: isize, last_error: u32 },
    /// A call that returns a `BOOL`; `ok` is whether it was nonzero.
    Status { ok: bool, last_error: u32 },
    /// `DeviceIoControl`: its `BOOL`, the value written to the output
    /// buffer and the byte count it reported.
    Transfer { ok: bool, last_error: u32, value: u64, bytes_returned: u32 },
    /// Reading the deployed driver binary.
    Driver(DeployedDriver),
    /// A file operation without a result.
    Io(std::result::Result<(), std::io::Error>),
    /// Whether the deployed driver binary exists.
    Exists(bool),
}

/// What an operation asks for next: a system call, or its end with a result.
#[derive(Debug)]
pub enum Step<T> {
    Call(Request),
    Done(Result<T>),
}

/// Whether `reply` is of the form that performing `request` produces.
pub open spec fn answers(request: Request, reply: Reply) -> bool {
    match request {
        Request::OpenDevice | Request::OpenManager { .. } | Request::OpenService { .. }
        | Request::CreateService { .. } => reply is Handle,
        Request::ReadMsr { .. } => reply is Transfer,
        Request::CloseDevice { .. } | Request::ConfigureAutoStart { .. }
        | Request::StartService { .. } | Request::StopService { .. }
        | Request::DeleteService { .. } | Request::CloseServiceHandle { .. } => reply is Status,
        Request::ReadDeployedDriver => reply is Driver,
        Request::CreateDriverDirectory | Request::WriteDriverFile
        | Request::RemoveDriverFile => reply is Io,
        Request::CheckDriverFile => reply is Exists,
    }
}

/// The error a failed Windows API call is reported as.
pub open spec fn win_api(context: &'static str, code: u32) -> Error {
    Error::WinApi { context, code }
}

/// Whether `request` asks the service control manager for a handle.
pub open spec fn opens_service_handle(request: Request) -> bool {
    request is OpenManager || request is OpenService || request is CreateService
}

/// The service-control handle that `reply` hands over in answer to
/// `request`: the one a successful open or create returns.
pub open spec fn acquired(request: Request, reply: Reply) -> Multiset<isize> {
    match reply {
        Reply::Handle { raw, .. } => if opens_service_handle(request) && raw != NULL_HANDLE {
            Multiset::singleton(raw)
        } else {
            Multiset::empty()
        },
        _ => Multiset::empty(),
    }
}

/// The service-control handle that `request` gives back.
pub open spec fn released(request: Request) -> Multiset<isize> {
    match request {
        Request::CloseServiceHandle { handle } => Multiset::singleton(handle),
        _ => Multiset::empty(),
    }
}

/// The handles a task holds while it closes `handle` and then `then`.
pub open spec fn releasing(handle: isize, then: Option<isize>) -> Multiset<isize> {
    match then {
        Some(next) => Multiset::singleton(handle).insert(next),
        None => Multiset::singleton(handle),
    }
}

/// Whether `request` needs no more than read access: opening the device,
/// connecting to the service control manager, querying the service's
/// status, closing a handle.
pub open spec fn read_only(request: Request) -> bool {
    match request {
        Request::OpenDevice => true,
        Request::OpenManager { access } => access == SC_MANAGER_CONNECT,
        Request::OpenService { access, .. } => access == SERVICE_QUERY_STATUS,
        Request::CloseServiceHandle { .. } => true,
        _ => false,
    }
}

} // verus!
