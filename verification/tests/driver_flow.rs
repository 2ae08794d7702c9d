use msr_driver_rs::{
    CloseTask, DeployTask, DeployedDriver, Error, InstallTask, IsInstalledTask, MsrDriver, NeedsUpdateTask,
    NewTask, ReadMsrTask, Reply, Request, StartTask, Step, StopServiceTask, UninstallServiceTask,
    UninstallTask, ERROR_ALREADY_EXISTS, ERROR_FILE_NOT_FOUND, ERROR_PATH_NOT_FOUND,
    ERROR_SERVICE_ALREADY_RUNNING, ERROR_SERVICE_DOES_NOT_EXIST, ERROR_SERVICE_EXISTS,
    INVALID_HANDLE_VALUE, NULL_HANDLE, SC_MANAGER_ALL_ACCESS, SC_MANAGER_CONNECT, SERVICE_ALL_ACCESS,
    SERVICE_QUERY_STATUS, SERVICE_START,
};

trait Resume: Sized {
    type Out;
    fn resume_with(self, reply: Reply) -> (Self, Step<Self::Out>);
}

impl Resume for NewTask {
    type Out = MsrDriver;
    fn resume_with(self, reply: Reply) -> (Self, Step<MsrDriver>) {
        self.resume(reply)
    }
}
impl Resume for IsInstalledTask {
    type Out = bool;
    fn resume_with(self, reply: Reply) -> (Self, Step<bool>) {
        self.resume(reply)
    }
}
impl Resume for StartTask {
    type Out = ();
    fn resume_with(self, reply: Reply) -> (Self, Step<()>) {
        self.resume(reply)
    }
}
impl Resume for StopServiceTask {
    type Out = ();
    fn resume_with(self, reply: Reply) -> (Self, Step<()>) {
        self.resume(reply)
    }
}
impl Resume for UninstallServiceTask {
    type Out = ();
    fn resume_with(self, reply: Reply) -> (Self, Step<()>) {
        self.resume(reply)
    }
}
impl Resume for UninstallTask {
    type Out = ();
    fn resume_with(self, reply: Reply) -> (Self, Step<()>) {
        self.resume(reply)
    }
}
impl Resume for NeedsUpdateTask {
    type Out = bool;
    fn resume_with(self, reply: Reply) -> (Self, Step<bool>) {
        self.resume(reply)
    }
}
impl Resume for DeployTask {
    type Out = ();
    fn resume_with(self, reply: Reply) -> (Self, Step<()>) {
        self.resume(reply)
    }
}
impl Resume for InstallTask {
    type Out = ();
    fn resume_with(self, reply: Reply) -> (Self, Step<()>) {
        self.resume(reply)
    }
}
impl Resume for ReadMsrTask {
    type Out = u64;
    fn resume_with(self, reply: Reply) -> (Self, Step<u64>) {
        self.resume(reply)
    }
}
impl Resume for CloseTask {
    type Out = ();
    fn resume_with(self, reply: Reply) -> (Self, Step<()>) {
        self.resume(reply)
    }
}

/// Runs a task from its first step, answering its requests with `replies`
/// in order; gives the requests it made and its result.
fn drive<T: Resume>(
    first: (T, Step<T::Out>),
    replies: Vec<Reply>,
) -> (Vec<Request>, msr_driver_rs::Result<T::Out>) {
    let (mut task, mut step) = first;
    let mut requests = Vec::new();
    let mut replies = replies.into_iter();
    loop {
        match step {
            Step::Call(req) => {
                requests.push(req);
                let reply = replies.next().expect("the task asked for more than was scripted");
                let (t, s) = task.resume_with(reply);
                task = t;
                step = s;
            }
            Step::Done(result) => {
                assert!(replies.next().is_none(), "the task ended before every reply was used");
                return (requests, result);
            }
        }
    }
}

fn handle(raw: isize) -> Reply {
    Reply::Handle { raw, last_error: 0 }
}

fn failed_handle(raw: isize, last_error: u32) -> Reply {
    Reply::Handle { raw, last_error }
}

fn ok() -> Reply {
    Reply::Status { ok: true, last_error: 0 }
}

fn failed(last_error: u32) -> Reply {
    Reply::Status { ok: false, last_error }
}

fn io_ok() -> Reply {
    Reply::Io(Ok(()))
}

fn open_driver(raw: isize) -> MsrDriver {
    let (_, result) = drive(MsrDriver::new(), vec![handle(raw)]);
    match result {
        Ok(d) => d,
        Err(e) => panic!("opening failed: {}", e.message()),
    }
}

// ---------------------------------------------------------------------------
// Opening the driver.
// ---------------------------------------------------------------------------

#[test]
fn new_keeps_the_opened_device_handle() {
    let (requests, result) = drive(MsrDriver::new(), vec![handle(0x44)]);
    assert_eq!(requests, vec![Request::OpenDevice]);
    let driver = result.expect("device opened");
    assert_eq!(driver.device.raw_handle(), 0x44);
}

#[test]
fn new_reports_not_running_when_service_exists() {
    let (requests, result) = drive(
        MsrDriver::new(),
        vec![failed_handle(INVALID_HANDLE_VALUE, ERROR_FILE_NOT_FOUND), handle(10), handle(20), ok(), ok()],
    );
    assert_eq!(
        requests,
        vec![
            Request::OpenDevice,
            Request::OpenManager { access: SC_MANAGER_CONNECT },
            Request::OpenService { manager: 10, access: SERVICE_QUERY_STATUS },
            Request::CloseServiceHandle { handle: 20 },
            Request::CloseServiceHandle { handle: 10 },
        ]
    );
    assert!(matches!(result, Err(Error::NotRunning)));
}

#[test]
fn new_reports_not_installed_when_service_is_missing() {
    let (requests, result) = drive(
        MsrDriver::new(),
        vec![
            failed_handle(INVALID_HANDLE_VALUE, ERROR_PATH_NOT_FOUND),
            handle(10),
            failed_handle(NULL_HANDLE, ERROR_SERVICE_DOES_NOT_EXIST),
            ok(),
        ],
    );
    assert_eq!(requests.last(), Some(&Request::CloseServiceHandle { handle: 10 }));
    assert!(matches!(result, Err(Error::NotInstalled)));
}

#[test]
fn new_passes_on_a_failed_service_query() {
    let (_, result) = drive(
        MsrDriver::new(),
        vec![failed_handle(INVALID_HANDLE_VALUE, ERROR_FILE_NOT_FOUND), failed_handle(NULL_HANDLE, 5)],
    );
    assert!(matches!(result, Err(Error::WinApi { context: "OpenSCManagerW", code: 5 })));
}

#[test]
fn new_reports_other_open_failures() {
    let (requests, result) = drive(MsrDriver::new(), vec![failed_handle(INVALID_HANDLE_VALUE, 5)]);
    assert_eq!(requests, vec![Request::OpenDevice]);
    assert!(matches!(result, Err(Error::WinApi { context: "CreateFileW", code: 5 })));
}

// ---------------------------------------------------------------------------
// Reading registers and closing.
// ---------------------------------------------------------------------------

#[test]
fn read_msr_returns_the_register_value() {
    let driver = open_driver(7);
    let (requests, result) = drive(
        driver.read_msr(0x611, 3),
        vec![Reply::Transfer { ok: true, last_error: 0, value: 0xdead_beef, bytes_returned: 8 }],
    );
    assert_eq!(requests, vec![Request::ReadMsr { device: 7, msr_register: 0x611, cpu_index: 3 }]);
    assert_eq!(result.unwrap(), 0xdead_beef);
}

#[test]
fn read_msr_rejects_a_short_answer() {
    let driver = open_driver(7);
    let (_, result) = drive(
        driver.read_msr(0x606, 0),
        vec![Reply::Transfer { ok: true, last_error: 0, value: 1, bytes_returned: 4 }],
    );
    assert!(matches!(result, Err(Error::DriverProtocol { context: "unexpected output size" })));
}

#[test]
fn read_msr_reports_a_failed_transfer() {
    let driver = open_driver(7);
    let (_, result) = drive(
        driver.read_msr(0x606, 0),
        vec![Reply::Transfer { ok: false, last_error: 1, value: 0, bytes_returned: 8 }],
    );
    assert!(matches!(result, Err(Error::WinApi { context: "DeviceIoControl", code: 1 })));
}

#[test]
fn close_is_idempotent_and_reading_afterwards_fails() {
    let mut driver = open_driver(7);
    let (requests, result) = drive(driver.close(), vec![ok()]);
    assert_eq!(requests, vec![Request::CloseDevice { device: 7 }]);
    assert!(result.is_ok());
    assert_eq!(driver.device.raw_handle(), INVALID_HANDLE_VALUE);
    let (requests, result) = drive(driver.close(), vec![]);
    assert!(requests.is_empty());
    assert!(result.is_ok());
    let (requests, result) = drive(driver.read_msr(0x611, 0), vec![]);
    assert!(requests.is_empty());
    assert!(matches!(result, Err(Error::DeviceClosed)));
}

#[test]
fn close_failure_is_reported_and_handle_still_closed() {
    let mut driver = open_driver(9);
    let (_, result) = drive(driver.close(), vec![failed(6)]);
    assert!(matches!(result, Err(Error::WinApi { context: "CloseHandle", code: 6 })));
    let (requests, _) = drive(driver.read_msr(0x611, 0), vec![]);
    assert!(requests.is_empty());
}

// ---------------------------------------------------------------------------
// Service status, start and removal.
// ---------------------------------------------------------------------------

#[test]
fn is_installed_needs_only_read_access() {
    let (requests, result) = drive(MsrDriver::is_installed(), vec![handle(1), handle(2), ok(), ok()]);
    assert_eq!(
        requests,
        vec![
            Request::OpenManager { access: SC_MANAGER_CONNECT },
            Request::OpenService { manager: 1, access: SERVICE_QUERY_STATUS },
            Request::CloseServiceHandle { handle: 2 },
            Request::CloseServiceHandle { handle: 1 },
        ]
    );
    assert!(result.unwrap());
}

#[test]
fn is_installed_reports_other_service_errors() {
    let (_, result) = drive(MsrDriver::is_installed(), vec![handle(1), failed_handle(NULL_HANDLE, 5), ok()]);
    assert!(matches!(result, Err(Error::WinApi { context: "OpenServiceW", code: 5 })));
}

#[test]
fn is_installed_reports_a_missing_service_manager() {
    let (requests, result) = drive(MsrDriver::is_installed(), vec![failed_handle(NULL_HANDLE, 5)]);
    assert_eq!(requests.len(), 1);
    assert!(matches!(result, Err(Error::WinApi { context: "OpenSCManagerW", code: 5 })));
}

#[test]
fn start_treats_a_running_service_as_started() {
    let (requests, result) =
        drive(MsrDriver::start(), vec![handle(1), handle(2), failed(ERROR_SERVICE_ALREADY_RUNNING), ok(), ok()]);
    assert_eq!(
        requests,
        vec![
            Request::OpenManager { access: SC_MANAGER_CONNECT },
            Request::OpenService { manager: 1, access: SERVICE_START },
            Request::StartService { service: 2 },
            Request::CloseServiceHandle { handle: 2 },
            Request::CloseServiceHandle { handle: 1 },
        ]
    );
    assert!(result.is_ok());
}

#[test]
fn start_reports_a_failed_start_after_closing() {
    let (requests, result) = drive(MsrDriver::start(), vec![handle(1), handle(2), failed(1058), ok(), ok()]);
    assert_eq!(requests.len(), 5);
    assert!(matches!(result, Err(Error::WinApi { context: "StartServiceW", code: 1058 })));
}

#[test]
fn start_reports_a_missing_service_as_not_installed() {
    let (requests, result) =
        drive(MsrDriver::start(), vec![handle(1), failed_handle(NULL_HANDLE, ERROR_SERVICE_DOES_NOT_EXIST), ok()]);
    assert_eq!(requests.last(), Some(&Request::CloseServiceHandle { handle: 1 }));
    assert!(matches!(result, Err(Error::NotInstalled)));
}

#[test]
fn uninstall_service_stops_deletes_closes_and_removes_binary() {
    let (requests, result) = drive(
        MsrDriver::uninstall_service(),
        vec![handle(1), handle(2), failed(1062), ok(), ok(), ok(), io_ok()],
    );
    assert_eq!(
        requests,
        vec![
            Request::OpenManager { access: SC_MANAGER_ALL_ACCESS },
            Request::OpenService { manager: 1, access: SERVICE_ALL_ACCESS },
            Request::StopService { service: 2 },
            Request::DeleteService { service: 2 },
            Request::CloseServiceHandle { handle: 2 },
            Request::CloseServiceHandle { handle: 1 },
            Request::RemoveDriverFile,
        ]
    );
    assert!(result.is_ok());
}

#[test]
fn uninstall_service_of_a_missing_service_only_removes_binary() {
    let (requests, result) = drive(
        MsrDriver::uninstall_service(),
        vec![handle(1), failed_handle(NULL_HANDLE, ERROR_SERVICE_DOES_NOT_EXIST), ok(), io_ok()],
    );
    assert_eq!(requests.last(), Some(&Request::RemoveDriverFile));
    assert!(result.is_ok());
}

#[test]
fn uninstall_service_reports_a_failed_delete_and_keeps_binary() {
    let (requests, result) =
        drive(MsrDriver::uninstall_service(), vec![handle(1), handle(2), ok(), failed(1072), ok(), ok()]);
    assert!(!requests.contains(&Request::RemoveDriverFile));
    assert_eq!(requests.last(), Some(&Request::CloseServiceHandle { handle: 1 }));
    assert!(matches!(result, Err(Error::WinApi { context: "DeleteService", code: 1072 })));
}

#[test]
fn uninstall_service_reports_an_open_failure() {
    let (requests, result) =
        drive(MsrDriver::uninstall_service(), vec![handle(1), failed_handle(NULL_HANDLE, 5), ok()]);
    assert!(!requests.contains(&Request::RemoveDriverFile));
    assert!(matches!(result, Err(Error::WinApi { context: "OpenServiceW", code: 5 })));
}

#[test]
fn uninstall_closes_the_device_first_and_ignores_its_failure() {
    let mut driver = open_driver(7);
    let (requests, result) = drive(
        driver.uninstall(),
        vec![failed(6), handle(1), failed_handle(NULL_HANDLE, ERROR_SERVICE_DOES_NOT_EXIST), ok(), io_ok()],
    );
    assert_eq!(requests[0], Request::CloseDevice { device: 7 });
    assert_eq!(requests[1], Request::OpenManager { access: SC_MANAGER_ALL_ACCESS });
    assert!(result.is_ok());
    let (_, read) = drive(driver.read_msr(0x611, 0), vec![]);
    assert!(matches!(read, Err(Error::DeviceClosed)));
}

// ---------------------------------------------------------------------------
// Deployment and installation.
// ---------------------------------------------------------------------------

#[test]
fn needs_update_is_false_when_nothing_is_deployed() {
    let (requests, result) =
        drive(MsrDriver::needs_update(b"driver"), vec![Reply::Driver(DeployedDriver::Missing)]);
    assert_eq!(requests, vec![Request::ReadDeployedDriver]);
    assert!(!result.unwrap());
}

#[test]
fn needs_update_compares_contents() {
    let (_, same) = drive(
        MsrDriver::needs_update(b"driver v2"),
        vec![Reply::Driver(DeployedDriver::Contents(b"driver v2".to_vec()))],
    );
    assert!(!same.unwrap());
    let (_, different) = drive(
        MsrDriver::needs_update(b"driver v2"),
        vec![Reply::Driver(DeployedDriver::Contents(b"driver v1".to_vec()))],
    );
    assert!(different.unwrap());
}

#[test]
fn needs_update_reports_unreadable_binary() {
    let err = std::io::Error::new(std::io::ErrorKind::PermissionDenied, "denied");
    let (_, result) =
        drive(MsrDriver::needs_update(b"driver"), vec![Reply::Driver(DeployedDriver::Unreadable(err))]);
    match result {
        Err(Error::Io(e)) => assert_eq!(e.kind(), std::io::ErrorKind::PermissionDenied),
        _ => panic!("expected an I/O error"),
    }
}

#[test]
fn deploy_writes_only_a_missing_binary_unless_forced() {
    let (requests, result) = drive(DeployTask::begin(false), vec![io_ok(), Reply::Exists(true)]);
    assert_eq!(requests, vec![Request::CreateDriverDirectory, Request::CheckDriverFile]);
    assert!(result.is_ok());
    let (requests, _) = drive(DeployTask::begin(false), vec![io_ok(), Reply::Exists(false), io_ok()]);
    assert_eq!(requests.last(), Some(&Request::WriteDriverFile));
    let (requests, _) = drive(DeployTask::begin(true), vec![io_ok(), io_ok()]);
    assert_eq!(requests, vec![Request::CreateDriverDirectory, Request::WriteDriverFile]);
}

#[test]
fn deploy_reports_write_failure() {
    let err = std::io::Error::new(std::io::ErrorKind::Other, "disk full");
    let (_, result) = drive(DeployTask::begin(true), vec![io_ok(), Reply::Io(Err(err))]);
    assert!(matches!(result, Err(Error::Io(_))));
}

#[test]
fn install_fresh_deploys_creates_and_starts() {
    let (requests, result) = drive(
        MsrDriver::install(b"image"),
        vec![
            Reply::Driver(DeployedDriver::Missing),
            io_ok(),
            Reply::Exists(false),
            io_ok(),
            handle(1),
            handle(2),
            ok(),
            ok(),
            handle(3),
            handle(4),
            ok(),
            ok(),
            ok(),
        ],
    );
    assert_eq!(
        requests,
        vec![
            Request::ReadDeployedDriver,
            Request::CreateDriverDirectory,
            Request::CheckDriverFile,
            Request::WriteDriverFile,
            Request::OpenManager { access: SC_MANAGER_ALL_ACCESS },
            Request::CreateService { manager: 1 },
            Request::CloseServiceHandle { handle: 2 },
            Request::CloseServiceHandle { handle: 1 },
            Request::OpenManager { access: SC_MANAGER_CONNECT },
            Request::OpenService { manager: 3, access: SERVICE_START },
            Request::StartService { service: 4 },
            Request::CloseServiceHandle { handle: 4 },
            Request::CloseServiceHandle { handle: 3 },
        ]
    );
    assert!(result.is_ok());
}

#[test]
fn install_outdated_stops_service_and_rewrites_binary() {
    let (requests, result) = drive(
        MsrDriver::install(b"new image"),
        vec![
            Reply::Driver(DeployedDriver::Contents(b"old image".to_vec())),
            handle(1),
            handle(2),
            ok(),
            ok(),
            ok(),
            io_ok(),
            io_ok(),
            failed_handle(NULL_HANDLE, 5),
        ],
    );
    assert_eq!(
        requests[..8].to_vec(),
        vec![
            Request::ReadDeployedDriver,
            Request::OpenManager { access: SC_MANAGER_ALL_ACCESS },
            Request::OpenService { manager: 1, access: SERVICE_ALL_ACCESS },
            Request::StopService { service: 2 },
            Request::CloseServiceHandle { handle: 2 },
            Request::CloseServiceHandle { handle: 1 },
            Request::CreateDriverDirectory,
            Request::WriteDriverFile,
        ]
    );
    assert!(matches!(result, Err(Error::WinApi { context: "OpenSCManagerW", code: 5 })));
}

#[test]
fn install_reconfigures_an_existing_service() {
    let (requests, result) = drive(
        MsrDriver::install(b"image"),
        vec![
            Reply::Driver(DeployedDriver::Contents(b"image".to_vec())),
            io_ok(),
            Reply::Exists(true),
            handle(1),
            failed_handle(NULL_HANDLE, ERROR_SERVICE_EXISTS),
            handle(2),
            ok(),
            ok(),
            ok(),
            handle(3),
            handle(4),
            failed(ERROR_SERVICE_ALREADY_RUNNING),
            ok(),
            ok(),
        ],
    );
    assert_eq!(requests[4], Request::CreateService { manager: 1 });
    assert_eq!(requests[5], Request::OpenService { manager: 1, access: SERVICE_ALL_ACCESS });
    assert_eq!(requests[6], Request::ConfigureAutoStart { service: 2 });
    assert_eq!(requests[7], Request::CloseServiceHandle { handle: 2 });
    assert_eq!(requests[8], Request::CloseServiceHandle { handle: 1 });
    assert!(result.is_ok());
}

#[test]
fn install_treats_already_exists_like_service_exists() {
    let (requests, _) = drive(
        MsrDriver::install(b"image"),
        vec![
            Reply::Driver(DeployedDriver::Missing),
            io_ok(),
            Reply::Exists(true),
            handle(1),
            failed_handle(NULL_HANDLE, ERROR_ALREADY_EXISTS),
            handle(2),
            failed(87),
        ],
    );
    assert_eq!(requests.last(), Some(&Request::ConfigureAutoStart { service: 2 }));
}

#[test]
fn install_reports_failed_reconfiguration_at_once() {
    let (requests, result) = drive(
        MsrDriver::install(b"image"),
        vec![
            Reply::Driver(DeployedDriver::Missing),
            io_ok(),
            Reply::Exists(true),
            handle(1),
            failed_handle(NULL_HANDLE, ERROR_SERVICE_EXISTS),
            handle(2),
            failed(87),
        ],
    );
    assert_eq!(requests.len(), 7);
    assert!(matches!(result, Err(Error::WinApi { context: "ChangeServiceConfigW", code: 87 })));
}

#[test]
fn install_reports_the_error_read_after_closing_when_existing_service_cannot_open() {
    let (requests, result) = drive(
        MsrDriver::install(b"image"),
        vec![
            Reply::Driver(DeployedDriver::Missing),
            io_ok(),
            Reply::Exists(true),
            handle(1),
            failed_handle(NULL_HANDLE, ERROR_SERVICE_EXISTS),
            failed_handle(NULL_HANDLE, 5),
            Reply::Status { ok: true, last_error: 1234 },
        ],
    );
    assert_eq!(requests.last(), Some(&Request::CloseServiceHandle { handle: 1 }));
    assert!(matches!(result, Err(Error::WinApi { context: "OpenServiceW", code: 1234 })));
}

#[test]
fn install_reports_create_failure_after_closing_manager() {
    let (requests, result) = drive(
        MsrDriver::install(b"image"),
        vec![
            Reply::Driver(DeployedDriver::Missing),
            io_ok(),
            Reply::Exists(true),
            handle(1),
            failed_handle(NULL_HANDLE, 5),
            ok(),
        ],
    );
    assert_eq!(requests.last(), Some(&Request::CloseServiceHandle { handle: 1 }));
    assert!(matches!(result, Err(Error::WinApi { context: "CreateServiceW", code: 5 })));
}

#[test]
fn install_stops_on_unreadable_deployment() {
    let err = std::io::Error::new(std::io::ErrorKind::Other, "bad sector");
    let (requests, result) =
        drive(MsrDriver::install(b"image"), vec![Reply::Driver(DeployedDriver::Unreadable(err))]);
    assert_eq!(requests, vec![Request::ReadDeployedDriver]);
    assert!(matches!(result, Err(Error::Io(_))));
}

#[test]
fn stop_service_ignores_every_failure() {
    let (requests, result) = drive(StopServiceTask::begin(), vec![failed_handle(NULL_HANDLE, 5)]);
    assert_eq!(requests.len(), 1);
    assert!(result.is_ok());
    let (requests, result) = drive(StopServiceTask::begin(), vec![handle(1), failed_handle(NULL_HANDLE, 5), ok()]);
    assert_eq!(requests.last(), Some(&Request::CloseServiceHandle { handle: 1 }));
    assert!(result.is_ok());
}

#[test]
fn install_fails_when_the_created_service_does_not_start() {
    let (requests, result) = drive(
        MsrDriver::install(b"image"),
        vec![
            Reply::Driver(DeployedDriver::Missing),
            io_ok(),
            Reply::Exists(true),
            handle(1),
            handle(2),
            ok(),
            ok(),
            handle(3),
            handle(4),
            failed(1058),
            ok(),
            ok(),
        ],
    );
    assert_eq!(requests[4], Request::CreateService { manager: 1 });
    assert_eq!(requests[9], Request::StartService { service: 4 });
    assert!(matches!(result, Err(Error::WinApi { context: "StartServiceW", code: 1058 })));
}
