//! Decision logic of a Windows MSR driver client, written as verified
//! state machines: every operation names the system call it needs next
//! and decides, from what that call reported, how to go on.

pub mod calls;
pub mod deploy;
pub mod device;
pub mod digest;
pub mod driver;
pub mod error;
pub mod install;
pub mod laws;
pub mod service;

pub use crate::calls::{
    DeployedDriver, Reply, Request, Step, ERROR_ALREADY_EXISTS, ERROR_FILE_NOT_FOUND,
    ERROR_PATH_NOT_FOUND, ERROR_SERVICE_ALREADY_RUNNING, ERROR_SERVICE_DOES_NOT_EXIST,
    ERROR_SERVICE_EXISTS, INVALID_HANDLE_VALUE, MSR_VALUE_SIZE, NULL_HANDLE, SC_MANAGER_ALL_ACCESS,
    SC_MANAGER_CONNECT, SERVICE_ALL_ACCESS, SERVICE_QUERY_STATUS, SERVICE_START,
};
pub use crate::deploy::{DeployTask, NeedsUpdateTask};
pub use crate::device::{CloseTask, DeviceHandle, ReadMsrTask};
pub use crate::digest::hash_bytes;
pub use crate::driver::{MsrDriver, NewTask, UninstallTask};
pub use crate::error::{Error, Result};
pub use crate::install::InstallTask;
pub use crate::service::{IsInstalledTask, StartTask, StopServiceTask, UninstallServiceTask};
