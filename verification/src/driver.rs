use vstd::pervasive::{arbitrary, unreached};
use vstd::multiset::Multiset;
use vstd::prelude::*;

use crate::calls::{answers, Reply, Request, Step, INVALID_HANDLE_VALUE, SC_MANAGER_CONNECT};
use crate::deploy::NeedsUpdateTask;
use crate::device::{device_opened, open_outcome, CloseTask, DeviceHandle, ReadMsrTask};
use crate::error::{Error, Result};
use crate::install::InstallTask;
use crate::service::{IsInstalledTask, StartTask, UninstallServiceTask};

verus! {

/// Handle to the Windows MSR driver device.
pub struct MsrDriver {
    pub device: DeviceHandle,
}

/// Opening the driver. When the device is missing, the service is queried
/// to tell a driver that is not installed from one that is not running.
pub enum NewTask {
    Opening,
    Querying(IsInstalledTask),
    Finished,
}

/// What the service query's result means for opening the driver: the
/// device is missing, so an existing service is one that is not running.
pub open spec fn missing_device_outcome(installed: Result<bool>) -> Result<MsrDriver> {
    match installed {
        Ok(true) => Err(Error::NotRunning),
        Ok(false) => Err(Error::NotInstalled),
        Err(e) => Err(e),
    }
}

impl NewTask {
    /// The request whose reply the task awaits; `None` once it has ended.
    pub open spec fn pending(self) -> Option<Request> {
        match self {
            NewTask::Opening => Some(Request::OpenDevice),
            NewTask::Querying(t) => t.pending(),
            NewTask::Finished => None,
        }
    }

    /// The service-control handles the task holds open.
    pub open spec fn held(self) -> Multiset<isize> {
        match self {
            NewTask::Querying(t) => t.held(),
            _ => Multiset::empty(),
        }
    }

    /// The task after the reply to its pending request, and what it asks
    /// for next: another call, or its end with a result.
    pub open spec fn step(self, reply: Reply) -> (NewTask, Step<MsrDriver>) {
        match (self, reply) {
            (NewTask::Opening, Reply::Handle { raw, last_error }) => match open_outcome(raw, last_error) {
                Ok(device) => (NewTask::Finished, Step::Done(Ok(MsrDriver { device }))),
                Err(Error::NotInstalled) => (
                    NewTask::Querying(IsInstalledTask::start().0),
                    Step::Call(Request::OpenManager { access: SC_MANAGER_CONNECT }),
                ),
                Err(e) => (NewTask::Finished, Step::Done(Err(e))),
            },
            (NewTask::Querying(t), reply) => {
                let (t2, s) = t.step(reply);
                match s {
                    Step::Call(q) => (NewTask::Querying(t2), Step::Call(q)),
                    Step::Done(installed) => (NewTask::Finished, Step::Done(missing_device_outcome(installed))),
                }
            },
            _ => arbitrary(),
        }
    }

    /// Takes the reply to the pending request and says what comes next.
    pub fn resume(self, reply: Reply) -> (r: (NewTask, Step<MsrDriver>))
        requires
            self.pending() matches Some(req) && answers(req, reply),
        ensures
            r == self.step(reply),
            r.1 matches Step::Call(q) ==> r.0.pending() == Some(q),
            r.1 is Done ==> r.0.pending() is None,
    {
        match self {
            NewTask::Opening => match reply {
                Reply::Handle { raw, last_error } => match device_opened(raw, last_error) {
                    Ok(device) => (NewTask::Finished, Step::Done(Ok(MsrDriver { device }))),
                    Err(Error::NotInstalled) => {
                        let (t, s) = IsInstalledTask::begin();
                        match s {
                            Step::Call(q) => (NewTask::Querying(t), Step::Call(q)),
                            Step::Done(_) => unreached(),
                        }
                    },
                    Err(e) => (NewTask::Finished, Step::Done(Err(e))),
                },
                _ => unreached(),
            },
            NewTask::Querying(t) => {
                let (t2, s) = t.resume(reply);
                match s {
                    Step::Call(q) => (NewTask::Querying(t2), Step::Call(q)),
                    Step::Done(Ok(true)) => (NewTask::Finished, Step::Done(Err(Error::NotRunning))),
                    Step::Done(Ok(false)) => (NewTask::Finished, Step::Done(Err(Error::NotInstalled))),
                    Step::Done(Err(e)) => (NewTask::Finished, Step::Done(Err(e))),
                }
            },
            NewTask::Finished => unreached(),
        }
    }
}

/// Uninstalling from a driver instance: its device handle is closed
/// (ignoring the outcome), then the service is removed.
pub enum UninstallTask {
    Closing { device: isize },
    Removing(UninstallServiceTask),
    Finished,
}

impl UninstallTask {
    /// The request whose reply the task awaits; `None` once it has ended.
    pub open spec fn pending(self) -> Option<Request> {
        match self {
            UninstallTask::Closing { device } => Some(Request::CloseDevice { device }),
            UninstallTask::Removing(t) => t.pending(),
            UninstallTask::Finished => None,
        }
    }

    /// The service-control handles the task holds open.
    pub open spec fn held(self) -> Multiset<isize> {
        match self {
            UninstallTask::Removing(t) => t.held(),
            _ => Multiset::empty(),
        }
    }

    /// The task after the reply to its pending request, and what it asks
    /// for next: another call, or its end with a result.
    pub open spec fn step(self, reply: Reply) -> (UninstallTask, Step<()>) {
        match (self, reply) {
            (UninstallTask::Closing { .. }, Reply::Status { .. }) => {
                let (t, s) = UninstallServiceTask::start();
                (UninstallTask::Removing(t), s)
            },
            (UninstallTask::Removing(t), reply) => {
                let (t2, s) = t.step(reply);
                match s {
                    Step::Call(q) => (UninstallTask::Removing(t2), Step::Call(q)),
                    Step::Done(r) => (UninstallTask::Finished, Step::Done(r)),
                }
            },
            _ => arbitrary(),
        }
    }

    /// Takes the reply to the pending request and says what comes next.
    pub fn resume(self, reply: Reply) -> (r: (UninstallTask, Step<()>))
        requires
            self.pending() matches Some(req) && answers(req, reply),
        ensures
            r == self.step(reply),
            r.1 matches Step::Call(q) ==> r.0.pending() == Some(q),
            r.1 is Done ==> r.0.pending() is None,
    {
        match self {
            UninstallTask::Closing { .. } => match reply {
                Reply::Status { .. } => {
                    let (t, s) = UninstallServiceTask::begin();
                    (UninstallTask::Removing(t), s)
                },
                _ => unreached(),
            },
            UninstallTask::Removing(t) => {
                let (t2, s) = t.resume(reply);
                match s {
                    Step::Call(q) => (UninstallTask::Removing(t2), Step::Call(q)),
                    Step::Done(r) => (UninstallTask::Finished, Step::Done(r)),
                }
            },
            UninstallTask::Finished => unreached(),
        }
    }
}

impl MsrDriver {
    /// Opens the device handle. The driver must already be installed and
    /// running; nothing is installed or started here.
    pub fn new() -> (r: (NewTask, Step<MsrDriver>))
        ensures
            r == (NewTask::Opening, Step::<MsrDriver>::Call(Request::OpenDevice)),
    {
        (NewTask::Opening, Step::Call(Request::OpenDevice))
    }

    /// Installs the driver service from the bundled driver image and starts
    /// it (requires Administrator rights).
    pub fn install(bundled: &[u8]) -> (r: (InstallTask, Step<()>))
        ensures
            r == InstallTask::start(bundled@),
    {
        InstallTask::begin(bundled)
    }

    /// Tells whether the driver service exists, without requiring
    /// Administrator rights.
    pub fn is_installed() -> (r: (IsInstalledTask, Step<bool>))
        ensures
            r == IsInstalledTask::start(),
    {
        IsInstalledTask::begin()
    }

    /// Tells whether the deployed driver binary differs from the bundled
    /// image `bundled` (compared by content digest).
    pub fn needs_update(bundled: &[u8]) -> (r: (NeedsUpdateTask, Step<bool>))
        ensures
            r == NeedsUpdateTask::start(bundled@),
    {
        NeedsUpdateTask::begin(bundled)
    }

    /// Starts an already-installed, stopped driver service (requires
    /// Administrator rights).
    pub fn start() -> (r: (StartTask, Step<()>))
        ensures
            r == StartTask::start(),
    {
        StartTask::begin()
    }

    /// Closes the driver handle.
    pub fn close(&mut self) -> (r: (CloseTask, Step<()>))
        ensures
            (final(self).device, r) == old(self).device.close_start(),
    {
        self.device.close()
    }

    /// Uninstalls the driver service (requires Administrator rights).
    pub fn uninstall_service() -> (r: (UninstallServiceTask, Step<()>))
        ensures
            r == UninstallServiceTask::start(),
    {
        UninstallServiceTask::begin()
    }

    /// How uninstalling from a driver instance starts, and the driver
    /// afterwards: its device handle is closed first (if open), whatever
    /// that reports, then the service is removed.
    pub open spec fn uninstall_start(self) -> (MsrDriver, (UninstallTask, Step<()>)) {
        if self.device.is_closed() {
            let (t, s) = UninstallServiceTask::start();
            (self, (UninstallTask::Removing(t), s))
        } else {
            (
                MsrDriver { device: DeviceHandle { handle: INVALID_HANDLE_VALUE } },
                (
                    UninstallTask::Closing { device: self.device.handle },
                    Step::Call(Request::CloseDevice { device: self.device.handle }),
                ),
            )
        }
    }

    /// Uninstalls the driver service from a running driver instance
    /// (requires Administrator rights).
    pub fn uninstall(&mut self) -> (r: (UninstallTask, Step<()>))
        ensures
            (*final(self), r) == old(self).uninstall_start(),
    {
        let (_closing, s) = self.device.close();
        match s {
            Step::Call(Request::CloseDevice { device }) => (UninstallTask::Closing { device }, s),
            _ => {
                let (t, s2) = UninstallServiceTask::begin();
                (UninstallTask::Removing(t), s2)
            },
        }
    }

    /// Reads a model-specific register on the CPU with the given index.
    pub fn read_msr(&self, msr_register: u32, cpu_index: u32) -> (r: (ReadMsrTask, Step<u64>))
        ensures
            r == self.device.read_start(msr_register, cpu_index),
    {
        self.device.read_msr(msr_register, cpu_index)
    }
}

} // verus!
