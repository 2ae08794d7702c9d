use vstd::pervasive::{arbitrary, unreached};
use vstd::prelude::*;

use crate::calls::{
    answers, win_api, Reply, Request, Step, ERROR_FILE_NOT_FOUND, ERROR_PATH_NOT_FOUND,
    INVALID_HANDLE_VALUE, MSR_VALUE_SIZE,
};
use crate::error::{Error, Result};

verus! {

/// The driver's device handle: a raw handle value, `INVALID_HANDLE_VALUE`
/// once closed.
pub struct DeviceHandle {
    pub handle: isize,
}

impl DeviceHandle {
    /// The raw handle value.
    pub open spec fn raw(&self) -> isize {
        self.handle
    }

    /// Whether the handle has been closed (or never referred to a device).
    pub open spec fn is_closed(&self) -> bool {
        self.handle == INVALID_HANDLE_VALUE
    }

    /// The raw handle value.
    pub fn raw_handle(&self) -> (h: isize)
        ensures
            h == self.raw(),
    {
        self.handle
    }
}

/// What opening the device gives, from the handle `CreateFileW` returned
/// and the error code read after it.
pub open spec fn open_outcome(raw: isize, last_error: u32) -> Result<DeviceHandle> {
    if raw == INVALID_HANDLE_VALUE {
        if last_error == ERROR_FILE_NOT_FOUND || last_error == ERROR_PATH_NOT_FOUND {
            Err(Error::NotInstalled)
        } else {
            Err(win_api("CreateFileW", last_error))
        }
    } else {
        Ok(DeviceHandle { handle: raw })
    }
}

/// Decides the result of opening the device: a missing device (file or
/// path not found) means the driver is not installed; any other failure is
/// reported with its code; otherwise the handle is kept.
pub fn device_opened(raw: isize, last_error: u32) -> (r: Result<DeviceHandle>)
    ensures
        r == open_outcome(raw, last_error),
{
    if raw == INVALID_HANDLE_VALUE {
        if last_error == ERROR_FILE_NOT_FOUND || last_error == ERROR_PATH_NOT_FOUND {
            return Err(Error::NotInstalled);
        }
        return Err(Error::WinApi { context: "CreateFileW", code: last_error });
    }
    Ok(DeviceHandle { handle: raw })
}

/// What a register read gives, from what `DeviceIoControl` reported.
pub open spec fn transfer_outcome(ok: bool, last_error: u32, value: u64, bytes_returned: u32) -> Result<u64> {
    if !ok {
        Err(win_api("DeviceIoControl", last_error))
    } else if bytes_returned != MSR_VALUE_SIZE {
        Err(Error::DriverProtocol { context: "unexpected output size" })
    } else {
        Ok(value)
    }
}

/// Decides the result of a register read: the call must succeed and
/// deliver exactly one `u64`.
pub fn msr_transferred(ok: bool, last_error: u32, value: u64, bytes_returned: u32) -> (r: Result<u64>)
    ensures
        r == transfer_outcome(ok, last_error, value, bytes_returned),
{
    if !ok {
        return Err(Error::WinApi { context: "DeviceIoControl", code: last_error });
    }
    if bytes_returned != MSR_VALUE_SIZE {
        return Err(Error::DriverProtocol { context: "unexpected output size" });
    }
    Ok(value)
}

/// What closing the device gives, from what `CloseHandle` reported.
pub open spec fn close_outcome(ok: bool, last_error: u32) -> Result<()> {
    if ok {
        Ok(())
    } else {
        Err(win_api("CloseHandle", last_error))
    }
}

/// A register read in progress.
pub enum ReadMsrTask {
    Reading { device: isize, msr_register: u32, cpu_index: u32 },
    Finished,
}

impl ReadMsrTask {
    /// The request whose reply the task awaits.
    pub open spec fn pending(self) -> Option<Request> {
        match self {
            ReadMsrTask::Reading { device, msr_register, cpu_index } => Some(
                Request::ReadMsr { device, msr_register, cpu_index },
            ),
            ReadMsrTask::Finished => None,
        }
    }

    /// The task after the reply to its pending request, and what it asks
    /// for next: another call, or its end with a result.
    pub open spec fn step(self, reply: Reply) -> (ReadMsrTask, Step<u64>) {
        match reply {
            Reply::Transfer { ok, last_error, value, bytes_returned } => (
                ReadMsrTask::Finished,
                Step::Done(transfer_outcome(ok, last_error, value, bytes_returned)),
            ),
            _ => arbitrary(),
        }
    }

    /// Takes the reply to the read request and gives the register value.
    pub fn resume(self, reply: Reply) -> (r: (ReadMsrTask, Step<u64>))
        requires
            self.pending() matches Some(req) && answers(req, reply),
        ensures
            r == self.step(reply),
    {
        match reply {
            Reply::Transfer { ok, last_error, value, bytes_returned } => (
                ReadMsrTask::Finished,
                Step::Done(msr_transferred(ok, last_error, value, bytes_returned)),
            ),
            _ => unreached(),
        }
    }
}

/// Closing the device in progress.
pub enum CloseTask {
    Closing { device: isize },
    Finished,
}

impl CloseTask {
    /// The request whose reply the task awaits; `None` once it has ended.
    pub open spec fn pending(self) -> Option<Request> {
        match self {
            CloseTask::Closing { device } => Some(Request::CloseDevice { device }),
            CloseTask::Finished => None,
        }
    }

    /// The task after the reply to its pending request, and what it asks
    /// for next: another call, or its end with a result.
    pub open spec fn step(self, reply: Reply) -> (CloseTask, Step<()>) {
        match reply {
            Reply::Status { ok, last_error } => (CloseTask::Finished, Step::Done(close_outcome(ok, last_error))),
            _ => arbitrary(),
        }
    }

    /// Takes the reply to `CloseHandle`.
    pub fn resume(self, reply: Reply) -> (r: (CloseTask, Step<()>))
        requires
            self.pending() matches Some(req) && answers(req, reply),
        ensures
            r == self.step(reply),
    {
        match reply {
            Reply::Status { ok, last_error } => {
                let outcome = if ok {
                    Ok(())
                } else {
                    Err(Error::WinApi { context: "CloseHandle", code: last_error })
                };
                (CloseTask::Finished, Step::Done(outcome))
            },
            _ => unreached(),
        }
    }
}

impl DeviceHandle {
    /// How a register read starts: a closed handle fails at once with
    /// `DeviceClosed`; otherwise the read is requested.
    pub open spec fn read_start(self, msr_register: u32, cpu_index: u32) -> (ReadMsrTask, Step<u64>) {
        if self.is_closed() {
            (ReadMsrTask::Finished, Step::Done(Err(Error::DeviceClosed)))
        } else {
            (
                ReadMsrTask::Reading { device: self.handle, msr_register, cpu_index },
                Step::Call(Request::ReadMsr { device: self.handle, msr_register, cpu_index }),
            )
        }
    }

    /// How closing starts, and the handle afterwards: a closed handle is
    /// left alone and the close succeeds at once; otherwise `CloseHandle`
    /// is requested and the handle counts as closed from then on, whatever
    /// the call reports.
    pub open spec fn close_start(self) -> (DeviceHandle, (CloseTask, Step<()>)) {
        if self.is_closed() {
            (self, (CloseTask::Finished, Step::Done(Ok(()))))
        } else {
            (
                DeviceHandle { handle: INVALID_HANDLE_VALUE },
                (CloseTask::Closing { device: self.handle }, Step::Call(Request::CloseDevice { device: self.handle })),
            )
        }
    }

    /// Starts a register read.
    pub fn read_msr(&self, msr_register: u32, cpu_index: u32) -> (r: (ReadMsrTask, Step<u64>))
        ensures
            r == self.read_start(msr_register, cpu_index),
    {
        if self.handle == INVALID_HANDLE_VALUE {
            return (ReadMsrTask::Finished, Step::Done(Err(Error::DeviceClosed)));
        }
        let req = Request::ReadMsr { device: self.handle, msr_register, cpu_index };
        (ReadMsrTask::Reading { device: self.handle, msr_register, cpu_index }, Step::Call(req))
    }

    /// Starts closing the handle.
    pub fn close(&mut self) -> (r: (CloseTask, Step<()>))
        ensures
            (*final(self), r) == old(self).close_start(),
    {
        if self.handle == INVALID_HANDLE_VALUE {
            return (CloseTask::Finished, Step::Done(Ok(())));
        }
        let device: isize = self.handle;
        self.handle = INVALID_HANDLE_VALUE;
        (CloseTask::Closing { device }, Step::Call(Request::CloseDevice { device }))
    }
}

} // verus!
