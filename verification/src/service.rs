use vstd::pervasive::{arbitrary, unreached};
use vstd::multiset::Multiset;
use vstd::prelude::*;

use crate::calls::{
    answers, releasing, win_api, Reply, Request, Step, ERROR_ALREADY_EXISTS,
    ERROR_SERVICE_ALREADY_RUNNING, ERROR_SERVICE_DOES_NOT_EXIST, ERROR_SERVICE_EXISTS, NULL_HANDLE,
    SC_MANAGER_ALL_ACCESS, SC_MANAGER_CONNECT, SERVICE_ALL_ACCESS, SERVICE_QUERY_STATUS,
    SERVICE_START,
};
use crate::error::{Error, Result};

verus! {

// ---------------------------------------------------------------------------
// Whether the driver service exists.
// ---------------------------------------------------------------------------

/// Asking whether the driver service exists. Only connect access to the
/// service control manager and query access to the service are requested.
pub enum IsInstalledTask {
    Connecting,
    Opening { manager: isize },
    Releasing { handle: isize, then: Option<isize>, outcome: Result<bool> },
    Finished,
}

impl IsInstalledTask {
    /// The request whose reply the task awaits; `None` once it has ended.
    pub open spec fn pending(self) -> Option<Request> {
        match self {
            IsInstalledTask::Connecting => Some(Request::OpenManager { access: SC_MANAGER_CONNECT }),
            IsInstalledTask::Opening { manager } => Some(
                Request::OpenService { manager, access: SERVICE_QUERY_STATUS },
            ),
            IsInstalledTask::Releasing { handle, .. } => Some(Request::CloseServiceHandle { handle }),
            IsInstalledTask::Finished => None,
        }
    }

    /// The service-control handles the task holds open.
    pub open spec fn held(self) -> Multiset<isize> {
        match self {
            IsInstalledTask::Opening { manager } => Multiset::singleton(manager),
            IsInstalledTask::Releasing { handle, then, .. } => releasing(handle, then),
            _ => Multiset::empty(),
        }
    }

    /// The task as it begins, and its first request.
    pub open spec fn start() -> (IsInstalledTask, Step<bool>) {
        (
            IsInstalledTask::Connecting,
            Step::Call(Request::OpenManager { access: SC_MANAGER_CONNECT }),
        )
    }

    /// The task after the reply to its pending request, and what it asks
    /// for next: another call, or its end with a result.
    pub open spec fn step(self, reply: Reply) -> (IsInstalledTask, Step<bool>) {
        match (self, reply) {
            (IsInstalledTask::Connecting, Reply::Handle { raw, last_error }) => if raw == NULL_HANDLE {
                (IsInstalledTask::Finished, Step::Done(Err(win_api("OpenSCManagerW", last_error))))
            } else {
                (
                    IsInstalledTask::Opening { manager: raw },
                    Step::Call(Request::OpenService { manager: raw, access: SERVICE_QUERY_STATUS }),
                )
            },
            (IsInstalledTask::Opening { manager }, Reply::Handle { raw, last_error }) => if raw
                == NULL_HANDLE {
                let outcome = if last_error == ERROR_SERVICE_DOES_NOT_EXIST {
                    Ok(false)
                } else {
                    Err(win_api("OpenServiceW", last_error))
                };
                (
                    IsInstalledTask::Releasing { handle: manager, then: None, outcome },
                    Step::Call(Request::CloseServiceHandle { handle: manager }),
                )
            } else {
                (
                    IsInstalledTask::Releasing { handle: raw, then: Some(manager), outcome: Ok(true) },
                    Step::Call(Request::CloseServiceHandle { handle: raw }),
                )
            },
            (IsInstalledTask::Releasing { handle, then, outcome }, Reply::Status { .. }) => match then {
                Some(next) => (
                    IsInstalledTask::Releasing { handle: next, then: None, outcome },
                    Step::Call(Request::CloseServiceHandle { handle: next }),
                ),
                None => (IsInstalledTask::Finished, Step::Done(outcome)),
            },
            _ => arbitrary(),
        }
    }

    /// Starts the query: the service control manager is opened first.
    pub fn begin() -> (r: (IsInstalledTask, Step<bool>))
        ensures
            r == IsInstalledTask::start(),
            r.1 matches Step::Call(q) && r.0.pending() == Some(q),
    {
        (IsInstalledTask::Connecting, Step::Call(Request::OpenManager { access: SC_MANAGER_CONNECT }))
    }

    /// Takes the reply to the pending request and says what comes next.
    pub fn resume(self, reply: Reply) -> (r: (IsInstalledTask, Step<bool>))
        requires
            self.pending() matches Some(req) && answers(req, reply),
        ensures
            r == self.step(reply),
            r.1 matches Step::Call(q) ==> r.0.pending() == Some(q),
            r.1 is Done ==> r.0.pending() is None,
    {
        match (self, reply) {
            (IsInstalledTask::Connecting, Reply::Handle { raw, last_error }) => {
                if raw == NULL_HANDLE {
                    let e = Error::WinApi { context: "OpenSCManagerW", code: last_error };
                    return (IsInstalledTask::Finished, Step::Done(Err(e)));
                }
                let req = Request::OpenService { manager: raw, access: SERVICE_QUERY_STATUS };
                (IsInstalledTask::Opening { manager: raw }, Step::Call(req))
            },
            (IsInstalledTask::Opening { manager }, Reply::Handle { raw, last_error }) => {
                if raw == NULL_HANDLE {
                    let outcome = if last_error == ERROR_SERVICE_DOES_NOT_EXIST {
                        Ok(false)
                    } else {
                        Err(Error::WinApi { context: "OpenServiceW", code: last_error })
                    };
                    let req = Request::CloseServiceHandle { handle: manager };
                    return (IsInstalledTask::Releasing { handle: manager, then: None, outcome }, Step::Call(req));
                }
                let req = Request::CloseServiceHandle { handle: raw };
                (
                    IsInstalledTask::Releasing { handle: raw, then: Some(manager), outcome: Ok(true) },
                    Step::Call(req),
                )
            },
            (IsInstalledTask::Releasing { handle, then, outcome }, Reply::Status { .. }) => match then {
                Some(next) => {
                    let req = Request::CloseServiceHandle { handle: next };
                    (IsInstalledTask::Releasing { handle: next, then: None, outcome }, Step::Call(req))
                },
                None => (IsInstalledTask::Finished, Step::Done(outcome)),
            },
            _ => unreached(),
        }
    }
}


// ---------------------------------------------------------------------------
// Starting the driver service.
// ---------------------------------------------------------------------------

/// Starting an installed, stopped driver service. A service that is
/// already running counts as started.
pub enum StartTask {
    Connecting,
    Opening { manager: isize },
    Starting { manager: isize, service: isize },
    Releasing { handle: isize, then: Option<isize>, outcome: Result<()> },
    Finished,
}

/// What starting the service gives, from what `StartServiceW` reported.
pub open spec fn start_outcome(ok: bool, last_error: u32) -> Result<()> {
    if ok || last_error == ERROR_SERVICE_ALREADY_RUNNING {
        Ok(())
    } else {
        Err(win_api("StartServiceW", last_error))
    }
}

impl StartTask {
    /// The request whose reply the task awaits; `None` once it has ended.
    pub open spec fn pending(self) -> Option<Request> {
        match self {
            StartTask::Connecting => Some(Request::OpenManager { access: SC_MANAGER_CONNECT }),
            StartTask::Opening { manager } => Some(Request::OpenService { manager, access: SERVICE_START }),
            StartTask::Starting { service, .. } => Some(Request::StartService { service }),
            StartTask::Releasing { handle, .. } => Some(Request::CloseServiceHandle { handle }),
            StartTask::Finished => None,
        }
    }

    /// The service-control handles the task holds open.
    pub open spec fn held(self) -> Multiset<isize> {
        match self {
            StartTask::Opening { manager } => Multiset::singleton(manager),
            StartTask::Starting { manager, service } => Multiset::singleton(manager).insert(service),
            StartTask::Releasing { handle, then, .. } => releasing(handle, then),
            _ => Multiset::empty(),
        }
    }

    /// The task as it begins, and its first request.
    pub open spec fn start() -> (StartTask, Step<()>) {
        (StartTask::Connecting, Step::Call(Request::OpenManager { access: SC_MANAGER_CONNECT }))
    }

    /// The task after the reply to its pending request, and what it asks
    /// for next: another call, or its end with a result.
    pub open spec fn step(self, reply: Reply) -> (StartTask, Step<()>) {
        match (self, reply) {
            (StartTask::Connecting, Reply::Handle { raw, last_error }) => if raw == NULL_HANDLE {
                (StartTask::Finished, Step::Done(Err(win_api("OpenSCManagerW", last_error))))
            } else {
                (
                    StartTask::Opening { manager: raw },
                    Step::Call(Request::OpenService { manager: raw, access: SERVICE_START }),
                )
            },
            (StartTask::Opening { manager }, Reply::Handle { raw, last_error }) => if raw == NULL_HANDLE {
                let e = if last_error == ERROR_SERVICE_DOES_NOT_EXIST {
                    Error::NotInstalled
                } else {
                    win_api("OpenServiceW", last_error)
                };
                (
                    StartTask::Releasing { handle: manager, then: None, outcome: Err(e) },
                    Step::Call(Request::CloseServiceHandle { handle: manager }),
                )
            } else {
                (
                    StartTask::Starting { manager, service: raw },
                    Step::Call(Request::StartService { service: raw }),
                )
            },
            (StartTask::Starting { manager, service }, Reply::Status { ok, last_error }) => (
                StartTask::Releasing {
                    handle: service,
                    then: Some(manager),
                    outcome: start_outcome(ok, last_error),
                },
                Step::Call(Request::CloseServiceHandle { handle: service }),
            ),
            (StartTask::Releasing { handle, then, outcome }, Reply::Status { .. }) => match then {
                Some(next) => (
                    StartTask::Releasing { handle: next, then: None, outcome },
                    Step::Call(Request::CloseServiceHandle { handle: next }),
                ),
                None => (StartTask::Finished, Step::Done(outcome)),
            },
            _ => arbitrary(),
        }
    }

    /// Starts the operation: the service control manager is opened first.
    pub fn begin() -> (r: (StartTask, Step<()>))
        ensures
            r == StartTask::start(),
            r.1 matches Step::Call(q) && r.0.pending() == Some(q),
    {
        (StartTask::Connecting, Step::Call(Request::OpenManager { access: SC_MANAGER_CONNECT }))
    }

    /// Takes the reply to the pending request and says what comes next.
    pub fn resume(self, reply: Reply) -> (r: (StartTask, Step<()>))
        requires
            self.pending() matches Some(req) && answers(req, reply),
        ensures
            r == self.step(reply),
            r.1 matches Step::Call(q) ==> r.0.pending() == Some(q),
            r.1 is Done ==> r.0.pending() is None,
    {
        match (self, reply) {
            (StartTask::Connecting, Reply::Handle { raw, last_error }) => {
                if raw == NULL_HANDLE {
                    let e = Error::WinApi { context: "OpenSCManagerW", code: last_error };
                    return (StartTask::Finished, Step::Done(Err(e)));
                }
                let req = Request::OpenService { manager: raw, access: SERVICE_START };
                (StartTask::Opening { manager: raw }, Step::Call(req))
            },
            (StartTask::Opening { manager }, Reply::Handle { raw, last_error }) => {
                if raw == NULL_HANDLE {
                    let e = if last_error == ERROR_SERVICE_DOES_NOT_EXIST {
                        Error::NotInstalled
                    } else {
                        Error::WinApi { context: "OpenServiceW", code: last_error }
                    };
                    let req = Request::CloseServiceHandle { handle: manager };
                    return (StartTask::Releasing { handle: manager, then: None, outcome: Err(e) }, Step::Call(req));
                }
                (StartTask::Starting { manager, service: raw }, Step::Call(Request::StartService { service: raw }))
            },
            (StartTask::Starting { manager, service }, Reply::Status { ok, last_error }) => {
                let outcome = if ok || last_error == ERROR_SERVICE_ALREADY_RUNNING {
                    Ok(())
                } else {
                    Err(Error::WinApi { context: "StartServiceW", code: last_error })
                };
                let req = Request::CloseServiceHandle { handle: service };
                (StartTask::Releasing { handle: service, then: Some(manager), outcome }, Step::Call(req))
            },
            (StartTask::Releasing { handle, then, outcome }, Reply::Status { .. }) => match then {
                Some(next) => {
                    let req = Request::CloseServiceHandle { handle: next };
                    (StartTask::Releasing { handle: next, then: None, outcome }, Step::Call(req))
                },
                None => (StartTask::Finished, Step::Done(outcome)),
            },
            _ => unreached(),
        }
    }
}

// ---------------------------------------------------------------------------
// Stopping the driver service so its binary can be replaced.
// ---------------------------------------------------------------------------

/// Stopping the driver service. Every failure is ignored: the task always
/// ends with `Ok(())`.
pub enum StopServiceTask {
    Connecting,
    Opening { manager: isize },
    Stopping { manager: isize, service: isize },
    Releasing { handle: isize, then: Option<isize> },
    Finished,
}

impl StopServiceTask {
    /// The request whose reply the task awaits; `None` once it has ended.
    pub open spec fn pending(self) -> Option<Request> {
        match self {
            StopServiceTask::Connecting => Some(Request::OpenManager { access: SC_MANAGER_ALL_ACCESS }),
            StopServiceTask::Opening { manager } => Some(
                Request::OpenService { manager, access: SERVICE_ALL_ACCESS },
            ),
            StopServiceTask::Stopping { service, .. } => Some(Request::StopService { service }),
            StopServiceTask::Releasing { handle, .. } => Some(Request::CloseServiceHandle { handle }),
            StopServiceTask::Finished => None,
        }
    }

    /// The service-control handles the task holds open.
    pub open spec fn held(self) -> Multiset<isize> {
        match self {
            StopServiceTask::Opening { manager } => Multiset::singleton(manager),
            StopServiceTask::Stopping { manager, service } => Multiset::singleton(manager).insert(service),
            StopServiceTask::Releasing { handle, then } => releasing(handle, then),
            _ => Multiset::empty(),
        }
    }

    /// The task as it begins, and its first request.
    pub open spec fn start() -> (StopServiceTask, Step<()>) {
        (StopServiceTask::Connecting, Step::Call(Request::OpenManager { access: SC_MANAGER_ALL_ACCESS }))
    }

    /// The task after the reply to its pending request, and what it asks
    /// for next: another call, or its end with a result.
    pub open spec fn step(self, reply: Reply) -> (StopServiceTask, Step<()>) {
        match (self, reply) {
            (StopServiceTask::Connecting, Reply::Handle { raw, .. }) => if raw == NULL_HANDLE {
                (StopServiceTask::Finished, Step::Done(Ok(())))
            } else {
                (
                    StopServiceTask::Opening { manager: raw },
                    Step::Call(Request::OpenService { manager: raw, access: SERVICE_ALL_ACCESS }),
                )
            },
            (StopServiceTask::Opening { manager }, Reply::Handle { raw, .. }) => if raw == NULL_HANDLE {
                (
                    StopServiceTask::Releasing { handle: manager, then: None },
                    Step::Call(Request::CloseServiceHandle { handle: manager }),
                )
            } else {
                (
                    StopServiceTask::Stopping { manager, service: raw },
                    Step::Call(Request::StopService { service: raw }),
                )
            },
            (StopServiceTask::Stopping { manager, service }, Reply::Status { .. }) => (
                StopServiceTask::Releasing { handle: service, then: Some(manager) },
                Step::Call(Request::CloseServiceHandle { handle: service }),
            ),
            (StopServiceTask::Releasing { handle, then }, Reply::Status { .. }) => match then {
                Some(next) => (
                    StopServiceTask::Releasing { handle: next, then: None },
                    Step::Call(Request::CloseServiceHandle { handle: next }),
                ),
                None => (StopServiceTask::Finished, Step::Done(Ok(()))),
            },
            _ => arbitrary(),
        }
    }

    /// Starts the operation: the service control manager is opened first.
    pub fn begin() -> (r: (StopServiceTask, Step<()>))
        ensures
            r == StopServiceTask::start(),
            r.1 matches Step::Call(q) && r.0.pending() == Some(q),
    {
        (StopServiceTask::Connecting, Step::Call(Request::OpenManager { access: SC_MANAGER_ALL_ACCESS }))
    }

    /// Takes the reply to the pending request and says what comes next.
    pub fn resume(self, reply: Reply) -> (r: (StopServiceTask, Step<()>))
        requires
            self.pending() matches Some(req) && answers(req, reply),
        ensures
            r == self.step(reply),
            r.1 matches Step::Call(q) ==> r.0.pending() == Some(q),
            r.1 is Done ==> r.0.pending() is None,
    {
        match (self, reply) {
            (StopServiceTask::Connecting, Reply::Handle { raw, .. }) => {
                if raw == NULL_HANDLE {
                    return (StopServiceTask::Finished, Step::Done(Ok(())));
                }
                let req = Request::OpenService { manager: raw, access: SERVICE_ALL_ACCESS };
                (StopServiceTask::Opening { manager: raw }, Step::Call(req))
            },
            (StopServiceTask::Opening { manager }, Reply::Handle { raw, .. }) => {
                if raw == NULL_HANDLE {
                    let req = Request::CloseServiceHandle { handle: manager };
                    return (StopServiceTask::Releasing { handle: manager, then: None }, Step::Call(req));
                }
                let req = Request::StopService { service: raw };
                (StopServiceTask::Stopping { manager, service: raw }, Step::Call(req))
            },
            (StopServiceTask::Stopping { manager, service }, Reply::Status { .. }) => {
                let req = Request::CloseServiceHandle { handle: service };
                (StopServiceTask::Releasing { handle: service, then: Some(manager) }, Step::Call(req))
            },
            (StopServiceTask::Releasing { handle, then }, Reply::Status { .. }) => match then {
                Some(next) => {
                    let req = Request::CloseServiceHandle { handle: next };
                    (StopServiceTask::Releasing { handle: next, then: None }, Step::Call(req))
                },
                None => (StopServiceTask::Finished, Step::Done(Ok(()))),
            },
            _ => unreached(),
        }
    }
}

// ---------------------------------------------------------------------------
// Removing the driver service.
// ---------------------------------------------------------------------------

/// Removing the driver service: it is stopped (ignoring failure), deleted,
/// and the deployed binary removed. A service that does not exist counts as
/// removed. `failure` in `Releasing` is the error to end with once the
/// handles are closed; without one the binary is removed and the task
/// succeeds.
pub enum UninstallServiceTask {
    Connecting,
    Opening { manager: isize },
    Stopping { manager: isize, service: isize },
    Deleting { manager: isize, service: isize },
    Releasing { handle: isize, then: Option<isize>, failure: Option<Error> },
    Removing,
    Finished,
}

impl UninstallServiceTask {
    /// The request whose reply the task awaits; `None` once it has ended.
    pub open spec fn pending(self) -> Option<Request> {
        match self {
            UninstallServiceTask::Connecting => Some(Request::OpenManager { access: SC_MANAGER_ALL_ACCESS }),
            UninstallServiceTask::Opening { manager } => Some(
                Request::OpenService { manager, access: SERVICE_ALL_ACCESS },
            ),
            UninstallServiceTask::Stopping { service, .. } => Some(Request::StopService { service }),
            UninstallServiceTask::Deleting { service, .. } => Some(Request::DeleteService { service }),
            UninstallServiceTask::Releasing { handle, .. } => Some(Request::CloseServiceHandle { handle }),
            UninstallServiceTask::Removing => Some(Request::RemoveDriverFile),
            UninstallServiceTask::Finished => None,
        }
    }

    /// The service-control handles the task holds open.
    pub open spec fn held(self) -> Multiset<isize> {
        match self {
            UninstallServiceTask::Opening { manager } => Multiset::singleton(manager),
            UninstallServiceTask::Stopping { manager, service } => Multiset::singleton(manager).insert(service),
            UninstallServiceTask::Deleting { manager, service } => Multiset::singleton(manager).insert(service),
            UninstallServiceTask::Releasing { handle, then, .. } => releasing(handle, then),
            _ => Multiset::empty(),
        }
    }

    /// The task as it begins, and its first request.
    pub open spec fn start() -> (UninstallServiceTask, Step<()>) {
        (
            UninstallServiceTask::Connecting,
            Step::Call(Request::OpenManager { access: SC_MANAGER_ALL_ACCESS }),
        )
    }

    /// The task after the reply to its pending request, and what it asks
    /// for next: another call, or its end with a result.
    pub open spec fn step(self, reply: Reply) -> (UninstallServiceTask, Step<()>) {
        match (self, reply) {
            (UninstallServiceTask::Connecting, Reply::Handle { raw, last_error }) => if raw == NULL_HANDLE {
                (UninstallServiceTask::Finished, Step::Done(Err(win_api("OpenSCManagerW", last_error))))
            } else {
                (
                    UninstallServiceTask::Opening { manager: raw },
                    Step::Call(Request::OpenService { manager: raw, access: SERVICE_ALL_ACCESS }),
                )
            },
            (UninstallServiceTask::Opening { manager }, Reply::Handle { raw, last_error }) => if raw
                == NULL_HANDLE {
                let failure = if last_error == ERROR_SERVICE_DOES_NOT_EXIST {
                    None
                } else {
                    Some(win_api("OpenServiceW", last_error))
                };
                (
                    UninstallServiceTask::Releasing { handle: manager, then: None, failure },
                    Step::Call(Request::CloseServiceHandle { handle: manager }),
                )
            } else {
                (
                    UninstallServiceTask::Stopping { manager, service: raw },
                    Step::Call(Request::StopService { service: raw }),
                )
            },
            (UninstallServiceTask::Stopping { manager, service }, Reply::Status { .. }) => (
                UninstallServiceTask::Deleting { manager, service },
                Step::Call(Request::DeleteService { service }),
            ),
            (UninstallServiceTask::Deleting { manager, service }, Reply::Status { ok, last_error }) => {
                let failure = if ok {
                    None
                } else {
                    Some(win_api("DeleteService", last_error))
                };
                (
                    UninstallServiceTask::Releasing { handle: service, then: Some(manager), failure },
                    Step::Call(Request::CloseServiceHandle { handle: service }),
                )
            },
            (UninstallServiceTask::Releasing { handle, then, failure }, Reply::Status { .. }) => match then {
                Some(next) => (
                    UninstallServiceTask::Releasing { handle: next, then: None, failure },
                    Step::Call(Request::CloseServiceHandle { handle: next }),
                ),
                None => match failure {
                    Some(e) => (UninstallServiceTask::Finished, Step::Done(Err(e))),
                    None => (UninstallServiceTask::Removing, Step::Call(Request::RemoveDriverFile)),
                },
            },
            (UninstallServiceTask::Removing, Reply::Io(_)) => (UninstallServiceTask::Finished, Step::Done(Ok(()))),
            _ => arbitrary(),
        }
    }

    /// Starts the operation: the service control manager is opened first.
    pub fn begin() -> (r: (UninstallServiceTask, Step<()>))
        ensures
            r == UninstallServiceTask::start(),
            r.1 matches Step::Call(q) && r.0.pending() == Some(q),
    {
        (
            UninstallServiceTask::Connecting,
            Step::Call(Request::OpenManager { access: SC_MANAGER_ALL_ACCESS }),
        )
    }

    /// Takes the reply to the pending request and says what comes next.
    pub fn resume(self, reply: Reply) -> (r: (UninstallServiceTask, Step<()>))
        requires
            self.pending() matches Some(req) && answers(req, reply),
        ensures
            r == self.step(reply),
            r.1 matches Step::Call(q) ==> r.0.pending() == Some(q),
            r.1 is Done ==> r.0.pending() is None,
    {
        match (self, reply) {
            (UninstallServiceTask::Connecting, Reply::Handle { raw, last_error }) => {
                if raw == NULL_HANDLE {
                    let e = Error::WinApi { context: "OpenSCManagerW", code: last_error };
                    return (UninstallServiceTask::Finished, Step::Done(Err(e)));
                }
                let req = Request::OpenService { manager: raw, access: SERVICE_ALL_ACCESS };
                (UninstallServiceTask::Opening { manager: raw }, Step::Call(req))
            },
            (UninstallServiceTask::Opening { manager }, Reply::Handle { raw, last_error }) => {
                if raw == NULL_HANDLE {
                    let failure = if last_error == ERROR_SERVICE_DOES_NOT_EXIST {
                        None
                    } else {
                        Some(Error::WinApi { context: "OpenServiceW", code: last_error })
                    };
                    let req = Request::CloseServiceHandle { handle: manager };
                    return (
                        UninstallServiceTask::Releasing { handle: manager, then: None, failure },
                        Step::Call(req),
                    );
                }
                let req = Request::StopService { service: raw };
                (UninstallServiceTask::Stopping { manager, service: raw }, Step::Call(req))
            },
            (UninstallServiceTask::Stopping { manager, service }, Reply::Status { .. }) => {
                let req = Request::DeleteService { service };
                (UninstallServiceTask::Deleting { manager, service }, Step::Call(req))
            },
            (UninstallServiceTask::Deleting { manager, service }, Reply::Status { ok, last_error }) => {
                let failure = if ok {
                    None
                } else {
                    Some(Error::WinApi { context: "DeleteService", code: last_error })
                };
                let req = Request::CloseServiceHandle { handle: service };
                (
                    UninstallServiceTask::Releasing { handle: service, then: Some(manager), failure },
                    Step::Call(req),
                )
            },
            (UninstallServiceTask::Releasing { handle, then, failure }, Reply::Status { .. }) => match then {
                Some(next) => {
                    let req = Request::CloseServiceHandle { handle: next };
                    (UninstallServiceTask::Releasing { handle: next, then: None, failure }, Step::Call(req))
                },
                None => match failure {
                    Some(e) => (UninstallServiceTask::Finished, Step::Done(Err(e))),
                    None => (UninstallServiceTask::Removing, Step::Call(Request::RemoveDriverFile)),
                },
            },
            (UninstallServiceTask::Removing, Reply::Io(_)) => (UninstallServiceTask::Finished, Step::Done(Ok(()))),
            _ => unreached(),
        }
    }
}

} // verus!
