use vstd::pervasive::{arbitrary, unreached};
use vstd::multiset::Multiset;
use vstd::prelude::*;

use crate::calls::{
    answers, releasing, win_api, Reply, Request, Step, ERROR_ALREADY_EXISTS, ERROR_SERVICE_EXISTS,
    NULL_HANDLE, SC_MANAGER_ALL_ACCESS, SERVICE_ALL_ACCESS,
};
use crate::deploy::{DeployTask, NeedsUpdateTask};
use crate::error::{Error, Result};
use crate::service::{StartTask, StopServiceTask};

verus! {

/// Whether `CreateServiceW` failed because the service is already there.
pub open spec fn service_already_exists(last_error: u32) -> bool {
    last_error == ERROR_SERVICE_EXISTS || last_error == ERROR_ALREADY_EXISTS
}

/// Installing the driver service and starting it.
///
/// An outdated deployment first has its service stopped and its binary
/// rewritten; a missing binary is written. The service is then created;
/// if it exists already, it is opened and set to start automatically.
/// Once both service handles are closed the service is started.
///
/// `Releasing` closes `handle`, then `then`, and afterwards ends with
/// `failure` if there is one, or goes on to start the service.
/// `ReleasingManager` closes the manager after the existing service could not
/// be opened; the error code is the one read after that close.
pub enum InstallTask {
    CheckingUpdate(NeedsUpdateTask),
    Stopping(StopServiceTask),
    Deploying(DeployTask),
    Connecting,
    Creating { manager: isize },
    OpeningExisting { manager: isize },
    ReleasingManager { manager: isize },
    Reconfiguring { manager: isize, service: isize },
    Releasing { handle: isize, then: Option<isize>, failure: Option<Error> },
    Starting(StartTask),
    Finished,
}

impl InstallTask {
    /// The request whose reply the task awaits; `None` once it has ended.
    pub open spec fn pending(self) -> Option<Request> {
        match self {
            InstallTask::CheckingUpdate(t) => t.pending(),
            InstallTask::Stopping(t) => t.pending(),
            InstallTask::Deploying(t) => t.pending(),
            InstallTask::Connecting => Some(Request::OpenManager { access: SC_MANAGER_ALL_ACCESS }),
            InstallTask::Creating { manager } => Some(Request::CreateService { manager }),
            InstallTask::OpeningExisting { manager } => Some(
                Request::OpenService { manager, access: SERVICE_ALL_ACCESS },
            ),
            InstallTask::ReleasingManager { manager } => Some(Request::CloseServiceHandle { handle: manager }),
            InstallTask::Reconfiguring { service, .. } => Some(Request::ConfigureAutoStart { service }),
            InstallTask::Releasing { handle, .. } => Some(Request::CloseServiceHandle { handle }),
            InstallTask::Starting(t) => t.pending(),
            InstallTask::Finished => None,
        }
    }

    /// The service-control handles the task holds open.
    pub open spec fn held(self) -> Multiset<isize> {
        match self {
            InstallTask::Stopping(t) => t.held(),
            InstallTask::Creating { manager } => Multiset::singleton(manager),
            InstallTask::OpeningExisting { manager } => Multiset::singleton(manager),
            InstallTask::ReleasingManager { manager } => Multiset::singleton(manager),
            InstallTask::Reconfiguring { manager, service } => Multiset::singleton(manager).insert(service),
            InstallTask::Releasing { handle, then, .. } => releasing(handle, then),
            InstallTask::Starting(t) => t.held(),
            _ => Multiset::empty(),
        }
    }

    /// The task as it begins, and its first request.
    pub open spec fn start(bundled: Seq<u8>) -> (InstallTask, Step<()>) {
        (
            InstallTask::CheckingUpdate(NeedsUpdateTask::start(bundled).0),
            Step::Call(Request::ReadDeployedDriver),
        )
    }

    /// The step after the deployment check reported `outdated`.
    pub open spec fn after_check(outdated: bool) -> (InstallTask, Step<()>) {
        if outdated {
            let (t, s) = StopServiceTask::start();
            (InstallTask::Stopping(t), s)
        } else {
            let (t, s) = DeployTask::start(false);
            (InstallTask::Deploying(t), s)
        }
    }

    /// The task after the reply to its pending request, and what it asks
    /// for next: another call, or its end with a result.
    pub open spec fn step(self, reply: Reply) -> (InstallTask, Step<()>) {
        match (self, reply) {
            (InstallTask::CheckingUpdate(t), reply) => {
                let (t2, s) = t.step(reply);
                match s {
                    Step::Call(q) => (InstallTask::CheckingUpdate(t2), Step::Call(q)),
                    Step::Done(Err(e)) => (InstallTask::Finished, Step::Done(Err(e))),
                    Step::Done(Ok(outdated)) => InstallTask::after_check(outdated),
                }
            },
            (InstallTask::Stopping(t), reply) => {
                let (t2, s) = t.step(reply);
                match s {
                    Step::Call(q) => (InstallTask::Stopping(t2), Step::Call(q)),
                    Step::Done(_) => {
                        let (d, s2) = DeployTask::start(true);
                        (InstallTask::Deploying(d), s2)
                    },
                }
            },
            (InstallTask::Deploying(t), reply) => {
                let (t2, s) = t.step(reply);
                match s {
                    Step::Call(q) => (InstallTask::Deploying(t2), Step::Call(q)),
                    Step::Done(Err(e)) => (InstallTask::Finished, Step::Done(Err(e))),
                    Step::Done(Ok(())) => (
                        InstallTask::Connecting,
                        Step::Call(Request::OpenManager { access: SC_MANAGER_ALL_ACCESS }),
                    ),
                }
            },
            (InstallTask::Connecting, Reply::Handle { raw, last_error }) => if raw == NULL_HANDLE {
                (InstallTask::Finished, Step::Done(Err(win_api("OpenSCManagerW", last_error))))
            } else {
                (InstallTask::Creating { manager: raw }, Step::Call(Request::CreateService { manager: raw }))
            },
            (InstallTask::Creating { manager }, Reply::Handle { raw, last_error }) => if raw != NULL_HANDLE {
                (
                    InstallTask::Releasing { handle: raw, then: Some(manager), failure: None },
                    Step::Call(Request::CloseServiceHandle { handle: raw }),
                )
            } else if service_already_exists(last_error) {
                (
                    InstallTask::OpeningExisting { manager },
                    Step::Call(Request::OpenService { manager, access: SERVICE_ALL_ACCESS }),
                )
            } else {
                (
                    InstallTask::Releasing {
                        handle: manager,
                        then: None,
                        failure: Some(win_api("CreateServiceW", last_error)),
                    },
                    Step::Call(Request::CloseServiceHandle { handle: manager }),
                )
            },
            (InstallTask::OpeningExisting { manager }, Reply::Handle { raw, .. }) => if raw == NULL_HANDLE {
                (
                    InstallTask::ReleasingManager { manager },
                    Step::Call(Request::CloseServiceHandle { handle: manager }),
                )
            } else {
                (
                    InstallTask::Reconfiguring { manager, service: raw },
                    Step::Call(Request::ConfigureAutoStart { service: raw }),
                )
            },
            (InstallTask::ReleasingManager { .. }, Reply::Status { last_error, .. }) => (
                InstallTask::Finished,
                Step::Done(Err(win_api("OpenServiceW", last_error))),
            ),
            (InstallTask::Reconfiguring { manager, service }, Reply::Status { ok, last_error }) => if ok {
                (
                    InstallTask::Releasing { handle: service, then: Some(manager), failure: None },
                    Step::Call(Request::CloseServiceHandle { handle: service }),
                )
            } else {
                (InstallTask::Finished, Step::Done(Err(win_api("ChangeServiceConfigW", last_error))))
            },
            (InstallTask::Releasing { handle, then, failure }, Reply::Status { .. }) => match then {
                Some(next) => (
                    InstallTask::Releasing { handle: next, then: None, failure },
                    Step::Call(Request::CloseServiceHandle { handle: next }),
                ),
                None => match failure {
                    Some(e) => (InstallTask::Finished, Step::Done(Err(e))),
                    None => {
                        let (t, s) = StartTask::start();
                        (InstallTask::Starting(t), s)
                    },
                },
            },
            (InstallTask::Starting(t), reply) => {
                let (t2, s) = t.step(reply);
                match s {
                    Step::Call(q) => (InstallTask::Starting(t2), Step::Call(q)),
                    Step::Done(r) => (InstallTask::Finished, Step::Done(r)),
                }
            },
            _ => arbitrary(),
        }
    }

    /// Starts installing with the bundled driver image `bundled`: the
    /// deployed binary is compared with it first.
    pub fn begin(bundled: &[u8]) -> (r: (InstallTask, Step<()>))
        ensures
            r == InstallTask::start(bundled@),
            r.1 matches Step::Call(q) && r.0.pending() == Some(q),
    {
        let (t, s) = NeedsUpdateTask::begin(bundled);
        match s {
            Step::Call(q) => (InstallTask::CheckingUpdate(t), Step::Call(q)),
            Step::Done(_) => unreached(),
        }
    }

    /// Takes the reply to the pending request and says what comes next.
    pub fn resume(self, reply: Reply) -> (r: (InstallTask, Step<()>))
        requires
            self.pending() matches Some(req) && answers(req, reply),
        ensures
            r == self.step(reply),
            r.1 matches Step::Call(q) ==> r.0.pending() == Some(q),
            r.1 is Done ==> r.0.pending() is None,
    {
        match self {
            InstallTask::CheckingUpdate(t) => {
                let (t2, s) = t.resume(reply);
                match s {
                    Step::Call(q) => (InstallTask::CheckingUpdate(t2), Step::Call(q)),
                    Step::Done(Err(e)) => (InstallTask::Finished, Step::Done(Err(e))),
                    Step::Done(Ok(outdated)) => if outdated {
                        let (t3, s3) = StopServiceTask::begin();
                        (InstallTask::Stopping(t3), s3)
                    } else {
                        let (t3, s3) = DeployTask::begin(false);
                        (InstallTask::Deploying(t3), s3)
                    },
                }
            },
            InstallTask::Stopping(t) => {
                let (t2, s) = t.resume(reply);
                match s {
                    Step::Call(q) => (InstallTask::Stopping(t2), Step::Call(q)),
                    Step::Done(_) => {
                        let (d, s2) = DeployTask::begin(true);
                        (InstallTask::Deploying(d), s2)
                    },
                }
            },
            InstallTask::Deploying(t) => {
                let (t2, s) = t.resume(reply);
                match s {
                    Step::Call(q) => (InstallTask::Deploying(t2), Step::Call(q)),
                    Step::Done(Err(e)) => (InstallTask::Finished, Step::Done(Err(e))),
                    Step::Done(Ok(())) => (
                        InstallTask::Connecting,
                        Step::Call(Request::OpenManager { access: SC_MANAGER_ALL_ACCESS }),
                    ),
                }
            },
            InstallTask::Starting(t) => {
                let (t2, s) = t.resume(reply);
                match s {
                    Step::Call(q) => (InstallTask::Starting(t2), Step::Call(q)),
                    Step::Done(r) => (InstallTask::Finished, Step::Done(r)),
                }
            },
            InstallTask::Connecting => match reply {
                Reply::Handle { raw, last_error } => {
                    if raw == NULL_HANDLE {
                        let e = Error::WinApi { context: "OpenSCManagerW", code: last_error };
                        return (InstallTask::Finished, Step::Done(Err(e)));
                    }
                    (InstallTask::Creating { manager: raw }, Step::Call(Request::CreateService { manager: raw }))
                },
                _ => unreached(),
            },
            InstallTask::Creating { manager } => match reply {
                Reply::Handle { raw, last_error } => {
                    if raw != NULL_HANDLE {
                        let req = Request::CloseServiceHandle { handle: raw };
                        return (InstallTask::Releasing { handle: raw, then: Some(manager), failure: None }, Step::Call(req));
                    }
                    if last_error == ERROR_SERVICE_EXISTS || last_error == ERROR_ALREADY_EXISTS {
                        let req = Request::OpenService { manager, access: SERVICE_ALL_ACCESS };
                        return (InstallTask::OpeningExisting { manager }, Step::Call(req));
                    }
                    let e = Error::WinApi { context: "CreateServiceW", code: last_error };
                    let req = Request::CloseServiceHandle { handle: manager };
                    (InstallTask::Releasing { handle: manager, then: None, failure: Some(e) }, Step::Call(req))
                },
                _ => unreached(),
            },
            InstallTask::OpeningExisting { manager } => match reply {
                Reply::Handle { raw, .. } => {
                    if raw == NULL_HANDLE {
                        let req = Request::CloseServiceHandle { handle: manager };
                        return (InstallTask::ReleasingManager { manager }, Step::Call(req));
                    }
                    let req = Request::ConfigureAutoStart { service: raw };
                    (InstallTask::Reconfiguring { manager, service: raw }, Step::Call(req))
                },
                _ => unreached(),
            },
            InstallTask::ReleasingManager { .. } => match reply {
                Reply::Status { last_error, .. } => {
                    let e = Error::WinApi { context: "OpenServiceW", code: last_error };
                    (InstallTask::Finished, Step::Done(Err(e)))
                },
                _ => unreached(),
            },
            InstallTask::Reconfiguring { manager, service } => match reply {
                Reply::Status { ok, last_error } => {
                    if ok {
                        let req = Request::CloseServiceHandle { handle: service };
                        return (
                            InstallTask::Releasing { handle: service, then: Some(manager), failure: None },
                            Step::Call(req),
                        );
                    }
                    let e = Error::WinApi { context: "ChangeServiceConfigW", code: last_error };
                    (InstallTask::Finished, Step::Done(Err(e)))
                },
                _ => unreached(),
            },
            InstallTask::Releasing { handle, then, failure } => match reply {
                Reply::Status { .. } => match then {
                    Some(next) => {
                        let req = Request::CloseServiceHandle { handle: next };
                        (InstallTask::Releasing { handle: next, then: None, failure }, Step::Call(req))
                    },
                    None => match failure {
                        Some(e) => (InstallTask::Finished, Step::Done(Err(e))),
                        None => {
                            let (t, s) = StartTask::begin();
                            (InstallTask::Starting(t), s)
                        },
                    },
                },
                _ => unreached(),
            },
            InstallTask::Finished => unreached(),
        }
    }
}

} // verus!
