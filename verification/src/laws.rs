use std::collections::hash_map::DefaultHasher;
use vstd::bytes::{spec_u32_to_le_bytes, spec_u64_to_le_bytes};
use vstd::multiset::Multiset;
use vstd::prelude::*;

use crate::calls::{
    acquired, answers, read_only, released, win_api, Reply, Request, Step, ERROR_FILE_NOT_FOUND,
    ERROR_PATH_NOT_FOUND, ERROR_SERVICE_ALREADY_RUNNING, ERROR_SERVICE_DOES_NOT_EXIST, INVALID_HANDLE_VALUE, SC_MANAGER_ALL_ACCESS, SC_MANAGER_CONNECT, DeployedDriver, NULL_HANDLE,
};
use crate::deploy::{DeployTask, NeedsUpdateTask};
use vstd::std_specs::hash::DefaultHasherAdditionalSpecFns;
use crate::digest::content_digest;
use crate::error::Error;
use crate::device::{CloseTask, DeviceHandle, ReadMsrTask};
use crate::driver::{missing_device_outcome, MsrDriver, NewTask, UninstallTask};
use crate::install::{service_already_exists, InstallTask};
use crate::service::{IsInstalledTask, StartTask, StopServiceTask, UninstallServiceTask};

verus! {

broadcast use vstd::multiset::group_multiset_axioms;

// Service-control handles: every handle a task is handed it gives back
// before it ends. Each law says, of one step: the close it answers gave
// back a handle the task held; afterwards the task holds what it held, plus
// the handle the reply hands over, minus the one given back; and a task
// that ends holds none. Every task also begins holding none.

/// Service-handle accounting for the status query.
pub proof fn is_installed_releases_handles(t: IsInstalledTask, reply: Reply)
    requires
        t.pending() matches Some(q) && answers(q, reply),
    ensures
        IsInstalledTask::start().0.held() =~= Multiset::empty(),
        released(t.pending().unwrap()).subset_of(t.held()),
        t.step(reply).0.held() =~= t.held().add(acquired(t.pending().unwrap(), reply)).sub(
            released(t.pending().unwrap()),
        ),
        t.step(reply).1 is Done ==> t.step(reply).0.held() =~= Multiset::empty(),
{
}

/// Service-handle accounting for starting the service.
pub proof fn start_releases_handles(t: StartTask, reply: Reply)
    requires
        t.pending() matches Some(q) && answers(q, reply),
    ensures
        StartTask::start().0.held() =~= Multiset::empty(),
        released(t.pending().unwrap()).subset_of(t.held()),
        t.step(reply).0.held() =~= t.held().add(acquired(t.pending().unwrap(), reply)).sub(
            released(t.pending().unwrap()),
        ),
        t.step(reply).1 is Done ==> t.step(reply).0.held() =~= Multiset::empty(),
{
}

/// Service-handle accounting for stopping the service.
pub proof fn stop_service_releases_handles(t: StopServiceTask, reply: Reply)
    requires
        t.pending() matches Some(q) && answers(q, reply),
    ensures
        StopServiceTask::start().0.held() =~= Multiset::empty(),
        released(t.pending().unwrap()).subset_of(t.held()),
        t.step(reply).0.held() =~= t.held().add(acquired(t.pending().unwrap(), reply)).sub(
            released(t.pending().unwrap()),
        ),
        t.step(reply).1 is Done ==> t.step(reply).0.held() =~= Multiset::empty(),
{
}

/// Service-handle accounting for removing the service.
pub proof fn uninstall_service_releases_handles(t: UninstallServiceTask, reply: Reply)
    requires
        t.pending() matches Some(q) && answers(q, reply),
    ensures
        UninstallServiceTask::start().0.held() =~= Multiset::empty(),
        released(t.pending().unwrap()).subset_of(t.held()),
        t.step(reply).0.held() =~= t.held().add(acquired(t.pending().unwrap(), reply)).sub(
            released(t.pending().unwrap()),
        ),
        t.step(reply).1 is Done ==> t.step(reply).0.held() =~= Multiset::empty(),
{
}

/// Service-handle accounting for opening the driver.
pub proof fn new_releases_handles(t: NewTask, reply: Reply)
    requires
        t.pending() matches Some(q) && answers(q, reply),
    ensures
        NewTask::Opening.held() =~= Multiset::empty(),
        released(t.pending().unwrap()).subset_of(t.held()),
        t.step(reply).0.held() =~= t.held().add(acquired(t.pending().unwrap(), reply)).sub(
            released(t.pending().unwrap()),
        ),
        t.step(reply).1 is Done ==> t.step(reply).0.held() =~= Multiset::empty(),
{
    if let NewTask::Querying(q) = t {
        is_installed_releases_handles(q, reply);
    }
}

/// Service-handle accounting for uninstalling from a driver instance.
pub proof fn uninstall_releases_handles(t: UninstallTask, reply: Reply)
    requires
        t.pending() matches Some(q) && answers(q, reply),
    ensures
        released(t.pending().unwrap()).subset_of(t.held()),
        t.step(reply).0.held() =~= t.held().add(acquired(t.pending().unwrap(), reply)).sub(
            released(t.pending().unwrap()),
        ),
        t.step(reply).1 is Done ==> t.step(reply).0.held() =~= Multiset::empty(),
{
    if let UninstallTask::Removing(r) = t {
        uninstall_service_releases_handles(r, reply);
    }
}

/// Service-handle accounting for installing, except when reconfiguring an
/// existing service fails: installation then ends at once and keeps the
/// manager and service handles open.
pub proof fn install_releases_handles(t: InstallTask, reply: Reply)
    requires
        t.pending() matches Some(q) && answers(q, reply),
        !(t is Reconfiguring && (reply matches Reply::Status { ok, .. } && !ok)),
    ensures
        released(t.pending().unwrap()).subset_of(t.held()),
        t.step(reply).0.held() =~= t.held().add(acquired(t.pending().unwrap(), reply)).sub(
            released(t.pending().unwrap()),
        ),
        t.step(reply).1 is Done ==> t.step(reply).0.held() =~= Multiset::empty(),
{
    match t {
        InstallTask::Stopping(s) => stop_service_releases_handles(s, reply),
        InstallTask::Starting(s) => start_releases_handles(s, reply),
        _ => {},
    }
}

/// Opening the driver never installs, starts or changes anything: every
/// request it makes needs no more than read access (which is why it does
/// not need Administrator rights).
pub proof fn new_only_reads(t: NewTask, reply: Reply)
    requires
        t.pending() matches Some(q) && answers(q, reply),
    ensures
        read_only(Request::OpenDevice),
        read_only(t.pending().unwrap()),
        t.step(reply).1 matches Step::Call(q) ==> read_only(q),
{
    if let NewTask::Querying(q) = t {
        is_installed_only_reads(q, reply);
    }
}

/// Asking whether the service exists needs no Administrator rights: every
/// request it makes needs no more than read access.
pub proof fn is_installed_only_reads(t: IsInstalledTask, reply: Reply)
    requires
        t.pending() matches Some(q) && answers(q, reply),
    ensures
        IsInstalledTask::start().1 matches Step::Call(q) && read_only(q),
        read_only(t.pending().unwrap()),
        t.step(reply).1 matches Step::Call(q) ==> read_only(q),
{
}

/// Feeds `replies` to a status query in state `t` whose last step was
/// `s`, one by one, until the query ends; gives its last step.
pub open spec fn run_is_installed(t: IsInstalledTask, s: Step<bool>, replies: Seq<Reply>) -> Step<bool>
    decreases replies.len(),
{
    if replies.len() == 0 || s is Done {
        s
    } else {
        let (t2, s2) = t.step(replies[0]);
        run_is_installed(t2, s2, replies.drop_first())
    }
}

/// Feeds `replies` to an opening of the driver in state `t` whose last step
/// was `s`, one by one, until it ends; gives its last step.
pub open spec fn run_new(t: NewTask, s: Step<MsrDriver>, replies: Seq<Reply>) -> Step<MsrDriver>
    decreases replies.len(),
{
    if replies.len() == 0 || s is Done {
        s
    } else {
        let (t2, s2) = t.step(replies[0]);
        run_new(t2, s2, replies.drop_first())
    }
}

/// A step of the status query as the opening of the driver reports it when
/// the device is missing.
pub open spec fn query_as_open(s: Step<bool>) -> Step<MsrDriver> {
    match s {
        Step::Call(q) => Step::Call(q),
        Step::Done(installed) => Step::Done(missing_device_outcome(installed)),
    }
}

proof fn lemma_querying_follows_query(t: IsInstalledTask, q: Request, replies: Seq<Reply>)
    ensures
        run_new(NewTask::Querying(t), Step::Call(q), replies) == query_as_open(
            run_is_installed(t, Step::Call(q), replies),
        ),
    decreases replies.len(),
{
    reveal_with_fuel(run_new, 2);
    reveal_with_fuel(run_is_installed, 2);
    if replies.len() > 0 {
        let (t2, s2) = t.step(replies[0]);
        match s2 {
            Step::Call(q2) => lemma_querying_follows_query(t2, q2, replies.drop_first()),
            Step::Done(_) => {},
        }
    }
}

/// Opening the driver asks for the device first. A device that opens gives
/// the driver with that handle; a device that fails to open for another
/// reason than being missing gives that failure. A missing device (file or
/// path not found) leads to the status query, and from then on the opening
/// goes exactly as the query goes, its result read as `NotRunning` when the
/// service exists and `NotInstalled` when it does not.
pub proof fn new_follows_device_then_query(raw: isize, last_error: u32, replies: Seq<Reply>)
    ensures
        ({
            let r = run_new(
                NewTask::Opening,
                Step::Call(Request::OpenDevice),
                seq![Reply::Handle { raw, last_error }] + replies,
            );
            &&& raw != INVALID_HANDLE_VALUE ==> r == Step::<MsrDriver>::Done(
                Ok(MsrDriver { device: DeviceHandle { handle: raw } }),
            )
            &&& raw == INVALID_HANDLE_VALUE && last_error != ERROR_FILE_NOT_FOUND && last_error
                != ERROR_PATH_NOT_FOUND ==> r == Step::<MsrDriver>::Done(
                Err(win_api("CreateFileW", last_error)),
            )
            &&& raw == INVALID_HANDLE_VALUE && (last_error == ERROR_FILE_NOT_FOUND || last_error
                == ERROR_PATH_NOT_FOUND) ==> r == query_as_open(
                run_is_installed(IsInstalledTask::start().0, IsInstalledTask::start().1, replies),
            )
        }),
{
    reveal_with_fuel(run_new, 2);
    let all = seq![Reply::Handle { raw, last_error }] + replies;
    assert(all.drop_first() =~= replies);
    if raw == INVALID_HANDLE_VALUE && (last_error == ERROR_FILE_NOT_FOUND || last_error
        == ERROR_PATH_NOT_FOUND) {
        lemma_querying_follows_query(
            IsInstalledTask::Connecting,
            Request::OpenManager { access: SC_MANAGER_CONNECT },
            replies,
        );
    }
}

/// Feeds `replies` to a service removal in state `t` whose last step was
/// `s`, one by one, until it ends; gives its last step.
pub open spec fn run_uninstall_service(t: UninstallServiceTask, s: Step<()>, replies: Seq<Reply>) -> Step<()>
    decreases replies.len(),
{
    if replies.len() == 0 || s is Done {
        s
    } else {
        let (t2, s2) = t.step(replies[0]);
        run_uninstall_service(t2, s2, replies.drop_first())
    }
}

/// Feeds `replies` to an uninstallation from a driver instance in state
/// `t` whose last step was `s`, one by one, until it ends; gives its last
/// step.
pub open spec fn run_uninstall(t: UninstallTask, s: Step<()>, replies: Seq<Reply>) -> Step<()>
    decreases replies.len(),
{
    if replies.len() == 0 || s is Done {
        s
    } else {
        let (t2, s2) = t.step(replies[0]);
        run_uninstall(t2, s2, replies.drop_first())
    }
}

proof fn lemma_removing_follows_removal(t: UninstallServiceTask, q: Request, replies: Seq<Reply>)
    ensures
        run_uninstall(UninstallTask::Removing(t), Step::Call(q), replies) == run_uninstall_service(
            t,
            Step::Call(q),
            replies,
        ),
    decreases replies.len(),
{
    reveal_with_fuel(run_uninstall, 2);
    reveal_with_fuel(run_uninstall_service, 2);
    if replies.len() > 0 {
        let (t2, s2) = t.step(replies[0]);
        match s2 {
            Step::Call(q2) => lemma_removing_follows_removal(t2, q2, replies.drop_first()),
            Step::Done(_) => {},
        }
    }
}

/// Uninstalling from a driver instance goes exactly as removing the
/// service goes: at once when the device handle was closed already, and
/// otherwise after closing it, whatever closing reported.
pub proof fn uninstall_follows_removal(driver: MsrDriver, close_reply: Reply, replies: Seq<Reply>)
    requires
        close_reply is Status,
    ensures
        ({
            let (after, (t, s)) = driver.uninstall_start();
            let removal = run_uninstall_service(
                UninstallServiceTask::start().0,
                UninstallServiceTask::start().1,
                replies,
            );
            &&& after.device.is_closed()
            &&& driver.device.is_closed() ==> run_uninstall(t, s, replies) == removal
            &&& !driver.device.is_closed() ==> run_uninstall(t, s, seq![close_reply] + replies)
                == removal
        }),
{
    reveal_with_fuel(run_uninstall, 2);
    let start = UninstallServiceTask::start();
    if driver.device.is_closed() {
        lemma_removing_follows_removal(start.0, Request::OpenManager { access: SC_MANAGER_ALL_ACCESS }, replies);
    } else {
        let all = seq![close_reply] + replies;
        assert(all.drop_first() =~= replies);
        lemma_removing_follows_removal(start.0, Request::OpenManager { access: SC_MANAGER_ALL_ACCESS }, replies);
    }
}

/// Closing the device handle leaves it closed, and closing it again does
/// nothing and succeeds at once.
pub proof fn close_is_idempotent(device: DeviceHandle)
    ensures
        device.close_start().0.is_closed(),
        device.close_start().0.close_start() == (
            device.close_start().0,
            (CloseTask::Finished, Step::<()>::Done(Ok(()))),
        ),
{
}

/// Once the device handle is closed, by `close` or by `uninstall`, reading
/// a register fails at once with `DeviceClosed`, without any call.
pub proof fn read_after_close_fails(driver: MsrDriver, msr_register: u32, cpu_index: u32)
    ensures
        driver.device.close_start().0.read_start(msr_register, cpu_index) == (
            ReadMsrTask::Finished,
            Step::<u64>::Done(Err(Error::DeviceClosed)),
        ),
        driver.uninstall_start().0.device.read_start(msr_register, cpu_index) == (
            ReadMsrTask::Finished,
            Step::<u64>::Done(Err(Error::DeviceClosed)),
        ),
{
}

/// Whether an update is needed is decided by content alone: nothing
/// deployed needs none, a deployed binary with the bundled contents needs
/// none, and one whose content digest differs from the bundled one needs
/// one.
pub proof fn needs_update_compares_contents(bundled: Seq<u8>, deployed: Vec<u8>)
    ensures
        NeedsUpdateTask::start(bundled).0.step(Reply::Driver(DeployedDriver::Missing)).1
            == Step::<bool>::Done(Ok(false)),
        deployed@ == bundled ==> NeedsUpdateTask::start(bundled).0.step(
            Reply::Driver(DeployedDriver::Contents(deployed)),
        ).1 == Step::<bool>::Done(Ok(false)),
        content_digest(deployed@) != content_digest(bundled) ==> NeedsUpdateTask::start(
            bundled,
        ).0.step(Reply::Driver(DeployedDriver::Contents(deployed))).1 == Step::<bool>::Done(Ok(true)),
{
}

/// Feeds `replies` to a start of the service in state `t` whose last step
/// was `s`, one by one, until it ends; gives its last step.
pub open spec fn run_start(t: StartTask, s: Step<()>, replies: Seq<Reply>) -> Step<()>
    decreases replies.len(),
{
    if replies.len() == 0 || s is Done {
        s
    } else {
        let (t2, s2) = t.step(replies[0]);
        run_start(t2, s2, replies.drop_first())
    }
}

/// Feeds `replies` to an installation in state `t` whose last step was
/// `s`, one by one, until it ends; gives its last step.
pub open spec fn run_install(t: InstallTask, s: Step<()>, replies: Seq<Reply>) -> Step<()>
    decreases replies.len(),
{
    if replies.len() == 0 || s is Done {
        s
    } else {
        let (t2, s2) = t.step(replies[0]);
        run_install(t2, s2, replies.drop_first())
    }
}

proof fn lemma_starting_follows_start(t: StartTask, q: Request, replies: Seq<Reply>)
    ensures
        run_install(InstallTask::Starting(t), Step::Call(q), replies) == run_start(t, Step::Call(q), replies),
    decreases replies.len(),
{
    reveal_with_fuel(run_install, 2);
    reveal_with_fuel(run_start, 2);
    if replies.len() > 0 {
        let (t2, s2) = t.step(replies[0]);
        match s2 {
            Step::Call(q2) => lemma_starting_follows_start(t2, q2, replies.drop_first()),
            Step::Done(_) => {},
        }
    }
}

/// Once the service is created, or found to exist and set to start
/// automatically, installing closes the service handle, then the manager
/// handle, and from then on goes exactly as starting the service goes.
/// `created` is the reply to `CreateServiceW`; an existing service is one
/// it reports with `ERROR_SERVICE_EXISTS` or `ERROR_ALREADY_EXISTS`, and
/// `opened` is then the reply to opening it and `configured` the reply to
/// reconfiguring it.
pub proof fn install_ends_by_starting(
    manager: isize,
    created: isize,
    create_error: u32,
    opened: isize,
    open_error: u32,
    configure_error: u32,
    closes: (Reply, Reply),
    replies: Seq<Reply>,
)
    requires
        manager != NULL_HANDLE,
        closes.0 is Status,
        closes.1 is Status,
    ensures
        ({
            let start = run_start(StartTask::start().0, StartTask::start().1, replies);
            let t = InstallTask::Creating { manager };
            let s = Step::<()>::Call(Request::CreateService { manager });
            &&& created != NULL_HANDLE ==> run_install(
                t,
                s,
                seq![Reply::Handle { raw: created, last_error: create_error }, closes.0, closes.1]
                    + replies,
            ) == start
            &&& created == NULL_HANDLE && service_already_exists(create_error) && opened
                != NULL_HANDLE ==> run_install(
                t,
                s,
                seq![
                    Reply::Handle { raw: created, last_error: create_error },
                    Reply::Handle { raw: opened, last_error: open_error },
                    Reply::Status { ok: true, last_error: configure_error },
                    closes.0,
                    closes.1,
                ] + replies,
            ) == start
        }),
{
    reveal_with_fuel(run_install, 7);
    let st = StartTask::start();
    lemma_starting_follows_start(st.0, Request::OpenManager { access: SC_MANAGER_CONNECT }, replies);
    let created_reply = Reply::Handle { raw: created, last_error: create_error };
    let a = seq![created_reply, closes.0, closes.1] + replies;
    assert(a.drop_first().drop_first().drop_first() =~= replies);
    let b = seq![
        created_reply,
        Reply::Handle { raw: opened, last_error: open_error },
        Reply::Status { ok: true, last_error: configure_error },
        closes.0,
        closes.1,
    ] + replies;
    assert(b.drop_first().drop_first().drop_first().drop_first().drop_first() =~= replies);
}

/// The status query's answer: a service control manager that cannot be
/// opened gives that failure; otherwise the service exists when it opens,
/// does not when opening reports `ERROR_SERVICE_DOES_NOT_EXIST`, and other
/// failures are reported. What closing the handles reports changes nothing.
pub proof fn is_installed_outcome(
    manager: isize,
    manager_error: u32,
    service: isize,
    service_error: u32,
    closes: (Reply, Reply),
)
    requires
        closes.0 is Status,
        closes.1 is Status,
    ensures
        ({
            let (t, s) = IsInstalledTask::start();
            let m = Reply::Handle { raw: manager, last_error: manager_error };
            let v = Reply::Handle { raw: service, last_error: service_error };
            &&& manager == NULL_HANDLE ==> run_is_installed(t, s, seq![m]) == Step::<bool>::Done(
                Err(win_api("OpenSCManagerW", manager_error)),
            )
            &&& manager != NULL_HANDLE && service == NULL_HANDLE ==> run_is_installed(
                t,
                s,
                seq![m, v, closes.0],
            ) == Step::<bool>::Done(
                if service_error == ERROR_SERVICE_DOES_NOT_EXIST {
                    Ok(false)
                } else {
                    Err(win_api("OpenServiceW", service_error))
                },
            )
            &&& manager != NULL_HANDLE && service != NULL_HANDLE ==> run_is_installed(
                t,
                s,
                seq![m, v, closes.0, closes.1],
            ) == Step::<bool>::Done(Ok(true))
        }),
{
    reveal_with_fuel(run_is_installed, 5);
}

/// Starting the service: a service control manager that cannot be opened
/// gives that failure; a service that cannot be opened gives
/// `NotInstalled` when it does not exist and the failure otherwise; a
/// service that opens ends as `StartServiceW` reports, an already running
/// service counting as started. What closing the handles reports changes
/// nothing.
pub proof fn start_outcome_law(
    manager: isize,
    manager_error: u32,
    service: isize,
    service_error: u32,
    started: bool,
    start_error: u32,
    closes: (Reply, Reply),
)
    requires
        closes.0 is Status,
        closes.1 is Status,
    ensures
        ({
            let (t, s) = StartTask::start();
            let m = Reply::Handle { raw: manager, last_error: manager_error };
            let v = Reply::Handle { raw: service, last_error: service_error };
            let st = Reply::Status { ok: started, last_error: start_error };
            &&& manager == NULL_HANDLE ==> run_start(t, s, seq![m]) == Step::<()>::Done(
                Err(win_api("OpenSCManagerW", manager_error)),
            )
            &&& manager != NULL_HANDLE && service == NULL_HANDLE ==> run_start(t, s, seq![m, v, closes.0])
                == Step::<()>::Done(
                Err(
                    if service_error == ERROR_SERVICE_DOES_NOT_EXIST {
                        Error::NotInstalled
                    } else {
                        win_api("OpenServiceW", service_error)
                    },
                ),
            )
            &&& manager != NULL_HANDLE && service != NULL_HANDLE ==> run_start(
                t,
                s,
                seq![m, v, st, closes.0, closes.1],
            ) == Step::<()>::Done(
                if started || start_error == ERROR_SERVICE_ALREADY_RUNNING {
                    Ok(())
                } else {
                    Err(win_api("StartServiceW", start_error))
                },
            )
        }),
{
    reveal_with_fuel(run_start, 6);
}

/// Removing the service: a service control manager that cannot be opened
/// gives that failure. A service that does not exist counts as removed:
/// the manager handle is closed and the deployed binary removed. Another
/// failure to open the service is reported after closing the manager. An
/// open service is stopped (whatever that reports) and deleted; both handles
/// are closed; a failed delete is reported, and otherwise the binary is
/// removed and removal succeeds, whatever removing the file reports.
pub proof fn uninstall_service_outcome(
    manager: isize,
    manager_error: u32,
    service: isize,
    service_error: u32,
    stopped: Reply,
    deleted: bool,
    delete_error: u32,
    closes: (Reply, Reply),
    removed: Reply,
)
    requires
        stopped is Status,
        closes.0 is Status,
        closes.1 is Status,
        removed is Io,
    ensures
        ({
            let (t, s) = UninstallServiceTask::start();
            let m = Reply::Handle { raw: manager, last_error: manager_error };
            let v = Reply::Handle { raw: service, last_error: service_error };
            let d = Reply::Status { ok: deleted, last_error: delete_error };
            &&& manager == NULL_HANDLE ==> run_uninstall_service(t, s, seq![m]) == Step::<()>::Done(
                Err(win_api("OpenSCManagerW", manager_error)),
            )
            &&& manager != NULL_HANDLE && service == NULL_HANDLE && service_error
                == ERROR_SERVICE_DOES_NOT_EXIST ==> run_uninstall_service(
                t,
                s,
                seq![m, v, closes.0, removed],
            ) == Step::<()>::Done(Ok(()))
            &&& manager != NULL_HANDLE && service == NULL_HANDLE && service_error
                != ERROR_SERVICE_DOES_NOT_EXIST ==> run_uninstall_service(t, s, seq![m, v, closes.0])
                == Step::<()>::Done(Err(win_api("OpenServiceW", service_error)))
            &&& manager != NULL_HANDLE && service != NULL_HANDLE && !deleted ==> run_uninstall_service(
                t,
                s,
                seq![m, v, stopped, d, closes.0, closes.1],
            ) == Step::<()>::Done(Err(win_api("DeleteService", delete_error)))
            &&& manager != NULL_HANDLE && service != NULL_HANDLE && deleted ==> run_uninstall_service(
                t,
                s,
                seq![m, v, stopped, d, closes.0, closes.1, removed],
            ) == Step::<()>::Done(Ok(()))
        }),
{
    reveal_with_fuel(run_uninstall_service, 8);
}

/// The requests made and the replies given, in order, while an
/// installation in state `t` whose last step was `s` is fed `replies` one
/// by one until it ends.
pub open spec fn install_exchanges(t: InstallTask, s: Step<()>, replies: Seq<Reply>) -> Seq<(Request, Reply)>
    decreases replies.len(),
{
    if replies.len() == 0 {
        Seq::empty()
    } else {
        match s {
            Step::Call(q) => {
                let (t2, s2) = t.step(replies[0]);
                seq![(q, replies[0])] + install_exchanges(t2, s2, replies.drop_first())
            },
            Step::Done(_) => Seq::empty(),
        }
    }
}

/// Whether every reply in `exchanges` answers the request it was given to.
pub open spec fn all_answered(exchanges: Seq<(Request, Reply)>) -> bool {
    forall|k: int| 0 <= k < exchanges.len() ==> #[trigger] answers(exchanges[k].0, exchanges[k].1)
}

/// Whether an exchange put the driver service in place: `CreateServiceW`
/// returned a handle, or `ChangeServiceConfigW` (setting automatic start)
/// succeeded.
pub open spec fn registered_service(e: (Request, Reply)) -> bool {
    match (e.0, e.1) {
        (Request::CreateService { .. }, Reply::Handle { raw, .. }) => raw != NULL_HANDLE,
        (Request::ConfigureAutoStart { .. }, Reply::Status { ok, .. }) => ok,
        _ => false,
    }
}

/// Whether an exchange left the driver service running: `StartServiceW`
/// succeeded or reported that it was running already.
pub open spec fn started_service(e: (Request, Reply)) -> bool {
    match (e.0, e.1) {
        (Request::StartService { .. }, Reply::Status { ok, last_error }) => ok || last_error
            == ERROR_SERVICE_ALREADY_RUNNING,
        _ => false,
    }
}

/// Whether `exchanges` hold a start of the service.
pub open spec fn has_start(exchanges: Seq<(Request, Reply)>) -> bool {
    exists|j: int| 0 <= j < exchanges.len() && #[trigger] started_service(exchanges[j])
}

/// Whether `exchanges` hold a placing of the service followed by a start.
pub open spec fn has_registration_then_start(exchanges: Seq<(Request, Reply)>) -> bool {
    exists|i: int, j: int|
        0 <= i < j < exchanges.len() && #[trigger] registered_service(exchanges[i])
            && #[trigger] started_service(exchanges[j])
}

/// Whether an installation in state `t` has put the service in place.
pub open spec fn install_registered(t: InstallTask) -> bool {
    match t {
        InstallTask::Releasing { failure, .. } => failure is None,
        InstallTask::Starting(_) => true,
        _ => false,
    }
}

/// Whether an installation in state `t` has seen the service start.
pub open spec fn install_started(t: InstallTask) -> bool {
    match t {
        InstallTask::Starting(st) => st matches StartTask::Releasing { outcome, .. } && outcome is Ok,
        _ => false,
    }
}

/// What the rest of a successful installation in state `t` must still
/// show in `exchanges`.
pub open spec fn install_owes(t: InstallTask, exchanges: Seq<(Request, Reply)>) -> bool {
    if install_started(t) {
        true
    } else if install_registered(t) {
        has_start(exchanges)
    } else {
        has_registration_then_start(exchanges)
    }
}

proof fn lemma_start_coherent(t: StartTask, reply: Reply)
    requires
        t.pending() matches Some(q) && answers(q, reply),
    ensures
        t.step(reply).1 matches Step::Call(q) ==> t.step(reply).0.pending() == Some(q),
{
}

proof fn lemma_install_coherent(t: InstallTask, reply: Reply)
    requires
        t.pending() matches Some(q) && answers(q, reply),
    ensures
        t.step(reply).1 matches Step::Call(q) ==> t.step(reply).0.pending() == Some(q),
{
    if let InstallTask::Starting(st) = t {
        lemma_start_coherent(st, reply);
    }
}

proof fn lemma_install_owes(t: InstallTask, q: Request, replies: Seq<Reply>)
    requires
        t.pending() == Some(q),
        all_answered(install_exchanges(t, Step::Call(q), replies)),
        run_install(t, Step::Call(q), replies) == Step::<()>::Done(Ok(())),
    ensures
        install_owes(t, install_exchanges(t, Step::Call(q), replies)),
    decreases replies.len(),
{
    reveal_with_fuel(run_install, 2);
    let ex = install_exchanges(t, Step::Call(q), replies);
    assert(replies.len() > 0);
    let r0 = replies[0];
    let rest = replies.drop_first();
    let (t2, s2) = t.step(r0);
    assert(ex[0] == (q, r0));
    assert(answers(ex[0].0, ex[0].1));
    lemma_install_coherent(t, r0);
    match s2 {
        Step::Done(_) => {
            assert(install_started(t));
        },
        Step::Call(q2) => {
            let ex2 = install_exchanges(t2, Step::Call(q2), rest);
            assert(ex == seq![(q, r0)] + ex2);
            assert forall|k: int| 0 <= k < ex2.len() implies #[trigger] answers(ex2[k].0, ex2[k].1) by {
                assert(ex2[k] == ex[k + 1]);
            }
            lemma_install_owes(t2, q2, rest);
            if install_started(t) {
            } else if install_started(t2) {
                assert(started_service(ex[0]));
                if install_registered(t) {
                    assert(has_start(ex));
                } else {
                    assert(false);
                }
            } else if install_registered(t2) {
                let j = choose|j: int| 0 <= j < ex2.len() && #[trigger] started_service(ex2[j]);
                assert(ex[j + 1] == ex2[j]);
                if install_registered(t) {
                    assert(started_service(ex[j + 1]));
                } else {
                    assert(registered_service(ex[0]));
                    assert(has_registration_then_start(ex));
                }
            } else {
                let (i, j) = choose|i: int, j: int|
                    0 <= i < j < ex2.len() && #[trigger] registered_service(ex2[i])
                        && #[trigger] started_service(ex2[j]);
                assert(ex[i + 1] == ex2[i]);
                assert(ex[j + 1] == ex2[j]);
                assert(has_registration_then_start(ex));
            }
        },
    }
}

/// An installation that ends with `Ok(())` has put the driver service in
/// place and then seen it run: among the calls it made, `CreateServiceW`
/// returned a handle or `ChangeServiceConfigW` set automatic start, and
/// later `StartServiceW` succeeded or reported the service running already.
/// This holds for every sequence of replies that answer the requests they
/// are given to.
pub proof fn install_ok_means_placed_and_started(bundled: Seq<u8>, replies: Seq<Reply>)
    requires
        all_answered(
            install_exchanges(InstallTask::start(bundled).0, InstallTask::start(bundled).1, replies),
        ),
        run_install(InstallTask::start(bundled).0, InstallTask::start(bundled).1, replies)
            == Step::<()>::Done(Ok(())),
    ensures
        has_registration_then_start(
            install_exchanges(InstallTask::start(bundled).0, InstallTask::start(bundled).1, replies),
        ),
{
    lemma_install_owes(InstallTask::start(bundled).0, Request::ReadDeployedDriver, replies);
}

/// Reading a register asks the driver for exactly the register and CPU the
/// caller named, on the driver's own handle, and gives back the whole
/// 64-bit value the driver delivers, unchanged, when the call succeeds with
/// 8 bytes. A failed call is reported with its error code, and any other
/// byte count as a protocol error. A closed handle fails at once with
/// `DeviceClosed`, and no call is made.
pub proof fn read_msr_reads_the_named_register(
    driver: MsrDriver,
    msr_register: u32,
    cpu_index: u32,
    value: u64,
    last_error: u32,
    bytes_returned: u32,
)
    ensures
        ({
            let (t, s) = driver.device.read_start(msr_register, cpu_index);
            &&& !driver.device.is_closed() ==> s == Step::<u64>::Call(
                Request::ReadMsr { device: driver.device.handle, msr_register, cpu_index },
            )
            &&& !driver.device.is_closed() ==> t.pending() == Some(
                Request::ReadMsr { device: driver.device.handle, msr_register, cpu_index },
            )
            &&& !driver.device.is_closed() ==> t.step(
                Reply::Transfer { ok: true, last_error, value, bytes_returned: 8 },
            ).1 == Step::<u64>::Done(Ok(value))
            &&& !driver.device.is_closed() ==> t.step(
                Reply::Transfer { ok: false, last_error, value, bytes_returned },
            ).1 == Step::<u64>::Done(Err(Error::WinApi { context: "DeviceIoControl", code: last_error }))
            &&& !driver.device.is_closed() && bytes_returned != 8 ==> t.step(
                Reply::Transfer { ok: true, last_error, value, bytes_returned },
            ).1 == Step::<u64>::Done(Err(Error::DriverProtocol { context: "unexpected output size" }))
            &&& driver.device.is_closed() ==> s == Step::<u64>::Done(Err(Error::DeviceClosed))
        }),
{
}

/// The digest behind the update check covers the whole content, at every
/// length: it is `DefaultHasher`'s result over the length (at `usize`'s
/// width, least significant byte first) followed by every byte. So the
/// check reports an update exactly when those results differ for the
/// deployed and the bundled binary; a deployed binary with the bundled
/// contents needs none, and nothing deployed needs none.
pub proof fn needs_update_hashes_whole_contents(bundled: Seq<u8>, deployed: Vec<u8>)
    ensures
        ({
            let full = |b: Seq<u8>|
                DefaultHasher::spec_finish(
                    seq![
                        if usize::BITS == 64 {
                            spec_u64_to_le_bytes(b.len() as u64)
                        } else {
                            spec_u32_to_le_bytes(b.len() as u32)
                        },
                        b,
                    ],
                );
            let t = NeedsUpdateTask::start(bundled).0;
            &&& content_digest(bundled) == full(bundled)
            &&& t.step(Reply::Driver(DeployedDriver::Contents(deployed))).1 == Step::<bool>::Done(
                Ok(full(deployed@) != full(bundled)),
            )
            &&& deployed@ == bundled ==> t.step(Reply::Driver(DeployedDriver::Contents(deployed))).1
                == Step::<bool>::Done(Ok(false))
            &&& t.step(Reply::Driver(DeployedDriver::Missing)).1 == Step::<bool>::Done(Ok(false))
        }),
{
}

/// An unreadable deployed binary makes the update check fail with exactly
/// the error that reading it gave.
pub proof fn needs_update_reports_unreadable(bundled: Seq<u8>, e: std::io::Error)
    ensures
        NeedsUpdateTask::start(bundled).0.step(Reply::Driver(DeployedDriver::Unreadable(e))).1
            == Step::<bool>::Done(Err(Error::Io(e))),
{
}

/// Placing the driver binary: the directory is created first; the binary is
/// then written when a rewrite is forced, and otherwise only when none is
/// there; placement succeeds when those steps do, and an I/O error in
/// creating the directory or writing ends it with that error.
pub proof fn deploy_writes_when_forced_or_missing(force_rewrite: bool, exists: bool, e: std::io::Error)
    ensures
        ({
            let (t, s) = DeployTask::start(force_rewrite);
            &&& s == Step::<()>::Call(Request::CreateDriverDirectory)
            &&& t.step(Reply::Io(Err(e))) == (DeployTask::Finished, Step::<()>::Done(Err(Error::Io(e))))
            &&& force_rewrite ==> t.step(Reply::Io(Ok(()))).1 == Step::<()>::Call(Request::WriteDriverFile)
            &&& !force_rewrite ==> t.step(Reply::Io(Ok(()))).1 == Step::<()>::Call(Request::CheckDriverFile)
            &&& !force_rewrite ==> t.step(Reply::Io(Ok(()))).0.step(Reply::Exists(exists)).1 == (if exists {
                Step::<()>::Done(Ok(()))
            } else {
                Step::<()>::Call(Request::WriteDriverFile)
            })
            &&& DeployTask::Writing.step(Reply::Io(Ok(()))).1 == Step::<()>::Done(Ok(()))
            &&& DeployTask::Writing.step(Reply::Io(Err(e))).1 == Step::<()>::Done(Err(Error::Io(e)))
        }),
{
}

/// Installation begins by checking the deployment. A deployment whose whole
/// content matches the bundled image, or no deployment at all, goes on to
/// place the binary without forcing a rewrite; a deployment whose content
/// digest differs first stops the service (through the service control
/// manager with full access) and, once stopping has closed its last handle,
/// is rewritten.
pub proof fn install_checks_then_places(
    bundled: Seq<u8>,
    deployed: Vec<u8>,
    manager: isize,
    closed: bool,
    close_error: u32,
)
    ensures
        ({
            let (t, s) = InstallTask::start(bundled);
            &&& s == Step::<()>::Call(Request::ReadDeployedDriver)
            &&& t.step(Reply::Driver(DeployedDriver::Missing)) == (
                InstallTask::Deploying(DeployTask::MakingDirectory { force_rewrite: false }),
                Step::<()>::Call(Request::CreateDriverDirectory),
            )
            &&& deployed@ == bundled ==> t.step(Reply::Driver(DeployedDriver::Contents(deployed))) == (
                InstallTask::Deploying(DeployTask::MakingDirectory { force_rewrite: false }),
                Step::<()>::Call(Request::CreateDriverDirectory),
            )
            &&& content_digest(deployed@) != content_digest(bundled) ==> t.step(
                Reply::Driver(DeployedDriver::Contents(deployed)),
            ) == (
                InstallTask::Stopping(StopServiceTask::Connecting),
                Step::<()>::Call(Request::OpenManager { access: SC_MANAGER_ALL_ACCESS }),
            )
            &&& InstallTask::Stopping(StopServiceTask::Releasing { handle: manager, then: None }).step(
                Reply::Status { ok: closed, last_error: close_error },
            ) == (
                InstallTask::Deploying(DeployTask::MakingDirectory { force_rewrite: true }),
                Step::<()>::Call(Request::CreateDriverDirectory),
            )
        }),
{
}

/// Whether an exchange is a failed attempt to place the driver binary:
/// creating its directory or writing it reported an I/O error.
pub open spec fn failed_placement(e: (Request, Reply)) -> bool {
    match (e.0, e.1) {
        (Request::CreateDriverDirectory, Reply::Io(r)) => r is Err,
        (Request::WriteDriverFile, Reply::Io(r)) => r is Err,
        _ => false,
    }
}

/// Placing the driver binary ends an installation when it fails: whenever
/// creating the directory or writing the binary reports an I/O error, the
/// installation ends at once with exactly that error, making no further
/// call.
pub proof fn install_stops_when_placement_fails(t: InstallTask, e: std::io::Error)
    requires
        t.pending() == Some(Request::CreateDriverDirectory) || t.pending() == Some(
            Request::WriteDriverFile,
        ),
    ensures
        t.step(Reply::Io(Err(e))) == (InstallTask::Finished, Step::<()>::Done(Err(Error::Io(e)))),
{
}

proof fn lemma_ok_install_places(t: InstallTask, q: Request, replies: Seq<Reply>)
    requires
        t.pending() == Some(q),
        all_answered(install_exchanges(t, Step::Call(q), replies)),
        run_install(t, Step::Call(q), replies) == Step::<()>::Done(Ok(())),
    ensures
        forall|k: int|
            0 <= k < install_exchanges(t, Step::Call(q), replies).len() ==> !failed_placement(
                #[trigger] install_exchanges(t, Step::Call(q), replies)[k],
            ),
    decreases replies.len(),
{
    reveal_with_fuel(run_install, 2);
    let ex = install_exchanges(t, Step::Call(q), replies);
    assert(replies.len() > 0);
    let r0 = replies[0];
    let rest = replies.drop_first();
    let (t2, s2) = t.step(r0);
    assert(ex[0] == (q, r0));
    assert(answers(ex[0].0, ex[0].1));
    lemma_install_coherent(t, r0);
    if failed_placement(ex[0]) {
        assert(s2 is Done);
        assert(false);
    }
    match s2 {
        Step::Done(d) => {
            reveal_with_fuel(install_exchanges, 2);
            assert(install_exchanges(t2, Step::Done(d), rest) =~= Seq::empty());
            assert(ex =~= seq![(q, r0)]);
        },
        Step::Call(q2) => {
            let ex2 = install_exchanges(t2, Step::Call(q2), rest);
            assert(ex == seq![(q, r0)] + ex2);
            assert forall|k: int| 0 <= k < ex2.len() implies #[trigger] answers(ex2[k].0, ex2[k].1) by {
                assert(ex2[k] == ex[k + 1]);
            }
            lemma_ok_install_places(t2, q2, rest);
            assert forall|k: int| 0 <= k < ex.len() implies !failed_placement(#[trigger] ex[k]) by {
                if k > 0 {
                    assert(ex[k] == ex2[k - 1]);
                }
            }
        },
    }
}

/// An installation that ends with `Ok(())` placed its driver binary: no
/// attempt to create the directory or write the binary reported an error.
/// This holds for every sequence of replies that answer the requests they
/// are given to.
pub proof fn install_ok_means_binary_placed(bundled: Seq<u8>, replies: Seq<Reply>)
    requires
        all_answered(
            install_exchanges(InstallTask::start(bundled).0, InstallTask::start(bundled).1, replies),
        ),
        run_install(InstallTask::start(bundled).0, InstallTask::start(bundled).1, replies)
            == Step::<()>::Done(Ok(())),
    ensures
        forall|k: int|
            0 <= k < install_exchanges(
                InstallTask::start(bundled).0,
                InstallTask::start(bundled).1,
                replies,
            ).len() ==> !failed_placement(
                #[trigger] install_exchanges(
                    InstallTask::start(bundled).0,
                    InstallTask::start(bundled).1,
                    replies,
                )[k],
            ),
{
    lemma_ok_install_places(InstallTask::start(bundled).0, Request::ReadDeployedDriver, replies);
}

} // verus!
