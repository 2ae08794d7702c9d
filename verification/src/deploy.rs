use vstd::pervasive::{arbitrary, unreached};
use vstd::prelude::*;

use crate::calls::{answers, DeployedDriver, Reply, Request, Step};
use crate::digest::{content_digest, hash_bytes};
use crate::error::{Error, Result};

verus! {

/// What comparing the deployed driver binary with the bundled one gives:
/// nothing deployed means nothing to update; otherwise an update is needed
/// when the content digests differ.
pub open spec fn update_outcome(deployed: DeployedDriver, bundled_digest: u64) -> Result<bool> {
    match deployed {
        DeployedDriver::Missing => Ok(false),
        DeployedDriver::Contents(bytes) => Ok(content_digest(bytes@) != bundled_digest),
        DeployedDriver::Unreadable(e) => Err(Error::Io(e)),
    }
}

/// Deciding whether the deployed driver binary differs from the bundled one.
pub enum NeedsUpdateTask {
    Reading { bundled_digest: u64 },
    Finished,
}

impl NeedsUpdateTask {
    /// The request whose reply the task awaits; `None` once it has ended.
    pub open spec fn pending(self) -> Option<Request> {
        match self {
            NeedsUpdateTask::Reading { .. } => Some(Request::ReadDeployedDriver),
            NeedsUpdateTask::Finished => None,
        }
    }

    /// The task as it begins, and its first request.
    pub open spec fn start(bundled: Seq<u8>) -> (NeedsUpdateTask, Step<bool>) {
        (
            NeedsUpdateTask::Reading { bundled_digest: content_digest(bundled) },
            Step::Call(Request::ReadDeployedDriver),
        )
    }

    /// The task after the reply to its pending request, and what it asks
    /// for next: another call, or its end with a result.
    pub open spec fn step(self, reply: Reply) -> (NeedsUpdateTask, Step<bool>) {
        match (self, reply) {
            (NeedsUpdateTask::Reading { bundled_digest }, Reply::Driver(deployed)) => (
                NeedsUpdateTask::Finished,
                Step::Done(update_outcome(deployed, bundled_digest)),
            ),
            _ => arbitrary(),
        }
    }

    /// Starts the comparison with the bundled image `bundled`: the
    /// deployed binary is read first.
    pub fn begin(bundled: &[u8]) -> (r: (NeedsUpdateTask, Step<bool>))
        ensures
            r == NeedsUpdateTask::start(bundled@),
            r.1 matches Step::Call(q) && r.0.pending() == Some(q),
    {
        let bundled_digest: u64 = hash_bytes(bundled);
        (NeedsUpdateTask::Reading { bundled_digest }, Step::Call(Request::ReadDeployedDriver))
    }

    /// Takes the reply to the pending request and says what comes next.
    pub fn resume(self, reply: Reply) -> (r: (NeedsUpdateTask, Step<bool>))
        requires
            self.pending() matches Some(req) && answers(req, reply),
        ensures
            r == self.step(reply),
            r.1 matches Step::Call(q) ==> r.0.pending() == Some(q),
            r.1 is Done ==> r.0.pending() is None,
    {
        match (self, reply) {
            (NeedsUpdateTask::Reading { bundled_digest }, Reply::Driver(deployed)) => {
                let outcome = match deployed {
                    DeployedDriver::Missing => Ok(false),
                    DeployedDriver::Contents(bytes) => Ok(hash_bytes(bytes.as_slice()) != bundled_digest),
                    DeployedDriver::Unreadable(e) => Err(Error::from(e)),
                };
                (NeedsUpdateTask::Finished, Step::Done(outcome))
            },
            _ => unreached(),
        }
    }
}

/// Placing the bundled driver binary at its deployment path: the directory
/// is created, then the binary written when a rewrite is forced or no
/// binary is there yet.
pub enum DeployTask {
    MakingDirectory { force_rewrite: bool },
    Checking,
    Writing,
    Finished,
}

impl DeployTask {
    /// The request whose reply the task awaits; `None` once it has ended.
    pub open spec fn pending(self) -> Option<Request> {
        match self {
            DeployTask::MakingDirectory { .. } => Some(Request::CreateDriverDirectory),
            DeployTask::Checking => Some(Request::CheckDriverFile),
            DeployTask::Writing => Some(Request::WriteDriverFile),
            DeployTask::Finished => None,
        }
    }

    /// The task as it begins, and its first request.
    pub open spec fn start(force_rewrite: bool) -> (DeployTask, Step<()>) {
        (DeployTask::MakingDirectory { force_rewrite }, Step::Call(Request::CreateDriverDirectory))
    }

    /// The task after the reply to its pending request, and what it asks
    /// for next: another call, or its end with a result.
    pub open spec fn step(self, reply: Reply) -> (DeployTask, Step<()>) {
        match (self, reply) {
            (DeployTask::MakingDirectory { force_rewrite }, Reply::Io(r)) => match r {
                Err(e) => (DeployTask::Finished, Step::Done(Err(Error::Io(e)))),
                Ok(()) => if force_rewrite {
                    (DeployTask::Writing, Step::Call(Request::WriteDriverFile))
                } else {
                    (DeployTask::Checking, Step::Call(Request::CheckDriverFile))
                },
            },
            (DeployTask::Checking, Reply::Exists(exists)) => if exists {
                (DeployTask::Finished, Step::Done(Ok(())))
            } else {
                (DeployTask::Writing, Step::Call(Request::WriteDriverFile))
            },
            (DeployTask::Writing, Reply::Io(r)) => match r {
                Err(e) => (DeployTask::Finished, Step::Done(Err(Error::Io(e)))),
                Ok(()) => (DeployTask::Finished, Step::Done(Ok(()))),
            },
            _ => arbitrary(),
        }
    }

    /// Starts deploying; `force_rewrite` replaces a binary already there.
    pub fn begin(force_rewrite: bool) -> (r: (DeployTask, Step<()>))
        ensures
            r == DeployTask::start(force_rewrite),
            r.1 matches Step::Call(q) && r.0.pending() == Some(q),
    {
        (DeployTask::MakingDirectory { force_rewrite }, Step::Call(Request::CreateDriverDirectory))
    }

    /// Takes the reply to the pending request and says what comes next.
    pub fn resume(self, reply: Reply) -> (r: (DeployTask, Step<()>))
        requires
            self.pending() matches Some(req) && answers(req, reply),
        ensures
            r == self.step(reply),
            r.1 matches Step::Call(q) ==> r.0.pending() == Some(q),
            r.1 is Done ==> r.0.pending() is None,
    {
        match (self, reply) {
            (DeployTask::MakingDirectory { force_rewrite }, Reply::Io(r)) => match r {
                Err(e) => (DeployTask::Finished, Step::Done(Err(Error::from(e)))),
                Ok(()) => if force_rewrite {
                    (DeployTask::Writing, Step::Call(Request::WriteDriverFile))
                } else {
                    (DeployTask::Checking, Step::Call(Request::CheckDriverFile))
                },
            },
            (DeployTask::Checking, Reply::Exists(exists)) => if exists {
                (DeployTask::Finished, Step::Done(Ok(())))
            } else {
                (DeployTask::Writing, Step::Call(Request::WriteDriverFile))
            },
            (DeployTask::Writing, Reply::Io(r)) => match r {
                Err(e) => (DeployTask::Finished, Step::Done(Err(Error::from(e)))),
                Ok(()) => (DeployTask::Finished, Step::Done(Ok(()))),
            },
            _ => unreached(),
        }
    }
}

} // verus!
