//! The client dispatcher: ask the daemon when a port record names one, and
//! fall back to a local run on any failure, silently when there is none.

use vstd::prelude::*;
use crate::daemon::PortRecord;

verus! {

/// What came back from asking the daemon.
pub enum DaemonReply {
    /// The daemon answered with these fixes.
    Fixes(Vec<String>),
    /// Timeout, refused connection, error status or malformed answer.
    Failed,
}

/// The dispatcher's next step.
pub enum InferStep {
    /// Send the prompt to the daemon on this port.
    AskDaemon(u16),
    /// Resolve and load the model here and generate locally.
    RunLocally,
    /// These are the fixes.
    Done(Vec<String>),
}

/// The step that [`infer`] takes for a port record and, once the daemon
/// was asked, its reply.
pub open spec fn infer_post(record: PortRecord, reply: Option<DaemonReply>, r: InferStep) -> bool {
    match record {
        PortRecord::Port(p) => match reply {
            None => r == InferStep::AskDaemon(p),
            Some(DaemonReply::Fixes(f)) => r matches InferStep::Done(g) && g@ == f@,
            Some(DaemonReply::Failed) => r is RunLocally,
        },
        _ => r is RunLocally,
    }
}

/// Decides where the fixes come from, given the port record and, once the
/// daemon was asked, its reply.
pub fn infer(record: &PortRecord, reply: Option<DaemonReply>) -> (r: InferStep)
    ensures
        infer_post(*record, reply, r),
{
    match record {
        PortRecord::Port(p) => match reply {
            None => InferStep::AskDaemon(*p),
            Some(DaemonReply::Fixes(f)) => InferStep::Done(f),
            Some(DaemonReply::Failed) => InferStep::RunLocally,
        },
        _ => InferStep::RunLocally,
    }
}

/// Without a port record the client never contacts a daemon and runs
/// locally, whatever a daemon would have answered, exactly as a client
/// without daemon support; so it does with an unreadable record, and after
/// a failed request.
pub proof fn lemma_fallback_transparent(reply: Option<DaemonReply>, r: InferStep, port: u16)
    ensures
        infer_post(PortRecord::Absent, reply, r) ==> r is RunLocally,
        infer_post(PortRecord::Invalid, reply, r) ==> r is RunLocally,
        infer_post(PortRecord::Port(port), Some(DaemonReply::Failed), r) ==> r is RunLocally,
{
}

} // verus!
