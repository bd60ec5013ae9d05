//! The daemon's decisions: retrying the first model load with exponential
//! backoff, routing requests, answering inference requests, and reading the
//! port record that publishes where the daemon listens.

use vstd::prelude::*;
use vstd::string::*;
use crate::cache::{join, join_spec};
use crate::decimal::{parse_u16, u16_of};
use crate::text::{chars_of, trim_bounds, trimmed};

verus! {

/// The daemon subcommands.
pub enum DaemonCommand {
    /// Serve in the foreground.
    Run,
    /// Start the installed service, installing it first if needed.
    Start,
    Stop,
    Restart,
    /// Report whether the daemon runs and answers.
    Status,
    Logs { follow: bool },
    /// Stop the service and remove it.
    Uninstall,
}

/// One thing that a daemon subcommand does.
#[derive(PartialEq, Eq, Structural)]
pub enum DaemonTask {
    RunServer,
    /// Install the service unless it is installed.
    InstallIfMissing,
    StartService,
    /// Stop the service; a failure ends the command unless it is ignored.
    StopService { ignore_failure: bool },
    RestartService,
    ReportStatus,
    ShowLogs { follow: bool },
    UninstallService,
}

/// What a daemon subcommand does, in order.
pub open spec fn tasks_spec(action: DaemonCommand) -> Seq<DaemonTask> {
    match action {
        DaemonCommand::Run => seq![DaemonTask::RunServer],
        DaemonCommand::Start => seq![DaemonTask::InstallIfMissing, DaemonTask::StartService],
        DaemonCommand::Stop => seq![DaemonTask::StopService { ignore_failure: false }],
        DaemonCommand::Restart => seq![DaemonTask::RestartService],
        DaemonCommand::Status => seq![DaemonTask::ReportStatus],
        DaemonCommand::Logs { follow } => seq![DaemonTask::ShowLogs { follow }],
        DaemonCommand::Uninstall => seq![
            DaemonTask::StopService { ignore_failure: true },
            DaemonTask::UninstallService,
        ],
    }
}

/// The tasks of a daemon subcommand.
pub fn handle(action: &DaemonCommand) -> (r: Vec<DaemonTask>)
    ensures
        r@ == tasks_spec(*action),
{
    let r = match action {
        DaemonCommand::Run => vec![DaemonTask::RunServer],
        DaemonCommand::Start => vec![DaemonTask::InstallIfMissing, DaemonTask::StartService],
        DaemonCommand::Stop => vec![DaemonTask::StopService { ignore_failure: false }],
        DaemonCommand::Restart => vec![DaemonTask::RestartService],
        DaemonCommand::Status => vec![DaemonTask::ReportStatus],
        DaemonCommand::Logs { follow } => vec![DaemonTask::ShowLogs { follow: *follow }],
        DaemonCommand::Uninstall => vec![
            DaemonTask::StopService { ignore_failure: true },
            DaemonTask::UninstallService,
        ],
    };
    assert(r@ =~= tasks_spec(*action));
    r
}

/// A bounded retry policy with exponential backoff: the delay after the
/// `n`-th failure is `base_secs * min(2^(n-1), max_factor)`.
pub struct RetryPolicy {
    pub max_retries: u32,
    pub base_secs: u64,
    pub max_factor: u64,
}

/// The policy for the daemon's first model load.
pub fn startup_policy() -> (r: RetryPolicy)
    ensures
        r.max_retries == 10,
        r.base_secs == 2,
        r.max_factor == 32,
{
    RetryPolicy { max_retries: 10, base_secs: 2, max_factor: 32 }
}

pub open spec fn pow2(n: nat) -> nat
    decreases n,
{
    if n == 0 {
        1
    } else {
        2 * pow2((n - 1) as nat)
    }
}

pub open spec fn min_nat(a: nat, b: nat) -> nat {
    if a <= b {
        a
    } else {
        b
    }
}

/// Delay in seconds after the `n`-th failure, `n >= 1`.
pub open spec fn backoff_spec(p: RetryPolicy, n: nat) -> nat {
    (p.base_secs * min_nat(pow2((n - 1) as nat), p.max_factor as nat)) as nat
}

/// What to do after a failed attempt.
#[derive(PartialEq, Eq, Structural)]
pub enum RetryDecision {
    /// Sleep this many seconds, then try again.
    Wait(u64),
    /// The attempts are spent: fail for good.
    GiveUp,
}

/// The decision after the `failures`-th failure in a row.
pub open spec fn retry_spec(p: RetryPolicy, failures: nat) -> RetryDecision {
    if failures > p.max_retries {
        RetryDecision::GiveUp
    } else {
        RetryDecision::Wait(backoff_spec(p, failures) as u64)
    }
}

/// Decides, after the `failures`-th failure in a row (`failures >= 1`),
/// whether to wait and retry or to give up.
pub fn after_failure(p: &RetryPolicy, failures: u32) -> (r: RetryDecision)
    requires
        failures >= 1,
        p.max_factor >= 1,
        p.base_secs * p.max_factor <= u64::MAX,
    ensures
        r == retry_spec(*p, failures as nat),
        r matches RetryDecision::Wait(d) ==> d <= p.base_secs * p.max_factor,
{
    if failures > p.max_retries {
        return RetryDecision::GiveUp;
    }
    let mut factor: u64 = 1;
    let mut k: u32 = 0;
    while k < failures - 1
        invariant
            k <= failures - 1,
            p.max_factor >= 1,
            factor as nat == min_nat(pow2(k as nat), p.max_factor as nat),
        decreases failures - 1 - k,
    {
        if factor >= p.max_factor / 2 + p.max_factor % 2 {
            factor = p.max_factor;
        } else {
            factor = factor * 2;
        }
        k = k + 1;
    }
    assert(factor <= p.max_factor);
    proof {
        vstd::arithmetic::mul::lemma_mul_inequality(
            factor as int,
            p.max_factor as int,
            p.base_secs as int,
        );
        vstd::arithmetic::mul::lemma_mul_is_commutative(factor as int, p.base_secs as int);
        vstd::arithmetic::mul::lemma_mul_is_commutative(p.max_factor as int, p.base_secs as int);
    }
    RetryDecision::Wait(p.base_secs * factor)
}

/// The model load's retry loop: counts failures in a row.
pub struct Retry {
    pub policy: RetryPolicy,
    pub failures: u32,
}

impl Retry {
    pub fn new(policy: RetryPolicy) -> (r: Retry)
        ensures
            r.policy == policy,
            r.failures == 0,
    {
        Retry { policy, failures: 0 }
    }

    /// Records one more failure and says what to do.
    pub fn on_failure(&mut self) -> (r: RetryDecision)
        requires
            old(self).failures <= old(self).policy.max_retries,
            old(self).policy.max_retries < u32::MAX,
            old(self).policy.max_factor >= 1,
            old(self).policy.base_secs * old(self).policy.max_factor <= u64::MAX,
        ensures
            final(self).policy == old(self).policy,
            final(self).failures == old(self).failures + 1,
            r == retry_spec(old(self).policy, final(self).failures as nat),
    {
        self.failures = self.failures + 1;
        after_failure(&self.policy, self.failures)
    }
}

/// Request methods that the daemon tells apart.
pub enum Method {
    Get,
    Post,
    Other,
}

/// Where a request goes.
#[derive(PartialEq, Eq, Structural)]
pub enum Route {
    Health,
    Infer,
    NotFound,
}

/// Routes a request: `GET /health` and `POST /infer`; anything else is
/// not found.
pub fn route(method: &Method, url: &str) -> (r: Route)
    ensures
        r == (if *method is Get && url@ == "/health"@ {
            Route::Health
        } else if *method is Post && url@ == "/infer"@ {
            Route::Infer
        } else {
            Route::NotFound
        }),
{
    let u = chars_of(url);
    let health = chars_of("/health");
    let infer = chars_of("/infer");
    match method {
        Method::Get => if crate::text::has_prefix(&u, &health) && u.len() == health.len() {
            assert(u@ =~= health@ || !crate::text::starts_with(u@, health@));
            Route::Health
        } else {
            proof {
                if u@ == health@ {
                    assert(u@.subrange(0, health@.len() as int) =~= health@);
                }
            }
            Route::NotFound
        },
        Method::Post => if crate::text::has_prefix(&u, &infer) && u.len() == infer.len() {
            assert(u@ =~= infer@);
            Route::Infer
        } else {
            proof {
                if u@ == infer@ {
                    assert(u@.subrange(0, infer@.len() as int) =~= infer@);
                }
            }
            Route::NotFound
        },
        Method::Other => Route::NotFound,
    }
}

/// The body of a response, before it is encoded.
pub enum Payload {
    /// Plain text.
    Text(String),
    /// `{"fixes": [...]}`.
    Fixes(Vec<String>),
    /// `{"error": "..."}`.
    Error(String),
}

/// A response: status code and payload.
pub struct Response {
    pub status: u16,
    pub payload: Payload,
}

/// The liveness answer: 200, `ok`. It never touches the engine.
pub fn health_response() -> (r: Response)
    ensures
        r.status == 200,
        r.payload matches Payload::Text(t) && t@ == "ok"@,
{
    Response { status: 200, payload: Payload::Text(String::from_str("ok")) }
}

/// The answer to an unknown route: 404.
pub fn not_found_response() -> (r: Response)
    ensures
        r.status == 404,
        r.payload matches Payload::Text(t) && t@ == "not found"@,
{
    Response { status: 404, payload: Payload::Text(String::from_str("not found")) }
}

/// An inference request as it was read off the wire.
pub enum InferRequest {
    /// The body could not be read.
    Unreadable,
    /// The body is no JSON.
    InvalidJson,
    /// The JSON has no string field `prompt`.
    MissingPrompt,
    Prompt(String),
}

/// What the server does with an inference request.
pub enum InferAction {
    /// Answer at once, without the engine.
    Reply(Response),
    /// Run generation on this prompt.
    Generate(String),
}

/// `a` answers at once with this status and error message.
pub open spec fn error_reply(a: InferAction, status: u16, msg: Seq<char>) -> bool {
    match a {
        InferAction::Reply(resp) => resp.status == status && match resp.payload {
            Payload::Error(e) => e@ == msg,
            _ => false,
        },
        _ => false,
    }
}

/// Decides on an inference request: a malformed one is a client error and
/// never reaches the engine.
pub fn on_infer_request(req: InferRequest) -> (r: InferAction)
    ensures
        match req {
            InferRequest::Prompt(p) => r matches InferAction::Generate(q) && q@ == p@,
            InferRequest::Unreadable => error_reply(r, 400, "bad request"@),
            InferRequest::InvalidJson => error_reply(r, 400, "invalid json"@),
            InferRequest::MissingPrompt => error_reply(r, 400, "missing prompt"@),
        },
{
    match req {
        InferRequest::Unreadable => InferAction::Reply(
            Response { status: 400, payload: Payload::Error(String::from_str("bad request")) },
        ),
        InferRequest::InvalidJson => InferAction::Reply(
            Response { status: 400, payload: Payload::Error(String::from_str("invalid json")) },
        ),
        InferRequest::MissingPrompt => InferAction::Reply(
            Response { status: 400, payload: Payload::Error(String::from_str("missing prompt")) },
        ),
        InferRequest::Prompt(p) => InferAction::Generate(p),
    }
}

/// The answer once generation is over: the fixes (possibly none) with 200,
/// or the failure with 500.
pub fn on_generated(result: Result<Vec<String>, String>) -> (r: Response)
    ensures
        match result {
            Ok(f) => r.status == 200 && match r.payload {
                Payload::Fixes(g) => g@ == f@,
                _ => false,
            },
            Err(e) => r.status == 500 && match r.payload {
                Payload::Error(m) => m@ == e@,
                _ => false,
            },
        },
{
    match result {
        Ok(fixes) => Response { status: 200, payload: Payload::Fixes(fixes) },
        Err(e) => Response { status: 500, payload: Payload::Error(e) },
    }
}

/// Where the daemon publishes its port: in the runtime directory, else in
/// the data directory's `shit` folder, else in a per-user file under `/tmp`.
pub open spec fn port_file_spec(
    runtime_dir: Option<Seq<char>>,
    data_dir: Option<Seq<char>>,
    user: Option<Seq<char>>,
) -> Seq<char> {
    match runtime_dir {
        Some(r) => join_spec(r, "shitd.port"@),
        None => match data_dir {
            Some(d) => join_spec(join_spec(d, "shit"@), "shitd.port"@),
            None => "/tmp/shitd-"@ + match user {
                Some(u) => u,
                None => "unknown"@,
            } + ".port"@,
        },
    }
}

pub open spec fn opt_view(o: Option<&str>) -> Option<Seq<char>> {
    match o {
        Some(s) => Some(s@),
        None => None,
    }
}

/// The port record's path, given the runtime directory, the data directory
/// and the user's name, each where known.
pub fn port_file_path(runtime_dir: Option<&str>, data_dir: Option<&str>, user: Option<&str>) -> (r:
    String)
    ensures
        r@ == port_file_spec(opt_view(runtime_dir), opt_view(data_dir), opt_view(user)),
{
    match runtime_dir {
        Some(r) => join(r, "shitd.port"),
        None => match data_dir {
            Some(d) => {
                let dir = join(d, "shit");
                join(dir.as_str(), "shitd.port")
            },
            None => {
                let mut p = String::from_str("/tmp/shitd-");
                match user {
                    Some(u) => p.append(u),
                    None => p.append("unknown"),
                }
                p.append(".port");
                p
            },
        },
    }
}

/// What a port record says.
#[derive(PartialEq, Eq, Structural)]
pub enum PortRecord {
    /// There is no record: no daemon runs.
    Absent,
    /// The record holds no port number.
    Invalid,
    /// The daemon should listen on this port.
    Port(u16),
}

pub open spec fn record_spec(contents: Option<Seq<char>>) -> PortRecord {
    match contents {
        None => PortRecord::Absent,
        Some(c) => match u16_of(trimmed(c)) {
            Some(p) => PortRecord::Port(p),
            None => PortRecord::Invalid,
        },
    }
}

/// Reads a port record: its contents, trimmed, are a decimal port.
pub fn read_port_record(contents: Option<&str>) -> (r: PortRecord)
    ensures
        r == record_spec(
            match contents {
                Some(c) => Some(c@),
                None => None,
            },
        ),
{
    match contents {
        None => PortRecord::Absent,
        Some(c) => {
            let v = chars_of(c);
            let (lo, hi) = trim_bounds(&v);
            match parse_u16(&v, lo, hi) {
                Some(p) => PortRecord::Port(p),
                None => PortRecord::Invalid,
            }
        },
    }
}

/// The daemon's state as a status query reports it.
#[derive(PartialEq, Eq, Structural)]
pub enum DaemonStatus {
    /// No port record: not running.
    NotRunning,
    /// The record holds no port.
    InvalidRecord,
    /// The liveness probe on the recorded port succeeded.
    Running(u16),
    /// A record exists but nothing answered on its port.
    NotResponding(u16),
}

/// The status, given the port record and, where it names a port, whether the
/// liveness probe on that port succeeded.
pub open spec fn status_spec(record: PortRecord, probe_ok: bool) -> DaemonStatus {
    match record {
        PortRecord::Absent => DaemonStatus::NotRunning,
        PortRecord::Invalid => DaemonStatus::InvalidRecord,
        PortRecord::Port(p) => if probe_ok {
            DaemonStatus::Running(p)
        } else {
            DaemonStatus::NotResponding(p)
        },
    }
}

/// Reports the daemon's status (see [`status_spec`]).
pub fn status_of(record: PortRecord, probe_ok: bool) -> (r: DaemonStatus)
    ensures
        r == status_spec(record, probe_ok),
{
    match record {
        PortRecord::Absent => DaemonStatus::NotRunning,
        PortRecord::Invalid => DaemonStatus::InvalidRecord,
        PortRecord::Port(p) => if probe_ok {
            DaemonStatus::Running(p)
        } else {
            DaemonStatus::NotResponding(p)
        },
    }
}

/// A record that names a port on which nothing answers reads as "not
/// responding" on that port, whatever a missing record's probe would say;
/// a missing record reads as "not running".
pub proof fn lemma_stale_record_is_not_absence(contents: Seq<char>, probe_ok: bool)
    requires
        record_spec(Some(contents)) is Port,
    ensures
        status_spec(record_spec(Some(contents)), false) == DaemonStatus::NotResponding(
            record_spec(Some(contents))->Port_0,
        ),
        status_spec(record_spec(None), probe_ok) == DaemonStatus::NotRunning,
        status_spec(record_spec(Some(contents)), false) != status_spec(record_spec(None), probe_ok),
{
}

} // verus!
