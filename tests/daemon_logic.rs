use shit::daemon::{
    after_failure, handle, health_response, not_found_response, on_generated, on_infer_request,
    port_file_path, read_port_record, route, startup_policy, status_of, DaemonCommand, DaemonStatus, DaemonTask,
    InferAction, InferRequest, Method, Payload, PortRecord, Retry, RetryDecision, Route,
};

#[test]
fn backoff_doubles_and_caps() {
    let p = startup_policy();
    let delays: Vec<RetryDecision> = (1..=11).map(|n| after_failure(&p, n)).collect();
    let expect = [2u64, 4, 8, 16, 32, 64, 64, 64, 64, 64];
    for (i, d) in expect.iter().enumerate() {
        assert!(delays[i] == RetryDecision::Wait(*d), "failure {}", i + 1);
    }
    assert!(delays[10] == RetryDecision::GiveUp);
}

#[test]
fn retry_counts_failures() {
    let mut r = Retry::new(startup_policy());
    for _ in 0..10 {
        assert!(matches!(r.on_failure(), RetryDecision::Wait(_)));
    }
    assert!(r.on_failure() == RetryDecision::GiveUp);
    assert_eq!(r.failures, 11);
}

#[test]
fn routes() {
    assert!(route(&Method::Get, "/health") == Route::Health);
    assert!(route(&Method::Post, "/infer") == Route::Infer);
    assert!(route(&Method::Post, "/health") == Route::NotFound);
    assert!(route(&Method::Get, "/infer") == Route::NotFound);
    assert!(route(&Method::Get, "/healthz") == Route::NotFound);
    assert!(route(&Method::Other, "/health") == Route::NotFound);
}

#[test]
fn fixed_responses() {
    let h = health_response();
    assert_eq!(h.status, 200);
    assert!(matches!(h.payload, Payload::Text(ref t) if t == "ok"));
    let n = not_found_response();
    assert_eq!(n.status, 404);
}

#[test]
fn malformed_requests_are_client_errors() {
    for (req, msg) in [
        (InferRequest::Unreadable, "bad request"),
        (InferRequest::InvalidJson, "invalid json"),
        (InferRequest::MissingPrompt, "missing prompt"),
    ] {
        match on_infer_request(req) {
            InferAction::Reply(r) => {
                assert_eq!(r.status, 400);
                assert!(matches!(r.payload, Payload::Error(ref e) if e == msg));
            }
            InferAction::Generate(_) => panic!("must not reach the engine"),
        }
    }
    assert!(matches!(on_infer_request(InferRequest::Prompt("p".to_string())), InferAction::Generate(ref p) if p == "p"));
}

#[test]
fn generation_outcomes() {
    let ok = on_generated(Ok(vec![]));
    assert_eq!(ok.status, 200);
    assert!(matches!(ok.payload, Payload::Fixes(ref f) if f.is_empty()));
    let err = on_generated(Err("boom".to_string()));
    assert_eq!(err.status, 500);
    assert!(matches!(err.payload, Payload::Error(ref e) if e == "boom"));
}

#[test]
fn port_records() {
    assert!(read_port_record(None) == PortRecord::Absent);
    assert!(read_port_record(Some("43117\n")) == PortRecord::Port(43117));
    assert!(read_port_record(Some("garbage")) == PortRecord::Invalid);
    assert!(read_port_record(Some("70000")) == PortRecord::Invalid);
}

#[test]
fn liveness_distinguishes_stale_record() {
    assert!(status_of(PortRecord::Absent, false) == DaemonStatus::NotRunning);
    assert!(status_of(read_port_record(Some("5000")), false) == DaemonStatus::NotResponding(5000));
    assert!(status_of(read_port_record(Some("5000")), true) == DaemonStatus::Running(5000));
    assert!(status_of(PortRecord::Invalid, true) == DaemonStatus::InvalidRecord);
}

#[test]
fn subcommand_tasks() {
    assert!(handle(&DaemonCommand::Start) == vec![DaemonTask::InstallIfMissing, DaemonTask::StartService]);
    assert!(
        handle(&DaemonCommand::Uninstall)
            == vec![DaemonTask::StopService { ignore_failure: true }, DaemonTask::UninstallService]
    );
    assert!(handle(&DaemonCommand::Logs { follow: true }) == vec![DaemonTask::ShowLogs { follow: true }]);
    assert!(handle(&DaemonCommand::Run) == vec![DaemonTask::RunServer]);
}

#[test]
fn port_file_locations() {
    assert_eq!(port_file_path(Some("/run/user/1000"), Some("/d"), Some("u")), "/run/user/1000/shitd.port");
    assert_eq!(port_file_path(None, Some("/home/u/.local/share"), Some("u")), "/home/u/.local/share/shit/shitd.port");
    assert_eq!(port_file_path(None, None, Some("ann")), "/tmp/shitd-ann.port");
    assert_eq!(port_file_path(None, None, None), "/tmp/shitd-unknown.port");
}
