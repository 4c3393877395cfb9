use handy::session::{
    Action, ChildStatus, ConfigFailure, CurlOutput, Event, TranscribeSession, POLL_INTERVAL_NANOS,
};

type Ev = Event<String, CurlOutput>;

fn out(stdout: &str, stderr: &str) -> CurlOutput {
    CurlOutput { stdout: stdout.as_bytes().to_vec(), stderr: stderr.as_bytes().to_vec() }
}

fn describe(a: &Action<String>) -> String {
    match a {
        Action::SpawnCurl => "spawn".into(),
        Action::SendConfig => "send".into(),
        Action::PollChild => "poll".into(),
        Action::Sleep(n) => format!("sleep {n}"),
        Action::KillChild => "kill".into(),
        Action::CollectOutput => "collect".into(),
        Action::ParseBody(b) => format!("parse {b}"),
        Action::Finish(Ok(t)) => format!("ok {t}"),
        Action::Finish(Err(e)) => format!("err {e}"),
    }
}

/// Feeds events in order (each with its time and generation) and records the actions.
fn run(generation: u64, steps: Vec<(u64, u64, Ev)>) -> Vec<String> {
    let mut s = TranscribeSession::new(generation);
    let mut actions = Vec::new();
    for (now, current, ev) in steps {
        assert!(s.accepts_event(&ev));
        actions.push(describe(&s.step(now, current, ev)));
    }
    actions
}

const MS: u64 = 1_000_000;

#[test]
fn successful_request_spawns_once_and_returns_text() {
    let a = run(
        7,
        vec![
            (0, 7, Event::Ready),
            (1, 7, Event::Spawned(Ok(()))),
            (2, 7, Event::ConfigSent(Ok(()))),
            (3, 7, Event::Polled(ChildStatus::Running)),
            (60 * MS, 7, Event::Ready),
            (61 * MS, 7, Event::Polled(ChildStatus::Exited)),
            (62 * MS, 7, Event::Collected(Ok(out("{\"text\":\"hi\"}\n200", "")))),
            (63 * MS, 7, Event::Parsed(Ok("hi".to_string()))),
        ],
    );
    assert_eq!(
        a,
        vec![
            "spawn",
            "send",
            "poll",
            &format!("sleep {POLL_INTERVAL_NANOS}"),
            "poll",
            "collect",
            "parse {\"text\":\"hi\"}",
            "ok hi"
        ]
    );
}

#[test]
fn cancelled_before_start_never_spawns() {
    let a = run(1, vec![(0, 2, Event::Ready)]);
    assert_eq!(a, vec!["err Transcription request cancelled"]);
}

#[test]
fn cancel_while_waiting_kills_curl_and_ends() {
    let mut s = TranscribeSession::new(0);
    assert_eq!(describe(&s.step(0, 0, Event::Ready)), "spawn");
    assert_eq!(describe(&s.step(0, 0, Event::Spawned(Ok(())))), "send");
    assert_eq!(describe(&s.step(0, 0, Event::ConfigSent(Ok(())))), "poll");
    assert_eq!(describe(&s.step(1, 0, Event::Polled(ChildStatus::Running))), "sleep 50000000");
    assert_eq!(describe(&s.step(2, 1, Event::Ready)), "kill");
    assert_eq!(describe(&s.step(3, 1, Event::Ready)), "err Transcription request cancelled");
    assert!(s.is_done());
    assert!(!s.accepts_event(&Event::Ready));
}

#[test]
fn hard_limit_kills_curl_without_retry() {
    let a = run(
        0,
        vec![
            (0, 0, Event::Ready),
            (0, 0, Event::Spawned(Ok(()))),
            (5, 0, Event::ConfigSent(Ok(()))),
            (5 + 50_000 * MS, 0, Event::Ready),
            (5 + 50_001 * MS, 0, Event::Ready),
        ],
    );
    assert_eq!(
        a,
        vec!["spawn", "send", "poll", "kill", "err Transcription request timed out after 45 seconds"]
    );
}

#[test]
fn transient_failure_is_retried_once_after_the_delay() {
    let a = run(
        0,
        vec![
            (0, 0, Event::Ready),
            (0, 0, Event::Spawned(Ok(()))),
            (0, 0, Event::ConfigSent(Ok(()))),
            (0, 0, Event::Polled(ChildStatus::Exited)),
            (1000, 0, Event::Collected(Ok(out("slow down\n429", "")))),
            (1000 + 480 * MS, 0, Event::Ready),
            (1000 + 500 * MS, 0, Event::Ready),
            (1000 + 501 * MS, 0, Event::Spawned(Ok(()))),
            (1000 + 502 * MS, 0, Event::ConfigSent(Ok(()))),
            (1000 + 503 * MS, 0, Event::Polled(ChildStatus::Exited)),
            (1000 + 504 * MS, 0, Event::Collected(Ok(out("still busy\n503", "")))),
        ],
    );
    assert_eq!(
        a,
        vec![
            "spawn",
            "send",
            "poll",
            "collect",
            "sleep 50000000",
            "sleep 20000000",
            "spawn",
            "send",
            "poll",
            "collect",
            "err Transcription request failed: HTTP 503 - still busy",
        ]
    );
}

#[test]
fn cancel_during_retry_delay_ends_request() {
    let a = run(
        3,
        vec![
            (0, 3, Event::Ready),
            (0, 3, Event::Spawned(Ok(()))),
            (0, 3, Event::ConfigSent(Err(ConfigFailure::Write("broken pipe".to_string())))),
            (0, 3, Event::Ready),
            (10 * MS, 4, Event::Ready),
        ],
    );
    assert_eq!(
        a,
        vec!["spawn", "send", "kill", "sleep 50000000", "err Transcription request cancelled"]
    );
}

#[test]
fn spawn_failure_is_fatal() {
    let a = run(0, vec![(0, 0, Event::Ready), (0, 0, Event::Spawned(Err("not found".to_string())))]);
    assert_eq!(a, vec!["spawn", "err Failed to run curl (is it installed?): not found"]);
}

#[test]
fn unparsable_ok_body_is_fatal() {
    let a = run(
        0,
        vec![
            (0, 0, Event::Ready),
            (0, 0, Event::Spawned(Ok(()))),
            (0, 0, Event::ConfigSent(Ok(()))),
            (0, 0, Event::Polled(ChildStatus::Exited)),
            (0, 0, Event::Collected(Ok(out("oops\n200", "")))),
            (0, 0, Event::Parsed(Err("expected value".to_string()))),
        ],
    );
    assert_eq!(
        a.last().unwrap(),
        "err Failed to parse transcription response: expected value (body: oops)"
    );
}

#[test]
fn failures_of_the_process_itself_are_retried() {
    let a = run(
        0,
        vec![
            (0, 0, Event::Ready),
            (0, 0, Event::Spawned(Ok(()))),
            (0, 0, Event::ConfigSent(Err(ConfigFailure::NoStdin))),
            (0, 0, Event::Ready),
            (500 * MS, 0, Event::Ready),
            (500 * MS, 0, Event::Spawned(Ok(()))),
            (500 * MS, 0, Event::ConfigSent(Ok(()))),
            (500 * MS, 0, Event::Polled(ChildStatus::Failed("gone".to_string()))),
            (500 * MS, 0, Event::Ready),
        ],
    );
    assert_eq!(
        a,
        vec![
            "spawn",
            "send",
            "kill",
            "sleep 50000000",
            "spawn",
            "send",
            "poll",
            "kill",
            "err Failed to poll curl process: gone"
        ]
    );
}

#[test]
fn collect_failure_and_invalid_utf8_output() {
    let a = run(
        0,
        vec![
            (0, 0, Event::Ready),
            (0, 0, Event::Spawned(Ok(()))),
            (0, 0, Event::ConfigSent(Ok(()))),
            (0, 0, Event::Polled(ChildStatus::Exited)),
            (0, 0, Event::Collected(Err("eof".to_string()))),
            (500 * MS, 0, Event::Ready),
            (500 * MS, 0, Event::Spawned(Ok(()))),
            (500 * MS, 0, Event::ConfigSent(Ok(()))),
            (500 * MS, 0, Event::Polled(ChildStatus::Exited)),
            (
                500 * MS,
                0,
                Event::Collected(Ok(CurlOutput { stdout: vec![0xff, b'\n', b'4', b'0', b'0'], stderr: vec![] })),
            ),
        ],
    );
    assert_eq!(a[4], "sleep 50000000");
    assert_eq!(a.last().unwrap(), "err Transcription request failed: HTTP 400 - \u{fffd}");
}

#[test]
fn cancel_before_config_is_sent_kills_curl() {
    let a = run(
        0,
        vec![
            (0, 0, Event::Ready),
            (0, 1, Event::Spawned(Ok(()))),
            (0, 1, Event::ConfigSent(Ok(()))),
            (0, 1, Event::Ready),
        ],
    );
    assert_eq!(a, vec!["spawn", "send", "kill", "err Transcription request cancelled"]);
}

#[test]
fn cancelled_transient_failure_is_not_retried() {
    let a = run(
        0,
        vec![
            (0, 0, Event::Ready),
            (0, 0, Event::Spawned(Ok(()))),
            (0, 0, Event::ConfigSent(Err(ConfigFailure::NoStdin))),
            (0, 1, Event::Ready),
        ],
    );
    assert_eq!(a, vec!["spawn", "send", "kill", "err Transcription request cancelled"]);
}
