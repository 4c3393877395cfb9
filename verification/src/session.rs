//! The decisions of one cloud transcription request, as a state machine.
//!
//! The caller runs curl: it performs each `Action` the session asks for and
//! hands back what happened as an `Event`, together with the time since the
//! session started and the cancellation generation now current. The session
//! decides everything else: when to give up, what to retry, how long to wait,
//! and which error a failure becomes.

use vstd::prelude::*;
use crate::remote::{
    cancelled_since, classify_response, next_generation, spec_classify_response, take_chars,
    first_chars, Verdict, MAX_ATTEMPTS, NANOS_PER_SEC, REQUEST_TIMEOUT_SECS,
};
use crate::text::{decimal, push_decimal};

verus! {

/// Nanoseconds curl may run before it is killed: its own `max-time` plus five
/// seconds, in case a curl build ignores that option.
pub const HARD_LIMIT_NANOS: u64 = 50_000_000_000;

/// Nanoseconds to wait before the second attempt.
pub const RETRY_DELAY_NANOS: u64 = 500_000_000;

/// Nanoseconds between two looks at a running curl process, and the longest
/// single sleep the session asks for.
pub const POLL_INTERVAL_NANOS: u64 = 50_000_000;

/// `String::from_utf8_lossy`: the text of `bytes`, with every invalid UTF-8
/// sequence replaced by U+FFFD.
pub uninterp spec fn utf8_lossy(bytes: Seq<u8>) -> Seq<char>;

/// Calls `String::from_utf8_lossy`. Claims that the result is the lossy text
/// of the bytes, and that valid UTF-8 is decoded unchanged.
#[verifier::external_body]
fn decode_utf8_lossy(bytes: &[u8]) -> (s: String)
    ensures
        s@ == utf8_lossy(bytes@),
        vstd::utf8::valid_utf8(bytes@) ==> s@ == vstd::utf8::decode_utf8(bytes@),
{
    String::from_utf8_lossy(bytes).into_owned()
}

/// What one attempt came to.
pub enum Outcome<S> {
    Success(S),
    Retryable(S),
    Fatal(S),
    Cancelled,
}

/// What a look at the curl process found.
pub enum ChildStatus<S> {
    Running,
    Exited,
    /// The process could not be polled; the error's text.
    Failed(S),
}

/// Why the config could not be handed to curl.
pub enum ConfigFailure<S> {
    /// curl's stdin could not be opened.
    NoStdin,
    /// Writing to curl's stdin failed; the error's text.
    Write(S),
}

/// The bytes curl wrote.
pub struct CurlOutput {
    pub stdout: Vec<u8>,
    pub stderr: Vec<u8>,
}

/// What happened since the last action.
pub enum Event<S, O> {
    /// The last action (a sleep or a kill) is done, or the session starts.
    Ready,
    /// curl was started, or the error's text.
    Spawned(Result<(), S>),
    /// The config reached curl's stdin, or why not.
    ConfigSent(Result<(), ConfigFailure<S>>),
    /// What polling the process found.
    Polled(ChildStatus<S>),
    /// The collected output, or the error's text.
    Collected(Result<O, S>),
    /// The `text` field of the body, or the parse error's text.
    Parsed(Result<S, S>),
}

/// What the caller is to do next.
pub enum Action<S> {
    /// Start `curl -K -` with piped stdin, stdout and stderr.
    SpawnCurl,
    /// Write the config to curl's stdin and close it.
    SendConfig,
    /// Check whether curl has exited, without blocking.
    PollChild,
    /// Sleep this many nanoseconds.
    Sleep(u64),
    /// Kill curl and wait for it.
    KillChild,
    /// Wait for curl and collect its output.
    CollectOutput,
    /// Parse this body as the JSON response and read its `text` field.
    ParseBody(S),
    /// The request is over, with this result.
    Finish(Result<S, S>),
}

/// Where a session stands.
pub enum Phase<S> {
    /// An attempt is about to begin.
    StartAttempt,
    /// curl is being started.
    Spawning,
    /// The config is being written to curl.
    SendingConfig,
    /// curl runs; it was sent its config at this time.
    Waiting(u64),
    /// curl is being killed; the attempt then ends so.
    Killing(Outcome<S>),
    /// curl's output is being collected; it was sent its config at this time.
    Collecting(u64),
    /// This body is being parsed.
    Parsing(S),
    /// The retry delay runs since this time.
    RetryWait(u64),
    /// The session has finished.
    Done,
}

/// The state of a session as a value.
pub struct SessionState {
    /// The cancellation generation the request captured.
    pub generation: u64,
    /// The index of the current attempt.
    pub attempt: nat,
    /// How many times curl was started.
    pub spawned: nat,
    pub phase: Phase<Seq<char>>,
}

pub open spec fn outcome_view(o: Outcome<String>) -> Outcome<Seq<char>> {
    match o {
        Outcome::Success(s) => Outcome::Success(s@),
        Outcome::Retryable(s) => Outcome::Retryable(s@),
        Outcome::Fatal(s) => Outcome::Fatal(s@),
        Outcome::Cancelled => Outcome::Cancelled,
    }
}

pub open spec fn phase_view(p: Phase<String>) -> Phase<Seq<char>> {
    match p {
        Phase::StartAttempt => Phase::StartAttempt,
        Phase::Spawning => Phase::Spawning,
        Phase::SendingConfig => Phase::SendingConfig,
        Phase::Waiting(t) => Phase::Waiting(t),
        Phase::Killing(o) => Phase::Killing(outcome_view(o)),
        Phase::Collecting(t) => Phase::Collecting(t),
        Phase::Parsing(b) => Phase::Parsing(b@),
        Phase::RetryWait(t) => Phase::RetryWait(t),
        Phase::Done => Phase::Done,
    }
}

impl View for Action<String> {
    type V = Action<Seq<char>>;

    open spec fn view(&self) -> Action<Seq<char>> {
        match self {
            Action::SpawnCurl => Action::SpawnCurl,
            Action::SendConfig => Action::SendConfig,
            Action::PollChild => Action::PollChild,
            Action::Sleep(n) => Action::Sleep(*n),
            Action::KillChild => Action::KillChild,
            Action::CollectOutput => Action::CollectOutput,
            Action::ParseBody(b) => Action::ParseBody(b@),
            Action::Finish(Ok(t)) => Action::Finish(Ok(t@)),
            Action::Finish(Err(e)) => Action::Finish(Err(e@)),
        }
    }
}

impl View for Event<String, CurlOutput> {
    type V = Event<Seq<char>, (Seq<u8>, Seq<u8>)>;

    open spec fn view(&self) -> Event<Seq<char>, (Seq<u8>, Seq<u8>)> {
        match self {
            Event::Ready => Event::Ready,
            Event::Spawned(Ok(())) => Event::Spawned(Ok(())),
            Event::Spawned(Err(e)) => Event::Spawned(Err(e@)),
            Event::ConfigSent(Ok(())) => Event::ConfigSent(Ok(())),
            Event::ConfigSent(Err(ConfigFailure::NoStdin)) => Event::ConfigSent(
                Err(ConfigFailure::NoStdin),
            ),
            Event::ConfigSent(Err(ConfigFailure::Write(e))) => Event::ConfigSent(
                Err(ConfigFailure::Write(e@)),
            ),
            Event::Polled(ChildStatus::Running) => Event::Polled(ChildStatus::Running),
            Event::Polled(ChildStatus::Exited) => Event::Polled(ChildStatus::Exited),
            Event::Polled(ChildStatus::Failed(e)) => Event::Polled(ChildStatus::Failed(e@)),
            Event::Collected(Ok(out)) => Event::Collected(Ok((out.stdout@, out.stderr@))),
            Event::Collected(Err(e)) => Event::Collected(Err(e@)),
            Event::Parsed(Ok(t)) => Event::Parsed(Ok(t@)),
            Event::Parsed(Err(e)) => Event::Parsed(Err(e@)),
        }
    }
}

/// The decisions of one transcription request.
pub struct TranscribeSession {
    generation: u64,
    attempt: usize,
    spawned: usize,
    phase: Phase<String>,
}

impl View for TranscribeSession {
    type V = SessionState;

    closed spec fn view(&self) -> SessionState {
        SessionState {
            generation: self.generation,
            attempt: self.attempt as nat,
            spawned: self.spawned as nat,
            phase: phase_view(self.phase),
        }
    }
}

/// The message of a cancelled request.
pub open spec fn cancelled_message() -> Seq<char> {
    "Transcription request cancelled"@
}

/// The message of a request that outran the hard limit.
pub open spec fn timeout_message() -> Seq<char> {
    "Transcription request timed out after "@ + decimal(REQUEST_TIMEOUT_SECS as nat)
        + " seconds"@
}

/// Nanoseconds from `since` to `now`, or zero if `now` is earlier.
pub open spec fn elapsed(now: u64, since: u64) -> u64 {
    if now >= since {
        (now - since) as u64
    } else {
        0
    }
}

/// The invariant of a session: it never has more than `MAX_ATTEMPTS` attempts,
/// it has started curl once for each attempt past its first action, and a
/// killed process never counts as a success.
pub open spec fn session_wf(s: SessionState) -> bool {
    &&& s.attempt < MAX_ATTEMPTS
    &&& !(s.phase matches Phase::Killing(Outcome::Success(_)))
    &&& match s.phase {
        Phase::StartAttempt => s.spawned == s.attempt,
        Phase::RetryWait(_) => s.spawned == s.attempt + 1 && s.attempt + 1 < MAX_ATTEMPTS,
        Phase::Done => s.spawned <= s.attempt + 1,
        _ => s.spawned == s.attempt + 1,
    }
}

/// Whether the session, standing at `phase`, takes `event` next.
pub open spec fn accepts(phase: Phase<Seq<char>>, event: Event<Seq<char>, (Seq<u8>, Seq<u8>)>) -> bool {
    match phase {
        Phase::StartAttempt => event is Ready,
        Phase::Spawning => event is Spawned,
        Phase::SendingConfig => event is ConfigSent,
        Phase::Waiting(_) => event is Ready || event is Polled,
        Phase::Killing(_) => event is Ready,
        Phase::Collecting(_) => event is Collected,
        Phase::Parsing(_) => event is Parsed,
        Phase::RetryWait(_) => event is Ready,
        Phase::Done => false,
    }
}

/// The end of the session once an attempt has ended with `outcome`: success,
/// cancellation and fatal failures finish it; a transient failure finishes it
/// on the last attempt and otherwise starts the retry delay.
pub open spec fn spec_conclude(
    s: SessionState,
    now: u64,
    current: u64,
    outcome: Outcome<Seq<char>>,
) -> (SessionState, Action<Seq<char>>) {
    let done = SessionState { phase: Phase::Done, ..s };
    match outcome {
        Outcome::Success(text) => (done, Action::Finish(Ok(text))),
        Outcome::Cancelled => (done, Action::Finish(Err(cancelled_message()))),
        Outcome::Fatal(e) => (done, Action::Finish(Err(e))),
        Outcome::Retryable(e) => if s.attempt + 1 >= MAX_ATTEMPTS {
            (done, Action::Finish(Err(e)))
        } else {
            spec_retry_check(SessionState { phase: Phase::RetryWait(now), ..s }, now, now, current)
        },
    }
}

/// The start of an attempt: a cancelled request ends; otherwise curl is started.
pub open spec fn spec_begin_attempt(s: SessionState, now: u64, current: u64) -> (
    SessionState,
    Action<Seq<char>>,
) {
    if cancelled_since(current, s.generation) {
        (SessionState { phase: Phase::Done, ..s }, Action::Finish(Err(cancelled_message())))
    } else {
        (
            SessionState { phase: Phase::Spawning, spawned: s.spawned + 1, ..s },
            Action::SpawnCurl,
        )
    }
}

/// One turn of the retry delay that began at `started`: once it has passed, the
/// next attempt begins; before that, a cancellation ends the request, and
/// otherwise the session sleeps for what is left, at most one poll interval.
pub open spec fn spec_retry_check(s: SessionState, started: u64, now: u64, current: u64) -> (
    SessionState,
    Action<Seq<char>>,
) {
    let waited = elapsed(now, started);
    if waited < RETRY_DELAY_NANOS {
        if cancelled_since(current, s.generation) {
            (SessionState { phase: Phase::Done, ..s }, Action::Finish(Err(cancelled_message())))
        } else {
            let left = (RETRY_DELAY_NANOS - waited) as u64;
            (s, Action::Sleep(if left < POLL_INTERVAL_NANOS { left } else { POLL_INTERVAL_NANOS }))
        }
    } else {
        spec_begin_attempt(SessionState { attempt: s.attempt + 1, ..s }, now, current)
    }
}

/// One turn of waiting for curl, which was sent its config at `started`: a
/// cancellation or the hard limit has it killed; otherwise it is polled.
pub open spec fn spec_wait_check(s: SessionState, started: u64, now: u64, current: u64) -> (
    SessionState,
    Action<Seq<char>>,
) {
    if cancelled_since(current, s.generation) {
        (SessionState { phase: Phase::Killing(Outcome::Cancelled), ..s }, Action::KillChild)
    } else if elapsed(now, started) >= HARD_LIMIT_NANOS {
        (
            SessionState { phase: Phase::Killing(Outcome::Fatal(timeout_message())), ..s },
            Action::KillChild,
        )
    } else {
        (s, Action::PollChild)
    }
}

/// How a collected output ends the attempt, or goes on to be parsed.
pub open spec fn spec_collected(
    s: SessionState,
    started: u64,
    now: u64,
    current: u64,
    output: (Seq<u8>, Seq<u8>),
) -> (SessionState, Action<Seq<char>>) {
    let stdout = utf8_lossy(output.0);
    let stderr = utf8_lossy(output.1);
    match spec_classify_response(stdout, stderr, elapsed(now, started)) {
        Verdict::Body(body) => (SessionState { phase: Phase::Parsing(body), ..s }, Action::ParseBody(body)),
        Verdict::Retryable(e) => spec_conclude(s, now, current, Outcome::Retryable(e)),
        Verdict::Fatal(e) => spec_conclude(s, now, current, Outcome::Fatal(e)),
    }
}

/// The message of a body that did not parse.
pub open spec fn parse_failure_message(err: Seq<char>, body: Seq<char>) -> Seq<char> {
    "Failed to parse transcription response: "@ + err + " (body: "@ + first_chars(body, 200)
        + ")"@
}

/// The message of a config that could not be written.
pub open spec fn config_failure_message(f: ConfigFailure<Seq<char>>) -> Seq<char> {
    match f {
        ConfigFailure::NoStdin => "Failed to open curl stdin"@,
        ConfigFailure::Write(e) => "Failed to configure curl request: "@ + e,
    }
}

/// The transition of a session on `event`, at `now` nanoseconds after it
/// started, with `current` the cancellation generation now current.
pub open spec fn spec_step(
    s: SessionState,
    now: u64,
    current: u64,
    event: Event<Seq<char>, (Seq<u8>, Seq<u8>)>,
) -> (SessionState, Action<Seq<char>>) {
    match (s.phase, event) {
        (Phase::StartAttempt, Event::Ready) => spec_begin_attempt(s, now, current),
        (Phase::Spawning, Event::Spawned(Ok(()))) => (
            SessionState { phase: Phase::SendingConfig, ..s },
            Action::SendConfig,
        ),
        (Phase::Spawning, Event::Spawned(Err(e))) => spec_conclude(
            s,
            now,
            current,
            Outcome::Fatal("Failed to run curl (is it installed?): "@ + e),
        ),
        (Phase::SendingConfig, Event::ConfigSent(Ok(()))) => spec_wait_check(
            SessionState { phase: Phase::Waiting(now), ..s },
            now,
            now,
            current,
        ),
        (Phase::SendingConfig, Event::ConfigSent(Err(f))) => (
            SessionState {
                phase: Phase::Killing(Outcome::Retryable(config_failure_message(f))),
                ..s
            },
            Action::KillChild,
        ),
        (Phase::Waiting(started), Event::Ready) => spec_wait_check(s, started, now, current),
        (Phase::Waiting(started), Event::Polled(ChildStatus::Running)) => (
            s,
            Action::Sleep(POLL_INTERVAL_NANOS),
        ),
        (Phase::Waiting(started), Event::Polled(ChildStatus::Exited)) => (
            SessionState { phase: Phase::Collecting(started), ..s },
            Action::CollectOutput,
        ),
        (Phase::Waiting(started), Event::Polled(ChildStatus::Failed(e))) => (
            SessionState {
                phase: Phase::Killing(Outcome::Retryable("Failed to poll curl process: "@ + e)),
                ..s
            },
            Action::KillChild,
        ),
        (Phase::Killing(outcome), Event::Ready) => spec_conclude(s, now, current, outcome),
        (Phase::Collecting(started), Event::Collected(Ok(output))) => spec_collected(
            s,
            started,
            now,
            current,
            output,
        ),
        (Phase::Collecting(started), Event::Collected(Err(e))) => spec_conclude(
            s,
            now,
            current,
            Outcome::Retryable("Failed to collect curl output: "@ + e),
        ),
        (Phase::Parsing(body), Event::Parsed(Ok(text))) => spec_conclude(
            s,
            now,
            current,
            Outcome::Success(text),
        ),
        (Phase::Parsing(body), Event::Parsed(Err(e))) => spec_conclude(
            s,
            now,
            current,
            Outcome::Fatal(parse_failure_message(e, body)),
        ),
        (Phase::RetryWait(started), Event::Ready) => spec_retry_check(s, started, now, current),
        _ => (s, Action::Finish(Err(Seq::empty()))),
    }
}

/// Every step keeps the session's invariant, so a request never runs more than
/// `MAX_ATTEMPTS` attempts, nor starts curl more often than that, and the
/// cancellation generation it captured never changes.
pub proof fn law_step_keeps_invariant(
    s: SessionState,
    now: u64,
    current: u64,
    event: Event<Seq<char>, (Seq<u8>, Seq<u8>)>,
)
    requires
        session_wf(s),
        accepts(s.phase, event),
    ensures
        session_wf(spec_step(s, now, current, event).0),
        spec_step(s, now, current, event).0.spawned <= MAX_ATTEMPTS,
        spec_step(s, now, current, event).0.generation == s.generation,
{
}

/// curl is started exactly on the steps that ask for it: `spawned` counts the
/// `SpawnCurl` actions of a run.
pub proof fn law_spawn_counted(
    s: SessionState,
    now: u64,
    current: u64,
    event: Event<Seq<char>, (Seq<u8>, Seq<u8>)>,
)
    requires
        session_wf(s),
        accepts(s.phase, event),
    ensures
        spec_step(s, now, current, event).1 is SpawnCurl ==> spec_step(
            s,
            now,
            current,
            event,
        ).0.spawned == s.spawned + 1,
        !(spec_step(s, now, current, event).1 is SpawnCurl) ==> spec_step(
            s,
            now,
            current,
            event,
        ).0.spawned == s.spawned,
{
}

/// Once the request's generation has been cancelled, curl is never started again.
pub proof fn law_cancelled_request_never_spawns(
    s: SessionState,
    now: u64,
    current: u64,
    event: Event<Seq<char>, (Seq<u8>, Seq<u8>)>,
)
    requires
        session_wf(s),
        accepts(s.phase, event),
        cancelled_since(current, s.generation),
    ensures
        !(spec_step(s, now, current, event).1 is SpawnCurl),
{
}

/// A cancellation seen while curl runs has it killed, and the request then
/// ends with the cancellation message.
pub proof fn law_cancel_while_waiting_kills_and_ends(
    s: SessionState,
    now: u64,
    later: u64,
    current: u64,
)
    requires
        session_wf(s),
        s.phase is Waiting,
        cancelled_since(current, s.generation),
    ensures
        spec_step(s, now, current, Event::Ready).1 is KillChild,
        spec_step(spec_step(s, now, current, Event::Ready).0, later, current, Event::Ready).1
            == Action::Finish(Err::<Seq<char>, Seq<char>>(cancelled_message())),
{
}

/// A cancellation is acted on at every point where the request waits on
/// nothing but time or its own turn: before an attempt and during the retry
/// delay it ends the request with the cancellation message; once curl has its
/// config, and at every later look at a running curl, it has curl killed, and
/// the kill then ends the request so; a transient failure of the first attempt
/// ends as cancelled instead of being retried. Only output curl has already
/// produced (an exit, collected output, a body being parsed) is still used.
pub proof fn law_cancellation_from_every_phase(
    s: SessionState,
    now: u64,
    current: u64,
    e: Seq<char>,
)
    requires
        session_wf(s),
        cancelled_since(current, s.generation),
    ensures
        s.phase is StartAttempt ==> spec_step(s, now, current, Event::Ready).1 == Action::Finish(
            Err::<Seq<char>, Seq<char>>(cancelled_message()),
        ),
        s.phase is RetryWait ==> spec_step(s, now, current, Event::Ready).1 == Action::Finish(
            Err::<Seq<char>, Seq<char>>(cancelled_message()),
        ),
        s.phase is SendingConfig ==> spec_step(s, now, current, Event::ConfigSent(Ok(()))).1
            is KillChild && spec_step(s, now, current, Event::ConfigSent(Ok(()))).0.phase
            == Phase::<Seq<char>>::Killing(Outcome::Cancelled),
        s.phase is Waiting ==> spec_step(s, now, current, Event::Ready).1 is KillChild
            && spec_step(s, now, current, Event::Ready).0.phase == Phase::<Seq<char>>::Killing(
            Outcome::Cancelled,
        ),
        s.phase == Phase::<Seq<char>>::Killing(Outcome::Cancelled) ==> spec_step(
            s,
            now,
            current,
            Event::Ready,
        ).1 == Action::Finish(Err::<Seq<char>, Seq<char>>(cancelled_message())),
        s.phase == Phase::<Seq<char>>::Killing(Outcome::Retryable(e)) && s.attempt + 1
            < MAX_ATTEMPTS ==> spec_step(s, now, current, Event::Ready).1 == Action::Finish(
            Err::<Seq<char>, Seq<char>>(cancelled_message()),
        ),
{
}

/// A `Finish` action ends the session: it takes no further event.
pub proof fn law_finish_is_final(
    s: SessionState,
    now: u64,
    current: u64,
    event: Event<Seq<char>, (Seq<u8>, Seq<u8>)>,
    next: Event<Seq<char>, (Seq<u8>, Seq<u8>)>,
)
    requires
        session_wf(s),
        accepts(s.phase, event),
        spec_step(s, now, current, event).1 is Finish,
    ensures
        spec_step(s, now, current, event).0.phase is Done,
        !accepts(spec_step(s, now, current, event).0.phase, next),
{
}

/// The session never sleeps longer than one poll interval at a time, nor zero.
pub proof fn law_sleeps_are_short(
    s: SessionState,
    now: u64,
    current: u64,
    event: Event<Seq<char>, (Seq<u8>, Seq<u8>)>,
)
    requires
        session_wf(s),
        accepts(s.phase, event),
    ensures
        spec_step(s, now, current, event).1 matches Action::Sleep(n) ==> 0 < n
            <= POLL_INTERVAL_NANOS,
{
}

/// A request succeeds only with the text just parsed from a 200 response.
pub proof fn law_success_is_parsed_text(
    s: SessionState,
    now: u64,
    current: u64,
    event: Event<Seq<char>, (Seq<u8>, Seq<u8>)>,
    text: Seq<char>,
)
    requires
        session_wf(s),
        accepts(s.phase, event),
        spec_step(s, now, current, event).1 == Action::Finish(Ok::<Seq<char>, Seq<char>>(text)),
    ensures
        s.phase is Parsing,
        event == Event::<Seq<char>, (Seq<u8>, Seq<u8>)>::Parsed(Ok(text)),
{
}

/// A transient failure of the first attempt is retried after the delay; the
/// same failure of the last attempt ends the request with its message.
pub proof fn law_transient_failure_retried_once(
    s: SessionState,
    now: u64,
    current: u64,
    e: Seq<char>,
)
    requires
        session_wf(s),
        s.phase == Phase::Killing(Outcome::Retryable(e)),
        !cancelled_since(current, s.generation),
    ensures
        s.attempt == 0 ==> spec_step(s, now, current, Event::Ready).1 == Action::<Seq<char>>::Sleep(
            POLL_INTERVAL_NANOS,
        ),
        s.attempt == 0 ==> spec_step(s, now, current, Event::Ready).0.phase == Phase::<
            Seq<char>,
        >::RetryWait(now),
        s.attempt + 1 == MAX_ATTEMPTS ==> spec_step(s, now, current, Event::Ready).1
            == Action::Finish(Err::<Seq<char>, Seq<char>>(e)),
{
}

/// The hard limit of an attempt counts from the moment its curl was sent its
/// config, whatever came before (earlier attempts, the retry delay): once the
/// config is sent at `sent`, a look at the running curl at `now` has it killed
/// for time exactly when 50 seconds have passed since `sent`, and otherwise
/// only polls it; a poll that finds curl still running changes nothing.
pub proof fn law_hard_limit_counts_from_config_sent(
    s: SessionState,
    sent: u64,
    now: u64,
)
    requires
        s.phase is SendingConfig,
        sent <= now,
    ensures
        ({
            let waiting = spec_step(s, sent, s.generation, Event::ConfigSent(Ok(()))).0;
            &&& spec_step(s, sent, s.generation, Event::ConfigSent(Ok(()))).1 is PollChild
            &&& spec_step(waiting, now, s.generation, Event::Polled(ChildStatus::Running)).0
                == waiting
            &&& (now - sent >= 50_000_000_000 <==> spec_step(
                waiting,
                now,
                s.generation,
                Event::Ready,
            ).1 is KillChild)
            &&& (now - sent < 50_000_000_000 ==> spec_step(
                waiting,
                now,
                s.generation,
                Event::Ready,
            ) == (waiting, Action::<Seq<char>>::PollChild))
        }),
{
}

/// `prefix` followed by `rest`.
fn concat(prefix: &str, rest: &str) -> (r: String)
    ensures
        r@ == prefix@ + rest@,
{
    let mut r = String::new();
    r.append(prefix);
    r.append(rest);
    assert(r@ =~= prefix@ + rest@);
    r
}

impl TranscribeSession {
    /// A session for a request that captured the cancellation generation `generation`.
    pub fn new(generation: u64) -> (r: Self)
        ensures
            r@ == (SessionState {
                generation,
                attempt: 0,
                spawned: 0,
                phase: Phase::StartAttempt,
            }),
            session_wf(r@),
    {
        TranscribeSession { generation, attempt: 0, spawned: 0, phase: Phase::StartAttempt }
    }

    /// Whether the session takes `event` next.
    pub fn accepts_event(&self, event: &Event<String, CurlOutput>) -> (r: bool)
        ensures
            r == accepts(self@.phase, event@),
    {
        match (&self.phase, event) {
            (Phase::StartAttempt, Event::Ready) => true,
            (Phase::Spawning, Event::Spawned(_)) => true,
            (Phase::SendingConfig, Event::ConfigSent(_)) => true,
            (Phase::Waiting(_), Event::Ready) => true,
            (Phase::Waiting(_), Event::Polled(_)) => true,
            (Phase::Killing(_), Event::Ready) => true,
            (Phase::Collecting(_), Event::Collected(_)) => true,
            (Phase::Parsing(_), Event::Parsed(_)) => true,
            (Phase::RetryWait(_), Event::Ready) => true,
            _ => false,
        }
    }

    /// Whether the session has finished.
    pub fn is_done(&self) -> (r: bool)
        ensures
            r == (self@.phase is Done),
    {
        match self.phase {
            Phase::Done => true,
            _ => false,
        }
    }

    fn begin_attempt(&mut self, now: u64, current: u64) -> (action: Action<String>)
        requires
            old(self)@.attempt < MAX_ATTEMPTS,
            old(self)@.spawned == old(self)@.attempt,
        ensures
            (final(self)@, action@) == spec_begin_attempt(old(self)@, now, current),
            session_wf(final(self)@),
    {
        if current != self.generation {
            self.phase = Phase::Done;
            Action::Finish(Err("Transcription request cancelled".to_owned()))
        } else {
            self.spawned = self.spawned + 1;
            self.phase = Phase::Spawning;
            Action::SpawnCurl
        }
    }

    fn retry_check(&mut self, started: u64, now: u64, current: u64) -> (action: Action<String>)
        requires
            session_wf(old(self)@),
            old(self)@.phase is RetryWait,
        ensures
            (final(self)@, action@) == spec_retry_check(old(self)@, started, now, current),
            session_wf(final(self)@),
    {
        let waited = if now >= started {
            now - started
        } else {
            0
        };
        if waited < RETRY_DELAY_NANOS {
            if current != self.generation {
                self.phase = Phase::Done;
                Action::Finish(Err("Transcription request cancelled".to_owned()))
            } else {
                let left = RETRY_DELAY_NANOS - waited;
                Action::Sleep(
                    if left < POLL_INTERVAL_NANOS {
                        left
                    } else {
                        POLL_INTERVAL_NANOS
                    },
                )
            }
        } else {
            self.attempt = self.attempt + 1;
            self.begin_attempt(now, current)
        }
    }

    fn wait_check(&mut self, started: u64, now: u64, current: u64) -> (action: Action<String>)
        requires
            session_wf(old(self)@),
            old(self)@.phase is Waiting,
        ensures
            (final(self)@, action@) == spec_wait_check(old(self)@, started, now, current),
            session_wf(final(self)@),
    {
        let waited = if now >= started {
            now - started
        } else {
            0
        };
        if current != self.generation {
            self.phase = Phase::Killing(Outcome::Cancelled);
            Action::KillChild
        } else if waited >= HARD_LIMIT_NANOS {
            let mut msg = String::new();
            msg.append("Transcription request timed out after ");
            push_decimal(&mut msg, REQUEST_TIMEOUT_SECS);
            msg.append(" seconds");
            assert(msg@ =~= timeout_message());
            self.phase = Phase::Killing(Outcome::Fatal(msg));
            Action::KillChild
        } else {
            Action::PollChild
        }
    }

    fn conclude(&mut self, now: u64, current: u64, outcome: Outcome<String>) -> (action: Action<
        String,
    >)
        requires
            old(self)@.attempt < MAX_ATTEMPTS,
            old(self)@.spawned == old(self)@.attempt + 1,
        ensures
            (final(self)@, action@) == spec_conclude(old(self)@, now, current, outcome_view(outcome)),
            session_wf(final(self)@),
    {
        match outcome {
            Outcome::Success(text) => {
                self.phase = Phase::Done;
                Action::Finish(Ok(text))
            },
            Outcome::Cancelled => {
                self.phase = Phase::Done;
                Action::Finish(Err("Transcription request cancelled".to_owned()))
            },
            Outcome::Fatal(e) => {
                self.phase = Phase::Done;
                Action::Finish(Err(e))
            },
            Outcome::Retryable(e) => {
                if self.attempt + 1 >= MAX_ATTEMPTS {
                    self.phase = Phase::Done;
                    Action::Finish(Err(e))
                } else {
                    self.phase = Phase::RetryWait(now);
                    self.retry_check(now, now, current)
                }
            },
        }
    }

    /// Takes `event`, observed `now` nanoseconds after the session started while
    /// `current` was the cancellation generation, and says what to do next.
    pub fn step(&mut self, now: u64, current: u64, event: Event<String, CurlOutput>) -> (action:
        Action<String>)
        requires
            session_wf(old(self)@),
            accepts(old(self)@.phase, event@),
        ensures
            (final(self)@, action@) == spec_step(old(self)@, now, current, event@),
            session_wf(final(self)@),
    {
        let mut phase = Phase::Done;
        core::mem::swap(&mut phase, &mut self.phase);
        let ghost s0 = old(self)@;
        assert(phase_view(phase) == s0.phase);
        match (phase, event) {
            (Phase::StartAttempt, Event::Ready) => {
                self.begin_attempt(now, current)
            },
            (Phase::Spawning, Event::Spawned(Ok(()))) => {
                self.phase = Phase::SendingConfig;
                Action::SendConfig
            },
            (Phase::Spawning, Event::Spawned(Err(e))) => {
                let msg = concat("Failed to run curl (is it installed?): ", e.as_str());
                self.conclude(now, current, Outcome::Fatal(msg))
            },
            (Phase::SendingConfig, Event::ConfigSent(Ok(()))) => {
                self.phase = Phase::Waiting(now);
                self.wait_check(now, now, current)
            },
            (Phase::SendingConfig, Event::ConfigSent(Err(f))) => {
                let msg = match f {
                    ConfigFailure::NoStdin => "Failed to open curl stdin".to_owned(),
                    ConfigFailure::Write(e) => concat(
                        "Failed to configure curl request: ",
                        e.as_str(),
                    ),
                };
                self.phase = Phase::Killing(Outcome::Retryable(msg));
                Action::KillChild
            },
            (Phase::Waiting(started), Event::Ready) => {
                self.phase = Phase::Waiting(started);
                self.wait_check(started, now, current)
            },
            (Phase::Waiting(started), Event::Polled(ChildStatus::Running)) => {
                self.phase = Phase::Waiting(started);
                Action::Sleep(POLL_INTERVAL_NANOS)
            },
            (Phase::Waiting(started), Event::Polled(ChildStatus::Exited)) => {
                self.phase = Phase::Collecting(started);
                Action::CollectOutput
            },
            (Phase::Waiting(started), Event::Polled(ChildStatus::Failed(e))) => {
                let msg = concat("Failed to poll curl process: ", e.as_str());
                self.phase = Phase::Killing(Outcome::Retryable(msg));
                Action::KillChild
            },
            (Phase::Killing(outcome), Event::Ready) => {
                self.conclude(now, current, outcome)
            },
            (Phase::Collecting(started), Event::Collected(Ok(output))) => {
                let stdout = decode_utf8_lossy(output.stdout.as_slice());
                let stderr = decode_utf8_lossy(output.stderr.as_slice());
                let waited = if now >= started {
                    now - started
                } else {
                    0
                };
                match classify_response(stdout.as_str(), stderr.as_str(), waited) {
                    Verdict::Body(body) => {
                        let parse = body.clone();
                        self.phase = Phase::Parsing(body);
                        Action::ParseBody(parse)
                    },
                    Verdict::Retryable(e) => self.conclude(now, current, Outcome::Retryable(e)),
                    Verdict::Fatal(e) => self.conclude(now, current, Outcome::Fatal(e)),
                }
            },
            (Phase::Collecting(started), Event::Collected(Err(e))) => {
                let msg = concat("Failed to collect curl output: ", e.as_str());
                self.conclude(now, current, Outcome::Retryable(msg))
            },
            (Phase::Parsing(body), Event::Parsed(Ok(text))) => {
                self.conclude(now, current, Outcome::Success(text))
            },
            (Phase::Parsing(body), Event::Parsed(Err(e))) => {
                let mut msg = String::new();
                msg.append("Failed to parse transcription response: ");
                msg.append(e.as_str());
                msg.append(" (body: ");
                let shown = take_chars(body.as_str(), 200);
                msg.append(shown.as_str());
                msg.append(")");
                assert(msg@ =~= parse_failure_message(e@, body@));
                self.conclude(now, current, Outcome::Fatal(msg))
            },
            (Phase::RetryWait(started), Event::Ready) => {
                self.phase = Phase::RetryWait(started);
                self.retry_check(started, now, current)
            },
            (_, _) => {
                proof {
                    assert(false);
                }
                Action::Finish(Err(String::new()))
            },
        }
    }
}

} // verus!
