//! The "Fix with LLM" pipeline: cleaning of the model's reply, the revision
//! prompt, the order in which `systemctl` is tried, and the readiness
//! protocol for the local LLM service.
use vstd::prelude::*;
use vstd::string::StringExecFns;
use crate::text::{
    append_chars, chars_of, decimal, decimal_chars, ends_with, ends_with_chars, is_white_space,
    join_range, join_with, lemma_trim_end_shape, lemma_trim_start_shape, lines, lines_of,
    starts_with, starts_with_chars, string_from_chars, trim, trim_chars, trim_end, trim_start,
    views,
};

verus! {

pub const DEFAULT_LLAMA_API_URL: &'static str = "http://127.0.0.1:8080/v1/chat/completions";

pub const DEFAULT_LLAMA_HEALTH_URL: &'static str = "http://127.0.0.1:8080/health";

pub const DEFAULT_LLAMA_SERVICE: &'static str = "llama.service";

/// Progress of a fix request, as reported to the user interface.
#[derive(Debug)]
pub enum FixProgress {
    Status(String),
    Done(Result<String, String>),
}

/// Three backticks, which open and close a Markdown code block.
pub open spec fn fence() -> Seq<char> {
    seq!['`', '`', '`']
}

/// What `clean_code_fences` returns: the trimmed text, or, when the trimmed
/// text is a fenced code block of at least two lines, the lines between the
/// first and the last, joined by newlines and trimmed.
pub open spec fn spec_clean_code_fences(text: Seq<char>) -> Seq<char> {
    let t = trim(text);
    let ls = lines(t);
    if starts_with(t, fence()) && ends_with(t, fence()) && ls.len() >= 2 {
        trim(join_with(ls.subrange(1, ls.len() - 1), seq!['\n']))
    } else {
        t
    }
}

fn clean_code_fences_chars(text: &Vec<char>) -> (res: Vec<char>)
    ensures
        res@ == spec_clean_code_fences(text@),
{
    let trimmed = trim_chars(text);
    let fence_chars: Vec<char> = vec!['`', '`', '`'];
    assert(fence_chars@ =~= fence());
    if starts_with_chars(&trimmed, &fence_chars) && ends_with_chars(&trimmed, &fence_chars) {
        let ls = lines_of(&trimmed);
        if ls.len() >= 2 {
            let nl: Vec<char> = vec!['\n'];
            assert(nl@ =~= seq!['\n']);
            let inner = join_range(&ls, 1, ls.len() - 1, &nl);
            return trim_chars(&inner);
        }
    }
    trimmed
}

/// Strips a Markdown code fence that wraps a whole reply.
pub fn clean_code_fences(text: &str) -> (res: String)
    ensures
        res@ == spec_clean_code_fences(text@),
{
    let chars = chars_of(text);
    let cleaned = clean_code_fences_chars(&chars);
    string_from_chars(&cleaned)
}

/// Trimming twice is trimming once.
pub proof fn lemma_trim_idempotent(s: Seq<char>)
    ensures
        trim(trim(s)) == trim(s),
{
    let a = trim_start(s);
    let b = trim_end(a);
    lemma_trim_start_shape(s);
    lemma_trim_end_shape(a);
    if b.len() > 0 {
        assert(b[0] == a[0]);
        assert(trim_start(b) == b);
        assert(trim_end(b) == b);
    } else {
        assert(trim_start(b) == b);
    }
}

/// A cleaned reply has no white space at either end.
pub proof fn law_clean_code_fences_trimmed(text: Seq<char>)
    ensures
        trim(spec_clean_code_fences(text)) == spec_clean_code_fences(text),
{
    let t = trim(text);
    let ls = lines(t);
    lemma_trim_idempotent(text);
    lemma_trim_idempotent(join_with(ls.subrange(1, ls.len() - 1), seq!['\n']));
}

/// A reply that is not wrapped in a fence is only trimmed.
pub proof fn law_clean_code_fences_plain(text: Seq<char>)
    requires
        !starts_with(trim(text), fence()) || !ends_with(trim(text), fence()),
    ensures
        spec_clean_code_fences(text) == trim(text),
{
}

/// The text that the model's reply is turned into: the first choice's
/// content, trimmed (empty when there is no choice), with a wrapping code
/// fence removed.
pub open spec fn spec_revised_text(first_choice: Option<Seq<char>>) -> Seq<char> {
    match first_choice {
        Some(c) => spec_clean_code_fences(trim(c)),
        None => spec_clean_code_fences(seq![]),
    }
}

/// Turns the content of the first choice of a chat completion into the revised text.
pub fn revised_text(first_choice: Option<&str>) -> (res: String)
    ensures
        res@ == spec_revised_text(
            match first_choice {
                Some(c) => Some(c@),
                None => None,
            },
        ),
{
    match first_choice {
        Some(c) => {
            let chars = chars_of(c);
            let t = trim_chars(&chars);
            string_from_chars(&clean_code_fences_chars(&t))
        },
        None => {
            let empty: Vec<char> = Vec::new();
            string_from_chars(&clean_code_fences_chars(&empty))
        },
    }
}

/// The system message that frames every revision request.
pub const SYSTEM_PROMPT: &'static str = "You are an expert AI editor. Revise the provided text strictly according to the user instructions. Output only the revised text with no conversational explanation.";

/// The user message of a revision request. Without an instruction (or with
/// one that is only white space) it asks for grammar, spelling, punctuation
/// and capitalization fixes; otherwise it quotes the original text and gives
/// the trimmed instruction.
pub open spec fn spec_fix_prompt(original: Seq<char>, instruction: Seq<char>) -> Seq<char> {
    if trim(instruction).len() == 0 {
        "Original text:\n"@ + original
            + "\n\nRevision instructions:\nFix grammar, spelling, punctuation, and capitalization. Maintain the original meaning. Return ONLY the revised text with no explanation, preface, or conversational filler.\n\nRevised text:"@
    } else {
        "Original text:\n\"\"\"\n"@ + original + "\n\"\"\"\n\nUser instructions for revision:\n"@
            + trim(instruction)
            + "\n\nReturn ONLY the revised text following the instructions, with no conversational filler, preface, or markdown wrapping."@
    }
}

/// Builds the user message of a revision request.
pub fn build_fix_prompt(original: &str, instruction: &str) -> (res: String)
    ensures
        res@ == spec_fix_prompt(original@, instruction@),
{
    let instr = trim_chars(&chars_of(instruction));
    if instr.len() == 0 {
        let mut p = String::from_str("Original text:\n");
        p.append(original);
        p.append(
            "\n\nRevision instructions:\nFix grammar, spelling, punctuation, and capitalization. Maintain the original meaning. Return ONLY the revised text with no explanation, preface, or conversational filler.\n\nRevised text:",
        );
        p
    } else {
        let mut p = String::from_str("Original text:\n\"\"\"\n");
        p.append(original);
        p.append("\n\"\"\"\n\nUser instructions for revision:\n");
        let instr_s = string_from_chars(&instr);
        p.append(instr_s.as_str());
        p.append(
            "\n\nReturn ONLY the revised text following the instructions, with no conversational filler, preface, or markdown wrapping.",
        );
        p
    }
}

// ---------------------------------------------------------------------------
// systemctl
// ---------------------------------------------------------------------------
/// What is asked of systemd about the LLM service.
#[derive(Clone, Copy, PartialEq, Eq, Debug)]
pub enum ServiceOp {
    IsActive,
    Start,
    Stop,
}

pub open spec fn strs(v: Seq<String>) -> Seq<Seq<char>> {
    v.map_values(|s: String| s@)
}

/// The command lines tried, in order, until one exits successfully: the
/// activity query goes without `sudo` first, starting and stopping with
/// `sudo` first.
pub open spec fn spec_systemctl_attempts(op: ServiceOp, service: Seq<char>) -> Seq<Seq<Seq<char>>> {
    match op {
        ServiceOp::IsActive => seq![
            seq!["systemctl"@, "is-active"@, "--quiet"@, service],
            seq!["sudo"@, "systemctl"@, "is-active"@, "--quiet"@, service],
        ],
        ServiceOp::Start => seq![
            seq!["sudo"@, "systemctl"@, "start"@, service],
            seq!["systemctl"@, "start"@, service],
        ],
        ServiceOp::Stop => seq![
            seq!["sudo"@, "systemctl"@, "stop"@, service],
            seq!["systemctl"@, "stop"@, service],
        ],
    }
}

fn command_line(parts: Vec<&str>) -> (res: Vec<String>)
    ensures
        strs(res@) == parts@.map_values(|p: &str| p@),
{
    let mut res: Vec<String> = Vec::new();
    let mut k: usize = 0;
    while k < parts.len()
        invariant
            k <= parts@.len(),
            strs(res@) == parts@.take(k as int).map_values(|p: &str| p@),
        decreases parts@.len() - k,
    {
        res.push(String::from_str(parts[k]));
        assert(parts@.take(k + 1).map_values(|p: &str| p@) =~= parts@.take(k as int).map_values(
            |p: &str| p@,
        ).push(parts@[k as int]@));
        assert(strs(res@) =~= parts@.take(k + 1).map_values(|p: &str| p@));
        k = k + 1;
    }
    assert(parts@.take(parts@.len() as int) =~= parts@);
    res
}

/// The `systemctl` command lines to try for `op` on `service`, in order.
pub fn systemctl_attempts(op: ServiceOp, service: &str) -> (res: Vec<Vec<String>>)
    ensures
        res@.map_values(|c: Vec<String>| strs(c@)) == spec_systemctl_attempts(op, service@),
{
    let (a, b) = match op {
        ServiceOp::IsActive => {
            let a = command_line(vec!["systemctl", "is-active", "--quiet", service]);
            let b = command_line(vec!["sudo", "systemctl", "is-active", "--quiet", service]);
            assert(strs(a@) =~= seq!["systemctl"@, "is-active"@, "--quiet"@, service@]);
            assert(strs(b@) =~= seq!["sudo"@, "systemctl"@, "is-active"@, "--quiet"@, service@]);
            (a, b)
        },
        ServiceOp::Start => {
            let a = command_line(vec!["sudo", "systemctl", "start", service]);
            let b = command_line(vec!["systemctl", "start", service]);
            assert(strs(a@) =~= seq!["sudo"@, "systemctl"@, "start"@, service@]);
            assert(strs(b@) =~= seq!["systemctl"@, "start"@, service@]);
            (a, b)
        },
        ServiceOp::Stop => {
            let a = command_line(vec!["sudo", "systemctl", "stop", service]);
            let b = command_line(vec!["systemctl", "stop", service]);
            assert(strs(a@) =~= seq!["sudo"@, "systemctl"@, "stop"@, service@]);
            assert(strs(b@) =~= seq!["systemctl"@, "stop"@, service@]);
            (a, b)
        },
    };
    let ghost sa = strs(a@);
    let ghost sb = strs(b@);
    let res = vec![a, b];
    assert(res@.map_values(|c: Vec<String>| strs(c@)) =~= seq![sa, sb]);
    res
}

/// The error reported when every attempt to start or stop the service failed.
pub open spec fn spec_systemctl_failure(op: ServiceOp, service: Seq<char>) -> Seq<char> {
    match op {
        ServiceOp::Stop => "Failed to stop "@ + service + " via sudo systemctl stop"@,
        _ => "Failed to start "@ + service + " via sudo systemctl start"@,
    }
}

/// Describes the failure of starting or stopping the service.
pub fn systemctl_failure(op: ServiceOp, service: &str) -> (res: String)
    ensures
        res@ == spec_systemctl_failure(op, service@),
{
    match op {
        ServiceOp::Stop => {
            let mut m = String::from_str("Failed to stop ");
            m.append(service);
            m.append(" via sudo systemctl stop");
            m
        },
        _ => {
            let mut m = String::from_str("Failed to start ");
            m.append(service);
            m.append(" via sudo systemctl start");
            m
        },
    }
}

// ---------------------------------------------------------------------------
// Readiness of the LLM service
// ---------------------------------------------------------------------------
/// How long the service is given to answer its health check, in milliseconds.
pub const READY_TIMEOUT_MS: u64 = 30000;

/// The pause between two health checks while waiting, in milliseconds.
pub const READY_POLL_INTERVAL_MS: u64 = 500;

/// Where the readiness protocol stands.
#[derive(Clone, Copy, PartialEq, Eq, Debug)]
pub enum ReadyPhase {
    NotStarted,
    CheckingHealth,
    CheckingActive,
    Starting,
    Waiting,
    Polling,
    Ready,
    Failed,
}

/// What the caller observed since the last step.
#[derive(Clone, Copy, PartialEq, Eq, Debug)]
pub enum ReadyEvent {
    /// The protocol is asked to begin.
    Begin,
    /// A health check answered (`healthy`), `elapsed_ms` after waiting began.
    Health { healthy: bool, elapsed_ms: u64 },
    /// systemd answered whether the service is active.
    Active { active: bool },
    /// Starting the service succeeded or failed.
    Started { ok: bool },
    /// The time since waiting began.
    Clock { elapsed_ms: u64 },
}

/// What the caller does next.
#[derive(Clone, Copy, PartialEq, Eq, Debug)]
pub enum ReadyOp {
    ProbeHealth,
    ProbeActive,
    StartService,
    ReadClock,
    SleepThenReadClock { ms: u64 },
    Finish,
    Nothing,
}

/// One step of the protocol: the next phase, a status line for the user if
/// any, the next operation, and the error when it fails.
pub struct ReadyStep {
    pub phase: ReadyPhase,
    pub status: Option<String>,
    pub op: ReadyOp,
    pub failure: Option<String>,
}

pub open spec fn spec_ready_phase(phase: ReadyPhase, event: ReadyEvent) -> ReadyPhase {
    match (phase, event) {
        (ReadyPhase::NotStarted, ReadyEvent::Begin) => ReadyPhase::CheckingHealth,
        (ReadyPhase::CheckingHealth, ReadyEvent::Health { healthy, .. }) => if healthy {
            ReadyPhase::Ready
        } else {
            ReadyPhase::CheckingActive
        },
        (ReadyPhase::CheckingActive, ReadyEvent::Active { active }) => if active {
            ReadyPhase::Waiting
        } else {
            ReadyPhase::Starting
        },
        (ReadyPhase::Starting, ReadyEvent::Started { ok }) => if ok {
            ReadyPhase::Waiting
        } else {
            ReadyPhase::Failed
        },
        (ReadyPhase::Waiting, ReadyEvent::Clock { elapsed_ms }) => if elapsed_ms < READY_TIMEOUT_MS {
            ReadyPhase::Polling
        } else {
            ReadyPhase::Failed
        },
        (ReadyPhase::Polling, ReadyEvent::Health { healthy, .. }) => if healthy {
            ReadyPhase::Ready
        } else {
            ReadyPhase::Waiting
        },
        _ => phase,
    }
}

pub open spec fn spec_ready_op(phase: ReadyPhase, event: ReadyEvent) -> ReadyOp {
    match (phase, event) {
        (ReadyPhase::NotStarted, ReadyEvent::Begin) => ReadyOp::ProbeHealth,
        (ReadyPhase::CheckingHealth, ReadyEvent::Health { healthy, .. }) => if healthy {
            ReadyOp::Finish
        } else {
            ReadyOp::ProbeActive
        },
        (ReadyPhase::CheckingActive, ReadyEvent::Active { active }) => if active {
            ReadyOp::ReadClock
        } else {
            ReadyOp::StartService
        },
        (ReadyPhase::Starting, ReadyEvent::Started { ok }) => if ok {
            ReadyOp::ReadClock
        } else {
            ReadyOp::Finish
        },
        (ReadyPhase::Waiting, ReadyEvent::Clock { elapsed_ms }) => if elapsed_ms < READY_TIMEOUT_MS {
            ReadyOp::ProbeHealth
        } else {
            ReadyOp::Finish
        },
        (ReadyPhase::Polling, ReadyEvent::Health { healthy, .. }) => if healthy {
            ReadyOp::Finish
        } else {
            ReadyOp::SleepThenReadClock { ms: READY_POLL_INTERVAL_MS }
        },
        _ => ReadyOp::Nothing,
    }
}

pub open spec fn spec_ready_status(phase: ReadyPhase, event: ReadyEvent, service: Seq<char>) -> Option<
    Seq<char>,
> {
    match (phase, event) {
        (ReadyPhase::NotStarted, ReadyEvent::Begin) => Some("Checking LLM health..."@),
        (ReadyPhase::CheckingHealth, ReadyEvent::Health { healthy, .. }) => if healthy {
            Some("Polishing text with LLM..."@)
        } else {
            None
        },
        (ReadyPhase::CheckingActive, ReadyEvent::Active { active }) => if active {
            Some("Waiting for LLM model to finish loading..."@)
        } else {
            Some("Starting "@ + service + "..."@)
        },
        (ReadyPhase::Polling, ReadyEvent::Health { healthy, elapsed_ms }) => if healthy {
            Some("Polishing text with LLM..."@)
        } else {
            Some("Loading LLM model ("@ + decimal((elapsed_ms / 1000) as nat) + "s)..."@)
        },
        _ => None,
    }
}

pub open spec fn spec_ready_failure(
    phase: ReadyPhase,
    event: ReadyEvent,
    service: Seq<char>,
    health_url: Seq<char>,
) -> Option<Seq<char>> {
    match (phase, event) {
        (ReadyPhase::Starting, ReadyEvent::Started { ok }) => if ok {
            None
        } else {
            Some("Failed to start service "@ + service)
        },
        (ReadyPhase::Waiting, ReadyEvent::Clock { elapsed_ms }) => if elapsed_ms < READY_TIMEOUT_MS {
            None
        } else {
            Some("Timed out waiting for "@ + service + " health check at "@ + health_url)
        },
        _ => None,
    }
}

pub open spec fn opt_view(o: Option<String>) -> Option<Seq<char>> {
    match o {
        Some(s) => Some(s@),
        None => None,
    }
}

/// Advances the readiness protocol of the LLM service by one observation.
pub fn readiness_step(phase: ReadyPhase, event: ReadyEvent, service: &str, health_url: &str) -> (res:
    ReadyStep)
    ensures
        res.phase == spec_ready_phase(phase, event),
        res.op == spec_ready_op(phase, event),
        opt_view(res.status) == spec_ready_status(phase, event, service@),
        opt_view(res.failure) == spec_ready_failure(phase, event, service@, health_url@),
{
    match (phase, event) {
        (ReadyPhase::NotStarted, ReadyEvent::Begin) => ReadyStep {
            phase: ReadyPhase::CheckingHealth,
            status: Some(String::from_str("Checking LLM health...")),
            op: ReadyOp::ProbeHealth,
            failure: None,
        },
        (ReadyPhase::CheckingHealth, ReadyEvent::Health { healthy, .. }) => if healthy {
            ReadyStep {
                phase: ReadyPhase::Ready,
                status: Some(String::from_str("Polishing text with LLM...")),
                op: ReadyOp::Finish,
                failure: None,
            }
        } else {
            ReadyStep {
                phase: ReadyPhase::CheckingActive,
                status: None,
                op: ReadyOp::ProbeActive,
                failure: None,
            }
        },
        (ReadyPhase::CheckingActive, ReadyEvent::Active { active }) => if active {
            ReadyStep {
                phase: ReadyPhase::Waiting,
                status: Some(String::from_str("Waiting for LLM model to finish loading...")),
                op: ReadyOp::ReadClock,
                failure: None,
            }
        } else {
            let mut m = String::from_str("Starting ");
            m.append(service);
            m.append("...");
            ReadyStep {
                phase: ReadyPhase::Starting,
                status: Some(m),
                op: ReadyOp::StartService,
                failure: None,
            }
        },
        (ReadyPhase::Starting, ReadyEvent::Started { ok }) => if ok {
            ReadyStep {
                phase: ReadyPhase::Waiting,
                status: None,
                op: ReadyOp::ReadClock,
                failure: None,
            }
        } else {
            let mut m = String::from_str("Failed to start service ");
            m.append(service);
            ReadyStep {
                phase: ReadyPhase::Failed,
                status: None,
                op: ReadyOp::Finish,
                failure: Some(m),
            }
        },
        (ReadyPhase::Waiting, ReadyEvent::Clock { elapsed_ms }) => if elapsed_ms < READY_TIMEOUT_MS {
            ReadyStep {
                phase: ReadyPhase::Polling,
                status: None,
                op: ReadyOp::ProbeHealth,
                failure: None,
            }
        } else {
            let mut m = String::from_str("Timed out waiting for ");
            m.append(service);
            m.append(" health check at ");
            m.append(health_url);
            ReadyStep {
                phase: ReadyPhase::Failed,
                status: None,
                op: ReadyOp::Finish,
                failure: Some(m),
            }
        },
        (ReadyPhase::Polling, ReadyEvent::Health { healthy, elapsed_ms }) => if healthy {
            ReadyStep {
                phase: ReadyPhase::Ready,
                status: Some(String::from_str("Polishing text with LLM...")),
                op: ReadyOp::Finish,
                failure: None,
            }
        } else {
            let mut m = String::from_str("Loading LLM model (");
            let secs = string_from_chars(&decimal_chars(elapsed_ms / 1000));
            m.append(secs.as_str());
            m.append("s)...");
            ReadyStep {
                phase: ReadyPhase::Waiting,
                status: Some(m),
                op: ReadyOp::SleepThenReadClock { ms: READY_POLL_INTERVAL_MS },
                failure: None,
            }
        },
        _ => ReadyStep { phase, status: None, op: ReadyOp::Nothing, failure: None },
    }
}

/// The service is never reported ready unless a health check answered healthy.
pub proof fn law_ready_only_after_healthy_check(phase: ReadyPhase, event: ReadyEvent)
    requires
        phase != ReadyPhase::Ready,
        spec_ready_phase(phase, event) == ReadyPhase::Ready,
    ensures
        event matches ReadyEvent::Health { healthy, .. } && healthy,
{
}

/// Once the time allowed has passed, waiting ends in failure.
pub proof fn law_ready_times_out(elapsed_ms: u64, service: Seq<char>, health_url: Seq<char>)
    requires
        elapsed_ms >= READY_TIMEOUT_MS,
    ensures
        spec_ready_phase(ReadyPhase::Waiting, ReadyEvent::Clock { elapsed_ms }) == ReadyPhase::Failed,
        spec_ready_failure(ReadyPhase::Waiting, ReadyEvent::Clock { elapsed_ms }, service, health_url)
            is Some,
{
}

/// Every operation that ends the protocol leaves it in `Ready` or `Failed`;
/// a failure always carries its error, and readiness always tells the user
/// that the text is now being polished.
pub proof fn law_ready_finish_is_final(
    phase: ReadyPhase,
    event: ReadyEvent,
    service: Seq<char>,
    health_url: Seq<char>,
)
    ensures
        spec_ready_op(phase, event) == ReadyOp::Finish ==> (spec_ready_phase(phase, event)
            == ReadyPhase::Ready || spec_ready_phase(phase, event) == ReadyPhase::Failed),
        spec_ready_op(phase, event) == ReadyOp::Finish && spec_ready_phase(phase, event)
            == ReadyPhase::Failed ==> spec_ready_failure(phase, event, service, health_url) is Some,
        spec_ready_op(phase, event) == ReadyOp::Finish && spec_ready_phase(phase, event)
            == ReadyPhase::Ready ==> spec_ready_status(phase, event, service) == Some(
            "Polishing text with LLM..."@,
        ),
{
}

/// The service is given 30 seconds: while waiting, every clock reading below
/// that keeps polling the health check, with no failure and no status line,
/// and every reading at or past it fails with the time-out error.
pub proof fn law_ready_polls_until_timeout(elapsed_ms: u64, service: Seq<char>, health_url: Seq<char>)
    ensures
        ({
            let w = ReadyPhase::Waiting;
            let clock = ReadyEvent::Clock { elapsed_ms };
            let poll = ReadyEvent::Health { healthy: false, elapsed_ms };
            &&& READY_TIMEOUT_MS == 30000
            &&& elapsed_ms < 30000 ==> {
                &&& spec_ready_phase(w, clock) == ReadyPhase::Polling
                &&& spec_ready_op(w, clock) == ReadyOp::ProbeHealth
                &&& spec_ready_failure(w, clock, service, health_url) == None::<Seq<char>>
                &&& spec_ready_status(w, clock, service) == None::<Seq<char>>
            }
            &&& elapsed_ms >= 30000 ==> {
                &&& spec_ready_phase(w, clock) == ReadyPhase::Failed
                &&& spec_ready_op(w, clock) == ReadyOp::Finish
                &&& spec_ready_failure(w, clock, service, health_url) == Some(
                    "Timed out waiting for "@ + service + " health check at "@ + health_url,
                )
            }
            &&& spec_ready_op(ReadyPhase::Polling, poll) == ReadyOp::SleepThenReadClock { ms: 500 }
            &&& spec_ready_phase(ReadyPhase::Polling, poll) == ReadyPhase::Waiting
        }),
{
}

/// The way to readiness: the protocol begins with a health check ("Checking
/// LLM health..."); a healthy answer finishes at once; otherwise it asks
/// systemd whether the service is active, waits for an active one ("Waiting
/// for LLM model to finish loading..."), starts an inactive one ("Starting
/// <service>...") and then waits, and fails when the start fails; while
/// polling, an unhealthy answer reports the whole seconds waited and sleeps
/// half a second before the next reading.
pub proof fn law_ready_path(service: Seq<char>, health_url: Seq<char>, elapsed_ms: u64)
    ensures
        ({
            let begin = (ReadyPhase::NotStarted, ReadyEvent::Begin);
            let sick = ReadyEvent::Health { healthy: false, elapsed_ms };
            let well = ReadyEvent::Health { healthy: true, elapsed_ms };
            let active = ReadyEvent::Active { active: true };
            let inactive = ReadyEvent::Active { active: false };
            let started = ReadyEvent::Started { ok: true };
            let refused = ReadyEvent::Started { ok: false };
            &&& spec_ready_phase(begin.0, begin.1) == ReadyPhase::CheckingHealth
            &&& spec_ready_op(begin.0, begin.1) == ReadyOp::ProbeHealth
            &&& spec_ready_status(begin.0, begin.1, service) == Some("Checking LLM health..."@)
            &&& spec_ready_phase(ReadyPhase::CheckingHealth, well) == ReadyPhase::Ready
            &&& spec_ready_op(ReadyPhase::CheckingHealth, well) == ReadyOp::Finish
            &&& spec_ready_phase(ReadyPhase::CheckingHealth, sick) == ReadyPhase::CheckingActive
            &&& spec_ready_op(ReadyPhase::CheckingHealth, sick) == ReadyOp::ProbeActive
            &&& spec_ready_phase(ReadyPhase::CheckingActive, active) == ReadyPhase::Waiting
            &&& spec_ready_op(ReadyPhase::CheckingActive, active) == ReadyOp::ReadClock
            &&& spec_ready_status(ReadyPhase::CheckingActive, active, service) == Some(
                "Waiting for LLM model to finish loading..."@,
            )
            &&& spec_ready_phase(ReadyPhase::CheckingActive, inactive) == ReadyPhase::Starting
            &&& spec_ready_op(ReadyPhase::CheckingActive, inactive) == ReadyOp::StartService
            &&& spec_ready_status(ReadyPhase::CheckingActive, inactive, service) == Some(
                "Starting "@ + service + "..."@,
            )
            &&& spec_ready_phase(ReadyPhase::Starting, started) == ReadyPhase::Waiting
            &&& spec_ready_op(ReadyPhase::Starting, started) == ReadyOp::ReadClock
            &&& spec_ready_phase(ReadyPhase::Starting, refused) == ReadyPhase::Failed
            &&& spec_ready_op(ReadyPhase::Starting, refused) == ReadyOp::Finish
            &&& spec_ready_failure(ReadyPhase::Starting, refused, service, health_url) == Some(
                "Failed to start service "@ + service,
            )
            &&& spec_ready_phase(ReadyPhase::Polling, well) == ReadyPhase::Ready
            &&& spec_ready_op(ReadyPhase::Polling, well) == ReadyOp::Finish
            &&& spec_ready_status(ReadyPhase::Polling, sick, service) == Some(
                "Loading LLM model ("@ + decimal((elapsed_ms / 1000) as nat) + "s)..."@,
            )
        }),
{
}

} // verus!
