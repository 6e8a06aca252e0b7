//! Decisions taken while starting and talking to the local transcription
//! service (the "sidecar"): its command line and URLs, the readiness poll,
//! the three-step transcribe / diarize / reconcile pipeline and the checks
//! on the segments it returns.

use vstd::prelude::*;

use crate::decimal::{decimal, u64_to_decimal};

verus! {

/// `http://127.0.0.1:{port}`, the base URL of the sidecar.
pub open spec fn base_url_spec(port: u16) -> Seq<char> {
    "http://127.0.0.1:"@ + decimal(port as nat)
}

/// The base URL of the sidecar listening on `port`.
pub fn base_url(port: u16) -> (r: String)
    ensures
        r@ == base_url_spec(port),
{
    let mut r = String::from_str("http://127.0.0.1:");
    let p = u64_to_decimal(port as u64);
    r.append(p.as_str());
    r
}

/// The URL of `path` (such as `/health`) on the sidecar listening on `port`.
pub fn endpoint_url(port: u16, path: &str) -> (r: String)
    ensures
        r@ == base_url_spec(port) + path@,
{
    let mut r = base_url(port);
    r.append(path);
    r
}

/// The arguments with which the Python interpreter starts the sidecar's web server.
pub open spec fn sidecar_args_spec(port: u16) -> Seq<Seq<char>> {
    seq![
        "-m"@,
        "uvicorn"@,
        "main:app"@,
        "--host"@,
        "127.0.0.1"@,
        "--port"@,
        decimal(port as nat),
    ]
}

/// The arguments of the command that starts the sidecar on `port`.
pub fn sidecar_args(port: u16) -> (v: Vec<String>)
    ensures
        v@.map_values(|a: String| a@) == sidecar_args_spec(port),
{
    let mut v: Vec<String> = Vec::new();
    v.push(String::from_str("-m"));
    v.push(String::from_str("uvicorn"));
    v.push(String::from_str("main:app"));
    v.push(String::from_str("--host"));
    v.push(String::from_str("127.0.0.1"));
    v.push(String::from_str("--port"));
    v.push(u64_to_decimal(port as u64));
    assert(v@.map_values(|a: String| a@) =~= sidecar_args_spec(port));
    v
}

// ---------------------------------------------------------------------------
// Readiness
// ---------------------------------------------------------------------------

/// The answer to one poll of the sidecar's health endpoint.
pub enum HealthProbe {
    /// The request failed (for instance, the connection was refused).
    Unreachable,
    /// The sidecar answered with this status; `display` is its text form
    /// (such as `500 Internal Server Error`).
    Answered { code: u16, display: String },
}

/// What to do after a poll.
pub enum ReadyDecision {
    /// The sidecar is ready.
    Ready,
    /// Wait half a second and poll again.
    Retry,
    /// Give up with this error.
    Fail(String),
}

/// Whether `code` is a success status (2xx).
pub open spec fn is_success(code: u16) -> bool {
    200 <= code && code <= 299
}

/// The status with which the sidecar says it is still loading.
pub open spec fn still_loading(code: u16) -> bool {
    code == 503
}

/// The error reported when the sidecar is not ready within `timeout_secs` seconds.
pub open spec fn not_ready_message(timeout_secs: u64) -> Seq<char> {
    "Sidecar did not become ready within "@ + decimal(timeout_secs as nat)
        + "s — check sidecar logs for errors"@
}

/// The kind of move the readiness poll makes.
pub enum ReadinessKind {
    Ready,
    Retry,
    UnexpectedStatus,
    TimedOut,
}

/// The move of the readiness poll for a probe that got status `code`
/// (`None` when the request failed) after `elapsed_ms` milliseconds of
/// polling: a success status means ready, any status other than 503 is an
/// error, and a 503 or a failed request means poll again until
/// `timeout_secs` whole seconds have passed.
pub open spec fn readiness_kind(code: Option<u16>, elapsed_ms: u64, timeout_secs: u64) -> ReadinessKind {
    match code {
        Some(c) if is_success(c) => ReadinessKind::Ready,
        Some(c) if !still_loading(c) => ReadinessKind::UnexpectedStatus,
        _ => if elapsed_ms / 1000 >= timeout_secs {
            ReadinessKind::TimedOut
        } else {
            ReadinessKind::Retry
        },
    }
}

/// The status code of a probe, `None` when the request failed.
pub open spec fn probe_code(probe: HealthProbe) -> Option<u16> {
    match probe {
        HealthProbe::Unreachable => None,
        HealthProbe::Answered { code, .. } => Some(code),
    }
}

/// The status text of a probe (empty when the request failed).
pub open spec fn probe_display(probe: HealthProbe) -> Seq<char> {
    match probe {
        HealthProbe::Unreachable => Seq::empty(),
        HealthProbe::Answered { display, .. } => display@,
    }
}

/// Decides the next move of the readiness poll from the latest probe and
/// the time elapsed since polling began (see `readiness_kind`).
pub fn readiness_decision(probe: HealthProbe, elapsed_ms: u64, timeout_secs: u64) -> (r:
    ReadyDecision)
    ensures
        match readiness_kind(probe_code(probe), elapsed_ms, timeout_secs) {
            ReadinessKind::Ready => r is Ready,
            ReadinessKind::Retry => r is Retry,
            ReadinessKind::UnexpectedStatus => r matches ReadyDecision::Fail(m) && m@
                == "Sidecar returned unexpected status: "@ + probe_display(probe),
            ReadinessKind::TimedOut => r matches ReadyDecision::Fail(m) && m@ == not_ready_message(
                timeout_secs,
            ),
        },
        probe matches HealthProbe::Answered { code, display } ==> (!(200 <= code <= 299) && code
            != 503 ==> (r matches ReadyDecision::Fail(m) && m@
            == "Sidecar returned unexpected status: "@ + display@)),
{
    proof {
        if let HealthProbe::Answered { code, .. } = probe {
            lemma_unexpected_status_fails(code, elapsed_ms, timeout_secs);
        }
    }
    match probe {
        HealthProbe::Answered { code, display } => {
            if 200 <= code && code <= 299 {
                return ReadyDecision::Ready;
            }
            if code != 503 {
                let mut m = String::from_str("Sidecar returned unexpected status: ");
                m.append(display.as_str());
                return ReadyDecision::Fail(m);
            }
        },
        HealthProbe::Unreachable => {},
    }
    if elapsed_ms / 1000 >= timeout_secs {
        let mut m = String::from_str("Sidecar did not become ready within ");
        let t = u64_to_decimal(timeout_secs);
        m.append(t.as_str());
        m.append("s — check sidecar logs for errors");
        ReadyDecision::Fail(m)
    } else {
        ReadyDecision::Retry
    }
}

/// The poll reports ready only on a success status; it keeps polling a
/// loading (503) or unreachable sidecar as long as fewer than
/// `timeout_secs` seconds have passed, and gives up on it once they have;
/// and a poll that gives up after some time would also give up after any
/// longer time.
pub proof fn lemma_readiness_poll(code: Option<u16>, e1: u64, e2: u64, timeout_secs: u64)
    ensures
        readiness_kind(code, e1, timeout_secs) is Ready <==> (code matches Some(c) && is_success(c)),
        (code is None || code == Some(503u16)) ==> (readiness_kind(code, e1, timeout_secs) is Retry
            <==> e1 < timeout_secs * 1000),
        (code is None || code == Some(503u16)) ==> (readiness_kind(code, e1, timeout_secs) is TimedOut
            <==> e1 >= timeout_secs * 1000),
        e1 <= e2 && readiness_kind(code, e1, timeout_secs) is TimedOut ==> readiness_kind(
            code,
            e2,
            timeout_secs,
        ) is TimedOut,
{
    assert(e1 / 1000 >= timeout_secs <==> e1 >= timeout_secs * 1000) by (nonlinear_arith);
    assert(e1 <= e2 ==> e1 / 1000 <= e2 / 1000) by (nonlinear_arith);
}

/// A probe answered with a status that is neither a success (2xx) nor the
/// "still loading" 503 ends the poll with the unexpected-status error at
/// once, however much time has passed: it is never retried and never
/// reported as a timeout.
pub proof fn lemma_unexpected_status_fails(code: u16, elapsed_ms: u64, timeout_secs: u64)
    ensures
        !(200 <= code <= 299) && code != 503 ==> readiness_kind(
            Some(code),
            elapsed_ms,
            timeout_secs,
        ) is UnexpectedStatus,
        (200 <= code <= 299) ==> readiness_kind(Some(code), elapsed_ms, timeout_secs) is Ready,
        code == 503 ==> !(readiness_kind(Some(code), elapsed_ms, timeout_secs) is UnexpectedStatus),
{
}

// ---------------------------------------------------------------------------
// Replies of the sidecar
// ---------------------------------------------------------------------------

/// How a request to the sidecar went, up to finding the expected list in
/// its JSON reply.
pub enum SidecarReply {
    /// The request could not be sent; the text describes why.
    Unreachable(String),
    /// The sidecar answered with a failure status (`status` in text form)
    /// and this body (empty when the body could not be read).
    BadStatus { status: String, body: String },
    /// The reply was not valid JSON; the text describes why.
    InvalidJson(String),
    /// The reply lacked the expected list.
    MissingList,
    /// The reply held the expected list.
    ListFound,
}

/// The outcome of a plain transcription request: `Ok` when the segment
/// list was found, and otherwise the error to report.
pub fn transcribe_reply_result(reply: SidecarReply) -> (r: Result<(), String>)
    ensures
        match reply {
            SidecarReply::Unreachable(e) => r matches Err(m) && m@
                == "Failed to connect to sidecar: "@ + e@,
            SidecarReply::BadStatus { status, body } => r matches Err(m) && m@
                == "Sidecar transcribe failed with status "@ + status@ + ": "@ + body@,
            SidecarReply::InvalidJson(e) => r matches Err(m) && m@
                == "Failed to parse sidecar response as JSON: "@ + e@,
            SidecarReply::MissingList => r matches Err(m) && m@
                == "Sidecar response missing 'segments' array"@,
            SidecarReply::ListFound => r is Ok,
        },
{
    match reply {
        SidecarReply::Unreachable(e) => {
            let mut m = String::from_str("Failed to connect to sidecar: ");
            m.append(e.as_str());
            Err(m)
        },
        SidecarReply::BadStatus { status, body } => {
            let mut m = String::from_str("Sidecar transcribe failed with status ");
            m.append(status.as_str());
            m.append(": ");
            m.append(body.as_str());
            Err(m)
        },
        SidecarReply::InvalidJson(e) => {
            let mut m = String::from_str("Failed to parse sidecar response as JSON: ");
            m.append(e.as_str());
            Err(m)
        },
        SidecarReply::MissingList => Err(String::from_str("Sidecar response missing 'segments' array")),
        SidecarReply::ListFound => Ok(()),
    }
}

/// A step of the transcribe / diarize / reconcile pipeline.
#[derive(PartialEq, Eq, Structural, Clone, Copy, Debug)]
pub enum PipelineStep {
    Transcribe,
    Diarize,
    Reconcile,
}

/// The mode in which the pipeline asks for a transcription of the whole file.
pub const FULL_FILE_MODE: &'static str = "full-file";

impl PipelineStep {
    /// The step the pipeline starts with.
    pub fn first() -> (s: Self)
        ensures
            s == PipelineStep::Transcribe,
    {
        PipelineStep::Transcribe
    }
}

/// How a step is named in error messages.
pub open spec fn step_label(step: PipelineStep) -> Seq<char> {
    match step {
        PipelineStep::Transcribe => "Transcription"@,
        PipelineStep::Diarize => "Diarization"@,
        PipelineStep::Reconcile => "Reconciliation"@,
    }
}

/// The endpoint a step posts to.
pub open spec fn step_path(step: PipelineStep) -> Seq<char> {
    match step {
        PipelineStep::Transcribe => "/transcribe"@,
        PipelineStep::Diarize => "/diarize"@,
        PipelineStep::Reconcile => "/reconcile"@,
    }
}

/// The JSON list a step's reply must hold.
pub open spec fn step_list_key(step: PipelineStep) -> Seq<char> {
    match step {
        PipelineStep::Transcribe => "segments"@,
        PipelineStep::Diarize => "turns"@,
        PipelineStep::Reconcile => "segments"@,
    }
}

/// The step that follows `step`, if any.
pub open spec fn next_step(step: PipelineStep) -> Option<PipelineStep> {
    match step {
        PipelineStep::Transcribe => Some(PipelineStep::Diarize),
        PipelineStep::Diarize => Some(PipelineStep::Reconcile),
        PipelineStep::Reconcile => None,
    }
}

fn step_label_str(step: PipelineStep) -> (s: &'static str)
    ensures
        s@ == step_label(step),
{
    match step {
        PipelineStep::Transcribe => "Transcription",
        PipelineStep::Diarize => "Diarization",
        PipelineStep::Reconcile => "Reconciliation",
    }
}

/// The name of the JSON list that `step`'s reply must hold.
pub fn step_list_key_name(step: PipelineStep) -> (s: &'static str)
    ensures
        s@ == step_list_key(step),
{
    match step {
        PipelineStep::Transcribe => "segments",
        PipelineStep::Diarize => "turns",
        PipelineStep::Reconcile => "segments",
    }
}

/// The endpoint that `step` posts to.
pub fn step_endpoint(step: PipelineStep) -> (s: &'static str)
    ensures
        s@ == step_path(step),
{
    match step {
        PipelineStep::Transcribe => "/transcribe",
        PipelineStep::Diarize => "/diarize",
        PipelineStep::Reconcile => "/reconcile",
    }
}

/// What the pipeline does after a step's reply.
pub enum PipelineNext {
    /// Post the next step.
    Request(PipelineStep),
    /// All steps succeeded: read the reconciled segments.
    ReadSegments,
    /// Stop with this error.
    Fail(String),
}

/// The error message for a failed step.
pub open spec fn step_failure_message(step: PipelineStep, reply: SidecarReply) -> Seq<char> {
    match reply {
        SidecarReply::Unreachable(e) => step_label(step) + " step failed (could not reach sidecar): "@
            + e@,
        SidecarReply::BadStatus { status, body } => step_label(step) + " step failed (status "@
            + status@ + "): "@ + body@,
        SidecarReply::InvalidJson(e) => step_label(step) + " step failed (invalid JSON): "@ + e@,
        SidecarReply::MissingList => step_label(step) + " step failed: response missing '"@
            + step_list_key(step) + "' array"@,
        SidecarReply::ListFound => Seq::empty(),
    }
}

/// Decides the pipeline's next move after `step` got `reply`: a failed
/// step stops the pipeline with an error that names it; a successful one
/// moves on to the next step, and after the last one to reading the segments.
pub fn pipeline_next(step: PipelineStep, reply: SidecarReply) -> (r: PipelineNext)
    ensures
        reply is ListFound ==> match next_step(step) {
            Some(n) => r == PipelineNext::Request(n),
            None => r is ReadSegments,
        },
        !(reply is ListFound) ==> (r matches PipelineNext::Fail(m) && m@ == step_failure_message(
            step,
            reply,
        )),
{
    let label = step_label_str(step);
    match reply {
        SidecarReply::Unreachable(e) => {
            let mut m = String::from_str(label);
            m.append(" step failed (could not reach sidecar): ");
            m.append(e.as_str());
            PipelineNext::Fail(m)
        },
        SidecarReply::BadStatus { status, body } => {
            let mut m = String::from_str(label);
            m.append(" step failed (status ");
            m.append(status.as_str());
            m.append("): ");
            m.append(body.as_str());
            PipelineNext::Fail(m)
        },
        SidecarReply::InvalidJson(e) => {
            let mut m = String::from_str(label);
            m.append(" step failed (invalid JSON): ");
            m.append(e.as_str());
            PipelineNext::Fail(m)
        },
        SidecarReply::MissingList => {
            let mut m = String::from_str(label);
            m.append(" step failed: response missing '");
            m.append(step_list_key_name(step));
            m.append("' array");
            PipelineNext::Fail(m)
        },
        SidecarReply::ListFound => match step {
            PipelineStep::Transcribe => PipelineNext::Request(PipelineStep::Diarize),
            PipelineStep::Diarize => PipelineNext::Request(PipelineStep::Reconcile),
            PipelineStep::Reconcile => PipelineNext::ReadSegments,
        },
    }
}

/// The steps in the order the pipeline runs them.
pub open spec fn pipeline_order() -> Seq<PipelineStep> {
    seq![PipelineStep::Transcribe, PipelineStep::Diarize, PipelineStep::Reconcile]
}

/// Starting from the first step and following successful replies, the
/// pipeline posts transcribe, diarize and reconcile, each exactly once and
/// in this order, and reads the segments only after the reconcile step;
/// the three steps post to distinct endpoints.
pub proof fn lemma_pipeline_order()
    ensures
        pipeline_order()[0] == PipelineStep::Transcribe,
        forall|i: int|
            0 <= i < 2 ==> next_step(#[trigger] pipeline_order()[i]) == Some(pipeline_order()[i + 1]),
        next_step(pipeline_order()[2]) is None,
        forall|s: PipelineStep| next_step(s) is None <==> s == PipelineStep::Reconcile,
        forall|s: PipelineStep| #[trigger] pipeline_order().contains(s),
        step_path(PipelineStep::Transcribe) != step_path(PipelineStep::Diarize),
        step_path(PipelineStep::Diarize) != step_path(PipelineStep::Reconcile),
        step_path(PipelineStep::Transcribe) != step_path(PipelineStep::Reconcile),
{
    assert forall|s: PipelineStep| #[trigger] pipeline_order().contains(s) by {
        match s {
            PipelineStep::Transcribe => assert(pipeline_order()[0] == s),
            PipelineStep::Diarize => assert(pipeline_order()[1] == s),
            PipelineStep::Reconcile => assert(pipeline_order()[2] == s),
        }
    }
    reveal_strlit("/transcribe");
    reveal_strlit("/diarize");
    reveal_strlit("/reconcile");
    assert(step_path(PipelineStep::Transcribe)[1] != step_path(PipelineStep::Diarize)[1]);
    assert(step_path(PipelineStep::Diarize)[1] != step_path(PipelineStep::Reconcile)[1]);
    assert(step_path(PipelineStep::Transcribe).len() != step_path(PipelineStep::Reconcile).len());
}

// ---------------------------------------------------------------------------
// Segments
// ---------------------------------------------------------------------------

/// Which fields a segment object of the sidecar's reply holds with the
/// expected JSON type (numbers for the times, strings for the texts).
#[derive(Clone, Copy, Debug)]
pub struct SegmentFields {
    pub start: bool,
    pub end: bool,
    pub text: bool,
    pub speaker: bool,
}

/// The error for one segment, checking its fields in order; `speaker` is
/// only required of reconciled segments.
pub open spec fn segment_error(f: SegmentFields, reconciled: bool) -> Option<Seq<char>> {
    let prefix = if reconciled {
        "Reconciled segment missing '"@
    } else {
        "Segment missing '"@
    };
    if !f.start {
        Some(prefix + "start"@ + "' field"@)
    } else if !f.end {
        Some(prefix + "end"@ + "' field"@)
    } else if !f.text {
        Some(prefix + "text"@ + "' field"@)
    } else if reconciled && !f.speaker {
        Some(prefix + "speaker"@ + "' field"@)
    } else {
        None
    }
}

/// The error of the first faulty segment, if any.
pub open spec fn first_segment_error(segs: Seq<SegmentFields>, reconciled: bool) -> Option<
    Seq<char>,
>
    decreases segs.len(),
{
    if segs.len() == 0 {
        None
    } else {
        match segment_error(segs[0], reconciled) {
            Some(e) => Some(e),
            None => first_segment_error(segs.drop_first(), reconciled),
        }
    }
}

fn one_segment_error(f: SegmentFields, reconciled: bool) -> (r: Option<String>)
    ensures
        match segment_error(f, reconciled) {
            Some(e) => r matches Some(m) && m@ == e,
            None => r is None,
        },
{
    let prefix = if reconciled {
        "Reconciled segment missing '"
    } else {
        "Segment missing '"
    };
    let field = if !f.start {
        "start"
    } else if !f.end {
        "end"
    } else if !f.text {
        "text"
    } else if reconciled && !f.speaker {
        "speaker"
    } else {
        return None;
    };
    let mut m = String::from_str(prefix);
    m.append(field);
    m.append("' field");
    Some(m)
}

/// A reply's segments pass the check exactly when every one of them holds
/// its start, end and text, and in reconciled form its speaker; a segment
/// that lacks one of them is reported.
pub proof fn lemma_segments_pass_iff_complete(segs: Seq<SegmentFields>, reconciled: bool)
    ensures
        first_segment_error(segs, reconciled) is None <==> forall|i: int|
            #![trigger segs[i]]
            0 <= i < segs.len() ==> segs[i].start && segs[i].end && segs[i].text && (reconciled
                ==> segs[i].speaker),
    decreases segs.len(),
{
    if segs.len() > 0 {
        let rest = segs.drop_first();
        lemma_segments_pass_iff_complete(rest, reconciled);
        assert forall|j: int| 0 <= j < rest.len() implies rest[j] == segs[j + 1] by {}
        if forall|i: int|
            #![trigger segs[i]]
            0 <= i < segs.len() ==> segs[i].start && segs[i].end && segs[i].text && (reconciled
                ==> segs[i].speaker) {
            assert(segs[0].start);
            assert forall|j: int|
                #![trigger rest[j]]
                0 <= j < rest.len() implies rest[j].start && rest[j].end && rest[j].text && (
                reconciled ==> rest[j].speaker) by {
                assert(rest[j] == segs[j + 1]);
            }
        } else if first_segment_error(segs, reconciled) is None {
            assert forall|i: int|
                #![trigger segs[i]]
                0 <= i < segs.len() implies segs[i].start && segs[i].end && segs[i].text && (
                reconciled ==> segs[i].speaker) by {
                if i > 0 {
                    assert(segs[i] == rest[i - 1]);
                }
            }
        }
    }
}

/// Checks the segments of a reply in order and reports the first missing
/// field, as reading them into transcript segments would (`reconciled`
/// selects the reconciled form, which also needs a speaker).
pub fn check_segments(segs: &Vec<SegmentFields>, reconciled: bool) -> (r: Result<(), String>)
    ensures
        match first_segment_error(segs@, reconciled) {
            Some(e) => r matches Err(m) && m@ == e,
            None => r is Ok,
        },
        r is Ok <==> forall|i: int|
            #![trigger segs@[i]]
            0 <= i < segs@.len() ==> segs@[i].start && segs@[i].end && segs@[i].text && (reconciled
                ==> segs@[i].speaker),
{
    proof {
        lemma_segments_pass_iff_complete(segs@, reconciled);
    }
    let mut i: usize = 0;
    assert(segs@.skip(0) =~= segs@);
    while i < segs.len()
        invariant
            i <= segs@.len(),
            first_segment_error(segs@, reconciled) == first_segment_error(
                segs@.skip(i as int),
                reconciled,
            ),
        decreases segs.len() - i,
    {
        let ghost rest = segs@.skip(i as int);
        assert(rest[0] == segs@[i as int]);
        assert(rest.drop_first() =~= segs@.skip(i + 1));
        match one_segment_error(segs[i], reconciled) {
            Some(m) => {
                return Err(m);
            },
            None => {},
        }
        i += 1;
    }
    assert(segs@.skip(i as int) =~= Seq::<SegmentFields>::empty());
    Ok(())
}

} // verus!
