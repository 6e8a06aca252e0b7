use meeting_transcriber::sidecar::{
    base_url, check_segments, endpoint_url, pipeline_next, readiness_decision, sidecar_args,
    step_endpoint, step_list_key_name, transcribe_reply_result, FULL_FILE_MODE, HealthProbe, PipelineNext, PipelineStep,
    ReadyDecision, SegmentFields, SidecarReply,
};

#[test]
fn urls_and_command_line() {
    assert_eq!(base_url(8756), "http://127.0.0.1:8756");
    assert_eq!(endpoint_url(8756, "/health"), "http://127.0.0.1:8756/health");
    assert_eq!(endpoint_url(80, "/transcribe"), "http://127.0.0.1:80/transcribe");
    assert_eq!(
        sidecar_args(8756),
        vec!["-m", "uvicorn", "main:app", "--host", "127.0.0.1", "--port", "8756"]
    );
}

fn answered(code: u16, display: &str) -> HealthProbe {
    HealthProbe::Answered { code, display: display.to_string() }
}

#[test]
fn readiness_poll_decisions() {
    assert!(matches!(readiness_decision(answered(200, "200 OK"), 0, 30), ReadyDecision::Ready));
    assert!(matches!(readiness_decision(answered(204, "204 No Content"), 99_000, 30), ReadyDecision::Ready));
    match readiness_decision(answered(404, "404 Not Found"), 0, 30) {
        ReadyDecision::Fail(m) => assert_eq!(m, "Sidecar returned unexpected status: 404 Not Found"),
        _ => panic!("404 should fail"),
    }
    assert!(matches!(readiness_decision(answered(503, "503 Service Unavailable"), 29_999, 30), ReadyDecision::Retry));
    assert!(matches!(readiness_decision(HealthProbe::Unreachable, 0, 30), ReadyDecision::Retry));
    match readiness_decision(HealthProbe::Unreachable, 30_000, 30) {
        ReadyDecision::Fail(m) => assert_eq!(
            m,
            "Sidecar did not become ready within 30s — check sidecar logs for errors"
        ),
        _ => panic!("should time out"),
    }
    match readiness_decision(answered(503, "503 Service Unavailable"), 45_000, 30) {
        ReadyDecision::Fail(m) => assert!(m.starts_with("Sidecar did not become ready within 30s")),
        _ => panic!("should time out"),
    }
}

#[test]
fn transcribe_replies() {
    assert_eq!(transcribe_reply_result(SidecarReply::ListFound), Ok(()));
    assert_eq!(
        transcribe_reply_result(SidecarReply::Unreachable("refused".to_string())),
        Err("Failed to connect to sidecar: refused".to_string())
    );
    assert_eq!(
        transcribe_reply_result(SidecarReply::BadStatus {
            status: "500 Internal Server Error".to_string(),
            body: "oops".to_string()
        }),
        Err("Sidecar transcribe failed with status 500 Internal Server Error: oops".to_string())
    );
    assert_eq!(
        transcribe_reply_result(SidecarReply::InvalidJson("EOF".to_string())),
        Err("Failed to parse sidecar response as JSON: EOF".to_string())
    );
    assert_eq!(
        transcribe_reply_result(SidecarReply::MissingList),
        Err("Sidecar response missing 'segments' array".to_string())
    );
}

fn fail(n: PipelineNext) -> String {
    match n {
        PipelineNext::Fail(m) => m,
        _ => panic!("expected failure"),
    }
}

#[test]
fn pipeline_runs_in_order() {
    let first = PipelineStep::first();
    assert_eq!(first, PipelineStep::Transcribe);
    assert_eq!(step_endpoint(PipelineStep::Transcribe), "/transcribe");
    assert_eq!(step_endpoint(PipelineStep::Diarize), "/diarize");
    assert_eq!(step_endpoint(PipelineStep::Reconcile), "/reconcile");
    assert_eq!(step_list_key_name(PipelineStep::Transcribe), "segments");
    assert_eq!(step_list_key_name(PipelineStep::Diarize), "turns");
    assert_eq!(step_list_key_name(PipelineStep::Reconcile), "segments");
    assert_eq!(FULL_FILE_MODE, "full-file");
    assert!(matches!(
        pipeline_next(PipelineStep::Transcribe, SidecarReply::ListFound),
        PipelineNext::Request(PipelineStep::Diarize)
    ));
    assert!(matches!(
        pipeline_next(PipelineStep::Diarize, SidecarReply::ListFound),
        PipelineNext::Request(PipelineStep::Reconcile)
    ));
    assert!(matches!(
        pipeline_next(PipelineStep::Reconcile, SidecarReply::ListFound),
        PipelineNext::ReadSegments
    ));
}

#[test]
fn pipeline_failures_name_the_step() {
    assert_eq!(
        fail(pipeline_next(PipelineStep::Transcribe, SidecarReply::Unreachable("refused".into()))),
        "Transcription step failed (could not reach sidecar): refused"
    );
    assert_eq!(
        fail(pipeline_next(
            PipelineStep::Diarize,
            SidecarReply::BadStatus { status: "500 Internal Server Error".into(), body: "x".into() }
        )),
        "Diarization step failed (status 500 Internal Server Error): x"
    );
    assert_eq!(
        fail(pipeline_next(PipelineStep::Reconcile, SidecarReply::InvalidJson("EOF".into()))),
        "Reconciliation step failed (invalid JSON): EOF"
    );
    assert_eq!(
        fail(pipeline_next(PipelineStep::Diarize, SidecarReply::MissingList)),
        "Diarization step failed: response missing 'turns' array"
    );
    assert_eq!(
        fail(pipeline_next(PipelineStep::Transcribe, SidecarReply::MissingList)),
        "Transcription step failed: response missing 'segments' array"
    );
    assert_eq!(
        fail(pipeline_next(PipelineStep::Reconcile, SidecarReply::MissingList)),
        "Reconciliation step failed: response missing 'segments' array"
    );
}

fn fields(start: bool, end: bool, text: bool, speaker: bool) -> SegmentFields {
    SegmentFields { start, end, text, speaker }
}

#[test]
fn segment_checks_report_the_first_missing_field() {
    let good = fields(true, true, true, true);
    assert_eq!(check_segments(&vec![], false), Ok(()));
    assert_eq!(check_segments(&vec![good, fields(true, true, true, false)], false), Ok(()));
    assert_eq!(
        check_segments(&vec![good, fields(true, false, false, true), fields(false, true, true, true)], false),
        Err("Segment missing 'end' field".to_string())
    );
    assert_eq!(
        check_segments(&vec![fields(false, false, false, false)], false),
        Err("Segment missing 'start' field".to_string())
    );
    assert_eq!(
        check_segments(&vec![fields(true, true, false, true)], false),
        Err("Segment missing 'text' field".to_string())
    );
    assert_eq!(
        check_segments(&vec![good, fields(true, true, true, false)], true),
        Err("Reconciled segment missing 'speaker' field".to_string())
    );
    assert_eq!(
        check_segments(&vec![fields(false, true, true, true)], true),
        Err("Reconciled segment missing 'start' field".to_string())
    );
}
