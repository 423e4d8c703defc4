use whisper_npu::fix::{
    build_fix_prompt, clean_code_fences, readiness_step, revised_text, systemctl_attempts,
    systemctl_failure, ReadyEvent, ReadyOp, ReadyPhase, ServiceOp, SYSTEM_PROMPT,
};

#[test]
fn test_clean_code_fences() {
    let text = "```\nHello world\n```";
    assert_eq!(clean_code_fences(text), "Hello world");

    let text_with_lang = "```markdown\nHello world\n```";
    assert_eq!(clean_code_fences(text_with_lang), "Hello world");

    let plain = "Hello world";
    assert_eq!(clean_code_fences(plain), "Hello world");
}

#[test]
fn code_fences_edge_cases() {
    assert_eq!(clean_code_fences("  ```\r\nline one\r\nline two\r\n```  "), "line one\nline two");
    assert_eq!(clean_code_fences("```"), "```");
    assert_eq!(clean_code_fences("``````"), "``````");
    assert_eq!(clean_code_fences("```\n```"), "");
    assert_eq!(clean_code_fences("```a\n\n  b  \n\n```"), "b");
    assert_eq!(clean_code_fences("``` only ``` one line ```"), "``` only ``` one line ```");
    assert_eq!(clean_code_fences("   spaced   "), "spaced");
}

#[test]
fn revised_text_from_first_choice() {
    assert_eq!(revised_text(Some("  ```\nFixed.\n```\n")), "Fixed.");
    assert_eq!(revised_text(Some("Fixed.")), "Fixed.");
    assert_eq!(revised_text(None), "");
}

#[test]
fn fix_prompt_without_instruction() {
    assert_eq!(
        build_fix_prompt("i has a cat", "   "),
        "Original text:\ni has a cat\n\nRevision instructions:\nFix grammar, spelling, punctuation, and capitalization. Maintain the original meaning. Return ONLY the revised text with no explanation, preface, or conversational filler.\n\nRevised text:"
    );
}

#[test]
fn fix_prompt_with_instruction() {
    assert_eq!(
        build_fix_prompt("hi", "  make it formal \n"),
        "Original text:\n\"\"\"\nhi\n\"\"\"\n\nUser instructions for revision:\nmake it formal\n\nReturn ONLY the revised text following the instructions, with no conversational filler, preface, or markdown wrapping."
    );
    assert!(SYSTEM_PROMPT.starts_with("You are an expert AI editor."));
}

#[test]
fn systemctl_order() {
    assert_eq!(
        systemctl_attempts(ServiceOp::IsActive, "llama.service"),
        vec![
            vec!["systemctl", "is-active", "--quiet", "llama.service"],
            vec!["sudo", "systemctl", "is-active", "--quiet", "llama.service"],
        ]
    );
    assert_eq!(
        systemctl_attempts(ServiceOp::Start, "x"),
        vec![vec!["sudo", "systemctl", "start", "x"], vec!["systemctl", "start", "x"]]
    );
    assert_eq!(
        systemctl_attempts(ServiceOp::Stop, "x"),
        vec![vec!["sudo", "systemctl", "stop", "x"], vec!["systemctl", "stop", "x"]]
    );
    assert_eq!(
        systemctl_failure(ServiceOp::Start, "x"),
        "Failed to start x via sudo systemctl start"
    );
    assert_eq!(systemctl_failure(ServiceOp::Stop, "x"), "Failed to stop x via sudo systemctl stop");
}

#[test]
fn readiness_healthy_at_once() {
    let s = readiness_step(ReadyPhase::NotStarted, ReadyEvent::Begin, "llama.service", "u");
    assert_eq!(s.phase, ReadyPhase::CheckingHealth);
    assert_eq!(s.status.as_deref(), Some("Checking LLM health..."));
    assert_eq!(s.op, ReadyOp::ProbeHealth);
    let s = readiness_step(
        s.phase,
        ReadyEvent::Health { healthy: true, elapsed_ms: 0 },
        "llama.service",
        "u",
    );
    assert_eq!(s.phase, ReadyPhase::Ready);
    assert_eq!(s.op, ReadyOp::Finish);
    assert_eq!(s.status.as_deref(), Some("Polishing text with LLM..."));
    assert!(s.failure.is_none());
    // Ready after polling says the same.
    let s = readiness_step(
        ReadyPhase::Polling,
        ReadyEvent::Health { healthy: true, elapsed_ms: 4000 },
        "llama.service",
        "u",
    );
    assert_eq!((s.phase, s.op), (ReadyPhase::Ready, ReadyOp::Finish));
    assert_eq!(s.status.as_deref(), Some("Polishing text with LLM..."));
}

#[test]
fn readiness_starts_then_polls_then_times_out() {
    let svc = "llama.service";
    let url = "http://127.0.0.1:8080/health";
    let s = readiness_step(
        ReadyPhase::CheckingHealth,
        ReadyEvent::Health { healthy: false, elapsed_ms: 0 },
        svc,
        url,
    );
    assert_eq!((s.phase, s.op), (ReadyPhase::CheckingActive, ReadyOp::ProbeActive));
    let s = readiness_step(s.phase, ReadyEvent::Active { active: false }, svc, url);
    assert_eq!(s.status.as_deref(), Some("Starting llama.service..."));
    assert_eq!(s.op, ReadyOp::StartService);
    let s = readiness_step(s.phase, ReadyEvent::Started { ok: true }, svc, url);
    assert_eq!((s.phase, s.op), (ReadyPhase::Waiting, ReadyOp::ReadClock));
    let s = readiness_step(s.phase, ReadyEvent::Clock { elapsed_ms: 1200 }, svc, url);
    assert_eq!((s.phase, s.op), (ReadyPhase::Polling, ReadyOp::ProbeHealth));
    let s = readiness_step(s.phase, ReadyEvent::Health { healthy: false, elapsed_ms: 12999 }, svc, url);
    assert_eq!(s.status.as_deref(), Some("Loading LLM model (12s)..."));
    assert_eq!(s.op, ReadyOp::SleepThenReadClock { ms: 500 });
    let s = readiness_step(s.phase, ReadyEvent::Clock { elapsed_ms: 30000 }, svc, url);
    assert_eq!(s.phase, ReadyPhase::Failed);
    assert_eq!(
        s.failure.as_deref(),
        Some("Timed out waiting for llama.service health check at http://127.0.0.1:8080/health")
    );
}

#[test]
fn readiness_active_service_waits_and_failed_start_fails() {
    let s = readiness_step(ReadyPhase::CheckingActive, ReadyEvent::Active { active: true }, "s", "u");
    assert_eq!(s.status.as_deref(), Some("Waiting for LLM model to finish loading..."));
    assert_eq!(s.phase, ReadyPhase::Waiting);
    let s = readiness_step(ReadyPhase::Starting, ReadyEvent::Started { ok: false }, "s", "u");
    assert_eq!(s.phase, ReadyPhase::Failed);
    assert_eq!(s.failure.as_deref(), Some("Failed to start service s"));
    let s = readiness_step(ReadyPhase::Ready, ReadyEvent::Begin, "s", "u");
    assert_eq!((s.phase, s.op), (ReadyPhase::Ready, ReadyOp::Nothing));
}
