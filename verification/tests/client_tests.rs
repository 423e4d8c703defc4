use whisper_npu::client::{
    FixAction, FixPhase, FixWindowState, StatusKind, SttTarget, UiAction, WhisperClientApp,
};
use whisper_npu::fix::FixProgress;
use whisper_npu::protocol::{ClientCommand, DaemonEvent, DaemonState};

fn partial(s: &str) -> DaemonEvent {
    DaemonEvent::PartialTranscript { data: s.to_string() }
}

#[test]
fn pause_resume_round_trip() {
    let mut app = WhisperClientApp::new();
    assert_eq!(app.toggle_pause(), vec![ClientCommand::PauseListening]);
    assert_eq!(app.state, DaemonState::Paused);
    assert_eq!(app.pause_label(), "Resume");
    assert_eq!(app.toggle_pause(), vec![ClientCommand::ResumeListening]);
    assert_eq!(app.state, DaemonState::Listening);
    assert_eq!(app.pause_label(), "Pause");
}

#[test]
fn editing_pauses_and_done_resumes() {
    let mut app = WhisperClientApp::new();
    assert_eq!(app.toggle_edit(), vec![ClientCommand::PauseListening]);
    assert!(app.is_editing);
    assert_eq!(app.edit_label(), "Done");
    assert_eq!(app.status_pill(), (StatusKind::Editing, "Editing"));
    app.apply_daemon_event(partial("dictated"));
    assert_eq!(app.text, "");
    assert_eq!(app.toggle_edit(), vec![ClientCommand::ResumeListening]);
    assert_eq!(app.state, DaemonState::Listening);
    assert_eq!(app.stt_target, SttTarget::MainText);
    // Already paused: editing does not resume on Done.
    app.toggle_pause();
    assert!(app.toggle_edit().is_empty());
    assert!(app.toggle_edit().is_empty());
    assert_eq!(app.state, DaemonState::Paused);
}

#[test]
fn transcripts_fill_main_text() {
    let mut app = WhisperClientApp::new();
    app.apply_daemon_event(partial("hello"));
    assert_eq!(app.text, "hello");
    app.apply_daemon_event(DaemonEvent::StateChanged { data: DaemonState::Idle });
    assert_eq!(app.status_pill(), (StatusKind::Standby, "Standby"));
    app.apply_daemon_event(DaemonEvent::Error { data: "boom".to_string() });
    assert_eq!(app.status_error.as_deref(), Some("boom"));
}

#[test]
fn fix_window_flow_confirm() {
    let mut app = WhisperClientApp::new();
    assert!(app.open_fix_window().is_empty());
    app.apply_daemon_event(partial("hello there"));
    app.toggle_pause();
    assert_eq!(
        app.open_fix_window(),
        vec![ClientCommand::ClearBuffer, ClientCommand::ResumeListening]
    );
    assert!(app.fix_window.is_open);
    assert_eq!(app.status_pill(), (StatusKind::Fixing, "Fixing: Dictating prompt"));
    assert_eq!(app.fix_window.phase_badge(), "1. Dictate Prompt");
    app.apply_daemon_event(partial("make it formal"));
    assert_eq!(app.fix_window.prompt_text, "make it formal");
    assert_eq!(app.text, "hello there");
    let out = app.submit_fix_request();
    assert_eq!(out.commands, vec![ClientCommand::PauseListening]);
    let req = out.fix_request.unwrap();
    assert_eq!(req.origin_text, "hello there");
    assert_eq!(req.instruction, "make it formal");
    assert_eq!(app.fix_window.phase, FixPhase::Processing);
    assert_eq!(app.fix_window.status_text.as_deref(), Some("Checking LLM health..."));
    app.apply_fix_progress(FixProgress::Status("Polishing text with LLM...".to_string()));
    app.apply_fix_progress(FixProgress::Done(Ok("Hello there.".to_string())));
    assert_eq!(app.fix_window.phase, FixPhase::Review);
    assert_eq!(app.route_keys(false, false, true), Some(UiAction::ConfirmFix));
    assert_eq!(app.route_keys(false, true, false), Some(UiAction::RepromptFix));
    assert_eq!(app.route_keys(true, true, true), Some(UiAction::CloseFix));
    let out = app.confirm_and_apply_fix();
    assert!(out.stop_llama);
    assert_eq!(app.text, "Hello there.");
    assert!(!app.fix_window.is_open);
}

#[test]
fn fix_window_discard_and_failure() {
    let mut app = WhisperClientApp::new();
    app.apply_daemon_event(partial("original"));
    app.open_fix_window();
    app.submit_fix_request();
    app.apply_fix_progress(FixProgress::Done(Err("no server".to_string())));
    assert_eq!(app.fix_window.phase, FixPhase::Prompting);
    assert_eq!(app.fix_window.status_text.as_deref(), Some("LLM Fix failed: no server"));
    let out = app.dispatch_fix_action(FixAction::Close);
    assert!(out.stop_llama);
    assert_eq!(app.text, "original");
    assert!(!app.fix_window.is_open);
    assert_eq!(app.stt_target, SttTarget::Ignore);
}

#[test]
fn reprompt_returns_to_dictation() {
    let mut app = WhisperClientApp::new();
    app.apply_daemon_event(partial("x"));
    app.open_fix_window();
    app.submit_fix_request();
    app.apply_fix_progress(FixProgress::Done(Ok("y".to_string())));
    let cmds = app.reprompt_fix();
    assert_eq!(cmds, vec![ClientCommand::ClearBuffer, ClientCommand::ResumeListening]);
    assert_eq!(app.fix_window.phase, FixPhase::Prompting);
    assert_eq!(app.fix_window.result_text, "");
    assert_eq!(app.stt_target, SttTarget::FixPrompt);
}

#[test]
fn keyboard_routing() {
    let mut app = WhisperClientApp::new();
    assert_eq!(app.route_keys(false, true, true), Some(UiAction::TogglePause));
    assert_eq!(app.route_keys(false, false, true), Some(UiAction::StopAndPaste));
    assert_eq!(app.route_keys(true, false, false), Some(UiAction::CancelAndExit));
    assert_eq!(app.route_keys(false, false, false), None);
    app.toggle_edit();
    assert_eq!(app.route_keys(false, true, true), None);
    assert_eq!(app.route_keys(true, false, false), Some(UiAction::ToggleEdit));
}

#[test]
fn fix_window_keys() {
    let mut w = FixWindowState::default();
    assert!(!w.is_open);
    assert_eq!(w.key_action(false, true, true, true), Some(FixAction::Close));
    assert_eq!(w.key_action(false, false, true, true), Some(FixAction::TogglePause));
    assert_eq!(w.key_action(false, false, false, true), Some(FixAction::Submit));
    assert_eq!(w.key_action(true, false, false, false), Some(FixAction::Close));
    w.phase = FixPhase::Review;
    assert_eq!(w.key_action(false, false, true, false), Some(FixAction::Reprompt));
    assert_eq!(w.key_action(false, false, false, true), Some(FixAction::Confirm));
    w.phase = FixPhase::Processing;
    assert_eq!(w.key_action(false, false, true, true), None);
    assert_eq!(w.phase_badge(), "2. Processing...");
}

#[test]
fn stop_and_paste_and_cancel_commands() {
    let mut app = WhisperClientApp::new();
    app.apply_daemon_event(partial("to paste"));
    let out = app.stop_and_paste(77, Some("wayland-0".to_string()));
    assert!(out.exit);
    assert!(!out.stop_llama);
    assert_eq!(
        out.commands,
        vec![ClientCommand::StopAndPaste {
            pid: 77,
            delay_ms: 180,
            text: Some("to paste".to_string()),
            wayland_display: Some("wayland-0".to_string()),
        }]
    );
    assert_eq!(out.copy_text.as_deref(), Some("to paste"));
    let out = app.cancel_and_exit(77);
    assert_eq!(out.commands, vec![ClientCommand::CancelAndExit { pid: 77 }]);
    assert!(out.exit);
    assert_eq!(out.copy_text, None);
    assert_eq!(app.clear_text(), vec![ClientCommand::ClearBuffer]);
    assert_eq!(app.text, "");
}

#[test]
fn run_action_dispatches_main_window_actions() {
    let mut app = WhisperClientApp::new();
    app.apply_daemon_event(partial("spoken words"));
    let out = app.run_action(UiAction::TogglePause, 5, None);
    assert_eq!(out.commands, vec![ClientCommand::PauseListening]);
    assert!(!out.exit && !out.stop_llama && out.fix_request.is_none() && out.copy_text.is_none());
    assert_eq!(app.state, DaemonState::Paused);
    let out = app.run_action(UiAction::ToggleEdit, 5, None);
    assert!(out.commands.is_empty());
    assert!(app.is_editing);
    let out = app.run_action(UiAction::ToggleEdit, 5, None);
    assert!(out.commands.is_empty());
    assert!(!app.is_editing);
    let out = app.run_action(UiAction::CancelAndExit, 5, None);
    assert_eq!(out.commands, vec![ClientCommand::CancelAndExit { pid: 5 }]);
    assert!(out.exit);
    assert_eq!(out.copy_text, None);
    let out = app.run_action(UiAction::StopAndPaste, 5, Some("wayland-1".to_string()));
    assert_eq!(
        out.commands,
        vec![ClientCommand::StopAndPaste {
            pid: 5,
            delay_ms: 180,
            text: Some("spoken words".to_string()),
            wayland_display: Some("wayland-1".to_string()),
        }]
    );
    assert!(out.exit);
    assert_eq!(out.copy_text.as_deref(), Some("spoken words"));
    assert_eq!(app.text, "spoken words");
}

#[test]
fn run_action_drives_the_fix_window() {
    let mut app = WhisperClientApp::new();
    app.apply_daemon_event(partial("draft"));
    app.open_fix_window();
    app.apply_daemon_event(partial("shorter"));
    let out = app.run_action(UiAction::SubmitFix, 9, None);
    assert_eq!(out.commands, vec![ClientCommand::PauseListening]);
    let req = out.fix_request.unwrap();
    assert_eq!(req.origin_text, "draft");
    assert_eq!(req.instruction, "shorter");
    app.apply_fix_progress(FixProgress::Done(Ok("Draft.".to_string())));
    let out = app.run_action(UiAction::RepromptFix, 9, None);
    assert_eq!(out.commands, vec![ClientCommand::ClearBuffer, ClientCommand::ResumeListening]);
    assert_eq!(app.fix_window.phase, FixPhase::Prompting);
    let out = app.run_action(UiAction::CloseFix, 9, None);
    assert!(out.stop_llama);
    assert_eq!(out.commands, vec![ClientCommand::PauseListening]);
    assert!(!app.fix_window.is_open);
    assert_eq!(app.text, "draft");
    let out = app.run_action(UiAction::ConfirmFix, 9, None);
    assert!(out.commands.is_empty() && !out.stop_llama);
}

#[test]
fn discarding_after_prompts_and_reprompts_restores_text() {
    let mut app = WhisperClientApp::new();
    app.apply_daemon_event(partial("original words"));
    app.open_fix_window();
    app.apply_daemon_event(partial("make it shorter"));
    app.submit_fix_request();
    app.apply_fix_progress(FixProgress::Status("Polishing text with LLM...".to_string()));
    app.apply_fix_progress(FixProgress::Done(Ok("Words.".to_string())));
    app.reprompt_fix();
    app.apply_daemon_event(partial("no, make it longer"));
    app.toggle_pause();
    app.toggle_pause();
    app.submit_fix_request();
    app.apply_fix_progress(FixProgress::Done(Err("timeout".to_string())));
    assert_eq!(app.text, "original words");
    app.toggle_pause();
    let out = app.close_fix_window();
    assert_eq!(app.text, "original words");
    assert!(!app.fix_window.is_open);
    assert_eq!(app.stt_target, SttTarget::Ignore);
    assert_eq!(app.state, DaemonState::Paused);
    assert_eq!(out.commands, vec![ClientCommand::PauseListening]);
    assert!(out.stop_llama);
}

#[test]
fn fix_window_is_placed_once_beside_the_main_window() {
    let mut w = FixWindowState::default();
    assert_eq!(w.begin_frame(true), None);
    w.is_open = true;
    assert_eq!(w.begin_frame(false), Some(false));
    assert!(!w.has_positioned);
    assert_eq!(w.begin_frame(true), Some(true));
    assert!(w.has_positioned);
    assert_eq!(w.begin_frame(true), Some(false));
}
