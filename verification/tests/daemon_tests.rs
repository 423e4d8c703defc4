use whisper_npu::daemon::{DaemonAction, DaemonCore, LiveResult};
use whisper_npu::protocol::{ClientCommand, DaemonEvent, DaemonState};

fn events(actions: &[DaemonAction]) -> Vec<DaemonEvent> {
    actions
        .iter()
        .filter_map(|a| match a {
            DaemonAction::Emit(e) => Some(e.clone()),
            _ => None,
        })
        .collect()
}

fn live(text: &str, generation: u64) -> Option<LiveResult> {
    Some(LiveResult { text: text.to_string(), generation })
}

#[test]
fn start_listening_starts_recorder_and_announces() {
    let mut d = DaemonCore::new();
    assert_eq!(d.state, DaemonState::Idle);
    let acts = d.on_command(ClientCommand::StartListening);
    assert!(matches!(acts[0], DaemonAction::StartRecorder));
    assert_eq!(events(&acts), vec![DaemonEvent::StateChanged { data: DaemonState::Listening }]);
    assert_eq!(d.generation, 1);
    assert_eq!(d.state, DaemonState::Listening);
}

#[test]
fn tick_starts_one_live_transcription_at_a_time() {
    let mut d = DaemonCore::new();
    d.on_command(ClientCommand::StartListening);
    assert!(d.on_tick(Some(32000)).is_empty());
    assert!(d.on_tick(None).is_empty());
    let acts = d.on_tick(Some(32001));
    assert!(matches!(acts[0], DaemonAction::StartLiveTranscription { generation: 1 }));
    assert!(d.on_tick(Some(64000)).is_empty());
    d.on_live_finished(None);
    assert_eq!(d.on_tick(Some(64000)).len(), 1);
}

#[test]
fn live_results_show_accumulated_text_first() {
    let mut d = DaemonCore::new();
    d.on_command(ClientCommand::StartListening);
    let acts = d.on_live_finished(live("hello", 1));
    assert_eq!(events(&acts), vec![DaemonEvent::PartialTranscript { data: "hello".to_string() }]);
    // The same text again is not re-sent.
    assert!(d.on_live_finished(live("hello", 1)).is_empty());
    // Pause: the session is transcribed and accumulated.
    let acts = d.on_command(ClientCommand::PauseListening);
    assert!(matches!(acts[0], DaemonAction::StopRecorder));
    assert!(matches!(acts[1], DaemonAction::CheckSession));
    let acts = d.on_session_checked(true);
    assert!(matches!(acts[0], DaemonAction::TranscribeSession));
    let acts = d.finish_pause("hello world".to_string());
    assert_eq!(
        events(&acts),
        vec![
            DaemonEvent::FinalTranscript { data: "hello world".to_string() },
            DaemonEvent::StateChanged { data: DaemonState::Paused },
        ]
    );
    d.on_command(ClientCommand::ResumeListening);
    let acts = d.on_live_finished(live("again", 1));
    assert_eq!(
        events(&acts),
        vec![DaemonEvent::PartialTranscript { data: "hello world\nagain".to_string() }]
    );
    let acts = d.on_live_finished(live("", 1));
    assert_eq!(
        events(&acts),
        vec![DaemonEvent::PartialTranscript { data: "hello world".to_string() }]
    );
}

#[test]
fn pause_without_recording_only_announces() {
    let mut d = DaemonCore::new();
    d.on_command(ClientCommand::StartListening);
    let acts = d.on_command(ClientCommand::PauseListening);
    assert!(events(&acts).is_empty());
    let acts = d.on_session_checked(false);
    assert_eq!(events(&acts), vec![DaemonEvent::StateChanged { data: DaemonState::Paused }]);
    let acts = d.finish_pause(String::new());
    assert_eq!(events(&acts)[0], DaemonEvent::FinalTranscript { data: String::new() });
}

#[test]
fn stale_live_results_are_dropped() {
    let mut d = DaemonCore::new();
    d.on_command(ClientCommand::StartListening);
    d.on_tick(Some(40000));
    let acts = d.on_command(ClientCommand::ClearBuffer);
    assert!(matches!(acts[0], DaemonAction::RemoveSessionFiles));
    assert_eq!(
        events(&acts),
        vec![
            DaemonEvent::PartialTranscript { data: String::new() },
            DaemonEvent::FinalTranscript { data: String::new() },
        ]
    );
    assert!(d.on_live_finished(live("old words", 1)).is_empty());
    assert!(!d.live_in_flight);
    assert_eq!(d.on_live_finished(live("new words", 2)).len(), 1);
}

#[test]
fn live_results_ignored_while_paused() {
    let mut d = DaemonCore::new();
    d.on_command(ClientCommand::StartListening);
    d.on_command(ClientCommand::PauseListening);
    assert!(d.on_live_finished(live("late", 1)).is_empty());
}

#[test]
fn stop_and_paste_kills_resets_and_pastes() {
    let mut d = DaemonCore::new();
    d.on_command(ClientCommand::StartListening);
    d.finish_pause("some text".to_string());
    let acts = d.on_command(
        ClientCommand::StopAndPaste {
            pid: 42,
            delay_ms: 180,
            text: Some("final".to_string()),
            wayland_display: None,
        },
    );
    assert!(matches!(acts[0], DaemonAction::KillClient { pid: 42 }));
    assert!(matches!(acts[1], DaemonAction::StopRecorder));
    assert!(matches!(acts[2], DaemonAction::RemoveSessionFiles));
    match &acts[4] {
        DaemonAction::Paste { text, delay_ms, wayland_display } => {
            assert_eq!(text.as_deref(), Some("final"));
            assert_eq!(*delay_ms, 180);
            assert!(wayland_display.is_none());
        }
        _ => panic!("expected a paste"),
    }
    assert_eq!(d.state, DaemonState::Idle);
    assert_eq!(d.accumulated_text, "");
    assert_eq!(d.generation, 2);
}

#[test]
fn cancel_without_pid_does_not_kill() {
    let mut d = DaemonCore::new();
    let acts = d.on_command(ClientCommand::CancelAndExit { pid: 0 });
    assert!(matches!(acts[0], DaemonAction::StopRecorder));
    assert_eq!(events(&acts), vec![DaemonEvent::StateChanged { data: DaemonState::Idle }]);
    let acts = d.on_command(ClientCommand::Stop);
    assert_eq!(acts.len(), 3);
}

#[test]
fn generation_limit_only_blocks_new_sessions() {
    let mut d = DaemonCore::new();
    d.generation = u64::MAX;
    assert!(d.can_accept(&ClientCommand::PauseListening));
    assert!(d.can_accept(&ClientCommand::ResumeListening));
    assert!(!d.can_accept(&ClientCommand::StartListening));
    assert!(!d.can_accept(&ClientCommand::ClearBuffer));
    d.on_command(ClientCommand::ResumeListening);
    assert_eq!(d.state, DaemonState::Listening);
    assert_eq!(d.generation, u64::MAX);
}
