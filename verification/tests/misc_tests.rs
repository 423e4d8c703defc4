use whisper_npu::paste::{
    choose_display, clipboard_env, copy_decision, kill_args, paste_keystroke_args, CopyDecision,
    CopyProgress,
};
use whisper_npu::protocol::{
    default_paste_delay, invalid_command_event, socket_path_or_default, ClientCommand,
    DaemonEvent, DEFAULT_SOCKET_PATH,
};
use whisper_npu::recorder::{
    arecord_args, mute_commands, volume_output_is_muted, RecorderAction, RecorderCore,
    RECORDING_WAV_PATH,
};
use whisper_npu::server::ClientCounter;

#[test]
fn protocol_defaults() {
    assert_eq!(default_paste_delay(), 180);
    assert_eq!(socket_path_or_default(None), DEFAULT_SOCKET_PATH);
    assert_eq!(socket_path_or_default(Some("/tmp/s".to_string())), "/tmp/s");
    assert_eq!(
        invalid_command_event("bad json"),
        DaemonEvent::Error { data: "Invalid command: bad json".to_string() }
    );
}

#[test]
fn recorder_mutes_only_unmuted_speakers() {
    let mut r = RecorderCore::new();
    assert_eq!(r.on_start(), vec![RecorderAction::ProbeMute]);
    assert_eq!(
        r.on_mute_probed(false),
        vec![
            RecorderAction::SetMute(true),
            RecorderAction::RemoveRecording,
            RecorderAction::SpawnRecorder
        ]
    );
    r.on_spawned(true);
    assert!(r.is_recording());
    assert!(r.on_start().is_empty());
    assert_eq!(
        r.on_stop(),
        vec![RecorderAction::KillRecorder, RecorderAction::SetMute(false)]
    );
    assert!(r.on_stop().is_empty());
    // Speakers muted by the user stay muted.
    r.on_start();
    assert_eq!(
        r.on_mute_probed(true),
        vec![RecorderAction::RemoveRecording, RecorderAction::SpawnRecorder]
    );
    r.on_spawned(false);
    assert!(!r.is_recording());
    assert!(r.on_stop().is_empty());
}

#[test]
fn recorder_commands() {
    assert!(volume_output_is_muted("Volume: 0.40 [MUTED]\n"));
    assert!(!volume_output_is_muted("Volume: 0.40\n"));
    assert_eq!(
        mute_commands(true),
        vec![
            vec!["wpctl", "set-mute", "@DEFAULT_AUDIO_SINK@", "1"],
            vec!["amixer", "set", "Master", "mute"],
        ]
    );
    assert_eq!(mute_commands(false)[1], vec!["amixer", "set", "Master", "unmute"]);
    assert_eq!(
        arecord_args(),
        vec!["-D", "default", "-f", "S16_LE", "-c", "1", "-r", "16000", RECORDING_WAV_PATH]
    );
}

#[test]
fn listening_follows_connected_clients() {
    let mut c = ClientCounter::new();
    assert_eq!(c.on_connect(), Some(ClientCommand::StartListening));
    assert_eq!(c.on_connect(), None);
    assert_eq!(c.on_disconnect(), None);
    assert_eq!(c.on_disconnect(), Some(ClientCommand::Stop));
    assert_eq!(c.active, 0);
}

#[test]
fn paste_helpers() {
    assert_eq!(
        choose_display(Some("wayland-1".to_string()), Some("wayland-0".to_string())),
        Some("wayland-1".to_string())
    );
    assert_eq!(choose_display(None, Some("wayland-0".to_string())), Some("wayland-0".to_string()));
    assert_eq!(choose_display(None, None), None);
    assert_eq!(
        clipboard_env(None, false, false),
        vec![
            ("WAYLAND_DISPLAY".to_string(), "wayland-0".to_string()),
            ("XDG_RUNTIME_DIR".to_string(), "/run/user/1000".to_string()),
        ]
    );
    assert_eq!(clipboard_env(None, true, true), vec![]);
    assert_eq!(
        clipboard_env(Some("wayland-2".to_string()), true, true),
        vec![("WAYLAND_DISPLAY".to_string(), "wayland-2".to_string())]
    );
    assert_eq!(paste_keystroke_args(), vec!["key", "29:1", "47:1", "47:0", "29:0"]);
    assert_eq!(kill_args(12345), vec!["-9", "12345"]);
    assert_eq!(kill_args(0), vec!["-9", "0"]);
    assert_eq!(copy_decision(CopyProgress::Exited { success: true }, 500), CopyDecision::Copied);
    assert_eq!(copy_decision(CopyProgress::Exited { success: false }, 0), CopyDecision::Fallback);
    assert_eq!(copy_decision(CopyProgress::Running, 150_000_000), CopyDecision::WaitMore);
    assert_eq!(copy_decision(CopyProgress::Running, 150_000_001), CopyDecision::Fallback);
    assert_eq!(copy_decision(CopyProgress::Running, 150_500_000), CopyDecision::Fallback);
    assert_eq!(copy_decision(CopyProgress::QueryFailed, 0), CopyDecision::Fallback);
}
