//! Messages exchanged between the dictation daemon and its clients, and the
//! default location of the daemon's socket.
use vstd::prelude::*;
use vstd::string::StringExecFns;

verus! {

pub const DEFAULT_SOCKET_PATH: &'static str = "/run/whisper-npu/daemon.sock";

/// Whether the daemon is capturing speech.
#[derive(Debug, Clone, Copy, PartialEq, Eq, Structural)]
pub enum DaemonState {
    Listening,
    Paused,
    Idle,
}

/// A request from a client to the daemon.
#[derive(Debug, Clone, PartialEq, Eq)]
pub enum ClientCommand {
    StartListening,
    PauseListening,
    ResumeListening,
    ClearBuffer,
    Stop,
    StopAndPaste { pid: u32, delay_ms: u64, text: Option<String>, wayland_display: Option<String> },
    CancelAndExit { pid: u32 },
}

/// A notification from the daemon to its clients.
#[allow(inconsistent_fields)]
#[derive(Debug, Clone, PartialEq, Eq)]
pub enum DaemonEvent {
    StateChanged { data: DaemonState },
    PartialTranscript { data: String },
    FinalTranscript { data: String },
    Error { data: String },
}

/// The mathematical value of a command: its strings as character sequences.
pub enum ClientCommandView {
    StartListening,
    PauseListening,
    ResumeListening,
    ClearBuffer,
    Stop,
    StopAndPaste {
        pid: u32,
        delay_ms: u64,
        text: Option<Seq<char>>,
        wayland_display: Option<Seq<char>>,
    },
    CancelAndExit { pid: u32 },
}

/// The mathematical value of an event.
pub enum DaemonEventView {
    StateChanged(DaemonState),
    PartialTranscript(Seq<char>),
    FinalTranscript(Seq<char>),
    Error(Seq<char>),
}

pub open spec fn opt_str_view(o: Option<String>) -> Option<Seq<char>> {
    match o {
        Some(s) => Some(s@),
        None => None,
    }
}

impl View for ClientCommand {
    type V = ClientCommandView;

    open spec fn view(&self) -> ClientCommandView {
        match self {
            ClientCommand::StartListening => ClientCommandView::StartListening,
            ClientCommand::PauseListening => ClientCommandView::PauseListening,
            ClientCommand::ResumeListening => ClientCommandView::ResumeListening,
            ClientCommand::ClearBuffer => ClientCommandView::ClearBuffer,
            ClientCommand::Stop => ClientCommandView::Stop,
            ClientCommand::StopAndPaste { pid, delay_ms, text, wayland_display } =>
                ClientCommandView::StopAndPaste {
                pid: *pid,
                delay_ms: *delay_ms,
                text: opt_str_view(*text),
                wayland_display: opt_str_view(*wayland_display),
            },
            ClientCommand::CancelAndExit { pid } => ClientCommandView::CancelAndExit { pid: *pid },
        }
    }
}

impl View for DaemonEvent {
    type V = DaemonEventView;

    open spec fn view(&self) -> DaemonEventView {
        match self {
            DaemonEvent::StateChanged { data } => DaemonEventView::StateChanged(*data),
            DaemonEvent::PartialTranscript { data } => DaemonEventView::PartialTranscript(data@),
            DaemonEvent::FinalTranscript { data } => DaemonEventView::FinalTranscript(data@),
            DaemonEvent::Error { data } => DaemonEventView::Error(data@),
        }
    }
}

/// The views of a list of commands.
pub open spec fn commands_view(v: Seq<ClientCommand>) -> Seq<ClientCommandView> {
    v.map_values(|c: ClientCommand| c@)
}

/// The delay before the paste keystroke when a command leaves it out.
pub fn default_paste_delay() -> (res: u64)
    ensures
        res == 180,
{
    180
}

/// The socket to listen on or connect to: the one given, or the default.
pub fn socket_path_or_default(socket_path: Option<String>) -> (res: String)
    ensures
        res@ == match socket_path {
            Some(p) => p@,
            None => DEFAULT_SOCKET_PATH@,
        },
{
    match socket_path {
        Some(p) => p,
        None => String::from_str(DEFAULT_SOCKET_PATH),
    }
}

/// The event that answers a line that is not a valid command.
pub fn invalid_command_event(reason: &str) -> (res: DaemonEvent)
    ensures
        res@ == DaemonEventView::Error("Invalid command: "@ + reason@),
{
    let mut m = String::from_str("Invalid command: ");
    m.append(reason);
    DaemonEvent::Error { data: m }
}

} // verus!
