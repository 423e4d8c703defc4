//! The dictation overlay's behaviour, apart from drawing: the recording
//! state it shows, manual editing, the "Fix with LLM" side window, keyboard
//! shortcuts and the handling of daemon events. Each operation updates the
//! model and returns the commands to send to the daemon.
use vstd::prelude::*;
use vstd::string::StringExecFns;
use crate::protocol::{
    commands_view, opt_str_view, ClientCommand, ClientCommandView, DaemonEvent, DaemonEventView,
    DaemonState,
};
use crate::fix::FixProgress;
use crate::text::{chars_of, trim, trim_chars};

verus! {

/// Where transcribed speech goes.
#[derive(Debug, Clone, Copy, PartialEq, Eq, Structural)]
pub enum SttTarget {
    MainText,
    FixPrompt,
    Ignore,
}

/// The stage of the "Fix with LLM" window.
#[derive(Debug, Clone, Copy, PartialEq, Eq, Structural)]
pub enum FixPhase {
    Prompting,
    Processing,
    Review,
}

/// A user action in the "Fix with LLM" window.
#[derive(Debug, Clone, Copy, PartialEq, Eq, Structural)]
pub enum FixAction {
    TogglePause,
    Submit,
    Confirm,
    Close,
    Reprompt,
}

/// The "Fix with LLM" window.
#[derive(Debug)]
pub struct FixWindowState {
    pub is_open: bool,
    pub has_positioned: bool,
    pub phase: FixPhase,
    /// The main text when the window was opened.
    pub origin_text: String,
    /// The dictated instruction.
    pub prompt_text: String,
    /// The model's revision.
    pub result_text: String,
    pub status_text: Option<String>,
}

pub struct FixWindowView {
    pub is_open: bool,
    pub has_positioned: bool,
    pub phase: FixPhase,
    pub origin: Seq<char>,
    pub prompt: Seq<char>,
    pub result: Seq<char>,
    pub status: Option<Seq<char>>,
}

impl View for FixWindowState {
    type V = FixWindowView;

    open spec fn view(&self) -> FixWindowView {
        FixWindowView {
            is_open: self.is_open,
            has_positioned: self.has_positioned,
            phase: self.phase,
            origin: self.origin_text@,
            prompt: self.prompt_text@,
            result: self.result_text@,
            status: opt_str_view(self.status_text),
        }
    }
}

impl Default for FixWindowState {
    fn default() -> (res: Self)
        ensures
            res@ == (FixWindowView {
                is_open: false,
                has_positioned: false,
                phase: FixPhase::Prompting,
                origin: seq![],
                prompt: seq![],
                result: seq![],
                status: None,
            }),
    {
        FixWindowState {
            is_open: false,
            has_positioned: false,
            phase: FixPhase::Prompting,
            origin_text: String::new(),
            prompt_text: String::new(),
            result_text: String::new(),
            status_text: None,
        }
    }
}

/// A frame of the window: hidden while closed, else whether to place it at
/// its default position now (not yet placed, and the main window's position
/// is known).
pub open spec fn spec_begin_frame(w: FixWindowView, main_rect_known: bool) -> Option<bool> {
    if !w.is_open {
        None
    } else {
        Some(!w.has_positioned && main_rect_known)
    }
}

/// The action that the window's keys ask for, given whether closing the
/// window was requested and which of Escape, Space and Enter were pressed.
pub open spec fn spec_fix_key_action(
    phase: FixPhase,
    close_requested: bool,
    escape: bool,
    space: bool,
    enter: bool,
) -> Option<FixAction> {
    let base = if close_requested {
        Some(FixAction::Close)
    } else {
        None
    };
    if escape {
        Some(FixAction::Close)
    } else {
        match phase {
            FixPhase::Prompting => if space {
                Some(FixAction::TogglePause)
            } else if enter {
                Some(FixAction::Submit)
            } else {
                base
            },
            FixPhase::Review => if space {
                Some(FixAction::Reprompt)
            } else if enter {
                Some(FixAction::Confirm)
            } else {
                base
            },
            FixPhase::Processing => base,
        }
    }
}

impl FixWindowState {
    /// Maps the window's keyboard input to an action: Escape closes; while
    /// prompting Space pauses or resumes and Enter submits; in review Space
    /// goes back to prompting and Enter confirms.
    pub fn key_action(&self, close_requested: bool, escape: bool, space: bool, enter: bool) -> (res:
        Option<FixAction>)
        ensures
            res == spec_fix_key_action(self.phase, close_requested, escape, space, enter),
    {
        let mut action: Option<FixAction> = None;
        if close_requested {
            action = Some(FixAction::Close);
        }
        if escape {
            action = Some(FixAction::Close);
        } else {
            match self.phase {
                FixPhase::Prompting => {
                    if space {
                        action = Some(FixAction::TogglePause);
                    } else if enter {
                        action = Some(FixAction::Submit);
                    }
                },
                FixPhase::Review => {
                    if space {
                        action = Some(FixAction::Reprompt);
                    } else if enter {
                        action = Some(FixAction::Confirm);
                    }
                },
                FixPhase::Processing => {},
            }
        }
        action
    }

    /// Starts a frame of the window: `None` while it is closed (nothing is
    /// shown); otherwise whether to place it now at its default position
    /// beside the main window, which happens once, on the first frame where
    /// the main window's position is known.
    pub fn begin_frame(&mut self, main_rect_known: bool) -> (res: Option<bool>)
        ensures
            res == spec_begin_frame(old(self)@, main_rect_known),
            final(self)@ == (FixWindowView {
                has_positioned: old(self)@.has_positioned || res == Some(true),
                ..old(self)@
            }),
    {
        if !self.is_open {
            return None;
        }
        let place = !self.has_positioned && main_rect_known;
        if place {
            self.has_positioned = true;
        }
        Some(place)
    }

    /// The badge that names the window's stage.
    pub fn phase_badge(&self) -> (res: &'static str)
        ensures
            res@ == match self.phase {
                FixPhase::Prompting => "1. Dictate Prompt"@,
                FixPhase::Processing => "2. Processing..."@,
                FixPhase::Review => "3. Review Result"@,
            },
    {
        match self.phase {
            FixPhase::Prompting => "1. Dictate Prompt",
            FixPhase::Processing => "2. Processing...",
            FixPhase::Review => "3. Review Result",
        }
    }
}

/// The overlay's state.
pub struct WhisperClientApp {
    pub state: DaemonState,
    pub text: String,
    pub is_editing: bool,
    pub was_recording_before_edit: bool,
    pub fix_window: FixWindowState,
    pub stt_target: SttTarget,
    pub status_error: Option<String>,
}

pub struct ClientView {
    pub state: DaemonState,
    pub text: Seq<char>,
    pub is_editing: bool,
    pub was_recording_before_edit: bool,
    pub fix: FixWindowView,
    pub target: SttTarget,
    pub status_error: Option<Seq<char>>,
}

impl View for WhisperClientApp {
    type V = ClientView;

    open spec fn view(&self) -> ClientView {
        ClientView {
            state: self.state,
            text: self.text@,
            is_editing: self.is_editing,
            was_recording_before_edit: self.was_recording_before_edit,
            fix: self.fix_window@,
            target: self.stt_target,
            status_error: opt_str_view(self.status_error),
        }
    }
}

/// A revision to ask the LLM for: the text and the dictated instruction.
pub struct FixRequest {
    pub origin_text: String,
    pub instruction: String,
}

/// What an operation asks of the caller besides the model update.
pub struct ClientOutput {
    /// Commands for the daemon, in order.
    pub commands: Vec<ClientCommand>,
    /// Stop the LLM service to free its memory.
    pub stop_llama: bool,
    /// Start this revision request.
    pub fix_request: Option<FixRequest>,
    /// Close the overlay once the commands are sent.
    pub exit: bool,
    /// Put this text on the overlay's own clipboard before exiting.
    pub copy_text: Option<String>,
}

pub struct ClientOutputView {
    pub commands: Seq<ClientCommandView>,
    pub stop_llama: bool,
    pub fix_request: Option<(Seq<char>, Seq<char>)>,
    pub exit: bool,
    pub copy_text: Option<Seq<char>>,
}

impl View for ClientOutput {
    type V = ClientOutputView;

    open spec fn view(&self) -> ClientOutputView {
        ClientOutputView {
            commands: commands_view(self.commands@),
            stop_llama: self.stop_llama,
            fix_request: match self.fix_request {
                Some(r) => Some((r.origin_text@, r.instruction@)),
                None => None,
            },
            exit: self.exit,
            copy_text: opt_str_view(self.copy_text),
        }
    }
}

/// Only commands for the daemon.
pub open spec fn only_commands(cmds: Seq<ClientCommandView>) -> ClientOutputView {
    ClientOutputView { commands: cmds, stop_llama: false, fix_request: None, exit: false, copy_text: None }
}

/// The command that hands the shown text to the daemon for pasting.
pub open spec fn spec_stop_and_paste_command(
    c: ClientView,
    pid: u32,
    wayland_display: Option<Seq<char>>,
) -> ClientCommandView {
    ClientCommandView::StopAndPaste { pid, delay_ms: 180, text: Some(c.text), wayland_display }
}

/// Pauses when listening, resumes otherwise.
pub open spec fn spec_toggle_pause(c: ClientView) -> (ClientView, Seq<ClientCommandView>) {
    if c.state == DaemonState::Listening {
        (
            ClientView {
                state: DaemonState::Paused,
                was_recording_before_edit: if c.is_editing {
                    false
                } else {
                    c.was_recording_before_edit
                },
                ..c
            },
            seq![ClientCommandView::PauseListening],
        )
    } else {
        (
            ClientView {
                state: DaemonState::Listening,
                was_recording_before_edit: if c.is_editing {
                    true
                } else {
                    c.was_recording_before_edit
                },
                target: if !c.fix.is_open {
                    SttTarget::MainText
                } else {
                    c.target
                },
                ..c
            },
            seq![ClientCommandView::ResumeListening],
        )
    }
}

/// Enters editing (pausing a running recording) or leaves it (resuming the
/// recording if editing paused it).
pub open spec fn spec_toggle_edit(c: ClientView) -> (ClientView, Seq<ClientCommandView>) {
    if c.is_editing {
        if c.was_recording_before_edit {
            (
                ClientView {
                    is_editing: false,
                    state: DaemonState::Listening,
                    was_recording_before_edit: false,
                    target: SttTarget::MainText,
                    ..c
                },
                seq![ClientCommandView::ResumeListening],
            )
        } else {
            (ClientView { is_editing: false, ..c }, seq![])
        }
    } else if c.state == DaemonState::Listening {
        (
            ClientView {
                is_editing: true,
                was_recording_before_edit: true,
                state: DaemonState::Paused,
                ..c
            },
            seq![ClientCommandView::PauseListening],
        )
    } else {
        (ClientView { is_editing: true, was_recording_before_edit: false, ..c }, seq![])
    }
}

/// Pauses the recording if it is running.
pub open spec fn spec_pause_if_listening(c: ClientView) -> (ClientView, Seq<ClientCommandView>) {
    if c.state == DaemonState::Listening {
        (ClientView { state: DaemonState::Paused, ..c }, seq![ClientCommandView::PauseListening])
    } else {
        (c, seq![])
    }
}

/// Resumes the recording if it is not running.
pub open spec fn spec_resume_unless_listening(c: ClientView) -> (ClientView, Seq<ClientCommandView>) {
    if c.state != DaemonState::Listening {
        (ClientView { state: DaemonState::Listening, ..c }, seq![ClientCommandView::ResumeListening])
    } else {
        (c, seq![])
    }
}

/// Opens the fix window for a text that is not blank: the text becomes the
/// origin, dictation goes to the (cleared) prompt, and recording runs.
pub open spec fn spec_open_fix_window(c: ClientView) -> (ClientView, Seq<ClientCommandView>) {
    if trim(c.text).len() == 0 || c.fix.is_open {
        (c, seq![])
    } else {
        let c1 = ClientView {
            fix: FixWindowView {
                is_open: true,
                has_positioned: false,
                phase: FixPhase::Prompting,
                origin: c.text,
                prompt: seq![],
                result: seq![],
                status: None,
            },
            target: SttTarget::FixPrompt,
            ..c
        };
        let r = spec_resume_unless_listening(c1);
        (r.0, seq![ClientCommandView::ClearBuffer] + r.1)
    }
}

/// Submits the dictated instruction: dictation stops and the request starts.
pub open spec fn spec_submit_fix_request(c: ClientView) -> (ClientView, ClientOutputView) {
    if !c.fix.is_open || c.fix.phase != FixPhase::Prompting {
        (c, only_commands(seq![]))
    } else {
        let c1 = ClientView { target: SttTarget::Ignore, ..c };
        let p = spec_pause_if_listening(c1);
        (
            ClientView {
                fix: FixWindowView {
                    phase: FixPhase::Processing,
                    status: Some("Checking LLM health..."@),
                    ..c.fix
                },
                ..p.0
            },
            ClientOutputView {
                commands: p.1,
                stop_llama: false,
                fix_request: Some((c.fix.origin, c.fix.prompt)),
                exit: false,
                copy_text: None,
            },
        )
    }
}

/// Replaces the main text with the reviewed revision and closes the window.
pub open spec fn spec_confirm_and_apply_fix(c: ClientView) -> (ClientView, ClientOutputView) {
    if c.fix.is_open && c.fix.phase == FixPhase::Review {
        let c1 = ClientView {
            target: SttTarget::Ignore,
            text: c.fix.result,
            fix: FixWindowView { is_open: false, ..c.fix },
            ..c
        };
        let p = spec_pause_if_listening(c1);
        (p.0, ClientOutputView { commands: p.1, stop_llama: true, fix_request: None, exit: false, copy_text: None })
    } else {
        (c, only_commands(seq![]))
    }
}

/// Closes the window and puts the origin text back.
pub open spec fn spec_close_fix_window(c: ClientView) -> (ClientView, ClientOutputView) {
    let c1 = ClientView {
        target: SttTarget::Ignore,
        text: c.fix.origin,
        fix: FixWindowView { is_open: false, ..c.fix },
        ..c
    };
    let p = spec_pause_if_listening(c1);
    (p.0, ClientOutputView { commands: p.1, stop_llama: true, fix_request: None, exit: false, copy_text: None })
}

/// Goes back to dictating a new instruction.
pub open spec fn spec_reprompt_fix(c: ClientView) -> (ClientView, Seq<ClientCommandView>) {
    let c1 = ClientView {
        fix: FixWindowView { phase: FixPhase::Prompting, result: seq![], ..c.fix },
        target: SttTarget::FixPrompt,
        ..c
    };
    let r = spec_resume_unless_listening(c1);
    (r.0, seq![ClientCommandView::ClearBuffer] + r.1)
}

/// Where a transcript from the daemon goes.
pub open spec fn spec_apply_transcript(c: ClientView, data: Seq<char>) -> ClientView {
    match c.target {
        SttTarget::FixPrompt => if c.fix.is_open && c.fix.phase == FixPhase::Prompting {
            ClientView { fix: FixWindowView { prompt: data, ..c.fix }, ..c }
        } else {
            c
        },
        SttTarget::MainText => if !c.is_editing && !c.fix.is_open {
            ClientView { text: data, ..c }
        } else {
            c
        },
        SttTarget::Ignore => c,
    }
}

pub open spec fn spec_apply_daemon_event(c: ClientView, e: DaemonEventView) -> ClientView {
    match e {
        DaemonEventView::StateChanged(s) => ClientView { state: s, ..c },
        DaemonEventView::PartialTranscript(data) => spec_apply_transcript(c, data),
        DaemonEventView::FinalTranscript(data) => spec_apply_transcript(c, data),
        DaemonEventView::Error(data) => ClientView { status_error: Some(data), ..c },
    }
}

/// The view of a fix progress report: a status, a revision, or an error.
pub enum FixProgressView {
    Status(Seq<char>),
    Revised(Seq<char>),
    Failed(Seq<char>),
}

pub open spec fn progress_view(p: FixProgress) -> FixProgressView {
    match p {
        FixProgress::Status(s) => FixProgressView::Status(s@),
        FixProgress::Done(Ok(t)) => FixProgressView::Revised(t@),
        FixProgress::Done(Err(e)) => FixProgressView::Failed(e@),
    }
}

pub open spec fn spec_apply_fix_progress(c: ClientView, p: FixProgressView) -> ClientView {
    match p {
        FixProgressView::Status(s) => ClientView { fix: FixWindowView { status: Some(s), ..c.fix }, ..c },
        FixProgressView::Revised(t) => ClientView {
            fix: FixWindowView { phase: FixPhase::Review, result: t, status: None, ..c.fix },
            ..c
        },
        FixProgressView::Failed(e) => ClientView {
            fix: FixWindowView {
                phase: FixPhase::Prompting,
                status: Some("LLM Fix failed: "@ + e),
                ..c.fix
            },
            ..c
        },
    }
}

/// A user action of the main window.
#[derive(Debug, Clone, Copy, PartialEq, Eq, Structural)]
pub enum UiAction {
    TogglePause,
    ToggleEdit,
    StopAndPaste,
    CancelAndExit,
    CloseFix,
    SubmitFix,
    ConfirmFix,
    RepromptFix,
}

/// What an action of the main window does: the new model and what the
/// caller is to carry out.
pub open spec fn spec_run_action(
    c: ClientView,
    action: UiAction,
    pid: u32,
    wayland_display: Option<Seq<char>>,
) -> (ClientView, ClientOutputView) {
    match action {
        UiAction::TogglePause => {
            let r = spec_toggle_pause(c);
            (r.0, only_commands(r.1))
        },
        UiAction::ToggleEdit => {
            let r = spec_toggle_edit(c);
            (r.0, only_commands(r.1))
        },
        UiAction::StopAndPaste => (
            c,
            ClientOutputView {
                commands: seq![spec_stop_and_paste_command(c, pid, wayland_display)],
                stop_llama: c.fix.is_open,
                fix_request: None,
                exit: true,
                copy_text: Some(c.text),
            },
        ),
        UiAction::CancelAndExit => (
            c,
            ClientOutputView {
                commands: seq![ClientCommandView::CancelAndExit { pid }],
                stop_llama: c.fix.is_open,
                fix_request: None,
                exit: true,
                copy_text: None,
            },
        ),
        UiAction::CloseFix => spec_close_fix_window(c),
        UiAction::SubmitFix => spec_submit_fix_request(c),
        UiAction::ConfirmFix => spec_confirm_and_apply_fix(c),
        UiAction::RepromptFix => {
            let r = spec_reprompt_fix(c);
            (r.0, only_commands(r.1))
        },
    }
}


/// The action that the main window's keys ask for. While the fix window is
/// open its flow takes the keys (Escape discards, Space pauses or resumes
/// the dictation of the instruction, or asks for a new instruction once a
/// revision is under review, Enter submits or confirms); while editing only Escape (leave editing)
/// is a shortcut; otherwise Space pauses or resumes, Enter stops and
/// pastes, and Escape cancels.
pub open spec fn spec_route_keys(c: ClientView, escape: bool, space: bool, enter: bool) -> Option<
    UiAction,
> {
    if c.fix.is_open {
        if escape {
            Some(UiAction::CloseFix)
        } else if space {
            if c.fix.phase == FixPhase::Review {
                Some(UiAction::RepromptFix)
            } else {
                Some(UiAction::TogglePause)
            }
        } else if enter {
            match c.fix.phase {
                FixPhase::Prompting => Some(UiAction::SubmitFix),
                FixPhase::Review => Some(UiAction::ConfirmFix),
                FixPhase::Processing => None,
            }
        } else {
            None
        }
    } else if c.is_editing {
        if escape {
            Some(UiAction::ToggleEdit)
        } else {
            None
        }
    } else if space {
        Some(UiAction::TogglePause)
    } else if enter {
        Some(UiAction::StopAndPaste)
    } else if escape {
        Some(UiAction::CancelAndExit)
    } else {
        None
    }
}

/// How the status pill looks.
#[derive(Debug, Clone, Copy, PartialEq, Eq, Structural)]
pub enum StatusKind {
    Fixing,
    Editing,
    Recording,
    Paused,
    Standby,
}

impl WhisperClientApp {
    /// A fresh overlay: listening (the daemon starts listening when a client
    /// connects), no text, dictation into the main text.
    pub fn new() -> (res: WhisperClientApp)
        ensures
            res@ == (ClientView {
                state: DaemonState::Listening,
                text: seq![],
                is_editing: false,
                was_recording_before_edit: false,
                fix: FixWindowView {
                    is_open: false,
                    has_positioned: false,
                    phase: FixPhase::Prompting,
                    origin: seq![],
                    prompt: seq![],
                    result: seq![],
                    status: None,
                },
                target: SttTarget::MainText,
                status_error: None,
            }),
    {
        WhisperClientApp {
            state: DaemonState::Listening,
            text: String::new(),
            is_editing: false,
            was_recording_before_edit: false,
            fix_window: FixWindowState::default(),
            stt_target: SttTarget::MainText,
            status_error: None,
        }
    }

    fn pause_if_listening(&mut self, cmds: &mut Vec<ClientCommand>)
        ensures
            final(self)@ == spec_pause_if_listening(old(self)@).0,
            commands_view(final(cmds)@) == commands_view(old(cmds)@) + spec_pause_if_listening(
                old(self)@,
            ).1,
    {
        if self.state == DaemonState::Listening {
            cmds.push(ClientCommand::PauseListening);
            self.state = DaemonState::Paused;
        }
        assert(commands_view(cmds@) =~= commands_view(old(cmds)@) + spec_pause_if_listening(
            old(self)@,
        ).1);
    }

    fn resume_unless_listening(&mut self, cmds: &mut Vec<ClientCommand>)
        ensures
            final(self)@ == spec_resume_unless_listening(old(self)@).0,
            commands_view(final(cmds)@) == commands_view(old(cmds)@) + spec_resume_unless_listening(
                old(self)@,
            ).1,
    {
        if self.state != DaemonState::Listening {
            cmds.push(ClientCommand::ResumeListening);
            self.state = DaemonState::Listening;
        }
        assert(commands_view(cmds@) =~= commands_view(old(cmds)@) + spec_resume_unless_listening(
            old(self)@,
        ).1);
    }

    /// Space: pause a running recording or resume a paused one.
    pub fn toggle_pause(&mut self) -> (res: Vec<ClientCommand>)
        ensures
            (final(self)@, commands_view(res@)) == spec_toggle_pause(old(self)@),
    {
        let mut cmds: Vec<ClientCommand> = Vec::new();
        if self.state == DaemonState::Listening {
            cmds.push(ClientCommand::PauseListening);
            self.state = DaemonState::Paused;
            if self.is_editing {
                self.was_recording_before_edit = false;
            }
        } else {
            cmds.push(ClientCommand::ResumeListening);
            self.state = DaemonState::Listening;
            if self.is_editing {
                self.was_recording_before_edit = true;
            }
            if !self.fix_window.is_open {
                self.stt_target = SttTarget::MainText;
            }
        }
        assert(commands_view(cmds@) =~= spec_toggle_pause(old(self)@).1);
        cmds
    }

    /// Edit / Done.
    pub fn toggle_edit(&mut self) -> (res: Vec<ClientCommand>)
        ensures
            (final(self)@, commands_view(res@)) == spec_toggle_edit(old(self)@),
    {
        let mut cmds: Vec<ClientCommand> = Vec::new();
        if self.is_editing {
            self.is_editing = false;
            if self.was_recording_before_edit {
                cmds.push(ClientCommand::ResumeListening);
                self.state = DaemonState::Listening;
                self.was_recording_before_edit = false;
                self.stt_target = SttTarget::MainText;
            }
        } else {
            if self.state == DaemonState::Listening {
                self.was_recording_before_edit = true;
                cmds.push(ClientCommand::PauseListening);
                self.state = DaemonState::Paused;
            } else {
                self.was_recording_before_edit = false;
            }
            self.is_editing = true;
        }
        assert(commands_view(cmds@) =~= spec_toggle_edit(old(self)@).1);
        cmds
    }

    /// Enter: hand the text to the daemon for pasting, then exit. `pid` is
    /// this process; `wayland_display` the display to paste on.
    pub fn stop_and_paste(&self, pid: u32, wayland_display: Option<String>) -> (res: ClientOutput)
        ensures
            res@ == (ClientOutputView {
                commands: seq![
                    spec_stop_and_paste_command(self@, pid, opt_str_view(wayland_display)),
                ],
                stop_llama: self.fix_window.is_open,
                fix_request: None,
                exit: true,
                copy_text: Some(self@.text),
            }),
    {
        let cmd = ClientCommand::StopAndPaste {
            pid,
            delay_ms: 180,
            text: Some(self.text.clone()),
            wayland_display,
        };
        let commands = vec![cmd];
        let res = ClientOutput {
            commands,
            stop_llama: self.fix_window.is_open,
            fix_request: None,
            exit: true,
            copy_text: Some(self.text.clone()),
        };
        assert(res@.commands =~= seq![cmd@]);
        res
    }

    /// Escape: cancel the dictation and exit.
    pub fn cancel_and_exit(&self, pid: u32) -> (res: ClientOutput)
        ensures
            res@ == (ClientOutputView {
                commands: seq![ClientCommandView::CancelAndExit { pid }],
                stop_llama: self.fix_window.is_open,
                fix_request: None,
                exit: true,
                copy_text: None,
            }),
    {
        let res = ClientOutput {
            commands: vec![ClientCommand::CancelAndExit { pid }],
            stop_llama: self.fix_window.is_open,
            fix_request: None,
            exit: true,
            copy_text: None,
        };
        assert(res@.commands =~= seq![ClientCommandView::CancelAndExit { pid }]);
        res
    }

    /// Clear: empty the text and the daemon's buffer.
    pub fn clear_text(&mut self) -> (res: Vec<ClientCommand>)
        ensures
            final(self)@ == (ClientView { text: seq![], ..old(self)@ }),
            commands_view(res@) == seq![ClientCommandView::ClearBuffer],
    {
        self.text = String::new();
        let res = vec![ClientCommand::ClearBuffer];
        assert(commands_view(res@) =~= seq![ClientCommandView::ClearBuffer]);
        res
    }

    /// Fix: open the side window to dictate an instruction.
    pub fn open_fix_window(&mut self) -> (res: Vec<ClientCommand>)
        ensures
            (final(self)@, commands_view(res@)) == spec_open_fix_window(old(self)@),
    {
        let mut cmds: Vec<ClientCommand> = Vec::new();
        let blank = trim_chars(&chars_of(self.text.as_str())).len() == 0;
        if blank || self.fix_window.is_open {
            return cmds;
        }
        self.fix_window.is_open = true;
        self.fix_window.has_positioned = false;
        self.fix_window.phase = FixPhase::Prompting;
        self.fix_window.origin_text = self.text.clone();
        self.fix_window.prompt_text = String::new();
        self.fix_window.result_text = String::new();
        self.fix_window.status_text = None;
        self.stt_target = SttTarget::FixPrompt;
        cmds.push(ClientCommand::ClearBuffer);
        self.resume_unless_listening(&mut cmds);
        cmds
    }

    /// Submit the dictated instruction to the LLM.
    pub fn submit_fix_request(&mut self) -> (res: ClientOutput)
        ensures
            (final(self)@, res@) == spec_submit_fix_request(old(self)@),
    {
        let mut cmds: Vec<ClientCommand> = Vec::new();
        if !self.fix_window.is_open || self.fix_window.phase != FixPhase::Prompting {
            let res = ClientOutput { commands: cmds, stop_llama: false, fix_request: None, exit: false, copy_text: None };
            assert(res@.commands =~= Seq::<ClientCommandView>::empty());
            return res;
        }
        self.stt_target = SttTarget::Ignore;
        self.pause_if_listening(&mut cmds);
        self.fix_window.phase = FixPhase::Processing;
        self.fix_window.status_text = Some(String::from_str("Checking LLM health..."));
        let request = FixRequest {
            origin_text: self.fix_window.origin_text.clone(),
            instruction: self.fix_window.prompt_text.clone(),
        };
        ClientOutput { commands: cmds, stop_llama: false, fix_request: Some(request), exit: false, copy_text: None }
    }

    /// Confirm: replace the main text with the revision.
    pub fn confirm_and_apply_fix(&mut self) -> (res: ClientOutput)
        ensures
            (final(self)@, res@) == spec_confirm_and_apply_fix(old(self)@),
    {
        let mut cmds: Vec<ClientCommand> = Vec::new();
        if self.fix_window.is_open && self.fix_window.phase == FixPhase::Review {
            self.stt_target = SttTarget::Ignore;
            self.text = self.fix_window.result_text.clone();
            self.fix_window.is_open = false;
            self.pause_if_listening(&mut cmds);
            ClientOutput { commands: cmds, stop_llama: true, fix_request: None, exit: false, copy_text: None }
        } else {
            let res = ClientOutput { commands: cmds, stop_llama: false, fix_request: None, exit: false, copy_text: None };
            assert(res@.commands =~= Seq::<ClientCommandView>::empty());
            res
        }
    }

    /// Close / Discard: put the origin text back and close the window.
    pub fn close_fix_window(&mut self) -> (res: ClientOutput)
        ensures
            (final(self)@, res@) == spec_close_fix_window(old(self)@),
    {
        let mut cmds: Vec<ClientCommand> = Vec::new();
        self.stt_target = SttTarget::Ignore;
        self.text = self.fix_window.origin_text.clone();
        self.fix_window.is_open = false;
        self.pause_if_listening(&mut cmds);
        ClientOutput { commands: cmds, stop_llama: true, fix_request: None, exit: false, copy_text: None }
    }

    /// Re-prompt: dictate a new instruction.
    pub fn reprompt_fix(&mut self) -> (res: Vec<ClientCommand>)
        ensures
            (final(self)@, commands_view(res@)) == spec_reprompt_fix(old(self)@),
    {
        let mut cmds: Vec<ClientCommand> = Vec::new();
        self.fix_window.phase = FixPhase::Prompting;
        self.fix_window.result_text = String::new();
        self.stt_target = SttTarget::FixPrompt;
        cmds.push(ClientCommand::ClearBuffer);
        self.resume_unless_listening(&mut cmds);
        cmds
    }

    fn apply_transcript(&mut self, data: String)
        ensures
            final(self)@ == spec_apply_transcript(old(self)@, data@),
    {
        match self.stt_target {
            SttTarget::FixPrompt => {
                if self.fix_window.is_open && self.fix_window.phase == FixPhase::Prompting {
                    self.fix_window.prompt_text = data;
                }
            },
            SttTarget::MainText => {
                if !self.is_editing && !self.fix_window.is_open {
                    self.text = data;
                }
            },
            SttTarget::Ignore => {},
        }
    }

    /// Takes in an event from the daemon.
    pub fn apply_daemon_event(&mut self, event: DaemonEvent)
        ensures
            final(self)@ == spec_apply_daemon_event(old(self)@, event@),
    {
        match event {
            DaemonEvent::StateChanged { data } => {
                self.state = data;
            },
            DaemonEvent::PartialTranscript { data } => {
                self.apply_transcript(data);
            },
            DaemonEvent::FinalTranscript { data } => {
                self.apply_transcript(data);
            },
            DaemonEvent::Error { data } => {
                self.status_error = Some(data);
            },
        }
    }

    /// Takes in a progress report of the fix request.
    pub fn apply_fix_progress(&mut self, progress: FixProgress)
        ensures
            final(self)@ == spec_apply_fix_progress(old(self)@, progress_view(progress)),
    {
        match progress {
            FixProgress::Status(s) => {
                self.fix_window.status_text = Some(s);
            },
            FixProgress::Done(Ok(t)) => {
                self.fix_window.phase = FixPhase::Review;
                self.fix_window.result_text = t;
                self.fix_window.status_text = None;
            },
            FixProgress::Done(Err(e)) => {
                let mut m = String::from_str("LLM Fix failed: ");
                m.append(e.as_str());
                self.fix_window.phase = FixPhase::Prompting;
                self.fix_window.status_text = Some(m);
            },
        }
    }

    /// Carries out an action of the fix window.
    pub fn dispatch_fix_action(&mut self, action: FixAction) -> (res: ClientOutput)
        ensures
            (final(self)@, res@) == match action {
                FixAction::TogglePause => {
                    let r = spec_toggle_pause(old(self)@);
                    (r.0, only_commands(r.1))
                },
                FixAction::Submit => spec_submit_fix_request(old(self)@),
                FixAction::Confirm => spec_confirm_and_apply_fix(old(self)@),
                FixAction::Close => spec_close_fix_window(old(self)@),
                FixAction::Reprompt => {
                    let r = spec_reprompt_fix(old(self)@);
                    (r.0, only_commands(r.1))
                },
            },
    {
        match action {
            FixAction::TogglePause => {
                let commands = self.toggle_pause();
                ClientOutput { commands, stop_llama: false, fix_request: None, exit: false, copy_text: None }
            },
            FixAction::Submit => self.submit_fix_request(),
            FixAction::Confirm => self.confirm_and_apply_fix(),
            FixAction::Close => self.close_fix_window(),
            FixAction::Reprompt => {
                let commands = self.reprompt_fix();
                ClientOutput { commands, stop_llama: false, fix_request: None, exit: false, copy_text: None }
            },
        }
    }

    /// Carries out an action of the main window. `pid` is this process;
    /// `wayland_display` the display to paste on.
    pub fn run_action(&mut self, action: UiAction, pid: u32, wayland_display: Option<String>) -> (res:
        ClientOutput)
        ensures
            (final(self)@, res@) == spec_run_action(
                old(self)@,
                action,
                pid,
                opt_str_view(wayland_display),
            ),
    {
        match action {
            UiAction::TogglePause => {
                let commands = self.toggle_pause();
                ClientOutput { commands, stop_llama: false, fix_request: None, exit: false, copy_text: None }
            },
            UiAction::ToggleEdit => {
                let commands = self.toggle_edit();
                ClientOutput { commands, stop_llama: false, fix_request: None, exit: false, copy_text: None }
            },
            UiAction::StopAndPaste => self.stop_and_paste(pid, wayland_display),
            UiAction::CancelAndExit => self.cancel_and_exit(pid),
            UiAction::CloseFix => self.close_fix_window(),
            UiAction::SubmitFix => self.submit_fix_request(),
            UiAction::ConfirmFix => self.confirm_and_apply_fix(),
            UiAction::RepromptFix => {
                let commands = self.reprompt_fix();
                ClientOutput { commands, stop_llama: false, fix_request: None, exit: false, copy_text: None }
            },
        }
    }

    /// The main window's keyboard shortcuts.
    pub fn route_keys(&self, escape: bool, space: bool, enter: bool) -> (res: Option<UiAction>)
        ensures
            res == spec_route_keys(self@, escape, space, enter),
    {
        if self.fix_window.is_open {
            if escape {
                Some(UiAction::CloseFix)
            } else if space {
                if self.fix_window.phase == FixPhase::Review {
                    Some(UiAction::RepromptFix)
                } else {
                    Some(UiAction::TogglePause)
                }
            } else if enter {
                match self.fix_window.phase {
                    FixPhase::Prompting => Some(UiAction::SubmitFix),
                    FixPhase::Review => Some(UiAction::ConfirmFix),
                    FixPhase::Processing => None,
                }
            } else {
                None
            }
        } else if self.is_editing {
            if escape {
                Some(UiAction::ToggleEdit)
            } else {
                None
            }
        } else if space {
            Some(UiAction::TogglePause)
        } else if enter {
            Some(UiAction::StopAndPaste)
        } else if escape {
            Some(UiAction::CancelAndExit)
        } else {
            None
        }
    }

    /// The status pill: the fix stage while the fix window is open, else
    /// editing, else the recording state.
    pub fn status_pill(&self) -> (res: (StatusKind, &'static str))
        ensures
            res.0 == if self.fix_window.is_open {
                StatusKind::Fixing
            } else if self.is_editing {
                StatusKind::Editing
            } else {
                match self.state {
                    DaemonState::Listening => StatusKind::Recording,
                    DaemonState::Paused => StatusKind::Paused,
                    DaemonState::Idle => StatusKind::Standby,
                }
            },
            res.1@ == if self.fix_window.is_open {
                match self.fix_window.phase {
                    FixPhase::Prompting => "Fixing: Dictating prompt"@,
                    FixPhase::Processing => "Fixing: Processing LLM..."@,
                    FixPhase::Review => "Fixing: Review result"@,
                }
            } else if self.is_editing {
                "Editing"@
            } else {
                match self.state {
                    DaemonState::Listening => "Recording"@,
                    DaemonState::Paused => "Paused"@,
                    DaemonState::Idle => "Standby"@,
                }
            },
    {
        if self.fix_window.is_open {
            match self.fix_window.phase {
                FixPhase::Prompting => (StatusKind::Fixing, "Fixing: Dictating prompt"),
                FixPhase::Processing => (StatusKind::Fixing, "Fixing: Processing LLM..."),
                FixPhase::Review => (StatusKind::Fixing, "Fixing: Review result"),
            }
        } else if self.is_editing {
            (StatusKind::Editing, "Editing")
        } else {
            match self.state {
                DaemonState::Listening => (StatusKind::Recording, "Recording"),
                DaemonState::Paused => (StatusKind::Paused, "Paused"),
                DaemonState::Idle => (StatusKind::Standby, "Standby"),
            }
        }
    }

    /// The label of the pause button.
    pub fn pause_label(&self) -> (res: &'static str)
        ensures
            res@ == if self.state == DaemonState::Listening {
                "Pause"@
            } else {
                "Resume"@
            },
    {
        if self.state == DaemonState::Listening {
            "Pause"
        } else {
            "Resume"
        }
    }

    /// The label of the edit button.
    pub fn edit_label(&self) -> (res: &'static str)
        ensures
            res@ == if self.is_editing {
                "Done"@
            } else {
                "Edit"@
            },
    {
        if self.is_editing {
            "Done"
        } else {
            "Edit"
        }
    }
}

// ---------------------------------------------------------------------------
// Laws of the overlay
// ---------------------------------------------------------------------------
/// Pausing and resuming are inverse: toggling twice restores the recording
/// state and the text, with a pause and a resume sent in between.
pub proof fn law_toggle_pause_twice(c: ClientView)
    requires
        c.state != DaemonState::Idle,
    ensures
        spec_toggle_pause(spec_toggle_pause(c).0).0.state == c.state,
        spec_toggle_pause(spec_toggle_pause(c).0).0.text == c.text,
        spec_toggle_pause(c).1 + spec_toggle_pause(spec_toggle_pause(c).0).1 == if c.state
            == DaemonState::Listening {
            seq![ClientCommandView::PauseListening, ClientCommandView::ResumeListening]
        } else {
            seq![ClientCommandView::ResumeListening, ClientCommandView::PauseListening]
        },
{
    assert(spec_toggle_pause(c).1 + spec_toggle_pause(spec_toggle_pause(c).0).1 =~= if c.state
        == DaemonState::Listening {
        seq![ClientCommandView::PauseListening, ClientCommandView::ResumeListening]
    } else {
        seq![ClientCommandView::ResumeListening, ClientCommandView::PauseListening]
    });
}

/// Editing never records: entering edit mode pauses a running recording,
/// and leaving it ("Done") resumes the recording exactly when editing
/// paused it, so edit-then-done restores the recording state.
pub proof fn law_edit_roundtrip(c: ClientView)
    requires
        !c.is_editing,
    ensures
        spec_toggle_edit(c).0.is_editing,
        spec_toggle_edit(c).0.state != DaemonState::Listening,
        !spec_toggle_edit(spec_toggle_edit(c).0).0.is_editing,
        spec_toggle_edit(spec_toggle_edit(c).0).0.state == c.state,
        spec_toggle_edit(spec_toggle_edit(c).0).0.text == c.text,
{
}

/// While the text is being edited by hand, dictation never overwrites it.
pub proof fn law_editing_keeps_text(c: ClientView, e: DaemonEventView)
    requires
        c.is_editing,
    ensures
        spec_apply_daemon_event(c, e).text == c.text,
        spec_apply_daemon_event(c, e).is_editing,
{
}

/// While the fix window is open, neither daemon events nor fix progress
/// change the main text, the text the window started from, or whether the
/// window is open.
pub proof fn law_fix_window_keeps_text(c: ClientView, e: DaemonEventView, p: FixProgressView)
    requires
        c.fix.is_open,
    ensures
        spec_apply_daemon_event(c, e).text == c.text,
        spec_apply_daemon_event(c, e).fix.origin == c.fix.origin,
        spec_apply_daemon_event(c, e).fix.is_open,
        spec_apply_fix_progress(c, p).text == c.text,
        spec_apply_fix_progress(c, p).fix.origin == c.fix.origin,
        spec_apply_fix_progress(c, p).fix.is_open,
{
}

/// Opening the fix window keeps the text as its origin, and discarding the
/// fix puts that origin back: open-then-close leaves the text unchanged.
pub proof fn law_discard_fix_restores_text(c: ClientView)
    requires
        !c.fix.is_open,
    ensures
        spec_open_fix_window(c).0.text == c.text,
        spec_open_fix_window(c).0.fix.is_open ==> spec_open_fix_window(c).0.fix.origin == c.text,
        spec_close_fix_window(spec_open_fix_window(c).0).0.text == (if spec_open_fix_window(
            c,
        ).0.fix.is_open {
            c.text
        } else {
            c.fix.origin
        }),
        !spec_close_fix_window(spec_open_fix_window(c).0).0.fix.is_open,
        spec_close_fix_window(spec_open_fix_window(c).0).1.stop_llama,
{
}

/// The fix window opens only for a text that is not blank, and then listens
/// for the instruction.
pub proof fn law_open_fix_needs_text(c: ClientView)
    ensures
        trim(c.text).len() == 0 ==> spec_open_fix_window(c).0 == c && spec_open_fix_window(c).1
            == Seq::<ClientCommandView>::empty(),
        trim(c.text).len() != 0 && !c.fix.is_open ==> {
            &&& spec_open_fix_window(c).0.fix.is_open
            &&& spec_open_fix_window(c).0.state == DaemonState::Listening
            &&& spec_open_fix_window(c).0.target == SttTarget::FixPrompt
            &&& spec_open_fix_window(c).1[0] == ClientCommandView::ClearBuffer
        },
{
}

/// Submitting asks for a revision of the origin text with the dictated
/// instruction; once the revision arrives, confirming makes it the text.
pub proof fn law_confirm_applies_revision(c: ClientView, revised: Seq<char>)
    requires
        c.fix.is_open,
        c.fix.phase == FixPhase::Prompting,
    ensures
        spec_submit_fix_request(c).1.fix_request == Some((c.fix.origin, c.fix.prompt)),
        spec_submit_fix_request(c).0.fix.phase == FixPhase::Processing,
        spec_submit_fix_request(c).0.state != DaemonState::Listening,
        ({
            let waiting = spec_submit_fix_request(c).0;
            let reviewed = spec_apply_fix_progress(waiting, FixProgressView::Revised(revised));
            let confirmed = spec_confirm_and_apply_fix(reviewed).0;
            &&& confirmed.text == revised
            &&& !confirmed.fix.is_open
        }),
{
}

/// A step taken while the fix window is open, short of confirming a revision:
/// a daemon event (such as a dictated instruction), a progress report of the
/// revision request, a submit, a re-prompt or a pause toggle.
pub enum FixStep {
    Daemon(DaemonEventView),
    Progress(FixProgressView),
    Submit,
    Reprompt,
    TogglePause,
}

/// The model after one step.
pub open spec fn fix_step(c: ClientView, step: FixStep) -> ClientView {
    match step {
        FixStep::Daemon(e) => spec_apply_daemon_event(c, e),
        FixStep::Progress(p) => spec_apply_fix_progress(c, p),
        FixStep::Submit => spec_submit_fix_request(c).0,
        FixStep::Reprompt => spec_reprompt_fix(c).0,
        FixStep::TogglePause => spec_toggle_pause(c).0,
    }
}

/// The model after the steps, in order.
pub open spec fn run_fix_steps(c: ClientView, steps: Seq<FixStep>) -> ClientView
    decreases steps.len(),
{
    if steps.len() == 0 {
        c
    } else {
        fix_step(run_fix_steps(c, steps.drop_last()), steps.last())
    }
}

proof fn lemma_fix_steps_keep_text(c: ClientView, steps: Seq<FixStep>)
    requires
        c.fix.is_open,
    ensures
        run_fix_steps(c, steps).fix.is_open,
        run_fix_steps(c, steps).text == c.text,
        run_fix_steps(c, steps).fix.origin == c.fix.origin,
    decreases steps.len(),
{
    if steps.len() > 0 {
        lemma_fix_steps_keep_text(c, steps.drop_last());
    }
}

/// Discarding a fix restores the text: once the fix window has opened on a
/// text, whatever instructions are dictated, submitted, revised, re-prompted
/// or paused in any order, closing the window without confirming puts that
/// text back, closes the window, sends dictation nowhere, leaves recording
/// paused (pausing it exactly when it was running) and stops the LLM service.
pub proof fn law_discard_fix_after_any_steps(c: ClientView, steps: Seq<FixStep>)
    requires
        !c.fix.is_open,
        trim(c.text).len() != 0,
    ensures
        ({
            let opened = spec_open_fix_window(c).0;
            let before = run_fix_steps(opened, steps);
            let closed = spec_close_fix_window(before);
            &&& opened.fix.is_open
            &&& closed.0.text == c.text
            &&& !closed.0.fix.is_open
            &&& closed.0.target == SttTarget::Ignore
            &&& closed.0.state != DaemonState::Listening
            &&& closed.1.commands == if before.state == DaemonState::Listening {
                seq![ClientCommandView::PauseListening]
            } else {
                seq![]
            }
            &&& closed.1.stop_llama
        }),
{
    let opened = spec_open_fix_window(c).0;
    lemma_fix_steps_keep_text(opened, steps);
}

/// While dictation goes to the main text (not editing, no fix window), each
/// transcript the daemon sends replaces the text with exactly its data, since
/// the daemon always sends the whole text: a later transcript leaves only its
/// own data, and nothing else about the overlay changes.
pub proof fn law_transcript_replaces_main_text(
    c: ClientView,
    d1: Seq<char>,
    d2: Seq<char>,
    final1: bool,
    final2: bool,
)
    requires
        c.target == SttTarget::MainText,
        !c.is_editing,
        !c.fix.is_open,
    ensures
        ({
            let e1 = if final1 {
                DaemonEventView::FinalTranscript(d1)
            } else {
                DaemonEventView::PartialTranscript(d1)
            };
            let e2 = if final2 {
                DaemonEventView::FinalTranscript(d2)
            } else {
                DaemonEventView::PartialTranscript(d2)
            };
            let c1 = spec_apply_daemon_event(c, e1);
            let c2 = spec_apply_daemon_event(c1, e2);
            &&& c1 == (ClientView { text: d1, ..c })
            &&& c2 == (ClientView { text: d2, ..c })
        }),
{
}

/// The keyboard shortcuts. With the fix window open its flow takes the keys:
/// Escape discards; otherwise Space pauses or resumes the dictation of the
/// instruction (asks for a new instruction in review), and Enter submits the
/// instruction while it is dictated and confirms the revision in review; no
/// key there pastes or exits. While editing only Escape acts, leaving edit
/// mode. Otherwise Space pauses or resumes, Enter pastes and exits, Escape
/// cancels and exits. No key pressed, no action.
pub proof fn law_route_keys(c: ClientView, escape: bool, space: bool, enter: bool)
    ensures
        !escape && !space && !enter ==> spec_route_keys(c, escape, space, enter) is None,
        c.fix.is_open && escape ==> spec_route_keys(c, escape, space, enter) == Some(
            UiAction::CloseFix,
        ),
        c.fix.is_open && !escape && space && c.fix.phase != FixPhase::Review ==> spec_route_keys(
            c,
            escape,
            space,
            enter,
        ) == Some(UiAction::TogglePause),
        c.fix.is_open && !escape && space && c.fix.phase == FixPhase::Review ==> spec_route_keys(
            c,
            escape,
            space,
            enter,
        ) == Some(UiAction::RepromptFix),
        c.fix.is_open && !escape && !space && enter && c.fix.phase == FixPhase::Prompting
            ==> spec_route_keys(c, escape, space, enter) == Some(UiAction::SubmitFix),
        c.fix.is_open && !escape && !space && enter && c.fix.phase == FixPhase::Review
            ==> spec_route_keys(c, escape, space, enter) == Some(UiAction::ConfirmFix),
        c.fix.is_open && !escape && !space && c.fix.phase == FixPhase::Processing
            ==> spec_route_keys(c, escape, space, enter) is None,
        c.fix.is_open ==> spec_route_keys(c, escape, space, enter) != Some(UiAction::StopAndPaste)
            && spec_route_keys(c, escape, space, enter) != Some(UiAction::CancelAndExit)
            && spec_route_keys(c, escape, space, enter) != Some(UiAction::ToggleEdit),
        !c.fix.is_open && c.is_editing ==> spec_route_keys(c, escape, space, enter) == if escape {
            Some(UiAction::ToggleEdit)
        } else {
            None
        },
        !c.fix.is_open && !c.is_editing && space ==> spec_route_keys(c, escape, space, enter)
            == Some(UiAction::TogglePause),
        !c.fix.is_open && !c.is_editing && !space && enter ==> spec_route_keys(
            c,
            escape,
            space,
            enter,
        ) == Some(UiAction::StopAndPaste),
        !c.fix.is_open && !c.is_editing && !space && !enter && escape ==> spec_route_keys(
            c,
            escape,
            space,
            enter,
        ) == Some(UiAction::CancelAndExit),
{
}

/// The fix window's own keys: Escape closes; a close request closes unless a
/// key asks for something else; while the instruction is dictated Space
/// pauses or resumes and Enter submits it; in review Space asks for a new
/// instruction and Enter confirms; while processing only closing acts.
pub proof fn law_fix_window_keys(
    phase: FixPhase,
    close_requested: bool,
    escape: bool,
    space: bool,
    enter: bool,
)
    ensures
        escape ==> spec_fix_key_action(phase, close_requested, escape, space, enter) == Some(
            FixAction::Close,
        ),
        !escape && phase == FixPhase::Prompting && space ==> spec_fix_key_action(
            phase,
            close_requested,
            escape,
            space,
            enter,
        ) == Some(FixAction::TogglePause),
        !escape && phase == FixPhase::Prompting && !space && enter ==> spec_fix_key_action(
            phase,
            close_requested,
            escape,
            space,
            enter,
        ) == Some(FixAction::Submit),
        !escape && phase == FixPhase::Review && space ==> spec_fix_key_action(
            phase,
            close_requested,
            escape,
            space,
            enter,
        ) == Some(FixAction::Reprompt),
        !escape && phase == FixPhase::Review && !space && enter ==> spec_fix_key_action(
            phase,
            close_requested,
            escape,
            space,
            enter,
        ) == Some(FixAction::Confirm),
        !escape && !space && !enter ==> spec_fix_key_action(
            phase,
            close_requested,
            escape,
            space,
            enter,
        ) == if close_requested {
            Some(FixAction::Close)
        } else {
            None
        },
        phase == FixPhase::Processing ==> spec_fix_key_action(
            phase,
            close_requested,
            escape,
            space,
            enter,
        ) == if close_requested || escape {
            Some(FixAction::Close)
        } else {
            None
        },
{
}

/// Pause/resume: a running recording is paused with `PauseListening`, any
/// other is resumed with `ResumeListening`; the text, the fix window and
/// edit mode stay as they are, and resuming outside the fix window sends the
/// dictation to the main text.
pub proof fn law_toggle_pause_step(c: ClientView)
    ensures
        ({
            let (next, cmds) = spec_toggle_pause(c);
            &&& c.state == DaemonState::Listening ==> next.state == DaemonState::Paused && cmds
                == seq![ClientCommandView::PauseListening]
            &&& c.state != DaemonState::Listening ==> next.state == DaemonState::Listening && cmds
                == seq![ClientCommandView::ResumeListening]
            &&& next.text == c.text
            &&& next.fix == c.fix
            &&& next.is_editing == c.is_editing
            &&& next.status_error == c.status_error
            &&& c.state != DaemonState::Listening && !c.fix.is_open ==> next.target
                == SttTarget::MainText
            &&& c.fix.is_open ==> next.target == c.target
        }),
{
}

/// Edit mode: entering it pauses a running recording (and remembers that it
/// did); leaving it resumes the recording exactly when entering paused it,
/// sending dictation back to the main text. The text is never changed.
pub proof fn law_toggle_edit_step(c: ClientView)
    ensures
        ({
            let (next, cmds) = spec_toggle_edit(c);
            &&& next.is_editing == !c.is_editing
            &&& next.text == c.text
            &&& next.fix == c.fix
            &&& !c.is_editing ==> {
                &&& next.state != DaemonState::Listening
                &&& next.was_recording_before_edit == (c.state == DaemonState::Listening)
                &&& cmds == if c.state == DaemonState::Listening {
                    seq![ClientCommandView::PauseListening]
                } else {
                    seq![]
                }
                &&& c.state != DaemonState::Listening ==> next.state == c.state
            }
            &&& c.is_editing ==> {
                &&& !next.was_recording_before_edit
                &&& cmds == if c.was_recording_before_edit {
                    seq![ClientCommandView::ResumeListening]
                } else {
                    seq![]
                }
                &&& c.was_recording_before_edit ==> next.state == DaemonState::Listening
                    && next.target == SttTarget::MainText
                &&& !c.was_recording_before_edit ==> next.state == c.state && next.target
                    == c.target
            }
        }),
{
}

/// What each daemon event does to the overlay: a state change sets the state
/// and an error sets the error line, nothing else; a transcript goes where
/// dictation is aimed: into the instruction while the fix window takes one
/// (the main text stays), into the main text as shown above, or nowhere.
pub proof fn law_daemon_event_effects(c: ClientView, e: DaemonEventView)
    ensures
        ({
            let next = spec_apply_daemon_event(c, e);
            &&& e matches DaemonEventView::StateChanged(s) ==> next == (ClientView { state: s, ..c })
            &&& e matches DaemonEventView::Error(m) ==> next == (ClientView {
                status_error: Some(m),
                ..c
            })
            &&& (e matches DaemonEventView::PartialTranscript(d) || e matches DaemonEventView::FinalTranscript(d)) ==> {
                let d = match e {
                    DaemonEventView::PartialTranscript(d) => d,
                    DaemonEventView::FinalTranscript(d) => d,
                    _ => seq![],
                };
                &&& c.target == SttTarget::FixPrompt && c.fix.is_open && c.fix.phase
                    == FixPhase::Prompting ==> next == (ClientView {
                    fix: FixWindowView { prompt: d, ..c.fix },
                    ..c
                })
                &&& c.target == SttTarget::Ignore ==> next == c
                &&& c.target == SttTarget::MainText && (c.is_editing || c.fix.is_open) ==> next
                    == c
            }
        }),
{
}

} // verus!
