//! The dictation daemon's decisions: what it does on each client command, on
//! each tick of the live-preview timer and on each transcription result.
//! Running the recorder and the recognizer, deleting files and pasting are
//! the caller's work; the core says which of them to do and in what order.
use vstd::prelude::*;
use vstd::string::StringExecFns;
use crate::protocol::{ClientCommand, ClientCommandView, DaemonEvent, DaemonEventView, DaemonState};
use crate::client::{
    spec_close_fix_window, spec_confirm_and_apply_fix, spec_open_fix_window, spec_reprompt_fix,
    spec_stop_and_paste_command, spec_submit_fix_request, spec_toggle_edit, spec_toggle_pause,
    ClientView,
};

verus! {

/// A session recording smaller than this many bytes (about one second of
/// 16 kHz 16-bit mono audio) is not worth a live preview.
pub const LIVE_PREVIEW_MIN_BYTES: u64 = 32000;

/// The daemon's own state.
pub struct DaemonCore {
    pub state: DaemonState,
    /// Text finalized in earlier recording segments of this session.
    pub accumulated_text: String,
    /// The last live preview text that was sent.
    pub last_live_text: String,
    /// Bumped whenever the session's text is thrown away, so that live
    /// results computed for an older session are recognized and dropped.
    pub generation: u64,
    /// A live transcription is running.
    pub live_in_flight: bool,
}

pub struct DaemonCoreView {
    pub state: DaemonState,
    pub accumulated: Seq<char>,
    pub last_live: Seq<char>,
    pub generation: u64,
    pub live_in_flight: bool,
}

impl View for DaemonCore {
    type V = DaemonCoreView;

    open spec fn view(&self) -> DaemonCoreView {
        DaemonCoreView {
            state: self.state,
            accumulated: self.accumulated_text@,
            last_live: self.last_live_text@,
            generation: self.generation,
            live_in_flight: self.live_in_flight,
        }
    }
}

/// The text of a finished live transcription and the session it belongs to.
pub struct LiveResult {
    pub text: String,
    pub generation: u64,
}

/// Work for the caller.
pub enum DaemonAction {
    /// Broadcast an event to every connected client.
    Emit(DaemonEvent),
    /// Start capturing audio (a no-op when already capturing).
    StartRecorder,
    /// Stop capturing audio.
    StopRecorder,
    /// Delete the session recording and its copy.
    RemoveSessionFiles,
    /// Terminate the client process with this id.
    KillClient { pid: u32 },
    /// Transcribe a copy of the session recording in the background and
    /// report the result with this generation.
    StartLiveTranscription { generation: u64 },
    /// Find out whether the session recording exists (now that recording has
    /// stopped), and report it with `on_session_checked`.
    CheckSession,
    /// Transcribe the session recording, delete it, and report the text with
    /// `finish_pause`.
    TranscribeSession,
    /// Copy the text to the clipboard (when there is one), wait, then send
    /// the paste keystroke.
    Paste { text: Option<String>, delay_ms: u64, wayland_display: Option<String> },
}

pub enum DaemonActionView {
    Emit(DaemonEventView),
    StartRecorder,
    StopRecorder,
    RemoveSessionFiles,
    KillClient(u32),
    StartLiveTranscription(u64),
    CheckSession,
    TranscribeSession,
    Paste { text: Option<Seq<char>>, delay_ms: u64, wayland_display: Option<Seq<char>> },
}

impl View for DaemonAction {
    type V = DaemonActionView;

    open spec fn view(&self) -> DaemonActionView {
        match self {
            DaemonAction::Emit(e) => DaemonActionView::Emit(e@),
            DaemonAction::StartRecorder => DaemonActionView::StartRecorder,
            DaemonAction::StopRecorder => DaemonActionView::StopRecorder,
            DaemonAction::RemoveSessionFiles => DaemonActionView::RemoveSessionFiles,
            DaemonAction::KillClient { pid } => DaemonActionView::KillClient(*pid),
            DaemonAction::StartLiveTranscription { generation } =>
                DaemonActionView::StartLiveTranscription(*generation),
            DaemonAction::CheckSession => DaemonActionView::CheckSession,
            DaemonAction::TranscribeSession => DaemonActionView::TranscribeSession,
            DaemonAction::Paste { text, delay_ms, wayland_display } => DaemonActionView::Paste {
                text: crate::protocol::opt_str_view(*text),
                delay_ms: *delay_ms,
                wayland_display: crate::protocol::opt_str_view(*wayland_display),
            },
        }
    }
}

pub open spec fn actions_view(v: Seq<DaemonAction>) -> Seq<DaemonActionView> {
    v.map_values(|a: DaemonAction| a@)
}

/// Two texts joined by a newline, or whichever is non-empty.
pub open spec fn join_nonempty(a: Seq<char>, b: Seq<char>) -> Seq<char> {
    if a.len() == 0 {
        b
    } else if b.len() == 0 {
        a
    } else {
        a + seq!['\n'] + b
    }
}

/// The core as it is when the daemon starts.
pub open spec fn spec_initial_core() -> DaemonCoreView {
    DaemonCoreView {
        state: DaemonState::Idle,
        accumulated: seq![],
        last_live: seq![],
        generation: 0,
        live_in_flight: false,
    }
}

pub open spec fn spec_on_tick(c: DaemonCoreView, session_bytes: Option<u64>) -> (
    DaemonCoreView,
    Seq<DaemonActionView>,
) {
    if c.state == DaemonState::Listening && !c.live_in_flight && (session_bytes matches Some(n)
        && n > LIVE_PREVIEW_MIN_BYTES) {
        (
            DaemonCoreView { live_in_flight: true, ..c },
            seq![DaemonActionView::StartLiveTranscription(c.generation)],
        )
    } else {
        (c, seq![])
    }
}

pub open spec fn spec_on_live_finished(c: DaemonCoreView, result: Option<(Seq<char>, u64)>) -> (
    DaemonCoreView,
    Seq<DaemonActionView>,
) {
    let c1 = DaemonCoreView { live_in_flight: false, ..c };
    match result {
        Some((text, generation)) => if c.state == DaemonState::Listening && generation
            == c.generation && text != c.last_live {
            (
                DaemonCoreView { last_live: text, ..c1 },
                seq![
                    DaemonActionView::Emit(
                        DaemonEventView::PartialTranscript(join_nonempty(c.accumulated, text)),
                    ),
                ],
            )
        } else {
            (c1, seq![])
        },
        None => (c1, seq![]),
    }
}

/// The session is over: idle, no text, and a new generation.
pub open spec fn spec_reset(c: DaemonCoreView) -> DaemonCoreView {
    DaemonCoreView {
        state: DaemonState::Idle,
        accumulated: seq![],
        last_live: seq![],
        generation: (c.generation + 1) as u64,
        ..c
    }
}

pub open spec fn spec_kill(pid: u32) -> Seq<DaemonActionView> {
    if pid > 0 {
        seq![DaemonActionView::KillClient(pid)]
    } else {
        seq![]
    }
}

pub open spec fn spec_on_command(c: DaemonCoreView, cmd: ClientCommandView) -> (
    DaemonCoreView,
    Seq<DaemonActionView>,
) {
    let listening = DaemonActionView::Emit(DaemonEventView::StateChanged(DaemonState::Listening));
    let idle = DaemonActionView::Emit(DaemonEventView::StateChanged(DaemonState::Idle));
    match cmd {
        ClientCommandView::StartListening => (
            DaemonCoreView {
                state: DaemonState::Listening,
                generation: (c.generation + 1) as u64,
                accumulated: seq![],
                last_live: seq![],
                ..c
            },
            seq![DaemonActionView::StartRecorder, listening],
        ),
        ClientCommandView::ResumeListening => (
            DaemonCoreView { state: DaemonState::Listening, last_live: seq![], ..c },
            seq![DaemonActionView::StartRecorder, listening],
        ),
        ClientCommandView::PauseListening => (
            DaemonCoreView { state: DaemonState::Paused, ..c },
            seq![DaemonActionView::StopRecorder, DaemonActionView::CheckSession],
        ),
        ClientCommandView::ClearBuffer => (
            DaemonCoreView {
                accumulated: seq![],
                last_live: seq![],
                generation: (c.generation + 1) as u64,
                ..c
            },
            seq![
                DaemonActionView::RemoveSessionFiles,
                DaemonActionView::Emit(DaemonEventView::PartialTranscript(seq![])),
                DaemonActionView::Emit(DaemonEventView::FinalTranscript(seq![])),
            ],
        ),
        ClientCommandView::Stop => (
            spec_reset(c),
            seq![DaemonActionView::StopRecorder, DaemonActionView::RemoveSessionFiles, idle],
        ),
        ClientCommandView::StopAndPaste { pid, delay_ms, text, wayland_display } => (
            spec_reset(c),
            spec_kill(pid) + seq![
                DaemonActionView::StopRecorder,
                DaemonActionView::RemoveSessionFiles,
                idle,
                DaemonActionView::Paste { text, delay_ms, wayland_display },
            ],
        ),
        ClientCommandView::CancelAndExit { pid } => (
            spec_reset(c),
            spec_kill(pid) + seq![
                DaemonActionView::StopRecorder,
                DaemonActionView::RemoveSessionFiles,
                idle,
            ],
        ),
    }
}

/// After a pause stopped recording: transcribe the session recording if it
/// exists, otherwise announce the pause at once.
pub open spec fn spec_on_session_checked(session_exists: bool) -> Seq<DaemonActionView> {
    if session_exists {
        seq![DaemonActionView::TranscribeSession]
    } else {
        seq![DaemonActionView::Emit(DaemonEventView::StateChanged(DaemonState::Paused))]
    }
}

pub open spec fn spec_finish_pause(c: DaemonCoreView, final_text: Seq<char>) -> (
    DaemonCoreView,
    Seq<DaemonActionView>,
) {
    let acc = join_nonempty(c.accumulated, final_text);
    (
        DaemonCoreView { accumulated: acc, last_live: seq![], ..c },
        seq![
            DaemonActionView::Emit(DaemonEventView::FinalTranscript(acc)),
            DaemonActionView::Emit(DaemonEventView::StateChanged(DaemonState::Paused)),
        ],
    )
}

/// Joins two texts with a newline, or returns whichever is non-empty.
pub fn join_texts(a: &String, b: &String) -> (res: String)
    ensures
        res@ == join_nonempty(a@, b@),
{
    if a.as_str().unicode_len() == 0 {
        b.clone()
    } else if b.as_str().unicode_len() == 0 {
        a.clone()
    } else {
        let mut s = a.clone();
        s.append("\n");
        s.append(b.as_str());
        proof {
            reveal_strlit("\n");
        }
        s
    }
}

impl DaemonCore {
    /// An idle daemon with no text.
    pub fn new() -> (res: DaemonCore)
        ensures
            res@ == spec_initial_core(),
    {
        DaemonCore {
            state: DaemonState::Idle,
            accumulated_text: String::new(),
            last_live_text: String::new(),
            generation: 0,
            live_in_flight: false,
        }
    }

    /// The live-preview timer fired; `session_bytes` is the size of the
    /// session recording, if it exists.
    pub fn on_tick(&mut self, session_bytes: Option<u64>) -> (res: Vec<DaemonAction>)
        ensures
            (final(self)@, actions_view(res@)) == spec_on_tick(old(self)@, session_bytes),
    {
        let mut res: Vec<DaemonAction> = Vec::new();
        if self.state == DaemonState::Listening && !self.live_in_flight {
            if let Some(n) = session_bytes {
                if n > LIVE_PREVIEW_MIN_BYTES {
                    self.live_in_flight = true;
                    res.push(DaemonAction::StartLiveTranscription { generation: self.generation });
                }
            }
        }
        assert(actions_view(res@) =~= spec_on_tick(old(self)@, session_bytes).1);
        res
    }

    /// A live transcription finished, with its text when it produced one.
    pub fn on_live_finished(&mut self, result: Option<LiveResult>) -> (res: Vec<DaemonAction>)
        ensures
            (final(self)@, actions_view(res@)) == spec_on_live_finished(
                old(self)@,
                match result {
                    Some(r) => Some((r.text@, r.generation)),
                    None => None,
                },
            ),
    {
        self.live_in_flight = false;
        let mut res: Vec<DaemonAction> = Vec::new();
        if let Some(r) = result {
            if self.state == DaemonState::Listening && r.generation == self.generation && !(r.text
                == self.last_live_text) {
                let display = join_texts(&self.accumulated_text, &r.text);
                self.last_live_text = r.text;
                res.push(DaemonAction::Emit(DaemonEvent::PartialTranscript { data: display }));
            }
        }
        assert(actions_view(res@) =~= spec_on_live_finished(
            old(self)@,
            match result {
                Some(r) => Some((r.text@, r.generation)),
                None => None,
            },
        ).1);
        res
    }

    fn reset_session(&mut self)
        requires
            old(self).generation < u64::MAX,
        ensures
            final(self)@ == spec_reset(old(self)@),
    {
        self.state = DaemonState::Idle;
        self.accumulated_text = String::new();
        self.last_live_text = String::new();
        self.generation = self.generation + 1;
    }

    /// Whether the command can be taken: a command that starts a new session
    /// generation needs a generation number left.
    pub fn can_accept(&self, cmd: &ClientCommand) -> (res: bool)
        ensures
            res == !(discards_session(cmd@) && self.generation == u64::MAX),
    {
        match cmd {
            ClientCommand::PauseListening | ClientCommand::ResumeListening => true,
            _ => self.generation < u64::MAX,
        }
    }

    /// A command arrived from a client.
    pub fn on_command(&mut self, cmd: ClientCommand) -> (res: Vec<DaemonAction>)
        requires
            discards_session(cmd@) ==> old(self).generation < u64::MAX,
        ensures
            (final(self)@, actions_view(res@)) == spec_on_command(old(self)@, cmd@),
    {
        let ghost cv = cmd@;
        let mut res: Vec<DaemonAction> = Vec::new();
        match cmd {
            ClientCommand::StartListening => {
                self.state = DaemonState::Listening;
                self.generation = self.generation + 1;
                self.accumulated_text = String::new();
                self.last_live_text = String::new();
                res.push(DaemonAction::StartRecorder);
                res.push(
                    DaemonAction::Emit(DaemonEvent::StateChanged { data: DaemonState::Listening }),
                );
            },
            ClientCommand::ResumeListening => {
                self.state = DaemonState::Listening;
                self.last_live_text = String::new();
                res.push(DaemonAction::StartRecorder);
                res.push(
                    DaemonAction::Emit(DaemonEvent::StateChanged { data: DaemonState::Listening }),
                );
            },
            ClientCommand::PauseListening => {
                self.state = DaemonState::Paused;
                res.push(DaemonAction::StopRecorder);
                res.push(DaemonAction::CheckSession);
            },
            ClientCommand::ClearBuffer => {
                self.accumulated_text = String::new();
                self.last_live_text = String::new();
                self.generation = self.generation + 1;
                res.push(DaemonAction::RemoveSessionFiles);
                res.push(DaemonAction::Emit(DaemonEvent::PartialTranscript { data: String::new() }));
                res.push(DaemonAction::Emit(DaemonEvent::FinalTranscript { data: String::new() }));
            },
            ClientCommand::Stop => {
                self.reset_session();
                res.push(DaemonAction::StopRecorder);
                res.push(DaemonAction::RemoveSessionFiles);
                res.push(DaemonAction::Emit(DaemonEvent::StateChanged { data: DaemonState::Idle }));
            },
            ClientCommand::StopAndPaste { pid, delay_ms, text, wayland_display } => {
                if pid > 0 {
                    res.push(DaemonAction::KillClient { pid });
                }
                self.reset_session();
                res.push(DaemonAction::StopRecorder);
                res.push(DaemonAction::RemoveSessionFiles);
                res.push(DaemonAction::Emit(DaemonEvent::StateChanged { data: DaemonState::Idle }));
                res.push(DaemonAction::Paste { text, delay_ms, wayland_display });
            },
            ClientCommand::CancelAndExit { pid } => {
                if pid > 0 {
                    res.push(DaemonAction::KillClient { pid });
                }
                self.reset_session();
                res.push(DaemonAction::StopRecorder);
                res.push(DaemonAction::RemoveSessionFiles);
                res.push(DaemonAction::Emit(DaemonEvent::StateChanged { data: DaemonState::Idle }));
            },
        }
        assert(actions_view(res@) =~= spec_on_command(old(self)@, cv).1);
        res
    }

    /// A pause stopped recording and found the session recording present or not.
    pub fn on_session_checked(&self, session_exists: bool) -> (res: Vec<DaemonAction>)
        ensures
            actions_view(res@) == spec_on_session_checked(session_exists),
    {
        let mut res: Vec<DaemonAction> = Vec::new();
        if session_exists {
            res.push(DaemonAction::TranscribeSession);
        } else {
            res.push(DaemonAction::Emit(DaemonEvent::StateChanged { data: DaemonState::Paused }));
        }
        assert(actions_view(res@) =~= spec_on_session_checked(session_exists));
        res
    }

    /// The session recording of a pause was transcribed to `final_text`.
    pub fn finish_pause(&mut self, final_text: String) -> (res: Vec<DaemonAction>)
        ensures
            (final(self)@, actions_view(res@)) == spec_finish_pause(old(self)@, final_text@),
    {
        let acc = join_texts(&self.accumulated_text, &final_text);
        self.accumulated_text = acc.clone();
        self.last_live_text = String::new();
        let mut res: Vec<DaemonAction> = Vec::new();
        res.push(DaemonAction::Emit(DaemonEvent::FinalTranscript { data: acc }));
        res.push(DaemonAction::Emit(DaemonEvent::StateChanged { data: DaemonState::Paused }));
        assert(actions_view(res@) =~= spec_finish_pause(old(self)@, final_text@).1);
        res
    }
}

// ---------------------------------------------------------------------------
// Laws of the daemon
// ---------------------------------------------------------------------------
/// A command that throws the session's text away.
pub open spec fn discards_session(cmd: ClientCommandView) -> bool {
    match cmd {
        ClientCommandView::StartListening => true,
        ClientCommandView::ClearBuffer => true,
        ClientCommandView::Stop => true,
        ClientCommandView::StopAndPaste { .. } => true,
        ClientCommandView::CancelAndExit { .. } => true,
        _ => false,
    }
}

/// A live result computed for another session generation is dropped: no
/// event is sent and nothing but the in-flight flag changes.
pub proof fn law_stale_live_result_ignored(c: DaemonCoreView, text: Seq<char>, generation: u64)
    requires
        generation != c.generation,
    ensures
        spec_on_live_finished(c, Some((text, generation))).1 == Seq::<DaemonActionView>::empty(),
        spec_on_live_finished(c, Some((text, generation))).0 == (DaemonCoreView {
            live_in_flight: false,
            ..c
        }),
{
}

/// After a command that throws the session away, a live transcription that
/// was started before it never reaches the clients.
pub proof fn law_discarded_session_preview_dropped(
    c: DaemonCoreView,
    cmd: ClientCommandView,
    text: Seq<char>,
)
    requires
        c.generation < u64::MAX,
        discards_session(cmd),
    ensures
        spec_on_command(c, cmd).0.generation != c.generation,
        spec_on_live_finished(spec_on_command(c, cmd).0, Some((text, c.generation))).1
            == Seq::<DaemonActionView>::empty(),
        spec_on_command(c, cmd).0.accumulated == Seq::<char>::empty(),
{
}

/// Ending the session (stop, stop-and-paste, cancel) leaves the daemon idle
/// with no text, and tells the clients so.
pub proof fn law_session_end_resets(c: DaemonCoreView, cmd: ClientCommandView)
    requires
        c.generation < u64::MAX,
        cmd matches ClientCommandView::Stop || cmd matches ClientCommandView::StopAndPaste { .. }
            || cmd matches ClientCommandView::CancelAndExit { .. },
    ensures
        spec_on_command(c, cmd).0.state == DaemonState::Idle,
        spec_on_command(c, cmd).0.accumulated == Seq::<char>::empty(),
        spec_on_command(c, cmd).0.last_live == Seq::<char>::empty(),
        spec_on_command(c, cmd).1.contains(
            DaemonActionView::Emit(DaemonEventView::StateChanged(DaemonState::Idle)),
        ),
        spec_on_command(c, cmd).1.contains(DaemonActionView::StopRecorder),
{
    let acts = spec_on_command(c, cmd).1;
    let k = spec_kill(match cmd {
        ClientCommandView::StopAndPaste { pid, .. } => pid,
        ClientCommandView::CancelAndExit { pid } => pid,
        _ => 0,
    }).len();
    match cmd {
        ClientCommandView::Stop => {
            assert(acts[2] == DaemonActionView::Emit(
                DaemonEventView::StateChanged(DaemonState::Idle),
            ));
            assert(acts[0] == DaemonActionView::StopRecorder);
        },
        _ => {
            assert(acts[k + 2int] == DaemonActionView::Emit(
                DaemonEventView::StateChanged(DaemonState::Idle),
            ));
            assert(acts[k as int] == DaemonActionView::StopRecorder);
        },
    }
}

/// A live preview shows the text finalized so far, then the new live text.
pub proof fn law_preview_extends_accumulated(c: DaemonCoreView, text: Seq<char>)
    requires
        c.state == DaemonState::Listening,
        text != c.last_live,
    ensures
        spec_on_live_finished(c, Some((text, c.generation))).1 == seq![
            DaemonActionView::Emit(
                DaemonEventView::PartialTranscript(join_nonempty(c.accumulated, text)),
            ),
        ],
        c.accumulated.is_prefix_of(join_nonempty(c.accumulated, text)),
        text.is_suffix_of(join_nonempty(c.accumulated, text)),
{
    let j = join_nonempty(c.accumulated, text);
    if c.accumulated.len() > 0 && text.len() > 0 {
        assert(j.subrange(0, c.accumulated.len() as int) =~= c.accumulated);
        assert(j.subrange(j.len() - text.len(), j.len() as int) =~= text);
    } else if c.accumulated.len() == 0 {
        assert(j.subrange(j.len() - text.len(), j.len() as int) =~= text);
    } else {
        assert(j.subrange(0, c.accumulated.len() as int) =~= c.accumulated);
    }
}

/// Pausing keeps the text finalized so far and appends the newly
/// transcribed segment after it; resuming keeps the accumulated text too.
pub proof fn law_pause_resume_keeps_text(c: DaemonCoreView, final_text: Seq<char>)
    ensures
        ({
            let paused = spec_on_command(c, ClientCommandView::PauseListening).0;
            let done = spec_finish_pause(paused, final_text).0;
            let resumed = spec_on_command(done, ClientCommandView::ResumeListening).0;
            &&& spec_on_command(c, ClientCommandView::PauseListening).1.last()
                == DaemonActionView::CheckSession
            &&& spec_on_session_checked(true) == seq![DaemonActionView::TranscribeSession]
            &&& paused.accumulated == c.accumulated
            &&& paused.state == DaemonState::Paused
            &&& done.accumulated == join_nonempty(c.accumulated, final_text)
            &&& c.accumulated.is_prefix_of(done.accumulated)
            &&& resumed.accumulated == done.accumulated
            &&& resumed.state == DaemonState::Listening
        }),
{
    let j = join_nonempty(c.accumulated, final_text);
    if c.accumulated.len() > 0 {
        assert(j.subrange(0, c.accumulated.len() as int) =~= c.accumulated);
    }
}

/// The generation never decreases, so an old generation never becomes current again.
pub proof fn law_generation_monotonic(c: DaemonCoreView, cmd: ClientCommandView)
    requires
        c.generation < u64::MAX,
    ensures
        spec_on_command(c, cmd).0.generation >= c.generation,
        discards_session(cmd) ==> spec_on_command(c, cmd).0.generation
            == c.generation + 1,
        !discards_session(cmd) ==> spec_on_command(c, cmd).0.generation
            == c.generation,
{
}

/// Stop & Paste pastes exactly the text the overlay shows: the command the
/// overlay sends makes the daemon first terminate the overlay (when its
/// process id is known), stop recording and go idle, and only then paste
/// that text after the 180 ms focus delay, on the display the overlay named.
pub proof fn law_stop_and_paste_pastes_shown_text(
    client: ClientView,
    pid: u32,
    wayland_display: Option<Seq<char>>,
    core: DaemonCoreView,
)
    requires
        core.generation < u64::MAX,
    ensures
        ({
            let cmd = spec_stop_and_paste_command(client, pid, wayland_display);
            let acts = spec_on_command(core, cmd).1;
            &&& acts.last() == DaemonActionView::Paste {
                text: Some(client.text),
                delay_ms: 180,
                wayland_display,
            }
            &&& pid > 0 ==> acts[0] == DaemonActionView::KillClient(pid)
            &&& acts.subrange(0, acts.len() - 1).contains(DaemonActionView::StopRecorder)
            &&& spec_on_command(core, cmd).0.state == DaemonState::Idle
        }),
{
    let cmd = spec_stop_and_paste_command(client, pid, wayland_display);
    let acts = spec_on_command(core, cmd).1;
    let k = spec_kill(pid).len();
    assert(acts.subrange(0, acts.len() - 1)[k as int] == DaemonActionView::StopRecorder);
}

/// The daemon's state after it handled the commands in order.
pub open spec fn state_after_commands(core: DaemonCoreView, cmds: Seq<ClientCommandView>) -> DaemonState
    decreases cmds.len(),
{
    if cmds.len() == 0 {
        core.state
    } else {
        state_after_commands(spec_on_command(core, cmds[0]).0, cmds.drop_first())
    }
}

proof fn lemma_state_after_one(core: DaemonCoreView, a: ClientCommandView)
    ensures
        state_after_commands(core, seq![a]) == spec_on_command(core, a).0.state,
{
    assert(seq![a].drop_first() =~= Seq::<ClientCommandView>::empty());
    assert(seq![a][0] == a);
    let next = spec_on_command(core, a).0;
    assert(state_after_commands(next, Seq::<ClientCommandView>::empty()) == next.state);
}

proof fn lemma_state_after_two(core: DaemonCoreView, a: ClientCommandView, b: ClientCommandView)
    ensures
        state_after_commands(core, seq![a, b]) == spec_on_command(spec_on_command(core, a).0, b).0.state,
{
    assert(seq![a, b].drop_first() =~= seq![b]);
    assert(seq![a, b][0] == a);
    lemma_state_after_one(spec_on_command(core, a).0, b);
}

/// The overlay's recording indicator follows the daemon: when both agree on
/// the recording state, every overlay operation sends commands that bring
/// the daemon to the state the overlay then shows.
pub proof fn law_overlay_state_matches_daemon(c: ClientView, core: DaemonCoreView)
    requires
        core.state == c.state,
    ensures
        state_after_commands(core, spec_toggle_pause(c).1) == spec_toggle_pause(c).0.state,
        state_after_commands(core, spec_toggle_edit(c).1) == spec_toggle_edit(c).0.state,
        state_after_commands(core, spec_open_fix_window(c).1) == spec_open_fix_window(c).0.state,
        state_after_commands(core, spec_reprompt_fix(c).1) == spec_reprompt_fix(c).0.state,
        state_after_commands(core, spec_submit_fix_request(c).1.commands)
            == spec_submit_fix_request(c).0.state,
        state_after_commands(core, spec_confirm_and_apply_fix(c).1.commands)
            == spec_confirm_and_apply_fix(c).0.state,
        state_after_commands(core, spec_close_fix_window(c).1.commands)
            == spec_close_fix_window(c).0.state,
{
    let e = Seq::<ClientCommandView>::empty();
    let pause = ClientCommandView::PauseListening;
    let resume = ClientCommandView::ResumeListening;
    let clear = ClientCommandView::ClearBuffer;
    lemma_state_after_one(core, pause);
    lemma_state_after_one(core, resume);
    lemma_state_after_two(core, clear, resume);
    assert(seq![clear] + seq![resume] =~= seq![clear, resume]);
    assert(seq![clear] + e =~= seq![clear]);
    lemma_state_after_one(core, clear);
}

/// Clients are told every change of the recording state: each command that
/// sets the state announces the new state; a pause announces it once the
/// stopped recording has been checked for, and, when there is one, once its
/// transcript is in.
pub proof fn law_state_announced(
    c: DaemonCoreView,
    cmd: ClientCommandView,
    session_exists: bool,
    final_text: Seq<char>,
)
    requires
        discards_session(cmd) ==> c.generation < u64::MAX,
        !(cmd matches ClientCommandView::ClearBuffer),
    ensures
        ({
            let (next, acts) = spec_on_command(c, cmd);
            let announce = DaemonActionView::Emit(DaemonEventView::StateChanged(next.state));
            if (cmd matches ClientCommandView::PauseListening) {
                &&& acts.contains(DaemonActionView::CheckSession)
                &&& if session_exists {
                    &&& spec_on_session_checked(session_exists) == seq![
                        DaemonActionView::TranscribeSession,
                    ]
                    &&& spec_finish_pause(next, final_text).1.contains(announce)
                    &&& spec_finish_pause(next, final_text).0.state == next.state
                } else {
                    spec_on_session_checked(session_exists).contains(announce)
                }
            } else {
                acts.contains(announce)
            }
        }),
{
    let (next, acts) = spec_on_command(c, cmd);
    let announce = DaemonActionView::Emit(DaemonEventView::StateChanged(next.state));
    let k = spec_kill(match cmd {
        ClientCommandView::StopAndPaste { pid, .. } => pid,
        ClientCommandView::CancelAndExit { pid } => pid,
        _ => 0,
    }).len();
    match cmd {
        ClientCommandView::StartListening => assert(acts[1] == announce),
        ClientCommandView::ResumeListening => assert(acts[1] == announce),
        ClientCommandView::PauseListening => {
            assert(acts[1] == DaemonActionView::CheckSession);
            if session_exists {
                assert(spec_finish_pause(next, final_text).1[1] == announce);
            } else {
                assert(spec_on_session_checked(session_exists)[0] == announce);
            }
        },
        ClientCommandView::Stop => assert(acts[2] == announce),
        ClientCommandView::StopAndPaste { .. } => assert(acts[k + 2int] == announce),
        ClientCommandView::CancelAndExit { .. } => assert(acts[k + 2int] == announce),
        _ => {},
    }
}

/// Finalizing a paused segment appends it to the session's text, after a
/// newline when both are non-empty, and the overlay is sent that whole text
/// (not the segment alone) before hearing that recording is paused; the live
/// preview is forgotten and nothing else changes.
pub proof fn law_finish_pause_sends_whole_text(c: DaemonCoreView, final_text: Seq<char>)
    ensures
        ({
            let (next, acts) = spec_finish_pause(c, final_text);
            &&& next.accumulated == if c.accumulated.len() == 0 {
                final_text
            } else if final_text.len() == 0 {
                c.accumulated
            } else {
                c.accumulated + seq!['\n'] + final_text
            }
            &&& acts.len() == 2
            &&& acts[0] == DaemonActionView::Emit(DaemonEventView::FinalTranscript(next.accumulated))
            &&& acts[1] == DaemonActionView::Emit(DaemonEventView::StateChanged(DaemonState::Paused))
            &&& c.accumulated.is_prefix_of(next.accumulated)
            &&& final_text.is_suffix_of(next.accumulated)
            &&& next.last_live.len() == 0
            &&& next == (DaemonCoreView { accumulated: next.accumulated, last_live: seq![], ..c })
        }),
{
    let j = join_nonempty(c.accumulated, final_text);
    if c.accumulated.len() > 0 && final_text.len() > 0 {
        assert(j.subrange(0, c.accumulated.len() as int) =~= c.accumulated);
        assert(j.subrange(j.len() - final_text.len(), j.len() as int) =~= final_text);
    } else if c.accumulated.len() == 0 {
        assert(j.subrange(j.len() - final_text.len(), j.len() as int) =~= final_text);
        assert(j.subrange(0, 0) =~= c.accumulated);
    } else {
        assert(j.subrange(0, c.accumulated.len() as int) =~= c.accumulated);
        assert(j.subrange(j.len() as int, j.len() as int) =~= final_text);
    }
}

/// A finished live transcription always clears the in-flight flag. It sends
/// the overlay one preview, the whole text so far (the finalized text, then a
/// newline when both are non-empty, then the live text), exactly when the
/// daemon is still listening in the same session and the live text differs
/// from the last one shown, and then remembers that live text; in every other
/// case nothing is sent and nothing else changes.
pub proof fn law_live_preview(c: DaemonCoreView, result: Option<(Seq<char>, u64)>)
    ensures
        ({
            let (next, acts) = spec_on_live_finished(c, result);
            let shown = match result {
                Some((text, generation)) => c.state == DaemonState::Listening && generation
                    == c.generation && text != c.last_live,
                None => false,
            };
            &&& !next.live_in_flight
            &&& shown ==> {
                let text = match result {
                    Some((t, _)) => t,
                    None => seq![],
                };
                let whole = if c.accumulated.len() == 0 {
                    text
                } else if text.len() == 0 {
                    c.accumulated
                } else {
                    c.accumulated + seq!['\n'] + text
                };
                &&& acts == seq![
                    DaemonActionView::Emit(DaemonEventView::PartialTranscript(whole)),
                ]
                &&& next == (DaemonCoreView { last_live: text, live_in_flight: false, ..c })
            }
            &&& !shown ==> {
                &&& acts.len() == 0
                &&& next == (DaemonCoreView { live_in_flight: false, ..c })
            }
        }),
{
}

/// A timer tick starts a live transcription of the current session exactly
/// when the daemon is listening, none is running, and more than a second of
/// audio (32000 bytes) has been recorded; it then marks one as running.
/// Otherwise nothing happens.
pub proof fn law_tick_starts_live_preview(c: DaemonCoreView, session_bytes: Option<u64>)
    ensures
        LIVE_PREVIEW_MIN_BYTES == 32000,
        ({
            let (next, acts) = spec_on_tick(c, session_bytes);
            let starts = c.state == DaemonState::Listening && !c.live_in_flight && match session_bytes {
                Some(n) => n > 32000,
                None => false,
            };
            &&& starts ==> acts == seq![DaemonActionView::StartLiveTranscription(c.generation)]
                && next == (DaemonCoreView { live_in_flight: true, ..c })
            &&& !starts ==> acts.len() == 0 && next == c
        }),
{
}

} // verus!
