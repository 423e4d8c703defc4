//! The audio recorder's decisions: speakers are muted while the microphone
//! records (so that playback is not transcribed) and unmuted afterwards, but
//! only when the recorder was the one that muted them.
use vstd::prelude::*;
use vstd::string::StringExecFns;
use crate::fix::strs;
use crate::text::{chars_of, contains_chars, contains_seq};

verus! {

pub const RECORDING_WAV_PATH: &'static str = "/tmp/whisper_session.wav";

pub const RECORDING_WAV_COPY: &'static str = "/tmp/whisper_session_copy.wav";

/// Work for the caller.
#[derive(Clone, Copy, PartialEq, Eq, Debug)]
pub enum RecorderAction {
    /// Ask the sound server whether the speakers are muted, and report it
    /// with `on_mute_probed`.
    ProbeMute,
    /// Mute (`true`) or unmute (`false`) the speakers.
    SetMute(bool),
    /// Delete an old session recording.
    RemoveRecording,
    /// Start the capture process, and report with `on_spawned`.
    SpawnRecorder,
    /// Kill the capture process and wait for it.
    KillRecorder,
}

/// What a start request leads to.
pub open spec fn spec_start_actions(recording: bool) -> Seq<RecorderAction> {
    if recording {
        Seq::<RecorderAction>::empty()
    } else {
        seq![RecorderAction::ProbeMute]
    }
}

/// What knowing the speakers' mute state leads to.
pub open spec fn spec_probe_actions(speakers_muted: bool) -> Seq<RecorderAction> {
    (if speakers_muted {
        Seq::<RecorderAction>::empty()
    } else {
        seq![RecorderAction::SetMute(true)]
    }) + seq![RecorderAction::RemoveRecording, RecorderAction::SpawnRecorder]
}

/// What a stop leads to.
pub open spec fn spec_stop_actions(recording: bool, muted_by_us: bool) -> Seq<RecorderAction> {
    (if recording {
        seq![RecorderAction::KillRecorder]
    } else {
        Seq::<RecorderAction>::empty()
    }) + (if muted_by_us {
        seq![RecorderAction::SetMute(false)]
    } else {
        Seq::<RecorderAction>::empty()
    })
}

/// Whether audio is being captured, and whether the recorder muted the speakers.
pub struct RecorderCore {
    pub recording: bool,
    pub muted_by_us: bool,
}

impl RecorderCore {
    /// Not recording, speakers untouched.
    pub fn new() -> (res: RecorderCore)
        ensures
            !res.recording,
            !res.muted_by_us,
    {
        RecorderCore { recording: false, muted_by_us: false }
    }

    /// Whether audio is being captured.
    pub fn is_recording(&self) -> (res: bool)
        ensures
            res == self.recording,
    {
        self.recording
    }

    /// A start was requested: nothing to do while recording, otherwise
    /// first find out whether the speakers are already muted.
    pub fn on_start(&self) -> (res: Vec<RecorderAction>)
        ensures
            res@ == spec_start_actions(self.recording),
    {
        let mut res: Vec<RecorderAction> = Vec::new();
        if !self.recording {
            res.push(RecorderAction::ProbeMute);
        }
        assert(res@ =~= spec_start_actions(self.recording));
        res
    }

    /// The speakers' mute state is known: mute them if they are not muted
    /// (and remember doing so), drop an old recording, and start capturing.
    pub fn on_mute_probed(&mut self, speakers_muted: bool) -> (res: Vec<RecorderAction>)
        ensures
            final(self).recording == old(self).recording,
            final(self).muted_by_us == (old(self).muted_by_us || !speakers_muted),
            res@ == spec_probe_actions(speakers_muted),
    {
        let mut res: Vec<RecorderAction> = Vec::new();
        if !speakers_muted {
            res.push(RecorderAction::SetMute(true));
            self.muted_by_us = true;
        }
        res.push(RecorderAction::RemoveRecording);
        res.push(RecorderAction::SpawnRecorder);
        assert(res@ =~= spec_probe_actions(speakers_muted));
        res
    }

    /// The capture process was started (`ok`) or could not be.
    pub fn on_spawned(&mut self, ok: bool)
        ensures
            final(self).recording == ok,
            final(self).muted_by_us == old(self).muted_by_us,
    {
        self.recording = ok;
    }

    /// Stop capturing, and unmute the speakers if the recorder muted them.
    pub fn on_stop(&mut self) -> (res: Vec<RecorderAction>)
        ensures
            !final(self).recording,
            !final(self).muted_by_us,
            res@ == spec_stop_actions(old(self).recording, old(self).muted_by_us),
    {
        let mut res: Vec<RecorderAction> = Vec::new();
        if self.recording {
            res.push(RecorderAction::KillRecorder);
            self.recording = false;
        }
        if self.muted_by_us {
            res.push(RecorderAction::SetMute(false));
            self.muted_by_us = false;
        }
        assert(res@ =~= spec_stop_actions(old(self).recording, old(self).muted_by_us));
        res
    }
}

/// The speakers' mute state after the actions, starting from `muted`.
pub open spec fn mute_after(muted: bool, actions: Seq<RecorderAction>) -> bool
    decreases actions.len(),
{
    if actions.len() == 0 {
        muted
    } else {
        match actions.last() {
            RecorderAction::SetMute(m) => m,
            _ => mute_after(muted, actions.drop_last()),
        }
    }
}

proof fn lemma_mute_after_append(muted: bool, a: Seq<RecorderAction>, b: Seq<RecorderAction>)
    ensures
        mute_after(muted, a + b) == mute_after(mute_after(muted, a), b),
    decreases b.len(),
{
    if b.len() == 0 {
        assert(a + b =~= a);
    } else {
        assert((a + b).drop_last() =~= a + b.drop_last());
        lemma_mute_after_append(muted, a, b.drop_last());
    }
}

/// A recording session leaves the speakers as it found them: a fresh
/// recorder that is started (whatever the outcome of starting the capture)
/// and then stopped has the speakers muted while capturing, and afterwards
/// muted exactly when they were muted before.
pub proof fn law_recording_restores_speakers(speakers_muted: bool, spawned: bool)
    ensures
        ({
            let start = spec_start_actions(false);
            let probed = spec_probe_actions(speakers_muted);
            let stop = spec_stop_actions(spawned, !speakers_muted);
            &&& mute_after(speakers_muted, start + probed)
            &&& mute_after(speakers_muted, start + probed + stop) == speakers_muted
        }),
{
    let start = spec_start_actions(false);
    let probed = spec_probe_actions(speakers_muted);
    let kill = if spawned {
        seq![RecorderAction::KillRecorder]
    } else {
        Seq::<RecorderAction>::empty()
    };
    let unmute = if !speakers_muted {
        seq![RecorderAction::SetMute(false)]
    } else {
        Seq::<RecorderAction>::empty()
    };
    let pre = if speakers_muted {
        Seq::<RecorderAction>::empty()
    } else {
        seq![RecorderAction::SetMute(true)]
    };
    let tail = seq![RecorderAction::RemoveRecording, RecorderAction::SpawnRecorder];
    assert(probed == pre + tail);
    assert(spec_stop_actions(spawned, !speakers_muted) == kill + unmute);
    lemma_mute_after_append(speakers_muted, start, probed);
    lemma_mute_after_append(speakers_muted, start, pre);
    lemma_mute_after_append(mute_after(speakers_muted, start), pre, tail);
    assert(mute_after(speakers_muted, start) == speakers_muted) by {
        assert(start.drop_last() =~= Seq::<RecorderAction>::empty());
        assert(mute_after(speakers_muted, start.drop_last()) == speakers_muted);
        assert(start.last() == RecorderAction::ProbeMute);
    }
    assert(mute_after(mute_after(speakers_muted, pre), tail) == mute_after(speakers_muted, pre))
        by {
        let m = mute_after(speakers_muted, pre);
        assert(tail.drop_last().drop_last() =~= Seq::<RecorderAction>::empty());
        assert(mute_after(m, tail.drop_last().drop_last()) == m);
        assert(tail.drop_last().last() == RecorderAction::RemoveRecording);
        assert(mute_after(m, tail.drop_last()) == m);
        assert(tail.last() == RecorderAction::SpawnRecorder);
    }
    assert(mute_after(speakers_muted, pre) == true) by {
        if !speakers_muted {
            assert(pre.last() == RecorderAction::SetMute(true));
        }
    }
    lemma_mute_after_append(speakers_muted, start + probed, kill + unmute);
    lemma_mute_after_append(mute_after(speakers_muted, start + probed), kill, unmute);
    assert(mute_after(true, kill) == true) by {
        if spawned {
            assert(kill.drop_last() =~= Seq::<RecorderAction>::empty());
            assert(mute_after(true, kill.drop_last()) == true);
            assert(kill.last() == RecorderAction::KillRecorder);
        }
    }
    if !speakers_muted {
        assert(unmute.last() == RecorderAction::SetMute(false));
    }
}

/// The output of the sound server's volume query marks muted speakers with `[MUTED]`.
pub fn volume_output_is_muted(output: &str) -> (res: bool)
    ensures
        res == contains_seq(output@, seq!['[', 'M', 'U', 'T', 'E', 'D', ']']),
{
    let marker: Vec<char> = vec!['[', 'M', 'U', 'T', 'E', 'D', ']'];
    assert(marker@ =~= seq!['[', 'M', 'U', 'T', 'E', 'D', ']']);
    contains_chars(&chars_of(output), &marker)
}

/// The command lines that set the speakers' mute state, tried in order until
/// one succeeds: PipeWire's `wpctl`, then ALSA's `amixer`.
pub open spec fn spec_mute_commands(muted: bool) -> Seq<Seq<Seq<char>>> {
    seq![
        seq!["wpctl"@, "set-mute"@, "@DEFAULT_AUDIO_SINK@"@, if muted { "1"@ } else { "0"@ }],
        seq!["amixer"@, "set"@, "Master"@, if muted { "mute"@ } else { "unmute"@ }],
    ]
}

pub fn mute_commands(muted: bool) -> (res: Vec<Vec<String>>)
    ensures
        res@.map_values(|c: Vec<String>| strs(c@)) == spec_mute_commands(muted),
{
    let flag = if muted { "1" } else { "0" };
    let word = if muted { "mute" } else { "unmute" };
    let a = vec![
        String::from_str("wpctl"),
        String::from_str("set-mute"),
        String::from_str("@DEFAULT_AUDIO_SINK@"),
        String::from_str(flag),
    ];
    let b = vec![
        String::from_str("amixer"),
        String::from_str("set"),
        String::from_str("Master"),
        String::from_str(word),
    ];
    assert(strs(a@) =~= seq!["wpctl"@, "set-mute"@, "@DEFAULT_AUDIO_SINK@"@, flag@]);
    assert(strs(b@) =~= seq!["amixer"@, "set"@, "Master"@, word@]);
    let ghost sa = strs(a@);
    let ghost sb = strs(b@);
    let res = vec![a, b];
    assert(res@.map_values(|c: Vec<String>| strs(c@)) =~= seq![sa, sb]);
    res
}

/// The capture command: 16 kHz signed 16-bit mono from the default device,
/// written to the session recording.
pub open spec fn spec_arecord_args() -> Seq<Seq<char>> {
    seq![
        "-D"@,
        "default"@,
        "-f"@,
        "S16_LE"@,
        "-c"@,
        "1"@,
        "-r"@,
        "16000"@,
        RECORDING_WAV_PATH@,
    ]
}

pub fn arecord_args() -> (res: Vec<String>)
    ensures
        strs(res@) == spec_arecord_args(),
{
    let res = vec![
        String::from_str("-D"),
        String::from_str("default"),
        String::from_str("-f"),
        String::from_str("S16_LE"),
        String::from_str("-c"),
        String::from_str("1"),
        String::from_str("-r"),
        String::from_str("16000"),
        String::from_str(RECORDING_WAV_PATH),
    ];
    assert(strs(res@) =~= spec_arecord_args());
    res
}

} // verus!
