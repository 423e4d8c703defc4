//! Whisper transcript cleaning, the speech engine's configuration, and the
//! decisions around running the command-line recognizer.
use vstd::prelude::*;
use vstd::string::StringExecFns;
use crate::fix::strs;
use crate::text::{
    chars_of, contains_chars, contains_seq, lines, lines_of, views, collapse_white_space, collapse_whitespace_chars, is_white_space, join_with,
    lemma_words_shape, string_from_chars, trim, trim_chars, trim_end,
    trim_start, words,
};

verus! {

/// State of the bracket scan: the characters kept so far and the current
/// nesting depths of `[...]` and `(...)`.
pub struct BracketScan {
    pub kept: Seq<char>,
    pub square: nat,
    pub round: nat,
}

/// One step of the scan: brackets and parentheses adjust their depth and are
/// never kept (a closing one at depth zero is dropped too); any other
/// character is kept only outside every bracket and parenthesis.
pub open spec fn bracket_step(st: BracketScan, c: char) -> BracketScan {
    if c == '[' {
        BracketScan { square: st.square + 1, ..st }
    } else if c == ']' {
        BracketScan { square: if st.square > 0 { (st.square - 1) as nat } else { 0 }, ..st }
    } else if c == '(' {
        BracketScan { round: st.round + 1, ..st }
    } else if c == ')' {
        BracketScan { round: if st.round > 0 { (st.round - 1) as nat } else { 0 }, ..st }
    } else if st.square == 0 && st.round == 0 {
        BracketScan { kept: st.kept.push(c), ..st }
    } else {
        st
    }
}

/// The scan of a whole sequence, from left to right.
pub open spec fn bracket_scan(s: Seq<char>) -> BracketScan
    decreases s.len(),
{
    if s.len() == 0 {
        BracketScan { kept: seq![], square: 0, round: 0 }
    } else {
        bracket_step(bracket_scan(s.drop_last()), s.last())
    }
}

/// The text outside of every `[...]` and `(...)` group, without the brackets.
pub open spec fn strip_bracketed(s: Seq<char>) -> Seq<char> {
    bracket_scan(s).kept
}

/// What `clean_whisper_text` returns: bracketed and parenthesised annotations
/// removed, then white space normalized to single spaces, then trimmed.
pub open spec fn spec_clean_whisper_text(s: Seq<char>) -> Seq<char> {
    trim(collapse_white_space(strip_bracketed(s)))
}

/// Removes every `[...]` and `(...)` group (nested ones too) and the
/// brackets themselves.
pub fn strip_bracketed_chars(s: &Vec<char>) -> (res: Vec<char>)
    ensures
        res@ == strip_bracketed(s@),
{
    let n = s.len();
    let mut kept: Vec<char> = Vec::new();
    let mut square: usize = 0;
    let mut round: usize = 0;
    let mut i: usize = 0;
    while i < n
        invariant
            i <= n == s@.len(),
            square <= i,
            round <= i,
            bracket_scan(s@.take(i as int)) == (BracketScan {
                kept: kept@,
                square: square as nat,
                round: round as nat,
            }),
        decreases n - i,
    {
        assert(s@.take(i + 1).drop_last() =~= s@.take(i as int));
        let c = s[i];
        if c == '[' {
            square = square + 1;
        } else if c == ']' {
            if square > 0 {
                square = square - 1;
            }
        } else if c == '(' {
            round = round + 1;
        } else if c == ')' {
            if round > 0 {
                round = round - 1;
            }
        } else if square == 0 && round == 0 {
            kept.push(c);
        }
        i = i + 1;
    }
    assert(s@.take(n as int) =~= s@);
    kept
}

/// Cleans Whisper transcription output, removing brackets and normalizing whitespace.
pub fn clean_whisper_text(text: &str) -> (res: String)
    ensures
        res@ == spec_clean_whisper_text(text@),
{
    let chars = chars_of(text);
    let kept = strip_bracketed_chars(&chars);
    let collapsed = collapse_whitespace_chars(&kept);
    let trimmed = trim_chars(&collapsed);
    string_from_chars(&trimmed)
}

// ---------------------------------------------------------------------------
// The speech engine
// ---------------------------------------------------------------------------
/// The recognizer's command-line program.
pub const WHISPER_CLI_PATH: &'static str = "/opt/whisper-npu/bin/whisper-cli-npu";

/// The speech model (with its compiled NPU cache in the same folder).
pub const WHISPER_MODEL_PATH: &'static str = "/home/mallumo/models/stt/npu/ggml-small.bin";

/// The configuration of the command-line recognizer.
pub struct WhisperEngine {
    pub cli_path: String,
    pub model_path: String,
    pub language: String,
    pub gpu_device: u32,
}

/// Why the engine cannot be set up.
pub enum EngineError {
    CliNotFound { path: String },
    ModelNotFound { path: String },
}

impl EngineError {
    /// The error's description.
    pub fn message(&self) -> (res: String)
        ensures
            res@ == match self {
                EngineError::CliNotFound { path } => "whisper-cli-npu not found at "@ + path@,
                EngineError::ModelNotFound { path } => "Whisper NPU model not found at "@ + path@,
            },
    {
        match self {
            EngineError::CliNotFound { path } => {
                let mut m = String::from_str("whisper-cli-npu not found at ");
                m.append(path.as_str());
                m
            },
            EngineError::ModelNotFound { path } => {
                let mut m = String::from_str("Whisper NPU model not found at ");
                m.append(path.as_str());
                m
            },
        }
    }
}

impl WhisperEngine {
    /// Sets up the engine for `language` once the program and the model are
    /// known to be installed (`cli_present`, `model_present`); the program
    /// is checked first. `gpu_device` is the detected Vulkan device index.
    /// The model directory is not consulted: the NPU model has a fixed place.
    pub fn new(model_dir: &str, language: &str, cli_present: bool, model_present: bool, gpu_device: u32) -> (res:
        Result<WhisperEngine, EngineError>)
        ensures
            match res {
                Ok(e) => {
                    &&& cli_present && model_present
                    &&& e.cli_path@ == WHISPER_CLI_PATH@
                    &&& e.model_path@ == WHISPER_MODEL_PATH@
                    &&& e.language@ == language@
                    &&& e.gpu_device == gpu_device
                },
                Err(EngineError::CliNotFound { path }) => !cli_present && path@ == WHISPER_CLI_PATH@,
                Err(EngineError::ModelNotFound { path }) => cli_present && !model_present && path@
                    == WHISPER_MODEL_PATH@,
            },
    {
        if !cli_present {
            return Err(EngineError::CliNotFound { path: String::from_str(WHISPER_CLI_PATH) });
        }
        if !model_present {
            return Err(EngineError::ModelNotFound { path: String::from_str(WHISPER_MODEL_PATH) });
        }
        Ok(WhisperEngine {
            cli_path: String::from_str(WHISPER_CLI_PATH),
            model_path: String::from_str(WHISPER_MODEL_PATH),
            language: String::from_str(language),
            gpu_device,
        })
    }

    /// The recognizer's arguments for a recording: the model, the file, no
    /// timestamps, non-speech tokens suppressed, no GPU; and the language
    /// when one is set.
    pub open spec fn spec_cli_args(&self, wav_path: Seq<char>) -> Seq<Seq<char>> {
        seq!["-m"@, self.model_path@, "-f"@, wav_path, "-nt"@, "-sns"@, "-ng"@] + if self.language@.len()
            == 0 {
            Seq::<Seq<char>>::empty()
        } else {
            seq!["-l"@, self.language@]
        }
    }

    pub fn cli_args(&self, wav_path: &str) -> (res: Vec<String>)
        ensures
            strs(res@) == self.spec_cli_args(wav_path@),
    {
        let mut res = vec![
            String::from_str("-m"),
            self.model_path.clone(),
            String::from_str("-f"),
            String::from_str(wav_path),
            String::from_str("-nt"),
            String::from_str("-sns"),
            String::from_str("-ng"),
        ];
        let ghost base = strs(res@);
        assert(base =~= seq!["-m"@, self.model_path@, "-f"@, wav_path@, "-nt"@, "-sns"@, "-ng"@]);
        if self.language.as_str().unicode_len() > 0 {
            res.push(String::from_str("-l"));
            res.push(self.language.clone());
            assert(strs(res@) =~= base + seq!["-l"@, self.language@]);
        } else {
            assert(strs(res@) =~= base + Seq::<Seq<char>>::empty());
        }
        res
    }
}

/// The transcript of a recognizer run: its cleaned output when it
/// succeeded, and nothing otherwise.
pub fn transcript_from_output(succeeded: bool, stdout: &str) -> (res: String)
    ensures
        res@ == if succeeded {
            spec_clean_whisper_text(stdout@)
        } else {
            Seq::<char>::empty()
        },
{
    if succeeded {
        clean_whisper_text(stdout)
    } else {
        String::new()
    }
}

// ---------------------------------------------------------------------------
// GPU detection
// ---------------------------------------------------------------------------
/// What `str::to_lowercase` returns for `s` (the Unicode lowercase mapping).
pub uninterp spec fn lowercase_of(s: Seq<char>) -> Seq<char>;

/// Lowercases a string (`str::to_lowercase`).
#[verifier::external_body]
fn to_lowercase(s: &str) -> (res: String)
    ensures
        res@ == lowercase_of(s@),
{
    s.to_lowercase()
}

pub open spec fn device_marker() -> Seq<char> {
    seq!['d', 'e', 'v', 'i', 'c', 'e', 'N', 'a', 'm', 'e']
}

/// The lines of a Vulkan summary that name a device.
pub open spec fn device_lines(summary: Seq<char>) -> Seq<Seq<char>> {
    lines(summary).filter(|l: Seq<char>| contains_seq(l, device_marker()))
}

/// A device line names an AMD GPU: it mentions `AMD` or `Radeon`, or its
/// lowercase form mentions the `radv` driver.
pub open spec fn names_amd_gpu(line: Seq<char>, lowered: Seq<char>) -> bool {
    contains_seq(line, seq!['A', 'M', 'D']) || contains_seq(line, seq!['R', 'a', 'd', 'e', 'o', 'n'])
        || contains_seq(lowered, seq!['r', 'a', 'd', 'v'])
}

/// The position of the first AMD device among `ds`, each taken with its
/// lowercase form in `lows`.
pub open spec fn first_amd(ds: Seq<Seq<char>>, lows: Seq<Seq<char>>) -> Option<nat>
    decreases ds.len(),
{
    if ds.len() == 0 {
        None
    } else if names_amd_gpu(ds[0], lows[0]) {
        Some(0)
    } else {
        match first_amd(ds.drop_first(), lows.drop_first()) {
            Some(k) => Some(k + 1),
            None => None,
        }
    }
}

/// The device index picked from the device lines and their lowercase forms:
/// the position of the first AMD GPU, or 1 when there is none.
pub open spec fn spec_pick_device_index(ds: Seq<Seq<char>>, lows: Seq<Seq<char>>) -> nat {
    match first_amd(ds, lows) {
        Some(k) => k,
        None => 1,
    }
}

/// The lowercase forms of the lines.
pub open spec fn lowercase_all(ds: Seq<Seq<char>>) -> Seq<Seq<char>> {
    ds.map_values(|l: Seq<char>| lowercase_of(l))
}

/// The Vulkan device index of the AMD GPU: its position among the devices
/// of the summary, or 1 when there is no summary or no AMD device.
pub open spec fn spec_gpu_device_index(summary: Option<Seq<char>>) -> nat {
    match summary {
        None => 1,
        Some(s) => spec_pick_device_index(device_lines(s), lowercase_all(device_lines(s))),
    }
}

/// Whether a device line names an AMD GPU, given the line and its lowercase form.
pub fn is_amd_device_line(line: &str, lowered: &str) -> (res: bool)
    ensures
        res == names_amd_gpu(line@, lowered@),
{
    let l = chars_of(line);
    let amd: Vec<char> = vec!['A', 'M', 'D'];
    let radeon: Vec<char> = vec!['R', 'a', 'd', 'e', 'o', 'n'];
    let radv: Vec<char> = vec!['r', 'a', 'd', 'v'];
    assert(amd@ =~= seq!['A', 'M', 'D']);
    assert(radeon@ =~= seq!['R', 'a', 'd', 'e', 'o', 'n']);
    assert(radv@ =~= seq!['r', 'a', 'd', 'v']);
    contains_chars(&l, &amd) || contains_chars(&l, &radeon) || contains_chars(
        &chars_of(lowered),
        &radv,
    )
}

/// The views of a list of strings.
pub open spec fn str_views(v: Seq<String>) -> Seq<Seq<char>> {
    v.map_values(|x: String| x@)
}

proof fn lemma_first_amd_at(ds: Seq<Seq<char>>, lows: Seq<Seq<char>>, i: int)
    requires
        ds.len() == lows.len(),
        0 <= i <= ds.len(),
        forall|j: int| 0 <= j < i ==> !names_amd_gpu(#[trigger] ds[j], lows[j]),
    ensures
        i < ds.len() && names_amd_gpu(ds[i], lows[i]) ==> first_amd(ds, lows) == Some(i as nat),
        i == ds.len() ==> first_amd(ds, lows) is None,
    decreases i,
{
    if i > 0 {
        assert(!names_amd_gpu(ds[0], lows[0]));
        let d1 = ds.drop_first();
        let l1 = lows.drop_first();
        assert forall|j: int| 0 <= j < i - 1 implies !names_amd_gpu(#[trigger] d1[j], l1[j]) by {
            assert(d1[j] == ds[j + 1]);
            assert(l1[j] == lows[j + 1]);
        }
        lemma_first_amd_at(d1, l1, i - 1);
        if i < ds.len() {
            assert(d1[i - 1] == ds[i]);
            assert(l1[i - 1] == lows[i]);
        }
    }
}

/// Picks the device index from the device lines of a Vulkan summary and the
/// lowercase form of each: the position of the first line that names an AMD
/// GPU, or 1 when none does.
pub fn pick_device_index(devices: &Vec<String>, lowered: &Vec<String>) -> (res: u32)
    requires
        devices.len() == lowered.len(),
        devices.len() <= u32::MAX,
    ensures
        res as nat == spec_pick_device_index(str_views(devices@), str_views(lowered@)),
{
    let ghost ds = str_views(devices@);
    let ghost lows = str_views(lowered@);
    let mut k: usize = 0;
    while k < devices.len()
        invariant
            k <= devices.len(),
            devices.len() == lowered.len(),
            devices.len() <= u32::MAX,
            ds == str_views(devices@),
            lows == str_views(lowered@),
            forall|j: int| 0 <= j < k ==> !names_amd_gpu(#[trigger] ds[j], lows[j]),
        decreases devices.len() - k,
    {
        assert(ds[k as int] == devices@[k as int]@);
        assert(lows[k as int] == lowered@[k as int]@);
        if is_amd_device_line(devices[k].as_str(), lowered[k].as_str()) {
            proof {
                lemma_first_amd_at(ds, lows, k as int);
            }
            return k as u32;
        }
        k = k + 1;
    }
    proof {
        lemma_first_amd_at(ds, lows, k as int);
    }
    1
}

/// The lines of a Vulkan summary that name a device (those that mention
/// `deviceName`), in order.
pub fn device_lines_of(summary: &str) -> (res: Vec<String>)
    ensures
        str_views(res@) == device_lines(summary@),
{
    let ls = lines_of(&chars_of(summary));
    let marker: Vec<char> = vec!['d', 'e', 'v', 'i', 'c', 'e', 'N', 'a', 'm', 'e'];
    assert(marker@ =~= device_marker());
    let ghost all = views(ls@);
    let ghost pred = |l: Seq<char>| contains_seq(l, device_marker());
    let mut res: Vec<String> = Vec::new();
    let mut k: usize = 0;
    while k < ls.len()
        invariant
            k <= ls@.len(),
            all == views(ls@),
            all == lines(summary@),
            pred == (|l: Seq<char>| contains_seq(l, device_marker())),
            marker@ == device_marker(),
            str_views(res@) == all.take(k as int).filter(pred),
        decreases ls@.len() - k,
    {
        let ghost before = all.take(k as int);
        let ghost line = all[k as int];
        assert(ls@[k as int]@ == line);
        assert(all.take(k + 1).filter(pred) == if pred(line) {
            before.filter(pred).push(line)
        } else {
            before.filter(pred)
        }) by {
            reveal_with_fuel(Seq::<_>::filter, 1);
            assert(all.take(k + 1).drop_last() =~= before);
            assert(all.take(k + 1).last() == line);
        }
        if contains_chars(&ls[k], &marker) {
            let l = string_from_chars(&ls[k]);
            let ghost old_res = res@;
            res.push(l);
            assert(str_views(res@) =~= str_views(old_res).push(line));
        }
        k = k + 1;
    }
    assert(all.take(ls@.len() as int) =~= all);
    res
}

/// Picks the Vulkan device index of the AMD GPU from the output of
/// `vulkaninfo --summary` (`None` when it could not be run).
pub fn gpu_device_index(summary: Option<&str>) -> (res: u32)
    requires
        match summary {
            Some(s) => device_lines(s@).len() <= u32::MAX,
            None => true,
        },
    ensures
        res as nat == spec_gpu_device_index(
            match summary {
                Some(s) => Some(s@),
                None => None,
            },
        ),
{
    match summary {
        None => 1,
        Some(s) => {
            let devices = device_lines_of(s);
            let ghost ds = str_views(devices@);
            let mut lowered: Vec<String> = Vec::new();
            let mut k: usize = 0;
            while k < devices.len()
                invariant
                    k <= devices.len(),
                    ds == str_views(devices@),
                    str_views(lowered@) == lowercase_all(ds).take(k as int),
                decreases devices.len() - k,
            {
                let low = to_lowercase(devices[k].as_str());
                let ghost old_low = lowered@;
                lowered.push(low);
                assert(ds[k as int] == devices@[k as int]@);
                assert(str_views(lowered@) =~= str_views(old_low).push(low@));
                assert(lowercase_all(ds).take(k + 1) =~= lowercase_all(ds).take(k as int).push(
                    lowercase_of(ds[k as int]),
                ));
                k = k + 1;
            }
            assert(lowercase_all(ds).take(k as int) =~= lowercase_all(ds));
            pick_device_index(&devices, &lowered)
        },
    }
}

// ---------------------------------------------------------------------------
// Laws of the cleaner
// ---------------------------------------------------------------------------
/// A bracket or a parenthesis.
pub open spec fn is_bracket(c: char) -> bool {
    c == '[' || c == ']' || c == '(' || c == ')'
}

/// No character of `s` is a bracket or a parenthesis.
pub open spec fn bracket_free(s: Seq<char>) -> bool {
    forall|i: int| 0 <= i < s.len() ==> !is_bracket(#[trigger] s[i])
}

proof fn lemma_strip_bracket_free(s: Seq<char>)
    ensures
        bracket_free(strip_bracketed(s)),
    decreases s.len(),
{
    if s.len() > 0 {
        lemma_strip_bracket_free(s.drop_last());
        let k = strip_bracketed(s);
        let k0 = strip_bracketed(s.drop_last());
        assert forall|i: int| 0 <= i < k.len() implies !is_bracket(#[trigger] k[i]) by {
            if i < k0.len() {
                assert(k[i] == k0[i]);
            }
        }
    }
}

proof fn lemma_strip_identity(s: Seq<char>)
    requires
        bracket_free(s),
    ensures
        bracket_scan(s) == (BracketScan { kept: s, square: 0, round: 0 }),
    decreases s.len(),
{
    if s.len() > 0 {
        let t = s.drop_last();
        assert(bracket_free(t)) by {
            assert forall|i: int| 0 <= i < t.len() implies !is_bracket(#[trigger] t[i]) by {
                assert(t[i] == s[i]);
            }
        }
        lemma_strip_identity(t);
        assert(!is_bracket(s[s.len() - 1]));
        let st = bracket_scan(t);
        assert(bracket_scan(s) == bracket_step(st, s.last()));
        assert(bracket_step(st, s.last()).kept =~= s);
    } else {
        assert(bracket_scan(s).kept =~= s);
    }
}

proof fn lemma_words_bracket_free(s: Seq<char>)
    requires
        bracket_free(s),
    ensures
        forall|k: int| 0 <= k < words(s).len() ==> bracket_free(#[trigger] words(s)[k]),
    decreases s.len(),
{
    if s.len() > 0 {
        let t = s.drop_last();
        assert(bracket_free(t)) by {
            assert forall|i: int| 0 <= i < t.len() implies !is_bracket(#[trigger] t[i]) by {
                assert(t[i] == s[i]);
            }
        }
        lemma_words_bracket_free(t);
        let w = words(t);
        let w2 = words(s);
        let c = s.last();
        assert(!is_bracket(s[s.len() - 1]));
        if is_white_space(c) {
            assert(w2 == w);
        } else if s.len() >= 2 && !is_white_space(s[s.len() - 2]) {
            assert(t.last() == s[s.len() - 2]);
            lemma_words_shape(t);
            assert(w.len() > 0);
            assert(bracket_free(w[w.len() - 1]));
            assert(bracket_free(w.last().push(c))) by {
                let q = w.last().push(c);
                assert forall|m: int| 0 <= m < q.len() implies !is_bracket(#[trigger] q[m]) by {
                    if m < w.last().len() {
                        assert(q[m] == w[w.len() - 1][m]);
                    }
                }
            }
            assert forall|k: int| 0 <= k < w2.len() implies bracket_free(#[trigger] w2[k]) by {
                if k < w.len() - 1 {
                    assert(w2[k] == w[k]);
                }
            }
        } else {
            assert(bracket_free(seq![c]));
            assert forall|k: int| 0 <= k < w2.len() implies bracket_free(#[trigger] w2[k]) by {
                if k < w.len() {
                    assert(w2[k] == w[k]);
                }
            }
        }
    }
}

proof fn lemma_join_bracket_free(ws: Seq<Seq<char>>)
    requires
        forall|k: int| 0 <= k < ws.len() ==> bracket_free(#[trigger] ws[k]),
    ensures
        bracket_free(join_with(ws, seq![' '])),
    decreases ws.len(),
{
    if ws.len() > 1 {
        lemma_join_bracket_free(ws.drop_last());
        let a = join_with(ws.drop_last(), seq![' ']);
        let j = join_with(ws, seq![' ']);
        assert(bracket_free(ws[ws.len() - 1]));
        assert forall|i: int| 0 <= i < j.len() implies !is_bracket(#[trigger] j[i]) by {
            if i < a.len() {
                assert(j[i] == a[i]);
            } else if i > a.len() {
                assert(j[i] == ws.last()[i - a.len() - 1]);
            }
        }
    } else if ws.len() == 1 {
        assert(bracket_free(ws[0]));
    }
}

/// The first and last characters of joined non-empty pieces are those of the
/// first and last pieces.
proof fn lemma_join_ends(ws: Seq<Seq<char>>)
    requires
        ws.len() > 0,
        forall|k: int| 0 <= k < ws.len() ==> #[trigger] ws[k].len() > 0,
    ensures
        join_with(ws, seq![' ']).len() > 0,
        join_with(ws, seq![' '])[0] == ws[0][0],
        join_with(ws, seq![' ']).last() == ws.last().last(),
    decreases ws.len(),
{
    assert(ws[0].len() > 0);
    assert(ws[ws.len() - 1].len() > 0);
    if ws.len() > 1 {
        lemma_join_ends(ws.drop_last());
    }
}

/// Collapsed text has no white space at either end.
proof fn lemma_collapse_trimmed(s: Seq<char>)
    ensures
        trim(collapse_white_space(s)) == collapse_white_space(s),
{
    let c = collapse_white_space(s);
    lemma_words_shape(s);
    let w = words(s);
    if w.len() > 0 {
        lemma_join_ends(w);
        assert(w[0].len() > 0 && !is_white_space(w[0][0]));
        assert(w[w.len() - 1].len() > 0);
        assert(!is_white_space(w[w.len() - 1][w[w.len() - 1].len() - 1]));
        assert(trim_start(c) == c);
        assert(trim_end(c) == c);
    }
}

/// A non-empty piece without white space is its own single word.
proof fn lemma_words_single(p: Seq<char>)
    requires
        p.len() > 0,
        forall|m: int| 0 <= m < p.len() ==> !is_white_space(#[trigger] p[m]),
    ensures
        words(p) == seq![p],
    decreases p.len(),
{
    if p.len() > 1 {
        assert(!is_white_space(p.drop_last()[p.len() - 2]));
        lemma_words_single(p.drop_last());
        assert(!is_white_space(p[p.len() - 2]));
        assert(!is_white_space(p[p.len() - 1]));
        assert(p.drop_last().push(p.last()) =~= p);
        assert(seq![p.drop_last()].update(0, p.drop_last().push(p.last())) =~= seq![p]);
        assert(words(p) =~= seq![p]);
    } else {
        assert(!is_white_space(p[0]));
        assert(p.drop_last() =~= Seq::<char>::empty());
        assert(words(p.drop_last()) =~= Seq::<Seq<char>>::empty());
        assert(seq![p.last()] =~= p);
        assert(words(p) =~= seq![p]);
    }
}

/// Appending a space and a word adds exactly that word.
proof fn lemma_words_append_word(a: Seq<char>, p: Seq<char>)
    requires
        p.len() > 0,
        forall|m: int| 0 <= m < p.len() ==> !is_white_space(#[trigger] p[m]),
    ensures
        words(a + seq![' '] + p) == words(a).push(p),
    decreases p.len(),
{
    let s = a + seq![' '] + p;
    assert(s.last() == p.last());
    assert(!is_white_space(p[p.len() - 1]));
    if p.len() == 1 {
        assert(s.drop_last() =~= a + seq![' ']);
        assert((a + seq![' ']).drop_last() =~= a);
        assert(is_white_space(' '));
        assert((a + seq![' ']).last() == ' ');
        assert(words(a + seq![' ']) == words(a));
        assert(s[s.len() - 2] == ' ');
        assert(seq![p.last()] =~= p);
        assert(words(s) =~= words(a).push(p));
    } else {
        let p0 = p.drop_last();
        assert(!is_white_space(p0[p0.len() - 1]));
        lemma_words_append_word(a, p0);
        assert(s.drop_last() =~= a + seq![' '] + p0);
        assert(s[s.len() - 2] == p[p.len() - 2]);
        assert(!is_white_space(p[p.len() - 2]));
        assert(p0.push(p.last()) =~= p);
        assert(words(a).push(p0).update(words(a).len() as int, p0.push(p.last())) =~= words(
            a,
        ).push(p));
        assert(words(s) =~= words(a).push(p));
    }
}

/// Splitting joined words gives the words back.
proof fn lemma_words_of_join(ws: Seq<Seq<char>>)
    requires
        forall|k: int| 0 <= k < ws.len() ==> #[trigger] ws[k].len() > 0,
        forall|k: int, m: int|
            0 <= k < ws.len() && 0 <= m < ws[k].len() ==> !is_white_space(#[trigger] ws[k][m]),
    ensures
        words(join_with(ws, seq![' '])) == ws,
    decreases ws.len(),
{
    if ws.len() == 1 {
        assert(ws[0].len() > 0);
        assert forall|m: int| 0 <= m < ws[0].len() implies !is_white_space(#[trigger] ws[0][m]) by {
            assert(!is_white_space(ws[0][m]));
        }
        lemma_words_single(ws[0]);
        assert(seq![ws[0]] =~= ws);
    } else if ws.len() > 1 {
        let init = ws.drop_last();
        assert forall|k: int, m: int|
            0 <= k < init.len() && 0 <= m < init[k].len() implies !is_white_space(
            #[trigger] init[k][m],
        ) by {
            assert(init[k] == ws[k]);
        }
        assert forall|k: int| 0 <= k < init.len() implies #[trigger] init[k].len() > 0 by {
            assert(init[k] == ws[k]);
        }
        lemma_words_of_join(init);
        let p = ws.last();
        assert(p.len() > 0);
        assert forall|m: int| 0 <= m < p.len() implies !is_white_space(#[trigger] p[m]) by {
            assert(!is_white_space(ws[ws.len() - 1][m]));
        }
        lemma_words_append_word(join_with(init, seq![' ']), p);
        assert(init.push(p) =~= ws);
    } else {
        assert(join_with(ws, seq![' ']) =~= Seq::<char>::empty());
    }
}

/// Collapsing already collapsed text changes nothing.
proof fn lemma_collapse_idempotent(s: Seq<char>)
    ensures
        collapse_white_space(collapse_white_space(s)) == collapse_white_space(s),
{
    lemma_words_shape(s);
    lemma_words_of_join(words(s));
}

/// Cleaning is idempotent: a cleaned transcript is already clean.
pub proof fn law_clean_whisper_text_idempotent(text: Seq<char>)
    ensures
        spec_clean_whisper_text(spec_clean_whisper_text(text)) == spec_clean_whisper_text(text),
{
    let z = strip_bracketed(text);
    let y = collapse_white_space(z);
    lemma_collapse_trimmed(z);
    assert(spec_clean_whisper_text(text) == y);
    lemma_strip_bracket_free(text);
    lemma_words_bracket_free(z);
    lemma_join_bracket_free(words(z));
    lemma_strip_identity(y);
    assert(strip_bracketed(y) == y);
    lemma_collapse_idempotent(z);
}

/// A cleaned transcript holds no bracket or parenthesis, no white space at
/// either end, and no white space other than single spaces between words.
pub proof fn law_clean_whisper_text_shape(text: Seq<char>)
    ensures
        bracket_free(spec_clean_whisper_text(text)),
        spec_clean_whisper_text(text) == join_with(
            words(strip_bracketed(text)),
            seq![' '],
        ),
        forall|k: int|
            0 <= k < words(strip_bracketed(text)).len() ==> bracket_free(
                #[trigger] words(strip_bracketed(text))[k],
            ),
{
    let z = strip_bracketed(text);
    lemma_collapse_trimmed(z);
    lemma_strip_bracket_free(text);
    lemma_words_bracket_free(z);
    lemma_join_bracket_free(words(z));
}

/// Scanning `x` and then `z`, when `x` closes every bracket it opens, keeps
/// what each scan keeps alone and ends at the depths of `z`'s scan.
proof fn lemma_scan_concat(x: Seq<char>, z: Seq<char>)
    requires
        bracket_scan(x).square == 0,
        bracket_scan(x).round == 0,
    ensures
        bracket_scan(x + z) == (BracketScan {
            kept: bracket_scan(x).kept + bracket_scan(z).kept,
            square: bracket_scan(z).square,
            round: bracket_scan(z).round,
        }),
    decreases z.len(),
{
    if z.len() == 0 {
        assert(x + z =~= x);
        assert(bracket_scan(x).kept + bracket_scan(z).kept =~= bracket_scan(x).kept);
    } else {
        let z0 = z.drop_last();
        assert((x + z).drop_last() =~= x + z0);
        assert((x + z).last() == z.last());
        lemma_scan_concat(x, z0);
        let c = z.last();
        let kx = bracket_scan(x).kept;
        let kz = bracket_scan(z0).kept;
        assert((kx + kz).push(c) =~= kx + kz.push(c));
    }
}

/// Removing the annotations of `x`, a space and `y`, when `x` closes every
/// bracket it opens, removes them from each part on its own.
proof fn lemma_strip_space_join(x: Seq<char>, y: Seq<char>)
    requires
        bracket_scan(x).square == 0,
        bracket_scan(x).round == 0,
    ensures
        strip_bracketed(x + seq![' '] + y) == strip_bracketed(x) + seq![' '] + strip_bracketed(y),
{
    let sp = seq![' '];
    assert(sp.drop_last() =~= Seq::<char>::empty());
    assert(bracket_scan(sp) == bracket_step(bracket_scan(Seq::<char>::empty()), ' '));
    assert(bracket_scan(sp).kept =~= sp);
    lemma_scan_concat(sp, y);
    lemma_scan_concat(x, sp + y);
    assert(x + sp + y =~= x + (sp + y));
    assert(strip_bracketed(x) + (sp + strip_bracketed(y)) =~= strip_bracketed(x) + sp
        + strip_bracketed(y));
}

/// The words of `a`, a space and `b` are the words of `a` and then those of `b`.
proof fn lemma_words_space_join(a: Seq<char>, b: Seq<char>)
    ensures
        words(a + seq![' '] + b) == words(a) + words(b),
    decreases b.len(),
{
    let s = a + seq![' '] + b;
    assert(is_white_space(' '));
    if b.len() == 0 {
        assert(s =~= a + seq![' ']);
        assert(s.drop_last() =~= a);
        assert(words(b) =~= Seq::<Seq<char>>::empty());
        assert(words(a) + words(b) =~= words(a));
    } else {
        let b0 = b.drop_last();
        let c = b.last();
        assert(s.drop_last() =~= a + seq![' '] + b0);
        assert(s.last() == c);
        lemma_words_space_join(a, b0);
        let wa = words(a);
        let wb = words(b0);
        if is_white_space(c) {
        } else if b0.len() > 0 && !is_white_space(b0.last()) {
            assert(s[s.len() - 2] == b0.last());
            assert(b[b.len() - 2] == b0.last());
            lemma_words_shape(b0);
            assert(wb.len() > 0);
            assert((wa + wb).last() == wb.last());
            assert((wa + wb).update((wa + wb).len() - 1, wb.last().push(c)) =~= wa + wb.update(
                wb.len() - 1,
                wb.last().push(c),
            ));
        } else {
            if b0.len() > 0 {
                assert(b[b.len() - 2] == b0.last());
                assert(s[s.len() - 2] == b0.last());
            } else {
                assert(s[s.len() - 2] == ' ');
            }
            assert((wa + wb).push(seq![c]) =~= wa + wb.push(seq![c]));
        }
    }
}

/// Joining two non-empty lists of pieces joins the two joins with a space.
proof fn lemma_join_concat(w1: Seq<Seq<char>>, w2: Seq<Seq<char>>)
    requires
        w1.len() > 0,
        w2.len() > 0,
    ensures
        join_with(w1 + w2, seq![' ']) == join_with(w1, seq![' ']) + seq![' '] + join_with(
            w2,
            seq![' '],
        ),
    decreases w2.len(),
{
    let sp = seq![' '];
    assert((w1 + w2).drop_last() =~= w1 + w2.drop_last());
    assert((w1 + w2).last() == w2.last());
    if w2.len() == 1 {
        assert(w2.drop_last() =~= Seq::<Seq<char>>::empty());
        assert(w1 + w2.drop_last() =~= w1);
        assert(w2.last() == w2[0]);
    } else {
        lemma_join_concat(w1, w2.drop_last());
        let j1 = join_with(w1, sp);
        let j2 = join_with(w2.drop_last(), sp);
        assert(j1 + sp + j2 + sp + w2.last() =~= j1 + sp + (j2 + sp + w2.last()));
    }
}

/// A cleaned text is the collapsed text that is left once the annotations
/// are removed; it is empty exactly when no word is left.
proof fn lemma_clean_as_join(s: Seq<char>)
    ensures
        spec_clean_whisper_text(s) == join_with(words(strip_bracketed(s)), seq![' ']),
        spec_clean_whisper_text(s).len() == 0 <==> words(strip_bracketed(s)).len() == 0,
{
    let z = strip_bracketed(s);
    lemma_collapse_trimmed(z);
    lemma_words_shape(z);
    if words(z).len() > 0 {
        lemma_join_ends(words(z));
    }
}

/// Cleaning a space-joined pair cleans each part: when `x` closes every
/// bracket and parenthesis it opens, cleaning `x`, a space and `y` gives the
/// cleaned parts that are not empty, joined by a single space.
pub proof fn law_clean_whisper_text_space_join(x: Seq<char>, y: Seq<char>)
    requires
        bracket_scan(x).square == 0,
        bracket_scan(x).round == 0,
    ensures
        spec_clean_whisper_text(x + seq![' '] + y) == if spec_clean_whisper_text(x).len() == 0 {
            spec_clean_whisper_text(y)
        } else if spec_clean_whisper_text(y).len() == 0 {
            spec_clean_whisper_text(x)
        } else {
            spec_clean_whisper_text(x) + seq![' '] + spec_clean_whisper_text(y)
        },
{
    let sx = strip_bracketed(x);
    let sy = strip_bracketed(y);
    lemma_strip_space_join(x, y);
    lemma_words_space_join(sx, sy);
    lemma_clean_as_join(x);
    lemma_clean_as_join(y);
    lemma_clean_as_join(x + seq![' '] + y);
    let wx = words(sx);
    let wy = words(sy);
    if wx.len() == 0 {
        assert(wx + wy =~= wy);
    } else if wy.len() == 0 {
        assert(wx + wy =~= wx);
    } else {
        lemma_join_concat(wx, wy);
    }
}

} // verus!
