//! Clipboard and paste automation decisions: which Wayland display to use,
//! the environment of the clipboard tool, and the paste keystroke.
use vstd::prelude::*;
use vstd::string::StringExecFns;
use crate::fix::strs;
use crate::text::{decimal, decimal_chars, string_from_chars};

verus! {

/// The client's Wayland display: the real one saved before switching to
/// Xwayland, else the current one.
pub fn choose_display(real_wayland_display: Option<String>, wayland_display: Option<String>) -> (res:
    Option<String>)
    ensures
        res == match real_wayland_display {
            Some(d) => Some(d),
            None => wayland_display,
        },
{
    match real_wayland_display {
        Some(d) => Some(d),
        None => wayland_display,
    }
}

pub open spec fn pair_view(p: (String, String)) -> (Seq<char>, Seq<char>) {
    (p.0@, p.1@)
}

/// The environment the daemon gives `wl-copy`: the display the client
/// named, or `wayland-0` when neither the client nor the daemon's own
/// environment names one; and a runtime directory when the daemon has none.
pub open spec fn spec_clipboard_env(
    requested_display: Option<Seq<char>>,
    has_wayland_display: bool,
    has_runtime_dir: bool,
) -> Seq<(Seq<char>, Seq<char>)> {
    (match requested_display {
        Some(d) => seq![("WAYLAND_DISPLAY"@, d)],
        None => if has_wayland_display {
            seq![]
        } else {
            seq![("WAYLAND_DISPLAY"@, "wayland-0"@)]
        },
    }) + if has_runtime_dir {
        seq![]
    } else {
        seq![("XDG_RUNTIME_DIR"@, "/run/user/1000"@)]
    }
}

pub fn clipboard_env(
    requested_display: Option<String>,
    has_wayland_display: bool,
    has_runtime_dir: bool,
) -> (res: Vec<(String, String)>)
    ensures
        res@.map_values(|p: (String, String)| pair_view(p)) == spec_clipboard_env(
            crate::protocol::opt_str_view(requested_display),
            has_wayland_display,
            has_runtime_dir,
        ),
{
    let ghost req = crate::protocol::opt_str_view(requested_display);
    let mut res: Vec<(String, String)> = Vec::new();
    match requested_display {
        Some(d) => {
            res.push((String::from_str("WAYLAND_DISPLAY"), d));
        },
        None => {
            if !has_wayland_display {
                res.push((String::from_str("WAYLAND_DISPLAY"), String::from_str("wayland-0")));
            }
        },
    }
    if !has_runtime_dir {
        res.push((String::from_str("XDG_RUNTIME_DIR"), String::from_str("/run/user/1000")));
    }
    assert(res@.map_values(|p: (String, String)| pair_view(p)) =~= spec_clipboard_env(
        req,
        has_wayland_display,
        has_runtime_dir,
    ));
    res
}

/// The `ydotool` arguments that press and release Ctrl+V (key codes 29 and 47).
pub open spec fn spec_paste_keystroke_args() -> Seq<Seq<char>> {
    seq!["key"@, "29:1"@, "47:1"@, "47:0"@, "29:0"@]
}

pub fn paste_keystroke_args() -> (res: Vec<String>)
    ensures
        strs(res@) == spec_paste_keystroke_args(),
{
    let res = vec![
        String::from_str("key"),
        String::from_str("29:1"),
        String::from_str("47:1"),
        String::from_str("47:0"),
        String::from_str("29:0"),
    ];
    assert(strs(res@) =~= spec_paste_keystroke_args());
    res
}

/// The socket on which the `ydotool` daemon listens.
pub const YDOTOOL_SOCKET: &'static str = "/tmp/.ydotool_socket";

/// The `kill` arguments that terminate a client at once.
pub fn kill_args(pid: u32) -> (res: Vec<String>)
    ensures
        strs(res@) == seq!["-9"@, decimal(pid as nat)],
{
    let res = vec![String::from_str("-9"), string_from_chars(&decimal_chars(pid as u64))];
    assert(strs(res@) =~= seq!["-9"@, decimal(pid as nat)]);
    res
}

/// How long the client waits for `wl-copy` before falling back, in nanoseconds (150 ms).
pub const WL_COPY_WAIT_NS: u64 = 150_000_000;

/// What the client saw of `wl-copy` so far.
#[derive(Clone, Copy, PartialEq, Eq, Debug)]
pub enum CopyProgress {
    /// It exited, successfully or not.
    Exited { success: bool },
    /// It is still running.
    Running,
    /// Its state could not be queried.
    QueryFailed,
}

/// What the client does next.
#[derive(Clone, Copy, PartialEq, Eq, Debug)]
pub enum CopyDecision {
    /// The text is on the clipboard.
    Copied,
    /// Ask again after 10 ms.
    WaitMore,
    /// Use the fallback clipboard.
    Fallback,
}

/// Waits for `wl-copy` for at most 150 ms (`elapsed_ns` is the time since it
/// was started, in nanoseconds); anything but a successful exit falls back to
/// the other clipboard.
pub fn copy_decision(progress: CopyProgress, elapsed_ns: u64) -> (res: CopyDecision)
    ensures
        res == match progress {
            CopyProgress::Exited { success } => if success {
                CopyDecision::Copied
            } else {
                CopyDecision::Fallback
            },
            CopyProgress::Running => if elapsed_ns > WL_COPY_WAIT_NS {
                CopyDecision::Fallback
            } else {
                CopyDecision::WaitMore
            },
            CopyProgress::QueryFailed => CopyDecision::Fallback,
        },
{
    match progress {
        CopyProgress::Exited { success } => if success {
            CopyDecision::Copied
        } else {
            CopyDecision::Fallback
        },
        CopyProgress::Running => if elapsed_ns > WL_COPY_WAIT_NS {
            CopyDecision::Fallback
        } else {
            CopyDecision::WaitMore
        },
        CopyProgress::QueryFailed => CopyDecision::Fallback,
    }
}

/// The `wl-copy` environment: the runtime directory `/run/user/1000` is set
/// exactly when the daemon has none, whatever display is asked for; the
/// display is the one the client named, else `wayland-0` when the daemon has
/// none of its own, else left as it is; nothing else is set.
pub proof fn law_clipboard_env(
    requested_display: Option<Seq<char>>,
    has_wayland_display: bool,
    has_runtime_dir: bool,
)
    ensures
        ({
            let env = spec_clipboard_env(requested_display, has_wayland_display, has_runtime_dir);
            let display: Option<Seq<char>> = match requested_display {
                Some(d) => Some(d),
                None => if has_wayland_display {
                    None
                } else {
                    Some("wayland-0"@)
                },
            };
            &&& env.contains(("XDG_RUNTIME_DIR"@, "/run/user/1000"@)) <==> !has_runtime_dir
            &&& forall|v: Seq<char>|
                env.contains(("WAYLAND_DISPLAY"@, v)) <==> display == Some(v)
            &&& env.len() == (if display is Some {
                1int
            } else {
                0int
            }) + (if has_runtime_dir {
                0int
            } else {
                1int
            })
        }),
{
    reveal_strlit("XDG_RUNTIME_DIR");
    reveal_strlit("WAYLAND_DISPLAY");
    reveal_strlit("/run/user/1000");
    reveal_strlit("wayland-0");
    let env = spec_clipboard_env(requested_display, has_wayland_display, has_runtime_dir);
    let xdg = ("XDG_RUNTIME_DIR"@, "/run/user/1000"@);
    assert("XDG_RUNTIME_DIR"@[0] != "WAYLAND_DISPLAY"@[0]);
    assert("XDG_RUNTIME_DIR"@ != "WAYLAND_DISPLAY"@);
    let display: Option<Seq<char>> = match requested_display {
        Some(d) => Some(d),
        None => if has_wayland_display {
            None
        } else {
            Some("wayland-0"@)
        },
    };
    if !has_runtime_dir {
        assert(env[env.len() - 1] == xdg);
    } else {
        assert forall|i: int| 0 <= i < env.len() implies env[i] != xdg by {
            assert(env[i].0 == "WAYLAND_DISPLAY"@);
        }
    }
    assert forall|v: Seq<char>| env.contains(("WAYLAND_DISPLAY"@, v)) <==> display == Some(v) by {
        if display == Some(v) {
            assert(env[0] == ("WAYLAND_DISPLAY"@, v));
        }
        if env.contains(("WAYLAND_DISPLAY"@, v)) {
            let i = choose|i: int| 0 <= i < env.len() && env[i] == ("WAYLAND_DISPLAY"@, v);
            if display is Some {
                if i > 0 {
                    assert(env[i].0 == "XDG_RUNTIME_DIR"@);
                }
            } else {
                assert(env[i].0 == "XDG_RUNTIME_DIR"@);
            }
        }
    }
}

/// `copy_decision` waits for `wl-copy` for 150 ms (150 000 000 ns) at most.
pub proof fn law_copy_wait_limit()
    ensures
        WL_COPY_WAIT_NS == 150_000_000,
{
}

} // verus!
