use vstd::prelude::*;

verus! {

/// The two shortcut backends: the session-wide key grab of X11, and the
/// global-shortcuts portal of Wayland sessions.
#[derive(Clone, Copy, Debug, PartialEq, Eq, Structural)]
pub enum Backend {
    X11,
    Wayland,
}

/// The backend for a session type: `x11` and `wayland` are known; any other
/// value is a configuration error.
pub open spec fn backend_of(session_type: Seq<char>) -> Option<Backend> {
    if session_type == "x11"@ {
        Some(Backend::X11)
    } else if session_type == "wayland"@ {
        Some(Backend::Wayland)
    } else {
        None
    }
}

/// Whether two strings hold the same characters.
pub fn same_text(a: &str, b: &str) -> (r: bool)
    ensures
        r == (a@ == b@),
{
    let n = a.unicode_len();
    if n != b.unicode_len() {
        return false;
    }
    let mut i: usize = 0;
    while i < n
        invariant
            n == a@.len(),
            n == b@.len(),
            i <= n,
            forall|j: int| 0 <= j < i ==> a@[j] == b@[j],
        decreases n - i,
    {
        if a.get_char(i) != b.get_char(i) {
            return false;
        }
        i = i + 1;
    }
    assert(a@ =~= b@);
    true
}

/// The backend that serves a session of type `session_type`; `None` for a
/// session type that no backend serves.
pub fn select_backend(session_type: &str) -> (r: Option<Backend>)
    ensures
        r == backend_of(session_type@),
{
    if same_text(session_type, "x11") {
        Some(Backend::X11)
    } else if same_text(session_type, "wayland") {
        Some(Backend::Wayland)
    } else {
        None
    }
}

} // verus!
