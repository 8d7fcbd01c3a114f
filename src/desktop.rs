//! The platform family and the classification of the desktop session.
use vstd::prelude::*;
use crate::text::{chars_of, contains, contains_exec};

verus! {

/// The platform family that the library was built for.
#[derive(Debug, Clone, Copy, PartialEq, Eq, Structural)]
pub enum Platform {
    Linux,
    MacOS,
}

/// The kind of graphical session that is running.
#[derive(Debug, Clone, PartialEq, Eq)]
pub enum DesktopEnv {
    Gnome,
    Kde,
    Lxde,
    Openbox,
    I3,
    Ubuntu,
    /// The macOS desktop.
    Aqua,
    /// A session that none of the other variants names, with the signal as
    /// it was read.
    Unknown(String),
}

/// The platform family: `MacOS` for a macOS build, `Linux` otherwise.
pub fn platform(macos: bool) -> (r: Platform)
    ensures
        r == (if macos {
            Platform::MacOS
        } else {
            Platform::Linux
        }),
{
    if macos {
        Platform::MacOS
    } else {
        Platform::Linux
    }
}

/// What `str::to_uppercase` makes of a text.
pub uninterp spec fn upper_text(s: Seq<char>) -> Seq<char>;

/// Relies on `str::to_uppercase`: the uppercase mapping of the text, a
/// function of the text alone.
#[verifier::external_body]
fn to_uppercase(s: &str) -> (r: String)
    ensures
        r@ == upper_text(s@),
{
    s.to_uppercase()
}

/// The session kind that an uppercased session name marks, trying the
/// markers in this fixed order, first match winning: `GNOME`, `LXDE`,
/// `OPENBOX`, `I3`, `UBUNTU`, `PLASMA5`.
pub open spec fn marker_class(upper: Seq<char>) -> Option<DesktopEnv> {
    if contains(upper, "GNOME"@) {
        Some(DesktopEnv::Gnome)
    } else if contains(upper, "LXDE"@) {
        Some(DesktopEnv::Lxde)
    } else if contains(upper, "OPENBOX"@) {
        Some(DesktopEnv::Openbox)
    } else if contains(upper, "I3"@) {
        Some(DesktopEnv::I3)
    } else if contains(upper, "UBUNTU"@) {
        Some(DesktopEnv::Ubuntu)
    } else if contains(upper, "PLASMA5"@) {
        Some(DesktopEnv::Kde)
    } else {
        None
    }
}

/// `r` is `Unknown` and carries the text `s`.
pub open spec fn is_unknown_with(r: DesktopEnv, s: Seq<char>) -> bool {
    r matches DesktopEnv::Unknown(t) && t@ == s
}

/// The session kind that a session signal names on a platform without a
/// fixed desktop: `Unknown("Unknown")` without a signal, the first marker
/// that the uppercased signal holds, or `Unknown` with the signal unchanged.
pub open spec fn session_class(r: DesktopEnv, session: Option<Seq<char>>) -> bool {
    match session {
        None => is_unknown_with(r, "Unknown"@),
        Some(s) => match marker_class(upper_text(s)) {
            Some(k) => r == k,
            None => is_unknown_with(r, s),
        },
    }
}

/// Classifies the desktop session. On macOS it is always `Aqua`; elsewhere
/// `session` is the session signal read from the environment, if any.
pub fn desktop_env(platform: Platform, session: Option<&str>) -> (r: DesktopEnv)
    ensures
        platform == Platform::MacOS ==> r == DesktopEnv::Aqua,
        platform == Platform::Linux ==> session_class(
            r,
            match session {
                Some(s) => Some(s@),
                None => None,
            },
        ),
{
    if platform == Platform::MacOS {
        return DesktopEnv::Aqua;
    }
    match session {
        Some(env_orig) => {
            let upper = to_uppercase(env_orig);
            let env = chars_of(upper.as_str());
            if contains_exec(&env, &chars_of("GNOME")) {
                DesktopEnv::Gnome
            } else if contains_exec(&env, &chars_of("LXDE")) {
                DesktopEnv::Lxde
            } else if contains_exec(&env, &chars_of("OPENBOX")) {
                DesktopEnv::Openbox
            } else if contains_exec(&env, &chars_of("I3")) {
                DesktopEnv::I3
            } else if contains_exec(&env, &chars_of("UBUNTU")) {
                DesktopEnv::Ubuntu
            } else if contains_exec(&env, &chars_of("PLASMA5")) {
                DesktopEnv::Kde
            } else {
                DesktopEnv::Unknown(String::from_str(env_orig))
            }
        },
        None => DesktopEnv::Unknown(String::from_str("Unknown")),
    }
}

/// `a` and `b` are the same session kind, an `Unknown` one with the same text.
pub open spec fn same_desktop(a: DesktopEnv, b: DesktopEnv) -> bool {
    match (a, b) {
        (DesktopEnv::Unknown(x), DesktopEnv::Unknown(y)) => x@ == y@,
        _ => a == b,
    }
}

/// Classifying the same session signal twice gives the same kind: the
/// classification is fixed by the signal alone.
pub proof fn lemma_desktop_env_repeats(
    session: Option<Seq<char>>,
    first: DesktopEnv,
    second: DesktopEnv,
)
    requires
        session_class(first, session),
        session_class(second, session),
    ensures
        same_desktop(first, second),
{
}

} // verus!
