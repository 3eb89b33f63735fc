//! Backend arbitration: classifying the desktop session and choosing
//! exactly one global-shortcut backend, plus the protocol-version query
//! parsing and the version gate of the configuration dialog.

use vstd::prelude::*;
use vstd::string::{StrSliceExecFns, StringExecFns};

use crate::errors::ShortcutError;
use crate::text;

verus! {

/// Backend for global keyboard shortcuts.
#[derive(Debug, Clone, Copy, PartialEq, Eq, Structural)]
pub enum ShortcutBackend {
    /// In-process hotkey registration; works where the display session
    /// delivers key events directly (X11 and similar).
    TauriPlugin,
    /// Global shortcuts negotiated through the desktop portal protocol
    /// (Wayland sessions whose portal service supports it).
    PortalGlobalShortcuts,
    /// No automatic registration: the user configures the compositor to
    /// run the secondary `--toggle` invocation.
    CLIFallback,
}

/// What the current system is capable of: the chosen backend and the
/// compositor (desktop) name it was chosen for.
pub struct ShortcutCapability {
    pub backend: ShortcutBackend,
    pub compositor: String,
}

/// Backend info in the form the UI consumes.
#[derive(Debug, Clone)]
pub struct ShortcutBackendInfo {
    pub backend: String,
    pub requires_restart: bool,
    pub compositor: String,
    pub portal_version: u32,
}

/// The backend that a session with the given signals gets: a Wayland
/// session takes the portal protocol when the probe reports support and
/// steps down to the CLI fallback otherwise; everything else (X11 or
/// unknown) takes the in-process plugin.
pub open spec fn spec_select(
    session_type: Seq<char>,
    wayland_display: bool,
    portal_available: bool,
) -> ShortcutBackend {
    if session_type == "wayland"@ || wayland_display {
        if portal_available {
            ShortcutBackend::PortalGlobalShortcuts
        } else {
            ShortcutBackend::CLIFallback
        }
    } else {
        ShortcutBackend::TauriPlugin
    }
}

/// Chooses the shortcut backend from the session signals alone.
pub fn select_backend(session_type: &str, wayland_display: bool, portal_available: bool) -> (r:
    ShortcutBackend)
    ensures
        r == spec_select(session_type@, wayland_display, portal_available),
{
    if text::str_eq(session_type, "wayland") || wayland_display {
        if portal_available {
            ShortcutBackend::PortalGlobalShortcuts
        } else {
            ShortcutBackend::CLIFallback
        }
    } else {
        ShortcutBackend::TauriPlugin
    }
}

/// The desktop name reported to the user: the first of the two session
/// signals that is present, and "Unknown" where neither is.
pub open spec fn spec_compositor_name(
    current_desktop: Option<Seq<char>>,
    desktop_session: Option<Seq<char>>,
) -> Seq<char> {
    match current_desktop {
        Option::Some(d) => d,
        Option::None => match desktop_session {
            Option::Some(d) => d,
            Option::None => "Unknown"@,
        },
    }
}

/// Resolves the compositor name from the two desktop-name signals.
pub fn compositor_name(current_desktop: Option<String>, desktop_session: Option<String>) -> (r:
    String)
    ensures
        r@ == spec_compositor_name(
            match current_desktop {
                Option::Some(ref d) => Option::Some(d@),
                Option::None => Option::None,
            },
            match desktop_session {
                Option::Some(ref d) => Option::Some(d@),
                Option::None => Option::None,
            },
        ),
{
    match current_desktop {
        Option::Some(d) => d,
        Option::None => match desktop_session {
            Option::Some(d) => d,
            Option::None => String::from_str("Unknown"),
        },
    }
}

/// Detects the best shortcut backend for the session described by the
/// given signals. On the Wayland path the compositor field carries the
/// detected desktop name; on the other path it is "X11".
pub fn detect_backend(
    session_type: &str,
    wayland_display: bool,
    portal_available: bool,
    desktop_name: String,
) -> (r: ShortcutCapability)
    ensures
        r.backend == spec_select(session_type@, wayland_display, portal_available),
        session_type@ == "wayland"@ || wayland_display ==> r.compositor@ == desktop_name@,
        !(session_type@ == "wayland"@ || wayland_display) ==> r.compositor@ == "X11"@,
{
    if text::str_eq(session_type, "wayland") || wayland_display {
        if portal_available {
            ShortcutCapability {
                backend: ShortcutBackend::PortalGlobalShortcuts,
                compositor: desktop_name,
            }
        } else {
            ShortcutCapability { backend: ShortcutBackend::CLIFallback, compositor: desktop_name }
        }
    } else {
        ShortcutCapability {
            backend: ShortcutBackend::TauriPlugin,
            compositor: String::from_str("X11"),
        }
    }
}

/// The display name of a backend, as shown to the UI.
pub open spec fn spec_backend_name(b: ShortcutBackend) -> Seq<char> {
    match b {
        ShortcutBackend::TauriPlugin => "TauriPlugin"@,
        ShortcutBackend::PortalGlobalShortcuts => "PortalGlobalShortcuts"@,
        ShortcutBackend::CLIFallback => "CLIFallback"@,
    }
}

/// Renders the backend kind for UI consumption.
pub fn backend_name(b: ShortcutBackend) -> (r: String)
    ensures
        r@ == spec_backend_name(b),
{
    match b {
        ShortcutBackend::TauriPlugin => String::from_str("TauriPlugin"),
        ShortcutBackend::PortalGlobalShortcuts => String::from_str("PortalGlobalShortcuts"),
        ShortcutBackend::CLIFallback => String::from_str("CLIFallback"),
    }
}

/// Builds the read-only backend info for the UI. Only the portal backend
/// carries a protocol version; every other backend reports 0. Only the
/// in-process plugin can re-register live, so every other backend
/// requires a restart on change.
pub fn get_backend_info(capability: ShortcutCapability, portal_version: u32) -> (r:
    ShortcutBackendInfo)
    ensures
        r.backend@ == spec_backend_name(capability.backend),
        r.requires_restart == (capability.backend != ShortcutBackend::TauriPlugin),
        r.compositor@ == capability.compositor@,
        capability.backend is PortalGlobalShortcuts ==> r.portal_version == portal_version,
        !(capability.backend is PortalGlobalShortcuts) ==> r.portal_version == 0,
{
    let version: u32 = match capability.backend {
        ShortcutBackend::PortalGlobalShortcuts => portal_version,
        _ => 0,
    };
    ShortcutBackendInfo {
        backend: backend_name(capability.backend),
        requires_restart: capability.backend != ShortcutBackend::TauriPlugin,
        compositor: capability.compositor,
        portal_version: version,
    }
}

/// Whether a shortcut change under this backend takes effect only after
/// a restart: true for every backend but the in-process plugin.
pub fn update_needs_restart(b: ShortcutBackend) -> (r: bool)
    ensures
        r == (b != ShortcutBackend::TauriPlugin),
{
    match b {
        ShortcutBackend::TauriPlugin => false,
        _ => true,
    }
}

/// The capability probe against the desktop's service directory reports
/// support exactly when the introspection output names the
/// global-shortcuts interface.
pub fn probe_reports_shortcuts(introspection: &str) -> (r: bool)
    ensures
        r == text::contains_seq(introspection@, "GlobalShortcuts"@),
{
    text::str_contains(introspection, "GlobalShortcuts")
}

/// The compositor family, deciding which manual-configuration
/// instructions the CLI fallback shows.
#[derive(Debug, Clone, Copy, PartialEq, Eq, Structural)]
pub enum CompositorFamily {
    Gnome,
    KdePlasma,
    Sway,
    Hyprland,
    Other,
}

/// Which family a compositor name falls in, tested case-insensitively
/// and in this order.
pub open spec fn spec_compositor_family(name: Seq<char>) -> CompositorFamily {
    let l = text::lower_seq(name);
    if text::contains_seq(l, "gnome"@) {
        CompositorFamily::Gnome
    } else if text::contains_seq(l, "kde"@) || text::contains_seq(l, "plasma"@) {
        CompositorFamily::KdePlasma
    } else if text::contains_seq(l, "sway"@) {
        CompositorFamily::Sway
    } else if text::contains_seq(l, "hyprland"@) {
        CompositorFamily::Hyprland
    } else {
        CompositorFamily::Other
    }
}

/// Classifies a compositor name for the CLI fallback instructions.
pub fn classify_compositor(name: &str) -> (r: CompositorFamily)
    ensures
        r == spec_compositor_family(name@),
{
    let l = text::to_ascii_lower(name);
    if text::str_contains(l.as_str(), "gnome") {
        CompositorFamily::Gnome
    } else if text::str_contains(l.as_str(), "kde") || text::str_contains(l.as_str(), "plasma") {
        CompositorFamily::KdePlasma
    } else if text::str_contains(l.as_str(), "sway") {
        CompositorFamily::Sway
    } else if text::str_contains(l.as_str(), "hyprland") {
        CompositorFamily::Hyprland
    } else {
        CompositorFamily::Other
    }
}

/// ASCII whitespace, as the version-query output uses it.
pub open spec fn is_ws(c: char) -> bool {
    c == ' ' || c == '\t' || c == '\n' || c == '\r'
}

/// A decimal digit.
pub open spec fn is_digit(c: char) -> bool {
    '0' <= c && c <= '9'
}

/// Every character of `s` is a decimal digit.
pub open spec fn all_digits(s: Seq<char>) -> bool {
    forall|i: int| 0 <= i < s.len() ==> is_digit(s[i])
}

/// `s` without its trailing whitespace.
pub open spec fn strip_trailing_ws(s: Seq<char>) -> Seq<char>
    decreases s.len(),
{
    if s.len() > 0 && is_ws(s.last()) {
        strip_trailing_ws(s.drop_last())
    } else {
        s
    }
}

/// The longest suffix of `s` holding no whitespace.
pub open spec fn nonws_suffix(s: Seq<char>) -> Seq<char>
    decreases s.len(),
{
    if s.len() > 0 && !is_ws(s.last()) {
        nonws_suffix(s.drop_last()).push(s.last())
    } else {
        Seq::empty()
    }
}

/// The value of a digit sequence read in base 10.
pub open spec fn digits_value(s: Seq<char>) -> int
    decreases s.len(),
{
    if s.len() == 0 {
        0
    } else {
        digits_value(s.drop_last()) * 10 + (s.last() as int - '0' as int)
    }
}

/// What the version-property query yields from its raw output: the last
/// whitespace-separated token, read as a decimal number; an absent token,
/// a non-numeric token or one beyond `u32` yields 0, meaning "protocol
/// unavailable".
pub open spec fn spec_portal_version(s: Seq<char>) -> u32 {
    let t = nonws_suffix(strip_trailing_ws(s));
    if t.len() > 0 && all_digits(t) && digits_value(t) <= u32::MAX {
        digits_value(t) as u32
    } else {
        0
    }
}

proof fn lemma_digits_value_nonneg(t: Seq<char>)
    requires
        all_digits(t),
    ensures
        digits_value(t) >= 0,
    decreases t.len(),
{
    if t.len() > 0 {
        assert(all_digits(t.drop_last())) by {
            assert(forall|i: int| 0 <= i < t.len() - 1 ==> t.drop_last()[i] == t[i]);
        }
        lemma_digits_value_nonneg(t.drop_last());
    }
}

proof fn lemma_digits_value_prefix(t: Seq<char>, k: int)
    requires
        all_digits(t),
        0 <= k <= t.len(),
    ensures
        digits_value(t.take(k)) <= digits_value(t),
    decreases t.len() - k,
{
    if k == t.len() {
        assert(t.take(k) =~= t);
    } else {
        assert(all_digits(t.take(k + 1))) by {
            assert(forall|i: int| 0 <= i < k + 1 ==> t.take(k + 1)[i] == t[i]);
        }
        lemma_digits_value_nonneg(t.take(k + 1));
        assert(t.take(k + 1).drop_last() =~= t.take(k));
        assert(digits_value(t.take(k + 1)) == digits_value(t.take(k)) * 10 + (t[k] as int
            - '0' as int));
        lemma_digits_value_nonneg(t.take(k));
        assert(digits_value(t.take(k)) <= digits_value(t.take(k + 1)));
        lemma_digits_value_prefix(t, k + 1);
    }
}

/// Reads the protocol version out of the raw property-query output
/// (shaped like "u 2"). Anything unexpected yields 0.
pub fn parse_portal_version(out: &str) -> (r: u32)
    ensures
        r == spec_portal_version(out@),
{
    let n = out.unicode_len();
    proof {
        assert(out@.take(n as int) =~= out@);
    }
    let mut end: usize = n;
    while end > 0
        invariant
            0 <= end <= n,
            n == out@.len(),
            strip_trailing_ws(out@) == strip_trailing_ws(out@.take(end as int)),
        ensures
            end == 0 || !is_ws(out@[end - 1]),
        decreases end,
    {
        let c = out.get_char(end - 1);
        if !(c == ' ' || c == '\t' || c == '\n' || c == '\r') {
            break;
        }
        proof {
            assert(out@.take(end as int).drop_last() =~= out@.take(end - 1));
        }
        end -= 1;
    }
    proof {
        assert(out@.take(n as int) =~= out@);
        assert(strip_trailing_ws(out@) == out@.take(end as int));
    }
    let ghost stripped = out@.take(end as int);

    let mut start: usize = end;
    while start > 0
        invariant
            0 <= start <= end <= n,
            n == out@.len(),
            stripped == out@.take(end as int),
            nonws_suffix(stripped) =~= nonws_suffix(out@.take(start as int)) + out@.subrange(
                start as int,
                end as int,
            ),
        ensures
            start == 0 || is_ws(out@[start - 1]),
        decreases start,
    {
        let c = out.get_char(start - 1);
        if c == ' ' || c == '\t' || c == '\n' || c == '\r' {
            break;
        }
        proof {
            let pre = out@.take(start as int);
            assert(pre.drop_last() =~= out@.take(start - 1));
            assert(nonws_suffix(pre) =~= nonws_suffix(out@.take(start - 1)).push(out@[start - 1]));
            assert(nonws_suffix(out@.take(start - 1)).push(out@[start - 1]) + out@.subrange(
                start as int,
                end as int,
            ) =~= nonws_suffix(out@.take(start - 1)) + out@.subrange(start - 1, end as int));
        }
        start -= 1;
    }
    proof {
        assert(nonws_suffix(out@.take(start as int)) =~= Seq::<char>::empty());
        assert(nonws_suffix(stripped) =~= out@.subrange(start as int, end as int));
    }
    let ghost token = out@.subrange(start as int, end as int);

    if start == end {
        return 0;
    }
    let mut value: u64 = 0;
    let mut i: usize = start;
    while i < end
        invariant
            start <= i <= end <= n,
            start < end,
            n == out@.len(),
            token == out@.subrange(start as int, end as int),
            token == nonws_suffix(strip_trailing_ws(out@)),
            all_digits(token.take(i - start)),
            value == digits_value(token.take(i - start)),
            value <= u32::MAX,
        decreases end - i,
    {
        let c = out.get_char(i);
        if !('0' <= c && c <= '9') {
            proof {
                assert(token[i - start] == c);
                assert(!all_digits(token));
            }
            return 0;
        }
        let d: u64 = (c as u64) - ('0' as u64);
        proof {
            assert(token.take(i - start + 1).drop_last() =~= token.take(i - start));
            assert(token.take(i - start + 1).last() == c);
            assert(all_digits(token.take(i - start + 1))) by {
                let t1 = token.take(i - start + 1);
                assert(forall|k: int| 0 <= k < t1.len() - 1 ==> t1[k] == token.take(i - start)[k]);
            }
        }
        let next: u64 = value * 10 + d;
        if next > u32::MAX as u64 {
            proof {
                if all_digits(token) {
                    lemma_digits_value_prefix(token, i - start + 1);
                }
            }
            return 0;
        }
        value = next;
        i += 1;
    }
    proof {
        assert(token.take(end - start) =~= token);
    }
    value as u32
}

/// The configuration dialog needs protocol version 2 or later; earlier
/// versions are refused with `UnsupportedProtocolVersion`.
pub fn require_configure_support(version: u32) -> (r: Result<(), ShortcutError>)
    ensures
        version >= 2 ==> r == Result::<(), ShortcutError>::Ok(()),
        version < 2 ==> r == Result::<(), ShortcutError>::Err(
            ShortcutError::UnsupportedProtocolVersion(version),
        ),
{
    if version >= 2 {
        Result::Ok(())
    } else {
        Result::Err(ShortcutError::UnsupportedProtocolVersion(version))
    }
}

} // verus!
