//! The IPC fallback protocol: a secondary invocation writes the literal
//! command "toggle" to a well-known local endpoint; the listener reads a
//! small buffer, trims surrounding whitespace, and dispatches exactly
//! when the remainder is that literal. Anything else is ignored without
//! error.

use vstd::prelude::*;
use vstd::string::StringExecFns;

verus! {

/// An ASCII whitespace byte, as trimming treats it.
pub open spec fn is_ws_byte(b: u8) -> bool {
    b == 32 || b == 9 || b == 10 || b == 13
}

/// `s` without its trailing whitespace bytes.
pub open spec fn strip_trailing_ws_bytes(s: Seq<u8>) -> Seq<u8>
    decreases s.len(),
{
    if s.len() > 0 && is_ws_byte(s.last()) {
        strip_trailing_ws_bytes(s.drop_last())
    } else {
        s
    }
}

/// `s` without its leading whitespace bytes.
pub open spec fn strip_leading_ws_bytes(s: Seq<u8>) -> Seq<u8>
    decreases s.len(),
{
    if s.len() > 0 && is_ws_byte(s.first()) {
        strip_leading_ws_bytes(s.drop_first())
    } else {
        s
    }
}

/// `s` with whitespace trimmed from both ends.
pub open spec fn trim_bytes(s: Seq<u8>) -> Seq<u8> {
    strip_leading_ws_bytes(strip_trailing_ws_bytes(s))
}

/// The bytes of the toggle command literal.
pub open spec fn toggle_bytes() -> Seq<u8> {
    seq![116u8, 111u8, 103u8, 103u8, 108u8, 101u8]
}

/// A received payload triggers a dispatch exactly when its trimmed
/// bytes are the toggle command literal.
pub open spec fn is_toggle_payload(s: Seq<u8>) -> bool {
    trim_bytes(s) == toggle_bytes()
}

/// Decides whether a received payload is the toggle command.
pub fn parse_ipc_payload(buf: &[u8]) -> (r: bool)
    ensures
        r == is_toggle_payload(buf@),
{
    let n = buf.len();
    proof {
        assert(buf@.take(n as int) =~= buf@);
    }
    let mut end: usize = n;
    while end > 0
        invariant
            0 <= end <= n,
            n == buf@.len(),
            strip_trailing_ws_bytes(buf@) == strip_trailing_ws_bytes(buf@.take(end as int)),
        ensures
            0 <= end <= n,
            end == 0 || !is_ws_byte(buf@[end - 1]),
            strip_trailing_ws_bytes(buf@) == strip_trailing_ws_bytes(buf@.take(end as int)),
        decreases end,
    {
        let b = buf[end - 1];
        if !(b == 32 || b == 9 || b == 10 || b == 13) {
            break;
        }
        proof {
            assert(buf@.take(end as int).drop_last() =~= buf@.take(end - 1));
        }
        end -= 1;
    }
    proof {
        assert(strip_trailing_ws_bytes(buf@) == buf@.take(end as int));
    }
    let ghost stripped = buf@.take(end as int);

    let mut start: usize = 0;
    while start < end
        invariant
            0 <= start <= end <= n,
            n == buf@.len(),
            stripped == buf@.take(end as int),
            strip_leading_ws_bytes(stripped) == strip_leading_ws_bytes(
                buf@.subrange(start as int, end as int),
            ),
        ensures
            0 <= start <= end,
            start == end || !is_ws_byte(buf@[start as int]),
            strip_leading_ws_bytes(stripped) == strip_leading_ws_bytes(
                buf@.subrange(start as int, end as int),
            ),
        decreases end - start,
    {
        let b = buf[start];
        if !(b == 32 || b == 9 || b == 10 || b == 13) {
            break;
        }
        proof {
            assert(buf@.subrange(start as int, end as int).drop_first() =~= buf@.subrange(
                start + 1,
                end as int,
            ));
        }
        start += 1;
    }
    proof {
        assert(strip_leading_ws_bytes(buf@.subrange(start as int, end as int)) == buf@.subrange(
            start as int,
            end as int,
        ));
        assert(trim_bytes(buf@) == buf@.subrange(start as int, end as int));
    }
    if end - start != 6 {
        return false;
    }
    let r = buf[start] == 116 && buf[start + 1] == 111 && buf[start + 2] == 103 && buf[start + 3]
        == 103 && buf[start + 4] == 108 && buf[start + 5] == 101;
    proof {
        if r {
            assert(buf@.subrange(start as int, end as int) =~= toggle_bytes());
        } else {
            assert(buf@.subrange(start as int, end as int) != toggle_bytes());
        }
    }
    r
}

/// The bytes a sender writes to request a toggle.
pub fn toggle_command_bytes() -> (r: Vec<u8>)
    ensures
        r@ == toggle_bytes(),
{
    let mut v: Vec<u8> = Vec::new();
    v.push(116);
    v.push(111);
    v.push(103);
    v.push(103);
    v.push(108);
    v.push(101);
    proof {
        assert(v@ =~= toggle_bytes());
    }
    v
}

/// What a sender writes is exactly what makes the listener dispatch:
/// the command bytes themselves are a toggle payload.
pub proof fn lemma_toggle_command_dispatches()
    ensures
        is_toggle_payload(toggle_bytes()),
{
    assert(strip_trailing_ws_bytes(toggle_bytes()) == toggle_bytes());
    assert(strip_leading_ws_bytes(toggle_bytes()) == toggle_bytes());
}

/// The endpoint path below the runtime directory (or the shared
/// temporary directory where none is set).
pub open spec fn spec_socket_path(runtime_dir: Option<Seq<char>>) -> Seq<char> {
    (match runtime_dir {
        Option::Some(d) => d,
        Option::None => "/tmp"@,
    }) + "/whis-desktop.sock"@
}

/// Resolves the well-known endpoint path from the runtime-directory
/// convention.
pub fn socket_path(runtime_dir: Option<String>) -> (r: String)
    ensures
        r@ == spec_socket_path(
            match runtime_dir {
                Option::Some(ref d) => Option::Some(d@),
                Option::None => Option::None,
            },
        ),
{
    let base = match runtime_dir {
        Option::Some(d) => d,
        Option::None => String::from_str("/tmp"),
    };
    base.concat("/whis-desktop.sock")
}

/// The command line that triggers a toggle, by installation kind.
pub fn toggle_command_line(flatpak: bool) -> (r: String)
    ensures
        flatpak ==> r@ == "flatpak run ink.whis.Whis --toggle"@,
        !flatpak ==> r@ == "whis-desktop --toggle"@,
{
    if flatpak {
        String::from_str("flatpak run ink.whis.Whis --toggle")
    } else {
        String::from_str("whis-desktop --toggle")
    }
}

} // verus!
