//! The environment assignments that are propagated to the service manager.

use vstd::prelude::*;
use vstd::string::StringExecFns;
use vstd::utf8::{decode_utf8, valid_utf8};

verus! {

/// The character of a decimal digit.
pub open spec fn digit_char(d: nat) -> char
    recommends
        d < 10,
{
    seq!['0', '1', '2', '3', '4', '5', '6', '7', '8', '9'][d as int]
}

/// The decimal text of a natural number, most significant digit first.
pub open spec fn decimal(n: nat) -> Seq<char>
    decreases n,
{
    if n < 10 {
        seq![digit_char(n)]
    } else {
        decimal(n / 10).push(digit_char(n % 10))
    }
}

fn digit_text(d: u32) -> (r: &'static str)
    requires
        d < 10,
    ensures
        r@ == seq![digit_char(d as nat)],
{
    match d {
        0 => { proof { reveal_strlit("0"); } "0" },
        1 => { proof { reveal_strlit("1"); } "1" },
        2 => { proof { reveal_strlit("2"); } "2" },
        3 => { proof { reveal_strlit("3"); } "3" },
        4 => { proof { reveal_strlit("4"); } "4" },
        5 => { proof { reveal_strlit("5"); } "5" },
        6 => { proof { reveal_strlit("6"); } "6" },
        7 => { proof { reveal_strlit("7"); } "7" },
        8 => { proof { reveal_strlit("8"); } "8" },
        _ => { proof { reveal_strlit("9"); } "9" },
    }
}

/// Writes `n` in decimal, without sign or leading zeros.
pub fn decimal_text(n: u32) -> (r: String)
    ensures
        r@ == decimal(n as nat),
    decreases n,
{
    if n < 10 {
        String::from_str(digit_text(n))
    } else {
        let mut r = decimal_text(n / 10);
        r.append(digit_text(n % 10));
        r
    }
}

/// What the service needs to know of the display servers it runs: the
/// filesystem path of the compositor's display socket, as the bytes the
/// operating system holds, and the number of the compatibility X display
/// when one is active.
pub struct ServiceContext {
    pub socket: Vec<u8>,
    pub xwayland_display: Option<u32>,
}

/// The socket path as text: its characters where its bytes are valid UTF-8.
pub open spec fn path_text(socket: Seq<u8>) -> Option<Seq<char>> {
    if valid_utf8(socket) {
        Some(decode_utf8(socket))
    } else {
        None
    }
}

/// The text of an optional string.
pub open spec fn text_of(t: Option<String>) -> Option<Seq<char>> {
    match t {
        Some(s) => Some(s@),
        None => None,
    }
}

/// The entry naming the compositor's socket; a path that is not text
/// leaves the value empty.
pub open spec fn wayland_entry(text: Option<Seq<char>>) -> Seq<char> {
    match text {
        Some(t) => "WAYLAND_DISPLAY="@ + t,
        None => "WAYLAND_DISPLAY="@,
    }
}

/// The entry naming the compatibility X display.
pub open spec fn display_entry(display: u32) -> Seq<char> {
    "DISPLAY=:"@ + decimal(display as nat)
}

/// The assignments, in order: the socket entry always, the X display entry
/// only where an X display is active.
pub open spec fn assignments(text: Option<Seq<char>>, display: Option<u32>) -> Seq<Seq<char>> {
    match display {
        Some(d) => seq![wayland_entry(text), display_entry(d)],
        None => seq![wayland_entry(text)],
    }
}

/// The assignments for a context.
pub open spec fn context_assignments(ctx: ServiceContext) -> Seq<Seq<char>> {
    assignments(path_text(ctx.socket@), ctx.xwayland_display)
}

/// With no X display and a socket path that is text, the list holds exactly
/// one entry, which names the socket.
pub proof fn lemma_socket_only(ctx: ServiceContext)
    requires
        ctx.xwayland_display is None,
        valid_utf8(ctx.socket@),
    ensures
        context_assignments(ctx) == seq!["WAYLAND_DISPLAY="@ + decode_utf8(ctx.socket@)],
{
}

/// With X display 7 and a socket path that is text, the list holds exactly
/// two entries: the socket's, then `DISPLAY=:7`.
pub proof fn lemma_socket_and_display_seven(ctx: ServiceContext)
    requires
        ctx.xwayland_display == Some(7u32),
        valid_utf8(ctx.socket@),
    ensures
        context_assignments(ctx) == seq![
            "WAYLAND_DISPLAY="@ + decode_utf8(ctx.socket@),
            "DISPLAY=:7"@,
        ],
{
    reveal_strlit("DISPLAY=:");
    reveal_strlit("DISPLAY=:7");
    assert(decimal(7) == seq!['7']);
    assert("DISPLAY=:"@ + decimal(7) =~= "DISPLAY=:7"@);
}

/// A socket path that is not text still yields the socket entry, first,
/// with an empty value.
pub proof fn lemma_path_not_text(ctx: ServiceContext)
    requires
        !valid_utf8(ctx.socket@),
    ensures
        context_assignments(ctx).len() >= 1,
        context_assignments(ctx)[0] == "WAYLAND_DISPLAY="@,
{
}

/// Relies on std::str::from_utf8: it succeeds exactly on valid UTF-8 and
/// then holds the characters that the bytes encode.
#[verifier::external_body]
fn utf8_text(bytes: &Vec<u8>) -> (r: Option<String>)
    ensures
        text_of(r) == path_text(bytes@),
{
    std::str::from_utf8(bytes.as_slice()).ok().map(String::from)
}

/// Builds the assignment list from the socket path's text (`None` where the
/// path is not text) and the active X display, if any.
pub fn assignments_from(socket_text: &Option<String>, display: Option<u32>) -> (r: Vec<String>)
    ensures
        r.deep_view() == assignments(text_of(*socket_text), display),
{
    proof {
        reveal_strlit("WAYLAND_DISPLAY=");
        reveal_strlit("DISPLAY=:");
    }
    let mut first = String::from_str("WAYLAND_DISPLAY=");
    match socket_text {
        Some(t) => first.append(t.as_str()),
        None => {},
    }
    let mut r: Vec<String> = Vec::new();
    r.push(first);
    match display {
        Some(d) => {
            let mut second = String::from_str("DISPLAY=:");
            let digits = decimal_text(d);
            second.append(digits.as_str());
            r.push(second);
        },
        None => {},
    }
    assert(r.deep_view() =~= assignments(text_of(*socket_text), display));
    r
}

/// Builds the assignment list for a context.
pub fn environment_assignments(ctx: &ServiceContext) -> (r: Vec<String>)
    ensures
        r.deep_view() == context_assignments(*ctx),
{
    let text = utf8_text(&ctx.socket);
    assignments_from(&text, ctx.xwayland_display)
}

} // verus!
