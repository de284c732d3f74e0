//! Naming the session's own X server: its display, the socket it listens on and the lock file
//! it leaves, and which display number to take.
//!
//! X11-only applications draw inside a rootful Xwayland that is a client of the session. Its
//! display number must be one nothing else on the machine is using, so numbers are searched
//! from [`FIRST_DISPLAY`] upwards and one with either a socket or a lock file is skipped: the
//! lock outlives a crashed server and the socket outlives a killed one.

use vstd::prelude::*;

verus! {

/// Display numbers are searched from here upwards; low numbers belong to whatever else runs
/// on this machine.
pub const FIRST_DISPLAY: u32 = 20;

/// How many numbers to try before giving up.
pub const DISPLAY_TRIES: u32 = 40;

/// The character for a decimal digit.
pub open spec fn digit_char(d: nat) -> char {
    ('0' as u32 + d) as char
}

/// `n` in decimal, without leading zeros.
pub open spec fn decimal(n: nat) -> Seq<char>
    decreases n,
{
    if n < 10 {
        seq![digit_char(n)]
    } else {
        decimal(n / 10).push(digit_char(n % 10))
    }
}

/// The directory X servers put their sockets in, with the socket name's leading `X`.
pub open spec fn socket_prefix() -> Seq<char> {
    "/tmp/.X11-unix/X"@
}

/// The socket of display `number`.
pub open spec fn spec_socket_path(number: u32) -> Seq<char> {
    socket_prefix() + decimal(number as nat)
}

/// The display string of display `number`, colon included.
pub open spec fn spec_display_name(number: u32) -> Seq<char> {
    ":"@ + decimal(number as nat)
}

/// The lock file of display `number`.
pub open spec fn spec_lock_path(number: u32) -> Seq<char> {
    "/tmp/.X"@ + decimal(number as nat) + "-lock"@
}

/// The number of leading `:` characters of `s`.
pub open spec fn leading_colons(s: Seq<char>, i: int) -> int
    decreases s.len() - i,
{
    if 0 <= i < s.len() && s[i] == ':' {
        leading_colons(s, i + 1)
    } else {
        i
    }
}

/// `s` with every leading `:` removed.
pub open spec fn trim_colons(s: Seq<char>) -> Seq<char> {
    s.subrange(leading_colons(s, 0), s.len() as int)
}

/// The socket named by a display string.
pub open spec fn spec_socket_path_str(display: Seq<char>) -> Seq<char> {
    socket_prefix() + trim_colons(display)
}

/// The one-character string for a decimal digit.
fn digit_str(d: u32) -> (s: &'static str)
    requires
        d < 10,
    ensures
        s@ == seq![digit_char(d as nat)],
{
    proof {
        reveal_strlit("0");
        reveal_strlit("1");
        reveal_strlit("2");
        reveal_strlit("3");
        reveal_strlit("4");
        reveal_strlit("5");
        reveal_strlit("6");
        reveal_strlit("7");
        reveal_strlit("8");
        reveal_strlit("9");
    }
    let s = match d {
        0 => "0",
        1 => "1",
        2 => "2",
        3 => "3",
        4 => "4",
        5 => "5",
        6 => "6",
        7 => "7",
        8 => "8",
        _ => "9",
    };
    proof {
        assert(s@ =~= seq![digit_char(d as nat)]);
    }
    s
}

/// Append `n` in decimal to `out`.
pub(crate) fn push_decimal(out: &mut String, n: u64)
    ensures
        final(out)@ == old(out)@ + decimal(n as nat),
    decreases n,
{
    if n >= 10 {
        push_decimal(out, n / 10);
    }
    out.append(digit_str((n % 10) as u32));
    proof {
        assert(out@ =~= old(out)@ + decimal(n as nat));
    }
}

/// The socket of display `number`: `/tmp/.X11-unix/X{number}`.
pub fn socket_path(number: u32) -> (path: String)
    ensures
        path@ == spec_socket_path(number),
{
    let mut path = String::from_str("/tmp/.X11-unix/X");
    push_decimal(&mut path, number as u64);
    path
}

/// The display string of display `number`: `:{number}`.
pub fn display_name(number: u32) -> (display: String)
    ensures
        display@ == spec_display_name(number),
{
    let mut display = String::from_str(":");
    push_decimal(&mut display, number as u64);
    display
}

/// The lock file of display `number`: `/tmp/.X{number}-lock`.
pub fn lock_path(number: u32) -> (path: String)
    ensures
        path@ == spec_lock_path(number),
{
    let mut path = String::from_str("/tmp/.X");
    push_decimal(&mut path, number as u64);
    path.append("-lock");
    path
}

/// The socket named by a display string: the leading colons dropped, the rest appended to the
/// socket directory's prefix.
pub fn socket_path_str(display: &str) -> (path: String)
    ensures
        path@ == spec_socket_path_str(display@),
{
    let n = display.unicode_len();
    let mut k: usize = 0;
    while k < n && display.get_char(k) == ':'
        invariant
            n == display@.len(),
            k <= n,
            leading_colons(display@, 0) == leading_colons(display@, k as int),
        decreases n - k,
    {
        k = k + 1;
    }
    let rest = display.substring_char(k, n);
    let mut path = String::from_str("/tmp/.X11-unix/X");
    path.append(rest);
    path
}

/// The first display number nothing else is using: `FIRST_DISPLAY + k` for the least `k`
/// whose entry of `in_use` is false, among the first [`DISPLAY_TRIES`] entries. `None` when all
/// of those are in use (a missing entry counts as in use).
pub fn free_display(in_use: &Vec<bool>) -> (number: Option<u32>)
    ensures
        match number {
            Some(d) => {
                &&& FIRST_DISPLAY <= d < FIRST_DISPLAY + DISPLAY_TRIES
                &&& (d - FIRST_DISPLAY) < in_use@.len()
                &&& !in_use@[d - FIRST_DISPLAY]
                &&& forall|k: int| 0 <= k < d - FIRST_DISPLAY ==> in_use@[k]
            },
            None => forall|k: int| 0 <= k < DISPLAY_TRIES && k < in_use@.len() ==> in_use@[k],
        },
{
    let mut k: u32 = 0;
    while k < DISPLAY_TRIES && (k as usize) < in_use.len()
        invariant
            k <= DISPLAY_TRIES,
            forall|j: int| 0 <= j < k ==> j < in_use@.len() && in_use@[j],
        decreases DISPLAY_TRIES - k,
    {
        if !in_use[k as usize] {
            return Some(FIRST_DISPLAY + k);
        }
        k = k + 1;
    }
    None
}

/// The socket path is built twice, from a number when a free one is sought and from a display
/// string when the server is cleaned up; the two always name the same file.
pub proof fn law_both_socket_paths_agree(number: u32)
    ensures
        spec_socket_path_str(spec_display_name(number)) == spec_socket_path(number),
{
    let d = spec_display_name(number);
    reveal_strlit(":");
    lemma_decimal_no_colon(number as nat);
    assert(d[0] == ':');
    assert(leading_colons(d, 1) == 1) by {
        assert(d[1] == decimal(number as nat)[0]);
    }
    assert(trim_colons(d) =~= decimal(number as nat));
}

/// A decimal numeral is never empty and never starts with a colon.
proof fn lemma_decimal_no_colon(n: nat)
    ensures
        decimal(n).len() >= 1,
        decimal(n)[0] != ':',
        decimal(n)[0] == digit_char(first_digit(n)),
        first_digit(n) < 10,
    decreases n,
{
    if n >= 10 {
        lemma_decimal_no_colon(n / 10);
    }
}

/// The leading decimal digit of `n`.
pub open spec fn first_digit(n: nat) -> nat
    decreases n,
{
    if n < 10 { n } else { first_digit(n / 10) }
}

} // verus!
