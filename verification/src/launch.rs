//! Preparing a command line to launch into the session.
//!
//! Chromium binds `zwp_text_input_manager_v3` whether or not it is started with
//! `--enable-wayland-ime`, but without the flag it never enables a text field, so the
//! compositor never learns one is focused and the phone's keyboard only opens from its button.
//! A desktop entry written for a laptop has no reason to carry the flag, and the user did not
//! type the command, so it is added here. The match is on the program name only: it is a
//! launcher hint, not a security boundary.

use vstd::prelude::*;
use crate::text::{chars_of, is_whitespace, is_ws};

verus! {

/// The flag that makes a Chromium-family browser ask for text input.
pub const IME_FLAG: &'static str = "--enable-wayland-ime";

/// Whether `t` occurs in `s` starting at `i`.
pub open spec fn occurs_at(s: Seq<char>, t: Seq<char>, i: int) -> bool {
    0 <= i && i + t.len() <= s.len() && s.subrange(i, i + t.len()) == t
}

/// Whether `t` occurs anywhere in `s`.
pub open spec fn contains_seq(s: Seq<char>, t: Seq<char>) -> bool {
    exists|i: int| occurs_at(s, t, i)
}

/// The first index at or after `i` that is not whitespace, or the length.
pub open spec fn token_start(s: Seq<char>, i: int) -> int
    decreases s.len() - i,
{
    if i >= s.len() || i < 0 {
        s.len() as int
    } else if is_ws(s[i]) {
        token_start(s, i + 1)
    } else {
        i
    }
}

/// The first index at or after `i` that is whitespace, or the length.
pub open spec fn token_end(s: Seq<char>, i: int) -> int
    decreases s.len() - i,
{
    if i >= s.len() || i < 0 {
        s.len() as int
    } else if is_ws(s[i]) {
        i
    } else {
        token_end(s, i + 1)
    }
}

/// The first whitespace-separated word of `s`, empty if there is none.
pub open spec fn first_word(s: Seq<char>) -> Seq<char> {
    s.subrange(token_start(s, 0), token_end(s, token_start(s, 0)))
}

/// Where the part of `s.take(n)` after its last `/` begins: just after that slash, or 0.
pub open spec fn after_last_slash(s: Seq<char>, n: int) -> int
    decreases n,
{
    if n <= 0 {
        0
    } else if s[n - 1] == '/' {
        n
    } else {
        after_last_slash(s, n - 1)
    }
}

/// The last `/`-separated segment of `s`: its file name, for a path.
pub open spec fn file_name(s: Seq<char>) -> Seq<char> {
    s.subrange(after_last_slash(s, s.len() as int), s.len() as int)
}

/// Whether a program name belongs to the Chromium family.
pub open spec fn is_chromium_family(program: Seq<char>) -> bool {
    ||| contains_seq(program, "chromium"@)
    ||| contains_seq(program, "chrome"@)
    ||| contains_seq(program, "google-chrome"@)
    ||| contains_seq(program, "brave"@)
    ||| contains_seq(program, "vivaldi"@)
    ||| contains_seq(program, "microsoft-edge"@)
}

/// The command with ` --enable-wayland-ime` appended when its program is a Chromium-family
/// browser and the flag is not already anywhere in it; otherwise the command unchanged.
pub open spec fn spec_with_ime_flag(command: Seq<char>) -> Seq<char> {
    if contains_seq(command, IME_FLAG@) {
        command
    } else if is_chromium_family(file_name(first_word(command))) {
        command + " "@ + IME_FLAG@
    } else {
        command
    }
}

/// Whether `t` occurs in `s`.
pub fn find(s: &Vec<char>, t: &Vec<char>) -> (found: bool)
    ensures
        found == contains_seq(s@, t@),
{
    if t.len() > s.len() {
        return false;
    }
    let last = s.len() - t.len();
    let mut i: usize = 0;
    while i <= last
        invariant_except_break
            last == s@.len() - t@.len(),
            t@.len() <= s@.len(),
            s@.len() == s.len(),
            i <= last,
            forall|k: int| 0 <= k < i ==> !occurs_at(s@, t@, k),
        ensures
            forall|k: int| 0 <= k <= last ==> !occurs_at(s@, t@, k),
        decreases last + 1 - i,
    {
        let mut j: usize = 0;
        let mut same = true;
        while j < t.len()
            invariant
                i <= last,
                last == s@.len() - t@.len(),
                t@.len() <= s@.len(),
                s@.len() == s.len(),
                j <= t@.len(),
                same == forall|m: int| 0 <= m < j ==> s@[i + m] == t@[m],
            decreases t@.len() - j,
        {
            if s[i + j] != t[j] {
                same = false;
            }
            j = j + 1;
        }
        if same {
            proof {
                assert(s@.subrange(i as int, i + t@.len()) =~= t@);
                assert(occurs_at(s@, t@, i as int));
            }
            return true;
        }
        proof {
            assert(!occurs_at(s@, t@, i as int)) by {
                if s@.subrange(i as int, i + t@.len()) == t@ {
                    assert forall|m: int| 0 <= m < t@.len() implies s@[i + m] == t@[m] by {
                        assert(s@.subrange(i as int, i + t@.len())[m] == s@[i + m]);
                    }
                }
            }
        }
        if i == last {
            break;
        }
        i = i + 1;
    }
    proof {
        assert forall|k: int| !occurs_at(s@, t@, k) by {
            if 0 <= k && k + t@.len() <= s@.len() {
                assert(k <= last);
            }
        }
    }
    false
}

/// Whether the literal `lit` occurs in `s`.
fn find_str(s: &Vec<char>, lit: &str) -> (found: bool)
    ensures
        found == contains_seq(s@, lit@),
{
    let t = chars_of(lit);
    find(s, &t)
}

/// The program named by a command line: the file name of its first word.
pub fn program_name(command: &Vec<char>) -> (program: Vec<char>)
    ensures
        program@ == file_name(first_word(command@)),
{
    let s = command;
    let n = s.len();
    let mut start: usize = 0;
    while start < n && is_whitespace(s[start])
        invariant
            n == s@.len(),
            start <= n,
            token_start(s@, 0) == token_start(s@, start as int),
        decreases n - start,
    {
        start = start + 1;
    }
    let mut end: usize = start;
    while end < n && !is_whitespace(s[end])
        invariant
            n == s@.len(),
            start <= end <= n,
            token_start(s@, 0) == start,
            token_end(s@, start as int) == token_end(s@, end as int),
        decreases n - end,
    {
        end = end + 1;
    }
    let ghost word = s@.subrange(start as int, end as int);
    let mut cut: usize = end;
    while cut > start && s[cut - 1] != '/'
        invariant
            start <= cut <= end,
            end <= n,
            n == s@.len(),
            word == s@.subrange(start as int, end as int),
            after_last_slash(word, word.len() as int) == after_last_slash(word, cut - start),
        decreases cut - start,
    {
        proof {
            assert(word[cut - start - 1] == s@[cut - 1]);
        }
        cut = cut - 1;
    }
    proof {
        if cut > start {
            assert(word[cut - start - 1] == s@[cut - 1]);
        }
    }
    let mut program: Vec<char> = Vec::new();
    let mut k: usize = cut;
    while k < end
        invariant
            start <= cut <= k <= end,
            end <= n,
            n == s@.len(),
            program@ == s@.subrange(cut as int, k as int),
        decreases end - k,
    {
        program.push(s[k]);
        k = k + 1;
        proof {
            assert(program@ =~= s@.subrange(cut as int, k as int));
        }
    }
    proof {
        assert(program@ =~= word.subrange(cut - start, word.len() as int));
    }
    program
}

/// Add `--enable-wayland-ime` to a Chromium-family command that does not already have it.
pub fn with_ime_flag(command: &str) -> (out: String)
    ensures
        out@ == spec_with_ime_flag(command@),
{
    let chars = chars_of(command);
    if find_str(&chars, IME_FLAG) {
        return String::from_str(command);
    }
    let program = program_name(&chars);
    let family = find_str(&program, "chromium") || find_str(&program, "chrome") || find_str(
        &program,
        "google-chrome",
    ) || find_str(&program, "brave") || find_str(&program, "vivaldi") || find_str(&program, "microsoft-edge");
    if !family {
        return String::from_str(command);
    }
    let mut out = String::from_str(command);
    out.append(" ");
    out.append(IME_FLAG);
    out
}

/// The flag is added at most once: a command that went through [`with_ime_flag`] already
/// carries the flag or was left alone for good, so passing it through again changes nothing.
pub proof fn law_the_flag_is_added_once(command: Seq<char>)
    ensures
        spec_with_ime_flag(spec_with_ime_flag(command)) == spec_with_ime_flag(command),
        contains_seq(spec_with_ime_flag(command), IME_FLAG@) || spec_with_ime_flag(command) == command,
{
    let once = spec_with_ime_flag(command);
    if !contains_seq(command, IME_FLAG@) && is_chromium_family(file_name(first_word(command))) {
        reveal_strlit(" ");
        assert(once == command + " "@ + IME_FLAG@);
        let i: int = command.len() as int + 1;
        assert(once.len() == i + IME_FLAG@.len());
        assert(once.subrange(i, i + IME_FLAG@.len()) =~= IME_FLAG@);
        assert(occurs_at(once, IME_FLAG@, i));
    }
}

} // verus!
