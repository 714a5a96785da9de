//! Cleaning of what the command line tool prints: surrounding white space and ANSI
//! colour sequences are removed before the text is shown or parsed.

use vstd::prelude::*;
use crate::text::{trim, trimmed};

verus! {

broadcast use vstd::string::group_string_axioms;

/// The program that every command of the application runs.
pub const CLI_PROGRAM: &'static str = "adguardvpn-cli";

/// The regular expression, in `regex` syntax, of an ANSI SGR (colour) sequence:
/// escape, `[`, any digits and `;`, then `m`.
pub const SGR_PATTERN: &'static str = "\\x1b\\[[0-9;]*m";

#[verifier::external_type_specification]
#[verifier::external_body]
pub struct ExRegex(regex::Regex);

/// A parameter character of an SGR sequence: a decimal digit or `;`.
pub open spec fn is_sgr_param(c: char) -> bool {
    ('0' as u32 <= c as u32 && c as u32 <= '9' as u32) || c == ';'
}

/// Length of the leading run of SGR parameter characters of `s`.
pub open spec fn sgr_param_len(s: Seq<char>) -> nat
    decreases s.len(),
{
    if s.len() > 0 && is_sgr_param(s[0]) {
        1 + sgr_param_len(s.drop_first())
    } else {
        0
    }
}

/// Length of the SGR sequence that `s` starts with, or 0 when it starts with none.
/// The sequence is `ESC [`, the longest run of parameter characters, then `m`.
pub open spec fn sgr_len(s: Seq<char>) -> nat {
    if s.len() >= 2 && s[0] == '\u{1b}' && s[1] == '[' {
        let k = sgr_param_len(s.skip(2));
        if 2 + k < s.len() && s[2 + k as int] == 'm' {
            k + 3
        } else {
            0
        }
    } else {
        0
    }
}

/// `s` with every SGR sequence removed, scanning from the left: the leftmost match is
/// removed and the scan goes on after it, as `Regex::replace_all` does with `SGR_PATTERN`.
pub open spec fn without_sgr(s: Seq<char>) -> Seq<char>
    decreases s.len(),
{
    if s.len() == 0 {
        seq![]
    } else if sgr_len(s) > 0 {
        without_sgr(s.skip(sgr_len(s) as int))
    } else {
        seq![s[0]] + without_sgr(s.drop_first())
    }
}

/// The compiled form of `SGR_PATTERN`. Its field is private: `compile` is the only
/// way to obtain one, so every value holds that pattern.
struct SgrRegex {
    re: regex::Regex,
}

impl SgrRegex {
    /// Calls `regex::Regex::new` on `pattern`, which is required to be `SGR_PATTERN`.
    /// That pattern is valid and small, so `Regex::new` returns `Ok` for it and the
    /// `unwrap` cannot panic. Nothing is claimed of the result beyond that.
    #[verifier::external_body]
    fn compile(pattern: &str) -> (r: SgrRegex)
        requires
            pattern@ == SGR_PATTERN@,
    {
        SgrRegex { re: regex::Regex::new(pattern).unwrap() }
    }

    /// Calls `regex::Regex::replace_all` on the compiled `SGR_PATTERN` with
    /// `replacement`, which is required to be empty. The claim: the result is
    /// `haystack` with the leftmost non-overlapping matches of that pattern removed,
    /// that is `without_sgr`. The pattern's characters are all ASCII, so matching on
    /// bytes and on characters agree, and an empty replacement has no `$` references.
    #[verifier::external_body]
    fn replace_all(&self, haystack: &str, replacement: &str) -> (r: String)
        requires
            replacement@.len() == 0,
        ensures
            r@ == without_sgr(haystack@),
    {
        self.re.replace_all(haystack, replacement).into_owned()
    }
}

/// Removes the ANSI colour sequences from `input`.
pub fn strip_ansi(input: &str) -> (r: String)
    ensures
        r@ == without_sgr(input@),
{
    let re = SgrRegex::compile(SGR_PATTERN);
    proof {
        reveal_strlit("");
    }
    re.replace_all(input, "")
}

/// What the application shows of one output stream of the tool: the text trimmed,
/// then stripped of ANSI colour sequences.
pub fn clean_output(raw: &str) -> (r: String)
    ensures
        r@ == without_sgr(trimmed(raw@)),
{
    let t = trim(raw);
    strip_ansi(t.as_str())
}

/// The error text shown when the tool could not be started; `detail` is the system's
/// description of the failure.
pub fn launch_failure(detail: &str) -> (r: String)
    ensures
        r@ == "Ошибка запуска "@ + CLI_PROGRAM@ + ": "@ + detail@,
{
    let mut r = String::from_str("Ошибка запуска ");
    r.append(CLI_PROGRAM);
    r.append(": ");
    r.append(detail);
    r
}

} // verus!
