//! Verbosity levels, ordered as the record filter orders them, with the
//! case-insensitive parse used for the environment override and the
//! precedence rule that resolves the effective level.

use vstd::prelude::*;

verus! {

/// A verbosity threshold. `Off` suppresses everything; `Trace` admits
/// everything. A record itself carries one of the five non-`Off` levels.
#[derive(Clone, Copy, Debug, PartialEq, Eq, Structural)]
pub enum Level {
    Off,
    Error,
    Warn,
    Info,
    Debug,
    Trace,
}

/// Numeric severity rank: a record passes a threshold when its rank is at
/// most the threshold's rank.
pub open spec fn rank(l: Level) -> int {
    match l {
        Level::Off => 0,
        Level::Error => 1,
        Level::Warn => 2,
        Level::Info => 3,
        Level::Debug => 4,
        Level::Trace => 5,
    }
}

impl Level {
    /// Executable rank, for threshold comparisons.
    pub fn rank_u8(self) -> (r: u8)
        ensures
            r as int == rank(self),
    {
        match self {
            Level::Off => 0,
            Level::Error => 1,
            Level::Warn => 2,
            Level::Info => 3,
            Level::Debug => 4,
            Level::Trace => 5,
        }
    }

    /// `self` is at most as verbose as `other`.
    pub fn le(self, other: Level) -> (r: bool)
        ensures
            r == (rank(self) <= rank(other)),
    {
        self.rank_u8() <= other.rank_u8()
    }
}

/// ASCII lower-casing of a single character; anything but an ASCII capital
/// letter is left as it is.
pub open spec fn lower_char(c: char) -> char {
    if c == 'A' { 'a' }
    else if c == 'B' { 'b' }
    else if c == 'C' { 'c' }
    else if c == 'D' { 'd' }
    else if c == 'E' { 'e' }
    else if c == 'F' { 'f' }
    else if c == 'G' { 'g' }
    else if c == 'H' { 'h' }
    else if c == 'I' { 'i' }
    else if c == 'J' { 'j' }
    else if c == 'K' { 'k' }
    else if c == 'L' { 'l' }
    else if c == 'M' { 'm' }
    else if c == 'N' { 'n' }
    else if c == 'O' { 'o' }
    else if c == 'P' { 'p' }
    else if c == 'Q' { 'q' }
    else if c == 'R' { 'r' }
    else if c == 'S' { 's' }
    else if c == 'T' { 't' }
    else if c == 'U' { 'u' }
    else if c == 'V' { 'v' }
    else if c == 'W' { 'w' }
    else if c == 'X' { 'x' }
    else if c == 'Y' { 'y' }
    else if c == 'Z' { 'z' }
    else { c }
}

/// Two character sequences are equal up to ASCII case.
pub open spec fn eq_ignore_case(a: Seq<char>, b: Seq<char>) -> bool {
    a.len() == b.len() && forall|i: int| 0 <= i < a.len() ==> lower_char(a[i]) == lower_char(b[i])
}

fn lower_char_exec(c: char) -> (r: char)
    ensures
        r == lower_char(c),
{
    match c {
        'A' => 'a',
        'B' => 'b',
        'C' => 'c',
        'D' => 'd',
        'E' => 'e',
        'F' => 'f',
        'G' => 'g',
        'H' => 'h',
        'I' => 'i',
        'J' => 'j',
        'K' => 'k',
        'L' => 'l',
        'M' => 'm',
        'N' => 'n',
        'O' => 'o',
        'P' => 'p',
        'Q' => 'q',
        'R' => 'r',
        'S' => 's',
        'T' => 't',
        'U' => 'u',
        'V' => 'v',
        'W' => 'w',
        'X' => 'x',
        'Y' => 'y',
        'Z' => 'z',
        _ => c,
    }
}

/// Compare two strings up to ASCII case.
pub fn str_eq_ignore_case(a: &str, b: &str) -> (r: bool)
    ensures
        r == eq_ignore_case(a@, b@),
{
    let alen = a.unicode_len();
    let blen = b.unicode_len();
    if alen != blen {
        return false;
    }
    let mut i: usize = 0;
    while i < alen
        invariant
            alen == a@.len(),
            blen == b@.len(),
            alen == blen,
            0 <= i <= alen,
            forall|j: int| 0 <= j < i ==> lower_char(a@[j]) == lower_char(b@[j]),
        decreases alen - i,
    {
        let ca = lower_char_exec(a.get_char(i));
        let cb = lower_char_exec(b.get_char(i));
        if ca != cb {
            return false;
        }
        i += 1;
    }
    true
}

/// What the environment override parses to: the six level names, compared
/// without regard to ASCII case; anything else is no level at all.
pub open spec fn spec_parse_level(s: Seq<char>) -> Option<Level> {
    if eq_ignore_case(s, "off"@) { Some(Level::Off) }
    else if eq_ignore_case(s, "error"@) { Some(Level::Error) }
    else if eq_ignore_case(s, "warn"@) { Some(Level::Warn) }
    else if eq_ignore_case(s, "info"@) { Some(Level::Info) }
    else if eq_ignore_case(s, "debug"@) { Some(Level::Debug) }
    else if eq_ignore_case(s, "trace"@) { Some(Level::Trace) }
    else { None }
}

/// Parse a level name, ignoring ASCII case.
pub fn parse_level(s: &str) -> (r: Option<Level>)
    ensures
        r == spec_parse_level(s@),
{
    if str_eq_ignore_case(s, "off") { Some(Level::Off) }
    else if str_eq_ignore_case(s, "error") { Some(Level::Error) }
    else if str_eq_ignore_case(s, "warn") { Some(Level::Warn) }
    else if str_eq_ignore_case(s, "info") { Some(Level::Info) }
    else if str_eq_ignore_case(s, "debug") { Some(Level::Debug) }
    else if str_eq_ignore_case(s, "trace") { Some(Level::Trace) }
    else { None }
}

/// The view of an optional borrowed override string.
pub open spec fn opt_str_view(s: Option<&str>) -> Option<Seq<char>> {
    match s {
        Some(t) => Some(t@),
        None => None,
    }
}

/// The level that governs the sink: a present, parseable environment
/// override wins; a malformed or absent override falls back silently to the
/// configured level.
pub open spec fn spec_resolve_level(configured: Level, env_override: Option<Seq<char>>) -> Level {
    match env_override {
        Some(s) => match spec_parse_level(s) {
            Some(l) => l,
            None => configured,
        },
        None => configured,
    }
}

/// Resolve the effective level from the configured one and the raw
/// environment override, if any.
pub fn resolve_level(configured: Level, env_override: Option<&str>) -> (r: Level)
    ensures
        r == spec_resolve_level(configured, opt_str_view(env_override)),
{
    match env_override {
        Some(s) => match parse_level(s) {
            Some(l) => l,
            None => configured,
        },
        None => configured,
    }
}

} // verus!
