//! Dangerous-command detection.
//!
//! Only a warning is raised: execution still proceeds. Detection runs on the
//! desktop agent, which sees the raw PTY input bytes; a match is reported to
//! the gateway as `ReportDanger`.

use vstd::prelude::*;
use vstd::utf8::*;

verus! {

/// Declares `regex::bytes::Regex` to the verifier, opaque: nothing inside a
/// compiled regex is visible, it is only carried and handed to `is_match`.
#[verifier::external_type_specification]
#[verifier::external_body]
pub struct ExRegex(regex::bytes::Regex);

/// Whether `regex::bytes::Regex::new` accepts `pattern`.
pub uninterp spec fn regex_compiles(pattern: Seq<char>) -> bool;

/// Whether the regular expression `pattern` (in the `regex` crate's syntax,
/// matched on bytes) matches somewhere in `haystack`.
pub uninterp spec fn regex_finds(pattern: Seq<char>, haystack: Seq<u8>) -> bool;

/// What `String::from_utf8_lossy` makes of `bytes`.
pub uninterp spec fn utf8_lossy(bytes: Seq<u8>) -> Seq<char>;

/// A compiled pattern together with its source text.
///
/// The fields are private to this module and the only constructor is
/// [`compile_pattern`], so `re` is always the compilation of `source`; the
/// type invariant records that `source` compiles.
pub struct DangerPattern {
    source: String,
    re: regex::bytes::Regex,
}

impl DangerPattern {
    /// A pattern exists only for a source that the `regex` crate accepts.
    #[verifier::type_invariant]
    spec fn compiles(self) -> bool {
        regex_compiles(self.source@)
    }
}

impl View for DangerPattern {
    type V = Seq<char>;

    /// The pattern's source text.
    closed spec fn view(&self) -> Seq<char> {
        self.source@
    }
}

/// Calls `regex::bytes::Regex::new(pattern)`.
///
/// Claimed: a pattern is returned exactly when the crate accepts the
/// pattern, and it carries `pattern` as its source.
#[verifier::external_body]
fn compile_pattern(pattern: &str) -> (r: Option<DangerPattern>)
    ensures
        r is Some <==> regex_compiles(pattern@),
        r matches Some(p) ==> p@ == pattern@,
{
    match regex::bytes::Regex::new(pattern) {
        Ok(re) => Some(DangerPattern { source: pattern.to_string(), re }),
        Err(_) => None,
    }
}

/// Calls `regex::bytes::Regex::is_match` on the compiled pattern.
///
/// Claimed: the result is whether the pattern's source matches somewhere in
/// `haystack` (the regex was compiled from that source, see
/// [`DangerPattern`]).
#[verifier::external_body]
fn pattern_finds(p: &DangerPattern, haystack: &[u8]) -> (b: bool)
    ensures
        b == regex_finds(p@, haystack@),
{
    p.re.is_match(haystack)
}

/// Calls `String::from_utf8_lossy(bytes)` and takes the owned string.
///
/// Claimed: the result is a function of the bytes alone, and for valid UTF-8
/// it is the decoded text (as the std documentation states).
#[verifier::external_body]
fn lossy_text(bytes: &[u8]) -> (s: String)
    ensures
        s@ == utf8_lossy(bytes@),
        valid_utf8(bytes@) ==> s@ == decode_utf8(bytes@),
{
    String::from_utf8_lossy(bytes).into_owned()
}

/// The patterns the agent watches for, in the order they are tried.
pub open spec fn danger_sources() -> Seq<Seq<char>> {
    seq![
        r"rm\s+(-[a-zA-Z]*r[a-zA-Z]*f|--recursive\b.*--force\b)"@,
        r"\bshutdown\b"@,
        r"\breboot\b"@,
        r"\bmkfs\b"@,
        r"dd\s+.*of=/dev/"@,
    ]
}

/// The number of patterns in [`danger_sources`].
pub const DANGER_SOURCE_COUNT: usize = 5;

fn danger_source(i: usize) -> (s: &'static str)
    requires
        i < DANGER_SOURCE_COUNT,
    ensures
        s@ == danger_sources()[i as int],
{
    match i {
        0 => r"rm\s+(-[a-zA-Z]*r[a-zA-Z]*f|--recursive\b.*--force\b)",
        1 => r"\bshutdown\b",
        2 => r"\breboot\b",
        3 => r"\bmkfs\b",
        _ => r"dd\s+.*of=/dev/",
    }
}

/// The patterns of `sources` that compile, in order.
pub open spec fn compiling(sources: Seq<Seq<char>>) -> Seq<Seq<char>> {
    sources.filter(|p: Seq<char>| regex_compiles(p))
}

/// The first of `patterns` that matches somewhere in `input`.
pub open spec fn first_hit(patterns: Seq<Seq<char>>, input: Seq<u8>) -> Option<Seq<char>>
    decreases patterns.len(),
{
    if patterns.len() == 0 {
        None
    } else if regex_finds(patterns[0], input) {
        Some(patterns[0])
    } else {
        first_hit(patterns.drop_first(), input)
    }
}

/// A positive danger detection.
pub struct DangerHit {
    /// The regex pattern that matched.
    pub pattern: String,
    /// The (lossy) command text that matched.
    pub command: String,
}

/// Checks terminal input bytes against a small set of high-risk patterns.
pub struct DangerChecker {
    patterns: Vec<DangerPattern>,
}

impl View for DangerChecker {
    type V = Seq<Seq<char>>;

    /// The sources of the patterns, in the order they are tried.
    closed spec fn view(&self) -> Seq<Seq<char>> {
        self.patterns@.map_values(|p: DangerPattern| p@)
    }
}

impl DangerChecker {
    /// A checker for [`danger_sources`]; a pattern that does not compile is
    /// left out.
    pub fn new() -> (c: DangerChecker)
        ensures
            c@ == compiling(danger_sources()),
    {
        let mut patterns: Vec<DangerPattern> = Vec::new();
        let mut i: usize = 0;
        while i < DANGER_SOURCE_COUNT
            invariant
                i <= DANGER_SOURCE_COUNT,
                danger_sources().len() == DANGER_SOURCE_COUNT,
                patterns@.map_values(|p: DangerPattern| p@)
                    == compiling(danger_sources().take(i as int)),
            decreases DANGER_SOURCE_COUNT - i,
        {
            let ghost before = patterns@;
            let src = danger_source(i);
            proof {
                reveal_with_fuel(Seq::filter, 1);
                assert(danger_sources().take(i + 1).drop_last() == danger_sources().take(i as int));
            }
            match compile_pattern(src) {
                Some(p) => {
                    patterns.push(p);
                    assert(patterns@.map_values(|p: DangerPattern| p@)
                        == before.map_values(|p: DangerPattern| p@).push(src@));
                },
                None => {},
            }
            i = i + 1;
        }
        assert(danger_sources().take(DANGER_SOURCE_COUNT as int) == danger_sources());
        DangerChecker { patterns }
    }

    /// Returns the first matching pattern, if any.
    pub fn check(&self, input: &[u8]) -> (r: Option<DangerHit>)
        ensures
            r is Some <==> first_hit(self@, input@) is Some,
            r matches Some(hit) ==> {
                &&& Some(hit.pattern@) == first_hit(self@, input@)
                &&& hit.command@ == utf8_lossy(input@)
                &&& valid_utf8(input@) ==> hit.command@ == decode_utf8(input@)
            },
    {
        let mut i: usize = 0;
        assert(self@.skip(0) == self@);
        while i < self.patterns.len()
            invariant
                i <= self.patterns@.len(),
                self@.len() == self.patterns@.len(),
                first_hit(self@, input@) == first_hit(self@.skip(i as int), input@),
            decreases self.patterns@.len() - i,
        {
            let p = &self.patterns[i];
            assert(self@.skip(i as int)[0] == p@);
            assert(self@.skip(i as int).drop_first() == self@.skip(i + 1));
            if pattern_finds(p, input) {
                return Some(DangerHit { pattern: p.source.clone(), command: lossy_text(input) });
            }
            i = i + 1;
        }
        assert(self@.skip(i as int).len() == 0);
        None
    }
}

impl Default for DangerChecker {
    fn default() -> (c: DangerChecker)
        ensures
            c@ == compiling(danger_sources()),
    {
        DangerChecker::new()
    }
}

} // verus!
