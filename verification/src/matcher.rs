//! Rule-based classification of a video path into `(path, season, episode)`.
//!
//! A rule pairs a regex over the full path with a regex over the file name;
//! the episode number is parsed from a capture of the latter and shifted by
//! the rule's offset. Matching is a pure function of the rule and the path.

use vstd::prelude::*;

use crate::naming::{file_name_of, spec_file_name};

verus! {

// ---------------------------------------------------------------------------
// Trusted view of the regex engine
// ---------------------------------------------------------------------------

#[verifier::external_type_specification]
#[verifier::external_body]
pub struct ExRegex(regex::Regex);

/// Whether `regex::Regex::new` accepts a pattern; compilation is a pure
/// function of the pattern text.
pub uninterp spec fn regex_compiles(pattern: Seq<char>) -> bool;

/// The pattern a compiled `regex::Regex` was built from, as
/// `regex::Regex::as_str` returns it.
pub uninterp spec fn regex_source(re: regex::Regex) -> Seq<char>;

/// What `regex::Regex::is_match` returns for a pattern and a haystack.
pub uninterp spec fn regex_match(pattern: Seq<char>, hay: Seq<char>) -> bool;

/// The capture groups of the first match that `regex::Regex::captures`
/// finds: one entry per group of the pattern, `None` for a group that did
/// not participate. Meaningful only when the regex matches the haystack.
pub uninterp spec fn regex_caps(pattern: Seq<char>, hay: Seq<char>) -> Seq<Option<Seq<char>>>;

/// The views of a list of captured strings.
pub open spec fn caps_view(v: Seq<Option<String>>) -> Seq<Option<Seq<char>>> {
    v.map_values(
        |o: Option<String>|
            match o {
                Option::Some(s) => Option::Some(s@),
                Option::None => Option::None,
            },
    )
}

/// Relies on `regex::Regex::new`: compiles a pattern, failing exactly on the
/// patterns the crate rejects, and `regex::Regex::as_str`: the compiled
/// regex keeps its source pattern.
#[verifier::external_body]
fn regex_new(pattern: &str) -> (r: Option<regex::Regex>)
    ensures
        (r is Some) == regex_compiles(pattern@),
        r is Some ==> regex_source(r->0) == pattern@,
{
    regex::Regex::new(pattern).ok()
}

/// Relies on `regex::Regex::is_match`: true if and only if the regex matches
/// somewhere in the haystack.
#[verifier::external_body]
fn regex_is_match(re: &regex::Regex, hay: &str) -> (r: bool)
    ensures
        r == regex_match(regex_source(*re), hay@),
{
    re.is_match(hay)
}

/// Relies on `regex::Regex::captures`: `Some` exactly when the regex matches
/// (as `is_match` reports); the list has one entry per capture group of the
/// pattern, and group 0, the whole match, is always present.
#[verifier::external_body]
fn regex_captures(re: &regex::Regex, hay: &str) -> (r: Option<Vec<Option<String>>>)
    ensures
        (r is Some) == regex_match(regex_source(*re), hay@),
        r is Some ==> caps_view(r->0@) == regex_caps(regex_source(*re), hay@),
        r is Some ==> r->0@.len() >= 1 && r->0@[0] is Some,
{
    match re.captures(hay) {
        Option::Some(caps) => Option::Some(
            caps.iter().map(|m| m.map(|g| g.as_str().to_string())).collect(),
        ),
        Option::None => Option::None,
    }
}

// ---------------------------------------------------------------------------
// Parsing a signed decimal number
// ---------------------------------------------------------------------------

/// A decimal digit.
pub open spec fn is_digit(c: char) -> bool {
    '0' as int <= c as int <= '9' as int
}

/// The value of a decimal digit.
pub open spec fn digit_val(c: char) -> int {
    c as int - '0' as int
}

/// Every character of the sequence is a decimal digit.
pub open spec fn all_digits(s: Seq<char>) -> bool {
    forall|i: int| 0 <= i < s.len() ==> is_digit(s[i])
}

/// The number a sequence of decimal digits denotes.
pub open spec fn digits_to_int(s: Seq<char>) -> int
    decreases s.len(),
{
    if s.len() == 0 {
        0
    } else {
        digits_to_int(s.drop_last()) * 10 + digit_val(s.last())
    }
}

/// The number a string denotes as a signed decimal `i64`: an optional sign,
/// then at least one digit, and a value within the type's range — exactly
/// when the standard library's integer parsing succeeds.
pub open spec fn spec_parse_i64(s: Seq<char>) -> Option<i64> {
    let signed = s.len() > 0 && (s[0] == '-' || s[0] == '+');
    let neg = s.len() > 0 && s[0] == '-';
    let mag = if signed {
        s.subrange(1, s.len() as int)
    } else {
        s
    };
    if mag.len() == 0 || !all_digits(mag) {
        Option::None
    } else {
        let v: int = if neg {
            -digits_to_int(mag)
        } else {
            digits_to_int(mag)
        };
        if i64::MIN <= v <= i64::MAX {
            Option::Some(v as i64)
        } else {
            Option::None
        }
    }
}

proof fn lemma_digits_nonneg(s: Seq<char>)
    requires
        all_digits(s),
    ensures
        digits_to_int(s) >= 0,
    decreases s.len(),
{
    if s.len() > 0 {
        lemma_digits_nonneg(s.drop_last());
    }
}

/// Parse a signed decimal `i64`, as `spec_parse_i64` describes it.
pub fn parse_i64(s: &str) -> (r: Option<i64>)
    ensures
        r == spec_parse_i64(s@),
{
    let n: usize = s.unicode_len();
    let mut start: usize = 0;
    let mut neg = false;
    if n > 0 {
        let c0 = s.get_char(0);
        if c0 == '-' {
            neg = true;
            start = 1;
        } else if c0 == '+' {
            start = 1;
        }
    }
    if start >= n {
        return Option::None;
    }
    let ghost mag: Seq<char> = if start == 1 {
        s@.subrange(1, n as int)
    } else {
        s@
    };
    proof {
        if start == 0 {
            assert(mag =~= s@.subrange(0, n as int));
        }
    }
    let bound: u64 = if neg {
        9223372036854775808
    } else {
        9223372036854775807
    };
    let mut acc: u64 = 0;
    let mut overflow = false;
    let mut i: usize = start;
    while i < n
        invariant
            start <= i <= n,
            n == s@.len(),
            start <= 1,
            (start == 1) == (n > 0 && (s@[0] == '-' || s@[0] == '+')),
            neg == (n > 0 && s@[0] == '-'),
            mag == s@.subrange(start as int, n as int),
            mag.len() == n - start,
            bound == (if neg { 9223372036854775808u64 } else { 9223372036854775807u64 }),
            all_digits(mag.subrange(0, i - start)),
            !overflow ==> acc == digits_to_int(mag.subrange(0, i - start)) && acc <= bound,
            overflow ==> digits_to_int(mag.subrange(0, i - start)) > bound,
        decreases n - i,
    {
        let c = s.get_char(i);
        let u = c as u32;
        if u < '0' as u32 || u > '9' as u32 {
            proof {
                assert(mag[i - start] == s@[i as int]);
                assert(!is_digit(mag[i - start]));
            }
            return Option::None;
        }
        let d: u64 = (u - '0' as u32) as u64;
        proof {
            assert(mag[i - start] == s@[i as int]);
            assert(d == digit_val(mag[i - start]));
            assert(mag.subrange(0, i + 1 - start).drop_last() =~= mag.subrange(0, i - start));
            assert(mag.subrange(0, i + 1 - start).last() == mag[i - start]);
        }
        let ghost prev: int = digits_to_int(mag.subrange(0, i - start));
        proof {
            assert(digits_to_int(mag.subrange(0, i + 1 - start)) == prev * 10 + d);
        }
        if overflow {
            proof {
                assert(prev * 10 + d > bound) by (nonlinear_arith)
                    requires
                        prev > bound,
                        d >= 0,
                        bound >= 0,
                ;
            }
        } else {
            if acc > (bound - d) / 10 {
                overflow = true;
                proof {
                    assert(acc * 10 + d > bound) by (nonlinear_arith)
                        requires
                            acc > (bound - d) / 10,
                            0 <= d <= 9,
                            d <= bound,
                    ;
                }
            } else {
                proof {
                    assert(acc * 10 + d <= bound) by (nonlinear_arith)
                        requires
                            acc <= (bound - d) / 10,
                            0 <= d <= 9,
                            d <= bound,
                    ;
                }
                acc = acc * 10 + d;
            }
        }
        i = i + 1;
    }
    proof {
        assert(mag.subrange(0, (n - start) as int) =~= mag);
        lemma_digits_nonneg(mag);
    }
    if overflow {
        return Option::None;
    }
    if neg {
        if acc == 9223372036854775808 {
            Option::Some(i64::MIN)
        } else {
            Option::Some(-(acc as i64))
        }
    } else {
        Option::Some(acc as i64)
    }
}

// ---------------------------------------------------------------------------
// Rules and the matcher
// ---------------------------------------------------------------------------

/// The remote content providers a rule can refer to.
#[derive(Clone, Copy, Debug, PartialEq, Eq, Structural)]
pub enum ProviderKnown {
    TMDB,
    IMDB,
}

/// The identity of a rule: which show it files, and on which provider.
pub struct Key {
    pub id: String,
    pub provider: ProviderKnown,
}

/// The raw, uncompiled record of a matching rule, as the external rule store
/// hands it out.
pub struct Value {
    pub tvshow_regex: String,
    pub season: u64,
    pub episode_offset: i64,
    pub episode_position: u8,
    pub episode_regex: String,
}

/// How a rule fails.
#[derive(Clone, Copy, Debug, PartialEq, Eq, Structural)]
pub enum MatcherError {
    /// The rule itself is defective: a pattern does not compile, or the
    /// captured episode text is not a number the library can represent.
    InvalidRule,
    /// The parsed episode number, after the rule's offset, is negative.
    InvalidEpisode,
    /// The rule does not apply to this path.
    NotApplicable,
}

/// A compiled matching rule.
pub struct Matcher {
    pub id: String,
    pub provider: ProviderKnown,
    pub tvshow_regex: regex::Regex,
    pub season: u64,
    pub episode_offset: i64,
    pub episode_position: u8,
    pub episode_regex: regex::Regex,
}

/// The mathematical content of a compiled rule.
pub ghost struct RuleView {
    pub id: Seq<char>,
    pub provider: ProviderKnown,
    pub tvshow_pattern: Seq<char>,
    pub season: u64,
    pub episode_offset: i64,
    pub episode_position: u8,
    pub episode_pattern: Seq<char>,
}

impl View for Matcher {
    type V = RuleView;

    open spec fn view(&self) -> RuleView {
        RuleView {
            id: self.id@,
            provider: self.provider,
            tvshow_pattern: regex_source(self.tvshow_regex),
            season: self.season,
            episode_offset: self.episode_offset,
            episode_position: self.episode_position,
            episode_pattern: regex_source(self.episode_regex),
        }
    }
}

/// What matching a rule against a path returns: a pure function of the two.
///
/// The full path must satisfy the show pattern and the file name the episode
/// pattern; the episode pattern must have exactly one capture group (the
/// whole match) and the rule's capture index must point into it, else the
/// rule is not applicable. The captured text, read as a signed decimal and
/// shifted by the rule's offset, is the episode number; a negative result is
/// an invalid episode, an unreadable number an invalid rule.
pub open spec fn spec_match(r: RuleView, path: Seq<char>) -> Result<
    (Seq<char>, u64, u64),
    MatcherError,
> {
    if !regex_match(r.tvshow_pattern, path) {
        Result::Err(MatcherError::NotApplicable)
    } else {
        let name = spec_file_name(path);
        if !regex_match(r.episode_pattern, name) {
            Result::Err(MatcherError::NotApplicable)
        } else {
            let caps = regex_caps(r.episode_pattern, name);
            if caps.len() != 1 || r.episode_position as int >= caps.len() {
                Result::Err(MatcherError::NotApplicable)
            } else {
                match caps[r.episode_position as int] {
                    Option::None => Result::Err(MatcherError::NotApplicable),
                    Option::Some(text) => match spec_parse_i64(text) {
                        Option::None => Result::Err(MatcherError::InvalidRule),
                        Option::Some(v) => {
                            let e: int = v + r.episode_offset;
                            if e < 0 {
                                Result::Err(MatcherError::InvalidEpisode)
                            } else {
                                Result::Ok((path, r.season, e as u64))
                            }
                        },
                    },
                }
            }
        }
    }
}

impl Matcher {
    /// Compile a rule record into a matcher; fails with `InvalidRule`
    /// exactly when one of its two patterns does not compile.
    pub fn try_from(key: Key, value: &Value) -> (r: Result<Matcher, MatcherError>)
        ensures
            (r is Ok) == (regex_compiles(value.tvshow_regex@) && regex_compiles(
                value.episode_regex@,
            )),
            r is Ok ==> r->Ok_0@ == (RuleView {
                id: key.id@,
                provider: key.provider,
                tvshow_pattern: value.tvshow_regex@,
                season: value.season,
                episode_offset: value.episode_offset,
                episode_position: value.episode_position,
                episode_pattern: value.episode_regex@,
            }),
            r is Err ==> r->Err_0 == MatcherError::InvalidRule,
    {
        let tvshow_regex = match regex_new(value.tvshow_regex.as_str()) {
            Option::Some(re) => re,
            Option::None => {
                return Result::Err(MatcherError::InvalidRule);
            },
        };
        let episode_regex = match regex_new(value.episode_regex.as_str()) {
            Option::Some(re) => re,
            Option::None => {
                return Result::Err(MatcherError::InvalidRule);
            },
        };
        Result::Ok(
            Matcher {
                id: key.id,
                provider: key.provider,
                season: value.season,
                episode_offset: value.episode_offset,
                episode_position: value.episode_position,
                tvshow_regex,
                episode_regex,
            },
        )
    }

    /// Match one video path against this rule, as `spec_match` describes it:
    /// the full path against the show pattern, the file name against the
    /// episode pattern, the captured number plus the offset as the episode.
    pub fn match_video(&self, file_path: &str) -> (r: Result<(String, u64, u64), MatcherError>)
        ensures
            match r {
                Result::Ok(t) => spec_match(self@, file_path@) == Result::Ok::<
                    (Seq<char>, u64, u64),
                    MatcherError,
                >((t.0@, t.1, t.2)),
                Result::Err(e) => spec_match(self@, file_path@) == Result::Err::<
                    (Seq<char>, u64, u64),
                    MatcherError,
                >(e),
            },
    {
        if !regex_is_match(&self.tvshow_regex, file_path) {
            return Result::Err(MatcherError::NotApplicable);
        }
        let name = file_name_of(file_path);
        let caps = match regex_captures(&self.episode_regex, name) {
            Option::Some(caps) => caps,
            Option::None => {
                return Result::Err(MatcherError::NotApplicable);
            },
        };
        if caps.len() != 1 {
            return Result::Err(MatcherError::NotApplicable);
        }
        let pos: usize = self.episode_position as usize;
        if pos >= caps.len() {
            return Result::Err(MatcherError::NotApplicable);
        }
        let text = match &caps[pos] {
            Option::Some(text) => text,
            Option::None => {
                return Result::Err(MatcherError::NotApplicable);
            },
        };
        proof {
            assert(caps_view(caps@)[pos as int] == regex_caps(self@.episode_pattern, name@)[
                pos as int
            ]);
        }
        let parsed = match parse_i64(text.as_str()) {
            Option::Some(v) => v,
            Option::None => {
                return Result::Err(MatcherError::InvalidRule);
            },
        };
        let shifted: i128 = parsed as i128 + self.episode_offset as i128;
        if shifted < 0 {
            Result::Err(MatcherError::InvalidEpisode)
        } else {
            Result::Ok((String::from_str(file_path), self.season, shifted as u64))
        }
    }
}

// ---------------------------------------------------------------------------
// Laws of the matcher
// ---------------------------------------------------------------------------

/// Matching is pure: it is a function of the rule and the path alone, so any
/// two results that `match_video`'s contract admits for the same rule and
/// path are equal.
pub proof fn lemma_match_deterministic(
    r: RuleView,
    path: Seq<char>,
    r1: Result<(Seq<char>, u64, u64), MatcherError>,
    r2: Result<(Seq<char>, u64, u64), MatcherError>,
)
    requires
        r1 == spec_match(r, path),
        r2 == spec_match(r, path),
    ensures
        r1 == r2,
{
}

/// A successful match returns the path it was given, the rule's own season,
/// and the captured number shifted by the rule's offset — which is then
/// non-negative.
pub proof fn lemma_match_success(r: RuleView, path: Seq<char>)
    requires
        spec_match(r, path) is Ok,
    ensures
        spec_match(r, path)->Ok_0.0 == path,
        spec_match(r, path)->Ok_0.1 == r.season,
        ({
            let caps = regex_caps(r.episode_pattern, spec_file_name(path));
            let text = caps[r.episode_position as int]->0;
            let parsed = spec_parse_i64(text)->0;
            parsed + r.episode_offset >= 0 && spec_match(r, path)->Ok_0.2 == parsed
                + r.episode_offset
        }),
{
}

/// A path that does not satisfy the show pattern never matches, whatever its
/// file name: the rule is reported as not applicable.
pub proof fn lemma_show_pattern_gate(r: RuleView, path: Seq<char>)
    requires
        !regex_match(r.tvshow_pattern, path),
    ensures
        spec_match(r, path) == Result::Err::<(Seq<char>, u64, u64), MatcherError>(
            MatcherError::NotApplicable,
        ),
{
}

} // verus!
