//! Deterministic naming for the media library: sanitized show/episode names,
//! zero-padded season and episode numbers, and the canonical folder and
//! file-name templates the library must reproduce exactly.

use vstd::prelude::*;

verus! {

// ---------------------------------------------------------------------------
// Character-level helpers
// ---------------------------------------------------------------------------

/// Characters that are not accepted in a file or folder name on the
/// filesystems the library targets.
pub open spec fn is_illegal_char(c: char) -> bool {
    ||| c == '/'
    ||| c == '\\'
    ||| c == ':'
    ||| c == '*'
    ||| c == '?'
    ||| c == '"'
    ||| c == '<'
    ||| c == '>'
    ||| c == '|'
}

/// An illegal character is replaced by an underscore; every other character
/// is kept as it is.
pub open spec fn sanitize_char(c: char) -> char {
    if is_illegal_char(c) {
        '_'
    } else {
        c
    }
}

/// The sanitized form of a name: every character mapped by `sanitize_char`.
pub open spec fn spec_sanitize(s: Seq<char>) -> Seq<char> {
    s.map_values(|c: char| sanitize_char(c))
}

/// Relies on `String::push`: appends exactly one character at the end.
#[verifier::external_body]
fn push_char(s: &mut String, c: char)
    ensures
        final(s)@ == old(s)@.push(c),
{
    s.push(c);
}

fn is_illegal(c: char) -> (r: bool)
    ensures
        r == is_illegal_char(c),
{
    c == '/' || c == '\\' || c == ':' || c == '*' || c == '?' || c == '"' || c == '<' || c == '>'
        || c == '|'
}

/// Turn an arbitrary title into a name valid on the target filesystems:
/// every illegal character is replaced by an underscore.
pub fn make_valid_pathname(title: &str) -> (r: String)
    ensures
        r@ == spec_sanitize(title@),
{
    let n: usize = title.unicode_len();
    let mut out = String::new();
    let mut i: usize = 0;
    while i < n
        invariant
            i <= n,
            n == title@.len(),
            out@ == spec_sanitize(title@.take(i as int)),
        decreases n - i,
    {
        let c = title.get_char(i);
        if is_illegal(c) {
            push_char(&mut out, '_');
        } else {
            push_char(&mut out, c);
        }
        i = i + 1;
        proof {
            assert(title@.take(i as int).drop_last() =~= title@.take(i - 1 as int));
            assert(out@ =~= spec_sanitize(title@.take(i as int)));
        }
    }
    proof {
        assert(title@.take(n as int) =~= title@);
    }
    out
}

/// Sanitizing is idempotent: a name that already went through
/// `spec_sanitize` is left unchanged by a second pass.
pub proof fn lemma_sanitize_idempotent(s: Seq<char>)
    ensures
        spec_sanitize(spec_sanitize(s)) == spec_sanitize(s),
{
    assert(spec_sanitize(spec_sanitize(s)) =~= spec_sanitize(s));
}

// ---------------------------------------------------------------------------
// Decimal rendering of numbers
// ---------------------------------------------------------------------------

/// The decimal digit character for a value below ten.
pub open spec fn digit_char(d: int) -> char {
    if d == 0 {
        '0'
    } else if d == 1 {
        '1'
    } else if d == 2 {
        '2'
    } else if d == 3 {
        '3'
    } else if d == 4 {
        '4'
    } else if d == 5 {
        '5'
    } else if d == 6 {
        '6'
    } else if d == 7 {
        '7'
    } else if d == 8 {
        '8'
    } else {
        '9'
    }
}

/// The decimal rendering of a non-negative number, without leading zeros
/// (a single `'0'` for zero).
pub open spec fn spec_decimal(n: int) -> Seq<char>
    decreases n,
{
    if n < 10 {
        seq![digit_char(n)]
    } else {
        spec_decimal(n / 10).push(digit_char(n % 10))
    }
}

/// The decimal rendering padded with a leading zero to at least two digits,
/// as in the `Season NN` / `SNNENN` templates.
pub open spec fn spec_pad2(n: int) -> Seq<char> {
    if n < 10 {
        seq!['0'] + spec_decimal(n)
    } else {
        spec_decimal(n)
    }
}

fn digit_str(d: u64) -> (r: &'static str)
    requires
        d < 10,
    ensures
        r@ == seq![digit_char(d as int)],
{
    let r: &'static str = if d == 0 {
        "0"
    } else if d == 1 {
        "1"
    } else if d == 2 {
        "2"
    } else if d == 3 {
        "3"
    } else if d == 4 {
        "4"
    } else if d == 5 {
        "5"
    } else if d == 6 {
        "6"
    } else if d == 7 {
        "7"
    } else if d == 8 {
        "8"
    } else {
        "9"
    };
    proof {
        reveal_strlit("0");
        reveal_strlit("1");
        reveal_strlit("2");
        reveal_strlit("3");
        reveal_strlit("4");
        reveal_strlit("5");
        reveal_strlit("6");
        reveal_strlit("7");
        reveal_strlit("8");
        reveal_strlit("9");
        assert(r@ =~= seq![digit_char(d as int)]);
    }
    r
}

/// Render a number in decimal.
pub fn u64_to_string(n: u64) -> (r: String)
    ensures
        r@ == spec_decimal(n as int),
    decreases n,
{
    if n < 10 {
        String::from_str(digit_str(n))
    } else {
        let mut s = u64_to_string(n / 10);
        s.append(digit_str(n % 10));
        proof {
            assert(s@ =~= spec_decimal(n as int));
        }
        s
    }
}

/// Render a number in decimal, zero-padded to at least two digits.
pub fn pad2(n: u64) -> (r: String)
    ensures
        r@ == spec_pad2(n as int),
{
    if n < 10 {
        let mut s = String::from_str("0");
        s.append(digit_str(n));
        proof {
            reveal_strlit("0");
            assert(s@ =~= spec_pad2(n as int));
        }
        s
    } else {
        u64_to_string(n)
    }
}

// ---------------------------------------------------------------------------
// File-name and extension of a path
// ---------------------------------------------------------------------------

/// Both separators are recognized so that a path is split the same way on
/// every platform.
pub open spec fn is_separator(c: char) -> bool {
    c == '/' || c == '\\'
}

/// The file name of a path: its longest suffix free of separators.
pub open spec fn spec_file_name(p: Seq<char>) -> Seq<char>
    decreases p.len(),
{
    if p.len() == 0 {
        Seq::empty()
    } else if is_separator(p.last()) {
        Seq::empty()
    } else {
        spec_file_name(p.drop_last()).push(p.last())
    }
}

proof fn lemma_file_name_suffix(p: Seq<char>, k: int)
    requires
        0 <= k <= p.len(),
        forall|j: int| k <= j < p.len() ==> !is_separator(p[j]),
        k == 0 || is_separator(p[k - 1]),
    ensures
        spec_file_name(p) == p.subrange(k, p.len() as int),
    decreases p.len(),
{
    if p.len() == 0 {
        assert(spec_file_name(p) =~= p.subrange(0, 0));
    } else if k == p.len() {
        assert(is_separator(p.last()));
        assert(spec_file_name(p) =~= p.subrange(k, p.len() as int));
    } else {
        assert(!is_separator(p.last()));
        lemma_file_name_suffix(p.drop_last(), k);
        assert(spec_file_name(p) =~= p.subrange(k, p.len() as int));
    }
}

fn is_sep(c: char) -> (r: bool)
    ensures
        r == is_separator(c),
{
    c == '/' || c == '\\'
}

/// The file name of a path: everything after the last separator.
pub fn file_name_of(path: &str) -> (r: &str)
    ensures
        r@ == spec_file_name(path@),
{
    let n: usize = path.unicode_len();
    let mut k: usize = n;
    let mut found = false;
    while k > 0 && !found
        invariant
            k <= n,
            n == path@.len(),
            forall|j: int| k <= j < n ==> !is_separator(path@[j]),
            found ==> k >= 1 && is_separator(path@[k - 1]),
        decreases k + (if found { 0int } else { 1int }),
    {
        let c = path.get_char(k - 1);
        if is_sep(c) {
            found = true;
        } else {
            k = k - 1;
        }
    }
    proof {
        lemma_file_name_suffix(path@, k as int);
    }
    path.substring_char(k, n)
}

/// The extension of a file name: everything after its last dot, where that
/// dot is not the first character. A name with no such dot has none.
pub open spec fn spec_extension(name: Seq<char>) -> Option<Seq<char>>
    decreases name.len(),
{
    if name.len() <= 1 {
        None
    } else if name.last() == '.' {
        Some(Seq::empty())
    } else {
        match spec_extension(name.drop_last()) {
            Some(e) => Some(e.push(name.last())),
            None => None,
        }
    }
}

proof fn lemma_extension_at(name: Seq<char>, k: int)
    requires
        1 <= k < name.len(),
        name[k] == '.',
        forall|j: int| k < j < name.len() ==> name[j] != '.',
    ensures
        spec_extension(name) == Some(name.subrange(k + 1, name.len() as int)),
    decreases name.len(),
{
    if k == name.len() - 1 {
        assert(spec_extension(name) =~= Some(name.subrange(k + 1, name.len() as int)));
    } else {
        lemma_extension_at(name.drop_last(), k);
        assert(name.last() != '.');
        assert(spec_extension(name)->Some_0 =~= name.subrange(k + 1, name.len() as int));
    }
}

proof fn lemma_extension_none(name: Seq<char>)
    requires
        forall|j: int| 1 <= j < name.len() ==> name[j] != '.',
    ensures
        spec_extension(name) is None,
    decreases name.len(),
{
    if name.len() > 1 {
        lemma_extension_none(name.drop_last());
    }
}

/// The extension of a file name, as `spec_extension` describes it.
pub fn extension_of(name: &str) -> (r: Option<&str>)
    ensures
        match r {
            Some(e) => spec_extension(name@) == Some(e@),
            None => spec_extension(name@) is None,
        },
{
    let n: usize = name.unicode_len();
    let mut k: usize = n;
    let mut found = false;
    while k > 1 && !found
        invariant
            k <= n,
            n == name@.len(),
            !found ==> forall|j: int| k <= j < n ==> name@[j] != '.',
            found ==> k >= 1 && k < n && name@[k as int] == '.',
            found ==> forall|j: int| k < j < n ==> name@[j] != '.',
        decreases k,
    {
        let c = name.get_char(k - 1);
        if c == '.' {
            k = k - 1;
            found = true;
        } else {
            k = k - 1;
        }
    }
    if found {
        proof {
            lemma_extension_at(name@, k as int);
        }
        Some(name.substring_char(k + 1, n))
    } else {
        proof {
            lemma_extension_none(name@);
        }
        None
    }
}

// ---------------------------------------------------------------------------
// Canonical library layout
// ---------------------------------------------------------------------------

/// The canonical season folder: `Specials` for season zero, otherwise
/// `Season NN` with the number zero-padded to two digits.
pub open spec fn spec_season_folder(season: int) -> Seq<char> {
    if season == 0 {
        "Specials"@
    } else {
        "Season "@ + spec_pad2(season)
    }
}

/// Compute the canonical season folder name.
pub fn season_folder_name(season: u64) -> (r: String)
    ensures
        r@ == spec_season_folder(season as int),
{
    if season == 0 {
        String::from_str("Specials")
    } else {
        let mut s = String::from_str("Season ");
        let p = pad2(season);
        s.append(p.as_str());
        s
    }
}

/// The shared stem of an episode's files:
/// `{show} - S{season:02}E{episode:02} - {title}`.
pub open spec fn spec_episode_stem(
    show_folder: Seq<char>,
    season: int,
    episode: int,
    title: Seq<char>,
) -> Seq<char> {
    show_folder + " - S"@ + spec_pad2(season) + "E"@ + spec_pad2(episode) + " - "@ + title
}

/// Compute the shared stem of an episode's files.
pub fn episode_stem(show_folder: &str, season: u64, episode: u64, title: &str) -> (r: String)
    ensures
        r@ == spec_episode_stem(show_folder@, season as int, episode as int, title@),
{
    let mut s = String::from_str(show_folder);
    s.append(" - S");
    let ps = pad2(season);
    s.append(ps.as_str());
    s.append("E");
    let pe = pad2(episode);
    s.append(pe.as_str());
    s.append(" - ");
    s.append(title);
    s
}

/// Character-wise string equality.
pub fn str_eq(a: &str, b: &str) -> (r: bool)
    ensures
        r == (a@ == b@),
{
    let na: usize = a.unicode_len();
    let nb: usize = b.unicode_len();
    if na != nb {
        return false;
    }
    let mut i: usize = 0;
    while i < na
        invariant
            i <= na,
            na == a@.len(),
            na == b@.len(),
            forall|j: int| 0 <= j < i ==> a@[j] == b@[j],
        decreases na - i,
    {
        if a.get_char(i) != b.get_char(i) {
            return false;
        }
        i = i + 1;
    }
    proof {
        assert(a@ =~= b@);
    }
    true
}

/// Join two path components with a forward slash.
pub fn join_path(base: &str, child: &str) -> (r: String)
    ensures
        r@ == base@ + "/"@ + child@,
{
    let mut s = String::from_str(base);
    s.append("/");
    s.append(child);
    s
}

} // verus!
