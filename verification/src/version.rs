//! Python runtime version inference.
//!
//! Two ordered sources, first match wins: the `project.requires-python`
//! field of a project descriptor, from which the first dotted numeric
//! token (two or three components) is extracted; and a plain version-pin
//! file whose trimmed contents are used as-is or prefixed with `python`.

use crate::text::{spec_starts_with, spec_trim, starts_with_prefix, trim};
use vstd::prelude::*;
use vstd::string::*;

verus! {

/// An ASCII decimal digit.
pub open spec fn is_digit(c: char) -> bool {
    '0' <= c && c <= '9'
}

/// The end of the run of digits that begins at `i`: the first index at or
/// after `i` that is out of range or holds a non-digit.
pub open spec fn run_end(s: Seq<char>, i: int) -> int
    decreases s.len() - i,
{
    if 0 <= i < s.len() && is_digit(s[i]) {
        run_end(s, i + 1)
    } else {
        i
    }
}

/// A dotted numeric token (at least two components) begins at `i`.
pub open spec fn match_at(s: Seq<char>, i: int) -> bool {
    let e1 = run_end(s, i);
    0 <= i < s.len() && is_digit(s[i]) && e1 < s.len() && s[e1] == '.' && e1 + 1 < s.len()
        && is_digit(s[e1 + 1])
}

/// The end of the token that begins at `i`: two dotted components, and a
/// third one when a further dot with digits follows directly.
pub open spec fn token_end(s: Seq<char>, i: int) -> int {
    let e1 = run_end(s, i);
    let e2 = run_end(s, e1 + 1);
    if e2 < s.len() && s[e2] == '.' && e2 + 1 < s.len() && is_digit(s[e2 + 1]) {
        run_end(s, e2 + 1)
    } else {
        e2
    }
}

/// The start of the leftmost dotted numeric token at or after `i`.
pub open spec fn first_match_from(s: Seq<char>, i: int) -> Option<int>
    decreases s.len() - i,
{
    if i >= s.len() {
        None
    } else if match_at(s, i) {
        Some(i)
    } else {
        first_match_from(s, i + 1)
    }
}

/// `s` is exactly one dotted numeric token: an integer, a dot, an
/// integer, and optionally one more dot and integer, with nothing else.
pub open spec fn is_dotted_version(s: Seq<char>) -> bool {
    match_at(s, 0) && token_end(s, 0) == s.len()
}

/// The leftmost dotted numeric token of `s` (two or three components).
pub open spec fn first_version_token(s: Seq<char>) -> Option<Seq<char>> {
    match first_match_from(s, 0) {
        Some(i) => Some(s.subrange(i, token_end(s, i))),
        None => None,
    }
}

proof fn lemma_run_end_bounds(s: Seq<char>, i: int)
    requires
        0 <= i <= s.len(),
    ensures
        i <= run_end(s, i) <= s.len(),
    decreases s.len() - i,
{
    if i < s.len() && is_digit(s[i]) {
        lemma_run_end_bounds(s, i + 1);
    }
}

proof fn lemma_run_end_at(s: Seq<char>, i: int, m: int)
    requires
        0 <= i <= m <= s.len(),
        forall|j: int| i <= j < m ==> is_digit(s[j]),
        m == s.len() || !is_digit(s[m]),
    ensures
        run_end(s, i) == m,
    decreases m - i,
{
    if i < m {
        lemma_run_end_at(s, i + 1, m);
    }
}

proof fn lemma_run_end_digits(s: Seq<char>, i: int)
    requires
        0 <= i <= s.len(),
    ensures
        i <= run_end(s, i) <= s.len(),
        forall|j: int| i <= j < run_end(s, i) ==> is_digit(s[j]),
        run_end(s, i) < s.len() ==> !is_digit(s[run_end(s, i)]),
    decreases s.len() - i,
{
    if i < s.len() && is_digit(s[i]) {
        lemma_run_end_digits(s, i + 1);
    }
}

proof fn lemma_first_match_found(s: Seq<char>, i: int)
    requires
        0 <= i,
    ensures
        match first_match_from(s, i) {
            Some(k) => i <= k < s.len() && match_at(s, k),
            None => true,
        },
    decreases s.len() - i,
{
    if i < s.len() && !match_at(s, i) {
        lemma_first_match_found(s, i + 1);
    }
}

proof fn lemma_token_is_dotted_version(s: Seq<char>, i: int)
    requires
        match_at(s, i),
    ensures
        is_dotted_version(s.subrange(i, token_end(s, i))),
{
    let e1 = run_end(s, i);
    lemma_run_end_digits(s, i);
    let e2 = run_end(s, e1 + 1);
    lemma_run_end_digits(s, e1 + 1);
    let third = e2 < s.len() && s[e2] == '.' && e2 + 1 < s.len() && is_digit(s[e2 + 1]);
    let end = token_end(s, i);
    let t = s.subrange(i, end);
    if third {
        lemma_run_end_digits(s, e2 + 1);
        lemma_run_end_at(t, 0, e1 - i);
        lemma_run_end_at(t, e1 - i + 1, e2 - i);
        lemma_run_end_at(t, e2 - i + 1, t.len() as int);
        assert(match_at(t, 0));
        assert(token_end(t, 0) == t.len());
    } else {
        lemma_run_end_at(t, 0, e1 - i);
        lemma_run_end_at(t, e1 - i + 1, t.len() as int);
        assert(match_at(t, 0));
        assert(token_end(t, 0) == t.len());
    }
}

/// A version string built from the descriptor's requirement field is
/// fully well formed: the `python` prefix followed by exactly one dotted
/// numeric token. Only the free-form pin file can yield anything weaker.
pub proof fn lemma_descriptor_version_is_well_formed(req: Seq<char>)
    ensures
        match version_from_requirement(req) {
            Some(v) => spec_starts_with(v, "python"@) && is_dotted_version(
                v.skip("python"@.len() as int),
            ),
            None => true,
        },
{
    if let Some(k) = first_match_from(req, 0) {
        lemma_first_match_found(req, 0);
        lemma_token_is_dotted_version(req, k);
        let t = req.subrange(k, token_end(req, k));
        lemma_prefix_of_concat(t);
        assert(("python"@ + t).skip("python"@.len() as int) =~= t);
    }
}

/// The version string that the descriptor's requirement field yields:
/// `python` followed by the field's leftmost dotted numeric token.
pub open spec fn version_from_requirement(req: Seq<char>) -> Option<Seq<char>> {
    match first_version_token(req) {
        Some(t) => Some("python"@ + t),
        None => None,
    }
}

/// The version string that a version-pin file's contents yield: the
/// trimmed contents, prefixed with `python` when not already so.
pub open spec fn version_from_pin(content: Seq<char>) -> Option<Seq<char>> {
    let t = spec_trim(content);
    if t.len() == 0 {
        None
    } else if spec_starts_with(t, "python"@) {
        Some(t)
    } else {
        Some("python"@ + t)
    }
}

/// The `project.requires-python` string field of the document that `s`
/// parses to, when `s` is a well-formed descriptor holding one.
pub uninterp spec fn requires_python_field(s: Seq<char>) -> Option<Seq<char>>;

/// Relies on `toml::Table`'s `FromStr` and the `get`/`as_table`/`as_str`
/// accessors: the `project.requires-python` string field of the parsed
/// document, a function of the input text alone. A document that does not
/// parse, or that lacks the field, yields nothing.
#[verifier::external_body]
fn requires_python_of(content: &str) -> (r: Option<String>)
    ensures
        match r {
            Some(v) => requires_python_field(content@) == Some(v@),
            None => requires_python_field(content@) is None,
        },
{
    let parsed: toml::Table = match content.parse() {
        Ok(t) => t,
        Err(_) => return None,
    };
    parsed
        .get("project")
        .and_then(|p| p.as_table())
        .and_then(|t| t.get("requires-python"))
        .and_then(|r| r.as_str())
        .map(|s| s.to_owned())
}

/// The version string inferred from the two sources: the descriptor's
/// requirement field when it yields a token, else the pin file.
pub open spec fn spec_python_version(
    pyproject: Option<Seq<char>>,
    pin: Option<Seq<char>>,
) -> Option<Seq<char>> {
    let from_descriptor = match pyproject {
        Some(content) => match requires_python_field(content) {
            Some(req) => version_from_requirement(req),
            None => None,
        },
        None => None,
    };
    match from_descriptor {
        Some(v) => Some(v),
        None => match pin {
            Some(content) => version_from_pin(content),
            None => None,
        },
    }
}

proof fn lemma_prefix_of_concat(t: Seq<char>)
    ensures
        spec_starts_with("python"@ + t, "python"@),
{
    assert(("python"@ + t).subrange(0, "python"@.len() as int) =~= "python"@);
}

/// A version string that the probe yields always carries the `python`
/// prefix. No more is claimed: the pin file's trimmed contents are taken
/// as written, so the dotted-pattern check can still reject them.
pub proof fn lemma_probed_version_has_prefix(
    pyproject: Option<Seq<char>>,
    pin: Option<Seq<char>>,
)
    ensures
        match spec_python_version(pyproject, pin) {
            Some(v) => spec_starts_with(v, "python"@),
            None => true,
        },
{
    if let Some(content) = pyproject {
        if let Some(req) = requires_python_field(content) {
            if let Some(t) = first_version_token(req) {
                lemma_prefix_of_concat(t);
            }
        }
    }
    if let Some(content) = pin {
        let t = spec_trim(content);
        if t.len() > 0 && !spec_starts_with(t, "python"@) {
            lemma_prefix_of_concat(t);
        }
    }
}

/// The end of the run of digits that begins at `i`.
fn digit_run_end(s: &str, i: usize) -> (e: usize)
    requires
        i <= s@.len(),
    ensures
        e == run_end(s@, i as int),
        i <= e <= s@.len(),
{
    proof {
        lemma_run_end_bounds(s@, i as int);
    }
    let n = s.unicode_len();
    let mut j = i;
    while j < n && is_digit_char(s.get_char(j))
        invariant
            i <= j <= n,
            n == s@.len(),
            run_end(s@, i as int) == run_end(s@, j as int),
        decreases n - j,
    {
        j += 1;
    }
    j
}

/// An ASCII decimal digit.
fn is_digit_char(c: char) -> (b: bool)
    ensures
        b == is_digit(c),
{
    '0' <= c && c <= '9'
}

/// A dotted numeric token begins at `i`.
fn token_matches_at(s: &str, i: usize) -> (b: bool)
    requires
        i < s@.len(),
    ensures
        b == match_at(s@, i as int),
{
    if !is_digit_char(s.get_char(i)) {
        return false;
    }
    let e1 = digit_run_end(s, i);
    let n = s.unicode_len();
    e1 < n && s.get_char(e1) == '.' && e1 + 1 < n && is_digit_char(s.get_char(e1 + 1))
}

/// The leftmost dotted numeric token of `s` (two or three components):
/// maximal runs of ASCII digits joined by single dots, the third
/// component taken when it directly follows.
pub fn extract_version_token(s: &str) -> (r: Option<&str>)
    ensures
        match r {
            Some(t) => first_version_token(s@) == Some(t@),
            None => first_version_token(s@) is None,
        },
{
    let n = s.unicode_len();
    let mut i: usize = 0;
    while i < n && !token_matches_at(s, i)
        invariant
            0 <= i <= n,
            n == s@.len(),
            first_match_from(s@, 0) == first_match_from(s@, i as int),
        decreases n - i,
    {
        i += 1;
    }
    if i == n {
        return None;
    }
    let e1 = digit_run_end(s, i);
    proof {
        lemma_run_end_bounds(s@, e1 + 1);
    }
    let e2 = digit_run_end(s, e1 + 1);
    let end = if e2 < n && s.get_char(e2) == '.' && e2 + 1 < n && is_digit_char(
        s.get_char(e2 + 1),
    ) {
        digit_run_end(s, e2 + 1)
    } else {
        e2
    };
    Some(s.substring_char(i, end))
}

/// True when `s` is exactly one dotted numeric token of two or three
/// components, with nothing before or after it.
pub fn matches_version_pattern(s: &str) -> (b: bool)
    ensures
        b == is_dotted_version(s@),
{
    let n = s.unicode_len();
    if n == 0 {
        return false;
    }
    if !token_matches_at(s, 0) {
        return false;
    }
    let e1 = digit_run_end(s, 0);
    proof {
        lemma_run_end_bounds(s@, e1 + 1);
    }
    let e2 = digit_run_end(s, e1 + 1);
    let end = if e2 < n && s.get_char(e2) == '.' && e2 + 1 < n && is_digit_char(
        s.get_char(e2 + 1),
    ) {
        digit_run_end(s, e2 + 1)
    } else {
        e2
    };
    end == n
}

/// Attempt to detect the Python version from the contents of the two
/// project files, in order: the project descriptor's requirement field,
/// then the plain version-pin file.
pub fn detect_python_version(pyproject: Option<&str>, pin: Option<&str>) -> (r: Option<String>)
    ensures
        match r {
            Some(v) => spec_python_version(spec_content(pyproject), spec_content(pin)) == Some(
                v@,
            ),
            None => spec_python_version(spec_content(pyproject), spec_content(pin)) is None,
        },
{
    if let Some(content) = pyproject {
        if let Some(req) = requires_python_of(content) {
            if let Some(token) = extract_version_token(req.as_str()) {
                let mut v = String::new();
                v.append("python");
                v.append(token);
                return Some(v);
            }
        }
    }
    if let Some(content) = pin {
        let t = trim(content);
        if t.unicode_len() > 0 {
            if starts_with_prefix(t, "python") {
                return Some(t.to_owned());
            } else {
                let mut v = String::new();
                v.append("python");
                v.append(t);
                return Some(v);
            }
        }
    }
    None
}

/// The character sequence that an optional borrowed string holds.
pub open spec fn spec_content(s: Option<&str>) -> Option<Seq<char>> {
    match s {
        Some(c) => Some(c@),
        None => None,
    }
}

} // verus!
