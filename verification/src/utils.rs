//! Helpers that split a path-like name into its directory part and its
//! file part, at the last `/` of the string.

use vstd::prelude::*;

verus! {

/// Index of the last `/` in `s`, or `-1` when `s` holds none.
pub open spec fn last_slash(s: Seq<char>) -> int
    decreases s.len(),
{
    if s.len() == 0 {
        -1
    } else if s[s.len() - 1] == '/' {
        s.len() - 1
    } else {
        last_slash(s.drop_last())
    }
}

/// The characters before the last `/`, or the empty sequence when there
/// is no `/`.
pub open spec fn spec_dir_name(s: Seq<char>) -> Seq<char> {
    if last_slash(s) >= 0 {
        s.subrange(0, last_slash(s))
    } else {
        Seq::empty()
    }
}

/// The characters after the last `/`, or the whole sequence when there
/// is no `/`.
pub open spec fn spec_file_name(s: Seq<char>) -> Seq<char> {
    s.subrange(last_slash(s) + 1, s.len() as int)
}

/// `last_slash` is `-1` or a valid index of `s`.
proof fn lemma_last_slash_bounds(s: Seq<char>)
    ensures
        -1 <= last_slash(s) < s.len(),
    decreases s.len(),
{
    if s.len() > 0 && s[s.len() - 1] != '/' {
        lemma_last_slash_bounds(s.drop_last());
    }
}

/// When every character from position `k + 1` on differs from `/` and the
/// character at `k` is `/`, then `k` is the last slash; when the whole
/// sequence holds no `/`, `last_slash` is `-1`.
proof fn lemma_last_slash_at(s: Seq<char>, k: int)
    requires
        0 <= k < s.len(),
        s[k] == '/',
        forall|j: int| k < j < s.len() ==> s[j] != '/',
    ensures
        last_slash(s) == k,
    decreases s.len(),
{
    if k == s.len() - 1 {
    } else {
        lemma_last_slash_at(s.drop_last(), k);
    }
}

proof fn lemma_last_slash_none(s: Seq<char>)
    requires
        forall|j: int| 0 <= j < s.len() ==> s[j] != '/',
    ensures
        last_slash(s) == -1,
    decreases s.len(),
{
    if s.len() > 0 {
        lemma_last_slash_none(s.drop_last());
    }
}

/// Position right after the last `/` of `name`, or `0` when `name` holds
/// no `/`.
fn after_last_slash(name: &str) -> (r: usize)
    ensures
        r == last_slash(name@) + 1,
{
    let n = name.unicode_len();
    let mut i = n;
    while i > 0
        invariant
            i <= n,
            n == name@.len(),
            forall|j: int| i <= j < name@.len() ==> name@[j] != '/',
        decreases i,
    {
        if name.get_char(i - 1) == '/' {
            proof {
                lemma_last_slash_at(name@, i - 1);
            }
            return i;
        }
        i = i - 1;
    }
    proof {
        lemma_last_slash_none(name@);
    }
    0
}

/// Returns the portion of `name` before the last `/`, or the empty string
/// when `name` holds no `/`.
pub fn dir_name(name: &str) -> (r: String)
    ensures
        r@ == spec_dir_name(name@),
{
    proof {
        lemma_last_slash_bounds(name@);
    }
    let k = after_last_slash(name);
    if k == 0 {
        String::new()
    } else {
        name.substring_char(0, k - 1).to_owned()
    }
}

/// Returns the portion of `name` after the last `/`, or `name` itself
/// when `name` holds no `/`.
pub fn file_name(name: &str) -> (r: String)
    ensures
        r@ == spec_file_name(name@),
{
    proof {
        lemma_last_slash_bounds(name@);
    }
    let k = after_last_slash(name);
    let n = name.unicode_len();
    name.substring_char(k, n).to_owned()
}


/// The report line for one executed test: the five fields, each between
/// double quotes, separated by commas.
pub open spec fn spec_report_line(
    dir: Seq<char>,
    file: Seq<char>,
    id: Seq<char>,
    result: Seq<char>,
    remarks: Seq<char>,
) -> Seq<char> {
    "\""@ + dir + "\",\""@ + file + "\",\""@ + id + "\",\""@ + result + "\",\""@ + remarks
        + "\""@
}

/// Builds the report line for one executed test.
pub fn report_line(dir: &str, file: &str, id: &str, result: &str, remarks: &str) -> (r: String)
    ensures
        r@ == spec_report_line(dir@, file@, id@, result@, remarks@),
{
    let mut out = String::new();
    out.append("\"");
    out.append(dir);
    out.append("\",\"");
    out.append(file);
    out.append("\",\"");
    out.append(id);
    out.append("\",\"");
    out.append(result);
    out.append("\",\"");
    out.append(remarks);
    out.append("\"");
    proof {
        assert(Seq::<char>::empty() + "\""@ =~= "\""@);
    }
    out
}


/// Whether a text matches a pattern of the regular-expression engine:
/// the decision when the pattern is valid, and nothing when it is not.
/// The engine computes it from the two strings alone.
pub uninterp spec fn pattern_match_of(pattern: Seq<char>, text: Seq<char>) -> Option<bool>;

/// Relies on the regex engine (`Regex::new`, `is_match`): the outcome
/// depends on the pattern and the text alone.
#[verifier::external_body]
fn regex_is_match(pattern: &str, text: &str) -> (r: Option<bool>)
    ensures
        match r {
            Some(b) => pattern_match_of(pattern@, text@) == Some(b),
            None => pattern_match_of(pattern@, text@) == None::<bool>,
        },
{
    regex::Regex::new(pattern).ok().map(|re| re.is_match(text))
}

/// Decides whether the file called `name` is selected by `pattern`: an
/// empty pattern selects every file, a valid pattern selects the files
/// it matches, and an invalid pattern decides nothing.
pub fn matches_file_pattern(pattern: &str, name: &str) -> (r: Option<bool>)
    ensures
        pattern@.len() == 0 ==> r == Some(true),
        pattern@.len() > 0 ==> match r {
            Some(b) => pattern_match_of(pattern@, name@) == Some(b),
            None => pattern_match_of(pattern@, name@) == None::<bool>,
        },
{
    if pattern.unicode_len() == 0 {
        Some(true)
    } else {
        regex_is_match(pattern, name)
    }
}

} // verus!
