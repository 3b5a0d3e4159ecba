//! Character-level scanning helpers for the directive payload grammar:
//! whitespace skipping, string-literal skipping, locating a top-level comma,
//! and fixed-word matching.  Each exec scanner is proved equal to a spec
//! scanner, and the directive grammar is stated over the spec scanners.

use vstd::prelude::*;

verus! {

/// The whitespace characters the payload grammar skips between tokens.
pub open spec fn is_ws_char(c: char) -> bool {
    c == ' ' || c == '\t' || c == '\n' || c == '\r'
}

/// Index of the first non-whitespace character at or after `i`.
pub open spec fn spec_skip_ws(s: Seq<char>, i: int) -> int
    decreases s.len() - i when 0 <= i <= s.len()
{
    if i < s.len() && is_ws_char(s[i]) {
        spec_skip_ws(s, i + 1)
    } else {
        i
    }
}

pub proof fn lemma_skip_ws_bounds(s: Seq<char>, i: int)
    requires
        0 <= i <= s.len(),
    ensures
        i <= spec_skip_ws(s, i) <= s.len(),
        spec_skip_ws(s, i) < s.len() ==> !is_ws_char(s[spec_skip_ws(s, i)]),
    decreases s.len() - i,
{
    if i < s.len() && is_ws_char(s[i]) {
        lemma_skip_ws_bounds(s, i + 1);
    }
}

/// Scanning inside a string literal that opened before index `i`: the index
/// just after the closing quote, or `None` if the literal never closes.
/// A backslash escapes the character after it.
pub open spec fn spec_skip_string(s: Seq<char>, i: int) -> Option<int>
    decreases s.len() - i when 0 <= i <= s.len()
{
    if i >= s.len() {
        Option::None
    } else if s[i] == '"' {
        Option::Some(i + 1)
    } else if s[i] == '\\' {
        if i + 1 >= s.len() {
            Option::None
        } else {
            spec_skip_string(s, i + 2)
        }
    } else {
        spec_skip_string(s, i + 1)
    }
}

/// Index of the next comma that separates two payload items: a comma outside
/// every bracket pair and outside every string literal.  `depth` counts open
/// brackets; `in_str` and `esc` carry the string-literal state.
pub open spec fn spec_next_comma(s: Seq<char>, i: int, depth: int, in_str: bool, esc: bool) -> Option<
    int,
>
    decreases s.len() - i when 0 <= i <= s.len()
{
    if i >= s.len() {
        Option::None
    } else {
        let c = s[i];
        if in_str {
            if esc {
                spec_next_comma(s, i + 1, depth, true, false)
            } else if c == '\\' {
                spec_next_comma(s, i + 1, depth, true, true)
            } else if c == '"' {
                spec_next_comma(s, i + 1, depth, false, false)
            } else {
                spec_next_comma(s, i + 1, depth, true, false)
            }
        } else if c == ',' && depth == 0 {
            Option::Some(i)
        } else if c == '(' || c == '[' || c == '{' {
            spec_next_comma(s, i + 1, depth + 1, false, false)
        } else if c == ')' || c == ']' || c == '}' {
            spec_next_comma(s, i + 1, if depth > 0 { depth - 1 } else { 0 }, false, false)
        } else if c == '"' {
            spec_next_comma(s, i + 1, depth, true, false)
        } else {
            spec_next_comma(s, i + 1, depth, false, false)
        }
    }
}

pub proof fn lemma_next_comma_bounds(s: Seq<char>, i: int, depth: int, in_str: bool, esc: bool)
    requires
        0 <= i <= s.len(),
    ensures
        match spec_next_comma(s, i, depth, in_str, esc) {
            Option::Some(j) => i <= j < s.len(),
            Option::None => true,
        },
    decreases s.len() - i,
{
    if i < s.len() {
        let c = s[i];
        if in_str {
            if esc {
                lemma_next_comma_bounds(s, i + 1, depth, true, false);
            } else if c == '\\' {
                lemma_next_comma_bounds(s, i + 1, depth, true, true);
            } else if c == '"' {
                lemma_next_comma_bounds(s, i + 1, depth, false, false);
            } else {
                lemma_next_comma_bounds(s, i + 1, depth, true, false);
            }
        } else if c == ',' && depth == 0 {
        } else if c == '(' || c == '[' || c == '{' {
            lemma_next_comma_bounds(s, i + 1, depth + 1, false, false);
        } else if c == ')' || c == ']' || c == '}' {
            lemma_next_comma_bounds(s, i + 1, if depth > 0 { depth - 1 } else { 0 }, false, false);
        } else if c == '"' {
            lemma_next_comma_bounds(s, i + 1, depth, true, false);
        } else {
            lemma_next_comma_bounds(s, i + 1, depth, false, false);
        }
    }
}

/// The fixed word `p` occurs in `s` starting at index `i`.
pub open spec fn matches_at(s: Seq<char>, p: Seq<char>, i: int) -> bool {
    &&& 0 <= i
    &&& i + p.len() <= s.len()
    &&& forall|k: int| 0 <= k < p.len() ==> s[i + k] == #[trigger] p[k]
}

/// The characters of `s`, one by one, so that scanning can index them
/// directly.
pub(crate) fn chars_of(s: &str, n: usize) -> (v: Vec<char>)
    requires
        n == s@.len(),
    ensures
        v@ == s@,
{
    let mut v: Vec<char> = Vec::new();
    let mut i: usize = 0;
    while i < n
        invariant
            n == s@.len(),
            i <= n,
            v@ == s@.take(i as int),
        decreases n - i,
    {
        v.push(s.get_char(i));
        i += 1;
        proof {
            assert(v@ =~= s@.take(i as int));
        }
    }
    proof {
        assert(v@ =~= s@);
    }
    v
}

pub(crate) fn skip_ws(s: &Vec<char>, i: usize) -> (r: usize)
    requires
        i <= s.len(),
    ensures
        r == spec_skip_ws(s@, i as int),
        i <= r <= s.len(),
        r < s.len() ==> !is_ws_char(s@[r as int]),
{
    let mut j = i;
    while j < s.len() && (s[j] == ' ' || s[j] == '\t' || s[j] == '\n' || s[j] == '\r')
        invariant
            i <= j <= s.len(),
            spec_skip_ws(s@, i as int) == spec_skip_ws(s@, j as int),
        decreases s.len() - j,
    {
        j += 1;
    }
    j
}

pub(crate) fn skip_string_from(s: &Vec<char>, i: usize) -> (r: Option<usize>)
    requires
        i <= s.len(),
    ensures
        match r {
            Option::Some(j) => spec_skip_string(s@, i as int) == Option::Some(j as int) && i < j
                <= s.len(),
            Option::None => spec_skip_string(s@, i as int) is None,
        },
{
    let mut j = i;
    loop
        invariant
            i <= j <= s.len(),
            spec_skip_string(s@, i as int) == spec_skip_string(s@, j as int),
        decreases s.len() - j,
    {
        if j >= s.len() {
            return Option::None;
        }
        let c = s[j];
        if c == '"' {
            return Option::Some(j + 1);
        }
        if c == '\\' {
            if j + 1 >= s.len() {
                return Option::None;
            }
            j += 2;
        } else {
            j += 1;
        }
    }
}

pub(crate) fn next_comma(s: &Vec<char>, i: usize) -> (r: Option<usize>)
    requires
        i <= s.len(),
    ensures
        match r {
            Option::Some(j) => spec_next_comma(s@, i as int, 0, false, false) == Option::Some(
                j as int,
            ) && i <= j < s.len(),
            Option::None => spec_next_comma(s@, i as int, 0, false, false) is None,
        },
{
    let mut j = i;
    let mut depth: usize = 0;
    let mut in_str = false;
    let mut esc = false;
    loop
        invariant
            i <= j <= s.len(),
            depth <= j,
            spec_next_comma(s@, i as int, 0, false, false) == spec_next_comma(
                s@,
                j as int,
                depth as int,
                in_str,
                esc,
            ),
        decreases s.len() - j,
    {
        if j >= s.len() {
            return Option::None;
        }
        let c = s[j];
        if in_str {
            if esc {
                esc = false;
            } else if c == '\\' {
                esc = true;
            } else if c == '"' {
                in_str = false;
            }
        } else if c == ',' && depth == 0 {
            return Option::Some(j);
        } else if c == '(' || c == '[' || c == '{' {
            depth += 1;
        } else if c == ')' || c == ']' || c == '}' {
            if depth > 0 {
                depth -= 1;
            }
        } else if c == '"' {
            in_str = true;
            esc = false;
        }
        j += 1;
    }
}

/// Whether the fixed word `p` occurs in `s` at index `i`.
pub(crate) fn word_at(s: &Vec<char>, i: usize, p: &Vec<char>) -> (r: bool)
    requires
        i <= s.len(),
    ensures
        r == matches_at(s@, p@, i as int),
{
    if s.len() - i < p.len() {
        return false;
    }
    let mut k: usize = 0;
    while k < p.len()
        invariant
            i + p.len() <= s.len(),
            k <= p.len(),
            forall|m: int| 0 <= m < k ==> s@[i + m] == #[trigger] p@[m],
        decreases p.len() - k,
    {
        if s[i + k] != p[k] {
            return false;
        }
        k += 1;
    }
    true
}

} // verus!
