//! Parsing and formatting of `git diff --shortstat` style statistics.
//!
//! The parser splits the line on commas, classifies each part by the
//! keyword it contains, and reads the leading decimal token; a token
//! that is not a plain decimal number that fits `usize` yields `None`
//! for that field.

use crate::strings::{dec_rep, is_space, spec_trim, trim_str, usize_to_string};
use crate::style::{default_theme, prefix_str, reset_str, st_if, Theme};
use vstd::prelude::*;

verus! {

/// Statistics parsed from a diff summary line.
#[derive(Debug, Clone)]
pub struct DiffStats {
    pub files: Option<usize>,
    pub insertions: Option<usize>,
    pub deletions: Option<usize>,
}

/// `s` holds `sub` as a contiguous run starting at `k`.
pub open spec fn matches_at(s: Seq<char>, sub: Seq<char>, k: int) -> bool {
    0 <= k && k + sub.len() <= s.len() && s.subrange(k, k + sub.len()) == sub
}

/// `s` holds `sub` somewhere as a contiguous run.
pub open spec fn spec_contains(s: Seq<char>, sub: Seq<char>) -> bool {
    exists|k: int| matches_at(s, sub, k)
}

/// Whether `s` contains `sub` as a substring.
pub fn contains_sub(s: &str, sub: &str) -> (r: bool)
    ensures
        r == spec_contains(s@, sub@),
{
    let n = s.unicode_len();
    let m = sub.unicode_len();
    if m > n {
        assert(forall|k: int| !matches_at(s@, sub@, k));
        return false;
    }
    let mut i: usize = 0;
    while i <= n - m
        invariant
            0 <= i <= n - m + 1,
            m <= n,
            n == s@.len(),
            m == sub@.len(),
            forall|k: int| 0 <= k < i ==> !matches_at(s@, sub@, k),
        decreases n + 1 - m - i,
    {
        let mut j: usize = 0;
        while j < m && s.get_char(i + j) == sub.get_char(j)
            invariant
                0 <= j <= m,
                0 <= i <= n - m,
                n == s@.len(),
                m == sub@.len(),
                forall|q: int| 0 <= q < j ==> s@[i + q] == sub@[q],
            decreases m - j,
        {
            j = j + 1;
        }
        if j == m {
            assert(s@.subrange(i as int, i + m) =~= sub@);
            assert(matches_at(s@, sub@, i as int));
            return true;
        }
        assert(s@[i + j as int] != sub@[j as int]);
        assert(!matches_at(s@, sub@, i as int)) by {
            if matches_at(s@, sub@, i as int) {
                assert(s@.subrange(i as int, i + m)[j as int] == s@[i + j]);
            }
        }
        i = i + 1;
    }
    proof {
        if spec_contains(s@, sub@) {
            let k = choose|k: int| matches_at(s@, sub@, k);
            assert(k + m <= n);
            assert(!matches_at(s@, sub@, k));
        }
    }
    return false;
}

/// The leading run of non-whitespace characters of `s`.
pub open spec fn first_token(s: Seq<char>) -> Seq<char>
    decreases s.len(),
{
    if s.len() == 0 || is_space(s[0]) {
        Seq::<char>::empty()
    } else {
        seq![s[0]] + first_token(s.skip(1))
    }
}

proof fn lemma_first_token_at(s: Seq<char>, i: int)
    requires
        0 <= i <= s.len(),
        forall|j: int| 0 <= j < i ==> !is_space(s[j]),
        i < s.len() ==> is_space(s[i]),
    ensures
        first_token(s) == s.take(i),
    decreases i,
{
    if i == 0 {
        assert(s.take(0) =~= Seq::<char>::empty());
    } else {
        lemma_first_token_at(s.skip(1), i - 1);
        assert(seq![s[0]] + s.skip(1).take(i - 1) =~= s.take(i));
    }
}

/// The first whitespace-separated token of `s`.
pub fn first_token_str<'a>(s: &'a str) -> (r: &'a str)
    ensures
        r@ == first_token(s@),
{
    let n = s.unicode_len();
    let mut i: usize = 0;
    while i < n && !crate::strings::char_is_space(s.get_char(i))
        invariant
            0 <= i <= n,
            n == s@.len(),
            forall|j: int| 0 <= j < i ==> !is_space(s@[j]),
        decreases n - i,
    {
        i = i + 1;
    }
    proof {
        lemma_first_token_at(s@, i as int);
        assert(s@.take(i as int) =~= s@.subrange(0, i as int));
    }
    s.substring_char(0, i)
}

/// A decimal digit character.
pub open spec fn is_digit(c: char) -> bool {
    '0' <= c && c <= '9'
}

/// The value of a string of decimal digits.
pub open spec fn digits_val(s: Seq<char>) -> int
    decreases s.len(),
{
    if s.len() == 0 {
        0
    } else {
        digits_val(s.drop_last()) * 10 + (s.last() as u32 - 48)
    }
}

/// The digit part of a decimal token: everything after an optional
/// leading plus sign.
pub open spec fn digits_part(s: Seq<char>) -> Seq<char> {
    if s.len() > 0 && s[0] == '+' {
        s.skip(1)
    } else {
        s
    }
}

/// The parse of a decimal token, as `usize::from_str` reads it: an
/// optional leading plus sign, then a nonempty run of digits whose
/// value fits `usize`.
pub open spec fn spec_parse_usize(s: Seq<char>) -> Option<usize> {
    let d = digits_part(s);
    if d.len() > 0 && (forall|i: int| 0 <= i < d.len() ==> is_digit(d[i])) && digits_val(d)
        <= usize::MAX {
        Some(digits_val(d) as usize)
    } else {
        None
    }
}

proof fn lemma_digits_val_nonneg(s: Seq<char>)
    requires
        forall|j: int| 0 <= j < s.len() ==> is_digit(s[j]),
    ensures
        digits_val(s) >= 0,
    decreases s.len(),
{
    if s.len() > 0 {
        lemma_digits_val_nonneg(s.drop_last());
    }
}

proof fn lemma_digits_val_mono(s: Seq<char>, i: int)
    requires
        0 <= i <= s.len(),
        forall|j: int| 0 <= j < s.len() ==> is_digit(s[j]),
    ensures
        digits_val(s) >= digits_val(s.take(i)),
    decreases s.len() - i,
{
    if i == s.len() {
        assert(s.take(i) =~= s);
    } else {
        assert(s.take(i + 1).drop_last() =~= s.take(i));
        assert(forall|j: int| 0 <= j < s.take(i).len() ==> is_digit(s.take(i)[j]));
        lemma_digits_val_nonneg(s.take(i));
        assert(digits_val(s.take(i + 1)) == digits_val(s.take(i)) * 10 + (s[i] as u32 - 48));
        assert(digits_val(s.take(i)) * 10 >= digits_val(s.take(i)));
        lemma_digits_val_mono(s, i + 1);
    }
}

/// Parses a decimal token with an optional leading plus sign; `None`
/// when the digit part is empty, has a non-digit, or overflows.
pub fn parse_usize_token(s: &str) -> (r: Option<usize>)
    ensures
        r == spec_parse_usize(s@),
{
    let n = s.unicode_len();
    let start: usize = if n > 0 && s.get_char(0) == '+' {
        1
    } else {
        0
    };
    let ghost d = digits_part(s@);
    proof {
        assert(d =~= s@.skip(start as int));
    }
    if n == start {
        return None;
    }
    let mut i: usize = start;
    while i < n
        invariant
            start <= i <= n,
            start <= n,
            n == s@.len(),
            d == s@.skip(start as int),
            d == digits_part(s@),
            forall|j: int| 0 <= j < i - start ==> is_digit(d[j]),
        decreases n - i,
    {
        let c = s.get_char(i);
        if c < '0' || c > '9' {
            assert(d[i - start] == s@[i as int]);
            assert(!is_digit(d[i - start]));
            return None;
        }
        assert(d[i - start] == s@[i as int]);
        i = i + 1;
    }
    let mut acc: usize = 0;
    let mut k: usize = start;
    while k < n
        invariant
            start <= k <= n,
            start <= n,
            n == s@.len(),
            d == s@.skip(start as int),
            d == digits_part(s@),
            forall|j: int| 0 <= j < d.len() ==> is_digit(d[j]),
            acc == digits_val(d.take(k - start)),
        decreases n - k,
    {
        let c = s.get_char(k);
        proof {
            assert(d[k - start] == s@[k as int]);
        }
        let dv: usize = ((c as u32) - 48) as usize;
        assert(dv < 10);
        if acc > (usize::MAX - dv) / 10 {
            proof {
                assert(acc * 10 + dv > usize::MAX) by (nonlinear_arith)
                    requires
                        acc > (usize::MAX - dv) / 10,
                        dv < 10,
                ;
                assert(d.take(k + 1 - start).drop_last() =~= d.take(k - start));
                assert(digits_val(d.take(k + 1 - start)) == acc * 10 + dv);
                lemma_digits_val_mono(d, k + 1 - start);
            }
            return None;
        }
        proof {
            assert(acc * 10 + dv <= usize::MAX) by (nonlinear_arith)
                requires
                    acc <= (usize::MAX - dv) / 10,
                    dv < 10,
            ;
            assert(d.take(k + 1 - start).drop_last() =~= d.take(k - start));
        }
        acc = acc * 10 + dv;
        k = k + 1;
    }
    proof {
        assert(d.take(n - start) =~= d);
    }
    Some(acc)
}

/// One part of the comma-separated line folded into the statistics.
pub open spec fn apply_part(stats: DiffStats, part: Seq<char>) -> DiffStats {
    let t = spec_trim(part);
    if spec_contains(t, "file"@) {
        DiffStats { files: spec_parse_usize(first_token(t)), ..stats }
    } else if spec_contains(t, "insertion"@) {
        DiffStats { insertions: spec_parse_usize(first_token(t)), ..stats }
    } else if spec_contains(t, "deletion"@) {
        DiffStats { deletions: spec_parse_usize(first_token(t)), ..stats }
    } else {
        stats
    }
}

/// The first `n` parts folded into the statistics, in order.
pub open spec fn apply_parts(stats: DiffStats, parts: Seq<Seq<char>>, n: int) -> DiffStats
    decreases n,
{
    if n <= 0 {
        stats
    } else {
        apply_part(apply_parts(stats, parts, n - 1), parts[n - 1])
    }
}

/// `s` split at every comma, in order; always one more part than
/// there are commas.
pub open spec fn split_commas(s: Seq<char>) -> Seq<Seq<char>>
    decreases s.len(),
{
    if s.len() == 0 {
        seq![Seq::<char>::empty()]
    } else {
        let rest = split_commas(s.drop_last());
        if s.last() == ',' {
            rest.push(Seq::<char>::empty())
        } else {
            rest.update(rest.len() - 1, rest.last().push(s.last()))
        }
    }
}

proof fn lemma_split_commas_nonempty(s: Seq<char>)
    ensures
        split_commas(s).len() >= 1,
    decreases s.len(),
{
    if s.len() > 0 {
        lemma_split_commas_nonempty(s.drop_last());
    }
}

/// Splits `s` at every comma.
pub fn split_commas_str(s: &str) -> (parts: Vec<String>)
    ensures
        parts.deep_view() == split_commas(s@),
{
    let n = s.unicode_len();
    let mut parts: Vec<String> = Vec::new();
    let mut cur = String::new();
    let mut i: usize = 0;
    while i < n
        invariant
            0 <= i <= n,
            n == s@.len(),
            parts.deep_view().push(cur@) == split_commas(s@.take(i as int)),
        decreases n - i,
    {
        let c = s.get_char(i);
        proof {
            assert(s@.take(i + 1).drop_last() =~= s@.take(i as int));
            assert(s@.take(i + 1).last() == s@[i as int]);
        }
        if c == ',' {
            parts.push(cur);
            cur = String::new();
            assert(parts.deep_view().push(cur@) =~= split_commas(s@.take(i + 1)));
        } else {
            crate::strings::push_char(&mut cur, c);
            proof {
                let prev = split_commas(s@.take(i as int));
                lemma_split_commas_nonempty(s@.take(i as int));
                assert(parts.deep_view().push(cur@) =~= prev.update(
                    prev.len() - 1,
                    prev.last().push(c),
                ));
            }
        }
        i = i + 1;
    }
    proof {
        assert(s@.take(n as int) =~= s@);
    }
    parts.push(cur);
    assert(parts.deep_view() =~= split_commas(s@));
    parts
}

/// The statistics read from a whole shortstat line.
pub open spec fn spec_parse_diff_shortstat(s: Seq<char>) -> DiffStats {
    let parts = split_commas(s);
    apply_parts(
        DiffStats { files: None, insertions: None, deletions: None },
        parts,
        parts.len() as int,
    )
}

/// Parse `git diff --shortstat` output, e.g.
/// ` 3 files changed, 45 insertions(+), 12 deletions(-)`.
pub fn parse_diff_shortstat(output: &str) -> (r: DiffStats)
    ensures
        r == spec_parse_diff_shortstat(output@),
{
    let parts = split_commas_str(output);
    let mut stats = DiffStats { files: None, insertions: None, deletions: None };
    let ghost init = stats;
    let mut i: usize = 0;
    while i < parts.len()
        invariant
            0 <= i <= parts@.len(),
            parts.deep_view().len() == parts@.len(),
            forall|j: int| 0 <= j < parts@.len() ==> parts.deep_view()[j] == parts@[j]@,
            parts.deep_view() == split_commas(output@),
            stats == apply_parts(init, parts.deep_view(), i as int),
            init == (DiffStats { files: None, insertions: None, deletions: None }),
        decreases parts@.len() - i,
    {
        let t = trim_str(parts[i].as_str());
        if contains_sub(t, "file") {
            let tok = first_token_str(t);
            stats.files = parse_usize_token(tok);
        } else if contains_sub(t, "insertion") {
            let tok = first_token_str(t);
            stats.insertions = parse_usize_token(tok);
        } else if contains_sub(t, "deletion") {
            let tok = first_token_str(t);
            stats.deletions = parse_usize_token(tok);
        }
        i = i + 1;
    }
    stats
}

/// The summary parts: a file count with its plural, then
/// `+insertions` and `-deletions` counts (styled only when
/// `use_color` is set), each present only when parsed.
pub open spec fn spec_format_summary(s: DiffStats, use_color: bool) -> Seq<Seq<char>> {
    let th = default_theme();
    (match s.files {
        Some(n) => seq![
            dec_rep(n as nat) + " file"@ + (if n == 1 {
                Seq::<char>::empty()
            } else {
                "s"@
            }),
        ],
        None => Seq::<Seq<char>>::empty(),
    }) + (match s.insertions {
        Some(n) => seq![st_if(use_color, th.addition, "+"@ + dec_rep(n as nat))],
        None => Seq::<Seq<char>>::empty(),
    }) + (match s.deletions {
        Some(n) => seq![st_if(use_color, th.deletion, "-"@ + dec_rep(n as nat))],
        None => Seq::<Seq<char>>::empty(),
    })
}

impl DiffStats {
    /// Format the statistics as summary parts, e.g.
    /// `["3 files", "+45", "-12"]` with the counts styled.
    pub fn format_summary(&self, use_color: bool) -> (parts: Vec<String>)
        ensures
            parts.deep_view() == spec_format_summary(*self, use_color),
    {
        let th = Theme::new();
        let mut parts: Vec<String> = Vec::new();
        if let Some(files) = self.files {
            let mut p = usize_to_string(files);
            p.append(" file");
            if files != 1 {
                p.append("s");
            }
            parts.push(p);
        }
        if let Some(insertions) = self.insertions {
            let mut p = prefix_str(use_color, &th.addition);
            p.append("+");
            let num = usize_to_string(insertions);
            p.append(num.as_str());
            let reset = reset_str(use_color, &th.addition);
            p.append(reset.as_str());
            parts.push(p);
        }
        if let Some(deletions) = self.deletions {
            let mut p = prefix_str(use_color, &th.deletion);
            p.append("-");
            let num = usize_to_string(deletions);
            p.append(num.as_str());
            let reset = reset_str(use_color, &th.deletion);
            p.append(reset.as_str());
            parts.push(p);
        }
        assert(parts.deep_view() =~~= spec_format_summary(*self, use_color));
        parts
    }
}

} // verus!
