//! Small verified string helpers: character pushes, padding, and
//! decimal formatting of integers.

use vstd::prelude::*;

verus! {

/// No character of `s` is the NUL character (the directive sentinel).
pub open spec fn no_nul(s: Seq<char>) -> bool {
    forall|i: int| 0 <= i < s.len() ==> s[i] != '\0'
}

/// Relies on `String::push` from std: appends exactly one character.
#[verifier::external_body]
pub(crate) fn push_char(s: &mut String, c: char)
    ensures
        final(s)@ == old(s)@.push(c),
{
    s.push(c);
}

/// A run of `n` spaces, used to pad table cells.
pub fn spaces(n: usize) -> (r: String)
    ensures
        r@ == Seq::new(n as nat, |i: int| ' '),
{
    let mut r = String::new();
    let mut i: usize = 0;
    while i < n
        invariant
            i <= n,
            r@ == Seq::new(i as nat, |j: int| ' '),
        decreases n - i,
    {
        push_char(&mut r, ' ');
        i = i + 1;
        assert(r@ =~= Seq::new(i as nat, |j: int| ' '));
    }
    r
}

/// The character for the decimal digit `d`.
pub open spec fn dec_digit(d: nat) -> char
    recommends
        d < 10,
{
    ((d + 48) as u8) as char
}

/// The decimal representation of `n`, most significant digit first.
pub open spec fn dec_rep(n: nat) -> Seq<char>
    decreases n,
{
    if n < 10 {
        seq![dec_digit(n)]
    } else {
        dec_rep(n / 10).push(dec_digit(n % 10))
    }
}

/// The decimal representation of a signed value: a minus sign before
/// the digits when the value is negative.
pub open spec fn int_rep(v: int) -> Seq<char> {
    if v < 0 {
        seq!['-'] + dec_rep((-v) as nat)
    } else {
        dec_rep(v as nat)
    }
}

/// The digit characters of `ds` read back to front.
spec fn rev_digit_chars(ds: Seq<u64>) -> Seq<char> {
    Seq::new(ds.len(), |i: int| dec_digit(ds[ds.len() - 1 - i] as nat))
}

/// Formats `n` in decimal.
pub fn u64_to_string(n: u64) -> (r: String)
    ensures
        r@ == dec_rep(n as nat),
{
    let mut digits: Vec<u64> = Vec::new();
    let mut m: u64 = n;
    loop
        invariant_except_break
            dec_rep(n as nat) == dec_rep(m as nat) + rev_digit_chars(digits@),
            forall|i: int| 0 <= i < digits@.len() ==> digits@[i] < 10,
        ensures
            dec_rep(n as nat) == rev_digit_chars(digits@),
            forall|i: int| 0 <= i < digits@.len() ==> digits@[i] < 10,
            digits@.len() >= 1,
        decreases m,
    {
        let d = m % 10;
        let ghost old_digits = digits@;
        digits.push(d);
        assert(rev_digit_chars(digits@) =~= seq![dec_digit(d as nat)] + rev_digit_chars(
            old_digits,
        ));
        if m < 10 {
            assert(dec_rep(m as nat) == seq![dec_digit(m as nat)]);
            assert(dec_rep(n as nat) =~= rev_digit_chars(digits@));
            break ;
        }
        assert(dec_rep(m as nat) == dec_rep((m / 10) as nat).push(dec_digit((m % 10) as nat)));
        assert(dec_rep((m / 10) as nat) + rev_digit_chars(digits@) =~= dec_rep(m as nat)
            + rev_digit_chars(old_digits));
        m = m / 10;
    }
    let k = digits.len();
    let mut r = String::new();
    let mut i: usize = 0;
    while i < k
        invariant
            i <= k,
            k == digits@.len(),
            forall|j: int| 0 <= j < digits@.len() ==> digits@[j] < 10,
            dec_rep(n as nat) == rev_digit_chars(digits@),
            r@ == rev_digit_chars(digits@).take(i as int),
        decreases k - i,
    {
        let d = digits[k - 1 - i];
        let c = (48 + d as u8) as char;
        assert(c == dec_digit(d as nat));
        push_char(&mut r, c);
        i = i + 1;
        assert(r@ =~= rev_digit_chars(digits@).take(i as int));
    }
    assert(r@ =~= rev_digit_chars(digits@));
    r
}

/// Formats a `usize` in decimal.
pub fn usize_to_string(n: usize) -> (r: String)
    ensures
        r@ == dec_rep(n as nat),
{
    u64_to_string(n as u64)
}

/// Formats a `u32` in decimal.
pub fn u32_to_string(n: u32) -> (r: String)
    ensures
        r@ == dec_rep(n as nat),
{
    u64_to_string(n as u64)
}

/// Formats a signed value in decimal, with a leading minus sign when
/// it is negative.
pub fn i32_to_string(v: i32) -> (r: String)
    ensures
        r@ == int_rep(v as int),
{
    if v < 0 {
        let mag: u64 = (-(v as i64)) as u64;
        let mut r = String::new();
        push_char(&mut r, '-');
        let digits = u64_to_string(mag);
        r.append(digits.as_str());
        assert(r@ =~= int_rep(v as int));
        r
    } else {
        let r = u64_to_string(v as u64);
        r
    }
}

/// How often the character `c` occurs in `s`.
pub open spec fn count_occ(s: Seq<char>, c: char) -> int
    decreases s.len(),
{
    if s.len() == 0 {
        0
    } else {
        count_occ(s.drop_last(), c) + (if s.last() == c {
            1int
        } else {
            0int
        })
    }
}

/// Occurrence counts add up over concatenation.
pub proof fn lemma_count_occ_concat(a: Seq<char>, b: Seq<char>, c: char)
    ensures
        count_occ(a + b, c) == count_occ(a, c) + count_occ(b, c),
    decreases b.len(),
{
    if b.len() == 0 {
        assert(a + b =~= a);
    } else {
        assert((a + b).drop_last() =~= a + b.drop_last());
        lemma_count_occ_concat(a, b.drop_last(), c);
    }
}

/// A character occurs zero times exactly when no position holds it.
pub proof fn lemma_count_occ_zero(s: Seq<char>, c: char)
    ensures
        (count_occ(s, c) == 0) <==> (forall|i: int| 0 <= i < s.len() ==> s[i] != c),
    decreases s.len(),
{
    if s.len() > 0 {
        lemma_count_occ_zero(s.drop_last(), c);
        lemma_count_occ_nonneg(s.drop_last(), c);
        assert(forall|i: int| 0 <= i < s.len() - 1 ==> s.drop_last()[i] == s[i]);
        if count_occ(s, c) == 0 {
            assert(forall|i: int| 0 <= i < s.len() ==> s[i] != c) by {
                assert(s.last() != c);
                assert(forall|i: int| 0 <= i < s.len() - 1 ==> s[i] == s.drop_last()[i]);
            }
        }
    }
}

/// Occurrence counts are never negative.
pub proof fn lemma_count_occ_nonneg(s: Seq<char>, c: char)
    ensures
        count_occ(s, c) >= 0,
    decreases s.len(),
{
    if s.len() > 0 {
        lemma_count_occ_nonneg(s.drop_last(), c);
    }
}

/// Decimal digit strings never hold the sentinel character.
pub proof fn lemma_dec_rep_no_nul(n: nat)
    ensures
        no_nul(dec_rep(n)),
    decreases n,
{
    if n < 10 {
        assert(dec_digit(n) != '\0');
    } else {
        lemma_dec_rep_no_nul(n / 10);
        assert(dec_digit(n % 10) != '\0');
    }
}

/// Joining sentinel-free parts with a sentinel-free separator stays
/// sentinel-free.
pub proof fn lemma_join_no_nul(ss: Seq<Seq<char>>, sep: Seq<char>)
    requires
        forall|i: int| 0 <= i < ss.len() ==> no_nul(#[trigger] ss[i]),
        no_nul(sep),
    ensures
        no_nul(join_with(ss, sep)),
    decreases ss.len(),
{
    if ss.len() > 1 {
        lemma_join_no_nul(ss.drop_last(), sep);
    }
}

/// Quoting a sentinel-free text behind a gutter stays sentinel-free.
pub proof fn lemma_gutter_no_nul(s: Seq<char>)
    requires
        no_nul(s),
    ensures
        no_nul(spec_with_gutter(s)),
{
    reveal_strlit("  \u{2502} ");
    lemma_gutter_body_no_nul(s);
}

proof fn lemma_gutter_body_no_nul(s: Seq<char>)
    requires
        no_nul(s),
    ensures
        no_nul(gutter_body(s)),
    decreases s.len(),
{
    reveal_strlit("  \u{2502} ");
    if s.len() > 0 {
        assert(no_nul(s.drop_last()));
        lemma_gutter_body_no_nul(s.drop_last());
    }
}

/// The whitespace characters that trimming removes: the Unicode
/// `White_Space` set, as `char::is_whitespace` accepts it.
pub open spec fn is_space(c: char) -> bool {
    ('\u{9}' <= c && c <= '\u{d}') || c == ' ' || c == '\u{85}' || c == '\u{a0}'
        || c == '\u{1680}' || ('\u{2000}' <= c && c <= '\u{200a}') || c == '\u{2028}'
        || c == '\u{2029}' || c == '\u{202f}' || c == '\u{205f}' || c == '\u{3000}'
}

/// `s` without its leading whitespace.
pub open spec fn trim_start(s: Seq<char>) -> Seq<char>
    decreases s.len(),
{
    if s.len() > 0 && is_space(s[0]) {
        trim_start(s.skip(1))
    } else {
        s
    }
}

/// `s` without its trailing whitespace.
pub open spec fn trim_end(s: Seq<char>) -> Seq<char>
    decreases s.len(),
{
    if s.len() > 0 && is_space(s.last()) {
        trim_end(s.drop_last())
    } else {
        s
    }
}

/// `s` without leading and trailing whitespace.
pub open spec fn spec_trim(s: Seq<char>) -> Seq<char> {
    trim_end(trim_start(s))
}

/// Whether `c` is one of the whitespace characters trimming removes.
pub fn char_is_space(c: char) -> (r: bool)
    ensures
        r == is_space(c),
{
    ('\u{9}' <= c && c <= '\u{d}') || c == ' ' || c == '\u{85}' || c == '\u{a0}'
        || c == '\u{1680}' || ('\u{2000}' <= c && c <= '\u{200a}') || c == '\u{2028}'
        || c == '\u{2029}' || c == '\u{202f}' || c == '\u{205f}' || c == '\u{3000}'
}

proof fn lemma_trim_start_at(s: Seq<char>, i: int)
    requires
        0 <= i <= s.len(),
        forall|j: int| 0 <= j < i ==> is_space(s[j]),
        i < s.len() ==> !is_space(s[i]),
    ensures
        trim_start(s) == s.skip(i),
    decreases i,
{
    if i == 0 {
        assert(s.skip(0) =~= s);
    } else {
        lemma_trim_start_at(s.skip(1), i - 1);
        assert(s.skip(1).skip(i - 1) =~= s.skip(i));
    }
}

proof fn lemma_trim_end_at(s: Seq<char>, j: int)
    requires
        0 <= j <= s.len(),
        forall|k: int| j <= k < s.len() ==> is_space(s[k]),
        j > 0 ==> !is_space(s[j - 1]),
    ensures
        trim_end(s) == s.take(j),
    decreases s.len() - j,
{
    if j == s.len() {
        assert(s.take(j) =~= s);
    } else {
        assert(is_space(s.last()));
        lemma_trim_end_at(s.drop_last(), j);
        assert(s.drop_last().take(j) =~= s.take(j));
    }
}

/// `s` with leading and trailing whitespace removed.
pub fn trim_str<'a>(s: &'a str) -> (r: &'a str)
    ensures
        r@ == spec_trim(s@),
{
    let n = s.unicode_len();
    let mut i: usize = 0;
    while i < n && char_is_space(s.get_char(i))
        invariant
            0 <= i <= n,
            n == s@.len(),
            forall|j: int| 0 <= j < i ==> is_space(s@[j]),
        decreases n - i,
    {
        i = i + 1;
    }
    proof {
        lemma_trim_start_at(s@, i as int);
    }
    let mut j: usize = n;
    while j > i && char_is_space(s.get_char(j - 1))
        invariant
            i <= j <= n,
            n == s@.len(),
            forall|k: int| j <= k < n ==> is_space(s@[k]),
        decreases j,
    {
        j = j - 1;
    }
    proof {
        lemma_trim_end_at(s@.skip(i as int), j - i);
        assert(s@.skip(i as int).take(j - i) =~= s@.subrange(i as int, j as int));
    }
    s.substring_char(i, j)
}

/// `s` with trailing whitespace removed.
pub fn trim_end_str<'a>(s: &'a str) -> (r: &'a str)
    ensures
        r@ == trim_end(s@),
{
    let n = s.unicode_len();
    let mut j: usize = n;
    while j > 0 && char_is_space(s.get_char(j - 1))
        invariant
            0 <= j <= n,
            n == s@.len(),
            forall|k: int| j <= k < n ==> is_space(s@[k]),
        decreases j,
    {
        j = j - 1;
    }
    proof {
        lemma_trim_end_at(s@, j as int);
    }
    s.substring_char(0, j)
}

/// The sequences of `ss` joined by the separator `sep`.
pub open spec fn join_with(ss: Seq<Seq<char>>, sep: Seq<char>) -> Seq<char>
    decreases ss.len(),
{
    if ss.len() == 0 {
        Seq::<char>::empty()
    } else if ss.len() == 1 {
        ss[0]
    } else {
        join_with(ss.drop_last(), sep) + sep + ss.last()
    }
}

/// Joins the strings of `parts` with the separator `sep`.
pub fn join_strings(parts: &Vec<String>, sep: &str) -> (r: String)
    ensures
        r@ == join_with(parts.deep_view(), sep@),
{
    let mut r = String::new();
    let mut i: usize = 0;
    while i < parts.len()
        invariant
            0 <= i <= parts@.len(),
            parts.deep_view().len() == parts@.len(),
            forall|j: int| 0 <= j < parts@.len() ==> parts.deep_view()[j] == parts@[j]@,
            r@ == join_with(parts.deep_view().take(i as int), sep@),
        decreases parts@.len() - i,
    {
        if i > 0 {
            r.append(sep);
        }
        r.append(parts[i].as_str());
        i = i + 1;
        proof {
            let pv = parts.deep_view();
            if i == 1 {
                assert(pv.take(1int) =~= seq![pv[0]]);
                assert(join_with(pv.take(1int), sep@) == pv[0]);
            } else {
                assert(pv.take(i as int).drop_last() =~= pv.take(i - 1));
                assert(pv.take(i as int).last() == pv[i - 1]);
            }
        }
    }
    proof {
        assert(parts.deep_view().take(parts@.len() as int) =~= parts.deep_view());
    }
    r
}

/// The gutter marker written in front of each quoted line.
pub open spec fn gutter_marker() -> Seq<char> {
    "  \u{2502} "@
}

/// The body of a gutter-quoted text: every newline is followed by a
/// fresh gutter marker.
pub open spec fn gutter_body(s: Seq<char>) -> Seq<char>
    decreases s.len(),
{
    if s.len() == 0 {
        Seq::<char>::empty()
    } else {
        gutter_body(s.drop_last()) + (if s.last() == '\n' {
            seq!['\n'] + gutter_marker()
        } else {
            seq![s.last()]
        })
    }
}

/// A text quoted behind a gutter: a marker at the start of every line.
pub open spec fn spec_with_gutter(s: Seq<char>) -> Seq<char> {
    gutter_marker() + gutter_body(s)
}

/// Quotes `text` behind a gutter marker, one marker per line.
pub fn format_with_gutter(text: &str) -> (r: String)
    ensures
        r@ == spec_with_gutter(text@),
{
    let n = text.unicode_len();
    let mut r = String::new();
    r.append("  \u{2502} ");
    let mut i: usize = 0;
    while i < n
        invariant
            0 <= i <= n,
            n == text@.len(),
            r@ == gutter_marker() + gutter_body(text@.take(i as int)),
        decreases n - i,
    {
        let c = text.get_char(i);
        if c == '\n' {
            push_char(&mut r, '\n');
            r.append("  \u{2502} ");
        } else {
            push_char(&mut r, c);
        }
        i = i + 1;
        proof {
            assert(text@.take(i as int).drop_last() =~= text@.take(i - 1));
            assert(text@.take(i as int).last() == text@[i - 1]);
            if c == '\n' {
                assert(r@ =~= gutter_marker() + gutter_body(text@.take(i as int)));
            } else {
                assert(r@ =~= gutter_marker() + gutter_body(text@.take(i as int)));
            }
        }
    }
    proof {
        assert(text@.take(n as int) =~= text@);
    }
    r
}

} // verus!
