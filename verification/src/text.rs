//! Decimal rendering and parsing of integers, stated over character sequences.

use vstd::prelude::*;
use vstd::string::*;

verus! {

/// The ASCII digit for a value below ten.
pub open spec fn digit_char(d: nat) -> char {
    if d == 0 {
        '0'
    } else if d == 1 {
        '1'
    } else if d == 2 {
        '2'
    } else if d == 3 {
        '3'
    } else if d == 4 {
        '4'
    } else if d == 5 {
        '5'
    } else if d == 6 {
        '6'
    } else if d == 7 {
        '7'
    } else if d == 8 {
        '8'
    } else {
        '9'
    }
}

/// Base-ten rendering of a natural number, most significant digit first,
/// without leading zeros (zero renders as "0").
pub open spec fn decimal(n: nat) -> Seq<char>
    decreases n,
{
    if n < 10 {
        seq![digit_char(n)]
    } else {
        decimal(n / 10).push(digit_char(n % 10))
    }
}

/// Base-ten rendering of an integer: a leading '-' for negative values.
pub open spec fn signed_decimal(i: int) -> Seq<char> {
    if i < 0 {
        seq!['-'] + decimal((-i) as nat)
    } else {
        decimal(i as nat)
    }
}

pub open spec fn is_ascii_digit(c: char) -> bool {
    '0' <= c && c <= '9'
}

pub open spec fn digit_value(c: char) -> nat {
    ((c as int) - ('0' as int)) as nat
}

/// The value of a run of ASCII digits read in base ten.
pub open spec fn digits_value(s: Seq<char>) -> nat
    decreases s.len(),
{
    if s.len() == 0 {
        0
    } else {
        digits_value(s.drop_last()) * 10 + digit_value(s.last())
    }
}

pub open spec fn all_ascii_digits(s: Seq<char>) -> bool {
    forall|i: int| 0 <= i < s.len() ==> is_ascii_digit(#[trigger] s[i])
}

/// The digits that follow an optional leading '+'.
pub open spec fn unsigned_digits(s: Seq<char>) -> Seq<char> {
    if s.len() > 0 && s[0] == '+' {
        s.drop_first()
    } else {
        s
    }
}

/// What reading a `u64` from text yields: an optional '+', then one or more
/// ASCII digits whose value fits in 64 bits; anything else is refused.
pub open spec fn parse_u64_spec(s: Seq<char>) -> Option<u64> {
    let body = unsigned_digits(s);
    if body.len() > 0 && all_ascii_digits(body) && digits_value(body) <= u64::MAX {
        Some(digits_value(body) as u64)
    } else {
        None
    }
}

/// The one-character text of a digit value.
pub fn digit_str(d: u64) -> (r: &'static str)
    requires
        d < 10,
    ensures
        r@ == seq![digit_char(d as nat)],
{
    if d == 0 {
        proof { reveal_strlit("0"); }
        "0"
    } else if d == 1 {
        proof { reveal_strlit("1"); }
        "1"
    } else if d == 2 {
        proof { reveal_strlit("2"); }
        "2"
    } else if d == 3 {
        proof { reveal_strlit("3"); }
        "3"
    } else if d == 4 {
        proof { reveal_strlit("4"); }
        "4"
    } else if d == 5 {
        proof { reveal_strlit("5"); }
        "5"
    } else if d == 6 {
        proof { reveal_strlit("6"); }
        "6"
    } else if d == 7 {
        proof { reveal_strlit("7"); }
        "7"
    } else if d == 8 {
        proof { reveal_strlit("8"); }
        "8"
    } else {
        proof { reveal_strlit("9"); }
        "9"
    }
}

/// Renders an unsigned integer in base ten.
pub fn u64_to_decimal(n: u64) -> (s: String)
    ensures
        s@ == decimal(n as nat),
    decreases n,
{
    if n < 10 {
        String::from_str(digit_str(n))
    } else {
        let mut s = u64_to_decimal(n / 10);
        s.append(digit_str(n % 10));
        s
    }
}

/// Renders a signed integer in base ten.
pub fn i64_to_decimal(n: i64) -> (s: String)
    ensures
        s@ == signed_decimal(n as int),
{
    if n < 0 {
        let wide: i128 = n as i128;
        let magnitude: u64 = (0i128 - wide) as u64;
        proof { reveal_strlit("-"); }
        let mut s = String::from_str("-");
        let digits = u64_to_decimal(magnitude);
        s.append(digits.as_str());
        s
    } else {
        u64_to_decimal(n as u64)
    }
}

proof fn lemma_digits_value_step(s: Seq<char>, i: int)
    requires
        0 <= i < s.len(),
    ensures
        digits_value(s.take(i + 1)) == digits_value(s.take(i)) * 10 + digit_value(s[i]),
{
    assert(s.take(i + 1).drop_last() =~= s.take(i));
}

/// Reads a `u64` written in base ten, optionally preceded by '+'.
pub fn parse_u64(text: &str) -> (r: Option<u64>)
    ensures
        r == parse_u64_spec(text@),
{
    let n = text.unicode_len();
    let mut start: usize = 0;
    if n > 0 && text.get_char(0) == '+' {
        start = 1;
    }
    let ghost body = unsigned_digits(text@);
    proof {
        if start == 1 {
            assert(body =~= text@.subrange(1, n as int));
        } else {
            assert(body =~= text@.subrange(0, n as int));
        }
    }
    if start == n {
        return None;
    }
    let cap: u128 = 18446744073709551616u128;
    let mut acc: u128 = 0;
    let mut i: usize = start;
    while i < n
        invariant
            n == text@.len(),
            start <= i <= n,
            start < n,
            body =~= text@.subrange(start as int, n as int),
            body == unsigned_digits(text@),
            all_ascii_digits(body.take(i - start)),
            acc == if digits_value(body.take(i - start)) < cap {
                digits_value(body.take(i - start)) as int
            } else {
                cap as int
            },
            cap == 18446744073709551616u128,
        decreases n - i,
    {
        let c = text.get_char(i);
        if !('0' <= c && c <= '9') {
            proof {
                let k = (i - start) as int;
                assert(body[k] == c);
                assert(!is_ascii_digit(body[k]));
                assert(!all_ascii_digits(body));
            }
            return None;
        }
        let d: u128 = ((c as u32) - ('0' as u32)) as u128;
        proof {
            let k = (i - start) as int;
            assert(body[k] == c);
            lemma_digits_value_step(body, k);
            let prev = digits_value(body.take(k));
            assert(digits_value(body.take(k + 1)) == prev * 10 + d);
            assert(all_ascii_digits(body.take(k + 1))) by {
                assert forall|j: int| 0 <= j < body.take(k + 1).len() implies is_ascii_digit(
                    #[trigger] body.take(k + 1)[j],
                ) by {
                    if j < k {
                        assert(body.take(k + 1)[j] == body.take(k)[j]);
                    }
                }
            }
            assert(prev * 10 + d >= prev) by (nonlinear_arith)
                requires
                    prev >= 0,
                    d >= 0,
            ;
            if prev >= cap {
                assert(prev * 10 + d >= cap) by (nonlinear_arith)
                    requires
                        prev >= cap,
                        d >= 0,
                ;
            }
        }
        let next: u128 = acc * 10 + d;
        if next >= cap {
            acc = cap;
        } else {
            acc = next;
        }
        i = i + 1;
    }
    proof {
        assert(body.take(i - start) =~= body);
    }
    if acc >= cap {
        None
    } else {
        Some(acc as u64)
    }
}

/// Whether two texts hold the same characters.
pub fn str_eq(a: &str, b: &str) -> (r: bool)
    ensures
        r == (a@ == b@),
{
    let n = a.unicode_len();
    if n != b.unicode_len() {
        return false;
    }
    let mut i: usize = 0;
    while i < n
        invariant
            n == a@.len(),
            n == b@.len(),
            0 <= i <= n,
            forall|j: int| 0 <= j < i ==> a@[j] == b@[j],
        decreases n - i,
    {
        if a.get_char(i) != b.get_char(i) {
            return false;
        }
        i = i + 1;
    }
    proof {
        assert(a@ =~= b@);
    }
    true
}

/// Whether `prefix` begins `s`.
pub open spec fn has_prefix(s: Seq<char>, prefix: Seq<char>) -> bool {
    prefix.len() <= s.len() && s.subrange(0, prefix.len() as int) == prefix
}

/// The rest of `s` after `prefix`, when `prefix` begins it.
pub fn strip_prefix<'a>(s: &'a str, prefix: &str) -> (r: Option<&'a str>)
    ensures
        has_prefix(s@, prefix@) ==> (r matches Some(rest) && rest@ == s@.subrange(
            prefix@.len() as int,
            s@.len() as int,
        )),
        !has_prefix(s@, prefix@) ==> r is None,
{
    let n = s.unicode_len();
    let m = prefix.unicode_len();
    if m > n {
        return None;
    }
    let mut i: usize = 0;
    while i < m
        invariant
            n == s@.len(),
            m == prefix@.len(),
            m <= n,
            0 <= i <= m,
            forall|j: int| 0 <= j < i ==> s@[j] == prefix@[j],
        decreases m - i,
    {
        if s.get_char(i) != prefix.get_char(i) {
            proof {
                assert(s@.subrange(0, m as int)[i as int] != prefix@[i as int]);
            }
            return None;
        }
        i = i + 1;
    }
    proof {
        assert(s@.subrange(0, m as int) =~= prefix@);
    }
    Some(s.substring_char(m, n))
}

/// Whether `suffix` ends `s`.
pub open spec fn has_suffix(s: Seq<char>, suffix: Seq<char>) -> bool {
    suffix.len() <= s.len() && s.subrange(s.len() - suffix.len(), s.len() as int) == suffix
}

/// The part of `s` before `suffix`, when `suffix` ends it.
pub fn strip_suffix<'a>(s: &'a str, suffix: &str) -> (r: Option<&'a str>)
    ensures
        has_suffix(s@, suffix@) ==> (r matches Some(rest) && rest@ == s@.subrange(
            0,
            s@.len() - suffix@.len(),
        )),
        !has_suffix(s@, suffix@) ==> r is None,
{
    let n = s.unicode_len();
    let m = suffix.unicode_len();
    if m > n {
        return None;
    }
    let d = n - m;
    let mut i: usize = 0;
    while i < m
        invariant
            n == s@.len(),
            m == suffix@.len(),
            m <= n,
            d == n - m,
            0 <= i <= m,
            forall|j: int| 0 <= j < i ==> s@[d + j] == suffix@[j],
        decreases m - i,
    {
        if s.get_char(d + i) != suffix.get_char(i) {
            proof {
                assert(s@.subrange(d as int, n as int)[i as int] != suffix@[i as int]);
            }
            return None;
        }
        i = i + 1;
    }
    proof {
        assert(s@.subrange(d as int, n as int) =~= suffix@);
    }
    Some(s.substring_char(0, d))
}

/// Whether `c` occurs in `s`.
pub fn contains_char(s: &str, c: char) -> (r: bool)
    ensures
        r == s@.contains(c),
{
    let n = s.unicode_len();
    let mut i: usize = 0;
    while i < n
        invariant
            n == s@.len(),
            0 <= i <= n,
            forall|j: int| 0 <= j < i ==> s@[j] != c,
        decreases n - i,
    {
        if s.get_char(i) == c {
            proof {
                assert(s@[i as int] == c);
            }
            return true;
        }
        i = i + 1;
    }
    false
}

/// Whether `prefix` begins `s`.
pub fn starts_with(s: &str, prefix: &str) -> (r: bool)
    ensures
        r == has_prefix(s@, prefix@),
{
    strip_prefix(s, prefix).is_some()
}

/// The code of a character with ASCII letters folded to lower case.
pub open spec fn ascii_lower(c: char) -> int {
    if 'A' <= c && c <= 'Z' {
        (c as int) + 32
    } else {
        c as int
    }
}

/// Equality of two texts ignoring ASCII case.
pub open spec fn eq_ignore_ascii_case_spec(a: Seq<char>, b: Seq<char>) -> bool {
    a.len() == b.len() && forall|i: int| 0 <= i < a.len() ==> ascii_lower(a[i]) == ascii_lower(b[i])
}

fn lower_ascii_code(c: char) -> (r: u32)
    ensures
        r as int == ascii_lower(c),
{
    if 'A' <= c && c <= 'Z' {
        (c as u32) + 32
    } else {
        c as u32
    }
}

/// Whether two texts are equal ignoring ASCII case.
pub fn eq_ignore_ascii_case(a: &str, b: &str) -> (r: bool)
    ensures
        r == eq_ignore_ascii_case_spec(a@, b@),
{
    let n = a.unicode_len();
    if n != b.unicode_len() {
        return false;
    }
    let mut i: usize = 0;
    while i < n
        invariant
            n == a@.len(),
            n == b@.len(),
            0 <= i <= n,
            forall|j: int| 0 <= j < i ==> ascii_lower(a@[j]) == ascii_lower(b@[j]),
        decreases n - i,
    {
        if lower_ascii_code(a.get_char(i)) != lower_ascii_code(b.get_char(i)) {
            return false;
        }
        i = i + 1;
    }
    true
}

/// Unicode `White_Space`, the characters `str::trim` removes.
pub open spec fn is_unicode_whitespace(c: char) -> bool {
    ('\u{9}' <= c && c <= '\u{d}') || c == ' ' || c == '\u{85}' || c == '\u{a0}' || c
        == '\u{1680}' || ('\u{2000}' <= c && c <= '\u{200a}') || c == '\u{2028}' || c
        == '\u{2029}' || c == '\u{202f}' || c == '\u{205f}' || c == '\u{3000}'
}

fn char_is_whitespace(c: char) -> (r: bool)
    ensures
        r == is_unicode_whitespace(c),
{
    ('\u{9}' <= c && c <= '\u{d}') || c == ' ' || c == '\u{85}' || c == '\u{a0}' || c
        == '\u{1680}' || ('\u{2000}' <= c && c <= '\u{200a}') || c == '\u{2028}' || c
        == '\u{2029}' || c == '\u{202f}' || c == '\u{205f}' || c == '\u{3000}'
}

/// `s` without its leading Unicode whitespace.
pub open spec fn trim_start_spec(s: Seq<char>) -> Seq<char>
    decreases s.len(),
{
    if s.len() > 0 && is_unicode_whitespace(s[0]) {
        trim_start_spec(s.drop_first())
    } else {
        s
    }
}

/// `s` without its trailing Unicode whitespace.
pub open spec fn trim_end_spec(s: Seq<char>) -> Seq<char>
    decreases s.len(),
{
    if s.len() > 0 && is_unicode_whitespace(s.last()) {
        trim_end_spec(s.drop_last())
    } else {
        s
    }
}

/// `s` with leading and trailing Unicode whitespace removed.
pub open spec fn trimmed(s: Seq<char>) -> Seq<char> {
    trim_end_spec(trim_start_spec(s))
}

/// The text with leading and trailing Unicode whitespace removed.
pub fn trim(s: &str) -> (r: &str)
    ensures
        r@ == trimmed(s@),
{
    let n = s.unicode_len();
    let mut start: usize = 0;
    proof {
        assert(s@.subrange(0, n as int) =~= s@);
    }
    while start < n && char_is_whitespace(s.get_char(start))
        invariant
            n == s@.len(),
            0 <= start <= n,
            trim_start_spec(s@) == trim_start_spec(s@.subrange(start as int, n as int)),
        decreases n - start,
    {
        proof {
            assert(s@.subrange(start as int, n as int).drop_first() =~= s@.subrange(
                start + 1,
                n as int,
            ));
        }
        start = start + 1;
    }
    proof {
        assert(trim_start_spec(s@.subrange(start as int, n as int)) == s@.subrange(
            start as int,
            n as int,
        ));
    }
    let ghost front = s@.subrange(start as int, n as int);
    let mut end: usize = n;
    proof {
        assert(front.subrange(0, (end - start) as int) =~= front);
    }
    while end > start && char_is_whitespace(s.get_char(end - 1))
        invariant
            n == s@.len(),
            0 <= start <= end <= n,
            front == s@.subrange(start as int, n as int),
            trim_end_spec(front) == trim_end_spec(front.subrange(0, (end - start) as int)),
        decreases end - start,
    {
        proof {
            let t = front.subrange(0, (end - start) as int);
            assert(t.last() == s@[end - 1]);
            assert(t.drop_last() =~= front.subrange(0, (end - 1 - start) as int));
        }
        end = end - 1;
    }
    proof {
        let t = front.subrange(0, (end - start) as int);
        if end > start {
            assert(t.last() == s@[end - 1]);
        }
        assert(trim_end_spec(t) == t);
        assert(t =~= s@.subrange(start as int, end as int));
    }
    s.substring_char(start, end)
}

/// Strict lexicographic order of texts by character (for UTF-8 text this is
/// also their byte order).
pub open spec fn lex_lt(a: Seq<char>, b: Seq<char>) -> bool
    decreases a.len(),
{
    if b.len() == 0 {
        false
    } else if a.len() == 0 {
        true
    } else if a[0] != b[0] {
        a[0] < b[0]
    } else {
        lex_lt(a.drop_first(), b.drop_first())
    }
}

pub proof fn lemma_lex_irreflexive(a: Seq<char>)
    ensures
        !lex_lt(a, a),
    decreases a.len(),
{
    if a.len() > 0 {
        lemma_lex_irreflexive(a.drop_first());
    }
}

pub proof fn lemma_lex_transitive(a: Seq<char>, b: Seq<char>, c: Seq<char>)
    requires
        lex_lt(a, b),
        lex_lt(b, c),
    ensures
        lex_lt(a, c),
    decreases a.len(),
{
    if a.len() > 0 && b.len() > 0 && c.len() > 0 {
        if a[0] == b[0] && b[0] == c[0] {
            lemma_lex_transitive(a.drop_first(), b.drop_first(), c.drop_first());
        }
    }
}

pub proof fn lemma_lex_total(a: Seq<char>, b: Seq<char>)
    requires
        a != b,
    ensures
        lex_lt(a, b) || lex_lt(b, a),
    decreases a.len(),
{
    if a.len() == 0 {
        if b.len() == 0 {
            assert(a =~= b);
        }
    } else if b.len() > 0 && a[0] == b[0] {
        if a.drop_first() == b.drop_first() {
            assert(a =~= seq![a[0]] + a.drop_first());
            assert(b =~= seq![b[0]] + b.drop_first());
        }
        lemma_lex_total(a.drop_first(), b.drop_first());
    }
}

/// Whether `a` orders strictly before `b`.
pub fn str_lt(a: &str, b: &str) -> (r: bool)
    ensures
        r == lex_lt(a@, b@),
{
    let n = a.unicode_len();
    let m = b.unicode_len();
    let mut i: usize = 0;
    proof {
        assert(a@.subrange(0, n as int) =~= a@);
        assert(b@.subrange(0, m as int) =~= b@);
    }
    while i < n && i < m
        invariant
            n == a@.len(),
            m == b@.len(),
            0 <= i <= n,
            i <= m,
            lex_lt(a@, b@) == lex_lt(a@.subrange(i as int, n as int), b@.subrange(i as int, m as int)),
        decreases n - i,
    {
        let x = a.get_char(i);
        let y = b.get_char(i);
        if x != y {
            return x < y;
        }
        proof {
            assert(a@.subrange(i as int, n as int).drop_first() =~= a@.subrange(i + 1, n as int));
            assert(b@.subrange(i as int, m as int).drop_first() =~= b@.subrange(i + 1, m as int));
        }
        i = i + 1;
    }
    i < m
}

/// The texts of a list, in order.
pub open spec fn text_views(v: Seq<String>) -> Seq<Seq<char>> {
    v.map_values(|t: String| t@)
}

/// Every text orders strictly before the next.
pub open spec fn strictly_sorted_texts(v: Seq<String>) -> bool {
    forall|i: int, j: int| 0 <= i < j < v.len() ==> lex_lt(#[trigger] v[i]@, #[trigger] v[j]@)
}

/// Adds a text to a strictly sorted list, keeping it sorted and free of
/// repeats.
pub fn insert_sorted_text(v: &mut Vec<String>, x: String)
    requires
        strictly_sorted_texts(old(v)@),
    ensures
        strictly_sorted_texts(final(v)@),
        text_views(final(v)@).to_set() == text_views(old(v)@).to_set().insert(x@),
{
    let n = v.len();
    let mut i: usize = 0;
    while i < n && str_lt(v[i].as_str(), x.as_str())
        invariant
            n == v@.len(),
            0 <= i <= n,
            forall|j: int| 0 <= j < i ==> lex_lt(#[trigger] v@[j]@, x@),
        decreases n - i,
    {
        i = i + 1;
    }
    let ghost before = v@;
    if i < n && str_eq(v[i].as_str(), x.as_str()) {
        proof {
            assert(text_views(before).to_set() =~= text_views(before).to_set().insert(x@)) by {
                assert(text_views(before)[i as int] == x@);
                assert(text_views(before).contains(x@));
            }
        }
        return;
    }
    proof {
        if i < n {
            assert(!lex_lt(before[i as int]@, x@));
            assert(before[i as int]@ != x@);
            lemma_lex_total(before[i as int]@, x@);
        }
    }
    v.insert(i, x);
    proof {
        let after = v@;
        assert(after =~= before.subrange(0, i as int).push(x).add(before.subrange(i as int, n as int)));
        assert forall|p: int, q: int| 0 <= p < q < after.len() implies lex_lt(
            #[trigger] after[p]@,
            #[trigger] after[q]@,
        ) by {
            if q < i {
                assert(after[p] == before[p] && after[q] == before[q]);
            } else if q == i {
                assert(after[p] == before[p]);
            } else if p == i {
                assert(after[q] == before[q - 1]);
                if q - 1 > i {
                    lemma_lex_transitive(x@, before[i as int]@, before[q - 1]@);
                }
            } else if p < i {
                assert(after[p] == before[p] && after[q] == before[q - 1]);
            } else {
                assert(after[p] == before[p - 1] && after[q] == before[q - 1]);
            }
        }
        assert(text_views(after).to_set() =~= text_views(before).to_set().insert(x@)) by {
            assert forall|t: Seq<char>| text_views(after).to_set().contains(t) <==> text_views(
                before,
            ).to_set().insert(x@).contains(t) by {
                if text_views(after).to_set().contains(t) {
                    assert(text_views(after).contains(t));
                    let k = choose|k: int| 0 <= k < after.len() && text_views(after)[k] == t;
                    if k < i {
                        assert(text_views(before)[k] == t);
                        assert(text_views(before).contains(t));
                    } else if k > i {
                        assert(text_views(before)[k - 1] == t);
                        assert(text_views(before).contains(t));
                    }
                }
                if text_views(before).to_set().insert(x@).contains(t) {
                    if t == x@ {
                        assert(text_views(after)[i as int] == t);
                        assert(text_views(after).contains(t));
                    } else {
                        assert(text_views(before).contains(t));
                        let k = choose|k: int| 0 <= k < before.len() && text_views(before)[k] == t;
                        if k < i {
                            assert(text_views(after)[k] == t);
                        } else {
                            assert(text_views(after)[k + 1] == t);
                        }
                        assert(text_views(after).contains(t));
                    }
                }
            }
        }
    }
}

} // verus!
