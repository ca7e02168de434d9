//! Verified text building and inspection helpers.
//!
//! Everything here is specified against `Seq<char>` views: number formatting
//! used for identifiers and timestamps, and substring search used by the
//! diagnostics parser.

use vstd::prelude::*;

verus! {

/// The sixteen lowercase hex digits, in value order.
pub open spec fn digit_chars() -> Seq<char> {
    seq!['0', '1', '2', '3', '4', '5', '6', '7', '8', '9', 'a', 'b', 'c', 'd', 'e', 'f']
}

/// The character for digit value `d` (`0 <= d < 16`).
pub open spec fn digit_char(d: int) -> char {
    digit_chars()[d]
}

/// Fixed-width base-16 rendering of `n`: exactly `width` digits, most
/// significant first, zero padded.
pub open spec fn hex_rep(n: int, width: int) -> Seq<char>
    decreases width,
{
    if width <= 0 {
        Seq::empty()
    } else {
        hex_rep(n / 16, width - 1).push(digit_char(n % 16))
    }
}

/// Decimal rendering of `n >= 0`, without leading zeros.
pub open spec fn dec_rep(n: int) -> Seq<char>
    decreases n,
{
    if n < 10 {
        seq![digit_char(if n < 0 { 0 } else { n })]
    } else {
        dec_rep(n / 10).push(digit_char(n % 10))
    }
}

/// Append the single digit `d` to `s`.
fn append_digit(s: &mut String, d: u64)
    requires
        d < 16,
    ensures
        final(s)@ == old(s)@.push(digit_char(d as int)),
{
    proof {
        reveal_strlit("0");
        reveal_strlit("1");
        reveal_strlit("2");
        reveal_strlit("3");
        reveal_strlit("4");
        reveal_strlit("5");
        reveal_strlit("6");
        reveal_strlit("7");
        reveal_strlit("8");
        reveal_strlit("9");
        reveal_strlit("a");
        reveal_strlit("b");
        reveal_strlit("c");
        reveal_strlit("d");
        reveal_strlit("e");
        reveal_strlit("f");
    }
    let piece: &str = match d {
        0 => "0",
        1 => "1",
        2 => "2",
        3 => "3",
        4 => "4",
        5 => "5",
        6 => "6",
        7 => "7",
        8 => "8",
        9 => "9",
        10 => "a",
        11 => "b",
        12 => "c",
        13 => "d",
        14 => "e",
        _ => "f",
    };
    s.append(piece);
    proof {
        assert(final(s)@ =~= old(s)@.push(digit_char(d as int)));
    }
}

/// Append the `width`-digit zero-padded hex rendering of `n` to `s`.
pub fn append_hex(s: &mut String, n: u64, width: u8)
    ensures
        final(s)@ == old(s)@ + hex_rep(n as int, width as int),
    decreases width,
{
    if width == 0 {
        proof {
            assert(final(s)@ =~= old(s)@ + hex_rep(n as int, 0));
        }
    } else {
        append_hex(s, n / 16, width - 1);
        append_digit(s, n % 16);
        proof {
            assert(final(s)@ =~= old(s)@ + hex_rep(n as int, width as int));
        }
    }
}

/// Append the decimal rendering of `n` to `s`.
pub fn append_dec(s: &mut String, n: u64)
    ensures
        final(s)@ == old(s)@ + dec_rep(n as int),
    decreases n,
{
    if n < 10 {
        append_digit(s, n);
        proof {
            assert(final(s)@ =~= old(s)@ + dec_rep(n as int));
        }
    } else {
        append_dec(s, n / 10);
        append_digit(s, n % 10);
        proof {
            assert(final(s)@ =~= old(s)@ + dec_rep(n as int));
        }
    }
}

/// Whether `pat` occurs in `s` starting at position `i`.
pub open spec fn contains_at(s: Seq<char>, pat: Seq<char>, i: int) -> bool {
    &&& 0 <= i
    &&& i + pat.len() <= s.len()
    &&& s.subrange(i, i + pat.len()) == pat
}

/// Whether `pat` occurs anywhere in `s`.
pub open spec fn spec_contains(s: Seq<char>, pat: Seq<char>) -> bool {
    exists|i: int| contains_at(s, pat, i)
}

/// Position of the leftmost occurrence of `pat` in `s`. Meaningful only
/// when `spec_contains(s, pat)` holds.
pub open spec fn first_match(s: Seq<char>, pat: Seq<char>) -> int
    decreases s.len(),
{
    if contains_at(s, pat, 0) {
        0
    } else if s.len() == 0 {
        0
    } else {
        1 + first_match(s.drop_first(), pat)
    }
}

/// An occurrence of `pat` in `s` shifts to the suffix `s.drop_first()` and
/// back.
proof fn lemma_contains_at_shift(s: Seq<char>, pat: Seq<char>, i: int)
    requires
        s.len() > 0,
        i >= 1,
    ensures
        contains_at(s, pat, i) <==> contains_at(s.drop_first(), pat, i - 1),
{
    if contains_at(s, pat, i) {
        assert(s.drop_first().subrange(i - 1, i - 1 + pat.len()) =~= s.subrange(
            i,
            i + pat.len(),
        ));
    }
    if contains_at(s.drop_first(), pat, i - 1) {
        assert(s.subrange(i, i + pat.len()) =~= s.drop_first().subrange(
            i - 1,
            i - 1 + pat.len(),
        ));
    }
}

/// When `pat` occurs in `s`, `first_match` names its leftmost occurrence.
pub proof fn lemma_first_match(s: Seq<char>, pat: Seq<char>)
    requires
        spec_contains(s, pat),
    ensures
        contains_at(s, pat, first_match(s, pat)),
        forall|j: int| 0 <= j < first_match(s, pat) ==> !contains_at(s, pat, j),
        0 <= first_match(s, pat) <= s.len() - pat.len(),
    decreases s.len(),
{
    if contains_at(s, pat, 0) {
    } else {
        let w = choose|i: int| contains_at(s, pat, i);
        assert(w >= 1);
        assert(s.len() > 0);
        lemma_contains_at_shift(s, pat, w);
        assert(contains_at(s.drop_first(), pat, w - 1));
        lemma_first_match(s.drop_first(), pat);
        let f = first_match(s.drop_first(), pat);
        lemma_contains_at_shift(s, pat, f + 1);
        assert forall|j: int| 0 <= j < first_match(s, pat) implies !contains_at(s, pat, j) by {
            if j >= 1 {
                lemma_contains_at_shift(s, pat, j);
            }
        }
    }
}

/// The leftmost occurrence is unique: any occurrence with nothing to its
/// left is `first_match`.
pub proof fn lemma_first_match_unique(s: Seq<char>, pat: Seq<char>, i: int)
    requires
        contains_at(s, pat, i),
        forall|j: int| 0 <= j < i ==> !contains_at(s, pat, j),
    ensures
        i == first_match(s, pat),
{
    lemma_first_match(s, pat);
    let f = first_match(s, pat);
    if f < i {
        assert(contains_at(s, pat, f));
    }
    if i < f {
        assert(!contains_at(s, pat, i));
    }
}

/// Whether `pat` occurs in `s` at position `i`.
fn match_at(s: &str, pat: &str, i: usize) -> (r: bool)
    requires
        i + pat@.len() <= s@.len(),
    ensures
        r == contains_at(s@, pat@, i as int),
{
    let n = s.unicode_len();
    let m = pat.unicode_len();
    let mut j: usize = 0;
    while j < m
        invariant
            j <= m,
            n == s@.len(),
            m == pat@.len(),
            i + m <= n,
            forall|k: int| 0 <= k < j ==> s@[i + k] == pat@[k],
        decreases m - j,
    {
        if s.get_char(i + j) != pat.get_char(j) {
            proof {
                assert(s@.subrange(i as int, i + pat@.len())[j as int] != pat@[j as int]);
            }
            return false;
        }
        j = j + 1;
    }
    proof {
        assert(s@.subrange(i as int, i + pat@.len()) =~= pat@);
    }
    true
}

/// Position of the leftmost occurrence of `pat` in `s`, if any.
pub fn find_sub(s: &str, pat: &str) -> (r: Option<usize>)
    ensures
        match r {
            Some(i) => spec_contains(s@, pat@) && i == first_match(s@, pat@),
            None => !spec_contains(s@, pat@),
        },
{
    let n = s.unicode_len();
    let m = pat.unicode_len();
    if m > n {
        proof {
            assert forall|i: int| !contains_at(s@, pat@, i) by {}
        }
        return None;
    }
    let last: usize = n - m;
    let mut i: usize = 0;
    loop
        invariant
            i <= last,
            last == s@.len() - pat@.len(),
            n == s@.len(),
            m == pat@.len(),
            forall|j: int| 0 <= j < i ==> !contains_at(s@, pat@, j),
        decreases last - i,
    {
        if match_at(s, pat, i) {
            proof {
                lemma_first_match_unique(s@, pat@, i as int);
            }
            return Some(i);
        }
        if i == last {
            proof {
                assert forall|j: int| !contains_at(s@, pat@, j) by {
                    if 0 <= j < last {
                        assert(!contains_at(s@, pat@, j));
                    }
                }
            }
            return None;
        }
        i = i + 1;
    }
}

/// Whether `pat` occurs anywhere in `s`.
pub fn contains_sub(s: &str, pat: &str) -> (r: bool)
    ensures
        r == spec_contains(s@, pat@),
{
    match find_sub(s, pat) {
        Some(_) => true,
        None => false,
    }
}

/// Whether `s` begins with `pat`.
pub fn starts_with_sub(s: &str, pat: &str) -> (r: bool)
    ensures
        r == contains_at(s@, pat@, 0),
{
    let n = s.unicode_len();
    let m = pat.unicode_len();
    if m > n {
        false
    } else {
        match_at(s, pat, 0)
    }
}

/// Whitespace as the trimming and splitting here understands it.
pub open spec fn is_ws(c: char) -> bool {
    c == ' ' || c == '\t' || c == '\r' || c == '\n'
}

/// Length of the whitespace prefix of `s`.
pub open spec fn count_ws_front(s: Seq<char>) -> int
    decreases s.len(),
{
    if s.len() == 0 {
        0
    } else if is_ws(s[0]) {
        1 + count_ws_front(s.drop_first())
    } else {
        0
    }
}

/// Length of the whitespace suffix of `s`.
pub open spec fn count_ws_back(s: Seq<char>) -> int
    decreases s.len(),
{
    if s.len() == 0 {
        0
    } else if is_ws(s.last()) {
        1 + count_ws_back(s.drop_last())
    } else {
        0
    }
}

/// `s` with leading and trailing whitespace removed.
pub open spec fn trim_spec(s: Seq<char>) -> Seq<char> {
    if count_ws_front(s) == s.len() {
        Seq::empty()
    } else {
        s.subrange(count_ws_front(s), s.len() - count_ws_back(s))
    }
}

/// The index where the whitespace prefix ends is the unique boundary: all
/// before it is whitespace and it is not itself whitespace (or the end).
proof fn lemma_ws_front_unique(s: Seq<char>, a: int)
    requires
        0 <= a <= s.len(),
        forall|i: int| 0 <= i < a ==> is_ws(#[trigger] s[i]),
        a < s.len() ==> !is_ws(s[a]),
    ensures
        a == count_ws_front(s),
    decreases s.len(),
{
    if s.len() == 0 {
    } else if is_ws(s[0]) {
        assert(a >= 1);
        assert forall|i: int| 0 <= i < a - 1 implies is_ws(#[trigger] s.drop_first()[i]) by {
            assert(s.drop_first()[i] == s[i + 1]);
        }
        assert(a - 1 < s.drop_first().len() ==> !is_ws(s.drop_first()[a - 1]));
        lemma_ws_front_unique(s.drop_first(), a - 1);
    } else {
        if a >= 1 {
            assert(is_ws(s[0]));
        }
    }
}

/// The index where the whitespace suffix begins is the unique boundary.
proof fn lemma_ws_back_unique(s: Seq<char>, b: int)
    requires
        0 <= b <= s.len(),
        forall|i: int| b <= i < s.len() ==> is_ws(#[trigger] s[i]),
        b > 0 ==> !is_ws(s[b - 1]),
    ensures
        b == s.len() - count_ws_back(s),
    decreases s.len(),
{
    if s.len() == 0 {
    } else if is_ws(s.last()) {
        assert(b <= s.len() - 1);
        assert forall|i: int| b <= i < s.drop_last().len() implies is_ws(
            #[trigger] s.drop_last()[i],
        ) by {
            assert(s.drop_last()[i] == s[i]);
        }
        if b > 0 {
            assert(s.drop_last()[b - 1] == s[b - 1]);
        }
        lemma_ws_back_unique(s.drop_last(), b);
    } else {
        if b < s.len() {
            assert(is_ws(s[s.len() - 1]));
        }
    }
}

/// Basic facts about the whitespace prefix count.
proof fn lemma_count_ws_front_props(s: Seq<char>)
    ensures
        0 <= count_ws_front(s) <= s.len(),
        forall|i: int| 0 <= i < count_ws_front(s) ==> is_ws(#[trigger] s[i]),
        count_ws_front(s) < s.len() ==> !is_ws(s[count_ws_front(s)]),
    decreases s.len(),
{
    if s.len() > 0 && is_ws(s[0]) {
        lemma_count_ws_front_props(s.drop_first());
        assert forall|i: int| 0 <= i < count_ws_front(s) implies is_ws(#[trigger] s[i]) by {
            if i >= 1 {
                assert(s.drop_first()[i - 1] == s[i]);
            }
        }
        if count_ws_front(s) < s.len() {
            assert(s.drop_first()[count_ws_front(s) - 1] == s[count_ws_front(s)]);
        }
    }
}

/// Whether `c` is whitespace.
fn is_ws_char(c: char) -> (r: bool)
    ensures
        r == is_ws(c),
{
    c == ' ' || c == '\t' || c == '\r' || c == '\n'
}

/// Index just past the whitespace prefix of `s`.
fn ws_prefix_end(s: &str) -> (a: usize)
    ensures
        a == count_ws_front(s@),
        a <= s@.len(),
{
    let n = s.unicode_len();
    let mut a: usize = 0;
    while a < n
        invariant
            a <= n,
            n == s@.len(),
            forall|i: int| 0 <= i < a ==> is_ws(#[trigger] s@[i]),
        decreases n - a,
    {
        if !is_ws_char(s.get_char(a)) {
            proof {
                lemma_ws_front_unique(s@, a as int);
            }
            return a;
        }
        a = a + 1;
    }
    proof {
        lemma_ws_front_unique(s@, a as int);
    }
    a
}

/// `s` with leading and trailing whitespace removed.
pub fn trim_str(s: &str) -> (r: String)
    ensures
        r@ == trim_spec(s@),
{
    let n = s.unicode_len();
    let a = ws_prefix_end(s);
    proof {
        lemma_count_ws_front_props(s@);
    }
    if a == n {
        return String::new();
    }
    let mut b: usize = n;
    while b > a
        invariant
            a < n,
            a <= b <= n,
            n == s@.len(),
            a == count_ws_front(s@),
            !is_ws(s@[a as int]),
            forall|i: int| b <= i < n ==> is_ws(#[trigger] s@[i]),
        decreases b,
    {
        if !is_ws_char(s.get_char(b - 1)) {
            proof {
                lemma_ws_back_unique(s@, b as int);
            }
            return String::from_str(s.substring_char(a, b));
        }
        b = b - 1;
    }
    proof {
        assert(is_ws(s@[a as int]));
        assert(false);
    }
    String::new()
}

/// How `s` splits at the non-overlapping occurrences of `pat`, left to
/// right. With no occurrence the result is `s` alone; the separator itself
/// is never part of a piece.
pub open spec fn split_spec(s: Seq<char>, pat: Seq<char>) -> Seq<Seq<char>>
    decreases s.len(),
{
    if pat.len() == 0 {
        seq![s]
    } else if !spec_contains(s, pat) {
        seq![s]
    } else {
        let i = first_match_bounded(s, pat);
        seq![s.subrange(0, i)] + split_spec(s.subrange(i + pat.len(), s.len() as int), pat)
    }
}

/// `first_match`, clipped into range so that recursion on the remainder of
/// a split visibly terminates. Equal to `first_match` whenever `pat` occurs
/// in `s`.
pub open spec fn first_match_bounded(s: Seq<char>, pat: Seq<char>) -> int {
    let i = first_match(s, pat);
    if 0 <= i && i + pat.len() <= s.len() {
        i
    } else {
        0
    }
}

/// Split `s` at every occurrence of `pat`.
pub fn split_str(s: &str, pat: &str) -> (r: Vec<String>)
    requires
        pat@.len() > 0,
    ensures
        r@.map_values(|x: String| x@) == split_spec(s@, pat@),
{
    let n = s.unicode_len();
    let m = pat.unicode_len();
    let mut out: Vec<String> = Vec::new();
    let mut start: usize = 0;
    proof {
        assert(s@.subrange(0, n as int) =~= s@);
        assert(out@.map_values(|x: String| x@) =~= Seq::<Seq<char>>::empty());
        assert(Seq::<Seq<char>>::empty() + split_spec(s@, pat@) =~= split_spec(s@, pat@));
    }
    loop
        invariant
            start <= n,
            n == s@.len(),
            m == pat@.len(),
            m > 0,
            split_spec(s@, pat@) == out@.map_values(|x: String| x@) + split_spec(
                s@.subrange(start as int, n as int),
                pat@,
            ),
        decreases n - start,
    {
        let rem = s.substring_char(start, n);
        match find_sub(rem, pat) {
            Some(i) => {
                proof {
                    lemma_first_match(rem@, pat@);
                }
                let piece = rem.substring_char(0, i);
                out.push(String::from_str(piece));
                let new_start = start + i + m;
                proof {
                    let ghost old_views = out@.drop_last().map_values(|x: String| x@);
                    assert(out@.map_values(|x: String| x@) =~= old_views.push(piece@));
                    assert(rem@.subrange(i + pat@.len(), rem@.len() as int) =~= s@.subrange(
                        new_start as int,
                        n as int,
                    ));
                    assert(split_spec(rem@, pat@) == seq![rem@.subrange(0, i as int)]
                        + split_spec(s@.subrange(new_start as int, n as int), pat@));
                    assert(out@.map_values(|x: String| x@) + split_spec(
                        s@.subrange(new_start as int, n as int),
                        pat@,
                    ) =~= old_views + split_spec(rem@, pat@));
                }
                start = new_start;
            },
            None => {
                out.push(String::from_str(rem));
                proof {
                    let ghost old_views = out@.drop_last().map_values(|x: String| x@);
                    assert(out@.map_values(|x: String| x@) =~= old_views.push(rem@));
                    assert(split_spec(rem@, pat@) =~= seq![rem@]);
                    assert(out@.map_values(|x: String| x@) =~= old_views + split_spec(
                        rem@,
                        pat@,
                    ));
                }
                return out;
            },
        }
    }
}

/// A piece with a trailing carriage return removed.
pub open spec fn strip_cr(p: Seq<char>) -> Seq<char> {
    if p.len() > 0 && p.last() == '\r' {
        p.drop_last()
    } else {
        p
    }
}

/// How `s` divides into lines: split at every newline, drop the empty
/// piece a trailing newline leaves behind, and strip one trailing carriage
/// return from each line.
pub open spec fn lines_spec(s: Seq<char>) -> Seq<Seq<char>> {
    let ps = split_spec(s, "\n"@);
    let kept = if ps.len() > 0 && ps.last().len() == 0 {
        ps.drop_last()
    } else {
        ps
    };
    kept.map_values(|p: Seq<char>| strip_cr(p))
}

/// The lines of `s`.
pub fn lines_of(s: &str) -> (r: Vec<String>)
    ensures
        r@.map_values(|x: String| x@) == lines_spec(s@),
{
    proof {
        reveal_strlit("\n");
    }
    let mut pieces = split_str(s, "\n");
    let ghost ps = split_spec(s@, "\n"@);
    if pieces.len() > 0 {
        let last_len = pieces[pieces.len() - 1].as_str().unicode_len();
        if last_len == 0 {
            pieces.pop();
        }
    }
    let ghost kept = if ps.len() > 0 && ps.last().len() == 0 {
        ps.drop_last()
    } else {
        ps
    };
    proof {
        assert(pieces@.map_values(|x: String| x@) =~= kept);
    }
    let n = pieces.len();
    let mut out: Vec<String> = Vec::new();
    let mut i: usize = 0;
    while i < n
        invariant
            i <= n,
            n == pieces@.len(),
            pieces@.map_values(|x: String| x@) == kept,
            out@.len() == i,
            forall|j: int| 0 <= j < i ==> (#[trigger] out@[j])@ == strip_cr(kept[j]),
        decreases n - i,
    {
        let p = &pieces[i];
        let len = p.as_str().unicode_len();
        let stripped: String = if len > 0 && p.as_str().get_char(len - 1) == '\r' {
            String::from_str(p.as_str().substring_char(0, len - 1))
        } else {
            p.clone()
        };
        proof {
            assert(pieces@.map_values(|x: String| x@)[i as int] == pieces@[i as int]@);
            assert(stripped@ =~= strip_cr(kept[i as int]));
        }
        out.push(stripped);
        i = i + 1;
    }
    proof {
        assert(out@.map_values(|x: String| x@) =~= kept.map_values(|p: Seq<char>| strip_cr(p)));
    }
    out
}

/// Numeric value of a decimal digit, `-1` for any other character.
pub open spec fn digit_val(c: char) -> int {
    if c == '0' {
        0
    } else if c == '1' {
        1
    } else if c == '2' {
        2
    } else if c == '3' {
        3
    } else if c == '4' {
        4
    } else if c == '5' {
        5
    } else if c == '6' {
        6
    } else if c == '7' {
        7
    } else if c == '8' {
        8
    } else if c == '9' {
        9
    } else {
        -1
    }
}

/// Whether every character of `s` is a decimal digit.
pub open spec fn all_digits(s: Seq<char>) -> bool {
    forall|i: int| 0 <= i < s.len() ==> digit_val(#[trigger] s[i]) >= 0
}

/// The numeric value of a digit string.
pub open spec fn digits_val(s: Seq<char>) -> int
    decreases s.len(),
{
    if s.len() == 0 {
        0
    } else {
        digits_val(s.drop_last()) * 10 + digit_val(s.last())
    }
}

/// What parsing a decimal number yields: the value of a non-empty
/// all-digit string when it fits, nothing otherwise.
pub open spec fn parse_usize_spec(s: Seq<char>) -> Option<usize> {
    if s.len() > 0 && all_digits(s) && digits_val(s) <= usize::MAX {
        Some(digits_val(s) as usize)
    } else {
        None
    }
}

proof fn lemma_digits_val_nonneg(s: Seq<char>)
    requires
        all_digits(s),
    ensures
        digits_val(s) >= 0,
    decreases s.len(),
{
    if s.len() > 0 {
        assert forall|i: int| 0 <= i < s.drop_last().len() implies digit_val(
            #[trigger] s.drop_last()[i],
        ) >= 0 by {
            assert(s.drop_last()[i] == s[i]);
        }
        lemma_digits_val_nonneg(s.drop_last());
    }
}

/// A digit string is worth at least any of its prefixes.
proof fn lemma_digits_val_extend(s: Seq<char>, k: int)
    requires
        0 <= k <= s.len(),
        all_digits(s),
    ensures
        digits_val(s) >= digits_val(s.subrange(0, k)),
    decreases s.len() - k,
{
    if k == s.len() {
        assert(s.subrange(0, k) =~= s);
    } else {
        let p = s.subrange(0, k + 1);
        assert(p.drop_last() =~= s.subrange(0, k));
        assert(p.last() == s[k]);
        assert forall|i: int| 0 <= i < s.subrange(0, k).len() implies digit_val(
            #[trigger] s.subrange(0, k)[i],
        ) >= 0 by {
            assert(s.subrange(0, k)[i] == s[i]);
        }
        lemma_digits_val_nonneg(s.subrange(0, k));
        assert(digits_val(p) >= digits_val(s.subrange(0, k)));
        lemma_digits_val_extend(s, k + 1);
    }
}

/// Numeric value of a digit character, or `None`.
fn digit_of(c: char) -> (r: Option<usize>)
    ensures
        match r {
            Some(d) => digit_val(c) == d && d <= 9,
            None => digit_val(c) < 0,
        },
{
    match c {
        '0' => Some(0),
        '1' => Some(1),
        '2' => Some(2),
        '3' => Some(3),
        '4' => Some(4),
        '5' => Some(5),
        '6' => Some(6),
        '7' => Some(7),
        '8' => Some(8),
        '9' => Some(9),
        _ => None,
    }
}

/// Parse a non-empty all-digit string as a decimal number.
pub fn parse_usize(s: &str) -> (r: Option<usize>)
    ensures
        r == parse_usize_spec(s@),
{
    let n = s.unicode_len();
    if n == 0 {
        return None;
    }
    let mut val: usize = 0;
    let mut i: usize = 0;
    while i < n
        invariant
            i <= n,
            n == s@.len(),
            all_digits(s@.subrange(0, i as int)),
            val == digits_val(s@.subrange(0, i as int)),
        decreases n - i,
    {
        let c = s.get_char(i);
        let ghost prefix = s@.subrange(0, i as int);
        let ghost prefix1 = s@.subrange(0, i + 1);
        proof {
            assert(prefix1.drop_last() =~= prefix);
            assert(prefix1.last() == s@[i as int]);
        }
        match digit_of(c) {
            Some(d) => {
                if val > usize::MAX / 10 || (val == usize::MAX / 10 && d > usize::MAX % 10) {
                    proof {
                        assert(digits_val(prefix1) > usize::MAX);
                        if all_digits(s@) {
                            lemma_digits_val_extend(s@, i + 1);
                        }
                    }
                    return None;
                }
                val = val * 10 + d;
                i = i + 1;
            },
            None => {
                proof {
                    assert(digit_val(s@[i as int]) < 0);
                }
                return None;
            },
        }
    }
    proof {
        assert(s@.subrange(0, n as int) =~= s@);
    }
    Some(val)
}

} // verus!
