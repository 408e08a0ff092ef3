//! Character-sequence helpers: decimal rendering, string building.

use vstd::prelude::*;

verus! {

/// The ASCII digit for a value below ten.
pub open spec fn digit_char(d: nat) -> char {
    if d == 0 { '0' }
    else if d == 1 { '1' }
    else if d == 2 { '2' }
    else if d == 3 { '3' }
    else if d == 4 { '4' }
    else if d == 5 { '5' }
    else if d == 6 { '6' }
    else if d == 7 { '7' }
    else if d == 8 { '8' }
    else { '9' }
}

/// The decimal rendering of a natural number, without sign or leading zeros.
pub open spec fn decimal(n: nat) -> Seq<char>
    decreases n,
{
    if n < 10 {
        seq![digit_char(n)]
    } else {
        decimal(n / 10).push(digit_char(n % 10))
    }
}

/// Appends one character to a string (`String::push`).
#[verifier::external_body]
pub(crate) fn push_char(s: &mut String, c: char)
    ensures
        final(s)@ == old(s)@.push(c),
{
    s.push(c);
}

fn digit_of(d: u64) -> (c: char)
    requires
        d < 10,
    ensures
        c == digit_char(d as nat),
{
    if d == 0 { '0' }
    else if d == 1 { '1' }
    else if d == 2 { '2' }
    else if d == 3 { '3' }
    else if d == 4 { '4' }
    else if d == 5 { '5' }
    else if d == 6 { '6' }
    else if d == 7 { '7' }
    else if d == 8 { '8' }
    else { '9' }
}

/// Renders `n` in decimal.
pub fn decimal_string(n: u64) -> (s: String)
    ensures
        s@ == decimal(n as nat),
    decreases n,
{
    if n < 10 {
        let mut s = String::new();
        push_char(&mut s, digit_of(n));
        assert(s@ =~= seq![digit_char(n as nat)]);
        s
    } else {
        let mut s = decimal_string(n / 10);
        push_char(&mut s, digit_of(n % 10));
        s
    }
}

/// The characters of `s`, in order.
pub fn chars_of(s: &str) -> (v: Vec<char>)
    ensures
        v@ == s@,
{
    let mut v: Vec<char> = Vec::new();
    for c in it: s.chars()
        invariant
            v@ == it.seq().take(it.index() as int),
    {
        v.push(c);
    }
    v
}

/// Unicode's `White_Space` property: the characters that
/// `char::is_whitespace` accepts and `str::split_whitespace` splits on.
pub open spec fn is_white_space(c: char) -> bool {
    let u = c as u32;
    ||| 0x09 <= u <= 0x0D
    ||| u == 0x20
    ||| u == 0x85
    ||| u == 0xA0
    ||| u == 0x1680
    ||| 0x2000 <= u <= 0x200A
    ||| u == 0x2028
    ||| u == 0x2029
    ||| u == 0x202F
    ||| u == 0x205F
    ||| u == 0x3000
}

/// Whether `c` has the `White_Space` property.
pub fn is_white_space_char(c: char) -> (b: bool)
    ensures
        b == is_white_space(c),
{
    let u = c as u32;
    (0x09 <= u && u <= 0x0D) || u == 0x20 || u == 0x85 || u == 0xA0 || u == 0x1680
        || (0x2000 <= u && u <= 0x200A) || u == 0x2028 || u == 0x2029 || u == 0x202F
        || u == 0x205F || u == 0x3000
}

/// The pending token `cur`, as a list of at most one token.
pub open spec fn flush(cur: Seq<char>) -> Seq<Seq<char>> {
    if cur.len() > 0 {
        seq![cur]
    } else {
        Seq::empty()
    }
}

/// The whitespace-separated tokens of `s`, the first of them extending `cur`.
pub open spec fn tokens_from(s: Seq<char>, cur: Seq<char>) -> Seq<Seq<char>>
    decreases s.len(),
{
    if s.len() == 0 {
        flush(cur)
    } else if is_white_space(s[0]) {
        flush(cur) + tokens_from(s.drop_first(), Seq::empty())
    } else {
        tokens_from(s.drop_first(), cur.push(s[0]))
    }
}

/// The maximal runs of non-whitespace characters of `s`, in order
/// (what `str::split_whitespace` yields).
pub open spec fn whitespace_tokens(s: Seq<char>) -> Seq<Seq<char>> {
    tokens_from(s, Seq::empty())
}

/// The character sequences held by a list of character vectors.
pub open spec fn char_vecs_view(v: Seq<Vec<char>>) -> Seq<Seq<char>> {
    v.map_values(|t: Vec<char>| t@)
}

/// Splitting at a whitespace character splits the tokens there.
pub proof fn lemma_tokens_split(s1: Seq<char>, c: char, s2: Seq<char>, cur: Seq<char>)
    requires
        is_white_space(c),
    ensures
        tokens_from(s1 + seq![c] + s2, cur) == tokens_from(s1, cur) + tokens_from(s2, Seq::empty()),
    decreases s1.len(),
{
    let s = s1 + seq![c] + s2;
    if s1.len() == 0 {
        assert(s.drop_first() =~= s2);
        assert(s[0] == c);
    } else {
        let x = s1[0];
        assert(s[0] == x);
        assert(s.drop_first() =~= s1.drop_first() + seq![c] + s2);
        if is_white_space(x) {
            lemma_tokens_split(s1.drop_first(), c, s2, Seq::empty());
            assert(tokens_from(s, cur) =~= tokens_from(s1, cur) + tokens_from(s2, Seq::empty()));
        } else {
            lemma_tokens_split(s1.drop_first(), c, s2, cur.push(x));
        }
    }
}

/// A string of whitespace only has no tokens.
pub proof fn lemma_whitespace_only_has_no_tokens(s: Seq<char>)
    requires
        forall|i: int| 0 <= i < s.len() ==> is_white_space(#[trigger] s[i]),
    ensures
        whitespace_tokens(s).len() == 0,
    decreases s.len(),
{
    if s.len() > 0 {
        assert(is_white_space(s[0]));
        let rest = s.drop_first();
        assert forall|i: int| 0 <= i < rest.len() implies is_white_space(#[trigger] rest[i]) by {
            assert(rest[i] == s[i + 1]);
        }
        lemma_whitespace_only_has_no_tokens(rest);
        assert(flush(Seq::<char>::empty()) =~= Seq::<Seq<char>>::empty());
        assert(whitespace_tokens(s) =~= whitespace_tokens(rest));
    }
}

/// Splits `s` into its whitespace-separated tokens.
pub fn split_whitespace_chars(s: &Vec<char>) -> (tokens: Vec<Vec<char>>)
    ensures
        char_vecs_view(tokens@) == whitespace_tokens(s@),
{
    let mut tokens: Vec<Vec<char>> = Vec::new();
    let mut cur: Vec<char> = Vec::new();
    assert(s@.skip(0) =~= s@);
    assert(char_vecs_view(tokens@) =~= Seq::<Seq<char>>::empty());
    for i in 0..s.len()
        invariant
            char_vecs_view(tokens@) + tokens_from(s@.skip(i as int), cur@) == whitespace_tokens(s@),
    {
        let ghost rest = s@.skip(i as int);
        assert(rest.drop_first() =~= s@.skip(i + 1));
        assert(rest[0] == s@[i as int]);
        let c = s[i];
        let ghost old_cur = cur@;
        let ghost before = char_vecs_view(tokens@);
        if is_white_space_char(c) {
            if cur.len() > 0 {
                tokens.push(cur);
                assert(char_vecs_view(tokens@) =~= before + flush(old_cur));
            } else {
                assert(before + flush(old_cur) =~= before);
            }
            cur = Vec::new();
            assert(before + tokens_from(rest, old_cur) =~= char_vecs_view(tokens@) + tokens_from(
                s@.skip(i + 1),
                cur@,
            ));
        } else {
            cur.push(c);
        }
    }
    let ghost before = char_vecs_view(tokens@);
    if cur.len() > 0 {
        tokens.push(cur);
        assert(char_vecs_view(tokens@) =~= before + flush(cur@));
    } else {
        assert(before + flush(cur@) =~= before);
    }
    tokens
}

/// `needle` occurs in `hay` starting at position `i`.
pub open spec fn occurs_at(hay: Seq<char>, needle: Seq<char>, i: int) -> bool {
    &&& 0 <= i
    &&& i + needle.len() <= hay.len()
    &&& hay.subrange(i, i + needle.len()) == needle
}

/// `needle` is a contiguous part of `hay` (what `str::contains` tests).
pub open spec fn contains_seq(hay: Seq<char>, needle: Seq<char>) -> bool {
    exists|i: int| occurs_at(hay, needle, i)
}

fn occurs_at_index(hay: &Vec<char>, needle: &Vec<char>, i: usize) -> (b: bool)
    requires
        i + needle@.len() <= hay@.len(),
    ensures
        b == occurs_at(hay@, needle@, i as int),
{
    let n = needle.len();
    let hay_len = hay.len();
    for k in 0..n
        invariant
            n == needle@.len(),
            i + n <= hay@.len(),
            hay_len == hay@.len(),
            forall|j: int| 0 <= j < k ==> hay@[i + j] == needle@[j],
    {
        if hay[i + k] != needle[k] {
            assert(hay@.subrange(i as int, i + n)[k as int] != needle@[k as int]);
            return false;
        }
    }
    assert(hay@.subrange(i as int, i + n) =~= needle@);
    true
}

/// Whether `needle` occurs as a contiguous part of `hay`.
pub fn contains_chars(hay: &Vec<char>, needle: &Vec<char>) -> (b: bool)
    ensures
        b == contains_seq(hay@, needle@),
{
    if needle.len() > hay.len() {
        return false;
    }
    if needle.len() == 0 {
        assert(hay@.subrange(0, 0) =~= needle@);
        assert(occurs_at(hay@, needle@, 0));
        return true;
    }
    let last = hay.len() - needle.len();
    for i in 0..last + 1
        invariant
            last + needle@.len() == hay@.len(),
            forall|j: int| 0 <= j < i ==> !occurs_at(hay@, needle@, j),
    {
        if occurs_at_index(hay, needle, i) {
            return true;
        }
    }
    assert forall|j: int| !occurs_at(hay@, needle@, j) by {
        if 0 <= j <= last {
        }
    }
    false
}

/// What `str::to_lowercase` returns for a string with the characters `s`
/// (Unicode's lowercase mapping, which can change the length).
pub uninterp spec fn lowercase(s: Seq<char>) -> Seq<char>;

/// Calls `str::to_lowercase`. Claimed of it: the result is `lowercase` of the
/// input's characters; an empty input gives an empty result; and a string
/// of whitespace only comes back unchanged (whitespace characters have no
/// lowercase mapping). Nothing else about the mapping is stated.
#[verifier::external_body]
pub(crate) fn to_lowercase(s: &str) -> (r: String)
    ensures
        r@ == lowercase(s@),
        s@.len() == 0 ==> r@.len() == 0,
        (forall|i: int| 0 <= i < s@.len() ==> is_white_space(#[trigger] s@[i])) ==> r@ == s@,
{
    s.to_lowercase()
}

/// What the `Debug` formatting of a `str` with the characters `s` produces
/// (the text in double quotes, with escapes).
pub uninterp spec fn debug_repr(s: Seq<char>) -> Seq<char>;

/// A printable ASCII character that `Debug` of a `str` leaves as it is
/// (anything from ' ' to '~' but '"' and '\\').
pub open spec fn debug_plain_char(c: char) -> bool {
    &&& 0x20 <= (c as u32) <= 0x7E
    &&& c != '"'
    &&& c != '\\'
}

/// Formats `s` with `{:?}`. Claimed of it: the result is `debug_repr` of the
/// input's characters, and text made only of printable ASCII characters
/// other than '"' and '\\' comes back between double quotes, unescaped. The
/// other escaping rules are not stated.
#[verifier::external_body]
pub(crate) fn debug_quoted(s: &str) -> (r: String)
    ensures
        r@ == debug_repr(s@),
        (forall|i: int| 0 <= i < s@.len() ==> debug_plain_char(#[trigger] s@[i])) ==> r@ == seq!['"']
            + s@ + seq!['"'],
{
    format!("{s:?}")
}

/// `c` is one of the ASCII digits '0' to '9'.
pub open spec fn is_ascii_digit(c: char) -> bool {
    48 <= (c as u32) <= 57
}

/// The value of an ASCII digit.
pub open spec fn digit_value(c: char) -> nat {
    ((c as u32) - 48) as nat
}

/// The value of a string of decimal digits (0 when empty).
pub open spec fn digits_value(d: Seq<char>) -> nat
    decreases d.len(),
{
    if d.len() == 0 {
        0
    } else {
        digits_value(d.drop_last()) * 10 + digit_value(d.last())
    }
}

/// The digits of an unsigned number as `str::parse` reads them: the text
/// after one optional leading '+'.
pub open spec fn unsigned_digits(s: Seq<char>) -> Seq<char> {
    if s.len() > 0 && s[0] == '+' {
        s.drop_first()
    } else {
        s
    }
}

/// What `str::parse::<u32>` gives for `s`: a value when, after an optional
/// '+', `s` is one or more ASCII digits whose value fits in a `u32`.
pub open spec fn parse_u32(s: Seq<char>) -> Option<u32> {
    let d = unsigned_digits(s);
    if d.len() > 0 && (forall|i: int| 0 <= i < d.len() ==> is_ascii_digit(#[trigger] d[i]))
        && digits_value(d) <= u32::MAX {
        Some(digits_value(d) as u32)
    } else {
        None
    }
}

/// A prefix of a digit string never has a larger value than the whole.
pub proof fn lemma_digits_value_prefix(d: Seq<char>, j: int)
    requires
        0 <= j <= d.len(),
    ensures
        digits_value(d.take(j)) <= digits_value(d),
    decreases d.len(),
{
    if j < d.len() {
        assert(d.drop_last().take(j) =~= d.take(j));
        lemma_digits_value_prefix(d.drop_last(), j);
    } else {
        assert(d.take(j) =~= d);
    }
}

/// Each digit character is an ASCII digit of the value it stands for.
pub proof fn lemma_digit_char(k: nat)
    requires
        k < 10,
    ensures
        is_ascii_digit(digit_char(k)),
        digit_value(digit_char(k)) == k,
{
}

/// Reading back the decimal rendering of `n` gives `n`.
pub proof fn lemma_decimal_digits(n: nat)
    ensures
        decimal(n).len() > 0,
        forall|i: int| 0 <= i < decimal(n).len() ==> is_ascii_digit(#[trigger] decimal(n)[i]),
        digits_value(decimal(n)) == n,
    decreases n,
{
    lemma_digit_char(n % 10);
    if n < 10 {
        let d = decimal(n);
        assert(d.drop_last() =~= Seq::<char>::empty());
        assert(digits_value(d) == digits_value(d.drop_last()) * 10 + digit_value(d.last()));
    } else {
        lemma_decimal_digits(n / 10);
        let d = decimal(n);
        assert(d.drop_last() =~= decimal(n / 10));
        assert(d.last() == digit_char(n % 10));
        assert(digits_value(d) == digits_value(d.drop_last()) * 10 + digit_value(d.last()));
        assert forall|i: int| 0 <= i < d.len() implies is_ascii_digit(#[trigger] d[i]) by {
            if i < d.len() - 1 {
                assert(d[i] == decimal(n / 10)[i]);
            }
        }
    }
}

/// The decimal rendering of any `u32` is read back by `parse_u32` as the
/// same number.
pub proof fn lemma_parse_decimal(n: u32)
    ensures
        parse_u32(decimal(n as nat)) == Some(n),
{
    lemma_decimal_digits(n as nat);
    let d = decimal(n as nat);
    assert(is_ascii_digit(d[0]));
    assert(unsigned_digits(d) == d);
}

/// Parses a decimal `u32` as `str::parse` does.
pub fn parse_u32_chars(s: &Vec<char>) -> (r: Option<u32>)
    ensures
        r == parse_u32(s@),
{
    let len = s.len();
    let start: usize = if len > 0 && s[0] == '+' { 1 } else { 0 };
    let ghost d = unsigned_digits(s@);
    assert(d =~= s@.skip(start as int));
    if start == len {
        return None;
    }
    let mut acc: u64 = 0;
    for i in start..len
        invariant
            len == s@.len(),
            d == s@.skip(start as int),
            d == unsigned_digits(s@),
            d.len() > 0,
            start <= i <= len,
            acc <= u32::MAX,
            acc == digits_value(d.take(i - start)),
            forall|k: int| 0 <= k < i - start ==> is_ascii_digit(#[trigger] d[k]),
    {
        let c = s[i];
        let u = c as u32;
        assert(c == d[i - start]);
        if u < 48 || u > 57 {
            assert(!is_ascii_digit(d[i - start]));
            return None;
        }
        assert(d.take(i - start + 1).drop_last() =~= d.take(i - start));
        assert(d.take(i - start + 1).last() == c);
        acc = acc * 10 + (u as u64 - 48);
        assert(acc == digits_value(d.take(i - start + 1)));
        if acc > 4294967295 {
            proof {
                lemma_digits_value_prefix(d, i - start + 1);
            }
            return None;
        }
    }
    assert(d.take(len - start) =~= d);
    Some(acc as u32)
}

/// Whatever stands before and after it, a text contains itself.
pub proof fn law_contains_middle(a: Seq<char>, needle: Seq<char>, b: Seq<char>)
    ensures
        contains_seq(a + needle + b, needle),
{
    let h = a + needle + b;
    assert(h.subrange(a.len() as int, (a.len() + needle.len()) as int) =~= needle);
    assert(occurs_at(h, needle, a.len() as int));
}

/// A text occurring character by character at some position is contained.
pub proof fn law_occurrence_is_contained(hay: Seq<char>, needle: Seq<char>, i: int)
    requires
        0 <= i,
        i + needle.len() <= hay.len(),
        forall|k: int| 0 <= k < needle.len() ==> #[trigger] hay[i + k] == needle[k],
    ensures
        contains_seq(hay, needle),
{
    assert forall|k: int| 0 <= k < needle.len() implies #[trigger] hay.subrange(
        i,
        i + needle.len(),
    )[k] == needle[k] by {
        assert(hay[i + k] == needle[k]);
    }
    assert(hay.subrange(i, i + needle.len()) =~= needle);
    assert(occurs_at(hay, needle, i));
}

/// A contained text is no longer than the text containing it, and each of
/// its characters occurs there.
pub proof fn law_contained_is_within(hay: Seq<char>, needle: Seq<char>, k: int)
    requires
        contains_seq(hay, needle),
        0 <= k < needle.len(),
    ensures
        needle.len() <= hay.len(),
        hay.contains(needle[k]),
{
    let i = choose|i: int| occurs_at(hay, needle, i);
    assert(hay.subrange(i, i + needle.len())[k] == hay[i + k]);
}

proof fn lemma_word_tokens(t: Seq<char>, cur: Seq<char>)
    requires
        forall|i: int| 0 <= i < t.len() ==> !is_white_space(#[trigger] t[i]),
    ensures
        tokens_from(t, cur) == flush(cur + t),
    decreases t.len(),
{
    if t.len() == 0 {
        assert(cur + t =~= cur);
    } else {
        assert(!is_white_space(t[0]));
        let rest = t.drop_first();
        assert forall|i: int| 0 <= i < rest.len() implies !is_white_space(#[trigger] rest[i]) by {
            assert(rest[i] == t[i + 1]);
        }
        lemma_word_tokens(rest, cur.push(t[0]));
        assert(cur.push(t[0]) + rest =~= cur + t);
    }
}

/// A non-empty text without whitespace is one token, itself.
pub proof fn law_word_is_one_token(t: Seq<char>)
    requires
        t.len() > 0,
        forall|i: int| 0 <= i < t.len() ==> !is_white_space(#[trigger] t[i]),
    ensures
        whitespace_tokens(t) == seq![t],
{
    lemma_word_tokens(t, Seq::empty());
    assert(Seq::<char>::empty() + t =~= t);
}

proof fn lemma_tokens_are_words(s: Seq<char>, cur: Seq<char>)
    requires
        forall|i: int| 0 <= i < cur.len() ==> !is_white_space(#[trigger] cur[i]),
    ensures
        forall|j: int| 0 <= j < tokens_from(s, cur).len() ==> (#[trigger] tokens_from(s, cur)[j]).len()
            > 0 && forall|i: int|
            0 <= i < tokens_from(s, cur)[j].len() ==> !is_white_space(#[trigger] tokens_from(s, cur)[j][i]),
    decreases s.len(),
{
    if s.len() == 0 {
        let all = tokens_from(s, cur);
        assert(all == flush(cur));
        assert forall|j: int| 0 <= j < all.len() implies (#[trigger] all[j]).len() > 0 && forall|i: int|
            0 <= i < all[j].len() ==> !is_white_space(#[trigger] all[j][i]) by {
            assert(all[j] == cur);
        }
    } else {
        if is_white_space(s[0]) {
            lemma_tokens_are_words(s.drop_first(), Seq::empty());
            let rest = tokens_from(s.drop_first(), Seq::empty());
            let all = tokens_from(s, cur);
            assert(all == flush(cur) + rest);
            assert forall|j: int| 0 <= j < all.len() implies (#[trigger] all[j]).len() > 0 && forall|i: int|
                0 <= i < all[j].len() ==> !is_white_space(#[trigger] all[j][i]) by {
                if j < flush(cur).len() {
                    assert(all[j] == cur);
                } else {
                    assert(all[j] == rest[j - flush(cur).len()]);
                }
            }
        } else {
            let next = cur.push(s[0]);
            assert forall|i: int| 0 <= i < next.len() implies !is_white_space(#[trigger] next[i]) by {
                if i < cur.len() {
                    assert(next[i] == cur[i]);
                }
            }
            lemma_tokens_are_words(s.drop_first(), next);
            assert(tokens_from(s, cur) == tokens_from(s.drop_first(), next));
        }
    }
}

/// Every token is non-empty and holds no whitespace.
pub proof fn law_tokens_are_words(s: Seq<char>)
    ensures
        forall|j: int| 0 <= j < whitespace_tokens(s).len() ==> (#[trigger] whitespace_tokens(s)[j]).len()
            > 0 && forall|i: int|
            0 <= i < whitespace_tokens(s)[j].len() ==> !is_white_space(#[trigger] whitespace_tokens(s)[j][i]),
{
    lemma_tokens_are_words(s, Seq::empty());
}

/// The decimal rendering of a positive number does not start with '0'.
pub proof fn law_decimal_no_leading_zero(n: nat)
    requires
        n > 0,
    ensures
        decimal(n)[0] != '0',
    decreases n,
{
    if n >= 10 {
        law_decimal_no_leading_zero(n / 10);
        lemma_decimal_digits(n / 10);
        assert(decimal(n)[0] == decimal(n / 10)[0]);
    }
}

/// A leading '-' is never read as a number, and a leading '+' before the
/// decimal rendering of a `u32` reads as that number.
pub proof fn law_parse_signs(s: Seq<char>, n: u32)
    ensures
        parse_u32(seq!['-'] + s) is None,
        parse_u32(seq!['+'] + decimal(n as nat)) == Some(n),
{
    let m = seq!['-'] + s;
    assert(m[0] == '-');
    assert(unsigned_digits(m) == m);
    assert(!is_ascii_digit(m[0]));
    lemma_decimal_digits(n as nat);
    let p = seq!['+'] + decimal(n as nat);
    assert(p[0] == '+');
    assert(p.drop_first() =~= decimal(n as nat));
}

} // verus!
