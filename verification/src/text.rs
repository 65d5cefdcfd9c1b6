//! Text helpers shared by the game log and the command parser: decimal
//! rendering of numbers, string building, Unicode whitespace, and splitting
//! a line into words.

use vstd::prelude::*;
use vstd::string::*;
use vstd::utf8::encode_utf8;

verus! {

/// The character of a decimal digit `d < 10`.
pub open spec fn digit_char(d: nat) -> char {
    if d == 0 {
        '0'
    } else if d == 1 {
        '1'
    } else if d == 2 {
        '2'
    } else if d == 3 {
        '3'
    } else if d == 4 {
        '4'
    } else if d == 5 {
        '5'
    } else if d == 6 {
        '6'
    } else if d == 7 {
        '7'
    } else if d == 8 {
        '8'
    } else {
        '9'
    }
}

/// Decimal digits of `n`, most significant first, no leading zeros.
pub open spec fn decimal(n: nat) -> Seq<char>
    decreases n,
{
    if n < 10 {
        seq![digit_char(n)]
    } else {
        decimal(n / 10).push(digit_char(n % 10))
    }
}

/// Decimal text of a signed number: a minus sign before negative values.
pub open spec fn signed_decimal(v: int) -> Seq<char> {
    if v < 0 {
        seq!['-'] + decimal((-v) as nat)
    } else {
        decimal(v as nat)
    }
}

/// `String::push`: appends one character.
#[verifier::external_body]
pub(crate) fn push_char(s: &mut String, c: char)
    ensures
        final(s)@ == old(s)@.push(c),
{
    s.push(c);
}

/// Appends `t` to `s`.
pub fn push_str(s: &mut String, t: &str)
    ensures
        final(s)@ == old(s)@ + t@,
{
    s.append(t);
}

fn digit(d: usize) -> (c: char)
    requires
        d < 10,
    ensures
        c == digit_char(d as nat),
{
    if d == 0 {
        '0'
    } else if d == 1 {
        '1'
    } else if d == 2 {
        '2'
    } else if d == 3 {
        '3'
    } else if d == 4 {
        '4'
    } else if d == 5 {
        '5'
    } else if d == 6 {
        '6'
    } else if d == 7 {
        '7'
    } else if d == 8 {
        '8'
    } else {
        '9'
    }
}

/// An owned copy of `s`.
pub fn string_from(s: &str) -> (r: String)
    ensures
        r@ == s@,
{
    let mut r = String::new();
    push_str(&mut r, s);
    assert(r@ =~= s@);
    r
}

/// Appends the decimal digits of `n`.
pub fn push_usize(s: &mut String, n: usize)
    ensures
        final(s)@ == old(s)@ + decimal(n as nat),
    decreases n,
{
    let ghost start = s@;
    if n >= 10 {
        push_usize(s, n / 10);
    }
    push_char(s, digit(n % 10));
    proof {
        if n >= 10 {
            assert(s@ =~= start + decimal(n as nat));
        } else {
            assert(s@ =~= start + decimal(n as nat));
        }
    }
}

/// Appends the decimal text of `v`, with a leading `-` when negative.
pub fn push_isize(s: &mut String, v: isize)
    ensures
        final(s)@ == old(s)@ + signed_decimal(v as int),
{
    let ghost start = s@;
    if v < 0 {
        push_char(s, '-');
        let m: i128 = 0i128 - (v as i128);
        push_usize(s, m as usize);
        assert(s@ =~= start + signed_decimal(v as int));
    } else {
        push_usize(s, v as usize);
    }
}

/// Unicode `White_Space`, the set that `char::is_whitespace` tests.
pub open spec fn is_ws(c: char) -> bool {
    let u = c as u32;
    ||| 0x09 <= u <= 0x0d
    ||| u == 0x20
    ||| u == 0x85
    ||| u == 0xa0
    ||| u == 0x1680
    ||| 0x2000 <= u <= 0x200a
    ||| u == 0x2028
    ||| u == 0x2029
    ||| u == 0x202f
    ||| u == 0x205f
    ||| u == 0x3000
}

/// Whether `c` is Unicode whitespace.
pub fn is_whitespace(c: char) -> (r: bool)
    ensures
        r == is_ws(c),
{
    let u = c as u32;
    (0x09 <= u && u <= 0x0d) || u == 0x20 || u == 0x85 || u == 0xa0 || u == 0x1680 || (0x2000
        <= u && u <= 0x200a) || u == 0x2028 || u == 0x2029 || u == 0x202f || u == 0x205f || u
        == 0x3000
}

/// First index at or after `i` that holds no whitespace (or the length).
pub open spec fn skip_ws_from(s: Seq<char>, i: int) -> int
    decreases s.len() - i,
{
    if 0 <= i < s.len() && is_ws(s[i]) {
        skip_ws_from(s, i + 1)
    } else {
        i
    }
}

/// First index at or after `i` that holds whitespace (or the length).
pub open spec fn word_end_from(s: Seq<char>, i: int) -> int
    decreases s.len() - i,
{
    if 0 <= i < s.len() && !is_ws(s[i]) {
        word_end_from(s, i + 1)
    } else {
        i
    }
}

/// Where the next word starts: past the whitespace from `i` on.
pub proof fn lemma_skip_ws_from(s: Seq<char>, i: int)
    requires
        0 <= i <= s.len(),
    ensures
        i <= skip_ws_from(s, i) <= s.len(),
        skip_ws_from(s, i) < s.len() ==> !is_ws(s[skip_ws_from(s, i)]),
        forall|k: int| i <= k < skip_ws_from(s, i) ==> is_ws(#[trigger] s[k]),
    decreases s.len() - i,
{
    if i < s.len() && is_ws(s[i]) {
        lemma_skip_ws_from(s, i + 1);
    }
}

/// Where a word that starts at `i` ends.
pub proof fn lemma_word_end_from(s: Seq<char>, i: int)
    requires
        0 <= i <= s.len(),
    ensures
        i <= word_end_from(s, i) <= s.len(),
        word_end_from(s, i) < s.len() ==> is_ws(s[word_end_from(s, i)]),
        forall|k: int| i <= k < word_end_from(s, i) ==> !is_ws(#[trigger] s[k]),
    decreases s.len() - i,
{
    if i < s.len() && !is_ws(s[i]) {
        lemma_word_end_from(s, i + 1);
    }
}

/// The whitespace-separated words of `s` that start at or after `i`.
pub open spec fn words_from(s: Seq<char>, i: int) -> Seq<Seq<char>>
    decreases s.len() - i,
{
    if 0 <= i <= s.len() {
        let a = skip_ws_from(s, i);
        if a >= s.len() {
            seq![]
        } else {
            let b = word_end_from(s, a);
            proof {
                lemma_skip_ws_from(s, i);
                lemma_word_end_from(s, a);
            }
            seq![s.subrange(a, b)] + words_from(s, b)
        }
    } else {
        seq![]
    }
}

/// The maximal runs of non-whitespace characters of `s`, in order
/// (what `str::split_whitespace` yields).
pub open spec fn words(s: Seq<char>) -> Seq<Seq<char>> {
    words_from(s, 0)
}

/// `word_end_from` stops at the first whitespace at or after `i`.
pub proof fn lemma_word_end_at(s: Seq<char>, i: int, e: int)
    requires
        0 <= i <= e <= s.len(),
        forall|k: int| i <= k < e ==> !is_ws(#[trigger] s[k]),
        e < s.len() ==> is_ws(s[e]),
    ensures
        word_end_from(s, i) == e,
    decreases e - i,
{
    if i < e {
        lemma_word_end_at(s, i + 1, e);
    }
}

/// `skip_ws_from` stops at the first non-whitespace at or after `i`.
pub proof fn lemma_skip_ws_at(s: Seq<char>, i: int, e: int)
    requires
        0 <= i <= e <= s.len(),
        forall|k: int| i <= k < e ==> is_ws(#[trigger] s[k]),
        e < s.len() ==> !is_ws(s[e]),
    ensures
        skip_ws_from(s, i) == e,
    decreases e - i,
{
    if i < e {
        lemma_skip_ws_at(s, i + 1, e);
    }
}

/// A non-empty run without whitespace.
pub open spec fn is_word(w: Seq<char>) -> bool {
    w.len() > 0 && forall|k: int| 0 <= k < w.len() ==> !is_ws(#[trigger] w[k])
}

/// Reading the words of `s` from `i`, where `s[i..]` is the word `w` followed
/// by a space and more, or by nothing.
proof fn lemma_word_then(s: Seq<char>, i: int, w: Seq<char>)
    requires
        0 <= i,
        i + w.len() <= s.len(),
        is_word(w),
        s.subrange(i, i + w.len()) == w,
        i + w.len() < s.len() ==> s[i + w.len()] == ' ',
    ensures
        words_from(s, i) == seq![w] + words_from(s, i + w.len()),
{
    let e = i + w.len();
    assert forall|k: int| i <= k < e implies !is_ws(#[trigger] s[k]) by {
        assert(s[k] == s.subrange(i, e)[k - i]);
    }
    assert(s[i] == w[0]);
    lemma_skip_ws_at(s, i, i);
    lemma_word_end_at(s, i, e);
}

/// The words of `v t` are `v` and `t`.
pub proof fn lemma_two_words(v: Seq<char>, t: Seq<char>)
    requires
        is_word(v),
        is_word(t),
    ensures
        words(v + seq![' '] + t) == seq![v, t],
{
    let s = v + seq![' '] + t;
    let n = v.len() as int;
    assert(s.subrange(0, n) =~= v);
    assert(s[n] == ' ');
    lemma_word_then(s, 0, v);
    assert(is_ws(' '));
    assert(s[n + 1] == t[0]);
    lemma_skip_ws_at(s, n, n + 1);
    assert(s.subrange(n + 1, s.len() as int) =~= t);
    lemma_word_then(s, n + 1, t);
    assert(words_from(s, s.len() as int) =~= Seq::<Seq<char>>::empty());
    assert(words(s) =~= seq![v, t]);
}

/// The words of `v u t` are `v`, `u` and `t`.
pub proof fn lemma_three_words(v: Seq<char>, u: Seq<char>, t: Seq<char>)
    requires
        is_word(v),
        is_word(u),
        is_word(t),
    ensures
        words(v + seq![' '] + u + seq![' '] + t) == seq![v, u, t],
{
    let s = v + seq![' '] + u + seq![' '] + t;
    let n = v.len() as int;
    let m = n + 1 + u.len();
    assert(is_ws(' '));
    assert(s.subrange(0, n) =~= v);
    assert(s[n] == ' ');
    lemma_word_then(s, 0, v);
    assert(s[n + 1] == u[0]);
    lemma_skip_ws_at(s, n, n + 1);
    assert(s.subrange(n + 1, m) =~= u);
    assert(s[m] == ' ');
    lemma_word_then(s, n + 1, u);
    assert(s[m + 1] == t[0]);
    lemma_skip_ws_at(s, m, m + 1);
    assert(s.subrange(m + 1, s.len() as int) =~= t);
    lemma_word_then(s, m + 1, t);
    assert(words_from(s, s.len() as int) =~= Seq::<Seq<char>>::empty());
    assert(words(s) =~= seq![v, u, t]);
}

/// Words joined with one space between each two.
pub open spec fn join_words(ws: Seq<Seq<char>>) -> Seq<char>
    decreases ws.len(),
{
    if ws.len() == 0 {
        seq![]
    } else if ws.len() == 1 {
        ws[0]
    } else {
        join_words(ws.drop_last()) + seq![' '] + ws.last()
    }
}

/// End of `s` once trailing whitespace before index `j` is dropped.
pub open spec fn trim_end_at(s: Seq<char>, j: int) -> int
    decreases j,
{
    if 0 < j <= s.len() && is_ws(s[j - 1]) {
        trim_end_at(s, j - 1)
    } else {
        j
    }
}

/// `s` without leading and trailing whitespace (what `str::trim` yields).
pub open spec fn trimmed(s: Seq<char>) -> Seq<char> {
    let a = skip_ws_from(s, 0);
    let e = trim_end_at(s, s.len() as int);
    if e <= a {
        seq![]
    } else {
        s.subrange(a, e)
    }
}

/// Where the trailing whitespace before `j` begins.
pub proof fn lemma_trim_end_at(s: Seq<char>, j: int)
    requires
        0 <= j <= s.len(),
    ensures
        0 <= trim_end_at(s, j) <= j,
        trim_end_at(s, j) > 0 ==> !is_ws(s[trim_end_at(s, j) - 1]),
        forall|k: int| trim_end_at(s, j) <= k < j ==> is_ws(#[trigger] s[k]),
    decreases j,
{
    if 0 < j && is_ws(s[j - 1]) {
        lemma_trim_end_at(s, j - 1);
    }
}

/// The characters of `s`.
pub fn chars_of(s: &str) -> (v: Vec<char>)
    ensures
        v@ == s@,
{
    let n = s.unicode_len();
    let mut v: Vec<char> = Vec::new();
    let mut i: usize = 0;
    while i < n
        invariant
            n == s@.len(),
            i <= n,
            v@ == s@.subrange(0, i as int),
        decreases n - i,
    {
        v.push(s.get_char(i));
        i = i + 1;
        assert(v@ =~= s@.subrange(0, i as int));
    }
    assert(v@ =~= s@);
    v
}

/// Whether the characters in `a` spell exactly `lit`.
pub fn chars_equal(a: &[char], lit: &str) -> (r: bool)
    ensures
        r == (a@ == lit@),
{
    let n = lit.unicode_len();
    if a.len() != n {
        return false;
    }
    let mut i: usize = 0;
    while i < n
        invariant
            n == lit@.len(),
            a@.len() == n,
            i <= n,
            forall|k: int| 0 <= k < i ==> a@[k] == lit@[k],
        decreases n - i,
    {
        if a[i] != lit.get_char(i) {
            return false;
        }
        i = i + 1;
    }
    assert(a@ =~= lit@);
    true
}

/// Whether two string slices hold the same characters.
pub fn str_equal(a: &str, b: &str) -> (r: bool)
    ensures
        r == (a@ == b@),
{
    let chars = chars_of(a);
    chars_equal(chars.as_slice(), b)
}

/// A `String` holding exactly the characters `chars`.
pub fn string_of(chars: &[char]) -> (s: String)
    ensures
        s@ == chars@,
{
    let mut s = String::new();
    let mut i: usize = 0;
    while i < chars.len()
        invariant
            i <= chars@.len(),
            s@ == chars@.subrange(0, i as int),
        decreases chars.len() - i,
    {
        push_char(&mut s, chars[i]);
        i = i + 1;
        assert(s@ =~= chars@.subrange(0, i as int));
    }
    assert(s@ =~= chars@);
    s
}

/// Splits `s` into its whitespace-separated words.
pub fn split_words(s: &[char]) -> (ws: Vec<Vec<char>>)
    ensures
        ws@.map_values(|w: Vec<char>| w@) == words(s@),
{
    let n = s.len();
    let mut ws: Vec<Vec<char>> = Vec::new();
    let mut i: usize = 0;
    while i < n
        invariant
            n == s@.len(),
            i <= n,
            words(s@) == ws@.map_values(|w: Vec<char>| w@) + words_from(s@, i as int),
        decreases n - i,
    {
        let ghost gi = i as int;
        proof {
            lemma_skip_ws_from(s@, gi);
        }
        let mut a = i;
        while a < n && is_whitespace(s[a])
            invariant
                n == s@.len(),
                gi <= a <= n,
                skip_ws_from(s@, gi) == skip_ws_from(s@, a as int),
            decreases n - a,
        {
            a = a + 1;
        }
        if a >= n {
            assert(words_from(s@, gi) =~= Seq::<Seq<char>>::empty());
            i = n;
            assert(words_from(s@, n as int) =~= Seq::<Seq<char>>::empty());
            assert(ws@.map_values(|w: Vec<char>| w@) + words_from(s@, i as int) =~= ws@.map_values(
                |w: Vec<char>| w@,
            ));
        } else {
            proof {
                lemma_word_end_from(s@, a as int);
            }
            let mut b = a;
            let mut word: Vec<char> = Vec::new();
            while b < n && !is_whitespace(s[b])
                invariant
                    n == s@.len(),
                    a <= b <= n,
                    word_end_from(s@, a as int) == word_end_from(s@, b as int),
                    word@ == s@.subrange(a as int, b as int),
                decreases n - b,
            {
                word.push(s[b]);
                b = b + 1;
                assert(word@ =~= s@.subrange(a as int, b as int));
            }
            let ghost prev = ws@.map_values(|w: Vec<char>| w@);
            ws.push(word);
            assert(ws@.map_values(|w: Vec<char>| w@) =~= prev.push(s@.subrange(a as int, b as int)));
            assert(words_from(s@, gi) == seq![s@.subrange(a as int, b as int)] + words_from(
                s@,
                b as int,
            ));
            assert(words(s@) =~= ws@.map_values(|w: Vec<char>| w@) + words_from(s@, b as int));
            i = b;
        }
    }
    assert(words_from(s@, n as int) =~= Seq::<Seq<char>>::empty());
    assert(words(s@) =~= ws@.map_values(|w: Vec<char>| w@));
    ws
}

/// Joins `ws[from..to]` with single spaces.
pub fn join_range(ws: &Vec<Vec<char>>, from: usize, to: usize) -> (r: Vec<char>)
    requires
        from <= to <= ws@.len(),
    ensures
        r@ == join_words(ws@.map_values(|w: Vec<char>| w@).subrange(from as int, to as int)),
{
    let ghost all = ws@.map_values(|w: Vec<char>| w@);
    let mut r: Vec<char> = Vec::new();
    let mut i: usize = from;
    while i < to
        invariant
            from <= i <= to <= ws@.len(),
            all == ws@.map_values(|w: Vec<char>| w@),
            r@ == join_words(all.subrange(from as int, i as int)),
        decreases to - i,
    {
        if i > from {
            r.push(' ');
        }
        let w = &ws[i];
        let mut k: usize = 0;
        let ghost before = r@;
        while k < w.len()
            invariant
                k <= w@.len(),
                r@ == before + w@.subrange(0, k as int),
            decreases w.len() - k,
        {
            r.push(w[k]);
            k = k + 1;
            assert(r@ =~= before + w@.subrange(0, k as int));
        }
        assert(w@.subrange(0, k as int) =~= w@);
        let ghost sub = all.subrange(from as int, i + 1);
        assert(sub.drop_last() =~= all.subrange(from as int, i as int));
        assert(sub.last() == w@);
        if i > from {
            assert(r@ =~= join_words(sub));
        } else {
            assert(sub.len() == 1);
            assert(r@ =~= join_words(sub));
        }
        i = i + 1;
    }
    r
}

/// Characters of `s` without leading and trailing whitespace.
pub fn trim_chars(s: &[char]) -> (r: Vec<char>)
    ensures
        r@ == trimmed(s@),
{
    let n = s.len();
    proof {
        lemma_skip_ws_from(s@, 0);
        lemma_trim_end_at(s@, n as int);
    }
    let mut a: usize = 0;
    while a < n && is_whitespace(s[a])
        invariant
            n == s@.len(),
            a <= n,
            skip_ws_from(s@, 0) == skip_ws_from(s@, a as int),
        decreases n - a,
    {
        a = a + 1;
    }
    let mut e: usize = n;
    while e > 0 && is_whitespace(s[e - 1])
        invariant
            n == s@.len(),
            e <= n,
            trim_end_at(s@, n as int) == trim_end_at(s@, e as int),
        decreases e,
    {
        e = e - 1;
    }
    let mut r: Vec<char> = Vec::new();
    if e <= a {
        assert(r@ =~= trimmed(s@));
        return r;
    }
    let mut k: usize = a;
    while k < e
        invariant
            a <= k <= e <= n,
            n == s@.len(),
            r@ == s@.subrange(a as int, k as int),
        decreases e - k,
    {
        r.push(s[k]);
        k = k + 1;
        assert(r@ =~= s@.subrange(a as int, k as int));
    }
    r
}

/// What `str::to_lowercase` yields for `s`: the Unicode lowercase mapping of
/// each character, concatenated.
pub uninterp spec fn lowercase_of(s: Seq<char>) -> Seq<char>;

/// Every character is ASCII.
pub open spec fn is_ascii_text(s: Seq<char>) -> bool {
    forall|i: int| 0 <= i < s.len() ==> (#[trigger] s[i] as u32) < 128
}

/// `c` with `A`–`Z` turned into `a`–`z`.
pub open spec fn ascii_lower(c: char) -> char {
    if 'A' <= c <= 'Z' {
        ((c as u32) + 32) as char
    } else {
        c
    }
}

/// `c` with `a`–`z` turned into `A`–`Z`.
pub open spec fn ascii_upper(c: char) -> char {
    if 'a' <= c <= 'z' {
        ((c as u32) - 32) as char
    } else {
        c
    }
}

/// Each character of `s` through [`ascii_lower`].
pub open spec fn ascii_lowered(s: Seq<char>) -> Seq<char> {
    s.map_values(|c: char| ascii_lower(c))
}

/// Each character of `s` through [`ascii_upper`] (what
/// `str::to_ascii_uppercase` gives).
pub open spec fn ascii_uppered(s: Seq<char>) -> Seq<char> {
    s.map_values(|c: char| ascii_upper(c))
}

/// `str::to_lowercase`. Its result is named by `lowercase_of`. Claimed
/// besides: on text that is all ASCII, `A`–`Z` become `a`–`z` and every
/// other character stays, as Unicode lowercasing does to ASCII. What it does
/// to other characters is left unsaid.
#[verifier::external_body]
pub(crate) fn to_lowercase(s: &str) -> (r: String)
    ensures
        r@ == lowercase_of(s@),
        is_ascii_text(s@) ==> r@ == ascii_lowered(s@),
{
    s.to_lowercase()
}

/// Lowercasing ASCII text ignores the case it was in.
pub proof fn lemma_ascii_case_ignored(s: Seq<char>)
    requires
        is_ascii_text(s),
    ensures
        is_ascii_text(ascii_uppered(s)),
        ascii_lowered(ascii_uppered(s)) == ascii_lowered(s),
{
    let u = ascii_uppered(s);
    assert forall|i: int| 0 <= i < u.len() implies (#[trigger] u[i] as u32) < 128 by {
        let c = s[i];
        assert((c as u32) < 128);
        if 'a' <= c <= 'z' {
            assert(u[i] as u32 == (c as u32) - 32);
        }
    }
    assert forall|i: int| 0 <= i < s.len() implies #[trigger] ascii_lowered(u)[i] == ascii_lowered(s)[i] by {
        let c = s[i];
        if 'a' <= c <= 'z' {
            assert(u[i] as u32 == (c as u32) - 32);
            assert((((u[i] as u32) + 32) as char) == c);
        }
    }
    assert(ascii_lowered(u) =~= ascii_lowered(s));
}

/// ASCII decimal digit.
pub open spec fn is_digit(c: char) -> bool {
    '0' <= c <= '9'
}

pub open spec fn digit_value(c: char) -> nat {
    ((c as int) - ('0' as int)) as nat
}

fn digit_of(c: char) -> (r: Option<usize>)
    ensures
        r is Some <==> is_digit(c),
        r matches Some(v) ==> v == digit_value(c) && v < 10,
{
    if c >= '0' && c <= '9' {
        Some(((c as u32) - ('0' as u32)) as usize)
    } else {
        None
    }
}

/// The number that a run of decimal digits spells.
pub open spec fn digits_value(d: Seq<char>) -> nat
    decreases d.len(),
{
    if d.len() == 0 {
        0
    } else {
        digits_value(d.drop_last()) * 10 + digit_value(d.last())
    }
}

pub open spec fn all_digits(d: Seq<char>) -> bool {
    forall|i: int| 0 <= i < d.len() ==> is_digit(#[trigger] d[i])
}

/// The digits after an optional leading `+`.
pub open spec fn unsigned_digits(s: Seq<char>) -> Seq<char> {
    if s.len() > 0 && s[0] == '+' {
        s.drop_first()
    } else {
        s
    }
}

/// What `s.parse::<usize>().ok()` gives: an optional `+`, then at least one
/// ASCII digit and nothing else, whose value fits in `usize`.
pub open spec fn parse_usize_spec(s: Seq<char>) -> Option<usize> {
    let d = unsigned_digits(s);
    if d.len() > 0 && all_digits(d) && digits_value(d) <= usize::MAX {
        Some(digits_value(d) as usize)
    } else {
        None
    }
}

/// A longer prefix of digits has a value at least as large.
pub proof fn lemma_digits_value_prefix(d: Seq<char>, i: int, j: int)
    requires
        0 <= i <= j <= d.len(),
        all_digits(d),
    ensures
        digits_value(d.take(i)) <= digits_value(d.take(j)),
    decreases j - i,
{
    if i < j {
        lemma_digits_value_prefix(d, i, j - 1);
        assert(d.take(j).drop_last() =~= d.take(j - 1));
    }
}

/// The digit character of `d` is an ASCII digit worth `d`.
proof fn lemma_digit_char(d: nat)
    requires
        d < 10,
    ensures
        is_digit(digit_char(d)),
        digit_value(digit_char(d)) == d,
        !is_ws(digit_char(d)),
        digit_char(d) != '+',
{
}

/// The decimal text of `n` is a word of digits worth `n`, so parsing it
/// gives `n` back.
pub proof fn lemma_decimal_parses(n: nat)
    ensures
        is_word(decimal(n)),
        all_digits(decimal(n)),
        digits_value(decimal(n)) == n,
        n <= usize::MAX ==> parse_usize_spec(decimal(n)) == Some(n as usize),
    decreases n,
{
    let d = decimal(n);
    if n < 10 {
        lemma_digit_char(n);
        assert(d.drop_last() =~= Seq::<char>::empty());
        assert(d.last() == digit_char(n));
        assert(digits_value(d.drop_last()) == 0);
        assert(digits_value(d) == n);
    } else {
        lemma_decimal_parses(n / 10);
        lemma_digit_char(n % 10);
        let p = decimal(n / 10);
        assert(d.drop_last() =~= p);
        assert(d.last() == digit_char(n % 10));
        assert(digits_value(d) == digits_value(p) * 10 + digit_value(d.last()));
        assert((n / 10) * 10 + n % 10 == n);
        assert(digits_value(d) == n);
        assert forall|i: int| 0 <= i < d.len() implies !is_ws(#[trigger] d[i]) && is_digit(d[i]) by {
            if i < p.len() {
                assert(d[i] == p[i]);
            }
        }
    }
    assert(d[0] != '+') by {
        assert(is_digit(d[0]));
    }
    assert(unsigned_digits(d) == d);
}

/// Parses a count the way `str::parse::<usize>` does.
pub fn parse_usize(s: &[char]) -> (r: Option<usize>)
    ensures
        r == parse_usize_spec(s@),
{
    let start: usize = if s.len() > 0 && s[0] == '+' {
        1
    } else {
        0
    };
    let ghost d = unsigned_digits(s@);
    assert(d =~= s@.skip(start as int));
    if start >= s.len() {
        return None;
    }
    let mut k: usize = start;
    while k < s.len()
        invariant
            start <= k <= s@.len(),
            d =~= s@.skip(start as int),
            d == unsigned_digits(s@),
            forall|i: int| 0 <= i < k - start ==> is_digit(#[trigger] d[i]),
        decreases s.len() - k,
    {
        if digit_of(s[k]).is_none() {
            assert(!is_digit(d[k - start]));
            assert(!all_digits(d));
            return None;
        }
        k = k + 1;
    }
    assert(all_digits(d));
    let mut value: usize = 0;
    let mut i: usize = start;
    while i < s.len()
        invariant
            start <= i <= s@.len(),
            d =~= s@.skip(start as int),
            d == unsigned_digits(s@),
            all_digits(d),
            value == digits_value(d.take(i - start)),
        decreases s.len() - i,
    {
        let ghost j = i - start;
        assert(d.take(j + 1).drop_last() =~= d.take(j));
        assert(is_digit(d[j]));
        let dv = match digit_of(s[i]) {
            Some(v) => v,
            None => 0,
        };
        match value.checked_mul(10) {
            Some(m) => match m.checked_add(dv) {
                Some(v) => {
                    value = v;
                },
                None => {
                    proof {
                        lemma_digits_value_prefix(d, j + 1, d.len() as int);
                        assert(d.take(d.len() as int) =~= d);
                    }
                    return None;
                },
            },
            None => {
                proof {
                    lemma_digits_value_prefix(d, j + 1, d.len() as int);
                    assert(d.take(d.len() as int) =~= d);
                }
                return None;
            },
        }
        i = i + 1;
    }
    assert(d.take(d.len() as int) =~= d);
    Some(value)
}

/// Length in bytes of the UTF-8 encoding of `s` (what `str::len` counts).
pub open spec fn byte_len(s: Seq<char>) -> nat {
    encode_utf8(s).len()
}

/// UTF-8 encodes a concatenation piece by piece.
pub proof fn lemma_encode_concat(a: Seq<char>, b: Seq<char>)
    ensures
        encode_utf8(a + b) == encode_utf8(a) + encode_utf8(b),
    decreases a.len(),
{
    if a.len() == 0 {
        assert(a + b =~= b);
        assert(encode_utf8(a) =~= Seq::<u8>::empty());
        assert(encode_utf8(a) + encode_utf8(b) =~= encode_utf8(b));
    } else {
        lemma_encode_concat(a.drop_first(), b);
        assert((a + b).drop_first() =~= a.drop_first() + b);
        assert((a + b)[0] == a[0]);
        assert(encode_utf8(a + b) =~= encode_utf8(a) + encode_utf8(b));
    }
}

/// A piece of a text is no longer in bytes than the text.
pub proof fn lemma_byte_len_subrange(s: Seq<char>, i: int, j: int)
    requires
        0 <= i <= j <= s.len(),
    ensures
        byte_len(s.subrange(i, j)) <= byte_len(s),
{
    let pre = s.subrange(0, i);
    let mid = s.subrange(i, j);
    let post = s.subrange(j, s.len() as int);
    assert(s =~= pre + mid + post);
    lemma_encode_concat(pre + mid, post);
    lemma_encode_concat(pre, mid);
}

/// A space takes one byte.
pub proof fn lemma_byte_len_space()
    ensures
        byte_len(seq![' ']) == 1,
{
    assert(seq![' '].drop_first() =~= Seq::<char>::empty());
    assert(encode_utf8(Seq::<char>::empty()) =~= Seq::<u8>::empty());
}

/// Every word of `s` from `i` on is a piece of `s`.
pub proof fn lemma_words_from_are_pieces(s: Seq<char>, i: int)
    requires
        0 <= i <= s.len(),
    ensures
        forall|k: int|
            0 <= k < words_from(s, i).len() ==> exists|a: int, b: int|
                0 <= a <= b <= s.len() && #[trigger] words_from(s, i)[k] == s.subrange(a, b),
    decreases s.len() - i,
{
    let a = skip_ws_from(s, i);
    lemma_skip_ws_from(s, i);
    if a < s.len() {
        let b = word_end_from(s, a);
        lemma_word_end_from(s, a);
        lemma_words_from_are_pieces(s, b);
        let w = words_from(s, i);
        assert forall|k: int| 0 <= k < w.len() implies exists|x: int, y: int|
            0 <= x <= y <= s.len() && #[trigger] w[k] == s.subrange(x, y) by {
            if k == 0 {
                assert(w[0] == s.subrange(a, b));
            } else {
                assert(w[k] == words_from(s, b)[k - 1]);
            }
        }
    }
}

/// No word of `s` is longer in bytes than `s`.
pub proof fn lemma_word_byte_len(s: Seq<char>, k: int)
    requires
        0 <= k < words(s).len(),
    ensures
        byte_len(words(s)[k]) <= byte_len(s),
{
    lemma_words_from_are_pieces(s, 0);
    let w = words(s)[k];
    assert(exists|a: int, b: int| 0 <= a <= b <= s.len() && w == s.subrange(a, b));
    let (a, b) = choose|a: int, b: int| 0 <= a <= b <= s.len() && w == s.subrange(a, b);
    lemma_byte_len_subrange(s, a, b);
}

} // verus!
