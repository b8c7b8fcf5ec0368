//! Text helpers: trimming typed lines, decimal numbers, and JSON string
//! literals.

use vstd::prelude::*;
use vstd::string::{StrSliceExecFns, StringExecFns};

verus! {

/// The Unicode `White_Space` property, which `char::is_whitespace` and
/// `str::trim` go by.
pub open spec fn is_white_space(c: char) -> bool {
    let v = c as u32;
    ||| 0x09 <= v <= 0x0d
    ||| v == 0x20
    ||| v == 0x85
    ||| v == 0xa0
    ||| v == 0x1680
    ||| 0x2000 <= v <= 0x200a
    ||| v == 0x2028
    ||| v == 0x2029
    ||| v == 0x202f
    ||| v == 0x205f
    ||| v == 0x3000
}

/// `s` without its leading white space.
pub open spec fn trim_start(s: Seq<char>) -> Seq<char>
    decreases s.len(),
{
    if s.len() > 0 && is_white_space(s[0]) {
        trim_start(s.drop_first())
    } else {
        s
    }
}

/// `s` without its trailing white space.
pub open spec fn trim_end(s: Seq<char>) -> Seq<char>
    decreases s.len(),
{
    if s.len() > 0 && is_white_space(s.last()) {
        trim_end(s.drop_last())
    } else {
        s
    }
}

/// `s` without leading and trailing white space.
pub open spec fn trimmed(s: Seq<char>) -> Seq<char> {
    trim_end(trim_start(s))
}

/// Every character of `s` is white space.
pub open spec fn all_white_space(s: Seq<char>) -> bool {
    forall|i: int| 0 <= i < s.len() ==> is_white_space(#[trigger] s[i])
}

proof fn lemma_trim_start_skips(p: Seq<char>, s: Seq<char>)
    requires
        all_white_space(p),
    ensures
        trim_start(p + s) == trim_start(s),
    decreases p.len(),
{
    if p.len() == 0 {
        assert(p + s =~= s);
    } else {
        let t = p.drop_first();
        assert((p + s)[0] == p[0]);
        assert((p + s).drop_first() =~= t + s);
        assert forall|i: int| 0 <= i < t.len() implies is_white_space(#[trigger] t[i]) by {
            assert(t[i] == p[i + 1]);
        }
        lemma_trim_start_skips(t, s);
    }
}

proof fn lemma_trim_end_skips(s: Seq<char>, q: Seq<char>)
    requires
        all_white_space(q),
    ensures
        trim_end(s + q) == trim_end(s),
    decreases q.len(),
{
    if q.len() == 0 {
        assert(s + q =~= s);
    } else {
        let t = q.drop_last();
        assert((s + q).last() == q.last());
        assert((s + q).drop_last() =~= s + t);
        assert forall|i: int| 0 <= i < t.len() implies is_white_space(#[trigger] t[i]) by {
            assert(t[i] == q[i]);
        }
        lemma_trim_end_skips(s, t);
    }
}

proof fn lemma_trimmed_skips_suffix(s: Seq<char>, q: Seq<char>)
    requires
        all_white_space(q),
    ensures
        trim_end(trim_start(s + q)) == trim_end(trim_start(s)),
    decreases s.len(),
{
    if s.len() == 0 {
        assert(s + q =~= q);
        lemma_trim_start_skips(q, Seq::empty());
        assert(q + Seq::<char>::empty() =~= q);
    } else if is_white_space(s[0]) {
        assert((s + q)[0] == s[0]);
        assert((s + q).drop_first() =~= s.drop_first() + q);
        lemma_trimmed_skips_suffix(s.drop_first(), q);
    } else {
        assert((s + q)[0] == s[0]);
        lemma_trim_end_skips(s, q);
    }
}

proof fn lemma_trim_start_shape(s: Seq<char>) -> (i: int)
    ensures
        0 <= i <= s.len(),
        trim_start(s) == s.subrange(i, s.len() as int),
        forall|k: int| 0 <= k < i ==> is_white_space(#[trigger] s[k]),
        i == s.len() || !is_white_space(s[i]),
    decreases s.len(),
{
    if s.len() > 0 && is_white_space(s[0]) {
        let t = s.drop_first();
        let i0 = lemma_trim_start_shape(t);
        assert forall|k: int| 0 <= k < i0 + 1 implies is_white_space(#[trigger] s[k]) by {
            if k > 0 {
                assert(s[k] == t[k - 1]);
            }
        }
        if i0 < t.len() {
            assert(t[i0] == s[i0 + 1]);
        }
        assert(t.subrange(i0, t.len() as int) =~= s.subrange(i0 + 1, s.len() as int));
        i0 + 1
    } else {
        assert(s.subrange(0, s.len() as int) =~= s);
        0
    }
}

proof fn lemma_trim_end_shape(t: Seq<char>) -> (j: int)
    ensures
        0 <= j <= t.len(),
        trim_end(t) == t.subrange(0, j),
        forall|k: int| j <= k < t.len() ==> is_white_space(#[trigger] t[k]),
        j == 0 || !is_white_space(t[j - 1]),
    decreases t.len(),
{
    if t.len() > 0 && is_white_space(t.last()) {
        let u = t.drop_last();
        let j0 = lemma_trim_end_shape(u);
        assert forall|k: int| j0 <= k < t.len() implies is_white_space(#[trigger] t[k]) by {
            if k < u.len() {
                assert(t[k] == u[k]);
            }
        }
        if j0 > 0 {
            assert(u[j0 - 1] == t[j0 - 1]);
        }
        assert(u.subrange(0, j0) =~= t.subrange(0, j0));
        j0
    } else {
        assert(t.subrange(0, t.len() as int) =~= t);
        t.len() as int
    }
}

/// Trimming removes white space at both ends and nothing else: the result
/// is a contiguous part of the string, everything before and after it is
/// white space, and it neither starts nor ends with white space.
pub proof fn law_trim_removes_only_surrounding_white_space(s: Seq<char>)
    ensures
        exists|i: int, j: int|
            {
                &&& 0 <= i <= j <= s.len()
                &&& trimmed(s) == s.subrange(i, j)
                &&& (forall|k: int| 0 <= k < i ==> is_white_space(#[trigger] s[k]))
                &&& (forall|k: int| j <= k < s.len() ==> is_white_space(#[trigger] s[k]))
                &&& (i < j ==> !is_white_space(s[i]) && !is_white_space(s[j - 1]))
            },
{
    let i = lemma_trim_start_shape(s);
    let t = s.subrange(i, s.len() as int);
    let j0 = lemma_trim_end_shape(t);
    let j = i + j0;
    assert(t.subrange(0, j0) =~= s.subrange(i, j));
    assert forall|k: int| j <= k < s.len() implies is_white_space(#[trigger] s[k]) by {
        assert(t[k - i] == s[k]);
    }
    if i < j {
        assert(t[j0 - 1] == s[j - 1]);
    }
    assert(trimmed(s) == s.subrange(i, j));
}

/// A string that is empty, or that neither starts nor ends with white
/// space, comes back from trimming unchanged.
pub proof fn law_trim_keeps_trimmed_strings(s: Seq<char>)
    requires
        s.len() == 0 || (!is_white_space(s[0]) && !is_white_space(s.last())),
    ensures
        trimmed(s) == s,
{
    assert(trim_start(s) == s);
}

/// Trimming ignores white space added around a string.
pub proof fn law_trim_ignores_surrounding_white_space(pre: Seq<char>, s: Seq<char>, post: Seq<char>)
    requires
        all_white_space(pre),
        all_white_space(post),
    ensures
        trimmed(pre + s + post) == trimmed(s),
{
    assert(pre + s + post =~= pre + (s + post));
    lemma_trim_start_skips(pre, s + post);
    lemma_trimmed_skips_suffix(s, post);
}

/// `char::is_whitespace`: the Unicode `White_Space` property.
fn char_is_white_space(c: char) -> (r: bool)
    ensures
        r == is_white_space(c),
{
    let v = c as u32;
    (0x09 <= v && v <= 0x0d) || v == 0x20 || v == 0x85 || v == 0xa0 || v == 0x1680 || (0x2000 <= v
        && v <= 0x200a) || v == 0x2028 || v == 0x2029 || v == 0x202f || v == 0x205f || v == 0x3000
}

proof fn lemma_trim_start_at(s: Seq<char>, i: int)
    requires
        0 <= i <= s.len(),
        forall|k: int| 0 <= k < i ==> is_white_space(#[trigger] s[k]),
        i == s.len() || !is_white_space(s[i]),
    ensures
        trim_start(s) == s.subrange(i, s.len() as int),
    decreases i,
{
    if i == 0 {
        assert(s.subrange(0, s.len() as int) =~= s);
    } else {
        let t = s.drop_first();
        assert forall|k: int| 0 <= k < i - 1 implies is_white_space(#[trigger] t[k]) by {
            assert(t[k] == s[k + 1]);
        }
        if i - 1 < t.len() {
            assert(t[i - 1] == s[i]);
        }
        lemma_trim_start_at(t, i - 1);
        assert(t.subrange(i - 1, t.len() as int) =~= s.subrange(i, s.len() as int));
    }
}

proof fn lemma_trim_end_at(t: Seq<char>, j: int)
    requires
        0 <= j <= t.len(),
        forall|k: int| j <= k < t.len() ==> is_white_space(#[trigger] t[k]),
        j == 0 || !is_white_space(t[j - 1]),
    ensures
        trim_end(t) == t.subrange(0, j),
    decreases t.len() - j,
{
    if j == t.len() {
        assert(t.subrange(0, j) =~= t);
    } else {
        let u = t.drop_last();
        assert forall|k: int| j <= k < u.len() implies is_white_space(#[trigger] u[k]) by {
            assert(u[k] == t[k]);
        }
        if j > 0 {
            assert(u[j - 1] == t[j - 1]);
        }
        lemma_trim_end_at(u, j);
        assert(u.subrange(0, j) =~= t.subrange(0, j));
    }
}

/// `str::trim`: the string without leading and trailing white space.
pub fn trim<'a>(s: &'a str) -> (r: &'a str)
    ensures
        r@ == trimmed(s@),
{
    let n = s.unicode_len();
    let mut i: usize = 0;
    while i < n
        invariant
            n == s@.len(),
            i <= n,
            forall|k: int| 0 <= k < i ==> is_white_space(#[trigger] s@[k]),
        ensures
            i <= n,
            forall|k: int| 0 <= k < i ==> is_white_space(#[trigger] s@[k]),
            i == n || !is_white_space(s@[i as int]),
        decreases n - i,
    {
        if !char_is_white_space(s.get_char(i)) {
            break;
        }
        i += 1;
    }
    let mut j: usize = n;
    while j > i
        invariant
            n == s@.len(),
            i <= j <= n,
            forall|k: int| j <= k < n ==> is_white_space(#[trigger] s@[k]),
        ensures
            i <= j <= n,
            forall|k: int| j <= k < n ==> is_white_space(#[trigger] s@[k]),
            j == i || !is_white_space(s@[j - 1]),
        decreases j - i,
    {
        if !char_is_white_space(s.get_char(j - 1)) {
            break;
        }
        j -= 1;
    }
    proof {
        lemma_trim_start_at(s@, i as int);
        let t = s@.subrange(i as int, n as int);
        assert forall|k: int| j - i <= k < t.len() implies is_white_space(#[trigger] t[k]) by {
            assert(t[k] == s@[k + i]);
        }
        if j > i {
            assert(t[j - i - 1] == s@[j - 1]);
        }
        lemma_trim_end_at(t, j - i);
        assert(t.subrange(0, j - i) =~= s@.subrange(i as int, j as int));
    }
    s.substring_char(i, j)
}

/// The decimal digit `d` (below ten) as a character.
pub open spec fn digit_char(d: nat) -> char {
    seq!['0', '1', '2', '3', '4', '5', '6', '7', '8', '9'][d as int]
}

/// The decimal numeral of `n`, without leading zeros.
pub open spec fn decimal(n: nat) -> Seq<char>
    decreases n,
{
    if n < 10 {
        seq![digit_char(n)]
    } else {
        decimal(n / 10) + seq![digit_char(n % 10)]
    }
}

/// The value of a decimal digit character.
pub open spec fn digit_value(c: char) -> nat {
    ((c as u32) - ('0' as u32)) as nat
}

/// The number that a string of decimal digits denotes.
pub open spec fn decimal_value(s: Seq<char>) -> nat
    decreases s.len(),
{
    if s.len() == 0 {
        0
    } else {
        decimal_value(s.drop_last()) * 10 + digit_value(s.last())
    }
}

fn digit_str(d: u32) -> (s: &'static str)
    requires
        d < 10,
    ensures
        s@ == seq![digit_char(d as nat)],
{
    proof {
        reveal_strlit("0");
        reveal_strlit("1");
        reveal_strlit("2");
        reveal_strlit("3");
        reveal_strlit("4");
        reveal_strlit("5");
        reveal_strlit("6");
        reveal_strlit("7");
        reveal_strlit("8");
        reveal_strlit("9");
    }
    if d == 0 {
        "0"
    } else if d == 1 {
        "1"
    } else if d == 2 {
        "2"
    } else if d == 3 {
        "3"
    } else if d == 4 {
        "4"
    } else if d == 5 {
        "5"
    } else if d == 6 {
        "6"
    } else if d == 7 {
        "7"
    } else if d == 8 {
        "8"
    } else {
        "9"
    }
}

fn push_decimal(n: u32, out: &mut String)
    ensures
        final(out)@ == old(out)@ + decimal(n as nat),
    decreases n,
{
    if n >= 10 {
        push_decimal(n / 10, out);
    }
    out.append(digit_str(n % 10));
}

/// The decimal numeral of `n`, as `u32::to_string` writes it.
pub fn decimal_string(n: u32) -> (s: String)
    ensures
        s@ == decimal(n as nat),
{
    let mut s = String::new();
    push_decimal(n, &mut s);
    assert(s@ =~= decimal(n as nat));
    s
}

proof fn lemma_digit_value(d: nat)
    requires
        d < 10,
    ensures
        digit_value(digit_char(d)) == d,
{
    let ds = seq!['0', '1', '2', '3', '4', '5', '6', '7', '8', '9'];
    if d == 0 { assert(ds[0] == '0'); } else if d == 1 { assert(ds[1] == '1'); }
    else if d == 2 { assert(ds[2] == '2'); } else if d == 3 { assert(ds[3] == '3'); }
    else if d == 4 { assert(ds[4] == '4'); } else if d == 5 { assert(ds[5] == '5'); }
    else if d == 6 { assert(ds[6] == '6'); } else if d == 7 { assert(ds[7] == '7'); }
    else if d == 8 { assert(ds[8] == '8'); } else { assert(ds[9] == '9'); }
}

/// Reading a numeral back gives the number it was written from.
pub proof fn law_decimal_reads_back(n: nat)
    ensures
        decimal_value(decimal(n)) == n,
    decreases n,
{
    if n < 10 {
        lemma_digit_value(n);
        let e = Seq::<char>::empty();
        assert(decimal(n).drop_last() =~= e);
        assert(decimal_value(e) == 0);
        assert(decimal(n).last() == digit_char(n));
    } else {
        lemma_digit_value(n % 10);
        law_decimal_reads_back(n / 10);
        assert(decimal(n).drop_last() =~= decimal(n / 10));
        assert(decimal(n).last() == digit_char(n % 10));
        assert((n / 10) * 10 + n % 10 == n);
    }
}

/// `c` is one of the characters `0` to `9`.
pub open spec fn is_decimal_digit(c: char) -> bool {
    '0' <= c && c <= '9'
}

proof fn lemma_digit_char_is_digit(d: nat)
    requires
        d < 10,
    ensures
        is_decimal_digit(digit_char(d)),
        d > 0 ==> digit_char(d) != '0',
{
    let ds = seq!['0', '1', '2', '3', '4', '5', '6', '7', '8', '9'];
    if d == 0 { assert(ds[0] == '0'); } else if d == 1 { assert(ds[1] == '1'); }
    else if d == 2 { assert(ds[2] == '2'); } else if d == 3 { assert(ds[3] == '3'); }
    else if d == 4 { assert(ds[4] == '4'); } else if d == 5 { assert(ds[5] == '5'); }
    else if d == 6 { assert(ds[6] == '6'); } else if d == 7 { assert(ds[7] == '7'); }
    else if d == 8 { assert(ds[8] == '8'); } else { assert(ds[9] == '9'); }
}

/// The numeral written for a number is made of the characters `0` to `9`
/// only, is never empty, and starts with `0` only when the number is 0.
/// With `law_decimal_reads_back`, it is the number's decimal numeral.
pub proof fn law_decimal_is_a_numeral(n: nat)
    ensures
        decimal(n).len() >= 1,
        forall|i: int| 0 <= i < decimal(n).len() ==> is_decimal_digit(#[trigger] decimal(n)[i]),
        decimal(n)[0] == '0' ==> n == 0,
    decreases n,
{
    if n < 10 {
        lemma_digit_char_is_digit(n);
    } else {
        law_decimal_is_a_numeral(n / 10);
        lemma_digit_char_is_digit(n % 10);
        let d = decimal(n);
        assert(d == decimal(n / 10) + seq![digit_char(n % 10)]);
        assert forall|i: int| 0 <= i < d.len() implies is_decimal_digit(#[trigger] d[i]) by {
            if i < decimal(n / 10).len() {
                assert(d[i] == decimal(n / 10)[i]);
            } else {
                assert(d[i] == digit_char(n % 10));
            }
        }
        assert(d[0] == decimal(n / 10)[0]);
    }
}

/// A lower-case hexadecimal digit.
pub open spec fn hex_char(d: nat) -> char {
    seq!['0', '1', '2', '3', '4', '5', '6', '7', '8', '9', 'a', 'b', 'c', 'd', 'e', 'f'][d as int]
}

/// How one character is written inside a JSON string literal: quote and
/// backslash are escaped, the control characters below U+0020 take their
/// short escape or `\u00XX`, and every other character stands as it is.
pub open spec fn json_escape(c: char) -> Seq<char> {
    let v = c as u32;
    if c == '"' {
        seq!['\\', '"']
    } else if c == '\\' {
        seq!['\\', '\\']
    } else if v == 0x08 {
        seq!['\\', 'b']
    } else if v == 0x09 {
        seq!['\\', 't']
    } else if v == 0x0a {
        seq!['\\', 'n']
    } else if v == 0x0c {
        seq!['\\', 'f']
    } else if v == 0x0d {
        seq!['\\', 'r']
    } else if v < 0x20 {
        seq!['\\', 'u', '0', '0', hex_char((v / 16) as nat), hex_char((v % 16) as nat)]
    } else {
        seq![c]
    }
}

/// The escaped contents of a JSON string literal.
pub open spec fn json_escape_all(s: Seq<char>) -> Seq<char>
    decreases s.len(),
{
    if s.len() == 0 {
        Seq::empty()
    } else {
        json_escape(s[0]) + json_escape_all(s.drop_first())
    }
}

/// The JSON string literal for `s`, quotes included.
pub open spec fn json_string(s: Seq<char>) -> Seq<char> {
    seq!['"'] + json_escape_all(s) + seq!['"']
}

/// The value of a hexadecimal digit character (either case).
pub open spec fn hex_value(c: char) -> Option<nat> {
    let v = c as u32;
    if 0x30 <= v <= 0x39 {
        Some((v - 0x30) as nat)
    } else if 0x61 <= v <= 0x66 {
        Some((v - 0x61 + 10) as nat)
    } else if 0x41 <= v <= 0x46 {
        Some((v - 0x41 + 10) as nat)
    } else {
        None
    }
}

/// The character that a `\uXXXX` escape names, for the four digits after
/// `\u`; surrogate code points are not read.
pub open spec fn json_unicode_escape(d: Seq<char>) -> Option<char> {
    match (hex_value(d[0]), hex_value(d[1]), hex_value(d[2]), hex_value(d[3])) {
        (Some(a), Some(b), Some(c), Some(e)) => {
            let v = a * 4096 + b * 256 + c * 16 + e;
            if v < 0xd800 || 0xe000 <= v {
                Some(v as char)
            } else {
                None
            }
        },
        _ => None,
    }
}

/// Reads one character of a JSON string literal's contents at the start
/// of `t`: the character and how many characters of `t` stand for it.
/// `None` for the closing quote, a control character, or a bad escape.
pub open spec fn json_read_char(t: Seq<char>) -> Option<(char, int)> {
    if t.len() == 0 || t[0] == '"' || (t[0] as u32) < 0x20 {
        None
    } else if t[0] != '\\' {
        Some((t[0], 1))
    } else if t.len() < 2 {
        None
    } else if t[1] == '"' || t[1] == '\\' || t[1] == '/' {
        Some((t[1], 2))
    } else if t[1] == 'b' {
        Some(('\x08', 2))
    } else if t[1] == 't' {
        Some(('\t', 2))
    } else if t[1] == 'n' {
        Some(('\n', 2))
    } else if t[1] == 'f' {
        Some(('\x0c', 2))
    } else if t[1] == 'r' {
        Some(('\r', 2))
    } else if t[1] == 'u' && t.len() >= 6 {
        match json_unicode_escape(t.subrange(2, 6)) {
            Some(c) => Some((c, 6)),
            None => None,
        }
    } else {
        None
    }
}

/// Reads the contents of a JSON string literal, up to and including its
/// closing quote: the characters read and how many characters of `t` were
/// used.
pub open spec fn json_read_contents(t: Seq<char>) -> Option<(Seq<char>, int)>
    decreases t.len(),
{
    if t.len() == 0 {
        None
    } else if t[0] == '"' {
        Some((Seq::empty(), 1))
    } else {
        match json_read_char(t) {
            Some((c, w)) => if 1 <= w <= t.len() {
                match json_read_contents(t.skip(w)) {
                    Some((rest, n)) => Some((seq![c] + rest, n + w)),
                    None => None,
                }
            } else {
                None
            },
            None => None,
        }
    }
}

/// Reads a JSON string literal at the start of `t`: the string it denotes
/// and how many characters of `t` it takes.
pub open spec fn json_read_string(t: Seq<char>) -> Option<(Seq<char>, int)> {
    if t.len() > 0 && t[0] == '"' {
        match json_read_contents(t.drop_first()) {
            Some((s, n)) => Some((s, n + 1)),
            None => None,
        }
    } else {
        None
    }
}

proof fn lemma_hex_round_trip(d: nat)
    requires
        d < 16,
    ensures
        hex_value(hex_char(d)) == Some(d),
{
    let hs = seq!['0', '1', '2', '3', '4', '5', '6', '7', '8', '9', 'a', 'b', 'c', 'd', 'e', 'f'];
    assert(hex_char(d) == hs[d as int]);
    if d == 0 { assert(hs[0] == '0'); } else if d == 1 { assert(hs[1] == '1'); }
    else if d == 2 { assert(hs[2] == '2'); } else if d == 3 { assert(hs[3] == '3'); }
    else if d == 4 { assert(hs[4] == '4'); } else if d == 5 { assert(hs[5] == '5'); }
    else if d == 6 { assert(hs[6] == '6'); } else if d == 7 { assert(hs[7] == '7'); }
    else if d == 8 { assert(hs[8] == '8'); } else if d == 9 { assert(hs[9] == '9'); }
    else if d == 10 { assert(hs[10] == 'a'); } else if d == 11 { assert(hs[11] == 'b'); }
    else if d == 12 { assert(hs[12] == 'c'); } else if d == 13 { assert(hs[13] == 'd'); }
    else if d == 14 { assert(hs[14] == 'e'); } else { assert(hs[15] == 'f'); }
}

/// What one character's escape reads back as.
proof fn lemma_read_escaped_char(c: char, tail: Seq<char>)
    ensures
        json_read_char(json_escape(c) + tail) == Some((c, json_escape(c).len() as int)),
        json_escape(c).len() >= 1,
        (json_escape(c) + tail)[0] != '"',
{
    let e = json_escape(c);
    let t = e + tail;
    let v = c as u32;
    assert(t[0] == e[0]);
    if c == '"' || c == '\\' || v == 0x08 || v == 0x09 || v == 0x0a || v == 0x0c || v == 0x0d {
        assert(t[1] == e[1]);
    } else if v < 0x20 {
        assert(t[1] == e[1]);
        let d = t.subrange(2, 6);
        assert(d =~= seq!['0', '0', hex_char((v / 16) as nat), hex_char((v % 16) as nat)]);
        lemma_hex_round_trip(0);
        lemma_hex_round_trip((v / 16) as nat);
        lemma_hex_round_trip((v % 16) as nat);
        assert(d[0] == hex_char(0));
        assert(d[1] == hex_char(0));
        assert((v / 16) * 16 + v % 16 == v);
    }
}

proof fn lemma_read_escaped_contents(s: Seq<char>, tail: Seq<char>)
    ensures
        json_read_contents(json_escape_all(s) + seq!['"'] + tail) == Some(
            (s, json_escape_all(s).len() + 1int),
        ),
    decreases s.len(),
{
    let t = json_escape_all(s) + seq!['"'] + tail;
    if s.len() == 0 {
        assert(json_escape_all(s) =~= Seq::<char>::empty());
        assert(t[0] == '"');
        assert(s =~= Seq::<char>::empty());
    } else {
        let c = s[0];
        let r = s.drop_first();
        let e = json_escape(c);
        let after = json_escape_all(r) + seq!['"'] + tail;
        assert(json_escape_all(s) == e + json_escape_all(r));
        assert(t =~= e + after);
        lemma_read_escaped_char(c, after);
        assert(t.skip(e.len() as int) =~= after);
        lemma_read_escaped_contents(r, tail);
        assert(seq![c] + r =~= s);
    }
}

/// A JSON string literal as serde_json writes it reads back as the string
/// it was written from, whatever follows it.
pub proof fn law_json_string_reads_back(s: Seq<char>, tail: Seq<char>)
    ensures
        json_read_string(json_string(s) + tail) == Some((s, json_string(s).len() as int)),
{
    let t = json_string(s) + tail;
    assert(t[0] == '"');
    assert(t.drop_first() =~= json_escape_all(s) + seq!['"'] + tail);
    lemma_read_escaped_contents(s, tail);
}

#[verifier::external_type_specification]
#[verifier::external_body]
pub struct ExJsonError(serde_json::Error);

/// Calls `serde_json::to_string` on a string. In serde_json's source
/// (`format_escaped_str`, the `ESCAPE` table and `write_char_escape` of the
/// compact formatter) the output is a quote, the string with `"`, `\` and
/// the control characters below U+0020 escaped, and a quote; the contract
/// states that, and that the call succeeds: the text is written into a
/// `Vec<u8>` (`to_vec`), whose `io::Write` never fails, and serializing a
/// `str` reports no error of its own.
#[verifier::external_body]
pub(crate) fn to_json_string(s: &str) -> (r: Result<String, serde_json::Error>)
    ensures
        r is Ok,
        r matches Ok(t) ==> t@ == json_string(s@),
{
    serde_json::to_string(s)
}

} // verus!
