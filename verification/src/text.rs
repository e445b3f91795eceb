//! Text as sequences of characters: the helpers the stages share.

use vstd::prelude::*;

verus! {

/// The contents of a list of strings.
pub open spec fn strings_view(s: Seq<String>) -> Seq<Seq<char>> {
    Seq::new(s.len(), |i: int| s[i]@)
}

/// Viewing commutes with appending one string.
pub broadcast proof fn lemma_strings_view_push(s: Seq<String>, x: String)
    ensures
        #[trigger] strings_view(s.push(x)) == strings_view(s).push(x@),
{
    assert(strings_view(s.push(x)) =~= strings_view(s).push(x@));
}

/// `String::from_iter` over the characters of `chars`: the string that
/// holds exactly these characters, in this order.
#[verifier::external_body]
pub(crate) fn string_from_chars(chars: &Vec<char>) -> (s: String)
    ensures
        s@ == chars@,
{
    chars.iter().collect()
}

/// The characters of a string slice, in order.
pub fn chars_of(s: &str) -> (out: Vec<char>)
    ensures
        out@ == s@,
{
    let mut out: Vec<char> = Vec::new();
    for c in it: s.chars()
        invariant
            out@ == it.seq().take(it.index@),
    {
        out.push(c);
    }
    out
}

/// An owned copy of a string slice.
pub fn owned(s: &str) -> (out: String)
    ensures
        out@ == s@,
{
    s.to_owned()
}

/// A copy of an optional string.
pub fn clone_opt_string(s: &Option<String>) -> (out: Option<String>)
    ensures
        out is Some == s is Some,
        s is Some ==> out->0@ == s->0@,
{
    match s {
        Some(x) => Some(x.clone()),
        None => None,
    }
}

/// Appends the characters of `s`.
pub fn push_str(out: &mut Vec<char>, s: &str)
    ensures
        final(out)@ == old(out)@ + s@,
{
    let ghost before = out@;
    for c in it: s.chars()
        invariant
            out@ == before + it.seq().take(it.index@),
    {
        out.push(c);
        assert(it.seq().take(it.index@ + 1) =~= it.seq().take(it.index@).push(c));
    }
}

/// The text made of two parts.
pub fn concat2(a: &str, b: &str) -> (out: String)
    ensures
        out@ == a@ + b@,
{
    let mut chars: Vec<char> = Vec::new();
    push_str(&mut chars, a);
    push_str(&mut chars, b);
    string_from_chars(&chars)
}

/// The text made of four parts.
pub fn concat4(a: &str, b: &str, c: &str, d: &str) -> (out: String)
    ensures
        out@ == a@ + b@ + c@ + d@,
{
    let mut chars: Vec<char> = Vec::new();
    push_str(&mut chars, a);
    push_str(&mut chars, b);
    push_str(&mut chars, c);
    push_str(&mut chars, d);
    string_from_chars(&chars)
}

/// The text made of three parts.
pub fn concat3(a: &str, b: &str, c: &str) -> (out: String)
    ensures
        out@ == a@ + b@ + c@,
{
    let mut chars: Vec<char> = Vec::new();
    push_str(&mut chars, a);
    push_str(&mut chars, b);
    push_str(&mut chars, c);
    string_from_chars(&chars)
}

/// The text made of five parts.
pub fn concat5(a: &str, b: &str, c: &str, d: &str, e: &str) -> (out: String)
    ensures
        out@ == a@ + b@ + c@ + d@ + e@,
{
    let mut chars: Vec<char> = Vec::new();
    push_str(&mut chars, a);
    push_str(&mut chars, b);
    push_str(&mut chars, c);
    push_str(&mut chars, d);
    push_str(&mut chars, e);
    string_from_chars(&chars)
}

/// The character for a digit value.
pub open spec fn digit_char(d: nat) -> char {
    if d == 0 {
        '0'
    } else if d == 1 {
        '1'
    } else if d == 2 {
        '2'
    } else if d == 3 {
        '3'
    } else if d == 4 {
        '4'
    } else if d == 5 {
        '5'
    } else if d == 6 {
        '6'
    } else if d == 7 {
        '7'
    } else if d == 8 {
        '8'
    } else {
        '9'
    }
}

/// The decimal digits of `n`, most significant first, without leading
/// zeros.
pub open spec fn decimal_text(n: nat) -> Seq<char>
    decreases n,
{
    if n < 10 {
        seq![digit_char(n)]
    } else {
        decimal_text(n / 10).push(digit_char(n % 10))
    }
}

/// `k` zeros.
pub open spec fn zeros(k: nat) -> Seq<char> {
    Seq::new(k, |i: int| '0')
}

/// The decimal digits of `n`, with zeros in front up to `width` characters.
pub open spec fn padded_decimal(n: nat, width: nat) -> Seq<char> {
    let digits = decimal_text(n);
    if digits.len() >= width {
        digits
    } else {
        zeros((width - digits.len()) as nat) + digits
    }
}

/// The character for a digit value.
pub fn digit_of(d: u8) -> (c: char)
    requires
        d < 10,
    ensures
        c == digit_char(d as nat),
{
    if d == 0 {
        '0'
    } else if d == 1 {
        '1'
    } else if d == 2 {
        '2'
    } else if d == 3 {
        '3'
    } else if d == 4 {
        '4'
    } else if d == 5 {
        '5'
    } else if d == 6 {
        '6'
    } else if d == 7 {
        '7'
    } else if d == 8 {
        '8'
    } else {
        '9'
    }
}

/// Appends the decimal digits of `n`.
pub fn push_decimal(out: &mut Vec<char>, n: u64)
    ensures
        final(out)@ == old(out)@ + decimal_text(n as nat),
    decreases n,
{
    if n >= 10 {
        push_decimal(out, n / 10);
    }
    out.push(digit_of((n % 10) as u8));
    assert(out@ =~= old(out)@ + decimal_text(n as nat));
}

/// How many decimal digits `n` has.
pub fn decimal_len(n: u64) -> (len: usize)
    ensures
        len == decimal_text(n as nat).len(),
        1 <= len <= 20,
    decreases n,
{
    if n >= 10 {
        let rest = decimal_len(n / 10);
        proof {
            lemma_decimal_len_bound(n as nat);
        }
        rest + 1
    } else {
        1
    }
}

/// A number below `10^k` has at most `k` digits; a `u64` has at most 20.
pub proof fn lemma_decimal_len_bound(n: nat)
    requires
        n <= u64::MAX,
    ensures
        decimal_text(n).len() <= 20,
{
    reveal_with_fuel(decimal_text, 21);
}

/// Appends the decimal digits of `n`, with zeros in front up to `width`
/// characters.
pub fn push_padded(out: &mut Vec<char>, n: u64, width: usize)
    ensures
        final(out)@ == old(out)@ + padded_decimal(n as nat, width as nat),
{
    let len = decimal_len(n);
    let mut k: usize = len;
    while k < width
        invariant
            len <= k,
            k <= width || k == len,
            out@ == old(out)@ + zeros((k - len) as nat),
        decreases width - k,
    {
        out.push('0');
        assert(out@ =~= old(out)@ + zeros((k + 1 - len) as nat));
        k = k + 1;
    }
    let ghost mid = out@;
    push_decimal(out, n);
    assert(out@ =~= old(out)@ + padded_decimal(n as nat, width as nat));
}

/// Whether the characters end with `suffix`.
pub fn has_suffix(s: &Vec<char>, suffix: &str) -> (r: bool)
    ensures
        r == (s@.len() >= suffix@.len() && s@.subrange(s@.len() - suffix@.len(), s@.len() as int) == suffix@),
{
    let tail = chars_of(suffix);
    if s.len() < tail.len() {
        return false;
    }
    let start = s.len() - tail.len();
    let mut i: usize = 0;
    while i < tail.len()
        invariant
            i <= tail.len(),
            start + tail.len() == s.len(),
            tail@ == suffix@,
            forall|j: int| 0 <= j < i ==> s@[start + j] == tail@[j],
        decreases tail.len() - i,
    {
        if s[start + i] != tail[i] {
            assert(s@.subrange(s@.len() - suffix@.len(), s@.len() as int)[i as int] != suffix@[i as int]);
            return false;
        }
        i = i + 1;
    }
    assert(s@.subrange(s@.len() - suffix@.len(), s@.len() as int) =~= suffix@);
    true
}

/// Whether `c` is one of `0` to `9`.
pub open spec fn is_digit(c: char) -> bool {
    '0' <= c && c <= '9'
}

/// Whether `c` is one of `0` to `9`.
pub fn is_digit_char(c: char) -> (r: bool)
    ensures
        r == is_digit(c),
{
    '0' <= c && c <= '9'
}

/// The value of a digit character.
pub open spec fn digit_value(c: char) -> nat {
    (c as nat - '0' as nat) as nat
}

/// Whether `s` is one decimal digit or more, and nothing else.
pub open spec fn is_number_text(s: Seq<char>) -> bool {
    s.len() > 0 && forall|i: int| 0 <= i < s.len() ==> is_digit(#[trigger] s[i])
}

/// The number that the first `n` digits of `s` write.
pub open spec fn digits_number(s: Seq<char>, n: nat) -> nat
    decreases n,
{
    if n == 0 || n > s.len() {
        0
    } else {
        digits_number(s, (n - 1) as nat) * 10 + digit_value(s[n - 1])
    }
}

/// The number that a decimal numeral writes, if it is one and the number
/// is at most `max`.
pub open spec fn number_within(s: Seq<char>, max: nat) -> Option<nat> {
    if is_number_text(s) && digits_number(s, s.len()) <= max {
        Some(digits_number(s, s.len()))
    } else {
        None
    }
}

/// More digits never write a smaller number.
pub proof fn lemma_digits_number_grows(s: Seq<char>, a: nat, b: nat)
    requires
        a <= b <= s.len(),
    ensures
        digits_number(s, a) <= digits_number(s, b),
    decreases b,
{
    if a < b {
        lemma_digits_number_grows(s, a, (b - 1) as nat);
    }
}

/// Reads a decimal numeral whose value is at most `max`.
pub fn parse_number(text: &str, max: u64) -> (r: Option<u64>)
    ensures
        match number_within(text@, max as nat) {
            Some(v) => r == Some(v as u64),
            None => r is None,
        },
{
    let chars = chars_of(text);
    if chars.len() == 0 {
        return None;
    }
    let mut acc: u64 = 0;
    let mut i: usize = 0;
    while i < chars.len()
        invariant
            i <= chars.len(),
            chars@ == text@,
            forall|j: int| 0 <= j < i ==> is_digit(#[trigger] chars@[j]),
            acc == digits_number(chars@, i as nat),
            acc <= max,
        decreases chars.len() - i,
    {
        let c = chars[i];
        if !is_digit_char(c) {
            return None;
        }
        let d: u64 = (c as u32 - '0' as u32) as u64;
        assert(d == digit_value(c));
        if d > max || acc > (max - d) / 10 {
            proof {
                assert(digits_number(chars@, (i + 1) as nat) > max) by (nonlinear_arith)
                    requires
                        digits_number(chars@, (i + 1) as nat) == acc * 10 + d,
                        d > max || acc > (max - d) / 10,
                        d <= 9,
                ;
                lemma_digits_number_grows(chars@, (i + 1) as nat, chars@.len());
            }
            return None;
        }
        assert(acc * 10 + d <= max) by (nonlinear_arith)
            requires
                acc <= (max - d) / 10,
                d <= max,
        ;
        acc = acc * 10 + d;
        i = i + 1;
    }
    Some(acc)
}

/// `s` without its first and its last character; empty when `s` has fewer
/// than two.
pub open spec fn strip_ends(s: Seq<char>) -> Seq<char> {
    if s.len() >= 2 {
        s.subrange(1, s.len() - 1)
    } else {
        Seq::empty()
    }
}

/// `s` without its first character; empty when `s` is.
pub open spec fn strip_first(s: Seq<char>) -> Seq<char> {
    if s.len() >= 1 {
        s.subrange(1, s.len() as int)
    } else {
        Seq::empty()
    }
}

/// How many characters `s` keeps once every `c` at its end is dropped.
pub open spec fn trimmed_len(s: Seq<char>, c: char) -> nat
    decreases s.len(),
{
    if s.len() > 0 && s.last() == c {
        trimmed_len(s.drop_last(), c)
    } else {
        s.len()
    }
}

/// `s` without the run of `c` at its end.
pub open spec fn trim_end(s: Seq<char>, c: char) -> Seq<char> {
    s.subrange(0, trimmed_len(s, c) as int)
}

/// The characters of `chars` from `from` up to, not including, `to`.
pub fn slice_to_string(chars: &Vec<char>, from: usize, to: usize) -> (out: String)
    requires
        from <= to <= chars.len(),
    ensures
        out@ == chars@.subrange(from as int, to as int),
{
    let mut part: Vec<char> = Vec::new();
    let mut i: usize = from;
    while i < to
        invariant
            from <= i <= to,
            to <= chars.len(),
            part@ == chars@.subrange(from as int, i as int),
        decreases to - i,
    {
        part.push(chars[i]);
        assert(part@ =~= chars@.subrange(from as int, i + 1));
        i = i + 1;
    }
    string_from_chars(&part)
}

/// The text without its first and last character.
pub fn without_ends(text: &str) -> (out: String)
    ensures
        out@ == strip_ends(text@),
{
    let chars = chars_of(text);
    if chars.len() >= 2 {
        slice_to_string(&chars, 1, chars.len() - 1)
    } else {
        String::new()
    }
}

/// The text without its first character.
pub fn without_first(text: &str) -> (out: String)
    ensures
        out@ == strip_first(text@),
{
    let chars = chars_of(text);
    if chars.len() >= 1 {
        slice_to_string(&chars, 1, chars.len())
    } else {
        String::new()
    }
}

/// The text without the run of `c` at its end.
pub fn without_trailing(text: &str, c: char) -> (out: String)
    ensures
        out@ == trim_end(text@, c),
{
    let chars = chars_of(text);
    let mut n: usize = chars.len();
    assert(chars@.subrange(0, n as int) =~= chars@);
    while n > 0 && chars[n - 1] == c
        invariant
            n <= chars.len(),
            chars@ == text@,
            trimmed_len(chars@, c) == trimmed_len(chars@.subrange(0, n as int), c),
        decreases n,
    {
        assert(chars@.subrange(0, n as int).drop_last() =~= chars@.subrange(0, n - 1));
        n = n - 1;
    }
    assert(chars@.subrange(0, chars@.len() as int) =~= chars@);
    slice_to_string(&chars, 0, n)
}

/// The contents of an optional string.
pub open spec fn opt_view(s: Option<String>) -> Option<Seq<char>> {
    match s {
        Some(x) => Some(x@),
        None => None,
    }
}

} // verus!
