//! Text handling shared by the rest of the library: character tests, trimming,
//! case folding, and decimal and hexadecimal notation.
//!
//! Contracts speak of text as `Seq<char>`, the view of `str` and `String`.
use vstd::prelude::*;
use vstd::string::*;

verus! {

/// Appending one character to a `String`.
///
/// Trusted: `String::push` leaves the text that was there and adds `c` at its end.
pub assume_specification[ std::string::String::push ](s: &mut std::string::String, c: char)
    ensures
        final(s)@ == old(s)@.push(c),
;

/// The lowercase form of a text, as `str::to_lowercase` computes it from the
/// Unicode tables that the standard library carries.
pub uninterp spec fn lowercase(s: Seq<char>) -> Seq<char>;

/// Trusted: `str::to_lowercase` reads nothing but its argument, so its result is
/// the one value that `lowercase` names. Nothing else is claimed of it.
pub assume_specification[ str::to_lowercase ](s: &str) -> (r: std::string::String)
    ensures
        r@ == lowercase(s@),
;

/// Whether a character has the Unicode property `White_Space`, as
/// `char::is_whitespace` decides it.
pub uninterp spec fn whitespace(c: char) -> bool;

/// Trusted: `char::is_whitespace` reads nothing but the character.
pub assume_specification[ char::is_whitespace ](c: char) -> (r: bool)
    ensures
        r == whitespace(c),
;

/// Comparison of two string slices.
///
/// Trusted: `==` on `str` compares the two texts character by character.
#[verifier::external_body]
pub(crate) fn text_eq(a: &str, b: &str) -> (r: bool)
    ensures
        r == (a@ == b@),
{
    a == b
}

/// The characters of `s`, in order.
pub fn chars_of(s: &str) -> (out: Vec<char>)
    ensures
        out@ == s@,
{
    let mut out: Vec<char> = Vec::new();
    for c in it: s.chars()
        invariant
            out@ == s@.take(it.index() as int),
            it.seq() == s@,
    {
        out.push(c);
    }
    out
}

/// A `String` holding the characters `chars[from..to]`.
pub fn text_of(chars: &Vec<char>, from: usize, to: usize) -> (out: String)
    requires
        from <= to <= chars@.len(),
    ensures
        out@ == chars@.subrange(from as int, to as int),
{
    let mut out = String::new();
    let mut i: usize = from;
    while i < to
        invariant
            from <= i <= to <= chars@.len(),
            out@ == chars@.subrange(from as int, i as int),
        decreases to - i,
    {
        out.push(chars[i]);
        i += 1;
    }
    out
}

/// Number of leading whitespace characters of `s`.
pub open spec fn leading_whitespace(s: Seq<char>) -> nat
    decreases s.len(),
{
    if s.len() > 0 && whitespace(s[0]) {
        1 + leading_whitespace(s.skip(1))
    } else {
        0
    }
}

/// Number of trailing whitespace characters of `s`.
pub open spec fn trailing_whitespace(s: Seq<char>) -> nat
    decreases s.len(),
{
    if s.len() > 0 && whitespace(s.last()) {
        1 + trailing_whitespace(s.drop_last())
    } else {
        0
    }
}

/// `s` without its leading and trailing whitespace.
pub open spec fn trimmed(s: Seq<char>) -> Seq<char> {
    let tail = s.skip(leading_whitespace(s) as int);
    tail.take(tail.len() - trailing_whitespace(tail))
}

pub proof fn lemma_leading_whitespace_bound(s: Seq<char>)
    ensures
        leading_whitespace(s) <= s.len(),
        forall|i: int| 0 <= i < leading_whitespace(s) ==> whitespace(#[trigger] s[i]),
        leading_whitespace(s) < s.len() ==> !whitespace(s[leading_whitespace(s) as int]),
    decreases s.len(),
{
    if s.len() > 0 && whitespace(s[0]) {
        let rest = s.skip(1);
        lemma_leading_whitespace_bound(rest);
        assert forall|i: int| 0 <= i < leading_whitespace(s) implies whitespace(
            #[trigger] s[i],
        ) by {
            if i > 0 {
                assert(s[i] == rest[i - 1]);
            }
        }
        if leading_whitespace(s) < s.len() {
            assert(s[leading_whitespace(s) as int] == rest[leading_whitespace(rest) as int]);
        }
    }
}

pub proof fn lemma_trailing_whitespace_bound(s: Seq<char>)
    ensures
        trailing_whitespace(s) <= s.len(),
        forall|i: int|
            s.len() - trailing_whitespace(s) <= i < s.len() ==> whitespace(#[trigger] s[i]),
        trailing_whitespace(s) < s.len() ==> !whitespace(
            s[s.len() - trailing_whitespace(s) - 1],
        ),
    decreases s.len(),
{
    if s.len() > 0 && whitespace(s.last()) {
        let rest = s.drop_last();
        lemma_trailing_whitespace_bound(rest);
        assert forall|i: int|
            s.len() - trailing_whitespace(s) <= i < s.len() implies whitespace(
            #[trigger] s[i],
        ) by {
            if i < s.len() - 1 {
                assert(s[i] == rest[i]);
            }
        }
        if trailing_whitespace(s) < s.len() {
            assert(s[s.len() - trailing_whitespace(s) - 1] == rest[rest.len()
                - trailing_whitespace(rest) - 1]);
        }
    }
}

/// The first `n` characters of `s` are whitespace and the next one, if any, is not.
pub proof fn lemma_leading_whitespace_is(s: Seq<char>, n: nat)
    requires
        n <= s.len(),
        forall|i: int| 0 <= i < n ==> whitespace(#[trigger] s[i]),
        n < s.len() ==> !whitespace(s[n as int]),
    ensures
        leading_whitespace(s) == n,
    decreases s.len(),
{
    if n > 0 {
        let rest = s.skip(1);
        assert forall|i: int| 0 <= i < n - 1 implies whitespace(#[trigger] rest[i]) by {
            assert(rest[i] == s[i + 1]);
        }
        lemma_leading_whitespace_is(rest, (n - 1) as nat);
    }
}

/// The last `n` characters of `s` are whitespace and the one before, if any, is not.
pub proof fn lemma_trailing_whitespace_is(s: Seq<char>, n: nat)
    requires
        n <= s.len(),
        forall|i: int| s.len() - n <= i < s.len() ==> whitespace(#[trigger] s[i]),
        n < s.len() ==> !whitespace(s[s.len() - n - 1]),
    ensures
        trailing_whitespace(s) == n,
    decreases s.len(),
{
    if n > 0 {
        let rest = s.drop_last();
        assert forall|i: int| rest.len() - (n - 1) <= i < rest.len() implies whitespace(
            #[trigger] rest[i],
        ) by {
            assert(rest[i] == s[i]);
        }
        lemma_trailing_whitespace_is(rest, (n - 1) as nat);
    }
}

/// A copy of `s` without its leading and trailing whitespace.
pub fn trim(s: &str) -> (out: String)
    ensures
        out@ == trimmed(s@),
{
    let chars = chars_of(s);
    let mut start: usize = 0;
    while start < chars.len() && chars[start].is_whitespace()
        invariant
            start <= chars@.len(),
            forall|i: int| 0 <= i < start ==> whitespace(#[trigger] chars@[i]),
        decreases chars@.len() - start,
    {
        start += 1;
    }
    proof {
        lemma_leading_whitespace_is(chars@, start as nat);
    }
    let ghost tail = chars@.skip(start as int);
    let mut end: usize = chars.len();
    while end > start && chars[end - 1].is_whitespace()
        invariant
            start <= end <= chars@.len(),
            forall|i: int| end <= i < chars@.len() ==> whitespace(#[trigger] chars@[i]),
        decreases end,
    {
        end -= 1;
    }
    proof {
        assert forall|i: int|
            tail.len() - (chars@.len() - end) <= i < tail.len() implies whitespace(
            #[trigger] tail[i],
        ) by {
            assert(tail[i] == chars@[i + start]);
        }
        if end == start && start < chars@.len() {
            // every character from `start` on is whitespace, which the first loop excludes
            assert(whitespace(chars@[start as int]));
        }
        lemma_trailing_whitespace_is(tail, (chars@.len() - end) as nat);
        assert(tail.take(tail.len() - trailing_whitespace(tail)) =~= chars@.subrange(
            start as int,
            end as int,
        ));
    }
    text_of(&chars, start, end)
}

/// The character that writes a digit below sixteen, in lower case.
pub open spec fn digit_char(d: nat) -> char {
    seq!['0', '1', '2', '3', '4', '5', '6', '7', '8', '9', 'a', 'b', 'c', 'd', 'e', 'f'][d as int]
}

/// The value of a decimal digit, `None` for any other character.
pub open spec fn digit_value(c: char) -> Option<nat> {
    if c == '0' {
        Some(0)
    } else if c == '1' {
        Some(1)
    } else if c == '2' {
        Some(2)
    } else if c == '3' {
        Some(3)
    } else if c == '4' {
        Some(4)
    } else if c == '5' {
        Some(5)
    } else if c == '6' {
        Some(6)
    } else if c == '7' {
        Some(7)
    } else if c == '8' {
        Some(8)
    } else if c == '9' {
        Some(9)
    } else {
        None
    }
}

/// Decimal notation of `n`, without sign or leading zeros.
pub open spec fn decimal(n: nat) -> Seq<char>
    decreases n,
{
    if n < 10 {
        seq![digit_char(n)]
    } else {
        decimal(n / 10).push(digit_char(n % 10))
    }
}

/// `s` preceded by as many copies of `fill` as it takes to reach `width` characters.
pub open spec fn padded(s: Seq<char>, width: nat, fill: char) -> Seq<char> {
    if s.len() >= width {
        s
    } else {
        Seq::new((width - s.len()) as nat, |i: int| fill) + s
    }
}

/// The number that a run of decimal digits denotes.
pub open spec fn digits_value(s: Seq<char>) -> nat
    decreases s.len(),
{
    if s.len() == 0 {
        0
    } else {
        digits_value(s.drop_last()) * 10 + match digit_value(s.last()) {
            Some(d) => d,
            None => 0,
        }
    }
}

/// Every character of `s` is a decimal digit.
pub open spec fn all_digits(s: Seq<char>) -> bool {
    forall|i: int| 0 <= i < s.len() ==> (#[trigger] digit_value(s[i])) is Some
}

/// `s` without one leading plus sign.
pub open spec fn unsigned_digits(s: Seq<char>) -> Seq<char> {
    if s.len() > 0 && s[0] == '+' {
        s.skip(1)
    } else {
        s
    }
}

/// The number at most `max` that `s` writes in decimal: an optional plus sign
/// and then one or more digits. `None` for any other text, and for a number
/// above `max`.
pub open spec fn parse_unsigned(s: Seq<char>, max: nat) -> Option<nat> {
    let body = unsigned_digits(s);
    if body.len() > 0 && all_digits(body) && digits_value(body) <= max {
        Some(digits_value(body))
    } else {
        None
    }
}

/// The character for one digit below sixteen.
pub fn digit_to_char(d: u8) -> (c: char)
    requires
        d < 16,
    ensures
        c == digit_char(d as nat),
{
    match d {
        0 => '0',
        1 => '1',
        2 => '2',
        3 => '3',
        4 => '4',
        5 => '5',
        6 => '6',
        7 => '7',
        8 => '8',
        9 => '9',
        10 => 'a',
        11 => 'b',
        12 => 'c',
        13 => 'd',
        14 => 'e',
        _ => 'f',
    }
}

/// The value of a decimal digit.
pub fn char_to_digit(c: char) -> (d: Option<u8>)
    ensures
        match d {
            Some(v) => digit_value(c) == Some(v as nat),
            None => digit_value(c) is None,
        },
{
    match c {
        '0' => Some(0),
        '1' => Some(1),
        '2' => Some(2),
        '3' => Some(3),
        '4' => Some(4),
        '5' => Some(5),
        '6' => Some(6),
        '7' => Some(7),
        '8' => Some(8),
        '9' => Some(9),
        _ => None,
    }
}

/// Appends the decimal notation of `n` to `out`.
pub fn push_decimal(out: &mut String, n: u64)
    ensures
        final(out)@ == old(out)@ + decimal(n as nat),
    decreases n,
{
    if n >= 10 {
        push_decimal(out, n / 10);
    }
    out.push(digit_to_char((n % 10) as u8));
}

/// The decimal notation of `n`.
pub fn decimal_text(n: u64) -> (out: String)
    ensures
        out@ == decimal(n as nat),
{
    let mut out = String::new();
    push_decimal(&mut out, n);
    out
}

/// Appends the decimal notation of `n` to `out`, preceded by zeros up to `width` characters.
pub fn push_zero_padded(out: &mut String, n: u64, width: usize)
    ensures
        final(out)@ == old(out)@ + padded(decimal(n as nat), width as nat, '0'),
{
    let digits = decimal_text(n);
    let len = digits.as_str().unicode_len();
    let ghost before = out@;
    let mut k: usize = len;
    while k < width
        invariant
            len <= k,
            len == decimal(n as nat).len(),
            digits@ == decimal(n as nat),
            before == old(out)@,
            len < width ==> k <= width,
            len >= width ==> k == len,
            out@ == before + Seq::new((k - len) as nat, |i: int| '0'),
        decreases width - k,
    {
        out.push('0');
        k += 1;
    }
    let ghost zeros = Seq::new((k - len) as nat, |i: int| '0');
    assert(out@ == before + zeros);
    out.append(digits.as_str());
    proof {
        let s = decimal(n as nat);
        assert(out@ == before + zeros + s);
        if s.len() >= width {
            assert(k == len);
            assert(zeros =~= Seq::<char>::empty());
            assert(before + zeros + s =~= before + s);
        } else {
            assert(k == width);
            assert(padded(s, width as nat, '0') =~= zeros + s);
            assert(before + zeros + s =~= before + (zeros + s));
        }
    }
}

/// A longer run of digits denotes at least what its beginning denotes.
pub proof fn lemma_digits_value_prefix(s: Seq<char>, k: int)
    requires
        0 <= k <= s.len(),
    ensures
        digits_value(s.take(k)) <= digits_value(s),
    decreases s.len() - k,
{
    if k < s.len() {
        lemma_digits_value_prefix(s, k + 1);
        assert(s.take(k + 1).drop_last() == s.take(k));
    } else {
        assert(s.take(k) == s);
    }
}

/// The number at most `max` that `s` writes in decimal.
pub fn parse_bounded(s: &str, max: u64) -> (r: Option<u64>)
    ensures
        match r {
            Some(v) => parse_unsigned(s@, max as nat) == Some(v as nat),
            None => parse_unsigned(s@, max as nat) is None,
        },
{
    let chars = chars_of(s);
    let start: usize = if chars.len() > 0 && chars[0] == '+' {
        1
    } else {
        0
    };
    let ghost body = unsigned_digits(s@);
    assert(body == chars@.skip(start as int));
    if start == chars.len() {
        return None;
    }
    let mut acc: u64 = 0;
    let mut i: usize = start;
    while i < chars.len()
        invariant
            start <= i <= chars@.len(),
            body == chars@.skip(start as int),
            body == unsigned_digits(s@),
            body.len() > 0,
            acc <= max,
            acc == digits_value(body.take(i - start)),
            all_digits(body.take(i - start)),
        decreases chars@.len() - i,
    {
        let ghost seen = body.take(i - start);
        let ghost next = body.take(i + 1 - start);
        proof {
            assert(next.drop_last() == seen);
            assert(next.last() == chars@[i as int]);
            assert(body[i - start] == chars@[i as int]);
        }
        match char_to_digit(chars[i]) {
            None => {
                assert(digit_value(body[i - start]) is None);
                return None;
            },
            Some(d) => {
                proof {
                    lemma_digits_value_prefix(body, i + 1 - start);
                    assert forall|j: int| 0 <= j < next.len() implies (#[trigger] digit_value(
                        next[j],
                    )) is Some by {
                        if j < seen.len() {
                            assert(next[j] == seen[j]);
                        }
                    }
                }
                if (d as u64) > max || acc > (max - d as u64) / 10 {
                    assert(digits_value(next) > max) by (nonlinear_arith)
                        requires
                            digits_value(next) == acc * 10 + d,
                            d > max || acc > (max - d) / 10,
                            0 <= acc,
                            0 <= d < 10,
                    ;
                    return None;
                }
                assert(acc * 10 + d <= max) by (nonlinear_arith)
                    requires
                        acc <= (max - d) / 10,
                        d <= max,
                ;
                acc = acc * 10 + d as u64;
            },
        }
        i += 1;
    }
    assert(body.take(i - start) == body);
    Some(acc)
}

/// Decimal notation reads back as the number it was written from.
pub proof fn lemma_decimal_parses(n: nat, max: nat)
    requires
        n <= max,
    ensures
        parse_unsigned(decimal(n), max) == Some(n),
        decimal(n).len() > 0,
        all_digits(decimal(n)),
        digits_value(decimal(n)) == n,
        decimal(n)[0] != '+',
    decreases n,
{
    let s = decimal(n);
    if n < 10 {
        assert(s.drop_last() =~= Seq::<char>::empty());
        assert(digits_value(s.drop_last()) == 0);
        assert(digit_value(digit_char(n)) == Some(n));
    } else {
        lemma_decimal_parses(n / 10, max);
        let head = decimal(n / 10);
        assert(s.drop_last() == head);
        assert(digit_value(digit_char(n % 10)) == Some(n % 10));
        assert(s[0] == head[0]);
        assert forall|i: int| 0 <= i < s.len() implies (#[trigger] digit_value(s[i])) is Some by {
            if i < head.len() {
                assert(s[i] == head[i]);
            }
        }
    }
    assert(unsigned_digits(s) == s);
}

/// Lowercase hexadecimal notation of `bytes`, two digits for each byte.
pub open spec fn hex_lower(bytes: Seq<u8>) -> Seq<char>
    decreases bytes.len(),
{
    if bytes.len() == 0 {
        Seq::empty()
    } else {
        hex_lower(bytes.drop_last()).push(digit_char((bytes.last() / 16) as nat)).push(
            digit_char((bytes.last() % 16) as nat),
        )
    }
}

/// The lowercase hexadecimal notation of `bytes`.
pub fn hex_text(bytes: &Vec<u8>) -> (out: String)
    ensures
        out@ == hex_lower(bytes@),
        out@.len() == 2 * bytes@.len(),
{
    let mut out = String::new();
    let mut i: usize = 0;
    while i < bytes.len()
        invariant
            i <= bytes@.len(),
            out@ == hex_lower(bytes@.take(i as int)),
            out@.len() == 2 * i,
        decreases bytes@.len() - i,
    {
        let b = bytes[i];
        assert(bytes@.take(i + 1).drop_last() == bytes@.take(i as int));
        out.push(digit_to_char(b / 16));
        out.push(digit_to_char(b % 16));
        i += 1;
    }
    assert(bytes@.take(i as int) == bytes@);
    out
}

} // verus!
