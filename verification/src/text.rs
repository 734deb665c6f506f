//! Small verified routines on text: indexing, searching, reading decimal
//! numbers and writing bytes in hexadecimal.

use vstd::prelude::*;

verus! {

/// `String::push` appends exactly one character to the end of the string.
pub assume_specification[ String::push ](s: &mut String, c: char)
    ensures
        final(s)@ == old(s)@.push(c),
;

/// The characters of `s`, in order, as a vector that can be indexed.
pub fn chars_of(s: &str) -> (out: Vec<char>)
    ensures
        out@ == s@,
{
    let mut out: Vec<char> = Vec::new();
    for c in it: s.chars()
        invariant
            it.seq() == s@,
            out@ == s@.take(it.index() as int),
    {
        out.push(c);
    }
    out
}

/// `needle` stands in `hay` starting at position `at`.
pub open spec fn occurs_at(hay: Seq<char>, needle: Seq<char>, at: int) -> bool {
    &&& 0 <= at
    &&& at + needle.len() <= hay.len()
    &&& hay.subrange(at, at + needle.len()) == needle
}

/// `needle` stands somewhere in `hay` as a contiguous run of characters.
pub open spec fn contains_text(hay: Seq<char>, needle: Seq<char>) -> bool {
    exists|at: int| occurs_at(hay, needle, at)
}

fn occurs_here(hay: &Vec<char>, needle: &Vec<char>, at: usize) -> (found: bool)
    requires
        at + needle.len() <= hay.len(),
    ensures
        found == occurs_at(hay@, needle@, at as int),
{
    let mut k: usize = 0;
    while k < needle.len()
        invariant
            k <= needle.len(),
            at + needle.len() <= hay.len(),
            forall|j: int| 0 <= j < k ==> hay@[at + j] == needle@[j],
        decreases needle.len() - k,
    {
        if hay[at + k] != needle[k] {
            return false;
        }
        k += 1;
    }
    assert(hay@.subrange(at as int, at + needle.len()) =~= needle@);
    true
}

/// Whether `needle` stands somewhere in `hay`. The empty text stands in
/// every text.
pub fn contains(hay: &str, needle: &str) -> (found: bool)
    ensures
        found == contains_text(hay@, needle@),
{
    let h = chars_of(hay);
    let n = chars_of(needle);
    if n.len() > h.len() {
        return false;
    }
    let last: usize = h.len() - n.len();
    let mut at: usize = 0;
    loop
        invariant
            h@ == hay@,
            n@ == needle@,
            last == h.len() - n.len(),
            n.len() <= h.len(),
            at <= last,
            forall|j: int| 0 <= j < at ==> !occurs_at(h@, n@, j),
        decreases last - at,
    {
        if occurs_here(&h, &n, at) {
            return true;
        }
        if at == last {
            return false;
        }
        at += 1;
    }
}

/// One of the ten decimal digits.
pub open spec fn is_digit(c: char) -> bool {
    '0' as u32 <= c as u32 <= '9' as u32
}

/// The number a decimal digit stands for.
pub open spec fn digit_value(c: char) -> nat {
    (c as u32 - '0' as u32) as nat
}

/// Every character of `s` is a decimal digit.
pub open spec fn all_digits(s: Seq<char>) -> bool {
    forall|i: int| 0 <= i < s.len() ==> is_digit(#[trigger] s[i])
}

/// The number that a run of decimal digits denotes, most significant first.
pub open spec fn decimal_value(s: Seq<char>) -> nat
    decreases s.len(),
{
    if s.len() == 0 {
        0
    } else {
        decimal_value(s.drop_last()) * 10 + digit_value(s.last())
    }
}

/// The digits of a number that may be written with a leading plus sign.
pub open spec fn past_sign(s: Seq<char>) -> Seq<char> {
    if s.len() > 0 && s[0] == '+' {
        s.skip(1)
    } else {
        s
    }
}

/// What a text means as an unsigned 64-bit number: an optional plus sign, then
/// at least one decimal digit and nothing else, denoting a number that fits.
pub open spec fn parse_u64_spec(s: Seq<char>) -> Option<u64> {
    let digits = past_sign(s);
    if digits.len() > 0 && all_digits(digits) && decimal_value(digits) <= u64::MAX {
        Some(decimal_value(digits) as u64)
    } else {
        None
    }
}

/// A longer run of digits denotes at least as much as any of its prefixes.
pub proof fn lemma_decimal_value_grows(s: Seq<char>, k: int)
    requires
        0 <= k <= s.len(),
    ensures
        decimal_value(s.take(k)) <= decimal_value(s),
    decreases s.len(),
{
    if k == s.len() {
        assert(s.take(k) =~= s);
    } else {
        lemma_decimal_value_grows(s.drop_last(), k);
        assert(s.drop_last().take(k) =~= s.take(k));
    }
}

/// Reads a text as an unsigned 64-bit number.
pub fn parse_u64(s: &str) -> (value: Option<u64>)
    ensures
        value == parse_u64_spec(s@),
{
    let chars = chars_of(s);
    let n: usize = chars.len();
    let start: usize = if n > 0 && chars[0] == '+' {
        1
    } else {
        0
    };
    let ghost digits = past_sign(s@);
    if start == n {
        return None;
    }
    let mut i: usize = start;
    let mut acc: u64 = 0;
    while i < n
        invariant
            start <= i <= n,
            n == chars@.len(),
            digits == chars@.subrange(start as int, n as int),
            digits == past_sign(s@),
            all_digits(digits.take(i - start)),
            acc == decimal_value(digits.take(i - start)),
        decreases n - i,
    {
        let c: char = chars[i];
        let code: u32 = c as u32;
        if code < 48 || code > 57 {
            assert(!is_digit(digits[i - start]));
            return None;
        }
        let d: u64 = (code - 48) as u64;
        let ghost longer = digits.take(i + 1 - start);
        assert(longer.drop_last() =~= digits.take(i - start));
        if acc > (u64::MAX - d) / 10 {
            proof {
                lemma_decimal_value_grows(digits, i + 1 - start);
            }
            return None;
        }
        acc = acc * 10 + d;
        i += 1;
    }
    assert(digits.take(n - start) =~= digits);
    Some(acc)
}

/// The decimal digit that stands for a number below ten.
pub open spec fn digit_char(d: nat) -> char {
    ((48 + d) as u8) as char
}

/// A number written in decimal, most significant digit first, without
/// leading zeros.
pub open spec fn decimal_of(n: nat) -> Seq<char>
    decreases n,
{
    if n < 10 {
        seq![digit_char(n)]
    } else {
        decimal_of(n / 10).push(digit_char(n % 10))
    }
}

/// What is written in decimal is made of digits only and reads back as the
/// number that was written.
pub proof fn lemma_decimal_of_reads_back(n: nat)
    ensures
        decimal_of(n).len() > 0,
        all_digits(decimal_of(n)),
        decimal_value(decimal_of(n)) == n,
    decreases n,
{
    if n < 10 {
        let one = seq![digit_char(n)];
        assert(one.drop_last() =~= Seq::<char>::empty());
        assert(decimal_value(one.drop_last()) == 0);
        assert(digit_value(one.last()) == n);
    } else {
        lemma_decimal_of_reads_back(n / 10);
        let longer = decimal_of(n / 10).push(digit_char(n % 10));
        assert(longer.drop_last() =~= decimal_of(n / 10));
        assert(digit_value(longer.last()) == n % 10);
        assert forall|i: int| 0 <= i < longer.len() implies is_digit(#[trigger] longer[i]) by {
            if i < longer.len() - 1 {
                assert(longer[i] == decimal_of(n / 10)[i]);
            }
        }
    }
}

/// Writes a number in decimal.
pub fn write_decimal(n: u64) -> (out: String)
    ensures
        out@ == decimal_of(n as nat),
    decreases n,
{
    if n < 10 {
        let mut out = String::new();
        out.push((48 + n as u8) as char);
        assert(out@ =~= seq![digit_char(n as nat)]);
        out
    } else {
        let mut out = write_decimal(n / 10);
        out.push((48 + (n % 10) as u8) as char);
        out
    }
}

/// The character that writes a number below sixteen in lower-case
/// hexadecimal.
pub open spec fn hex_digit(n: int) -> char {
    if n < 10 {
        ((48 + n) as u8) as char
    } else {
        ((87 + n) as u8) as char
    }
}

/// The character at position `at` of the hexadecimal form of `bytes`: the
/// high half of a byte comes first.
pub open spec fn hex_char_at(bytes: Seq<u8>, at: int) -> char {
    if at % 2 == 0 {
        hex_digit(bytes[at / 2] as int / 16)
    } else {
        hex_digit(bytes[at / 2] as int % 16)
    }
}

/// The lower-case hexadecimal form of `bytes`, two characters for each byte.
pub open spec fn hex_of(bytes: Seq<u8>) -> Seq<char> {
    Seq::new(2 * bytes.len(), |at: int| hex_char_at(bytes, at))
}

fn hex_digit_of(n: u8) -> (c: char)
    requires
        n < 16,
    ensures
        c == hex_digit(n as int),
{
    if n < 10 {
        (48 + n) as char
    } else {
        (87 + n) as char
    }
}

/// Writes `bytes` in lower-case hexadecimal.
pub fn hex_lower(bytes: &[u8]) -> (out: String)
    ensures
        out@ == hex_of(bytes@),
{
    let mut out = String::new();
    let mut i: usize = 0;
    while i < bytes.len()
        invariant
            i <= bytes.len(),
            out@.len() == 2 * i,
            forall|k: int| 0 <= k < 2 * i ==> out@[k] == hex_char_at(bytes@, k),
        decreases bytes.len() - i,
    {
        let b: u8 = bytes[i];
        out.push(hex_digit_of(b / 16));
        out.push(hex_digit_of(b % 16));
        i += 1;
    }
    out
}

/// Two numbers below sixteen that are written alike are the same number.
pub proof fn lemma_hex_digit_is_one_to_one(m: int, n: int)
    requires
        0 <= m < 16,
        0 <= n < 16,
        hex_digit(m) == hex_digit(n),
    ensures
        m == n,
{
    assert(hex_digit(m) as u32 == if m < 10 {
        48 + m
    } else {
        87 + m
    });
    assert(hex_digit(n) as u32 == if n < 10 {
        48 + n
    } else {
        87 + n
    });
}

/// Two runs of bytes with the same hexadecimal form are the same run.
pub proof fn law_hex_is_one_to_one(x: Seq<u8>, y: Seq<u8>)
    requires
        hex_of(x) == hex_of(y),
    ensures
        x == y,
{
    assert(hex_of(x).len() == 2 * x.len());
    assert(hex_of(y).len() == 2 * y.len());
    assert forall|i: int| 0 <= i < x.len() implies x[i] == y[i] by {
        assert(hex_of(x)[2 * i] == hex_char_at(x, 2 * i));
        assert(hex_of(y)[2 * i] == hex_char_at(y, 2 * i));
        assert(hex_of(x)[2 * i + 1] == hex_char_at(x, 2 * i + 1));
        assert(hex_of(y)[2 * i + 1] == hex_char_at(y, 2 * i + 1));
        lemma_hex_digit_is_one_to_one(x[i] as int / 16, y[i] as int / 16);
        lemma_hex_digit_is_one_to_one(x[i] as int % 16, y[i] as int % 16);
    }
    assert(x =~= y);
}

} // verus!
