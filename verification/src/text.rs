//! Text as the player writes it: surrounding whitespace and decimal numbers.

use vstd::prelude::*;

verus! {

/// Whether a character is whitespace: the code points with the Unicode
/// property `White_Space`.
pub open spec fn is_whitespace(c: char) -> bool {
    let n: u32 = c as u32;
    ||| 0x09 <= n <= 0x0D
    ||| n == 0x20
    ||| n == 0x85
    ||| n == 0xA0
    ||| n == 0x1680
    ||| 0x2000 <= n <= 0x200A
    ||| n == 0x2028
    ||| n == 0x2029
    ||| n == 0x202F
    ||| n == 0x205F
    ||| n == 0x3000
}

/// Whether a character is whitespace.
pub fn whitespace(c: char) -> (r: bool)
    ensures
        r == is_whitespace(c),
{
    let n: u32 = c as u32;
    (0x09 <= n && n <= 0x0D) || n == 0x20 || n == 0x85 || n == 0xA0 || n == 0x1680 || (0x2000 <= n
        && n <= 0x200A) || n == 0x2028 || n == 0x2029 || n == 0x202F || n == 0x205F || n == 0x3000
}

/// The characters of a string, one by one.
pub fn characters(s: &str) -> (r: Vec<char>)
    ensures
        r@ == s@,
{
    broadcast use vstd::string::group_string_axioms;

    let mut out: Vec<char> = Vec::new();
    for c in it: s.chars()
        invariant
            it.seq() == s@,
            out@ == s@.take(it.index()),
    {
        out.push(c);
    }
    out
}

/// The text without its leading whitespace.
pub open spec fn trim_start(s: Seq<char>) -> Seq<char>
    decreases s.len(),
{
    if s.len() > 0 && is_whitespace(s[0]) {
        trim_start(s.skip(1))
    } else {
        s
    }
}

/// The text without its trailing whitespace.
pub open spec fn trim_end(s: Seq<char>) -> Seq<char>
    decreases s.len(),
{
    if s.len() > 0 && is_whitespace(s.last()) {
        trim_end(s.drop_last())
    } else {
        s
    }
}

/// The text without the whitespace that surrounds it.
pub open spec fn trim(s: Seq<char>) -> Seq<char> {
    trim_end(trim_start(s))
}

/// Where the trimmed text lies in the whole: it is `chars[start..end]`.
pub fn trim_bounds(chars: &Vec<char>) -> (r: (usize, usize))
    ensures
        r.0 <= r.1 <= chars@.len(),
        chars@.subrange(r.0 as int, r.1 as int) == trim(chars@),
{
    let n: usize = chars.len();
    let mut start: usize = 0;
    assert(chars@.skip(0) =~= chars@);
    while start < n && whitespace(chars[start])
        invariant
            n == chars@.len(),
            start <= n,
            trim_start(chars@) == trim_start(chars@.skip(start as int)),
        decreases n - start,
    {
        assert(chars@.skip(start as int).skip(1) =~= chars@.skip(start + 1));
        start += 1;
    }
    let mut end: usize = n;
    while end > start && whitespace(chars[end - 1])
        invariant
            start <= end <= n,
            n == chars@.len(),
            trim(chars@) == trim_end(chars@.subrange(start as int, end as int)),
        decreases end,
    {
        assert(chars@.subrange(start as int, end as int).drop_last() =~= chars@.subrange(
            start as int,
            end - 1,
        ));
        end -= 1;
    }
    (start, end)
}

/// Whether a character is one of the ten decimal digits.
pub open spec fn is_digit(c: char) -> bool {
    0x30 <= c as u32 <= 0x39
}

/// The number that a decimal digit stands for; 0 for any other character.
pub open spec fn digit_value(c: char) -> nat {
    if is_digit(c) {
        (c as u32 - 0x30) as nat
    } else {
        0
    }
}

/// The decimal digit that stands for a number below ten.
pub open spec fn digit_char(d: nat) -> char {
    (0x30 + d) as char
}

/// Whether every character of the text is a decimal digit.
pub open spec fn all_digits(s: Seq<char>) -> bool {
    forall|i: int| 0 <= i < s.len() ==> is_digit(#[trigger] s[i])
}

/// The number that a run of decimal digits stands for, leading zeros allowed.
pub open spec fn decimal_value(s: Seq<char>) -> nat
    decreases s.len(),
{
    if s.len() == 0 {
        0
    } else {
        decimal_value(s.drop_last()) * 10 + digit_value(s.last())
    }
}

/// The text after a leading plus sign, or the whole text if it has none.
pub open spec fn unsigned_part(s: Seq<char>) -> Seq<char> {
    if s.len() > 0 && s[0] == '+' {
        s.skip(1)
    } else {
        s
    }
}

/// The number that a text denotes in base ten: an optional plus sign and
/// then one or more decimal digits, nothing else.
pub open spec fn parse_decimal(s: Seq<char>) -> Option<nat> {
    let digits = unsigned_part(s);
    if digits.len() > 0 && all_digits(digits) {
        Some(decimal_value(digits))
    } else {
        None
    }
}

/// A parsed number as a byte, if it is no larger than `max`.
pub open spec fn at_most(parsed: Option<nat>, max: u8) -> Option<u8> {
    match parsed {
        Some(n) => if n <= max {
            Some(n as u8)
        } else {
            None
        },
        None => None,
    }
}

/// The shortest decimal writing of a number.
pub open spec fn decimal(n: nat) -> Seq<char>
    decreases n,
{
    if n < 10 {
        seq![digit_char(n)]
    } else {
        decimal(n / 10).push(digit_char(n % 10))
    }
}

/// A run of digits stands for at least as much as any of its beginnings.
pub proof fn lemma_decimal_value_grows(s: Seq<char>, k: int)
    requires
        0 <= k <= s.len(),
    ensures
        decimal_value(s.take(k)) <= decimal_value(s),
    decreases s.len(),
{
    if k == s.len() {
        assert(s.take(k) =~= s);
    } else {
        assert(s.drop_last().take(k) =~= s.take(k));
        lemma_decimal_value_grows(s.drop_last(), k);
    }
}

/// Reads `chars[from..to]` as a decimal number no larger than `max`.
pub fn parse_at_most(chars: &Vec<char>, from: usize, to: usize, max: u8) -> (r: Option<u8>)
    requires
        from <= to <= chars@.len(),
    ensures
        r == at_most(parse_decimal(chars@.subrange(from as int, to as int)), max),
{
    let ghost text = chars@.subrange(from as int, to as int);
    let mut i: usize = from;
    if i < to && chars[i] == '+' {
        i += 1;
    }
    let first: usize = i;
    let ghost digits = unsigned_part(text);
    if i == to {
        return None;
    }
    let mut acc: u8 = 0;
    while i < to
        invariant
            from <= first <= i <= to <= chars@.len(),
            digits == unsigned_part(chars@.subrange(from as int, to as int)),
            digits == chars@.subrange(first as int, to as int),
            all_digits(digits.take(i - first)),
            acc == decimal_value(digits.take(i - first)),
            acc <= max,
        decreases to - i,
    {
        let c: u32 = chars[i] as u32;
        if c < 0x30 || c > 0x39 {
            assert(!is_digit(digits[i - first]));
            return None;
        }
        let next: u32 = acc as u32 * 10 + (c - 0x30);
        proof {
            let longer = digits.take(i - first + 1);
            assert(longer.drop_last() =~= digits.take(i - first));
            assert(all_digits(longer));
        }
        if next > max as u32 {
            proof {
                lemma_decimal_value_grows(digits, i - first + 1);
            }
            return None;
        }
        acc = next as u8;
        i += 1;
    }
    assert(digits.take(to - first) =~= digits);
    Some(acc)
}

/// The digit for a number below ten, as a string of one character.
fn digit_str(d: u8) -> (r: &'static str)
    requires
        d < 10,
    ensures
        r@ == seq![digit_char(d as nat)],
{
    proof {
        reveal_strlit("0");
        reveal_strlit("1");
        reveal_strlit("2");
        reveal_strlit("3");
        reveal_strlit("4");
        reveal_strlit("5");
        reveal_strlit("6");
        reveal_strlit("7");
        reveal_strlit("8");
        reveal_strlit("9");
    }
    match d {
        0 => "0",
        1 => "1",
        2 => "2",
        3 => "3",
        4 => "4",
        5 => "5",
        6 => "6",
        7 => "7",
        8 => "8",
        _ => "9",
    }
}

/// Writes a number in base ten, without sign or leading zeros.
pub fn decimal_string(n: u8) -> (r: String)
    ensures
        r@ == decimal(n as nat),
{
    let mut out = String::new();
    if n >= 100 {
        out.append(digit_str(n / 100));
    }
    if n >= 10 {
        out.append(digit_str((n / 10) % 10));
    }
    out.append(digit_str(n % 10));
    proof {
        reveal_with_fuel(decimal, 3);
    }
    out
}

/// Whether `chars[from..to]` is exactly the text `word`.
pub fn range_is(chars: &Vec<char>, from: usize, to: usize, word: &str) -> (r: bool)
    requires
        from <= to <= chars@.len(),
    ensures
        r == (chars@.subrange(from as int, to as int) == word@),
{
    let expected = characters(word);
    if expected.len() != to - from {
        return false;
    }
    let mut i: usize = 0;
    while i < expected.len()
        invariant
            from <= to <= chars@.len(),
            expected@ == word@,
            expected@.len() == to - from,
            i <= expected@.len(),
            chars@.subrange(from as int, from + i) == expected@.take(i as int),
        decreases expected@.len() - i,
    {
        if chars[from + i] != expected[i] {
            return false;
        }
        i += 1;
    }
    assert(expected@.take(expected@.len() as int) =~= expected@);
    true
}

/// Whether `chars[from..to]` begins with the text `word`.
pub fn range_starts_with(chars: &Vec<char>, from: usize, to: usize, word: &str) -> (r: bool)
    requires
        from <= to <= chars@.len(),
    ensures
        r == word@.is_prefix_of(chars@.subrange(from as int, to as int)),
{
    let n: usize = word.unicode_len();
    if n > to - from {
        return false;
    }
    let r = range_is(chars, from, from + n, word);
    proof {
        let text = chars@.subrange(from as int, to as int);
        assert(text.subrange(0, n as int) =~= chars@.subrange(from as int, from + n));
    }
    r
}

/// The decimal writing of a number is a run of digits that stands for it.
pub proof fn lemma_decimal_is_digits(n: nat)
    ensures
        decimal(n).len() > 0,
        all_digits(decimal(n)),
        decimal_value(decimal(n)) == n,
    decreases n,
{
    if n < 10 {
        let s = decimal(n);
        assert(decimal_value(s.drop_last()) == 0);
    } else {
        lemma_decimal_is_digits(n / 10);
        let s = decimal(n);
        assert(s.drop_last() =~= decimal(n / 10));
    }
}

/// A number is read back from its decimal writing, trimmed or not.
pub proof fn lemma_decimal_reads_back(n: nat)
    ensures
        trim(decimal(n)) == decimal(n),
        parse_decimal(decimal(n)) == Some(n),
{
    lemma_decimal_is_digits(n);
}

} // verus!
