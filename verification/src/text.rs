//! Work on texts.
use vstd::prelude::*;

verus! {

/// `String::push` appends one character.
pub assume_specification[ std::string::String::push ](text: &mut std::string::String, c: char)
    ensures
        final(text)@ == old(text)@.push(c),
;

/// Whether a text begins with another.
pub fn starts_with(text: &str, prefix: &str) -> (b: bool)
    ensures
        b == prefix@.is_prefix_of(text@),
{
    let n: usize = prefix.unicode_len();
    if text.unicode_len() < n {
        return false;
    }
    let mut i: usize = 0;
    while i < n
        invariant
            n == prefix@.len() <= text@.len(),
            i <= n,
            forall|j: int| 0 <= j < i ==> prefix@[j] == text@[j],
        decreases n - i,
    {
        if prefix.get_char(i) != text.get_char(i) {
            return false;
        }
        i = i + 1;
    }
    assert(prefix@ =~= text@.subrange(0, prefix@.len() as int));
    true
}

/// Whether two texts are equal.
pub fn same_text(a: &str, b: &str) -> (equal: bool)
    ensures
        equal == (a@ == b@),
{
    let equal = starts_with(a, b) && a.unicode_len() == b.unicode_len();
    proof {
        if equal {
            assert(a@ =~= b@);
        }
        if a@ == b@ {
            assert(b@ =~= a@.subrange(0, b@.len() as int));
        }
    }
    equal
}

/// The characters of a text.
pub fn characters(text: &str) -> (chars: Vec<char>)
    ensures
        chars@ == text@,
{
    let mut chars: Vec<char> = Vec::new();
    let n: usize = text.unicode_len();
    let mut i: usize = 0;
    while i < n
        invariant
            n == text@.len(),
            i <= n,
            chars@ == text@.take(i as int),
        decreases n - i,
    {
        chars.push(text.get_char(i));
        i = i + 1;
        assert(text@.take(i as int) =~= text@.take(i - 1).push(text@[i - 1]));
    }
    assert(text@.take(n as int) =~= text@);
    chars
}

/// The text that consists of one character.
pub fn one_character(c: char) -> (text: String)
    ensures
        text@ == seq![c],
{
    let mut text = String::new();
    text.push(c);
    assert(text@ =~= seq![c]);
    text
}

/// The digit `d`.
pub open spec fn digit(d: int) -> char {
    (48 + d) as char
}

/// A number in decimal notation.
pub open spec fn digits(n: nat) -> Seq<char>
    decreases n,
{
    if n < 10 {
        seq![digit(n as int)]
    } else {
        digits(n / 10).push(digit((n % 10) as int))
    }
}

/// A number in decimal notation, with a minus sign where it is negative.
pub open spec fn decimal(i: int) -> Seq<char> {
    if i < 0 {
        seq!['-'] + digits((-i) as nat)
    } else {
        digits(i as nat)
    }
}

/// Whether a character is a decimal digit.
pub open spec fn is_digit(c: char) -> bool {
    '0' <= c <= '9'
}

/// The number that a sequence of digits denotes.
pub open spec fn digits_value(s: Seq<char>) -> nat
    decreases s.len(),
{
    if s.len() == 0 {
        0
    } else {
        digits_value(s.drop_last()) * 10 + (s.last() as int - 48) as nat
    }
}

/// Whether a text is a non-empty sequence of digits.
pub open spec fn all_digits(s: Seq<char>) -> bool {
    s.len() > 0 && forall|i: int| 0 <= i < s.len() ==> is_digit(#[trigger] s[i])
}

/// The number that a text denotes in decimal notation: digits, after a sign or none.
pub open spec fn decimal_value(s: Seq<char>) -> Option<int> {
    if s.len() > 0 && (s[0] == '-' || s[0] == '+') {
        if !all_digits(s.skip(1)) {
            None
        } else if s[0] == '-' {
            Some(-digits_value(s.skip(1)))
        } else {
            Some(digits_value(s.skip(1)) as int)
        }
    } else if all_digits(s) {
        Some(digits_value(s) as int)
    } else {
        None
    }
}

/// Appends a number in decimal notation.
fn push_digits(text: &mut String, n: u64)
    ensures
        final(text)@ == old(text)@ + digits(n as nat),
    decreases n,
{
    if n >= 10 {
        push_digits(text, n / 10);
    }
    let d: u8 = (n % 10) as u8;
    text.push((48 + d) as char);
    assert(text@ =~= old(text)@ + digits(n as nat));
}

/// Writes a number in decimal notation.
pub fn to_decimal(i: i64) -> (text: String)
    ensures
        text@ == decimal(i as int),
{
    let mut text = String::new();
    if i < 0 {
        text.push('-');
        let n: u64 = (-(i + 1)) as u64;
        push_digits(&mut text, n + 1);
        assert(text@ =~= decimal(i as int));
    } else {
        push_digits(&mut text, i as u64);
        assert(text@ =~= decimal(i as int));
    }
    text
}

/// Reads digits from `from` on, up to 2^63. `None` where there is something else than
/// digits or nothing, `Some(None)` where the number is larger.
fn read_digits(chars: &Vec<char>, from: usize) -> (value: Option<Option<u64>>)
    requires
        from <= chars@.len(),
    ensures
        value is Some <==> all_digits(chars@.skip(from as int)),
        value matches Some(v) ==> match v {
            Some(n) => n == digits_value(chars@.skip(from as int)) && n <= 0x8000_0000_0000_0000,
            None => digits_value(chars@.skip(from as int)) > 0x8000_0000_0000_0000,
        },
{
    let ghost s = chars@.skip(from as int);
    let limit: u64 = 0x8000_0000_0000_0000;
    if from == chars.len() {
        return None;
    }
    let mut value: Option<u64> = Some(0);
    let mut i: usize = from;
    while i < chars.len()
        invariant
            from <= i <= chars@.len(),
            s == chars@.skip(from as int),
            limit == 0x8000_0000_0000_0000,
            forall|j: int| 0 <= j < i - from ==> is_digit(#[trigger] s[j]),
            match value {
                Some(n) => n == digits_value(s.take(i - from)) && n <= limit,
                None => digits_value(s.take(i - from)) > limit,
            },
        decreases chars@.len() - i,
    {
        let c: char = chars[i];
        assert(s[i - from] == c);
        if c < '0' || c > '9' {
            return None;
        }
        let d: u64 = c as u64 - 48;
        assert(s.take(i + 1 - from).drop_last() =~= s.take(i - from));
        value = match value {
            Some(n) => if n > limit / 10 || n * 10 + d > limit {
                None
            } else {
                Some(n * 10 + d)
            },
            None => None,
        };
        i = i + 1;
    }
    assert(s.take(s.len() as int) =~= s);
    Some(value)
}

/// Reads a number in decimal notation. `None` where the text does not denote one, or one
/// that does not fit.
pub fn parse_decimal(text: &str) -> (value: Option<i64>)
    ensures
        match decimal_value(text@) {
            Some(i) if i64::MIN <= i <= i64::MAX => value == Some(i as i64),
            _ => value is None,
        },
{
    let chars = characters(text);
    if chars.len() == 0 {
        return None;
    }
    let negative = chars[0] == '-';
    let from: usize = if negative || chars[0] == '+' {
        1
    } else {
        0
    };
    proof {
        assert(chars@.skip(0) =~= chars@);
    }
    match read_digits(&chars, from) {
        Some(Some(n)) => if negative {
            if n == 0x8000_0000_0000_0000 {
                Some(i64::MIN)
            } else {
                Some(-(n as i64))
            }
        } else if n == 0x8000_0000_0000_0000 {
            None
        } else {
            Some(n as i64)
        },
        _ => None,
    }
}

/// Digits are digits.
proof fn lemma_digits(n: nat)
    ensures
        all_digits(digits(n)),
        digits_value(digits(n)) == n,
    decreases n,
{
    reveal_with_fuel(digits_value, 2);
    if n >= 10 {
        lemma_digits(n / 10);
        assert(digits(n).drop_last() =~= digits(n / 10));
    } else {
        assert(digits(n).drop_last() =~= seq![]);
    }
}

/// A number is read back from its decimal notation.
pub proof fn decimal_round_trip(i: int)
    ensures
        decimal_value(decimal(i)) == Some(i),
{
    if i < 0 {
        lemma_digits((-i) as nat);
        assert(decimal(i).skip(1) =~= digits((-i) as nat));
    } else {
        lemma_digits(i as nat);
        assert(is_digit(digits(i as nat)[0]));
    }
}

/// A text with every occurrence of `from` replaced by `to`, from left to right.
pub open spec fn replaced(s: Seq<char>, from: Seq<char>, to: Seq<char>) -> Seq<char>
    decreases s.len(),
{
    if s.len() == 0 || from.len() == 0 {
        s
    } else if from.is_prefix_of(s) {
        to + replaced(s.skip(from.len() as int), from, to)
    } else {
        seq![s[0]] + replaced(s.skip(1), from, to)
    }
}

/// Whether `from` stands at position `i`.
fn stands_at(chars: &Vec<char>, i: usize, from: &Vec<char>) -> (b: bool)
    requires
        i <= chars@.len(),
    ensures
        b == from@.is_prefix_of(chars@.skip(i as int)),
{
    let ghost s = chars@.skip(i as int);
    let n: usize = chars.len();
    if n - i < from.len() {
        return false;
    }
    let mut j: usize = 0;
    while j < from.len()
        invariant
            i <= n == chars@.len(),
            s == chars@.skip(i as int),
            j <= from@.len() <= s.len(),
            forall|k: int| 0 <= k < j ==> from@[k] == s[k],
        decreases from@.len() - j,
    {
        assert(s[j as int] == chars@[i + j]);
        if chars[i + j] != from[j] {
            return false;
        }
        j = j + 1;
    }
    assert(from@ =~= s.subrange(0, from@.len() as int));
    true
}

/// Replaces every occurrence of `from` by `to`, from left to right.
pub fn replace(text: &str, from: &str, to: &str) -> (result: String)
    requires
        from@.len() > 0,
    ensures
        result@ == replaced(text@, from@, to@),
{
    let chars = characters(text);
    let pattern = characters(from);
    let mut result = String::new();
    let mut i: usize = 0;
    assert(chars@.skip(0) =~= chars@);
    assert(result@ + replaced(chars@, from@, to@) =~= replaced(chars@, from@, to@));
    while i < chars.len()
        invariant
            chars@ == text@,
            pattern@ == from@,
            pattern@.len() > 0,
            i <= chars@.len(),
            replaced(text@, from@, to@) == result@ + replaced(chars@.skip(i as int), from@, to@),
        decreases chars@.len() - i,
    {
        let ghost rest = chars@.skip(i as int);
        let ghost before = result@;
        if stands_at(&chars, i, &pattern) {
            result.append(to);
            assert(rest.skip(from@.len() as int) =~= chars@.skip(i + from@.len()));
            i = i + pattern.len();
        } else {
            result.push(chars[i]);
            assert(rest.skip(1) =~= chars@.skip(i + 1));
            i = i + 1;
        }
        assert(result@ + replaced(chars@.skip(i as int), from@, to@) =~= before + replaced(
            rest,
            from@,
            to@,
        ));
    }
    assert(result@ + replaced(chars@.skip(i as int), from@, to@) =~= result@);
    result
}

} // verus!
