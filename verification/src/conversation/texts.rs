//! Texts that are written, read and changed.
use vstd::prelude::*;

use crate::text::{
    all_digits, decimal_round_trip, is_digit, parse_decimal, replace, replaced, to_decimal,
};

verus! {

/// A number from 0 to 9 is written as the digit that it is. A larger number is written as its
/// tens are, followed by its last digit. A number below 0 is written as its opposite is, with a
/// minus sign before.
pub proof fn number_is_written_by_digits(
    i: i64,
    written: String,
    tens: String,
    last: String,
    opposite: String,
)
    requires
        call_ensures(to_decimal, (i,), written),
        i >= 10 ==> call_ensures(to_decimal, ((i / 10) as i64,), tens),
        i >= 10 ==> call_ensures(to_decimal, ((i % 10) as i64,), last),
        i64::MIN < i < 0 ==> call_ensures(to_decimal, ((-i) as i64,), opposite),
    ensures
        0 <= i < 10 ==> written@.len() == 1 && written@[0] as int == '0' as int + i,
        i >= 10 ==> written@ == tens@ + last@,
        i64::MIN < i < 0 ==> written@ == seq!['-'] + opposite@,
{
    if i >= 10 {
        assert(written@ =~= tens@ + last@);
    }
}

/// A number is read back from the text that it is written as.
pub proof fn number_is_read_back(i: i64, written: String, text: &str, read: Option<i64>)
    requires
        call_ensures(to_decimal, (i,), written),
        text@ == written@,
        call_ensures(parse_decimal, (text,), read),
    ensures
        read == Some(i),
{
    decimal_round_trip(i as int);
}

/// Where a text holds something else than digits, after a sign or none, it is not read as a
/// number.
pub proof fn only_digits_are_read(text: &str, read: Option<i64>, i: int)
    requires
        call_ensures(parse_decimal, (text,), read),
        0 <= i < text@.len(),
        !('0' <= text@[i] <= '9'),
        i == 0 ==> text@[0] != '-' && text@[0] != '+',
    ensures
        read is None,
{
    if i == 0 {
        assert(!is_digit(text@[0]));
    } else {
        assert(text@.skip(1)[i - 1] == text@[i]);
        assert(!is_digit(text@.skip(1)[i - 1]));
        assert(!is_digit(text@[i]));
    }
}

/// A digit at the end of a number that is read makes it ten times as large, and adds itself.
/// Where the number no longer fits, it is not read.
pub proof fn digits_are_read_in_turn(
    text: &str,
    longer: &str,
    digit: char,
    read: Option<i64>,
    read_longer: Option<i64>,
)
    requires
        call_ensures(parse_decimal, (text,), read),
        call_ensures(parse_decimal, (longer,), read_longer),
        text@.len() > 0,
        forall|i: int| 0 <= i < text@.len() ==> '0' <= #[trigger] text@[i] <= '9',
        '0' <= digit <= '9',
        longer@ == text@.push(digit),
        read is Some,
    ensures
        read->0 * 10 + (digit as int - '0' as int) <= i64::MAX ==> read_longer == Some(
            (read->0 * 10 + (digit as int - '0' as int)) as i64,
        ),
        read->0 * 10 + (digit as int - '0' as int) > i64::MAX ==> read_longer is None,
{
    assert(all_digits(text@)) by {
        assert forall|i: int| 0 <= i < text@.len() implies is_digit(#[trigger] text@[i]) by {
        }
    }
    assert(all_digits(longer@)) by {
        assert forall|i: int| 0 <= i < longer@.len() implies is_digit(#[trigger] longer@[i]) by {
            if i < text@.len() {
                assert(longer@[i] == text@[i]);
            }
        }
    }
    assert(longer@.drop_last() =~= text@);
    assert(is_digit(text@[0]));
    assert(is_digit(longer@[0]));
}

/// What stands before the first occurrence is kept.
proof fn replaced_after(before: Seq<char>, from: Seq<char>, after: Seq<char>, to: Seq<char>)
    requires
        from.len() > 0,
        forall|k: int|
            0 <= k < before.len() ==> !from.is_prefix_of(
                #[trigger] (before + from + after).skip(k),
            ),
    ensures
        replaced(before + from + after, from, to) == before + to + replaced(after, from, to),
    decreases before.len(),
{
    let text = before + from + after;
    if before.len() == 0 {
        assert(text =~= from + after);
        assert(text.skip(from.len() as int) =~= after);
        assert(from.is_prefix_of(text)) by {
            assert(text.subrange(0, from.len() as int) =~= from);
        }
        assert(before + to =~= to);
    } else {
        let shorter = before.skip(1);
        assert(text.skip(0) =~= text);
        assert(!from.is_prefix_of(text));
        assert(text.skip(1) =~= shorter + from + after);
        assert forall|k: int| 0 <= k < shorter.len() implies !from.is_prefix_of(
            #[trigger] (shorter + from + after).skip(k),
        ) by {
            assert((shorter + from + after).skip(k) =~= text.skip(k + 1));
        }
        replaced_after(shorter, from, after, to);
        assert(before + to + replaced(after, from, to) =~= seq![before[0]] + (shorter + to
            + replaced(after, from, to)));
    }
}

/// A text in which nothing is found is kept.
proof fn nothing_replaced(text: Seq<char>, from: Seq<char>, to: Seq<char>)
    requires
        from.len() > 0,
        forall|k: int| 0 <= k < text.len() ==> !from.is_prefix_of(#[trigger] text.skip(k)),
    ensures
        replaced(text, from, to) == text,
    decreases text.len(),
{
    if text.len() > 0 {
        assert(text.skip(0) =~= text);
        assert forall|k: int| 0 <= k < text.skip(1).len() implies !from.is_prefix_of(
            #[trigger] text.skip(1).skip(k),
        ) by {
            assert(text.skip(1).skip(k) =~= text.skip(k + 1));
        }
        nothing_replaced(text.skip(1), from, to);
        assert(seq![text[0]] + text.skip(1) =~= text);
    }
}

/// Where a text holds another, the first occurrence is replaced, what stands before it is kept,
/// and what stands after it is treated likewise. Where it does not, it is kept as it is.
pub proof fn occurrences_are_replaced(
    text: &str,
    from: &str,
    to: &str,
    rest: &str,
    before: Seq<char>,
    changed: String,
    changed_rest: String,
)
    requires
        from@.len() > 0,
        call_ensures(replace, (text, from, to), changed),
        call_ensures(replace, (rest, from, to), changed_rest),
    ensures
        ({
            &&& text@ == before + from@ + rest@
            &&& forall|k: int|
                0 <= k < before.len() ==> !from@.is_prefix_of(#[trigger] text@.skip(k))
        }) ==> changed@ == before + to@ + changed_rest@,
        (forall|k: int| 0 <= k < text@.len() ==> !from@.is_prefix_of(#[trigger] text@.skip(k)))
            ==> changed@ == text@,
{
    if text@ == before + from@ + rest@ && (forall|k: int|
        0 <= k < before.len() ==> !from@.is_prefix_of(#[trigger] text@.skip(k))) {
        replaced_after(before, from@, rest@, to@);
    }
    if forall|k: int| 0 <= k < text@.len() ==> !from@.is_prefix_of(#[trigger] text@.skip(k)) {
        nothing_replaced(text@, from@, to@);
    }
}

} // verus!
