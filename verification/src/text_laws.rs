//! What may be relied on of characters, numerals and the order of strings.

use crate::text::{
    begins_with, blank, decimal, is_blank, is_white_space, push_decimal, text_le,
    white_space,
};
use vstd::prelude::*;

verus! {

/// No visible ASCII character is white space; the space and the ASCII line breaks and tabs
/// are. The answer is [`white_space`]'s.
pub proof fn visible_ascii_is_not_white_space(c: char, yes: bool)
    requires
        call_ensures(is_white_space, (c,), yes),
    ensures
        yes <==> white_space(c),
        '!' <= c <= '~' ==> !yes,
        c == ' ' || c == '\t' || c == '\n' || c == '\r' ==> yes,
        c == '\u{200b}' || c == '\u{feff}' ==> !yes,
{
}

/// A line is blank if and only if every character of it is white space.
pub proof fn blank_lines_hold_white_space_only(line: &str, yes: bool)
    requires
        call_ensures(is_blank, (line,), yes),
    ensures
        yes <==> forall|i: int| 0 <= i < line@.len() ==> white_space(#[trigger] line@[i]),
        line@.len() == 0 ==> yes,
{
}

/// Blankness is decided part by part: lines put together are blank if and only if each is.
pub proof fn blankness_is_decided_part_by_part(a: Seq<char>, b: Seq<char>)
    ensures
        blank(a + b) <==> blank(a) && blank(b),
{
    if blank(a + b) {
        assert forall|i: int| 0 <= i < a.len() implies white_space(#[trigger] a[i]) by {
            assert((a + b)[i] == a[i]);
        }
        assert forall|i: int| 0 <= i < b.len() implies white_space(#[trigger] b[i]) by {
            assert((a + b)[a.len() + i] == b[i]);
        }
    }
}

/// Only the first character decides what a line begins with.
pub proof fn the_first_character_decides(line: &str, first: char, yes: bool)
    requires
        call_ensures(begins_with, (line, first), yes),
    ensures
        yes <==> exists|rest: Seq<char>| line@ == seq![first] + rest,
{
    if line@.len() > 0 && line@[0] == first {
        assert(line@ =~= seq![first] + line@.drop_first());
    }
}

/// Appending a number leaves what was there and adds a numeral that reads back as it.
pub proof fn an_appended_number_reads_back(out: &mut String, value: u64)
    requires
        call_ensures(push_decimal, (out, value), ()),
    ensures
        (*old(out))@.is_prefix_of((*final(out))@),
        numeral_value((*final(out))@.skip((*old(out))@.len() as int)) == value,
{
    decimal_numerals_read_back(value as nat);
    assert((*final(out))@.skip((*old(out))@.len() as int) =~= decimal(value as nat));
}

/// The number that a row of digits stands for.
pub open spec fn numeral_value(digits: Seq<char>) -> int
    decreases digits.len(),
{
    if digits.len() == 0 {
        0
    } else {
        10 * numeral_value(digits.drop_last()) + (digits.last() as int - '0' as int)
    }
}

/// A decimal numeral reads back as its number, is made of digits alone, and has no leading
/// zero but for that of zero itself.
pub proof fn decimal_numerals_read_back(value: nat)
    ensures
        numeral_value(decimal(value)) == value,
        decimal(value).len() > 0,
        forall|i: int|
            0 <= i < decimal(value).len() ==> '0' <= #[trigger] decimal(value)[i] <= '9',
        decimal(value)[0] == '0' ==> value == 0 && decimal(value).len() == 1,
    decreases value,
{
    reveal_with_fuel(numeral_value, 2);
    let numeral = decimal(value);
    if value < 10 {
        assert(numeral.drop_last() =~= seq![]);
    } else {
        decimal_numerals_read_back(value / 10);
        assert(numeral.drop_last() =~= decimal(value / 10));
        assert(numeral[0] == decimal(value / 10)[0]);
        assert forall|i: int| 0 <= i < numeral.len() implies '0' <= #[trigger] numeral[i]
            <= '9' by {
            if i < decimal(value / 10).len() {
                assert(numeral[i] == decimal(value / 10)[i]);
            }
        }
    }
}

/// Different numbers have different numerals.
pub proof fn different_numbers_have_different_numerals(a: nat, b: nat)
    requires
        a != b,
    ensures
        decimal(a) != decimal(b),
{
    decimal_numerals_read_back(a);
    decimal_numerals_read_back(b);
}

/// Strings are ordered by the first character in which they differ, and a string comes before
/// all that it begins.
pub proof fn the_first_difference_orders_strings(a: Seq<char>, b: Seq<char>)
    ensures
        text_le(a, b) <==> a.is_prefix_of(b) || exists|p: int|
            #![trigger a[p]]
            0 <= p < a.len() && p < b.len() && a.take(p) == b.take(p) && a[p] < b[p],
    decreases a.len(),
{
    if a.len() > 0 && b.len() > 0 && a[0] == b[0] {
        let c = a.drop_first();
        let d = b.drop_first();
        the_first_difference_orders_strings(c, d);
        if a.is_prefix_of(b) {
            assert(c =~= d.subrange(0, c.len() as int));
        }
        if c.is_prefix_of(d) {
            assert forall|i: int| 0 <= i < a.len() implies a[i] == b[i] by {
                if i > 0 {
                    assert(c[i - 1] == d.subrange(0, c.len() as int)[i - 1]);
                }
            }
            assert(a =~= b.subrange(0, a.len() as int));
        }
        if exists|p: int|
            #![trigger a[p]]
            0 <= p < a.len() && p < b.len() && a.take(p) == b.take(p) && a[p] < b[p] {
            let p = choose|p: int|
                #![trigger a[p]]
                0 <= p < a.len() && p < b.len() && a.take(p) == b.take(p) && a[p] < b[p];
            assert(c.take(p - 1) =~= a.take(p).drop_first());
            assert(d.take(p - 1) =~= b.take(p).drop_first());
            assert(c[p - 1] == a[p] && d[p - 1] == b[p]);
        }
        if exists|q: int|
            #![trigger c[q]]
            0 <= q < c.len() && q < d.len() && c.take(q) == d.take(q) && c[q] < d[q] {
            let q = choose|q: int|
                #![trigger c[q]]
                0 <= q < c.len() && q < d.len() && c.take(q) == d.take(q) && c[q] < d[q];
            assert(a.take(q + 1) =~= seq![a[0]] + c.take(q));
            assert(b.take(q + 1) =~= seq![b[0]] + d.take(q));
            assert(a[q + 1] == c[q] && b[q + 1] == d[q]);
        }
    } else {
        if a.is_prefix_of(b) && a.len() > 0 {
            assert(a[0] == b.subrange(0, a.len() as int)[0]);
        }
        if a.len() == 0 {
            assert(a =~= b.subrange(0, 0));
        }
        if exists|p: int|
            #![trigger a[p]]
            0 <= p < a.len() && p < b.len() && a.take(p) == b.take(p) && a[p] < b[p] {
            let p = choose|p: int|
                #![trigger a[p]]
                0 <= p < a.len() && p < b.len() && a.take(p) == b.take(p) && a[p] < b[p];
            if p > 0 {
                assert(a.take(p)[0] == b.take(p)[0]);
            }
        }
        if a.len() > 0 && b.len() > 0 {
            assert(a.take(0) =~= b.take(0));
        }
    }
}

} // verus!
