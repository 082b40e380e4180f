//! Characters and strings: white space, decimal numerals and the order of strings.

use vstd::prelude::*;
use vstd::relations::{sorted_by, total_ordering};

verus! {

/// Unicode's White_Space property.
pub open spec fn white_space(c: char) -> bool {
    let code = c as u32;
    ||| 0x9 <= code <= 0xd
    ||| code == 0x20
    ||| code == 0x85
    ||| code == 0xa0
    ||| code == 0x1680
    ||| 0x2000 <= code <= 0x200a
    ||| code == 0x2028
    ||| code == 0x2029
    ||| code == 0x202f
    ||| code == 0x205f
    ||| code == 0x3000
}

/// Whether `c` is white space.
pub fn is_white_space(c: char) -> (yes: bool)
    ensures
        yes == white_space(c),
{
    let code: u32 = c as u32;
    (0x9 <= code && code <= 0xd) || code == 0x20 || code == 0x85 || code == 0xa0 || code == 0x1680
        || (0x2000 <= code && code <= 0x200a) || code == 0x2028 || code == 0x2029 || code == 0x202f
        || code == 0x205f || code == 0x3000
}

/// Nothing is left of `chars` when white space is trimmed from both ends.
pub open spec fn blank(chars: Seq<char>) -> bool {
    forall|i: int| 0 <= i < chars.len() ==> white_space(#[trigger] chars[i])
}

/// Whether `line` is empty or all white space.
pub fn is_blank(line: &str) -> (yes: bool)
    ensures
        yes == blank(line@),
{
    for c in rest: line.chars()
        invariant
            rest.seq() == line@,
            forall|i: int| 0 <= i < rest.index() ==> white_space(#[trigger] line@[i]),
    {
        if !is_white_space(c) {
            assert(!white_space(line@[rest.index() as int]));
            return false;
        }
    }
    true
}

/// Whether `line` begins with the character `first`.
pub fn begins_with(line: &str, first: char) -> (yes: bool)
    ensures
        yes == (line@.len() > 0 && line@[0] == first),
{
    let mut chars = line.chars();
    match chars.next() {
        Some(c) => c == first,
        None => false,
    }
}

/// The digit that stands for `value`, where that is below ten.
pub open spec fn digit(value: nat) -> char {
    (48 + value) as char
}

/// The decimal numeral of `value`, without leading zeros.
pub open spec fn decimal(value: nat) -> Seq<char>
    decreases value,
{
    if value < 10 {
        seq![digit(value)]
    } else {
        decimal(value / 10).push(digit(value % 10))
    }
}

fn digit_text(value: u64) -> (text: &'static str)
    requires
        value < 10,
    ensures
        text@ == seq![digit(value as nat)],
{
    proof {
        reveal_strlit("0");
        reveal_strlit("1");
        reveal_strlit("2");
        reveal_strlit("3");
        reveal_strlit("4");
        reveal_strlit("5");
        reveal_strlit("6");
        reveal_strlit("7");
        reveal_strlit("8");
        reveal_strlit("9");
    }
    if value == 0 {
        "0"
    } else if value == 1 {
        "1"
    } else if value == 2 {
        "2"
    } else if value == 3 {
        "3"
    } else if value == 4 {
        "4"
    } else if value == 5 {
        "5"
    } else if value == 6 {
        "6"
    } else if value == 7 {
        "7"
    } else if value == 8 {
        "8"
    } else {
        "9"
    }
}

/// Appends the decimal numeral of `value`.
pub fn push_decimal(out: &mut String, value: u64)
    ensures
        final(out)@ == old(out)@ + decimal(value as nat),
    decreases value,
{
    if value >= 10 {
        push_decimal(out, value / 10);
    }
    out.append(digit_text(value % 10));
    assert(out@ =~= old(out)@ + decimal(value as nat));
}

/// Strings in the order of their characters' code points, a prefix before what it begins.
pub open spec fn text_le(a: Seq<char>, b: Seq<char>) -> bool
    decreases a.len(),
{
    ||| a.len() == 0
    ||| {
        &&& b.len() > 0
        &&& a[0] < b[0] || a[0] == b[0] && text_le(a.drop_first(), b.drop_first())
    }
}

/// [`text_le`] as a relation that can be handed on.
pub open spec fn text_order() -> spec_fn(Seq<char>, Seq<char>) -> bool {
    |a: Seq<char>, b: Seq<char>| text_le(a, b)
}

/// The characters of each string.
pub open spec fn texts(strings: Seq<String>) -> Seq<Seq<char>> {
    strings.map_values(|s: String| s@)
}

/// The slice method `sort` of std on strings: the same strings, none lost or added, in
/// ascending order. std orders strings by their bytes, which is the order of their code
/// points.
#[verifier::external_body]
pub(crate) fn sort_texts(strings: &mut Vec<String>)
    ensures
        texts(final(strings)@).to_multiset() == texts(old(strings)@).to_multiset(),
        sorted_by(texts(final(strings)@), text_order()),
{
    strings.sort()
}

proof fn lemma_text_le_reflexive(a: Seq<char>)
    ensures
        text_le(a, a),
    decreases a.len(),
{
    if a.len() > 0 {
        lemma_text_le_reflexive(a.drop_first());
    }
}

proof fn lemma_text_le_antisymmetric(a: Seq<char>, b: Seq<char>)
    requires
        text_le(a, b),
        text_le(b, a),
    ensures
        a == b,
    decreases a.len(),
{
    if a.len() > 0 {
        lemma_text_le_antisymmetric(a.drop_first(), b.drop_first());
        assert(a =~= seq![a[0]] + a.drop_first());
        assert(b =~= seq![b[0]] + b.drop_first());
    } else {
        assert(a =~= b);
    }
}

proof fn lemma_text_le_transitive(a: Seq<char>, b: Seq<char>, c: Seq<char>)
    requires
        text_le(a, b),
        text_le(b, c),
    ensures
        text_le(a, c),
    decreases a.len(),
{
    if a.len() > 0 && a[0] == b[0] && b[0] == c[0] {
        lemma_text_le_transitive(a.drop_first(), b.drop_first(), c.drop_first());
    }
}

proof fn lemma_text_le_total(a: Seq<char>, b: Seq<char>)
    ensures
        text_le(a, b) || text_le(b, a),
    decreases a.len(),
{
    if a.len() > 0 && b.len() > 0 {
        lemma_text_le_total(a.drop_first(), b.drop_first());
    }
}

/// The order of strings is total: any two compare, equal ones alone compare both ways,
/// and comparisons chain.
pub proof fn text_order_is_total()
    ensures
        total_ordering(text_order()),
{
    let order = text_order();
    assert forall|a: Seq<char>| #[trigger] order(a, a) by {
        lemma_text_le_reflexive(a);
    }
    assert forall|a: Seq<char>, b: Seq<char>| #[trigger] order(a, b) && #[trigger] order(b, a) implies a
        == b by {
        lemma_text_le_antisymmetric(a, b);
    }
    assert forall|a: Seq<char>, b: Seq<char>, c: Seq<char>| #[trigger]
        order(a, b) && #[trigger] order(b, c) implies order(a, c) by {
        lemma_text_le_transitive(a, b, c);
    }
    assert forall|a: Seq<char>, b: Seq<char>| #[trigger] order(a, b) || #[trigger] order(b, a) by {
        lemma_text_le_total(a, b);
    }
}

/// There is one way to put given strings in order.
pub proof fn sorted_texts_are_unique(a: Seq<Seq<char>>, b: Seq<Seq<char>>)
    requires
        a.to_multiset() == b.to_multiset(),
        sorted_by(a, text_order()),
        sorted_by(b, text_order()),
    ensures
        a == b,
{
    text_order_is_total();
    vstd::seq_lib::lemma_sorted_unique(a, b, text_order());
}

} // verus!
