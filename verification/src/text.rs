//! Text as sequences of characters: its byte order, decimal numerals and the
//! search for a scheme separator.

use vstd::prelude::*;
use vstd::utf8::{encode_utf8, encode_utf8_decode_utf8};

verus! {

/// How one text stands to another in byte order.
#[derive(Debug, Clone, Copy, PartialEq, Eq, Structural)]
pub enum TextOrder {
    Before,
    Same,
    After,
}

/// Lexicographic order of byte strings; a proper prefix comes first.
pub open spec fn bytes_before(a: Seq<u8>, b: Seq<u8>) -> bool
    decreases a.len(),
{
    if b.len() == 0 {
        false
    } else if a.len() == 0 {
        true
    } else if a[0] != b[0] {
        a[0] < b[0]
    } else {
        bytes_before(a.skip(1), b.skip(1))
    }
}

/// The order of texts: that of their UTF-8 bytes.
pub open spec fn text_before(a: Seq<char>, b: Seq<char>) -> bool {
    bytes_before(encode_utf8(a), encode_utf8(b))
}

proof fn bytes_before_irreflexive(a: Seq<u8>)
    ensures
        !bytes_before(a, a),
    decreases a.len(),
{
    if a.len() > 0 {
        bytes_before_irreflexive(a.skip(1));
    }
}

proof fn bytes_before_transitive(a: Seq<u8>, b: Seq<u8>, c: Seq<u8>)
    requires
        bytes_before(a, b),
        bytes_before(b, c),
    ensures
        bytes_before(a, c),
    decreases a.len(),
{
    if a.len() > 0 && a[0] == b[0] && b[0] == c[0] {
        bytes_before_transitive(a.skip(1), b.skip(1), c.skip(1));
    }
}

/// No text comes before itself.
pub proof fn text_before_irreflexive(a: Seq<char>)
    ensures
        !text_before(a, a),
{
    bytes_before_irreflexive(encode_utf8(a));
}

/// The order of texts is transitive.
pub proof fn text_before_transitive(a: Seq<char>, b: Seq<char>, c: Seq<char>)
    requires
        text_before(a, b),
        text_before(b, c),
    ensures
        text_before(a, c),
{
    bytes_before_transitive(encode_utf8(a), encode_utf8(b), encode_utf8(c));
}

/// Texts with the same UTF-8 bytes are the same text.
pub proof fn encoding_is_injective(a: Seq<char>, b: Seq<char>)
    requires
        encode_utf8(a) == encode_utf8(b),
    ensures
        a == b,
{
    encode_utf8_decode_utf8(a);
    encode_utf8_decode_utf8(b);
}

/// Places `a` relative to `b` in byte order.
pub fn text_order(a: &str, b: &str) -> (r: TextOrder)
    ensures
        r == TextOrder::Before <==> text_before(a@, b@),
        r == TextOrder::Same <==> a@ == b@,
        r == TextOrder::After <==> text_before(b@, a@),
{
    let left = a.as_bytes();
    let right = b.as_bytes();
    let ghost s = encode_utf8(a@);
    let ghost t = encode_utf8(b@);
    let mut i: usize = 0;
    proof {
        assert(s.skip(0) =~= s);
        assert(t.skip(0) =~= t);
        bytes_before_irreflexive(s);
        bytes_before_irreflexive(t);
    }
    while i < left.len() && i < right.len() && left[i] == right[i]
        invariant
            left@ == s,
            right@ == t,
            i <= left.len(),
            i <= right.len(),
            s.take(i as int) =~= t.take(i as int),
            bytes_before(s, t) == bytes_before(s.skip(i as int), t.skip(i as int)),
            bytes_before(t, s) == bytes_before(t.skip(i as int), s.skip(i as int)),
        decreases left.len() - i,
    {
        proof {
            assert(s.skip(i as int).skip(1) =~= s.skip(i + 1));
            assert(t.skip(i as int).skip(1) =~= t.skip(i + 1));
            assert(s.take(i + 1) =~= s.take(i as int).push(s[i as int]));
            assert(t.take(i + 1) =~= t.take(i as int).push(t[i as int]));
        }
        i = i + 1;
    }
    if i < left.len() {
        assert(s.skip(i as int)[0] == s[i as int]);
        if i < right.len() {
            assert(t.skip(i as int)[0] == t[i as int]);
            if left[i] < right[i] {
                TextOrder::Before
            } else {
                TextOrder::After
            }
        } else {
            TextOrder::After
        }
    } else if i < right.len() {
        TextOrder::Before
    } else {
        proof {
            assert(s.take(i as int) =~= s);
            assert(t.take(i as int) =~= t);
            encoding_is_injective(a@, b@);
        }
        TextOrder::Same
    }
}

/// Whether two texts are the same.
pub fn same_text(a: &str, b: &str) -> (r: bool)
    ensures
        r == (a@ == b@),
{
    text_order(a, b) == TextOrder::Same
}

/// The character of a decimal digit.
pub open spec fn digit(d: nat) -> char {
    (48 + d) as char
}

/// The decimal numeral of a natural number.
pub open spec fn decimal(n: nat) -> Seq<char>
    decreases n,
{
    if n < 10 {
        seq![digit(n)]
    } else {
        decimal(n / 10).push(digit(n % 10))
    }
}

/// A numeral is made of digits, at least one.
pub proof fn decimal_is_digits(n: nat)
    ensures
        decimal(n).len() > 0,
        forall|i: int| 0 <= i < decimal(n).len() ==> '0' <= #[trigger] decimal(n)[i] <= '9',
    decreases n,
{
    if n >= 10 {
        decimal_is_digits(n / 10);
    }
}

/// Different numbers have different numerals.
pub proof fn decimal_is_injective(a: nat, b: nat)
    requires
        decimal(a) == decimal(b),
    ensures
        a == b,
    decreases a,
{
    decimal_is_digits(a / 10);
    decimal_is_digits(b / 10);
    assert(decimal(a).last() == digit(a % 10));
    assert(decimal(b).last() == digit(b % 10));
    assert(a % 10 == b % 10);
    if a >= 10 && b >= 10 {
        assert(decimal(a).drop_last() =~= decimal(a / 10));
        assert(decimal(b).drop_last() =~= decimal(b / 10));
        decimal_is_injective(a / 10, b / 10);
    } else if a >= 10 {
        assert(decimal(a).len() > 1);
    } else if b >= 10 {
        assert(decimal(b).len() > 1);
    }
}

/// The decimal numeral of an integer, with a sign where it is negative.
pub open spec fn signed_decimal(n: int) -> Seq<char> {
    if n < 0 {
        seq!['-'] + decimal((-n) as nat)
    } else {
        decimal(n as nat)
    }
}

fn digit_text(d: u128) -> (r: &'static str)
    requires
        d < 10,
    ensures
        r@ == seq![digit(d as nat)],
{
    proof {
        reveal_strlit("0");
        reveal_strlit("1");
        reveal_strlit("2");
        reveal_strlit("3");
        reveal_strlit("4");
        reveal_strlit("5");
        reveal_strlit("6");
        reveal_strlit("7");
        reveal_strlit("8");
        reveal_strlit("9");
    }
    let r = match d {
        0 => "0",
        1 => "1",
        2 => "2",
        3 => "3",
        4 => "4",
        5 => "5",
        6 => "6",
        7 => "7",
        8 => "8",
        _ => "9",
    };
    assert(r@ =~= seq![digit(d as nat)]);
    r
}

/// Writes a number in decimal.
pub fn decimal_text(n: u128) -> (r: String)
    ensures
        r@ == decimal(n as nat),
    decreases n,
{
    if n < 10 {
        digit_text(n).to_owned()
    } else {
        let r = decimal_text(n / 10).concat(digit_text(n % 10));
        assert(r@ =~= decimal(n as nat));
        r
    }
}

/// Writes a signed number in decimal.
pub fn signed_decimal_text(n: i32) -> (r: String)
    ensures
        r@ == signed_decimal(n as int),
{
    if n < 0 {
        proof {
            reveal_strlit("-");
        }
        let size: u128 = (-(n as i64)) as u128;
        let r = "-".to_owned().concat(decimal_text(size).as_str());
        assert("-"@ =~= seq!['-']);
        r
    } else {
        decimal_text(n as u128)
    }
}

/// Whether `needle` occurs in `text`.
pub open spec fn occurs_in(needle: Seq<char>, text: Seq<char>) -> bool {
    exists|i: int|
        0 <= i <= text.len() - needle.len() && #[trigger] text.subrange(i, i + needle.len())
            == needle
}

/// Whether a text holds the separator between a scheme and an authority.
pub fn has_scheme_separator(text: &str) -> (r: bool)
    ensures
        r == occurs_in("://"@, text@),
{
    proof {
        reveal_strlit("://");
    }
    let length = text.unicode_len();
    let mut i: usize = 0;
    while i < length && length - i >= 3
        invariant
            length == text@.len(),
            i <= length,
            "://"@ =~= seq![':', '/', '/'],
            forall|j: int|
                0 <= j < i && j <= text@.len() - 3 ==> #[trigger] text@.subrange(j, j + 3) != "://"@,
        decreases length - i,
    {
        let found = text.get_char(i) == ':' && text.get_char(i + 1) == '/' && text.get_char(i + 2)
            == '/';
        let ghost part = text@.subrange(i as int, i + 3);
        if found {
            assert(part =~= "://"@);
            return true;
        }
        assert(part != "://"@) by {
            assert(part[0] == text@[i as int] && part[1] == text@[i + 1] && part[2] == text@[i
                + 2]);
        }
        i = i + 1;
    }
    false
}

/// Texts are ordered by the first byte at which they differ, and a text that goes on
/// comes after one that ends there.
pub proof fn first_difference_decides(
    a: Seq<char>,
    b: Seq<char>,
    common: Seq<u8>,
    left: Seq<u8>,
    right: Seq<u8>,
)
    requires
        encode_utf8(a) == common + left,
        encode_utf8(b) == common + right,
        left.len() == 0 || right.len() == 0 || left[0] != right[0],
    ensures
        text_before(a, b) == (right.len() > 0 && (left.len() == 0 || left[0] < right[0])),
{
    common_bytes_do_not_count(common, left, right);
}

proof fn common_bytes_do_not_count(common: Seq<u8>, left: Seq<u8>, right: Seq<u8>)
    ensures
        bytes_before(common + left, common + right) == bytes_before(left, right),
    decreases common.len(),
{
    if common.len() > 0 {
        common_bytes_do_not_count(common.skip(1), left, right);
        assert((common + left).skip(1) =~= common.skip(1) + left);
        assert((common + right).skip(1) =~= common.skip(1) + right);
    } else {
        assert(common + left =~= left);
        assert(common + right =~= right);
    }
}

/// The last digit of a numeral stands for the remainder by ten, and what stands before
/// it is the numeral of the quotient.
pub proof fn decimal_is_positional(n: nat)
    ensures
        decimal(n).len() > 0,
        decimal(n).last() as int == '0' as int + n % 10,
        n < 10 ==> decimal(n).len() == 1,
        n >= 10 ==> decimal(n).drop_last() == decimal(n / 10),
{
    if n >= 10 {
        assert(decimal(n).drop_last() =~= decimal(n / 10));
    }
}

/// A sign stands before the numeral of a negative number, and of no other.
pub proof fn signed_decimal_has_a_sign(n: int)
    ensures
        n >= 0 ==> signed_decimal(n) == decimal(n as nat),
        n < 0 ==> signed_decimal(n).len() > 0 && signed_decimal(n)[0] == '-' && signed_decimal(
            n,
        ).skip(1) == decimal((-n) as nat),
{
    if n < 0 {
        assert(signed_decimal(n).skip(1) =~= decimal((-n) as nat));
    }
}

/// What stands between two texts occurs in the whole.
pub proof fn middle_occurs(before: Seq<char>, needle: Seq<char>, after: Seq<char>)
    ensures
        occurs_in(needle, before + needle + after),
{
    let text = before + needle + after;
    let at = before.len() as int;
    assert(text.subrange(at, at + needle.len()) =~= needle);
}

/// A text in which another occurs is made of what stands before it, of it, and of what
/// stands after it.
pub proof fn occurrence_splits(needle: Seq<char>, text: Seq<char>) -> (r: (Seq<char>, Seq<char>))
    requires
        occurs_in(needle, text),
    ensures
        text == r.0 + needle + r.1,
{
    let i = choose|i: int|
        0 <= i <= text.len() - needle.len() && #[trigger] text.subrange(i, i + needle.len())
            == needle;
    let before = text.subrange(0, i);
    let after = text.subrange(i + needle.len(), text.len() as int);
    assert(text =~= before + text.subrange(i, i + needle.len()) + after);
    (before, after)
}

} // verus!
