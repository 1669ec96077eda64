//! Text helpers: decimal numbers, lower case, and the order in which names are listed.
use vstd::prelude::*;

verus! {

/// What [`str::to_lowercase`] turns a text into.
pub uninterp spec fn lowercase(text: Seq<char>) -> Seq<char>;

/// [`str::to_lowercase`] maps a text to its Unicode lower-case form. The result depends on the
/// text alone; which characters map to which is left to the standard library's tables.
pub assume_specification[ str::to_lowercase ](text: &str) -> (lower: String)
    ensures
        lower@ == lowercase(text@),
;

/// Whether two texts are the same.
pub fn same_text(left: &String, right: &str) -> (same: bool)
    ensures
        same == (left@ == right@),
{
    let right: String = right.to_owned();
    *left == right
}

/// The character of a decimal digit.
pub open spec fn digit(value: nat) -> char {
    (value + '0' as nat) as char
}

/// A number in decimal notation, without leading zeros.
pub open spec fn decimal(value: nat) -> Seq<char>
    decreases value,
{
    if value < 10 {
        seq![digit(value)]
    } else {
        decimal(value / 10).push(digit(value % 10))
    }
}

fn digit_text(value: u32) -> (text: &'static str)
    requires
        value < 10,
    ensures
        text@ == seq![digit(value as nat)],
{
    proof {
        reveal_strlit("0");
        reveal_strlit("1");
        reveal_strlit("2");
        reveal_strlit("3");
        reveal_strlit("4");
        reveal_strlit("5");
        reveal_strlit("6");
        reveal_strlit("7");
        reveal_strlit("8");
        reveal_strlit("9");
    }
    let text = match value {
        0 => "0",
        1 => "1",
        2 => "2",
        3 => "3",
        4 => "4",
        5 => "5",
        6 => "6",
        7 => "7",
        8 => "8",
        _ => "9",
    };
    assert(text@ =~= seq![digit(value as nat)]);
    text
}

/// Appends a number in decimal notation to a text.
pub fn push_decimal(text: &mut String, value: u32)
    ensures
        final(text)@ == old(text)@ + decimal(value as nat),
    decreases value,
{
    if value >= 10 {
        push_decimal(text, value / 10);
    }
    text.append(digit_text(value % 10));
    assert(text@ =~= old(text)@ + decimal(value as nat));
}

/// Different numbers have different decimal notations.
pub proof fn decimal_injective(left: nat, right: nat)
    requires
        decimal(left) == decimal(right),
    ensures
        left == right,
    decreases left,
{
    decimal_shape(left);
    decimal_shape(right);
    if left >= 10 && right >= 10 {
        assert(decimal(left).drop_last() =~= decimal(left / 10));
        assert(decimal(right).drop_last() =~= decimal(right / 10));
        decimal_injective(left / 10, right / 10);
    }
}

proof fn decimal_shape(value: nat)
    ensures
        decimal(value).len() >= 1,
        value >= 10 ==> decimal(value).len() >= 2,
        decimal(value).last() == digit(value % 10),
        digit(value % 10) as nat == value % 10 + '0' as nat,
    decreases value,
{
    if value >= 10 {
        decimal_shape(value / 10);
    }
}

/// Lexicographic order of byte strings, the order of [`str`] values: a prefix comes first, and
/// otherwise the first byte that differs decides.
pub open spec fn bytes_le(left: Seq<u8>, right: Seq<u8>) -> bool
    decreases left.len(),
{
    if left.len() == 0 {
        true
    } else if right.len() == 0 {
        false
    } else if left[0] != right[0] {
        left[0] < right[0]
    } else {
        bytes_le(left.skip(1), right.skip(1))
    }
}

/// The order of texts.
pub open spec fn text_le(left: Seq<char>, right: Seq<char>) -> bool {
    bytes_le(vstd::utf8::encode_utf8(left), vstd::utf8::encode_utf8(right))
}

proof fn bytes_le_total(left: Seq<u8>, right: Seq<u8>)
    ensures
        bytes_le(left, right) || bytes_le(right, left),
    decreases left.len(),
{
    if left.len() > 0 && right.len() > 0 {
        bytes_le_total(left.skip(1), right.skip(1));
    }
}

proof fn bytes_le_transitive(left: Seq<u8>, middle: Seq<u8>, right: Seq<u8>)
    requires
        bytes_le(left, middle),
        bytes_le(middle, right),
    ensures
        bytes_le(left, right),
    decreases left.len(),
{
    if left.len() > 0 && left[0] == middle[0] && middle[0] == right[0] {
        bytes_le_transitive(left.skip(1), middle.skip(1), right.skip(1));
    }
}

/// Any two texts are ordered one way or the other.
pub proof fn text_le_total(left: Seq<char>, right: Seq<char>)
    ensures
        text_le(left, right) || text_le(right, left),
{
    bytes_le_total(vstd::utf8::encode_utf8(left), vstd::utf8::encode_utf8(right));
}

proof fn bytes_le_antisymmetric(left: Seq<u8>, right: Seq<u8>)
    requires
        bytes_le(left, right),
        bytes_le(right, left),
    ensures
        left == right,
    decreases left.len(),
{
    if left.len() > 0 && right.len() > 0 {
        bytes_le_antisymmetric(left.skip(1), right.skip(1));
        assert(left =~= seq![left[0]] + left.skip(1));
        assert(right =~= seq![right[0]] + right.skip(1));
    } else {
        assert(left =~= right);
    }
}

/// Texts that are ordered both ways are the same.
pub proof fn text_le_antisymmetric(left: Seq<char>, right: Seq<char>)
    requires
        text_le(left, right),
        text_le(right, left),
    ensures
        left == right,
{
    bytes_le_antisymmetric(vstd::utf8::encode_utf8(left), vstd::utf8::encode_utf8(right));
    vstd::utf8::encode_utf8_decode_utf8(left);
    vstd::utf8::encode_utf8_decode_utf8(right);
}

/// The order of texts is transitive.
pub proof fn text_le_transitive(left: Seq<char>, middle: Seq<char>, right: Seq<char>)
    requires
        text_le(left, middle),
        text_le(middle, right),
    ensures
        text_le(left, right),
{
    bytes_le_transitive(
        vstd::utf8::encode_utf8(left),
        vstd::utf8::encode_utf8(middle),
        vstd::utf8::encode_utf8(right),
    );
}

/// Whether `left` is listed no later than `right`.
pub fn text_not_after(left: &String, right: &String) -> (ordered: bool)
    ensures
        ordered == text_le(left@, right@),
{
    let a = left.as_str().as_bytes();
    let b = right.as_str().as_bytes();
    let mut i: usize = 0;
    assert(a@.skip(0) =~= a@);
    assert(b@.skip(0) =~= b@);
    while i < a.len() && i < b.len() && a[i] == b[i]
        invariant
            i <= a@.len(),
            i <= b@.len(),
            bytes_le(a@, b@) == bytes_le(a@.skip(i as int), b@.skip(i as int)),
        decreases a@.len() - i,
    {
        assert(a@.skip(i as int).skip(1) =~= a@.skip(i + 1));
        assert(b@.skip(i as int).skip(1) =~= b@.skip(i + 1));
        i = i + 1;
    }
    if i == a.len() {
        true
    } else if i == b.len() {
        false
    } else {
        a[i] < b[i]
    }
}

/// The number that a text of digits stands for.
pub open spec fn number(digits: Seq<char>) -> int
    decreases digits.len(),
{
    if digits.len() == 0 {
        0
    } else {
        number(digits.drop_last()) * 10 + (digits.last() as int - '0' as int)
    }
}

/// Decimal notation says what it should: it is made of digits alone, it stands for the number, and
/// it has no leading zero.
pub proof fn decimal_reads_back(value: nat)
    ensures
        number(decimal(value)) == value,
        decimal(value).len() > 0,
        forall|i: int|
            0 <= i < decimal(value).len() ==> '0' <= #[trigger] decimal(value)[i] <= '9',
        decimal(value)[0] == '0' ==> value == 0,
        value == 0 ==> decimal(value).len() == 1,
    decreases value,
{
    decimal_shape(value);
    let text = decimal(value);
    if value < 10 {
        assert(text.drop_last() =~= Seq::<char>::empty());
        assert(text.last() == digit(value));
        assert(number(Seq::<char>::empty()) == 0);
        assert(number(text) == number(text.drop_last()) * 10 + (text.last() as int - '0' as int));
    } else {
        decimal_reads_back(value / 10);
        assert(text.drop_last() =~= decimal(value / 10));
        assert(text[0] == decimal(value / 10)[0]);
    }
}

/// Of two byte strings that differ at some point, the one with the smaller byte there is smaller,
/// whatever follows.
pub proof fn first_difference_decides(
    common: Seq<u8>,
    small: u8,
    large: u8,
    after_small: Seq<u8>,
    after_large: Seq<u8>,
)
    requires
        small < large,
    ensures
        bytes_le(common + seq![small] + after_small, common + seq![large] + after_large),
        !bytes_le(common + seq![large] + after_large, common + seq![small] + after_small),
    decreases common.len(),
{
    let left = common + seq![small] + after_small;
    let right = common + seq![large] + after_large;
    if common.len() > 0 {
        first_difference_decides(common.skip(1), small, large, after_small, after_large);
        assert(left.skip(1) =~= common.skip(1) + seq![small] + after_small);
        assert(right.skip(1) =~= common.skip(1) + seq![large] + after_large);
        assert(left[0] == common[0] && right[0] == common[0]);
    } else {
        assert(left[0] == small && right[0] == large);
    }
}

/// A byte string is smaller than any that goes on after it.
pub proof fn prefix_comes_first(prefix: Seq<u8>, rest: Seq<u8>)
    ensures
        bytes_le(prefix, prefix + rest),
        rest.len() > 0 ==> !bytes_le(prefix + rest, prefix),
    decreases prefix.len(),
{
    if prefix.len() > 0 {
        prefix_comes_first(prefix.skip(1), rest);
        assert((prefix + rest).skip(1) =~= prefix.skip(1) + rest);
        assert((prefix + rest)[0] == prefix[0]);
    }
}

/// Texts are ordered by their encoded bytes: where those first differ, the smaller byte decides.
pub proof fn texts_are_ordered_by_bytes(
    left: Seq<char>,
    right: Seq<char>,
    common: Seq<u8>,
    small: u8,
    large: u8,
    after_small: Seq<u8>,
    after_large: Seq<u8>,
)
    requires
        small < large,
        vstd::utf8::encode_utf8(left) == common + seq![small] + after_small,
        vstd::utf8::encode_utf8(right) == common + seq![large] + after_large,
    ensures
        text_le(left, right),
        !text_le(right, left),
{
    first_difference_decides(common, small, large, after_small, after_large);
}

} // verus!
