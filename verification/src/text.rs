//! Small pieces of text: decimal numbers, padding, shortened identifiers, and
//! what bytes and lists look like to a reader.
use vstd::prelude::*;
use vstd::string::{StrSliceExecFns, StringExecFns};
use vstd::utf8::{
    decode_utf8, encode_utf8, encode_utf8_decode_utf8, encode_utf8_valid_utf8, valid_utf8,
};

use crate::outside::{from_utf8_lossy, lossy_text, quote, quoted};

verus! {

/// How many characters of an identifier are shown.
pub const SHORT_ID_LEN: usize = 10;

/// The character that stands for the digit `d`.
pub open spec fn digit(d: nat) -> char {
    (48 + d) as char
}

/// `n` in decimal, without leading zeros.
pub open spec fn decimal(n: nat) -> Seq<char>
    decreases n,
{
    if n < 10 {
        seq![digit(n)]
    } else {
        decimal(n / 10).push(digit(n % 10))
    }
}

/// Whether a character is a decimal digit.
pub open spec fn is_digit(c: char) -> bool {
    '0' <= c <= '9'
}

/// Whether a text holds nothing but decimal digits.
pub open spec fn all_digits(s: Seq<char>) -> bool {
    forall|i: int| 0 <= i < s.len() ==> is_digit(#[trigger] s[i])
}

/// The number that a sequence of digits stands for.
pub open spec fn digits_value(s: Seq<char>) -> nat
    decreases s.len(),
{
    if s.len() == 0 {
        0
    } else {
        digits_value(s.drop_last()) * 10 + (s.last() as nat - 48) as nat
    }
}

/// A text without the one plus sign that it may start with.
pub open spec fn unsigned_part(s: Seq<char>) -> Seq<char> {
    if s.len() > 0 && s[0] == '+' {
        s.skip(1)
    } else {
        s
    }
}

/// The 64-bit number that a text stands for: an optional plus sign, then one
/// or more digits and nothing else.
pub open spec fn parsed_u64(s: Seq<char>) -> Option<u64> {
    let d = unsigned_part(s);
    if d.len() > 0 && all_digits(d) && digits_value(d) <= u64::MAX {
        Some(digits_value(d) as u64)
    } else {
        None
    }
}

/// The first characters of an identifier.
pub open spec fn shortened(id: Seq<char>) -> Seq<char> {
    if id.len() <= SHORT_ID_LEN {
        id
    } else {
        id.take(SHORT_ID_LEN as int)
    }
}

/// `s`, filled up with spaces on the right to `width` characters.
pub open spec fn padded(s: Seq<char>, width: nat) -> Seq<char> {
    if s.len() >= width {
        s
    } else {
        s + Seq::new((width - s.len()) as nat, |i: int| ' ')
    }
}

/// `s` without the slashes that it ends in.
pub open spec fn without_end_slashes(s: Seq<char>) -> Seq<char>
    decreases s.len(),
{
    if s.len() > 0 && s.last() == '/' {
        without_end_slashes(s.drop_last())
    } else {
        s
    }
}

/// The text that bytes stand for: their decoding where they are valid UTF-8,
/// else what is left once the other parts are replaced.
pub open spec fn readable(bytes: Seq<u8>) -> Seq<char> {
    if valid_utf8(bytes) {
        decode_utf8(bytes)
    } else {
        lossy_text(bytes)
    }
}

/// Texts, each quoted, with commas between them.
pub open spec fn quoted_items(items: Seq<Seq<char>>) -> Seq<char>
    decreases items.len(),
{
    if items.len() == 0 {
        Seq::empty()
    } else if items.len() == 1 {
        quoted(items[0])
    } else {
        quoted_items(items.drop_last()) + ", "@ + quoted(items.last())
    }
}

/// A list of texts in brackets, each quoted.
pub open spec fn quoted_list(items: Seq<Seq<char>>) -> Seq<char> {
    "["@ + quoted_items(items) + "]"@
}

fn digit_text(d: u64) -> (r: &'static str)
    requires
        d < 10,
    ensures
        r@ == seq![digit(d as nat)],
{
    proof {
        reveal_strlit("0");
        reveal_strlit("1");
        reveal_strlit("2");
        reveal_strlit("3");
        reveal_strlit("4");
        reveal_strlit("5");
        reveal_strlit("6");
        reveal_strlit("7");
        reveal_strlit("8");
        reveal_strlit("9");
    }
    if d == 0 {
        "0"
    } else if d == 1 {
        "1"
    } else if d == 2 {
        "2"
    } else if d == 3 {
        "3"
    } else if d == 4 {
        "4"
    } else if d == 5 {
        "5"
    } else if d == 6 {
        "6"
    } else if d == 7 {
        "7"
    } else if d == 8 {
        "8"
    } else {
        "9"
    }
}

/// `n` in decimal.
pub fn decimal_text(n: u64) -> (r: String)
    ensures
        r@ == decimal(n as nat),
    decreases n,
{
    if n < 10 {
        digit_text(n).to_owned()
    } else {
        let head = decimal_text(n / 10);
        let out = head.concat(digit_text(n % 10));
        assert(out@ =~= decimal(n as nat));
        out
    }
}

/// A longer row of digits stands for no smaller number.
proof fn lemma_value_grows(s: Seq<char>, i: int)
    requires
        0 <= i <= s.len(),
    ensures
        digits_value(s.take(i)) <= digits_value(s),
    decreases s.len() - i,
{
    if i < s.len() {
        lemma_value_grows(s, i + 1);
        assert(s.take(i + 1).drop_last() =~= s.take(i));
    } else {
        assert(s.take(i) =~= s);
    }
}

/// Reads a 64-bit number: `None` where the text is none, or is too large.
pub fn parse_u64(s: &str) -> (r: Option<u64>)
    ensures
        r == parsed_u64(s@),
{
    let len: usize = s.unicode_len();
    let start: usize = if len > 0 && s.get_char(0) == '+' {
        1
    } else {
        0
    };
    let ghost d = unsigned_part(s@);
    assert(d =~= s@.skip(start as int));
    if start == len {
        return None;
    }
    let mut acc: u64 = 0;
    let mut i: usize = start;
    assert(d.take(0) =~= Seq::<char>::empty());
    while i < len
        invariant
            len == s@.len(),
            start <= i <= len,
            start < len,
            d == s@.skip(start as int),
            d == unsigned_part(s@),
            all_digits(d.take(i - start)),
            acc == digits_value(d.take(i - start)),
        decreases len - i,
    {
        let c = s.get_char(i);
        assert(c == d[i - start]);
        if !(c >= '0' && c <= '9') {
            assert(!all_digits(d));
            return None;
        }
        let v: u64 = c as u64 - 48;
        assert(d.take(i - start + 1).drop_last() =~= d.take(i - start));
        assert(digits_value(d.take(i - start + 1)) == acc * 10 + v);
        proof {
            lemma_value_grows(d, i - start + 1);
        }
        match acc.checked_mul(10) {
            None => {
                return None;
            },
            Some(m) => match m.checked_add(v) {
                None => {
                    return None;
                },
                Some(n) => {
                    acc = n;
                },
            },
        }
        assert forall|k: int| 0 <= k < i - start + 1 implies is_digit(
            #[trigger] d.take(i - start + 1)[k],
        ) by {
            if k < i - start {
                assert(d.take(i - start)[k] == d[k]);
            }
        }
        i = i + 1;
    }
    assert(d.take(len - start) =~= d);
    Some(acc)
}

/// The first characters of an identifier, at most ten of them.
pub fn short_id(id: &str) -> (r: String)
    ensures
        r@ == shortened(id@),
{
    let len: usize = id.unicode_len();
    if len <= SHORT_ID_LEN {
        id.to_owned()
    } else {
        id.substring_char(0, SHORT_ID_LEN).to_owned()
    }
}

/// `s`, filled up with spaces on the right to `width` characters.
pub fn pad_right(s: &str, width: usize) -> (r: String)
    ensures
        r@ == padded(s@, width as nat),
{
    proof {
        reveal_strlit(" ");
    }
    let mut n: usize = s.unicode_len();
    let mut out = s.to_owned();
    while n < width
        invariant
            s@.len() <= n,
            n <= width || n == s@.len(),
            out@ =~= s@ + Seq::new((n - s@.len()) as nat, |i: int| ' '),
            " "@ =~= seq![' '],
        decreases width - n,
    {
        out.append(" ");
        n = n + 1;
    }
    assert(out@ =~= padded(s@, width as nat));
    out
}

/// `s` without the slashes that it ends in.
pub fn trim_end_slashes(s: &str) -> (r: String)
    ensures
        r@ == without_end_slashes(s@),
{
    let mut end: usize = s.unicode_len();
    assert(s@.take(end as int) =~= s@);
    while end > 0 && s.get_char(end - 1) == '/'
        invariant
            end <= s@.len(),
            without_end_slashes(s@.take(end as int)) == without_end_slashes(s@),
        ensures
            end <= s@.len(),
            without_end_slashes(s@.take(end as int)) == without_end_slashes(s@),
            end == 0 || s@[end - 1] != '/',
        decreases end,
    {
        assert(s@.take(end as int).drop_last() =~= s@.take(end - 1));
        end = end - 1;
    }
    s.substring_char(0, end).to_owned()
}

/// Whether two slices hold the same bytes.
pub fn same_bytes(a: &[u8], b: &[u8]) -> (r: bool)
    ensures
        r == (a@ == b@),
{
    if a.len() != b.len() {
        return false;
    }
    let mut i: usize = 0;
    while i < a.len()
        invariant
            a@.len() == b@.len(),
            i <= a@.len(),
            forall|k: int| 0 <= k < i ==> a@[k] == b@[k],
        decreases a@.len() - i,
    {
        if a[i] != b[i] {
            return false;
        }
        i = i + 1;
    }
    assert(a@ =~= b@);
    true
}

/// Two slices, one behind the other.
pub fn joined(a: &[u8], b: &[u8]) -> (r: Vec<u8>)
    ensures
        r@ == a@ + b@,
{
    let mut out: Vec<u8> = Vec::new();
    out.extend_from_slice(a);
    out.extend_from_slice(b);
    assert(out@ =~= a@ + b@);
    out
}

/// The text that bytes stand for.
pub fn readable_text(bytes: &[u8]) -> (r: String)
    ensures
        r@ == readable(bytes@),
{
    from_utf8_lossy(bytes)
}

/// A list of texts in brackets, each quoted.
pub fn quote_list(items: &Vec<String>) -> (r: String)
    ensures
        r@ == quoted_list(items.deep_view()),
{
    let ghost all = items.deep_view();
    let mut out = String::new();
    let mut i: usize = 0;
    while i < items.len()
        invariant
            i <= items@.len(),
            all == items.deep_view(),
            out@ == quoted_items(all.take(i as int)),
        decreases items@.len() - i,
    {
        assert(all.take(i + 1).drop_last() =~= all.take(i as int));
        assert(all[i as int] == items@[i as int]@);
        if i > 0 {
            out = out.concat(", ");
        }
        out = out.concat(quote(items[i].as_str()).as_str());
        assert(out@ =~= quoted_items(all.take(i + 1)));
        i = i + 1;
    }
    assert(all.take(i as int) =~= all);
    "[".to_owned().concat(out.as_str()).concat("]")
}

proof fn lemma_decimal_digits(n: nat)
    ensures
        decimal(n).len() > 0,
        all_digits(decimal(n)),
        digits_value(decimal(n)) == n,
    decreases n,
{
    let s = decimal(n);
    if n < 10 {
        assert(digits_value(s.drop_last()) == 0);
        assert(s.last() as nat == 48 + n);
    } else {
        lemma_decimal_digits(n / 10);
        assert(s.drop_last() =~= decimal(n / 10));
        assert(s.last() as nat == 48 + n % 10);
        assert forall|i: int| 0 <= i < s.len() implies is_digit(#[trigger] s[i]) by {
            if i < s.len() - 1 {
                assert(decimal(n / 10)[i] == s[i]);
            }
        }
    }
}

/// A number that is written in decimal is read back.
pub proof fn decimal_is_read_back(n: u64)
    ensures
        parsed_u64(decimal(n as nat)) == Some(n),
{
    lemma_decimal_digits(n as nat);
    assert(is_digit(decimal(n as nat)[0]));
}

/// Two numbers are written alike only if they are equal.
pub proof fn decimal_is_injective(m: nat, n: nat)
    requires
        decimal(m) == decimal(n),
    ensures
        m == n,
{
    lemma_decimal_digits(m);
    lemma_decimal_digits(n);
}

/// A plus sign before a number changes nothing, and two are no number.
pub proof fn one_plus_sign_is_skipped(s: Seq<char>)
    requires
        s.len() > 0,
        s[0] != '+',
    ensures
        parsed_u64(seq!['+'] + s) == parsed_u64(s),
        parsed_u64(seq!['+', '+'] + s) is None,
{
    assert((seq!['+'] + s).skip(1) =~= s);
    let d = (seq!['+', '+'] + s).skip(1);
    assert(d[0] == '+');
    assert(!all_digits(d));
}

/// A shortened identifier starts the identifier, has at most ten characters,
/// and is not shortened further.
pub proof fn short_id_is_a_start(id: Seq<char>)
    ensures
        shortened(id).len() <= SHORT_ID_LEN,
        shortened(id).is_prefix_of(id),
        shortened(shortened(id)) == shortened(id),
        id.len() <= SHORT_ID_LEN ==> shortened(id) == id,
{
}

/// Padding keeps the text, adds spaces only, and reaches the width.
pub proof fn padding_keeps_the_text(s: Seq<char>, width: nat)
    ensures
        s.is_prefix_of(padded(s, width)),
        padded(s, width).len() >= width,
        s.len() <= width ==> padded(s, width).len() == width,
        forall|i: int| s.len() <= i < padded(s, width).len() ==> padded(s, width)[i] == ' ',
{
}

/// However many slashes a text ends in, they make no difference to what is
/// left of it.
pub proof fn end_slashes_make_no_difference(s: Seq<char>, n: nat)
    ensures
        without_end_slashes(s + Seq::new(n, |i: int| '/')) == without_end_slashes(s),
    decreases n,
{
    let t = s + Seq::new(n, |i: int| '/');
    if n == 0 {
        assert(t =~= s);
    } else {
        end_slashes_make_no_difference(s, (n - 1) as nat);
        assert(t.drop_last() =~= s + Seq::new((n - 1) as nat, |i: int| '/'));
    }
}

/// What is left of a text without its end slashes starts the text, and does
/// not end in a slash.
pub proof fn no_end_slash_is_left(s: Seq<char>)
    ensures
        without_end_slashes(s).is_prefix_of(s),
        without_end_slashes(s).len() > 0 ==> without_end_slashes(s).last() != '/',
    decreases s.len(),
{
    if s.len() > 0 && s.last() == '/' {
        no_end_slash_is_left(s.drop_last());
    }
}

/// A text that was encoded is read as it was.
pub proof fn encoded_text_is_readable(s: Seq<char>)
    ensures
        readable(encode_utf8(s)) == s,
{
    encode_utf8_valid_utf8(s);
    encode_utf8_decode_utf8(s);
}

/// What a row of digits is worth, read from the left: ten times what stands
/// before the last digit, and the last digit.
pub open spec fn worth(s: Seq<char>) -> nat
    decreases s.len(),
{
    if s.len() == 0 {
        0
    } else {
        10 * worth(s.drop_last()) + (s.last() as nat - 48) as nat
    }
}

/// Whether a text is made of one or more of the digits from 0 to 9.
pub open spec fn made_of_digits(s: Seq<char>) -> bool {
    s.len() > 0 && forall|i: int| 0 <= i < s.len() ==> '0' <= #[trigger] s[i] <= '9'
}

/// What stands behind the plus sign that a text may start with.
pub open spec fn behind_plus(s: Seq<char>) -> Seq<char> {
    if s.len() > 0 && s[0] == '+' {
        s.skip(1)
    } else {
        s
    }
}

/// The first ten characters of a text, or all of it where it has fewer.
pub open spec fn first_ten(id: Seq<char>) -> Seq<char> {
    id.take(
        if id.len() < 10 {
            id.len() as int
        } else {
            10
        },
    )
}

proof fn lemma_worth(s: Seq<char>)
    ensures
        worth(s) == digits_value(s),
    decreases s.len(),
{
    if s.len() > 0 {
        lemma_worth(s.drop_last());
    }
}

/// A number is written with the digits from 0 to 9 alone, is worth what is
/// written, and starts with a zero only where it is zero.
pub proof fn decimal_is_the_shortest_row_of_digits(n: nat)
    ensures
        decimal(n).len() > 0,
        forall|i: int| 0 <= i < decimal(n).len() ==> '0' <= #[trigger] decimal(n)[i] <= '9',
        worth(decimal(n)) == n,
        decimal(n)[0] == '0' ==> decimal(n).len() == 1,
    decreases n,
{
    lemma_decimal_digits(n);
    lemma_worth(decimal(n));
    assert forall|i: int| 0 <= i < decimal(n).len() implies '0' <= #[trigger] decimal(n)[i]
        <= '9' by {
        assert(is_digit(decimal(n)[i]));
    }
    if n >= 10 {
        decimal_is_the_shortest_row_of_digits(n / 10);
        assert(decimal(n)[0] == decimal(n / 10)[0]);
        if decimal(n)[0] == '0' {
            let s = decimal(n / 10);
            assert(worth(s.drop_last()) == 0);
            assert(s.last() == '0');
            assert(worth(s) == 0);
        }
    }
}

/// A text is read as the number `n` exactly if it is made of one or more of the
/// digits from 0 to 9, behind at most one plus sign, and is worth `n`.
pub proof fn number_is_read_iff_written(s: Seq<char>, n: u64)
    ensures
        parsed_u64(s) == Some(n) <==> made_of_digits(behind_plus(s)) && worth(behind_plus(s)) == n,
{
    let d = unsigned_part(s);
    assert(d == behind_plus(s));
    lemma_worth(d);
    if made_of_digits(d) {
        assert(all_digits(d));
    }
    if all_digits(d) {
        assert forall|i: int| 0 <= i < d.len() implies '0' <= #[trigger] d[i] <= '9' by {
            assert(is_digit(d[i]));
        }
    }
}

/// Of an identifier, the first ten characters are shown, or all of a shorter
/// one.
pub proof fn short_id_is_the_first_ten(id: Seq<char>)
    ensures
        shortened(id) == first_ten(id),
        shortened(id).len() == if id.len() < 10 {
            id.len()
        } else {
            10
        },
        forall|i: int| 0 <= i < shortened(id).len() ==> #[trigger] shortened(id)[i] == id[i],
{
    assert(id.len() < 10 ==> first_ten(id) =~= id);
    assert(shortened(id) =~= first_ten(id));
}

/// A padded text is the text and as many spaces as it is short of the width.
pub proof fn padding_adds_what_is_missing(s: Seq<char>, width: nat)
    ensures
        padded(s, width).len() == if s.len() < width {
            width
        } else {
            s.len()
        },
        forall|i: int| 0 <= i < s.len() ==> #[trigger] padded(s, width)[i] == s[i],
        forall|i: int| s.len() <= i < padded(s, width).len() ==> padded(s, width)[i] == ' ',
{
}

/// What is cut off a text is slashes alone: the text is what is left of it and
/// some slashes, and what is left ends in none.
pub proof fn only_slashes_are_cut(s: Seq<char>)
    ensures
        without_end_slashes(s).len() <= s.len(),
        forall|i: int|
            0 <= i < without_end_slashes(s).len() ==> #[trigger] without_end_slashes(s)[i] == s[i],
        forall|i: int| without_end_slashes(s).len() <= i < s.len() ==> #[trigger] s[i] == '/',
        without_end_slashes(s).len() > 0 ==> without_end_slashes(s).last() != '/',
    decreases s.len(),
{
    if s.len() > 0 && s.last() == '/' {
        let head = s.drop_last();
        only_slashes_are_cut(head);
        assert forall|i: int| without_end_slashes(s).len() <= i < s.len() implies #[trigger] s[i]
            == '/' by {
            if i < head.len() {
                assert(head[i] == s[i]);
            }
        }
        assert forall|i: int|
            0 <= i < without_end_slashes(s).len() implies #[trigger] without_end_slashes(s)[i]
            == s[i] by {
            assert(head[i] == s[i]);
        }
    }
}

/// Bytes read as the text that they encode, where they encode one, and else as
/// they read with the parts that are not UTF-8 replaced.
pub proof fn bytes_read_as_what_they_encode(bytes: Seq<u8>, text: Seq<char>)
    ensures
        bytes == encode_utf8(text) ==> readable(bytes) == text,
        !valid_utf8(bytes) ==> readable(bytes) == lossy_text(bytes),
{
    encoded_text_is_readable(text);
}

/// A list is shown in brackets, with each item quoted, in order, and a comma and
/// a space between two of them.
pub proof fn list_shows_every_item(items: Seq<Seq<char>>, item: Seq<char>)
    ensures
        quoted_list(Seq::empty()) == "[]"@,
        quoted_list(seq![item]) == "["@ + quoted(item) + "]"@,
        items.len() > 0 ==> quoted_list(items.push(item)) == quoted_list(items).drop_last()
            + ", "@ + quoted(item) + "]"@,
{
    reveal_strlit("[");
    reveal_strlit("]");
    reveal_strlit("[]");
    reveal_strlit(", ");
    assert(quoted_list(Seq::empty()) =~= "[]"@);
    assert(quoted_list(seq![item]) =~= "["@ + quoted(item) + "]"@);
    if items.len() > 0 {
        assert(items.push(item).drop_last() =~= items);
        assert(quoted_list(items.push(item)) =~= quoted_list(items).drop_last() + ", "@ + quoted(
            item,
        ) + "]"@);
    }
}

} // verus!
