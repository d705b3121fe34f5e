//! Text: comparing, ordering, copying and trimming.

use vstd::prelude::*;

verus! {

/// The view of an optional text.
pub open spec fn optional_text(text: Option<String>) -> Option<Seq<char>> {
    match text {
        Some(inner) => Some(inner@),
        None => None,
    }
}

/// The view of an optional borrowed text.
pub open spec fn optional_str(text: Option<&str>) -> Option<Seq<char>> {
    match text {
        Some(inner) => Some(inner@),
        None => None,
    }
}

/// The view of optional borrowed bytes.
pub open spec fn optional_bytes(bytes: Option<&Vec<u8>>) -> Option<Seq<u8>> {
    match bytes {
        Some(inner) => Some(inner@),
        None => None,
    }
}

/// The views of a list of texts.
pub open spec fn texts(list: Seq<String>) -> Seq<Seq<char>> {
    Seq::new(list.len(), |i: int| list[i]@)
}

/// Whether `a` comes before `b` where texts are ordered by their characters'
/// code points, a proper prefix first.
pub open spec fn text_before(a: Seq<char>, b: Seq<char>) -> bool
    decreases a.len(),
{
    if b.len() == 0 {
        false
    } else if a.len() == 0 {
        true
    } else if a[0] != b[0] {
        (a[0] as u32) < (b[0] as u32)
    } else {
        text_before(a.skip(1), b.skip(1))
    }
}

/// Whether `c` has Unicode's White_Space property.
pub open spec fn is_space(c: char) -> bool {
    let code = c as u32;
    ||| 0x09 <= code <= 0x0d
    ||| code == 0x20
    ||| code == 0x85
    ||| code == 0xa0
    ||| code == 0x1680
    ||| 0x2000 <= code <= 0x200a
    ||| code == 0x2028
    ||| code == 0x2029
    ||| code == 0x202f
    ||| code == 0x205f
    ||| code == 0x3000
}

/// `text` without the white space in front.
pub open spec fn trimmed_front(text: Seq<char>) -> Seq<char>
    decreases text.len(),
{
    if text.len() > 0 && is_space(text[0]) {
        trimmed_front(text.skip(1))
    } else {
        text
    }
}

/// `text` without the white space at the end.
pub open spec fn trimmed_back(text: Seq<char>) -> Seq<char>
    decreases text.len(),
{
    if text.len() > 0 && is_space(text.last()) {
        trimmed_back(text.drop_last())
    } else {
        text
    }
}

/// `text` without the white space at either end.
pub open spec fn trimmed(text: Seq<char>) -> Seq<char> {
    trimmed_back(trimmed_front(text))
}

/// The number of bytes of a text in UTF-8.
pub open spec fn byte_count(text: Seq<char>) -> nat {
    vstd::utf8::encode_utf8(text).len()
}

/// The text that bytes hold in UTF-8, or nothing where they are not UTF-8.
pub open spec fn utf8_text(bytes: Seq<u8>) -> Option<Seq<char>> {
    if vstd::utf8::valid_utf8(bytes) {
        Some(vstd::utf8::decode_utf8(bytes))
    } else {
        None
    }
}

/// `==` of std on `str`: true exactly when both hold the same characters.
#[verifier::external_body]
pub(crate) fn same(a: &str, b: &str) -> (equal: bool)
    ensures
        equal == (a@ == b@),
{
    a == b
}

/// `<` of std on `str`: strings are ordered lexicographically by their bytes,
/// which orders them by their characters' code points.
#[verifier::external_body]
pub(crate) fn before(a: &str, b: &str) -> (less: bool)
    ensures
        less == text_before(a@, b@),
{
    a < b
}

/// `str::starts_with` of std with a text to look for: true exactly when the
/// text begins with those characters.
#[verifier::external_body]
pub(crate) fn begins_with(text: &str, start: &str) -> (yes: bool)
    ensures
        yes == start@.is_prefix_of(text@),
{
    text.starts_with(start)
}

/// `str::trim` of std: the text without leading and trailing white space, as
/// Unicode's White_Space property has it.
#[verifier::external_body]
pub(crate) fn trim(text: &str) -> (inner: &str)
    ensures
        inner@ == trimmed(text@),
{
    text.trim()
}

/// `String::from_utf8` of std: the text that the bytes hold, where they are
/// UTF-8.
#[verifier::external_body]
pub(crate) fn decode(bytes: Vec<u8>) -> (text: Option<String>)
    ensures
        optional_text(text) == utf8_text(bytes@),
{
    String::from_utf8(bytes).ok()
}

/// The number of bytes of a text.
pub fn byte_len(text: &str) -> (length: usize)
    ensures
        length == byte_count(text@),
{
    text.as_bytes().len()
}

/// A copy of a list of bytes.
pub fn copy_bytes(bytes: &Vec<u8>) -> (copy: Vec<u8>)
    ensures
        copy@ == bytes@,
{
    let mut copy: Vec<u8> = Vec::new();
    let mut i: usize = 0;
    while i < bytes.len()
        invariant
            i <= bytes@.len(),
            copy@ == bytes@.take(i as int),
        decreases bytes@.len() - i,
    {
        copy.push(bytes[i]);
        proof {
            assert(bytes@.take(i + 1) =~= bytes@.take(i as int).push(bytes@[i as int]));
        }
        i = i + 1;
    }
    proof {
        assert(bytes@.take(i as int) =~= bytes@);
    }
    copy
}

/// Whether two lists hold the same bytes.
pub fn same_bytes(a: &Vec<u8>, b: &Vec<u8>) -> (equal: bool)
    ensures
        equal == (a@ == b@),
{
    if a.len() != b.len() {
        return false;
    }
    let mut i: usize = 0;
    while i < a.len()
        invariant
            i <= a@.len(),
            a@.len() == b@.len(),
            forall|j: int| 0 <= j < i ==> a@[j] == b@[j],
        decreases a@.len() - i,
    {
        if a[i] != b[i] {
            return false;
        }
        i = i + 1;
    }
    proof {
        assert(a@ =~= b@);
    }
    true
}

/// The decimal digits of a number.
pub open spec fn digits(n: nat) -> Seq<char>
    decreases n,
{
    if n < 10 {
        seq![crate::ids::hex_digit(n as int)]
    } else {
        digits(n / 10).push(crate::ids::hex_digit((n % 10) as int))
    }
}

/// A number in decimal, with a leading minus where it is negative.
pub open spec fn decimal(n: i64) -> Seq<char> {
    if n < 0 {
        seq!['-'] + digits((-n) as nat)
    } else {
        digits(n as nat)
    }
}

/// Append the decimal digits of a number.
pub fn append_digits(text: &mut String, n: u64)
    ensures
        final(text)@ == old(text)@ + digits(n as nat),
    decreases n,
{
    let ghost start = text@;
    if n < 10 {
        let digit = crate::ids::digit_text(n as u8);
        text.append(digit);
    } else {
        append_digits(text, n / 10);
        let digit = crate::ids::digit_text((n % 10) as u8);
        text.append(digit);
        proof {
            assert(start + digits(n as nat) =~= (start + digits((n / 10) as nat)) + seq![
                crate::ids::hex_digit((n % 10) as int),
            ]);
        }
    }
}

/// Append a number in decimal.
pub fn append_decimal(text: &mut String, n: i64)
    ensures
        final(text)@ == old(text)@ + decimal(n),
{
    if n >= 0 {
        append_digits(text, n as u64);
    } else {
        let ghost start = text@;
        proof {
            reveal_strlit("-");
            assert("-"@ =~= seq!['-']);
        }
        text.append("-");
        let positive: u64 = if n == i64::MIN {
            9_223_372_036_854_775_808
        } else {
            (-n) as u64
        };
        append_digits(text, positive);
        proof {
            assert(start + decimal(n) =~= (start + seq!['-']) + digits(positive as nat));
        }
    }
}

/// An owned copy of an optional borrowed text.
pub fn own(text: Option<&str>) -> (copy: Option<String>)
    ensures
        optional_text(copy) == optional_str(text),
{
    match text {
        Some(inner) => Some(inner.to_owned()),
        None => None,
    }
}

/// A copy of an optional text.
pub fn copy_optional(text: &Option<String>) -> (copy: Option<String>)
    ensures
        optional_text(copy) == optional_text(*text),
{
    match text {
        Some(inner) => Some(inner.clone()),
        None => None,
    }
}

/// A copy of a list of texts.
pub fn copy_texts(list: &Vec<String>) -> (copy: Vec<String>)
    ensures
        texts(copy@) == texts(list@),
{
    let mut copy: Vec<String> = Vec::new();
    let mut i: usize = 0;
    while i < list.len()
        invariant
            i <= list@.len(),
            copy@.len() == i,
            forall|j: int| 0 <= j < i ==> (#[trigger] copy@[j])@ == list@[j]@,
        decreases list@.len() - i,
    {
        copy.push(list[i].clone());
        i = i + 1;
    }
    proof {
        assert(texts(copy@) =~= texts(list@));
    }
    copy
}

/// Whether an optional text is present and holds the given characters.
pub fn is_text(text: &Option<String>, expected: &str) -> (equal: bool)
    ensures
        equal == (optional_text(*text) == Some(expected@)),
{
    match text {
        Some(inner) => same(inner, expected),
        None => false,
    }
}

/// Whether two optional texts are both absent or hold the same characters.
pub fn same_optional(a: &Option<String>, b: &Option<String>) -> (equal: bool)
    ensures
        equal == (optional_text(*a) == optional_text(*b)),
{
    match (a, b) {
        (Some(x), Some(y)) => same(x, y),
        (None, None) => true,
        _ => false,
    }
}

/// Whether two lists hold the same texts in the same order.
pub fn same_texts(a: &Vec<String>, b: &Vec<String>) -> (equal: bool)
    ensures
        equal == (texts(a@) == texts(b@)),
{
    let ghost av = texts(a@);
    let ghost bv = texts(b@);
    if a.len() != b.len() {
        proof {
            assert(av.len() != bv.len());
        }
        return false;
    }
    let mut i: usize = 0;
    while i < a.len()
        invariant
            i <= a@.len(),
            a@.len() == b@.len(),
            av == texts(a@),
            bv == texts(b@),
            forall|j: int| 0 <= j < i ==> #[trigger] av[j] == bv[j],
        decreases a@.len() - i,
    {
        if !same(&a[i], &b[i]) {
            proof {
                assert(av[i as int] != bv[i as int]);
            }
            return false;
        }
        i = i + 1;
    }
    proof {
        assert(av =~= bv);
    }
    true
}

/// Whether a list holds a text.
pub fn holds_text(list: &Vec<String>, wanted: &str) -> (found: bool)
    ensures
        found == texts(list@).contains(wanted@),
{
    let ghost lv = texts(list@);
    let mut i: usize = 0;
    while i < list.len()
        invariant
            i <= list@.len(),
            lv == texts(list@),
            forall|j: int| 0 <= j < i ==> #[trigger] lv[j] != wanted@,
        decreases list@.len() - i,
    {
        if same(&list[i], wanted) {
            proof {
                assert(lv[i as int] == wanted@);
            }
            return true;
        }
        i = i + 1;
    }
    false
}

} // verus!
