//! Text records: lists whose items a separator sets apart.

use vstd::prelude::*;
use vstd::string::StringSliceAdditionalSpecFns;
use vstd::utf8::is_char_boundary;

verus! {

/// The place of the first `byte` in a text; the length of a text without one.
pub open spec fn first_of(text: Seq<u8>, byte: u8) -> int
    decreases text.len(),
{
    if text.len() == 0 || text[0] == byte {
        0
    } else {
        1 + first_of(text.skip(1), byte)
    }
}

/// Before its first place the byte does not occur in the text, and at that
/// place it does, unless the text is without one.
pub proof fn lemma_first_of(text: Seq<u8>, byte: u8)
    ensures
        0 <= first_of(text, byte) <= text.len(),
        forall|i: int| 0 <= i < first_of(text, byte) ==> text[i] != byte,
        first_of(text, byte) < text.len() ==> text[first_of(text, byte)] == byte,
    decreases text.len(),
{
    if text.len() > 0 && text[0] != byte {
        lemma_first_of(text.skip(1), byte);
        assert forall|i: int| 0 <= i < first_of(text, byte) implies text[i] != byte by {
            if i > 0 {
                assert(text.skip(1)[i - 1] == text[i]);
            }
        }
    }
}

/// The first place of a byte is the only place that holds the byte and has
/// none before it.
pub proof fn lemma_first_of_is(text: Seq<u8>, byte: u8, at: int)
    requires
        0 <= at <= text.len(),
        forall|i: int| 0 <= i < at ==> text[i] != byte,
        at < text.len() ==> text[at] == byte,
    ensures
        first_of(text, byte) == at,
{
    lemma_first_of(text, byte);
}

/// The items of a record: what stands before the first separator, then the
/// items of what stands behind it. A text without a separator is one item,
/// an empty text too.
pub open spec fn pieces(text: Seq<u8>, separator: u8) -> Seq<Seq<u8>>
    decreases text.len(),
{
    let at = first_of(text, separator);
    if at < 0 || at >= text.len() {
        seq![text]
    } else {
        seq![text.take(at)] + pieces(text.skip(at + 1), separator)
    }
}

/// The bytes of each text.
pub open spec fn bytes_of(texts: Seq<&str>) -> Seq<Seq<u8>> {
    texts.map_values(|text: &str| text.spec_bytes())
}

/// Find the first `byte` in `text`: its place, or the length of the text.
pub fn find(text: &[u8], byte: u8) -> (at: usize)
    ensures
        at == first_of(text@, byte),
        at <= text@.len(),
{
    let mut at: usize = 0;
    while at < text.len() && text[at] != byte
        invariant
            at <= text@.len(),
            forall|i: int| 0 <= i < at ==> text@[i] != byte,
        decreases text.len() - at,
    {
        at += 1;
    }
    proof {
        lemma_first_of_is(text@, byte, at as int);
    }
    at
}

/// Cut a text in two at the byte at `at`, which must be an ASCII one: what
/// stands before that byte, and what stands behind it.
pub fn cut(text: &str, at: usize) -> (parts: (&str, &str))
    requires
        at < text.spec_bytes().len(),
        text.spec_bytes()[at as int] < 0x80,
    ensures
        parts.0.spec_bytes() == text.spec_bytes().take(at as int),
        parts.1.spec_bytes() == text.spec_bytes().skip(at + 1),
{
    let ghost all = text.spec_bytes();
    proof {
        vstd::utf8::encode_utf8_valid_utf8(text@);
        vstd::utf8::is_char_boundary_iff_not_is_continuation_byte(all, at as int);
    }
    let (before, rest) = text.split_at(at);
    proof {
        vstd::utf8::encode_utf8_valid_utf8(rest@);
        assert(rest.spec_bytes()[0] == all[at as int]);
        reveal_with_fuel(is_char_boundary, 2);
        assert(vstd::utf8::length_of_first_scalar(rest.spec_bytes()) == 1);
        assert(is_char_boundary(rest.spec_bytes(), 1));
    }
    let (_, behind) = rest.split_at(1);
    assert(before.spec_bytes() =~= all.take(at as int));
    assert(behind.spec_bytes() =~= all.skip(at + 1));
    (before, behind)
}

/// Split a record into its items at every `separator`, which must be an
/// ASCII byte.
pub fn split(text: &str, separator: u8) -> (items: Vec<&str>)
    requires
        separator < 0x80,
    ensures
        bytes_of(items@) == pieces(text.spec_bytes(), separator),
        items@.len() >= 1,
{
    let mut items: Vec<&str> = Vec::new();
    let mut rest: &str = text;
    loop
        invariant
            separator < 0x80,
            bytes_of(items@) + pieces(rest.spec_bytes(), separator) == pieces(
                text.spec_bytes(),
                separator,
            ),
        decreases rest.spec_bytes().len(),
    {
        let bytes = rest.as_bytes();
        let at = find(bytes, separator);
        proof {
            lemma_first_of(rest.spec_bytes(), separator);
        }
        if at >= bytes.len() {
            let ghost before = bytes_of(items@);
            items.push(rest);
            assert(bytes_of(items@) =~= before + seq![rest.spec_bytes()]);
            assert(pieces(rest.spec_bytes(), separator) == seq![rest.spec_bytes()]);
            return items;
        }
        let (item, behind) = cut(rest, at);
        let ghost before = bytes_of(items@);
        items.push(item);
        proof {
            assert(bytes_of(items@) =~= before + seq![item.spec_bytes()]);
            assert(pieces(rest.spec_bytes(), separator) == seq![item.spec_bytes()] + pieces(
                behind.spec_bytes(),
                separator,
            ));
            assert(bytes_of(items@) + pieces(behind.spec_bytes(), separator) =~= before + pieces(
                rest.spec_bytes(),
                separator,
            ));
        }
        rest = behind;
    }
}

/// Whether `text` begins with `prefix`.
pub open spec fn begins_with(text: Seq<u8>, prefix: Seq<u8>) -> bool {
    prefix.len() <= text.len() && text.take(prefix.len() as int) == prefix
}

/// Whether `text` begins with `prefix`.
pub fn starts_with(text: &[u8], prefix: &[u8]) -> (begins: bool)
    ensures
        begins == begins_with(text@, prefix@),
{
    if prefix.len() > text.len() {
        return false;
    }
    let mut i: usize = 0;
    while i < prefix.len()
        invariant
            i <= prefix@.len(),
            prefix@.len() <= text@.len(),
            forall|j: int| 0 <= j < i ==> text@[j] == prefix@[j],
        decreases prefix.len() - i,
    {
        if text[i] != prefix[i] {
            assert(text@.take(prefix@.len() as int)[i as int] != prefix@[i as int]);
            return false;
        }
        i += 1;
    }
    assert(text@.take(prefix@.len() as int) =~= prefix@);
    true
}

/// Whether two texts are the same.
pub fn same(a: &[u8], b: &[u8]) -> (same: bool)
    ensures
        same == (a@ == b@),
{
    if a.len() != b.len() {
        return false;
    }
    let begins = starts_with(a, b);
    assert(a@.take(b@.len() as int) =~= a@);
    begins
}

/// The byte that stands between the key and the value of a field.
pub const EQUALS: u8 = 0x3d;

/// Whether an item is a field: it holds a `=`.
pub open spec fn is_field(item: Seq<u8>) -> bool {
    first_of(item, EQUALS) < item.len()
}

/// The key of a field: what stands before the first `=`.
pub open spec fn key_of(item: Seq<u8>) -> Seq<u8> {
    item.take(first_of(item, EQUALS))
}

/// The value of a field: what stands behind the first `=`.
pub open spec fn value_of(item: Seq<u8>) -> Seq<u8> {
    item.skip(first_of(item, EQUALS) + 1)
}

/// The values of the fields with the key `key`, in the order of the items.
pub open spec fn values(items: Seq<Seq<u8>>, key: Seq<u8>) -> Seq<Seq<u8>>
    decreases items.len(),
{
    if items.len() == 0 {
        Seq::empty()
    } else if is_field(items.last()) && key_of(items.last()) == key {
        values(items.drop_last(), key).push(value_of(items.last()))
    } else {
        values(items.drop_last(), key)
    }
}

/// Take an item apart as a field: its key and its value, or nothing for an
/// item without a `=`.
pub fn field(item: &str) -> (parts: Option<(&str, &str)>)
    ensures
        match parts {
            Some(parts) => is_field(item.spec_bytes()) && parts.0.spec_bytes() == key_of(
                item.spec_bytes(),
            ) && parts.1.spec_bytes() == value_of(item.spec_bytes()),
            None => !is_field(item.spec_bytes()),
        },
{
    let bytes = item.as_bytes();
    let at = find(bytes, EQUALS);
    if at >= bytes.len() {
        return None;
    }
    proof {
        lemma_first_of(item.spec_bytes(), EQUALS);
    }
    Some(cut(item, at))
}

} // verus!
