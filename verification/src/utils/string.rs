//! Small operations on text.

use vstd::prelude::*;
use vstd::string::*;
use vstd::utf8::{decode_utf8, valid_utf8};

verus! {

/// Whether `c` is one of the ten decimal digits.
pub open spec fn spec_is_decimal_digit(c: char) -> bool {
    '0' <= c <= '9'
}

/// Whether `text` begins with the character `c`.
pub open spec fn spec_starts_with(text: Seq<char>, c: char) -> bool {
    text.len() > 0 && text[0] == c
}

/// Whether `c` is one of the ten decimal digits.
#[verifier::when_used_as_spec(spec_is_decimal_digit)]
pub fn is_decimal_digit(c: char) -> (b: bool)
    ensures
        b == spec_is_decimal_digit(c),
{
    '0' <= c && c <= '9'
}

/// The first character of `text`, if it has one.
pub fn first_char(text: &str) -> (c: Option<char>)
    ensures
        c is None <==> text@.len() == 0,
        c is Some ==> c->0 == text@[0],
{
    if text.is_empty() {
        None
    } else {
        Some(text.get_char(0))
    }
}

/// Whether `text` begins with the character `c`.
pub fn starts_with(text: &str, c: char) -> (b: bool)
    ensures
        b == spec_starts_with(text@, c),
{
    match first_char(text) {
        Some(first) => first == c,
        None => false,
    }
}

/// Whether two texts hold the same characters.
pub fn same_text(a: &str, b: &str) -> (same: bool)
    ensures
        same == (a@ == b@),
{
    String::from_str(a) == String::from_str(b)
}

/// The bytes of the characters of `slice` that are not 0, in their order.
pub open spec fn nonzero_bytes(slice: Seq<i8>) -> Seq<u8>
    decreases slice.len(),
{
    if slice.len() == 0 {
        Seq::empty()
    } else if slice.last() != 0 {
        nonzero_bytes(slice.drop_last()).push(slice.last() as u8)
    } else {
        nonzero_bytes(slice.drop_last())
    }
}

/// The text that `bytes` hold in UTF-8, if they hold one.
///
/// This is `String::from_utf8` of the standard library, which gives back
/// the string made of the bytes it is handed if they are valid UTF-8, and
/// an error otherwise.
#[verifier::external_body]
fn string_from_utf8(bytes: Vec<u8>) -> (text: Option<String>)
    ensures
        text is Some <==> valid_utf8(bytes@),
        text is Some ==> text->0@ == decode_utf8(bytes@),
{
    match String::from_utf8(bytes) {
        Ok(text) => Some(text),
        Err(_) => None,
    }
}

/// The text in a buffer of characters of the host, in which a 0 stands for
/// no character: the text that the other bytes hold in UTF-8, or the empty
/// text where they hold none.
pub fn from_char_slice(slice: &[i8]) -> (text: String)
    ensures
        text@ == if valid_utf8(nonzero_bytes(slice@)) {
            decode_utf8(nonzero_bytes(slice@))
        } else {
            Seq::<char>::empty()
        },
{
    let mut bytes: Vec<u8> = Vec::new();
    let mut i: usize = 0;
    proof {
        assert(slice@.take(0) =~= Seq::empty());
    }
    while i < slice.len()
        invariant
            i <= slice@.len(),
            bytes@ == nonzero_bytes(slice@.take(i as int)),
        decreases slice@.len() - i,
    {
        proof {
            assert(slice@.take(i + 1).drop_last() =~= slice@.take(i as int));
            assert(slice@.take(i + 1).last() == slice@[i as int]);
        }
        let x = slice[i];
        if x != 0 {
            bytes.push(#[verifier::truncate] (x as u8));
        }
        i += 1;
    }
    proof {
        assert(slice@.take(slice@.len() as int) =~= slice@);
    }
    match string_from_utf8(bytes) {
        Some(text) => text,
        None => String::new(),
    }
}

} // verus!
