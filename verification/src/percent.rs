//! Percent-encoding of text for use as one component of a URL.

use vstd::prelude::*;
use vstd::utf8::{encode_utf8, is_ascii_chars, is_ascii_chars_encode_utf8};

verus! {

/// The bytes that are written as they are: ASCII letters, digits and
/// `-`, `.`, `_`, `~`.
pub open spec fn is_unreserved(b: u8) -> bool {
    ||| 0x30 <= b <= 0x39
    ||| 0x41 <= b <= 0x5A
    ||| 0x61 <= b <= 0x7A
    ||| b == 0x2D
    ||| b == 0x2E
    ||| b == 0x5F
    ||| b == 0x7E
}

/// The upper-case hexadecimal digit for a value below sixteen.
pub open spec fn hex_digit(n: nat) -> char
    recommends
        n < 16,
{
    if n < 10 {
        ((0x30 + n) as u8) as char
    } else {
        ((0x41 + n - 10) as u8) as char
    }
}

/// What one byte becomes: itself where it is unreserved, else `%` and its
/// two hexadecimal digits.
pub open spec fn escape_byte(b: u8) -> Seq<char> {
    if is_unreserved(b) {
        seq![b as char]
    } else {
        seq!['%', hex_digit((b / 16) as nat), hex_digit((b % 16) as nat)]
    }
}

/// The escapes of all bytes, in order.
pub open spec fn percent_encode_bytes(bytes: Seq<u8>) -> Seq<char>
    decreases bytes.len(),
{
    if bytes.len() == 0 {
        Seq::empty()
    } else {
        percent_encode_bytes(bytes.drop_last()) + escape_byte(bytes.last())
    }
}

/// The percent-encoding of a text: that of its UTF-8 bytes.
pub open spec fn percent_encode(text: Seq<char>) -> Seq<char> {
    percent_encode_bytes(encode_utf8(text))
}

/// The characters that an encoded text can hold.
pub open spec fn is_encoded_char(c: char) -> bool {
    ||| '0' <= c <= '9'
    ||| 'A' <= c <= 'Z'
    ||| 'a' <= c <= 'z'
    ||| c == '-'
    ||| c == '.'
    ||| c == '_'
    ||| c == '~'
    ||| c == '%'
}

/// An encoded text holds nothing but unreserved characters and `%`: no
/// `&`, `=`, `?`, `*` or space survives in it.
pub proof fn lemma_encoded_alphabet(bytes: Seq<u8>)
    ensures
        forall|i: int|
            0 <= i < percent_encode_bytes(bytes).len() ==> is_encoded_char(
                #[trigger] percent_encode_bytes(bytes)[i],
            ),
    decreases bytes.len(),
{
    if bytes.len() > 0 {
        lemma_encoded_alphabet(bytes.drop_last());
        let b = bytes.last();
        let e = escape_byte(b);
        let head = percent_encode_bytes(bytes.drop_last());
        assert forall|j: int| 0 <= j < e.len() implies is_encoded_char(#[trigger] e[j]) by {
            if !is_unreserved(b) {
                assert(is_encoded_char(hex_digit((b / 16) as nat)));
                assert(is_encoded_char(hex_digit((b % 16) as nat)));
            }
        }
        assert forall|i: int| 0 <= i < (head + e).len() implies is_encoded_char(
            #[trigger] (head + e)[i],
        ) by {
            if i >= head.len() {
                assert((head + e)[i] == e[i - head.len()]);
            } else {
                assert((head + e)[i] == head[i]);
            }
        }
    }
}

/// Unreserved bytes are copied one for one.
pub proof fn lemma_unreserved_bytes_unchanged(bytes: Seq<u8>)
    requires
        forall|i: int| 0 <= i < bytes.len() ==> is_unreserved(#[trigger] bytes[i]),
    ensures
        percent_encode_bytes(bytes) == Seq::new(bytes.len(), |i: int| bytes[i] as char),
    decreases bytes.len(),
{
    if bytes.len() > 0 {
        let front = bytes.drop_last();
        lemma_unreserved_bytes_unchanged(front);
        assert(is_unreserved(bytes[bytes.len() - 1]));
        assert(percent_encode_bytes(front) + escape_byte(bytes.last()) =~= Seq::new(
            bytes.len(),
            |i: int| bytes[i] as char,
        ));
    } else {
        assert(percent_encode_bytes(bytes) =~= Seq::new(bytes.len(), |i: int| bytes[i] as char));
    }
}

/// A text of ASCII letters, digits and `-`, `.`, `_`, `~` is its own
/// encoding.
pub proof fn lemma_unreserved_text_unchanged(text: Seq<char>)
    requires
        forall|i: int|
            0 <= i < text.len() ==> is_encoded_char(#[trigger] text[i]) && text[i] != '%',
    ensures
        percent_encode(text) == text,
{
    assert(is_ascii_chars(text));
    is_ascii_chars_encode_utf8(text);
    let bytes = encode_utf8(text);
    assert forall|i: int| 0 <= i < bytes.len() implies is_unreserved(#[trigger] bytes[i]) by {
        assert(is_encoded_char(text[i]));
        assert(bytes[i] == text[i] as u8);
    }
    lemma_unreserved_bytes_unchanged(bytes);
    assert(percent_encode(text) =~= text) by {
        assert forall|i: int| 0 <= i < text.len() implies bytes[i] as char == text[i] by {
            assert(is_encoded_char(text[i]));
            assert(bytes[i] == text[i] as u8);
        }
    }
}

/// The empty JSON array `[]` is encoded as `%5B%5D`.
pub proof fn lemma_encoded_brackets()
    ensures
        percent_encode(seq!['[', ']']) == seq!['%', '5', 'B', '%', '5', 'D'],
{
    let text = seq!['[', ']'];
    assert(is_ascii_chars(text));
    is_ascii_chars_encode_utf8(text);
    let bytes = encode_utf8(text);
    assert(bytes[0] == text[0] as u8);
    assert(bytes[1] == text[1] as u8);
    assert(bytes =~= seq![0x5Bu8, 0x5Du8]);
    let front = bytes.drop_last();
    assert(front =~= seq![0x5Bu8]);
    assert(front.drop_last() =~= Seq::<u8>::empty());
    assert(percent_encode_bytes(front.drop_last()) =~= Seq::<char>::empty());
    assert(percent_encode_bytes(front) =~= escape_byte(0x5Bu8));
    assert(percent_encode_bytes(bytes) =~= escape_byte(0x5Bu8) + escape_byte(0x5Du8));
    assert(escape_byte(0x5Bu8) =~= seq!['%', '5', 'B']);
    assert(escape_byte(0x5Du8) =~= seq!['%', '5', 'D']);
    assert(percent_encode(text) =~= seq!['%', '5', 'B', '%', '5', 'D']);
}

/// Calls `urlencoding::encode`, which walks the UTF-8 bytes of `text`, copies
/// each unreserved byte and writes every other byte as `%` followed by its
/// two upper-case hexadecimal digits.
#[verifier::external_body]
pub(crate) fn encode_component(text: &str) -> (r: String)
    ensures
        r@ == percent_encode(text@),
{
    urlencoding::encode(text)
}

} // verus!
