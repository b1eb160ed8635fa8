//! The two text encodings of the OAuth exchange: form encoding for query
//! strings and request bodies, and base64 for the credentials.

use base64::Engine;
use vstd::prelude::*;
use vstd::string::*;
use vstd::utf8::*;

verus! {

/// Whether form encoding leaves a byte as it is: digits, ASCII letters and
/// `*`, `-`, `.`, `_`.
pub open spec fn is_unreserved(byte: u8) -> bool {
    ||| 0x30 <= byte <= 0x39
    ||| 0x41 <= byte <= 0x5a
    ||| 0x61 <= byte <= 0x7a
    ||| byte == 0x2a
    ||| byte == 0x2d
    ||| byte == 0x2e
    ||| byte == 0x5f
}

/// One hexadecimal digit, in upper case.
pub open spec fn hex_digit(nibble: int) -> char {
    if nibble == 0 { '0' }
    else if nibble == 1 { '1' }
    else if nibble == 2 { '2' }
    else if nibble == 3 { '3' }
    else if nibble == 4 { '4' }
    else if nibble == 5 { '5' }
    else if nibble == 6 { '6' }
    else if nibble == 7 { '7' }
    else if nibble == 8 { '8' }
    else if nibble == 9 { '9' }
    else if nibble == 10 { 'A' }
    else if nibble == 11 { 'B' }
    else if nibble == 12 { 'C' }
    else if nibble == 13 { 'D' }
    else if nibble == 14 { 'E' }
    else { 'F' }
}

/// The form encoding of one byte: itself, `+` for a space, or `%` and two
/// hexadecimal digits.
pub open spec fn encoded_byte(byte: u8) -> Seq<char> {
    if is_unreserved(byte) {
        seq![byte as char]
    } else if byte == 0x20 {
        seq!['+']
    } else {
        seq!['%', hex_digit(byte as int / 16), hex_digit(byte as int % 16)]
    }
}

/// The form encoding of a byte string, byte by byte.
pub open spec fn form_encoded_bytes(bytes: Seq<u8>) -> Seq<char>
    decreases bytes.len(),
{
    if bytes.len() == 0 {
        Seq::empty()
    } else {
        form_encoded_bytes(bytes.drop_last()) + encoded_byte(bytes.last())
    }
}

/// The `application/x-www-form-urlencoded` form of a text: the form encoding
/// of its UTF-8 bytes.
pub open spec fn form_encoded(text: Seq<char>) -> Seq<char> {
    form_encoded_bytes(encode_utf8(text))
}

/// One `name=value` pair of a query string or a form body.
pub open spec fn pair_text(name: Seq<char>, value: Seq<char>) -> Seq<char> {
    form_encoded(name) + seq!['='] + form_encoded(value)
}

/// The pairs of a query string or a form body, joined by `&`.
pub open spec fn query_text(pairs: Seq<(Seq<char>, Seq<char>)>) -> Seq<char>
    decreases pairs.len(),
{
    if pairs.len() == 0 {
        Seq::empty()
    } else if pairs.len() == 1 {
        pair_text(pairs[0].0, pairs[0].1)
    } else {
        query_text(pairs.drop_last()) + seq!['&'] + pair_text(pairs.last().0, pairs.last().1)
    }
}

/// The texts of a list of pairs.
pub open spec fn pairs_view(pairs: Seq<(&str, &str)>) -> Seq<(Seq<char>, Seq<char>)> {
    pairs.map_values(|p: (&str, &str)| (p.0@, p.1@))
}

/// The standard base64 form, with padding, of a text's UTF-8 bytes.
pub uninterp spec fn base64_text(text: Seq<char>) -> Seq<char>;

/// Whether the base64 form of `text` has a length that fits the machine.
pub open spec fn base64_fits(text: Seq<char>) -> bool {
    encode_utf8(text).len() / 3 * 4 + 4 <= usize::MAX
}

/// `url::form_urlencoded::Serializer::append_pair` on an empty target: the
/// name and the value, each with every byte kept, turned into `+`, or
/// written as `%` and two upper-case hexadecimal digits, and `=` between
/// them.
#[verifier::external_body]
fn encoded_pair(name: &str, value: &str) -> (encoded: String)
    ensures
        encoded@ == pair_text(name@, value@),
{
    url::form_urlencoded::Serializer::new(String::new()).append_pair(name, value).finish()
}

/// `base64::Engine::encode` on the standard engine: the base64 form of the
/// text's bytes. The call panics where the length of that form overflows.
#[verifier::external_body]
pub(crate) fn base64_encode(text: &str) -> (encoded: String)
    requires
        base64_fits(text@),
    ensures
        encoded@ == base64_text(text@),
{
    base64::engine::general_purpose::STANDARD.encode(text)
}

/// Appends one pair to a query string or form body that holds `count` pairs
/// already: `&` first unless it is the first pair, then `name=value`, both
/// form-encoded.
pub fn append_pair(target: &mut String, count: usize, name: &str, value: &str)
    ensures
        final(target)@ == old(target)@ + (if count == 0 {
            Seq::<char>::empty()
        } else {
            seq!['&']
        }) + pair_text(name@, value@),
{
    if count > 0 {
        target.append("&");
        proof {
            reveal_strlit("&");
            assert("&"@ =~= seq!['&']);
        }
    }
    let pair = encoded_pair(name, value);
    target.append(pair.as_str());
    assert(target@ =~= old(target)@ + (if count == 0 {
        Seq::<char>::empty()
    } else {
        seq!['&']
    }) + pair_text(name@, value@));
}

/// The query string or form body of a list of pairs.
pub fn encode_pairs(pairs: &Vec<(&str, &str)>) -> (text: String)
    ensures
        text@ == query_text(pairs_view(pairs@)),
{
    let mut text = String::new();
    let mut i: usize = 0;
    while i < pairs.len()
        invariant
            i <= pairs.len(),
            text@ == query_text(pairs_view(pairs@.take(i as int))),
        decreases pairs.len() - i,
    {
        let (name, value) = pairs[i];
        append_pair(&mut text, i, name, value);
        proof {
            let before = pairs_view(pairs@.take(i as int));
            let after = pairs_view(pairs@.take(i + 1));
            assert(after.drop_last() =~= before);
            assert(after.last() == (name@, value@));
            if i == 0 {
                assert(before.len() == 0);
            }
        }
        i += 1;
    }
    proof {
        assert(pairs@.take(pairs.len() as int) =~= pairs@);
    }
    text
}

} // verus!
