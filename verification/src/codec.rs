//! The wire codec: a `Message` to and from a transmissible byte sequence.
//!
//! Wire format: each character of the content becomes one group of
//! three big-endian bytes holding its Unicode scalar value; the payload
//! is the concatenation of the groups, with no header. A payload is
//! well formed exactly when its length is a multiple of three and every
//! group holds a scalar value. Policy for the empty payload: it is the
//! valid encoding of the empty message, not a decode error.

use vstd::prelude::*;
use vstd::arithmetic::div_mod::{
    lemma_fundamental_div_mod,
    lemma_fundamental_div_mod_converse,
};
use crate::errors::ExchangeError;
use crate::message::Message;

verus! {

broadcast use vstd::utf8::char_is_scalar, vstd::utf8::char_u32_cast;

/// Whether `v` is a Unicode scalar value: a code point that is not a
/// surrogate.
pub open spec fn is_scalar_value(v: int) -> bool {
    0 <= v < 0xD800 || 0xE000 <= v <= 0x10FFFF
}

/// Wire byte `k` (0, 1 or 2) of one character: its scalar value in
/// big-endian order.
pub open spec fn char_byte(c: char, k: int) -> u8 {
    let v: int = c as u32 as int;
    if k == 0 {
        (v / 0x10000) as u8
    } else if k == 1 {
        ((v / 0x100) % 0x100) as u8
    } else {
        (v % 0x100) as u8
    }
}

/// The encoding of a character sequence: three bytes per character, in
/// order.
pub open spec fn encode_spec(s: Seq<char>) -> Seq<u8> {
    Seq::new(3 * s.len(), |j: int| char_byte(s[j / 3], j % 3))
}

/// The value of the `i`-th three-byte group of a payload.
pub open spec fn group_value(b: Seq<u8>, i: int) -> int {
    b[3 * i] * 0x10000 + b[3 * i + 1] * 0x100 + b[3 * i + 2]
}

/// Whether a byte sequence matches the wire encoding: a whole number of
/// groups, each holding a scalar value.
pub open spec fn wellformed_payload(b: Seq<u8>) -> bool {
    &&& b.len() % 3 == 0
    &&& forall|i: int| 0 <= i < b.len() / 3 ==> is_scalar_value(#[trigger] group_value(b, i))
}

/// The characters of a well-formed payload, group by group.
pub open spec fn decoded_chars(b: Seq<u8>) -> Seq<char> {
    Seq::new(b.len() / 3, |i: int| (group_value(b, i) as u32) as char)
}

/// What decoding returns: the decoded characters on a well-formed
/// payload, nothing otherwise.
pub open spec fn decode_spec(b: Seq<u8>) -> Option<Seq<char>> {
    if wellformed_payload(b) {
        Some(decoded_chars(b))
    } else {
        None
    }
}

/// A scalar value splits into its three big-endian bytes and nothing is
/// lost.
proof fn lemma_scalar_split(v: int)
    requires
        0 <= v <= 0x10FFFF,
    ensures
        (v / 0x10000) * 0x10000 + ((v / 0x100) % 0x100) * 0x100 + v % 0x100 == v,
        0 <= v / 0x10000 < 0x100,
        0 <= (v / 0x100) % 0x100 < 0x100,
        0 <= v % 0x100 < 0x100,
{
    lemma_fundamental_div_mod(v, 0x100);
    lemma_fundamental_div_mod(v / 0x100, 0x100);
    lemma_fundamental_div_mod_converse(v, 0x10000, (v / 0x100) / 0x100, ((v / 0x100) % 0x100) * 0x100 + v % 0x100);
}

/// The group at position `i` of an encoded sequence holds exactly the
/// scalar value of the `i`-th character.
proof fn lemma_encoded_group(s: Seq<char>, i: int)
    requires
        0 <= i < s.len(),
    ensures
        group_value(encode_spec(s), i) == s[i] as u32 as int,
        is_scalar_value(group_value(encode_spec(s), i)),
        (group_value(encode_spec(s), i) as u32) as char == s[i],
{
    vstd::utf8::char_is_scalar(s[i]);
    vstd::utf8::char_u32_cast(s[i], s[i] as u32);
    assert(is_scalar_value(s[i] as u32 as int));
    lemma_fundamental_div_mod_converse(3 * i, 3, i, 0);
    lemma_fundamental_div_mod_converse(3 * i + 1, 3, i, 1);
    lemma_fundamental_div_mod_converse(3 * i + 2, 3, i, 2);
    lemma_scalar_split(s[i] as u32 as int);
}

/// Round trip: decoding an encoded message yields the message back,
/// whatever its content.
pub proof fn lemma_round_trip(s: Seq<char>)
    ensures
        decode_spec(encode_spec(s)) == Some(s),
{
    let b = encode_spec(s);
    lemma_fundamental_div_mod_converse(3 * s.len() as int, 3, s.len() as int, 0);
    assert(b.len() / 3 == s.len());
    assert(b.len() % 3 == 0);
    assert forall|i: int| 0 <= i < b.len() / 3 implies is_scalar_value(
        #[trigger] group_value(b, i),
    ) by {
        lemma_encoded_group(s, i);
    }
    assert(wellformed_payload(b));
    assert forall|i: int| 0 <= i < s.len() implies decoded_chars(b)[i] == s[i] by {
        lemma_encoded_group(s, i);
    }
    assert(decoded_chars(b) =~= s);
}

/// Encoding is injective: distinct messages never share a wire image.
pub proof fn lemma_encode_injective(s1: Seq<char>, s2: Seq<char>)
    requires
        s1 != s2,
    ensures
        encode_spec(s1) != encode_spec(s2),
{
    if encode_spec(s1) == encode_spec(s2) {
        lemma_round_trip(s1);
        lemma_round_trip(s2);
    }
}

/// Encodes a message into its wire bytes. Deterministic and total:
/// defined for every message, and never fails.
pub fn encode(m: &Message) -> (out: Vec<u8>)
    ensures
        out@ == encode_spec(m@),
{
    let text: &str = m.content.as_str();
    let n: usize = text.unicode_len();
    let mut out: Vec<u8> = Vec::new();
    let mut i: usize = 0;
    while i < n
        invariant
            text@ == m@,
            n == m@.len(),
            i <= n,
            out@ =~= encode_spec(m@).subrange(0, 3 * i as int),
        decreases n - i,
    {
        let c: char = text.get_char(i);
        let v: u32 = c as u32;
        proof {
            lemma_scalar_split(c as u32 as int);
        }
        out.push((v / 0x10000) as u8);
        out.push((v / 0x100 % 0x100) as u8);
        out.push((v % 0x100) as u8);
        proof {
            lemma_fundamental_div_mod_converse(3 * i as int, 3, i as int, 0);
            lemma_fundamental_div_mod_converse(3 * i as int + 1, 3, i as int, 1);
            lemma_fundamental_div_mod_converse(3 * i as int + 2, 3, i as int, 2);
            assert(out@ =~= encode_spec(m@).subrange(0, 3 * (i + 1) as int));
        }
        i = i + 1;
    }
    proof {
        assert(out@ =~= encode_spec(m@));
    }
    out
}

/// Relies on char::from_u32: returns the character with the given
/// value exactly when the value is a Unicode scalar value.
#[verifier::external_body]
fn scalar_to_char(v: u32) -> (r: Option<char>)
    ensures
        r is Some <==> is_scalar_value(v as int),
        r is Some ==> (r->0) as u32 == v,
{
    char::from_u32(v)
}

/// Relies on String::push: appends the given character at the end.
#[verifier::external_body]
fn push_char(s: &mut String, c: char)
    ensures
        final(s)@ == old(s)@.push(c),
{
    s.push(c);
}

/// Decodes wire bytes into a message. Returns `MalformedPayload`
/// exactly on the byte sequences that do not match the wire encoding;
/// on the others, the decoded message, exactly.
pub fn decode(bytes: &Vec<u8>) -> (r: Result<Message, ExchangeError>)
    ensures
        match r {
            Ok(m) => decode_spec(bytes@) == Some(m@),
            Err(e) => decode_spec(bytes@) is None && e == ExchangeError::MalformedPayload,
        },
{
    let n: usize = bytes.len();
    if n % 3 != 0 {
        return Err(ExchangeError::MalformedPayload);
    }
    let count: usize = n / 3;
    proof {
        lemma_fundamental_div_mod(n as int, 3);
    }
    let mut content: String = String::new();
    let mut i: usize = 0;
    while i < count
        invariant
            n == bytes@.len(),
            n % 3 == 0,
            count == n as int / 3,
            n == 3 * count,
            i <= count,
            forall|k: int| 0 <= k < i ==> is_scalar_value(#[trigger] group_value(bytes@, k)),
            content@ =~= decoded_chars(bytes@).subrange(0, i as int),
        decreases count - i,
    {
        let b0: u32 = bytes[3 * i] as u32;
        let b1: u32 = bytes[3 * i + 1] as u32;
        let b2: u32 = bytes[3 * i + 2] as u32;
        let v: u32 = b0 * 0x10000 + b1 * 0x100 + b2;
        proof {
            assert(v as int == group_value(bytes@, i as int));
        }
        match scalar_to_char(v) {
            Some(c) => {
                push_char(&mut content, c);
                proof {
                    vstd::utf8::char_u32_cast(c, v);
                    assert(decoded_chars(bytes@)[i as int] == c);
                    assert(content@ =~= decoded_chars(bytes@).subrange(0, i + 1 as int));
                }
            },
            None => {
                proof {
                    assert(!is_scalar_value(group_value(bytes@, i as int)));
                }
                return Err(ExchangeError::MalformedPayload);
            },
        }
        i = i + 1;
    }
    proof {
        assert(wellformed_payload(bytes@));
        assert(content@ =~= decoded_chars(bytes@));
    }
    Ok(Message { content })
}

} // verus!
