//! The repeating-key XOR transform.
//!
//! A key shorter than the data is used again from its start as often as the
//! data needs, so byte `p` of the data meets byte `p mod n` of a key of `n`
//! bytes. XOR is its own inverse: translating a second time with the same
//! key gives the data back.

use vstd::prelude::*;
use vstd::utf8::encode_utf8;

verus! {

/// Message of the error returned for an empty plaintext.
pub const EMPTY_PLAINTEXT: &'static str = "plaintext has a length of zero!";

/// Message of the error returned for an empty key.
pub const EMPTY_KEY: &'static str = "key has a length of zero!";

/// The key byte that meets position `p` of the data.
pub open spec fn key_byte(key: Seq<u8>, p: int) -> u8 {
    key[p % (key.len() as int)]
}

/// `data` with every byte XORed with the key byte that meets it.
pub open spec fn xor_with_key(data: Seq<u8>, key: Seq<u8>) -> Seq<u8> {
    Seq::new(data.len(), |p: int| data[p] ^ key_byte(key, p))
}

/// What a translation yields: the message of a validation error where an
/// input is empty (the plaintext is looked at first), else the XORed bytes.
pub open spec fn translation(data: Seq<u8>, key: Seq<u8>) -> Result<Seq<u8>, Seq<char>> {
    if data.len() == 0 {
        Err(EMPTY_PLAINTEXT@)
    } else if key.len() == 0 {
        Err(EMPTY_KEY@)
    } else {
        Ok(xor_with_key(data, key))
    }
}

/// The mathematical content of a translation's result.
pub open spec fn outcome(result: Result<Vec<u8>, String>) -> Result<Seq<u8>, Seq<char>> {
    match result {
        Ok(bytes) => Ok(bytes@),
        Err(message) => Err(message@),
    }
}

/// Where a cursor into a key of `key_len` bytes stands after one step from
/// `cursor`: it starts again at 0 once the last byte has been used.
pub open spec fn next_cursor(cursor: int, key_len: int) -> int {
    if cursor + 1 == key_len {
        0
    } else {
        cursor + 1
    }
}

/// A cursor that steps through the key and starts again at its end stands,
/// at every position of the data, at the position modulo the key's length:
/// it never leaves the key and never skips a byte.
pub proof fn lemma_cursor_cycles(position: int, key_len: int)
    requires
        0 <= position,
        0 < key_len,
    ensures
        0 <= position % key_len < key_len,
        (position + 1) % key_len == next_cursor(position % key_len, key_len),
{
    assert(0 <= position % key_len < key_len) by (nonlinear_arith)
        requires
            0 <= position,
            0 < key_len,
    ;
    assert((position + 1) % key_len == next_cursor(position % key_len, key_len))
        by (nonlinear_arith)
        requires
            0 <= position,
            0 < key_len,
    ;
}

/// Translate a sequence of bytes by XORing it with a repeating key.
///
/// Fails where either input is empty, with a message that names the empty
/// input; otherwise the output has one byte for each byte of `plaintext`.
pub fn xor_translate(plaintext: &[u8], key: &[u8]) -> (result: Result<Vec<u8>, String>)
    ensures
        outcome(result) == translation(plaintext@, key@),
{
    if plaintext.len() == 0 {
        return Err(EMPTY_PLAINTEXT.to_string());
    }
    if key.len() == 0 {
        return Err(EMPTY_KEY.to_string());
    }
    let mut output: Vec<u8> = Vec::new();
    let mut key_index: usize = 0;
    let mut position: usize = 0;
    while position < plaintext.len()
        invariant
            key.len() > 0,
            position <= plaintext.len(),
            key_index <= key.len(),
            (if key_index == key.len() { 0 } else { key_index as int })
                == (position as int) % (key.len() as int),
            output@.len() == position,
            forall|p: int|
                0 <= p < position ==> output@[p] == plaintext@[p] ^ #[trigger] key_byte(key@, p),
        decreases plaintext.len() - position,
    {
        if key_index >= key.len() {
            key_index = 0;
        }
        proof {
            lemma_cursor_cycles(position as int, key.len() as int);
            assert(key@[key_index as int] == key_byte(key@, position as int));
        }
        output.push(plaintext[position] ^ key[key_index]);
        key_index += 1;
        position += 1;
    }
    assert(output@ =~= xor_with_key(plaintext@, key@));
    Ok(output)
}

/// A convenience function that wraps [`xor_translate`] to handle `&str`
/// parameters: both strings are taken as their UTF-8 bytes.
pub fn xor_translate_str(plaintext: &str, key: &str) -> (result: Result<Vec<u8>, String>)
    ensures
        outcome(result) == translation(encode_utf8(plaintext@), encode_utf8(key@)),
{
    let plaintext_bytes = plaintext.as_bytes();
    let key_bytes = key.as_bytes();
    xor_translate(plaintext_bytes, key_bytes)
}

/// XOR with one byte is its own inverse.
proof fn lemma_xor_byte_twice(a: u8, b: u8)
    ensures
        (a ^ b) ^ b == a,
{
    assert((a ^ b) ^ b == a) by (bit_vector);
}

/// Translating twice with one key gives the data back: for non-empty data
/// and a non-empty key the translation succeeds, and the translation of its
/// result with the same key is the data.
pub proof fn lemma_translation_involution(data: Seq<u8>, key: Seq<u8>)
    requires
        data.len() > 0,
        key.len() > 0,
    ensures
        translation(data, key) is Ok,
        translation(translation(data, key)->Ok_0, key) == Ok::<Seq<u8>, Seq<char>>(data),
{
    let once = xor_with_key(data, key);
    let twice = xor_with_key(once, key);
    assert forall|p: int| 0 <= p < data.len() implies twice[p] == data[p] by {
        lemma_xor_byte_twice(data[p], key_byte(key, p));
    }
    assert(twice =~= data);
}

/// A translation is as long as its data, whatever the key's length: for
/// non-empty data and a non-empty key it succeeds with that many bytes.
pub proof fn lemma_translation_length(data: Seq<u8>, key: Seq<u8>)
    requires
        data.len() > 0,
        key.len() > 0,
    ensures
        translation(data, key) is Ok,
        translation(data, key)->Ok_0.len() == data.len(),
{
}

/// Empty data is rejected, whatever the key is, and the error names the
/// plaintext.
pub proof fn lemma_empty_plaintext_rejected(data: Seq<u8>, key: Seq<u8>)
    requires
        data.len() == 0,
    ensures
        translation(data, key) == Err::<Seq<u8>, Seq<char>>(EMPTY_PLAINTEXT@),
{
}

/// An empty key is rejected, whatever the data is; where the data is not
/// empty as well, the error names the key.
pub proof fn lemma_empty_key_rejected(data: Seq<u8>, key: Seq<u8>)
    requires
        key.len() == 0,
    ensures
        translation(data, key) is Err,
        data.len() > 0 ==> translation(data, key) == Err::<Seq<u8>, Seq<char>>(EMPTY_KEY@),
{
}

/// The two error messages differ, so an error tells which input was empty.
pub proof fn lemma_messages_differ()
    ensures
        EMPTY_PLAINTEXT@ != EMPTY_KEY@,
{
    reveal_strlit("plaintext has a length of zero!");
    reveal_strlit("key has a length of zero!");
    assert(EMPTY_PLAINTEXT@.len() == 31);
    assert(EMPTY_KEY@.len() == 25);
}

/// With a key at least as long as the non-empty data the key never starts
/// again: the translation is the data XORed, byte by byte, with the key's
/// first bytes.
pub proof fn lemma_long_key_no_wraparound(data: Seq<u8>, key: Seq<u8>)
    requires
        data.len() > 0,
        key.len() >= data.len(),
    ensures
        translation(data, key) == Ok::<Seq<u8>, Seq<char>>(
            Seq::new(data.len(), |p: int| data[p] ^ key[p]),
        ),
{
    assert forall|p: int| 0 <= p < data.len() implies key_byte(key, p) == key[p] by {
        vstd::arithmetic::div_mod::lemma_small_mod(p as nat, key.len());
    }
    assert(xor_with_key(data, key) =~= Seq::new(data.len(), |p: int| data[p] ^ key[p]));
}

} // verus!
