//! Byte layouts shared by the monitor and the execution program: instruction
//! data, and the buffer in which a price check returns its two prices.
//!
//! All integers are little-endian and 8 bytes wide.

use vstd::prelude::*;

verus! {

/// The error of the base64 decoder, carried through unread.
#[verifier::external_type_specification]
#[verifier::external_body]
pub struct ExDecodeError(base64::DecodeError);

/// The bytes that standard base64 text with padding stands for, or `None`
/// where the text is no such encoding.
pub uninterp spec fn base64_decoded(text: Seq<char>) -> Option<Seq<u8>>;

/// Decodes base64 text with `base64::decode`, the standard alphabet with padding.
///
/// The decoder is a function of the text alone. The contract names what it
/// returns and claims nothing else: the bytes on success, an error exactly
/// where the text does not decode.
#[verifier::external_body]
#[allow(deprecated)]
pub(crate) fn base64_decode(text: &str) -> (decoded: Result<Vec<u8>, base64::DecodeError>)
    ensures
        match decoded {
            Ok(bytes) => base64_decoded(text@) == Some(bytes@),
            Err(_) => base64_decoded(text@) is None,
        },
{
    base64::decode(text)
}

/// Width of an encoded integer, in bytes.
pub const WORD_BYTES: usize = 8;

/// Length of the buffer that a price check returns: two words.
pub const PRICE_PAIR_BYTES: usize = 16;

/// Instruction selector of the price check.
pub const PRICE_CHECK_SELECTOR: u8 = 0;

/// Instruction selector of the execution.
pub const EXECUTE_SELECTOR: u8 = 0;

/// 256 to the power `width`.
pub open spec fn pow256(width: nat) -> nat
    decreases width,
{
    if width == 0 {
        1
    } else {
        256 * pow256((width - 1) as nat)
    }
}

/// The number that `bytes` spell, least significant byte first.
pub open spec fn le_value(bytes: Seq<u8>) -> nat
    decreases bytes.len(),
{
    if bytes.len() == 0 {
        0
    } else {
        bytes[0] as nat + 256 * le_value(bytes.drop_first())
    }
}

/// The `width` bytes that spell `value`, least significant byte first.
pub open spec fn le_bytes(value: nat, width: nat) -> Seq<u8>
    decreases width,
{
    if width == 0 {
        Seq::<u8>::empty()
    } else {
        seq![(value % 256) as u8] + le_bytes(value / 256, (width - 1) as nat)
    }
}

/// Eight bytes hold exactly the 64-bit numbers.
pub proof fn lemma_pow256_word()
    ensures
        pow256(8) == 0x1_0000_0000_0000_0000,
{
    reveal_with_fuel(pow256, 9);
}

/// The number that a sequence of bytes spells is below 256 to its length.
pub proof fn lemma_le_value_bound(bytes: Seq<u8>)
    ensures
        le_value(bytes) < pow256(bytes.len()),
    decreases bytes.len(),
{
    if bytes.len() > 0 {
        lemma_le_value_bound(bytes.drop_first());
    }
}

/// Encoding yields as many bytes as asked for.
pub proof fn lemma_le_bytes_len(value: nat, width: nat)
    ensures
        le_bytes(value, width).len() == width,
    decreases width,
{
    if width > 0 {
        lemma_le_bytes_len(value / 256, (width - 1) as nat);
    }
}

/// Decoding what was encoded gives the number back, for every number that
/// fits in the width.
pub proof fn lemma_le_round_trip(value: nat, width: nat)
    requires
        value < pow256(width),
    ensures
        le_value(le_bytes(value, width)) == value,
    decreases width,
{
    if width > 0 {
        let rest = le_bytes(value / 256, (width - 1) as nat);
        let all = le_bytes(value, width);
        lemma_le_round_trip(value / 256, (width - 1) as nat);
        assert(all.drop_first() =~= rest);
        assert(all[0] == (value % 256) as u8);
    }
}

/// Encoding what was decoded gives the bytes back.
pub proof fn lemma_le_bytes_of_value(bytes: Seq<u8>)
    ensures
        le_bytes(le_value(bytes), bytes.len()) == bytes,
    decreases bytes.len(),
{
    if bytes.len() > 0 {
        let tail = bytes.drop_first();
        lemma_le_bytes_of_value(tail);
        let value = le_value(bytes);
        assert(value % 256 == bytes[0] as nat);
        assert(value / 256 == le_value(tail));
        assert(le_bytes(value, bytes.len()) =~= bytes);
    }
}

/// Appends the 8 little-endian bytes of `value` to `out`.
pub fn put_word(out: &mut Vec<u8>, value: u64)
    ensures
        final(out)@ == old(out)@ + le_bytes(value as nat, 8),
{
    let ghost start = out@;
    let mut rest: u64 = value;
    let mut written: usize = 0;
    while written < WORD_BYTES
        invariant
            written <= WORD_BYTES,
            out@ + le_bytes(rest as nat, (8 - written) as nat) == start + le_bytes(value as nat, 8),
        decreases WORD_BYTES - written,
    {
        let ghost before = out@;
        let low: u8 = (rest % 256) as u8;
        out.push(low);
        proof {
            let tail = le_bytes((rest / 256) as nat, (8 - written - 1) as nat);
            assert(le_bytes(rest as nat, (8 - written) as nat) == seq![low] + tail);
            assert(before.push(low) + tail =~= before + (seq![low] + tail));
        }
        rest = rest / 256;
        written += 1;
    }
    assert(out@ + le_bytes(rest as nat, 0) =~= out@);
}

/// Reads the little-endian word that starts at `offset`.
pub fn word_at(data: &[u8], offset: usize) -> (value: u64)
    requires
        offset + 8 <= data@.len(),
    ensures
        value == le_value(data@.subrange(offset as int, offset + 8)),
{
    let ghost window = data@.subrange(offset as int, offset + 8);
    let total: usize = data.len();
    let mut value: u64 = 0;
    let mut left: usize = WORD_BYTES;
    while left > 0
        invariant
            left <= WORD_BYTES,
            total == data@.len(),
            offset + 8 <= total,
            window == data@.subrange(offset as int, offset + 8),
            value == le_value(window.subrange(left as int, 8)),
        decreases left,
    {
        left -= 1;
        let byte: u8 = data[offset + left];
        proof {
            let longer = window.subrange(left as int, 8);
            assert(longer.drop_first() =~= window.subrange(left + 1, 8));
            assert(longer[0] == byte);
            lemma_le_value_bound(longer);
            lemma_pow256_mono(longer.len(), 8);
            lemma_pow256_word();
        }
        value = value * 256 + byte as u64;
    }
    assert(window.subrange(0, 8) =~= window);
    value
}

/// 256 to a power grows with the power.
pub proof fn lemma_pow256_mono(smaller: nat, larger: nat)
    requires
        smaller <= larger,
    ensures
        pow256(smaller) <= pow256(larger),
    decreases larger,
{
    if smaller < larger {
        lemma_pow256_mono(smaller, (larger - 1) as nat);
    }
}

/// The data of an instruction: its selector, then the amount as a word.
pub open spec fn spec_instruction_data(selector: u8, amount: u64) -> Seq<u8> {
    seq![selector] + le_bytes(amount as nat, 8)
}

/// Builds the data of an instruction: its selector, then the amount as a word.
pub fn instruction_data(selector: u8, amount: u64) -> (data: Vec<u8>)
    ensures
        data@ == spec_instruction_data(selector, amount),
        data@.len() == 9,
{
    let mut data: Vec<u8> = Vec::new();
    data.push(selector);
    put_word(&mut data, amount);
    proof {
        lemma_le_bytes_len(amount as nat, 8);
    }
    data
}

/// The amount that a returned buffer starts with: its first word. A buffer of
/// fewer than 8 bytes holds none; bytes after the eighth are not read.
pub open spec fn spec_amount(data: Seq<u8>) -> Option<u64> {
    if data.len() >= 8 {
        Some(le_value(data.subrange(0, 8)) as u64)
    } else {
        None
    }
}

/// Encodes an amount as the one word that an execution returns: what it
/// realized as profit.
pub fn encode_amount(amount: u64) -> (data: Vec<u8>)
    ensures
        data@ == le_bytes(amount as nat, 8),
        data@.len() == 8,
        spec_amount(data@) == Some(amount),
{
    let mut data: Vec<u8> = Vec::new();
    put_word(&mut data, amount);
    proof {
        lemma_le_bytes_len(amount as nat, 8);
        lemma_pow256_word();
        lemma_le_round_trip(amount as nat, 8);
        assert(data@ =~= le_bytes(amount as nat, 8));
        assert(data@.subrange(0, 8) =~= data@);
    }
    data
}

/// Decodes the amount that a returned buffer starts with.
pub fn decode_amount(data: &[u8]) -> (amount: Option<u64>)
    ensures
        amount == spec_amount(data@),
        amount is Some <==> data@.len() >= 8,
{
    if data.len() < WORD_BYTES {
        return None;
    }
    Some(word_at(data, 0))
}

/// The buffer in which a price check returns the prices of venue A and venue B.
pub open spec fn spec_price_pair_bytes(price_a: u64, price_b: u64) -> Seq<u8> {
    le_bytes(price_a as nat, 8) + le_bytes(price_b as nat, 8)
}

/// The two prices that a returned buffer holds: venue A in bytes 0 to 8,
/// venue B in bytes 8 to 16. A buffer of fewer than 16 bytes holds none;
/// bytes after the sixteenth are not read.
pub open spec fn spec_price_pair(data: Seq<u8>) -> Option<(u64, u64)> {
    if data.len() >= 16 {
        Some((le_value(data.subrange(0, 8)) as u64, le_value(data.subrange(8, 16)) as u64))
    } else {
        None
    }
}

/// Encodes the prices of venue A and venue B as a price check returns them.
pub fn encode_price_pair(price_a: u64, price_b: u64) -> (data: Vec<u8>)
    ensures
        data@ == spec_price_pair_bytes(price_a, price_b),
        data@.len() == 16,
        spec_price_pair(data@) == Some((price_a, price_b)),
{
    let mut data: Vec<u8> = Vec::new();
    put_word(&mut data, price_a);
    put_word(&mut data, price_b);
    proof {
        lemma_price_pair_round_trip(price_a, price_b);
        assert(data@ =~= spec_price_pair_bytes(price_a, price_b));
    }
    data
}

/// Decodes the prices of venue A and venue B from a returned buffer.
pub fn decode_price_pair(data: &[u8]) -> (prices: Option<(u64, u64)>)
    ensures
        prices == spec_price_pair(data@),
        prices is Some <==> data@.len() >= 16,
{
    if data.len() < PRICE_PAIR_BYTES {
        return None;
    }
    let price_a: u64 = word_at(data, 0);
    let price_b: u64 = word_at(data, WORD_BYTES);
    Some((price_a, price_b))
}

/// Decoding the buffer of two prices gives the two prices back.
pub proof fn lemma_price_pair_round_trip(price_a: u64, price_b: u64)
    ensures
        spec_price_pair_bytes(price_a, price_b).len() == 16,
        spec_price_pair(spec_price_pair_bytes(price_a, price_b)) == Some((price_a, price_b)),
{
    let first = le_bytes(price_a as nat, 8);
    let second = le_bytes(price_b as nat, 8);
    let both = spec_price_pair_bytes(price_a, price_b);
    lemma_le_bytes_len(price_a as nat, 8);
    lemma_le_bytes_len(price_b as nat, 8);
    lemma_pow256_word();
    lemma_le_round_trip(price_a as nat, 8);
    lemma_le_round_trip(price_b as nat, 8);
    assert(both.subrange(0, 8) =~= first);
    assert(both.subrange(8, 16) =~= second);
}

} // verus!
