use vstd::prelude::*;

verus! {

/// The constant added to every byte of an encoded file.
pub const SHIFT: u8 = 88;

/// A byte as the distribution mechanism stores it: the original plus the shift, modulo 256.
pub open spec fn encode_byte_spec(b: u8) -> u8 {
    ((b as int + SHIFT as int) % 256) as u8
}

/// A stored byte turned back into its original value: minus the shift, modulo 256.
pub open spec fn decode_byte_spec(b: u8) -> u8 {
    ((b as int - SHIFT as int) % 256) as u8
}

/// Every byte of `s` encoded.
pub open spec fn encode_spec(s: Seq<u8>) -> Seq<u8> {
    s.map_values(|b: u8| encode_byte_spec(b))
}

/// Every byte of `s` decoded.
pub open spec fn decode_spec(s: Seq<u8>) -> Seq<u8> {
    s.map_values(|b: u8| decode_byte_spec(b))
}

/// Adds the shift to one byte, modulo 256.
pub fn encode_byte(b: u8) -> (r: u8)
    ensures
        r == encode_byte_spec(b),
{
    b.wrapping_add(SHIFT)
}

/// Subtracts the shift from one byte, modulo 256.
pub fn decode_byte(b: u8) -> (r: u8)
    ensures
        r == decode_byte_spec(b),
{
    b.wrapping_sub(SHIFT)
}

/// Encodes a whole byte sequence.
pub fn encode_bytes(plain: &[u8]) -> (r: Vec<u8>)
    ensures
        r@ == encode_spec(plain@),
{
    let mut out: Vec<u8> = Vec::new();
    let mut i: usize = 0;
    while i < plain.len()
        invariant
            0 <= i <= plain@.len(),
            out@ == encode_spec(plain@.take(i as int)),
        decreases plain@.len() - i,
    {
        let b = encode_byte(plain[i]);
        out.push(b);
        proof {
            assert(plain@.take(i as int + 1) == plain@.take(i as int).push(plain@[i as int]));
        }
        i = i + 1;
    }
    proof {
        assert(plain@.take(plain@.len() as int) == plain@);
    }
    out
}

/// Decodes a whole byte sequence, as read from an encoded file.
pub fn decode_bytes(stored: &[u8]) -> (r: Vec<u8>)
    ensures
        r@ == decode_spec(stored@),
{
    let mut out: Vec<u8> = Vec::new();
    let mut i: usize = 0;
    while i < stored.len()
        invariant
            0 <= i <= stored@.len(),
            out@ == decode_spec(stored@.take(i as int)),
        decreases stored@.len() - i,
    {
        let b = decode_byte(stored[i]);
        out.push(b);
        proof {
            assert(stored@.take(i as int + 1) == stored@.take(i as int).push(stored@[i as int]));
        }
        i = i + 1;
    }
    proof {
        assert(stored@.take(stored@.len() as int) == stored@);
    }
    out
}

/// Decoding a byte undoes encoding it.
pub proof fn lemma_decode_encode_byte(b: u8)
    ensures
        decode_byte_spec(encode_byte_spec(b)) == b,
{
}

/// Decoding the encoding of any byte sequence gives the sequence back.
pub proof fn lemma_decode_encode(plain: Seq<u8>)
    ensures
        decode_spec(encode_spec(plain)) == plain,
{
    assert forall|i: int| 0 <= i < plain.len() implies #[trigger] decode_spec(encode_spec(plain))[i]
        == plain[i] by {
        lemma_decode_encode_byte(plain[i]);
    }
    assert(decode_spec(encode_spec(plain)) =~= plain);
}

/// Encoding the decoding of any byte sequence gives the sequence back.
pub proof fn lemma_encode_decode(stored: Seq<u8>)
    ensures
        encode_spec(decode_spec(stored)) == stored,
{
    assert(encode_spec(decode_spec(stored)) =~= stored);
}

} // verus!
