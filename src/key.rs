use vstd::prelude::*;

verus! {

/// Height of a block; the node's chain numbers its blocks with `u32`.
pub type BlockNumber = u32;

/// The separator between the namespace and the encoded height.
pub const KEY_SEPARATOR: u8 = 0x2f;

/// The namespace under which worker records are kept in the node-local store:
/// the ASCII text `my_pallet::indexing1`.
pub open spec fn namespace() -> Seq<u8> {
    seq![
        0x6d, 0x79, 0x5f, 0x70, 0x61, 0x6c, 0x6c, 0x65, 0x74, 0x3a,
        0x3a, 0x69, 0x6e, 0x64, 0x65, 0x78, 0x69, 0x6e, 0x67, 0x31,
    ]
}

/// Little-endian bytes of a height: the canonical SCALE encoding of a `u32`.
pub open spec fn le_bytes(h: u32) -> Seq<u8> {
    seq![h as u8, (h >> 8u32) as u8, (h >> 16u32) as u8, (h >> 24u32) as u8]
}

/// The store key of a height: namespace, separator, encoded height.
pub open spec fn key_of(h: u32) -> Seq<u8> {
    namespace() + seq![KEY_SEPARATOR] + le_bytes(h)
}

/// The namespace bytes.
pub fn onchain_tx_key() -> (r: Vec<u8>)
    ensures
        r@ == namespace(),
{
    let r: Vec<u8> = vec![
        0x6d, 0x79, 0x5f, 0x70, 0x61, 0x6c, 0x6c, 0x65, 0x74, 0x3a,
        0x3a, 0x69, 0x6e, 0x64, 0x65, 0x78, 0x69, 0x6e, 0x67, 0x31,
    ];
    assert(r@ =~= namespace());
    r
}

/// Relies on parity-scale-codec's `Encode` for `u32`, which writes the four
/// little-endian bytes of the value (`to_le_bytes`).
#[verifier::external_body]
fn encode_height(h: u32) -> (r: Vec<u8>)
    ensures
        r@ == le_bytes(h),
{
    parity_scale_codec::Encode::encode(&h)
}

/// The store key under which the record of block `block_number` lives.
pub fn derive_key(block_number: BlockNumber) -> (r: Vec<u8>)
    ensures
        r@ == key_of(block_number),
{
    let mut key = onchain_tx_key();
    key.push(KEY_SEPARATOR);
    let encoded = encode_height(block_number);
    let mut j: usize = 0;
    let ghost prefix = key@;
    while j < encoded.len()
        invariant
            j <= encoded@.len(),
            key@ == prefix + encoded@.subrange(0, j as int),
        decreases encoded@.len() - j,
    {
        key.push(encoded[j]);
        j = j + 1;
        assert(key@ =~= prefix + encoded@.subrange(0, j as int));
    }
    assert(encoded@ =~= encoded@.subrange(0, encoded@.len() as int));
    assert(key@ =~= key_of(block_number));
    key
}

/// Two heights with the same four little-endian bytes are the same height.
pub proof fn lemma_le_bytes_injective(h1: u32, h2: u32)
    requires
        le_bytes(h1) == le_bytes(h2),
    ensures
        h1 == h2,
{
    assert(le_bytes(h1)[0] == le_bytes(h2)[0]);
    assert(le_bytes(h1)[1] == le_bytes(h2)[1]);
    assert(le_bytes(h1)[2] == le_bytes(h2)[2]);
    assert(le_bytes(h1)[3] == le_bytes(h2)[3]);
    assert(h1 == h2) by (bit_vector)
        requires
            h1 as u8 == h2 as u8,
            (h1 >> 8u32) as u8 == (h2 >> 8u32) as u8,
            (h1 >> 16u32) as u8 == (h2 >> 16u32) as u8,
            (h1 >> 24u32) as u8 == (h2 >> 24u32) as u8,
    ;
}

/// Distinct heights never share a store key.
pub proof fn lemma_derive_key_injective(h1: BlockNumber, h2: BlockNumber)
    requires
        h1 != h2,
    ensures
        key_of(h1) != key_of(h2),
{
    if key_of(h1) == key_of(h2) {
        let n: int = namespace().len() as int + 1;
        assert(le_bytes(h1) =~= key_of(h1).subrange(n, n + 4));
        assert(le_bytes(h2) =~= key_of(h2).subrange(n, n + 4));
        lemma_le_bytes_injective(h1, h2);
    }
}

/// The key of a height depends on the height alone: computing it twice gives the same bytes.
pub proof fn lemma_derive_key_deterministic(h1: BlockNumber, h2: BlockNumber)
    requires
        h1 == h2,
    ensures
        key_of(h1) == key_of(h2),
{
}

} // verus!
