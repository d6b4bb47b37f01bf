use vstd::prelude::*;

verus! {

/// Packs four colour channels in little-endian order: `r` is the lowest byte.
pub open spec fn spec_rgba8(r: u8, g: u8, b: u8, a: u8) -> u32 {
    (r + 0x100 * g + 0x1_0000 * b + 0x100_0000 * a) as u32
}

/// The `u32` whose little-endian bytes are `[r, g, b, a]`.
pub fn rgba8(r: u8, g: u8, b: u8, a: u8) -> (packed: u32)
    ensures
        packed == spec_rgba8(r, g, b, a),
        packed as int == r + 0x100 * g + 0x1_0000 * b + 0x100_0000 * a,
{
    r as u32 + 0x100 * (g as u32) + 0x1_0000 * (b as u32) + 0x100_0000 * (a as u32)
}

/// Byte `k` (0 is the least significant) of `v`.
pub open spec fn le_byte(v: u32, k: int) -> u8 {
    if k == 0 {
        (v & 0xff) as u8
    } else if k == 1 {
        ((v >> 8) & 0xff) as u8
    } else if k == 2 {
        ((v >> 16) & 0xff) as u8
    } else {
        ((v >> 24) & 0xff) as u8
    }
}

/// The little-endian byte image of a sequence of `u32` words, word after word.
pub open spec fn spec_u32s_le(words: Seq<u32>) -> Seq<u8> {
    Seq::new(4 * words.len(), |i: int| le_byte(words[i / 4], i % 4))
}

/// The unsigned value of the four little-endian bytes of `bytes` that start at `at`.
pub open spec fn le_word(bytes: Seq<u8>, at: int) -> int {
    bytes[at] + 0x100 * bytes[at + 1] + 0x1_0000 * bytes[at + 2] + 0x100_0000 * bytes[at + 3]
}

/// Every word of a sequence reads back from its little-endian byte image.
pub proof fn lemma_u32s_le_roundtrip(words: Seq<u32>, i: int)
    requires
        0 <= i < words.len(),
    ensures
        spec_u32s_le(words).len() == 4 * words.len(),
        le_word(spec_u32s_le(words), 4 * i) == words[i],
{
    let bytes = spec_u32s_le(words);
    let v = words[i];
    assert((4 * i) / 4 == i && (4 * i) % 4 == 0) by (nonlinear_arith);
    assert((4 * i + 1) / 4 == i && (4 * i + 1) % 4 == 1) by (nonlinear_arith);
    assert((4 * i + 2) / 4 == i && (4 * i + 2) % 4 == 2) by (nonlinear_arith);
    assert((4 * i + 3) / 4 == i && (4 * i + 3) % 4 == 3) by (nonlinear_arith);
    assert(4 * i + 3 < 4 * words.len()) by (nonlinear_arith)
        requires
            0 <= i < words.len(),
    ;
    assert(bytes[4 * i] == le_byte(v, 0));
    assert(bytes[4 * i + 1] == le_byte(v, 1));
    assert(bytes[4 * i + 2] == le_byte(v, 2));
    assert(bytes[4 * i + 3] == le_byte(v, 3));
    assert((v & 0xff) < 0x100 && ((v >> 8) & 0xff) < 0x100 && ((v >> 16) & 0xff) < 0x100 && ((v
        >> 24) & 0xff) < 0x100) by (bit_vector);
    assert(v == (v & 0xff) + 0x100 * ((v >> 8) & 0xff) + 0x1_0000 * ((v >> 16) & 0xff) + 0x100_0000
        * ((v >> 24) & 0xff)) by (bit_vector);
}

/// The little-endian bytes of `values`, word after word, as a `u32` slice is laid out in memory
/// on a little-endian machine.
pub fn u32s_to_le_bytes(values: &[u32]) -> (bytes: Vec<u8>)
    requires
        4 * values@.len() <= usize::MAX,
    ensures
        bytes@ == spec_u32s_le(values@),
{
    let mut bytes: Vec<u8> = Vec::new();
    let mut i: usize = 0;
    while i < values.len()
        invariant
            i <= values@.len(),
            4 * values@.len() <= usize::MAX,
            bytes@ =~= Seq::new(4 * (i as nat), |j: int| le_byte(values@[j / 4], j % 4)),
        decreases values.len() - i,
    {
        let v = values[i];
        let ghost before = bytes@;
        bytes.push((v & 0xff) as u8);
        bytes.push(((v >> 8) & 0xff) as u8);
        bytes.push(((v >> 16) & 0xff) as u8);
        bytes.push(((v >> 24) & 0xff) as u8);
        proof {
            let n = 4 * (i as int);
            assert forall|j: int| 0 <= j < 4 * (i as int + 1) implies #[trigger] bytes@[j] == le_byte(
                values@[j / 4],
                j % 4,
            ) by {
                if j < n {
                    assert(bytes@[j] == before[j]);
                } else {
                    assert(j / 4 == i as int && j % 4 == j - n) by (nonlinear_arith)
                        requires
                            n == 4 * (i as int),
                            n <= j < n + 4,
                    ;
                }
            }
            assert(4 * (i as int + 1) == n + 4);
        }
        i = i + 1;
    }
    bytes
}

} // verus!
