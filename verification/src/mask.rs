//! Sampling masks: little-endian bit sets over token identifiers, packed in
//! 32-bit words.

use vstd::prelude::*;

verus! {

/// Number of 32-bit words in a mask for a vocabulary of the given size.
///
/// A mask has room for one bit past the vocabulary, as the masks that the
/// decoder computes have.
pub open spec fn mask_words(vocab_size: nat) -> nat {
    (vocab_size + 32) / 32
}

/// Whether the bit of identifier `tok` is set in `mask`.
pub open spec fn bit_set(mask: Seq<u32>, tok: int) -> bool {
    &&& 0 <= tok < 32 * mask.len()
    &&& (mask[tok / 32] >> ((tok % 32) as u32)) & 1 == 1
}

/// The mask that permits exactly one identifier.
pub open spec fn singleton_spec(vocab_size: nat, tok: nat) -> Seq<u32> {
    Seq::new(
        mask_words(vocab_size),
        |i: int|
            if i == tok / 32 {
                1u32 << ((tok % 32) as u32)
            } else {
                0u32
            },
    )
}

/// Whether a mask covers the vocabulary and permits identifiers of it only.
pub open spec fn mask_valid(mask: Seq<u32>, vocab_size: nat) -> bool {
    &&& mask.len() == mask_words(vocab_size)
    &&& forall|tok: int| bit_set(mask, tok) ==> 0 <= tok < vocab_size
}

/// Bit `c` of a word with only bit `b` set is set exactly when `c` is `b`.
proof fn lemma_single_bit(b: u32, c: u32)
    requires
        b < 32,
        c < 32,
    ensures
        (((1u32 << b) >> c) & 1 == 1) <==> b == c,
        ((0u32 >> c) & 1) == 0,
{
    assert(b < 32 && c < 32 ==> ((((1u32 << b) >> c) & 1 == 1) <==> b == c)) by (bit_vector);
    assert(c < 32 ==> ((0u32 >> c) & 1) == 0) by (bit_vector);
}

/// A singleton mask has exactly one bit, at its identifier.
pub proof fn lemma_singleton_one_bit(vocab_size: nat, tok: nat)
    requires
        tok < vocab_size,
    ensures
        forall|t: int| bit_set(singleton_spec(vocab_size, tok), t) <==> t == tok,
        mask_valid(singleton_spec(vocab_size, tok), vocab_size),
{
    let m = singleton_spec(vocab_size, tok);
    assert forall|t: int| bit_set(m, t) <==> t == tok by {
        if 0 <= t < 32 * m.len() {
            lemma_single_bit((tok % 32) as u32, (t % 32) as u32);
            if t / 32 == tok / 32 {
                assert(t == tok <==> t % 32 == tok % 32);
            }
        }
    }
}

/// Builds the mask that permits `tok` and nothing else.
pub fn singleton_mask(vocab_size: u32, tok: u32) -> (mask: Vec<u32>)
    requires
        tok < vocab_size,
    ensures
        mask@ == singleton_spec(vocab_size as nat, tok as nat),
{
    let words: usize = (vocab_size / 32) as usize + 1;
    let mut mask: Vec<u32> = Vec::new();
    let target: usize = (tok / 32) as usize;
    let bit: u32 = tok % 32;
    let mut i: usize = 0;
    while i < words
        invariant
            i <= words,
            words == mask_words(vocab_size as nat),
            target == tok as nat / 32,
            bit == tok as nat % 32,
            mask@.len() == i,
            forall|k: int|
                0 <= k < i ==> mask@[k] == singleton_spec(vocab_size as nat, tok as nat)[k],
        decreases words - i,
    {
        if i == target {
            mask.push(1u32 << bit);
        } else {
            mask.push(0u32);
        }
        i += 1;
    }
    assert(mask@ =~= singleton_spec(vocab_size as nat, tok as nat));
    mask
}

/// A word with every bit from position `k` on cleared.
pub open spec fn low_bits(word: u32, k: u32) -> u32 {
    word & !(0xffff_ffffu32 << k)
}

/// A mask with every bit at or past the vocabulary cleared. The bits of the
/// vocabulary stay as they are.
pub open spec fn restrict_spec(mask: Seq<u32>, vocab_size: nat) -> Seq<u32>
    recommends
        mask.len() == mask_words(vocab_size),
{
    mask.update(
        (vocab_size / 32) as int,
        low_bits(mask[(vocab_size / 32) as int], (vocab_size % 32) as u32),
    )
}

/// Bit `c` of a word cut to its low `k` bits is the word's own bit below `k`
/// and clear from `k` on.
proof fn lemma_low_bits(word: u32, k: u32, c: u32)
    requires
        k < 32,
        c < 32,
    ensures
        c < k ==> ((low_bits(word, k) >> c) & 1 == 1 <==> (word >> c) & 1 == 1),
        c >= k ==> (low_bits(word, k) >> c) & 1 == 0,
{
    assert(k < 32 && c < 32 && c < k ==> ((((word & !(0xffff_ffffu32 << k)) >> c) & 1 == 1) <==> (
    word >> c) & 1 == 1)) by (bit_vector);
    assert(k < 32 && c < 32 && c >= k ==> ((word & !(0xffff_ffffu32 << k)) >> c) & 1 == 0)
        by (bit_vector);
}

/// A mask of the right length, cut to the vocabulary, is valid, and permits
/// exactly the identifiers of the vocabulary that it permitted before.
pub proof fn lemma_restrict_valid(mask: Seq<u32>, vocab_size: nat)
    requires
        mask.len() == mask_words(vocab_size),
    ensures
        mask_valid(restrict_spec(mask, vocab_size), vocab_size),
        forall|tok: int|
            0 <= tok < vocab_size ==> (bit_set(restrict_spec(mask, vocab_size), tok) <==> bit_set(
                mask,
                tok,
            )),
{
    let cut = restrict_spec(mask, vocab_size);
    let last = (vocab_size / 32) as int;
    let k = (vocab_size % 32) as u32;
    assert forall|tok: int| bit_set(cut, tok) implies 0 <= tok < vocab_size by {
        if tok / 32 == last {
            lemma_low_bits(mask[last], k, (tok % 32) as u32);
        }
    }
    assert forall|tok: int| 0 <= tok < vocab_size implies (bit_set(cut, tok) <==> bit_set(
        mask,
        tok,
    )) by {
        if tok / 32 == last {
            lemma_low_bits(mask[last], k, (tok % 32) as u32);
        }
    }
}

/// Clears every bit at or past the vocabulary in a mask of the right length.
pub fn restrict_to_vocabulary(mask: Vec<u32>, vocab_size: u32) -> (cut: Vec<u32>)
    requires
        mask@.len() == mask_words(vocab_size as nat),
    ensures
        cut@ == restrict_spec(mask@, vocab_size as nat),
{
    let mut cut = mask;
    let last: usize = (vocab_size / 32) as usize;
    let k: u32 = vocab_size % 32;
    let word: u32 = cut[last];
    cut.set(last, word & !(0xffff_ffffu32 << k));
    cut
}

/// Whether a mask has the number of words that a vocabulary asks for.
pub fn has_mask_length(mask: &Vec<u32>, vocab_size: u32) -> (ok: bool)
    ensures
        ok == (mask@.len() == mask_words(vocab_size as nat)),
{
    mask.len() == (vocab_size / 32) as usize + 1
}

/// Whether `mask` permits `tok`.
pub fn mask_allows(mask: &Vec<u32>, tok: u32) -> (allowed: bool)
    ensures
        allowed == bit_set(mask@, tok as int),
{
    let word: usize = (tok / 32) as usize;
    if word >= mask.len() {
        return false;
    }
    let bit: u32 = tok % 32;
    (mask[word] >> bit) & 1 == 1
}

} // verus!
