//! The byte trie of the `toktrie` crate, as far as the bridge uses it: it is
//! built from a vocabulary's words and answers greedy longest-match queries.
//! The contracts here are believed, not proved.

use vstd::prelude::*;
use llguidance::toktrie::{TokRxInfo, TokTrie};

verus! {

/// Identifier that stands for "no token" in the trie's own records.
pub const INVALID_TOKEN: u32 = 0xffff_ffff;

/// Largest vocabulary that the trie's node layout can index.
pub const MAX_TRIE_VOCAB: u32 = 0x00ff_fffe;

/// Longest word that the trie's node layout can hold on any path.
pub const MAX_TRIE_WORD: usize = 1024;

/// Largest total of word bytes that the trie's node layout can hold.
pub const MAX_TRIE_BYTES: usize = 0x003f_fff0;

// The trie is carried through without a look inside.
#[verifier::external_type_specification]
#[verifier::external_body]
pub struct ExTokTrie(TokTrie);

/// The words that a trie holds, by identifier.
pub uninterp spec fn trie_words(trie: TokTrie) -> Seq<Seq<u8>>;

/// The identifiers that the trie's greedy longest-match walk yields for
/// `bytes`.
pub uninterp spec fn trie_greedy(trie: TokTrie, bytes: Seq<u8>) -> Seq<u32>;

/// The byte sequences of a list of words.
pub open spec fn word_seqs(words: Seq<Vec<u8>>) -> Seq<Seq<u8>> {
    Seq::new(words.len(), |i: int| words[i]@)
}

/// The total number of bytes in a list of words.
pub open spec fn total_len(words: Seq<Seq<u8>>) -> nat
    decreases words.len(),
{
    if words.len() == 0 {
        0
    } else {
        total_len(words.drop_last()) + words.last().len()
    }
}

/// Whether a vocabulary fits the trie's node layout: identifiers, path
/// depths and node counts all stay within its bit fields.
pub open spec fn fits_trie(vocab_size: u32, words: Seq<Seq<u8>>) -> bool {
    &&& vocab_size == words.len()
    &&& vocab_size <= MAX_TRIE_VOCAB
    &&& forall|i: int| 0 <= i < words.len() ==> (#[trigger] words[i]).len() <= MAX_TRIE_WORD
    &&& total_len(words) <= MAX_TRIE_BYTES
}

/// Calls `TokTrie::from`. The trie holds exactly the given words, by index.
/// The call asserts that the declared size is the number of words and that
/// identifiers, depths and node counts fit its bit fields; `fits_trie` keeps
/// every input within them.
#[verifier::external_body]
pub(crate) fn build_trie(vocab_size: u32, eos: u32, words: &Vec<Vec<u8>>) -> (trie: TokTrie)
    requires
        fits_trie(vocab_size, word_seqs(words@)),
    ensures
        trie_words(trie) == word_seqs(words@),
{
    TokTrie::from(&TokRxInfo::new(vocab_size, eos), words)
}

/// Calls `TokTrie::greedy_tokenize`: from the left, the longest word that
/// matches is taken at each position, and a byte that starts no word is passed
/// over. The result is named, not described.
#[verifier::external_body]
pub(crate) fn greedy_tokenize(trie: &TokTrie, bytes: &[u8]) -> (tokens: Vec<u32>)
    ensures
        tokens@ == trie_greedy(*trie, bytes@),
{
    trie.greedy_tokenize(bytes)
}

} // verus!
