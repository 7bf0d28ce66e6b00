//! The tokenizer view: the vocabulary as the host declared it, the byte trie
//! over it where the trie can hold it, and byte-exact segmentation over both.

use vstd::prelude::*;
use llguidance::toktrie::TokTrie;
use crate::segment::{
    choose_segmentation, choose_spec, spells, spells_exactly, SegmentError,
};
use crate::trie::{
    build_trie, fits_trie, greedy_tokenize, total_len, trie_greedy, trie_words, word_seqs,
    INVALID_TOKEN, MAX_TRIE_BYTES, MAX_TRIE_VOCAB, MAX_TRIE_WORD,
};
use crate::vocab::{
    lemma_pack_parse_roundtrip, models, pack_spec, packable, parse_spec, parse_token_info,
    EntryModel, VocabError, VocabularyEntry,
};

verus! {

/// The word that the trie holds for an entry: its bytes, or nothing for a
/// special entry.
pub open spec fn word_of(e: EntryModel) -> Seq<u8> {
    if e.is_special {
        Seq::empty()
    } else {
        e.bytes
    }
}

/// The words that the trie holds for a vocabulary, by identifier.
pub open spec fn words_of(entries: Seq<EntryModel>) -> Seq<Seq<u8>> {
    Seq::new(entries.len(), |i: int| word_of(entries[i]))
}

/// The end-of-sequence identifier that a wire value declares: the value
/// itself if it names an entry, else none.
pub open spec fn eos_of(wire: i32, vocab_size: u32) -> Option<u32> {
    if 0 <= wire < vocab_size {
        Some(wire as u32)
    } else {
        None
    }
}

/// The total length of a prefix never exceeds the total length of the whole.
proof fn lemma_total_len_prefix(words: Seq<Seq<u8>>, k: int)
    requires
        0 <= k <= words.len(),
    ensures
        total_len(words.take(k)) <= total_len(words),
    decreases words.len() - k,
{
    if k == words.len() {
        assert(words.take(k) =~= words);
    } else {
        lemma_total_len_prefix(words, k + 1);
        assert(words.take(k + 1).drop_last() =~= words.take(k));
    }
}

/// Whether the byte trie can hold a vocabulary: the declared size is the
/// number of entries, and identifiers, path depths and node counts stay
/// within the trie's bit fields.
pub open spec fn trie_holds(vocab_size: u32, entries: Seq<EntryModel>) -> bool {
    fits_trie(vocab_size, words_of(entries))
}

/// The segmentation of `s` for a host answer: with a fallback, the choice
/// between the two; without one, the host's answer or nothing.
pub open spec fn segment_spec(
    entries: Seq<EntryModel>,
    s: Seq<u8>,
    host: Seq<u32>,
    fallback: Option<Seq<u32>>,
) -> Result<Seq<u32>, SegmentError> {
    match fallback {
        Some(f) => choose_spec(entries, s, host, f),
        None => choose_spec(entries, s, host, host),
    }
}

/// Copies the words of a vocabulary for the trie, if the trie can hold them.
fn words_for_trie(entries: &Vec<VocabularyEntry>, vocab_size: u32) -> (res: Option<Vec<Vec<u8>>>)
    ensures
        res is Some == trie_holds(vocab_size, models(entries@)),
        res matches Some(words) ==> word_seqs(words@) == words_of(models(entries@)),
{
    let ghost es = models(entries@);
    let ghost ws = words_of(es);
    if entries.len() != vocab_size as usize || vocab_size > MAX_TRIE_VOCAB {
        return None;
    }
    let mut words: Vec<Vec<u8>> = Vec::new();
    let mut total: usize = 0;
    let mut i: usize = 0;
    proof {
        assert(ws.take(0) =~= Seq::<Seq<u8>>::empty());
    }
    while i < entries.len()
        invariant
            i <= entries.len(),
            es == models(entries@),
            ws == words_of(es),
            es.len() == vocab_size,
            vocab_size <= MAX_TRIE_VOCAB,
            total == total_len(ws.take(i as int)),
            total <= MAX_TRIE_BYTES,
            word_seqs(words@) == ws.take(i as int),
            forall|k: int| 0 <= k < i ==> (#[trigger] ws[k]).len() <= MAX_TRIE_WORD,
        decreases entries.len() - i,
    {
        let entry = &entries[i];
        let word: Vec<u8> = if entry.is_special {
            Vec::new()
        } else {
            let copy = entry.bytes.clone();
            assert(copy@ =~= entry.bytes@);
            copy
        };
        assert(word@ == ws[i as int]);
        proof {
            assert(ws.take(i + 1).drop_last() =~= ws.take(i as int));
            lemma_total_len_prefix(ws, i + 1);
        }
        if word.len() > MAX_TRIE_WORD || word.len() > MAX_TRIE_BYTES - total {
            return None;
        }
        total = total + word.len();
        let ghost prev = word_seqs(words@);
        words.push(word);
        i += 1;
        proof {
            assert(word_seqs(words@) =~= prev.push(ws[i - 1]));
            assert(ws.take(i as int) =~= ws.take(i - 1).push(ws[i - 1]));
        }
    }
    proof {
        assert(ws.take(i as int) =~= ws);
        assert(fits_trie(vocab_size, ws));
    }
    Some(words)
}

/// An immutable description of the model's vocabulary, with its byte trie
/// where the trie can hold the vocabulary.
pub struct JsTokEnv {
    vocab_size: u32,
    eos_token: Option<u32>,
    entries: Vec<VocabularyEntry>,
    trie: Option<TokTrie>,
}

impl JsTokEnv {
    /// The vocabulary entries, by identifier.
    pub closed spec fn entries(&self) -> Seq<EntryModel> {
        models(self.entries@)
    }

    /// The declared vocabulary size.
    pub closed spec fn vocab(&self) -> u32 {
        self.vocab_size
    }

    /// The end-of-sequence identifier, if the host declared a valid one.
    pub closed spec fn eos(&self) -> Option<u32> {
        self.eos_token
    }

    /// The byte trie, if the view has one.
    pub closed spec fn trie(&self) -> Option<TokTrie> {
        self.trie
    }

    /// The fallback segmentation of `s`: the trie's greedy longest match,
    /// where there is a trie.
    pub open spec fn fallback(&self, s: Seq<u8>) -> Option<Seq<u32>> {
        match self.trie() {
            Some(t) => Some(trie_greedy(t, s)),
            None => None,
        }
    }

    /// The view's invariant: an end-of-sequence identifier below the declared
    /// size, and a trie exactly where it can hold the vocabulary, holding the
    /// entries' words.
    pub open spec fn wf(&self) -> bool {
        &&& self.eos() matches Some(e) ==> e < self.vocab()
        &&& self.trie() is Some == trie_holds(self.vocab(), self.entries())
        &&& self.trie() matches Some(t) ==> trie_words(t) == words_of(self.entries())
    }

    /// Builds the view from what the host declares: its vocabulary size, its
    /// end-of-sequence identifier (negative when absent), and the packed
    /// vocabulary buffer.
    ///
    /// Only a malformed buffer is refused. The size and the end-of-sequence
    /// identifier are stored as declared, except that an identifier out of
    /// range counts as absent. The trie is built where it can hold the
    /// vocabulary.
    pub fn build(vocab_size: u32, eos_token: i32, token_info: &[u8]) -> (res: Result<
        JsTokEnv,
        VocabError,
    >)
        ensures
            match res {
                Ok(env) => {
                    &&& parse_spec(token_info@) == Ok::<Seq<EntryModel>, VocabError>(
                        env.entries(),
                    )
                    &&& env.wf()
                    &&& env.vocab() == vocab_size
                    &&& env.eos() == eos_of(eos_token, vocab_size)
                },
                Err(e) => parse_spec(token_info@) == Err::<Seq<EntryModel>, VocabError>(e),
            },
            forall|es: Seq<EntryModel>|
                packable(es) && token_info@ == #[trigger] pack_spec(es) ==> (res matches Ok(env)
                    && env.entries() == es),
    {
        JsTokEnv::new(vocab_size, eos_token, token_info)
    }

    /// Reads the packed vocabulary, keeps the declared size and
    /// end-of-sequence identifier, and builds the trie where it can hold the
    /// vocabulary. Every entry is kept, content and special bit, under its
    /// index as identifier.
    pub fn new(vocab_size: u32, eos_token: i32, token_info: &[u8]) -> (res: Result<
        JsTokEnv,
        VocabError,
    >)
        ensures
            match res {
                Ok(env) => {
                    &&& parse_spec(token_info@) == Ok::<Seq<EntryModel>, VocabError>(
                        env.entries(),
                    )
                    &&& env.wf()
                    &&& env.vocab() == vocab_size
                    &&& env.eos() == eos_of(eos_token, vocab_size)
                },
                Err(e) => parse_spec(token_info@) == Err::<Seq<EntryModel>, VocabError>(e),
            },
            forall|es: Seq<EntryModel>|
                packable(es) && token_info@ == #[trigger] pack_spec(es) ==> (res matches Ok(env)
                    && env.entries() == es),
    {
        proof {
            assert forall|es: Seq<EntryModel>|
                packable(es) && token_info@ == #[trigger] pack_spec(es) implies parse_spec(
                token_info@,
            ) == Ok::<Seq<EntryModel>, VocabError>(es) by {
                lemma_pack_parse_roundtrip(es);
            }
        }
        let entries = match parse_token_info(token_info) {
            Ok(entries) => entries,
            Err(e) => {
                return Err(e);
            },
        };
        let eos: Option<u32> = if 0 <= eos_token && (eos_token as u32) < vocab_size {
            Some(eos_token as u32)
        } else {
            None
        };
        let trie_eos: u32 = match eos {
            Some(e) => e,
            None => INVALID_TOKEN,
        };
        let trie: Option<TokTrie> = match words_for_trie(&entries, vocab_size) {
            Some(words) => Some(build_trie(vocab_size, trie_eos, &words)),
            None => None,
        };
        Ok(JsTokEnv { vocab_size, eos_token: eos, entries, trie })
    }

    /// The number of identifiers that the host declared.
    pub fn vocab_size(&self) -> (n: u32)
        ensures
            n == self.vocab(),
    {
        self.vocab_size
    }

    /// The end-of-sequence identifier, if there is one.
    pub fn eos_token(&self) -> (e: Option<u32>)
        ensures
            e == self.eos(),
    {
        self.eos_token
    }

    /// The vocabulary entries, by identifier.
    pub fn vocabulary(&self) -> (entries: &Vec<VocabularyEntry>)
        ensures
            models(entries@) == self.entries(),
    {
        &self.entries
    }

    /// The byte trie over the non-special entries, if the view has one.
    pub fn tok_trie(&self) -> (trie: Option<&TokTrie>)
        ensures
            match trie {
                Some(t) => self.trie() == Some(*t),
                None => self.trie() is None,
            },
    {
        self.trie.as_ref()
    }

    /// Segments `s` into identifiers whose bytes concatenate to `s`.
    ///
    /// `host` is the host tokenizer's answer for `s`. It is returned if it is
    /// byte-exact; else the trie's greedy longest match is, if there is a
    /// trie and its match is byte-exact; else the input cannot be segmented.
    pub fn tokenize_bytes(&self, s: &[u8], host: Vec<u32>) -> (res: Result<
        Vec<u32>,
        SegmentError,
    >)
        ensures
            match res {
                Ok(tokens) => segment_spec(self.entries(), s@, host@, self.fallback(s@)) == Ok::<
                    Seq<u32>,
                    SegmentError,
                >(tokens@),
                Err(e) => segment_spec(self.entries(), s@, host@, self.fallback(s@)) == Err::<
                    Seq<u32>,
                    SegmentError,
                >(e),
            },
            res matches Ok(tokens) ==> spells(self.entries(), tokens@, s@),
            spells(self.entries(), host@, s@) ==> (res matches Ok(tokens) && tokens@ == host@),
    {
        if spells_exactly(&self.entries, host.as_slice(), s) {
            return Ok(host);
        }
        match &self.trie {
            Some(trie) => {
                let fallback = greedy_tokenize(trie, s);
                choose_segmentation(&self.entries, s, host, fallback)
            },
            None => Err(SegmentError::Irreconcilable),
        }
    }
}

} // verus!
