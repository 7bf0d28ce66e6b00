//! Byte-exact segmentation: which identifier sequences spell a byte string,
//! and which of two candidate segmentations is used.

use vstd::prelude::*;
use crate::vocab::{models, EntryModel, VocabularyEntry};

verus! {

/// Why no segmentation could be returned.
#[derive(Debug, Clone, Copy, PartialEq, Eq, Structural)]
pub enum SegmentError {
    /// Neither the host's segmentation nor the fallback spells the input.
    Irreconcilable,
}

/// The bytes of identifier `id`; nothing for an identifier out of range.
pub open spec fn token_bytes(entries: Seq<EntryModel>, id: u32) -> Seq<u8> {
    if id < entries.len() {
        entries[id as int].bytes
    } else {
        Seq::empty()
    }
}

/// The concatenated bytes of a sequence of identifiers.
pub open spec fn decode(entries: Seq<EntryModel>, tokens: Seq<u32>) -> Seq<u8>
    decreases tokens.len(),
{
    if tokens.len() == 0 {
        Seq::empty()
    } else {
        decode(entries, tokens.drop_last()) + token_bytes(entries, tokens.last())
    }
}

/// Whether an identifier may stand in a segmentation: it names an entry that
/// is not special and carries at least one byte.
pub open spec fn segmentable(entries: Seq<EntryModel>, id: u32) -> bool {
    &&& id < entries.len()
    &&& !entries[id as int].is_special
    &&& entries[id as int].bytes.len() >= 1
}

/// Whether every identifier may stand in a segmentation.
pub open spec fn admissible(entries: Seq<EntryModel>, tokens: Seq<u32>) -> bool {
    forall|i: int| 0 <= i < tokens.len() ==> segmentable(entries, #[trigger] tokens[i])
}

/// Whether `tokens` is a segmentation of `s`: free of special, empty and
/// unknown identifiers, and byte-identical to `s` when concatenated.
pub open spec fn spells(entries: Seq<EntryModel>, tokens: Seq<u32>, s: Seq<u8>) -> bool {
    admissible(entries, tokens) && decode(entries, tokens) == s
}

/// The segmentation rule: the host's answer if it spells the input, else the
/// fallback if that does, else nothing.
pub open spec fn choose_spec(
    entries: Seq<EntryModel>,
    s: Seq<u8>,
    host: Seq<u32>,
    fallback: Seq<u32>,
) -> Result<Seq<u32>, SegmentError> {
    if spells(entries, host, s) {
        Ok(host)
    } else if spells(entries, fallback, s) {
        Ok(fallback)
    } else {
        Err(SegmentError::Irreconcilable)
    }
}

/// Decoding one more identifier appends its bytes.
pub proof fn lemma_decode_push(entries: Seq<EntryModel>, tokens: Seq<u32>, id: u32)
    ensures
        decode(entries, tokens.push(id)) == decode(entries, tokens) + token_bytes(entries, id),
{
    assert(tokens.push(id).drop_last() =~= tokens);
}

/// The decoding of a prefix is a prefix of the decoding.
pub proof fn lemma_decode_prefix(entries: Seq<EntryModel>, tokens: Seq<u32>, k: int)
    requires
        0 <= k <= tokens.len(),
    ensures
        decode(entries, tokens.take(k)).len() <= decode(entries, tokens).len(),
        decode(entries, tokens.take(k)) == decode(entries, tokens).take(
            decode(entries, tokens.take(k)).len() as int,
        ),
    decreases tokens.len() - k,
{
    if k == tokens.len() {
        assert(tokens.take(k) =~= tokens);
        assert(decode(entries, tokens).take(decode(entries, tokens).len() as int) =~= decode(
            entries,
            tokens,
        ));
    } else {
        lemma_decode_prefix(entries, tokens, k + 1);
        assert(tokens.take(k + 1).drop_last() =~= tokens.take(k));
        let longer = decode(entries, tokens.take(k + 1));
        let shorter = decode(entries, tokens.take(k));
        assert(longer == shorter + token_bytes(entries, tokens[k]));
        assert(shorter =~= decode(entries, tokens).take(shorter.len() as int));
    }
}

/// Decides whether `tokens` spells `s` over the given vocabulary.
pub fn spells_exactly(entries: &Vec<VocabularyEntry>, tokens: &[u32], s: &[u8]) -> (ok: bool)
    ensures
        ok == spells(models(entries@), tokens@, s@),
{
    let ghost es = models(entries@);
    let mut pos: usize = 0;
    let mut k: usize = 0;
    proof {
        assert(tokens@.take(0) =~= Seq::<u32>::empty());
        assert(s@.take(0) =~= Seq::<u8>::empty());
    }
    while k < tokens.len()
        invariant
            k <= tokens.len(),
            pos <= s.len(),
            es == models(entries@),
            admissible(es, tokens@.take(k as int)),
            decode(es, tokens@.take(k as int)) == s@.take(pos as int),
        decreases tokens.len() - k,
    {
        let id: u32 = tokens[k];
        if id as usize >= entries.len() {
            assert(!admissible(es, tokens@)) by {
                assert(tokens@[k as int] == id);
            }
            return false;
        }
        let entry = &entries[id as usize];
        if entry.is_special {
            assert(!admissible(es, tokens@)) by {
                assert(tokens@[k as int] == id);
            }
            return false;
        }
        let len: usize = entry.bytes.len();
        if len == 0 {
            assert(!admissible(es, tokens@)) by {
                assert(tokens@[k as int] == id);
            }
            return false;
        }
        let ghost whole = decode(es, tokens@);
        let ghost part = decode(es, tokens@.take(k + 1));
        proof {
            assert(tokens@.take(k + 1) =~= tokens@.take(k as int).push(id));
            lemma_decode_push(es, tokens@.take(k as int), id);
            lemma_decode_prefix(es, tokens@, k + 1);
            assert(token_bytes(es, id) == entry.bytes@);
            assert(part == s@.take(pos as int) + entry.bytes@);
        }
        if s.len() - pos < len {
            return false;
        }
        let mut j: usize = 0;
        while j < len
            invariant
                j <= len,
                len == entry.bytes.len(),
                pos + len <= s.len(),
                part == s@.take(pos as int) + entry.bytes@,
                part.len() <= whole.len(),
                part == whole.take(part.len() as int),
                whole == decode(es, tokens@),
                es == models(entries@),
                s@.subrange(pos as int, pos + j) == entry.bytes@.take(j as int),
            decreases len - j,
        {
            if s[pos + j] != entry.bytes[j] {
                proof {
                    assert(s@.take(pos as int).len() == pos);
                    assert(part.len() == pos + len);
                    assert(part[pos + j] == entry.bytes@[j as int]);
                    assert(whole.take(part.len() as int)[pos + j] == whole[pos + j]);
                    assert(whole[pos + j] != s@[pos + j]);
                }
                return false;
            }
            j += 1;
            assert(s@.subrange(pos as int, pos + j) =~= entry.bytes@.take(j as int));
        }
        proof {
            assert(entry.bytes@.take(len as int) =~= entry.bytes@);
            assert(s@.take(pos + len) =~= s@.take(pos as int) + s@.subrange(
                pos as int,
                pos + len,
            ));
            assert forall|i: int| 0 <= i < k + 1 implies segmentable(
                es,
                #[trigger] tokens@.take(k + 1)[i],
            ) by {
                if i < k {
                    assert(tokens@.take(k as int)[i] == tokens@.take(k + 1)[i]);
                }
            }
        }
        pos = pos + len;
        k += 1;
    }
    proof {
        assert(tokens@.take(k as int) =~= tokens@);
        if pos == s.len() {
            assert(s@.take(pos as int) =~= s@);
        }
    }
    pos == s.len()
}

/// Picks the segmentation of `s`: the host's if it is byte-exact, else the
/// fallback if that is.
pub fn choose_segmentation(
    entries: &Vec<VocabularyEntry>,
    s: &[u8],
    host: Vec<u32>,
    fallback: Vec<u32>,
) -> (res: Result<Vec<u32>, SegmentError>)
    ensures
        match res {
            Ok(tokens) => choose_spec(models(entries@), s@, host@, fallback@) == Ok::<
                Seq<u32>,
                SegmentError,
            >(tokens@),
            Err(e) => choose_spec(models(entries@), s@, host@, fallback@) == Err::<
                Seq<u32>,
                SegmentError,
            >(e),
        },
{
    if spells_exactly(entries, host.as_slice(), s) {
        Ok(host)
    } else if spells_exactly(entries, fallback.as_slice(), s) {
        Ok(fallback)
    } else {
        Err(SegmentError::Irreconcilable)
    }
}

/// A segmentation has at most one identifier for each byte that it spells.
pub proof fn lemma_segmentation_length(entries: Seq<EntryModel>, tokens: Seq<u32>)
    requires
        admissible(entries, tokens),
    ensures
        tokens.len() <= decode(entries, tokens).len(),
    decreases tokens.len(),
{
    if tokens.len() > 0 {
        let front = tokens.drop_last();
        assert forall|i: int| 0 <= i < front.len() implies segmentable(
            entries,
            #[trigger] front[i],
        ) by {
            assert(front[i] == tokens[i]);
        }
        lemma_segmentation_length(entries, front);
        assert(segmentable(entries, tokens[tokens.len() - 1]));
    }
}

/// Every segmentation that is returned spells the input exactly, and is
/// determined by the vocabulary, the input and the two candidates alone.
pub proof fn lemma_chosen_spells(
    entries: Seq<EntryModel>,
    s: Seq<u8>,
    host: Seq<u32>,
    fallback: Seq<u32>,
)
    ensures
        choose_spec(entries, s, host, fallback) matches Ok(tokens) ==> spells(entries, tokens, s),
        choose_spec(entries, s, host, fallback) is Err <==> !spells(entries, host, s) && !spells(
            entries,
            fallback,
            s,
        ),
{
}

} // verus!
