//! The packed vocabulary buffer: two header bytes per entry, then its content.
//!
//! Header byte 0 carries the flags (bit 7 reserved, bit 6 special) and the
//! high nibble of the 12-bit length; header byte 1 carries the low byte of the
//! length. An entry's index in the buffer is its token identifier.

use vstd::prelude::*;

verus! {

/// Longest content that a 12-bit length can describe.
pub const MAX_ENTRY_LEN: usize = 4095;

/// Flag bit that must be clear in every header.
pub const FLAG_RESERVED: u8 = 0x80;

/// Flag bit that marks a special (non-decodable) entry.
pub const FLAG_SPECIAL: u8 = 0x40;

/// One vocabulary entry: its bytes, and whether it is a special token.
#[derive(Debug)]
pub struct VocabularyEntry {
    pub bytes: Vec<u8>,
    pub is_special: bool,
}

/// Mathematical model of a vocabulary entry.
pub struct EntryModel {
    pub bytes: Seq<u8>,
    pub is_special: bool,
}

impl View for VocabularyEntry {
    type V = EntryModel;

    open spec fn view(&self) -> EntryModel {
        EntryModel { bytes: self.bytes@, is_special: self.is_special }
    }
}

/// Why a packed vocabulary buffer was rejected.
#[derive(Debug, Clone, Copy, PartialEq, Eq, Structural)]
pub enum VocabError {
    /// A header has the reserved flag bit set.
    ReservedFlag,
    /// A non-special entry announces more content than the buffer holds.
    Truncated,
    /// An entry cannot be packed: too long, or special with content.
    Unrepresentable,
}

/// The models of a sequence of entries, in order.
pub open spec fn models(entries: Seq<VocabularyEntry>) -> Seq<EntryModel> {
    Seq::new(entries.len(), |i: int| entries[i]@)
}

/// The 12-bit content length that a header announces.
pub open spec fn header_len(flags: u8, low: u8) -> nat {
    ((flags & 0x0f) as nat) * 256 + low as nat
}

/// Whether a header has the reserved bit set.
pub open spec fn header_reserved(flags: u8) -> bool {
    flags & 0x80 != 0
}

/// Whether a header marks its entry as special.
pub open spec fn header_special(flags: u8) -> bool {
    flags & 0x40 != 0
}

/// Puts `first` in front of a successful parse of the rest.
pub open spec fn prepend(
    first: Seq<EntryModel>,
    rest: Result<Seq<EntryModel>, VocabError>,
) -> Result<Seq<EntryModel>, VocabError> {
    match rest {
        Ok(es) => Ok(first + es),
        Err(e) => Err(e),
    }
}

/// What a packed buffer means: its entries in order, or why it is malformed.
///
/// Reading stops once fewer than two bytes remain. A special entry has no
/// stored content, but the length its header announces is still skipped.
pub open spec fn parse_spec(buf: Seq<u8>) -> Result<Seq<EntryModel>, VocabError>
    decreases buf.len(),
{
    if buf.len() < 2 {
        Ok(Seq::empty())
    } else if header_reserved(buf[0]) {
        Err(VocabError::ReservedFlag)
    } else {
        let len = header_len(buf[0], buf[1]) as int;
        if header_special(buf[0]) {
            let entry = EntryModel { bytes: Seq::empty(), is_special: true };
            if buf.len() < 2 + len {
                Ok(seq![entry])
            } else {
                prepend(seq![entry], parse_spec(buf.subrange(2 + len, buf.len() as int)))
            }
        } else if buf.len() < 2 + len {
            Err(VocabError::Truncated)
        } else {
            let entry = EntryModel { bytes: buf.subrange(2, 2 + len), is_special: false };
            prepend(seq![entry], parse_spec(buf.subrange(2 + len, buf.len() as int)))
        }
    }
}

/// Whether an entry has a packed form that reads back as itself.
pub open spec fn entry_valid(e: EntryModel) -> bool {
    &&& e.bytes.len() <= MAX_ENTRY_LEN
    &&& e.is_special ==> e.bytes.len() == 0
}

/// Whether every entry of a vocabulary has a packed form.
pub open spec fn packable(entries: Seq<EntryModel>) -> bool {
    forall|i: int| 0 <= i < entries.len() ==> entry_valid(#[trigger] entries[i])
}

/// The flags byte of an entry's header.
pub open spec fn flags_of(e: EntryModel) -> u8 {
    if e.is_special {
        0x40u8
    } else {
        (e.bytes.len() / 256) as u8
    }
}

/// The packed form of one entry.
pub open spec fn pack_entry(e: EntryModel) -> Seq<u8> {
    seq![flags_of(e), (e.bytes.len() % 256) as u8] + e.bytes
}

/// The packed form of a sequence of entries: their packed forms in order.
pub open spec fn pack_spec(entries: Seq<EntryModel>) -> Seq<u8>
    decreases entries.len(),
{
    if entries.len() == 0 {
        Seq::empty()
    } else {
        pack_entry(entries[0]) + pack_spec(entries.subrange(1, entries.len() as int))
    }
}


/// Facts about the flag bits of a header byte that carries a small nibble.
proof fn lemma_nibble_flags(f: u8)
    requires
        f <= 15,
    ensures
        f & 0x80 == 0,
        f & 0x40 == 0,
        f & 0x0f == f,
{
    assert(f <= 15 ==> f & 0x80 == 0 && f & 0x40 == 0 && f & 0x0f == f) by (bit_vector);
}

/// The header of a valid entry announces that entry: its length, its special
/// bit, and no reserved bit.
pub proof fn lemma_header_of_valid(e: EntryModel)
    requires
        entry_valid(e),
    ensures
        !header_reserved(flags_of(e)),
        header_special(flags_of(e)) == e.is_special,
        header_len(flags_of(e), (e.bytes.len() % 256) as u8) == e.bytes.len(),
{
    if e.is_special {
        assert(0x40u8 & 0x80 == 0 && 0x40u8 & 0x40 != 0 && 0x40u8 & 0x0f == 0) by (bit_vector);
    } else {
        lemma_nibble_flags((e.bytes.len() / 256) as u8);
    }
}

/// Packing a sequence with one more entry at its end appends that entry's
/// packed form.
pub proof fn lemma_pack_push(entries: Seq<EntryModel>, e: EntryModel)
    ensures
        pack_spec(entries.push(e)) == pack_spec(entries) + pack_entry(e),
    decreases entries.len(),
{
    let longer = entries.push(e);
    if entries.len() == 0 {
        assert(longer.subrange(1, longer.len() as int) =~= Seq::<EntryModel>::empty());
        assert(pack_spec(longer.subrange(1, longer.len() as int)) =~= Seq::<u8>::empty());
        assert(pack_spec(longer) =~= pack_entry(e));
        assert(pack_spec(entries) + pack_entry(e) =~= pack_entry(e));
    } else {
        let tail = entries.subrange(1, entries.len() as int);
        lemma_pack_push(tail, e);
        assert(longer.subrange(1, longer.len() as int) =~= tail.push(e));
        assert(longer[0] == entries[0]);
        assert(pack_spec(longer) =~= pack_spec(entries) + pack_entry(e));
    }
}

/// A buffer that starts with the packed form of valid entries parses to those
/// entries followed by whatever the rest of the buffer parses to.
pub proof fn lemma_parse_after_pack(entries: Seq<EntryModel>, tail: Seq<u8>)
    requires
        forall|i: int| 0 <= i < entries.len() ==> entry_valid(#[trigger] entries[i]),
    ensures
        parse_spec(pack_spec(entries) + tail) == prepend(entries, parse_spec(tail)),
    decreases entries.len(),
{
    if entries.len() == 0 {
        assert(pack_spec(entries) + tail =~= tail);
        match parse_spec(tail) {
            Ok(es) => {
                assert(entries + es =~= es);
            },
            Err(_) => {},
        }
    } else {
        let e = entries[0];
        let rest = entries.subrange(1, entries.len() as int);
        let buf = pack_spec(entries) + tail;
        let len = e.bytes.len() as int;
        assert(entry_valid(e));
        lemma_header_of_valid(e);
        assert forall|i: int| 0 <= i < rest.len() implies entry_valid(#[trigger] rest[i]) by {
            assert(rest[i] == entries[i + 1]);
        }
        lemma_parse_after_pack(rest, tail);
        assert(buf[0] == flags_of(e));
        assert(buf[1] == (e.bytes.len() % 256) as u8);
        assert(buf.len() >= 2 + len);
        assert(buf.subrange(2 + len, buf.len() as int) =~= pack_spec(rest) + tail);
        assert(buf.subrange(2, 2 + len) =~= e.bytes);
        let entry = if e.is_special {
            EntryModel { bytes: Seq::empty(), is_special: true }
        } else {
            EntryModel { bytes: buf.subrange(2, 2 + len), is_special: false }
        };
        assert(entry.bytes =~= e.bytes);
        assert(entry == e);
        assert(parse_spec(buf) == prepend(seq![e], parse_spec(pack_spec(rest) + tail)));
        match parse_spec(tail) {
            Ok(es) => {
                assert(seq![e] + (rest + es) =~= entries + es);
            },
            Err(_) => {},
        }
    }
}

/// Packing valid entries and reading the buffer back yields the same entries,
/// content and special bit preserved, for every length up to the 12-bit limit.
pub proof fn lemma_pack_parse_roundtrip(entries: Seq<EntryModel>)
    requires
        forall|i: int| 0 <= i < entries.len() ==> entry_valid(#[trigger] entries[i]),
    ensures
        parse_spec(pack_spec(entries)) == Ok::<Seq<EntryModel>, VocabError>(entries),
{
    lemma_parse_after_pack(entries, Seq::empty());
    assert(pack_spec(entries) + Seq::<u8>::empty() =~= pack_spec(entries));
    assert(entries + Seq::<EntryModel>::empty() =~= entries);
}


/// Reads a packed vocabulary buffer.
///
/// Returns the entries in identifier order, or the reason the buffer is
/// malformed: a reserved flag bit, or content that ends before its announced
/// length.
pub fn parse_token_info(info: &[u8]) -> (res: Result<Vec<VocabularyEntry>, VocabError>)
    ensures
        match res {
            Ok(entries) => parse_spec(info@) == Ok::<Seq<EntryModel>, VocabError>(
                models(entries@),
            ),
            Err(e) => parse_spec(info@) == Err::<Seq<EntryModel>, VocabError>(e),
        },
{
    let n: usize = info.len();
    let mut entries: Vec<VocabularyEntry> = Vec::new();
    let mut idx: usize = 0;
    proof {
        assert(info@.subrange(0, n as int) =~= info@);
        assert(models(entries@) =~= Seq::<EntryModel>::empty());
        lemma_prepend_empty(parse_spec(info@));
    }
    while n - idx >= 2
        invariant
            idx <= n,
            n == info.len(),
            parse_spec(info@) == prepend(
                models(entries@),
                parse_spec(info@.subrange(idx as int, n as int)),
            ),
        decreases n - idx,
    {
        let ghost rest = info@.subrange(idx as int, n as int);
        let ghost before = models(entries@);
        let flags: u8 = info[idx];
        let low: u8 = info[idx + 1];
        assert(rest[0] == flags && rest[1] == low);
        if flags & FLAG_RESERVED != 0 {
            return Err(VocabError::ReservedFlag);
        }
        let nibble: u8 = flags & 0x0f;
        assert(nibble <= 15) by (bit_vector)
            requires
                nibble == flags & 0x0f,
        ;
        let len: usize = (nibble as usize) * 256 + (low as usize);
        assert(len == header_len(flags, low));
        let is_special: bool = flags & FLAG_SPECIAL != 0;
        let avail: usize = n - idx - 2;
        let mut word: Vec<u8> = Vec::new();
        if !is_special {
            if avail < len {
                return Err(VocabError::Truncated);
            }
            let mut i: usize = 0;
            while i < len
                invariant
                    i <= len,
                    idx + 2 + len <= n,
                    n == info.len(),
                    word@ == info@.subrange(idx + 2, idx + 2 + i),
                decreases len - i,
            {
                word.push(info[idx + 2 + i]);
                i += 1;
                assert(word@ =~= info@.subrange(idx + 2, idx + 2 + i));
            }
            assert(word@ =~= rest.subrange(2, 2 + len));
        }
        let entry = VocabularyEntry { bytes: word, is_special };
        let ghost m = entry@;
        entries.push(entry);
        proof {
            assert(models(entries@) =~= before.push(m));
            assert(before.push(m) =~= before + seq![m]);
        }
        if avail < len {
            proof {
                assert(parse_spec(rest) == Ok::<Seq<EntryModel>, VocabError>(seq![m]));
                assert(info@.subrange(n as int, n as int).len() == 0);
                assert((before + seq![m]) + Seq::<EntryModel>::empty() =~= before + seq![m]);
            }
            idx = n;
        } else {
            proof {
                let after = info@.subrange(idx + 2 + len, n as int);
                assert(rest.subrange(2 + len, rest.len() as int) =~= after);
                assert(parse_spec(rest) == prepend(seq![m], parse_spec(after)));
                lemma_prepend_assoc(before, seq![m], parse_spec(after));
            }
            idx = idx + 2 + len;
        }
    }
    proof {
        assert(parse_spec(info@.subrange(idx as int, n as int)) == Ok::<
            Seq<EntryModel>,
            VocabError,
        >(Seq::empty()));
        assert(models(entries@) + Seq::<EntryModel>::empty() =~= models(entries@));
    }
    Ok(entries)
}

/// Prepending nothing changes nothing.
proof fn lemma_prepend_empty(r: Result<Seq<EntryModel>, VocabError>)
    ensures
        prepend(Seq::empty(), r) == r,
{
    match r {
        Ok(es) => {
            assert(Seq::<EntryModel>::empty() + es =~= es);
        },
        Err(_) => {},
    }
}

/// Prepending in two steps is prepending the concatenation.
proof fn lemma_prepend_assoc(
    a: Seq<EntryModel>,
    b: Seq<EntryModel>,
    r: Result<Seq<EntryModel>, VocabError>,
)
    ensures
        prepend(a, prepend(b, r)) == prepend(a + b, r),
{
    match r {
        Ok(es) => {
            assert(a + (b + es) =~= (a + b) + es);
        },
        Err(_) => {},
    }
}

/// Writes entries in the packed layout.
///
/// Fails exactly when some entry has no packed form: content longer than the
/// 12-bit limit, or a special entry that carries content.
pub fn pack_entries(entries: &Vec<VocabularyEntry>) -> (res: Result<Vec<u8>, VocabError>)
    ensures
        res is Ok <==> (forall|i: int| 0 <= i < entries.len() ==> entry_valid(entries[i]@)),
        res matches Ok(buf) ==> buf@ == pack_spec(models(entries@)),
        res matches Ok(buf) ==> parse_spec(buf@) == Ok::<Seq<EntryModel>, VocabError>(
            models(entries@),
        ),
        res matches Err(e) ==> e == VocabError::Unrepresentable,
{
    let mut buf: Vec<u8> = Vec::new();
    let mut k: usize = 0;
    proof {
        assert(models(entries@).take(0) =~= Seq::<EntryModel>::empty());
    }
    while k < entries.len()
        invariant
            k <= entries.len(),
            forall|i: int| 0 <= i < k ==> entry_valid(entries[i]@),
            buf@ == pack_spec(models(entries@).take(k as int)),
        decreases entries.len() - k,
    {
        let e = &entries[k];
        let len: usize = e.bytes.len();
        if len > MAX_ENTRY_LEN || (e.is_special && len != 0) {
            assert(!entry_valid(entries[k as int]@));
            return Err(VocabError::Unrepresentable);
        }
        let flags: u8 = if e.is_special {
            FLAG_SPECIAL
        } else {
            (len / 256) as u8
        };
        let ghost before = buf@;
        buf.push(flags);
        buf.push((len % 256) as u8);
        let mut i: usize = 0;
        while i < len
            invariant
                i <= len,
                len == e.bytes.len(),
                buf@ == before + seq![flags, (len % 256) as u8] + e.bytes@.take(i as int),
            decreases len - i,
        {
            buf.push(e.bytes[i]);
            i += 1;
            assert(e.bytes@.take(i as int) =~= e.bytes@.take(i - 1).push(e.bytes@[i - 1]));
        }
        proof {
            let ms = models(entries@);
            assert(e.bytes@.take(len as int) =~= e.bytes@);
            assert(buf@ =~= before + pack_entry(e@));
            assert(ms.take(k + 1) =~= ms.take(k as int).push(e@));
            lemma_pack_push(ms.take(k as int), e@);
        }
        k += 1;
    }
    proof {
        assert(models(entries@).take(k as int) =~= models(entries@));
        lemma_pack_parse_roundtrip(models(entries@));
    }
    Ok(buf)
}

} // verus!
