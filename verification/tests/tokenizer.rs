use guidance_bridge::segment::{choose_segmentation, spells_exactly, SegmentError};
use guidance_bridge::tokenizer::JsTokEnv;
use guidance_bridge::vocab::{pack_entries, VocabError, VocabularyEntry};

fn normal(bytes: &[u8]) -> VocabularyEntry {
    VocabularyEntry { bytes: bytes.to_vec(), is_special: false }
}

fn special() -> VocabularyEntry {
    VocabularyEntry { bytes: Vec::new(), is_special: true }
}

fn hello_vocab() -> Vec<VocabularyEntry> {
    vec![normal(b"he"), normal(b"llo"), normal(b"hell"), normal(b"o")]
}

fn hello_env() -> JsTokEnv {
    let buf = pack_entries(&hello_vocab()).unwrap();
    JsTokEnv::build(4, -1, &buf).unwrap()
}

#[test]
fn greedy_fallback() {
    let env = hello_env();
    let tokens = env.tokenize_bytes(b"hello", Vec::new()).unwrap();
    assert_eq!(tokens, vec![2, 3]);
    let mut bytes = Vec::new();
    for t in &tokens {
        bytes.extend_from_slice(&env.vocabulary()[*t as usize].bytes);
    }
    assert_eq!(bytes, b"hello".to_vec());
}

#[test]
fn exact_host_segmentation_is_kept() {
    let env = hello_env();
    assert_eq!(env.tokenize_bytes(b"hello", vec![0, 1]).unwrap(), vec![0, 1]);
    assert_eq!(env.tokenize_bytes(b"", Vec::new()).unwrap(), Vec::<u32>::new());
}

#[test]
fn inexact_host_segmentation_falls_back() {
    let env = hello_env();
    assert_eq!(env.tokenize_bytes(b"hello", vec![0, 3]).unwrap(), vec![2, 3]);
    assert_eq!(env.tokenize_bytes(b"hello", vec![0, 1, 3]).unwrap(), vec![2, 3]);
    assert_eq!(env.tokenize_bytes(b"hello", vec![0, 1, 9]).unwrap(), vec![2, 3]);
    assert_eq!(env.tokenize_bytes(b"ohe", vec![2]).unwrap(), vec![3, 0]);
}

#[test]
fn segmentation_is_deterministic() {
    let env = hello_env();
    let a = env.tokenize_bytes(b"hellohe", vec![1]);
    let b = env.tokenize_bytes(b"hellohe", vec![1]);
    assert_eq!(a, b);
    assert_eq!(a.unwrap(), vec![2, 3, 0]);
}

#[test]
fn unspellable_input_is_irreconcilable() {
    let env = hello_env();
    assert_eq!(env.tokenize_bytes(b"help", Vec::new()), Err(SegmentError::Irreconcilable));
    assert_eq!(env.tokenize_bytes(b"x", vec![3]), Err(SegmentError::Irreconcilable));
}

#[test]
fn special_identifiers_never_segment_text() {
    let entries = vec![normal(b"a"), special(), normal(b"b")];
    assert!(spells_exactly(&entries, &[0, 2], b"ab"));
    assert!(!spells_exactly(&entries, &[0, 1, 2], b"ab"));
    assert!(!spells_exactly(&entries, &[0, 3], b"a"));
    assert!(!spells_exactly(&entries, &[0], b"ab"));
    assert!(!spells_exactly(&entries, &[0, 2], b"a"));
    assert!(!spells_exactly(&entries, &[2, 0], b"ab"));
    assert!(spells_exactly(&entries, &[], b""));
    let buf = pack_entries(&entries).unwrap();
    let env = JsTokEnv::build(3, 1, &buf).unwrap();
    assert_eq!(env.tokenize_bytes(b"ab", vec![0, 1, 2]).unwrap(), vec![0, 2]);
}

#[test]
fn choice_between_two_candidates() {
    let entries = hello_vocab();
    assert_eq!(choose_segmentation(&entries, b"hello", vec![0, 1], vec![2, 3]), Ok(vec![0, 1]));
    assert_eq!(choose_segmentation(&entries, b"hello", vec![0], vec![2, 3]), Ok(vec![2, 3]));
    assert_eq!(
        choose_segmentation(&entries, b"hello", vec![0], vec![2]),
        Err(SegmentError::Irreconcilable)
    );
}

#[test]
fn trie_holds_the_vocabulary_words() {
    let entries = vec![normal(b"he"), special(), normal(b"hell"), normal(b"o")];
    let buf = pack_entries(&entries).unwrap();
    let env = JsTokEnv::build(4, 1, &buf).unwrap();
    let trie = env.tok_trie().unwrap();
    assert_eq!(trie.vocab_size(), 4);
    assert_eq!(trie.token(0), b"he");
    assert_eq!(trie.token(1), b"");
    assert_eq!(trie.token(2), b"hell");
    assert_eq!(trie.token(3), b"o");
    assert_eq!(trie.eos_token(), 1);
    assert_eq!(trie.token_id(b"hell"), Some(2));
    assert_eq!(env.vocabulary().len(), 4);
}

#[test]
fn end_of_sequence_out_of_range_is_absent() {
    let buf = pack_entries(&hello_vocab()).unwrap();
    assert_eq!(JsTokEnv::build(4, -1, &buf).unwrap().eos_token(), None);
    assert_eq!(JsTokEnv::build(4, 4, &buf).unwrap().eos_token(), None);
    assert_eq!(JsTokEnv::build(4, i32::MAX, &buf).unwrap().eos_token(), None);
    assert_eq!(JsTokEnv::build(4, i32::MIN, &buf).unwrap().eos_token(), None);
    assert_eq!(JsTokEnv::build(4, 3, &buf).unwrap().eos_token(), Some(3));
    assert_eq!(JsTokEnv::build(4, 0, &buf).unwrap().eos_token(), Some(0));
    assert_eq!(JsTokEnv::build(4, 9, &buf).unwrap().tok_trie().unwrap().eos_token(), u32::MAX);
    assert_eq!(JsTokEnv::build(4, 3, &buf).unwrap().vocab_size(), 4);
}

#[test]
fn only_a_malformed_buffer_is_refused() {
    assert_eq!(JsTokEnv::build(1, -1, &[0x80, 0x00]).err(), Some(VocabError::ReservedFlag));
    assert_eq!(JsTokEnv::build(1, -1, &[0x00, 0x02, b'a']).err(), Some(VocabError::Truncated));
    assert!(JsTokEnv::build(0, -1, &[]).is_ok());
}

#[test]
fn longest_entry_builds_a_view() {
    let mut buf = vec![0x0F, 0xFF];
    buf.extend(std::iter::repeat(0x61u8).take(4095));
    assert_eq!(buf.len(), 4097);
    let env = JsTokEnv::build(1, -1, &buf).unwrap();
    assert_eq!(env.vocabulary().len(), 1);
    assert_eq!(env.vocabulary()[0].bytes, vec![0x61u8; 4095]);
    assert!(!env.vocabulary()[0].is_special);
    assert_eq!(env.vocab_size(), 1);
    assert_eq!(env.eos_token(), None);
    assert!(env.tok_trie().is_none());
    assert_eq!(env.tokenize_bytes(&vec![0x61u8; 4095], vec![0]).unwrap(), vec![0]);
    assert_eq!(env.tokenize_bytes(b"a", vec![0]), Err(SegmentError::Irreconcilable));
}

#[test]
fn packed_entries_are_kept_under_their_index() {
    let entries = vec![normal(b"zz"), special(), normal(b""), normal(&vec![9u8; 300]), special()];
    let buf = pack_entries(&entries).unwrap();
    let env = JsTokEnv::new(5, 4, &buf).unwrap();
    assert_eq!(env.vocabulary().len(), 5);
    for (i, e) in entries.iter().enumerate() {
        assert_eq!(env.vocabulary()[i].bytes, e.bytes);
        assert_eq!(env.vocabulary()[i].is_special, e.is_special);
    }
    assert_eq!(env.eos_token(), Some(4));
    assert!(env.tok_trie().is_some());
}

#[test]
fn trie_is_built_where_it_can_hold_the_vocabulary() {
    let buf = pack_entries(&hello_vocab()).unwrap();
    assert!(JsTokEnv::build(4, -1, &buf).unwrap().tok_trie().is_some());
    let declared_more = JsTokEnv::build(5, -1, &buf).unwrap();
    assert!(declared_more.tok_trie().is_none());
    assert_eq!(declared_more.vocab_size(), 5);
    assert_eq!(declared_more.vocabulary().len(), 4);
    assert!(JsTokEnv::build(3, -1, &buf).unwrap().tok_trie().is_none());
    let long = pack_entries(&vec![normal(&vec![b'a'; 1025])]).unwrap();
    assert!(JsTokEnv::build(1, -1, &long).unwrap().tok_trie().is_none());
    let fits = pack_entries(&vec![normal(&vec![b'a'; 1024])]).unwrap();
    let env = JsTokEnv::build(1, -1, &fits).unwrap();
    assert_eq!(env.tok_trie().unwrap().token(0).len(), 1024);
}

#[test]
fn entries_without_bytes_never_segment_text() {
    let entries = vec![normal(b"a"), normal(b""), normal(b"b")];
    assert!(spells_exactly(&entries, &[0, 2], b"ab"));
    assert!(!spells_exactly(&entries, &[0, 1, 2], b"ab"));
    assert!(!spells_exactly(&entries, &[1], b""));
    let buf = pack_entries(&entries).unwrap();
    let env = JsTokEnv::build(3, -1, &buf).unwrap();
    let tokens = env.tokenize_bytes(b"abba", vec![0, 1, 2, 2, 0]).unwrap();
    assert_eq!(tokens, vec![0, 2, 2, 0]);
    assert!(tokens.len() <= 4);
}

#[test]
fn duplicate_words_are_accepted() {
    let entries = vec![normal(b"ab"), normal(b"ab"), normal(b"abc"), normal(b"")];
    let buf = pack_entries(&entries).unwrap();
    let env = JsTokEnv::build(4, -1, &buf).unwrap();
    let tokens = env.tokenize_bytes(b"abcab", Vec::new()).unwrap();
    assert_eq!(tokens.len(), 2);
    assert_eq!(tokens[0], 2);
    assert!(tokens[1] == 0 || tokens[1] == 1);
}
