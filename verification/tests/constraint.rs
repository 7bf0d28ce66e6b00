use std::sync::Arc;

use guidance_bridge::constraint::{ConfigError, Constraint, ConstraintConfig, ConstraintSettings};
use guidance_bridge::mask::mask_allows;
use guidance_bridge::session::{Phase, SessionError};
use guidance_bridge::tokenizer::JsTokEnv;
use guidance_bridge::vocab::{pack_entries, VocabularyEntry};
use llguidance::toktrie::{TokEnv, TokTrie, TokenId, TokenizerEnv};
use llguidance::ParserFactory;

const EOS: u32 = 256;
const VOCAB: u32 = 257;

struct HostEnv {
    view: JsTokEnv,
}

impl TokenizerEnv for HostEnv {
    fn tok_trie(&self) -> &TokTrie {
        self.view.tok_trie().unwrap()
    }

    fn tokenize_bytes(&self, s: &[u8]) -> Vec<TokenId> {
        self.view.tokenize_bytes(s, Vec::new()).unwrap()
    }
}

struct LooseEnv {
    view: JsTokEnv,
}

impl TokenizerEnv for LooseEnv {
    fn tok_trie(&self) -> &TokTrie {
        self.view.tok_trie().unwrap()
    }

    fn tokenize_bytes(&self, s: &[u8]) -> Vec<TokenId> {
        self.view.tokenize_bytes(s, Vec::new()).unwrap()
    }

    fn tokenize_is_canonical(&self) -> bool {
        false
    }
}

fn byte_view() -> JsTokEnv {
    let mut entries: Vec<VocabularyEntry> = (0..=255u8)
        .map(|b| VocabularyEntry { bytes: vec![b], is_special: false })
        .collect();
    entries.push(VocabularyEntry { bytes: Vec::new(), is_special: true });
    let buf = pack_entries(&entries).unwrap();
    JsTokEnv::build(VOCAB, EOS as i32, &buf).unwrap()
}

fn byte_env() -> TokEnv {
    let mut entries: Vec<VocabularyEntry> = (0..=255u8)
        .map(|b| VocabularyEntry { bytes: vec![b], is_special: false })
        .collect();
    entries.push(VocabularyEntry { bytes: Vec::new(), is_special: true });
    let buf = pack_entries(&entries).unwrap();
    let view = JsTokEnv::build(VOCAB, EOS as i32, &buf).unwrap();
    Arc::new(HostEnv { view })
}

fn settings() -> ConstraintSettings {
    ConstraintSettings { console_log_level: Some(0), buffer_log_level: Some(2) }
}

fn config(caps: &str) -> ConstraintConfig {
    let factory = ParserFactory::new_simple(&byte_env()).unwrap();
    ConstraintConfig::_from_json(factory, caps, settings()).unwrap()
}

fn lark(grammar: &str) -> String {
    let g = llguidance::api::TopLevelGrammar::from_lark(grammar.to_string());
    serde_json::to_string(&g).unwrap()
}

fn session(caps: &str, grammar: &str) -> Constraint {
    config(caps).new_constraint(&lark(grammar)).unwrap()
}

fn allowed(mask: &Vec<u32>) -> Vec<u32> {
    (0..VOCAB + 40).filter(|t| mask_allows(mask, *t)).collect()
}

#[test]
fn failed_advance_after_a_healed_prompt_is_an_error() {
    let mut entries: Vec<VocabularyEntry> = (0..=255u8)
        .map(|b| VocabularyEntry { bytes: vec![b], is_special: false })
        .collect();
    entries.push(VocabularyEntry { bytes: Vec::new(), is_special: true });
    entries.push(VocabularyEntry { bytes: b"qa".to_vec(), is_special: false });
    entries.push(VocabularyEntry { bytes: b"qac".to_vec(), is_special: false });
    let buf = pack_entries(&entries).unwrap();
    let view = JsTokEnv::build(259, EOS as i32, &buf).unwrap();
    let env: TokEnv = Arc::new(HostEnv { view });
    let factory = ParserFactory::new_simple(&env).unwrap();
    let cfg = ConstraintConfig::_from_json(factory, "{}", settings()).unwrap();
    let mut c = cfg.new_constraint(&lark("start: \"a\" /[cd]/ /[xy]/")).unwrap();
    assert_eq!(c.state().vocab_size(), 259);
    assert!(c.process_prompt(vec![b'q' as u32]).is_ok());
    let mask = c.sampling_mask().unwrap().unwrap();
    assert_eq!(mask.len(), (259 / 32 + 1) as usize);
    match c.advance_parser(100_000) {
        Err(SessionError::Parser(m)) => assert!(m.contains("out of range")),
        other => panic!("expected a parser error, got {:?}", other),
    }
    assert!(c.get_and_clear_results().iter().all(|r| !r.is_final));
    assert!(matches!(c.sampling_mask(), Err(SessionError::Parser(_))));
}

#[test]
fn session_takes_the_vocabulary_of_the_decoder() {
    let c = session("{}", "start: /[ab]/");
    assert_eq!(c.state().vocab_size(), VOCAB);
}

#[test]
fn host_without_backtrack_keeps_the_sampled_token() {
    let mut c = session("{}", "start: /[ab]/ /[cd]/ /[ef]/");
    for t in [b'b', b'c'] {
        c.sampling_mask().unwrap().unwrap();
        let r = c.advance_parser(t as u32).unwrap();
        assert!(!r.stop);
        assert_eq!(r.backtrack, 0);
        assert_eq!(r.tokens, vec![t as u32]);
        assert!(c.state().pending().tokens.is_empty());
    }
}

#[test]
fn new_session_starts_empty() {
    let mut c = session("{}", "start: \"ab\"");
    assert_eq!(c.temperature_bits(), 0.0f32.to_bits());
    assert_eq!(c.state().phase(), Phase::Ready);
    assert!(c.state().pending().is_empty());
    assert_eq!(c.get_and_clear_results().len(), 0);
}

#[test]
fn decode_loop_follows_the_grammar() {
    let mut c = session("{}", "start: /[ab]/ /[cd]/");
    assert_eq!(c.process_prompt(Vec::new()).unwrap(), Vec::<u32>::new());
    let mask = c.sampling_mask().unwrap().unwrap();
    assert_eq!(allowed(&mask), vec![b'a' as u32, b'b' as u32]);
    assert_eq!(mask.len(), ((VOCAB + 32) / 32) as usize);
    let r = c.advance_parser(b'a' as u32).unwrap();
    assert!(!r.stop);
    assert_eq!(r.backtrack, 0);
    assert_eq!(r.tokens, vec![b'a' as u32]);
    let mask = c.sampling_mask().unwrap().unwrap();
    assert_eq!(allowed(&mask), vec![b'c' as u32, b'd' as u32]);
    let r = c.advance_parser(b'd' as u32).unwrap();
    assert!(r.stop);
    assert_eq!(r.backtrack, 0);
    assert_eq!(r.tokens, Vec::<u32>::new());
    assert_eq!(c.state().phase(), Phase::Stopped);
    assert!(c.sampling_mask().unwrap().is_none());
    let r = c.advance_parser(b'z' as u32).unwrap();
    assert!(r.stop);
    let records = c.get_and_clear_results();
    assert!(!records.is_empty());
    assert!(records.last().unwrap().is_final);
    assert!(records.last().unwrap().text.contains("final_text"));
    assert!(records.iter().filter(|r| r.is_final).count() == 1);
    assert!(records.iter().all(|r| r.text.starts_with('{')));
    assert_eq!(c.get_and_clear_results().len(), 0);
}

#[test]
fn prompt_takes_the_forced_prefix() {
    let mut c = session("{}", "start: \"ab\" /[cd]/");
    let prompt = c.process_prompt(vec![b'q' as u32]).unwrap();
    assert_eq!(prompt, vec![b'q' as u32, b'a' as u32, b'b' as u32]);
    let mask = c.sampling_mask().unwrap().unwrap();
    assert_eq!(allowed(&mask), vec![b'c' as u32, b'd' as u32]);
}

#[test]
fn prompt_stays_where_segmentation_is_not_canonical() {
    let env: TokEnv = Arc::new(LooseEnv { view: byte_view() });
    let factory = ParserFactory::new_simple(&env).unwrap();
    let cfg = ConstraintConfig::_from_json(factory, "{}", settings()).unwrap();
    let mut c = cfg.new_constraint(&lark("start: \"ab\" /[cd]/")).unwrap();
    assert_eq!(c.process_prompt(vec![b'q' as u32]).unwrap(), vec![b'q' as u32]);
    assert!(matches!(c.process_prompt(vec![b'q' as u32]), Err(SessionError::ApiMisuse)));
    let mask = c.sampling_mask().unwrap().unwrap();
    assert_eq!(allowed(&mask), vec![b'a' as u32]);
}

#[test]
fn complete_grammar_stops_at_the_first_mask() {
    let mut c = session("{}", "start: \"ab\"");
    assert_eq!(c.process_prompt(Vec::new()).unwrap(), vec![b'a' as u32, b'b' as u32]);
    assert!(c.sampling_mask().unwrap().is_none());
    assert_eq!(c.state().phase(), Phase::Stopped);
    let records = c.get_and_clear_results();
    assert!(records.last().unwrap().is_final);
    assert!(!records.last().unwrap().generated);
    let r = c.advance_parser(b'a' as u32).unwrap();
    assert!(r.stop);
    assert_eq!((r.backtrack, r.tokens.len()), (0, 0));
}

#[test]
fn session_without_priming_starts_on_first_mask() {
    let mut c = session("{}", "start: /[xy]/");
    let mask = c.sampling_mask().unwrap().unwrap();
    assert_eq!(allowed(&mask), vec![b'x' as u32, b'y' as u32]);
    assert!(matches!(c.process_prompt(vec![1]), Err(SessionError::ApiMisuse)));
}

#[test]
fn steps_out_of_order_are_misuse() {
    let mut c = session("{}", "start: /a/ /b/ /[cd]/");
    assert!(matches!(c.advance_parser(b'a' as u32), Err(SessionError::ApiMisuse)));
    assert_eq!(c.state().phase(), Phase::Ready);
    c.sampling_mask().unwrap().unwrap();
    assert!(matches!(c.sampling_mask(), Err(SessionError::ApiMisuse)));
    assert_eq!(c.state().phase(), Phase::AwaitingSample);
    c.advance_parser(b'a' as u32).unwrap();
    assert!(matches!(c.advance_parser(b'b' as u32), Err(SessionError::ApiMisuse)));
    let mask = c.sampling_mask().unwrap().unwrap();
    assert_eq!(allowed(&mask), vec![b'b' as u32]);
}

#[test]
fn priming_twice_is_misuse() {
    let mut c = session("{}", "start: \"ab\"");
    assert!(c.process_prompt(vec![b'q' as u32]).is_ok());
    assert!(matches!(c.process_prompt(vec![b'q' as u32]), Err(SessionError::ApiMisuse)));
}

#[test]
fn rejected_token_is_a_sticky_error() {
    let mut c = session("{}", "start: /[ab]/ /[cd]/");
    c.sampling_mask().unwrap().unwrap();
    let first = match c.advance_parser(b'z' as u32) {
        Err(SessionError::Parser(m)) => m,
        other => panic!("expected a parser error, got {:?}", other),
    };
    assert!(!first.is_empty());
    assert_eq!(c.state().error_message(), Some(first.clone()));
    match c.sampling_mask() {
        Err(SessionError::Parser(m)) => assert_eq!(m, first),
        other => panic!("expected the same error, got {:?}", other),
    }
    match c.advance_parser(b'a' as u32) {
        Err(SessionError::Parser(m)) => assert_eq!(m, first),
        other => panic!("expected the same error, got {:?}", other),
    }
}

#[test]
fn forced_tokens_follow_the_sampled_token() {
    let mut c = session("{\"ff_tokens\": true}", "start: /[xy]/ \"cd\" /[01]/");
    c.process_prompt(Vec::new()).unwrap();
    let mask = c.sampling_mask().unwrap().unwrap();
    assert_eq!(allowed(&mask), vec![b'x' as u32, b'y' as u32]);
    let r = c.advance_parser(b'y' as u32).unwrap();
    assert!(!r.stop);
    assert_eq!(r.backtrack, 0);
    assert_eq!(r.tokens, vec![b'y' as u32, b'c' as u32, b'd' as u32]);
    assert_eq!(c.state().pending().tokens, vec![b'c' as u32, b'd' as u32]);
    assert_eq!(c.state().pending().sampled, None);
    let mask = c.sampling_mask().unwrap().unwrap();
    assert_eq!(allowed(&mask), vec![b'0' as u32, b'1' as u32]);
    assert!(c.state().pending().is_empty());
}

#[test]
fn temperature_override_reaches_the_session() {
    let mut c = session("{}", "start: gen\ngen[temperature=0.5]: /[ab]/");
    c.process_prompt(Vec::new()).unwrap();
    c.sampling_mask().unwrap().unwrap();
    assert_eq!(c.temperature_bits(), 0.5f32.to_bits());
}

#[test]
fn logs_are_returned_and_cleared() {
    let mut c = session("{}", "start: /[ab]/ /[cd]/");
    c.process_prompt(Vec::new()).unwrap();
    c.sampling_mask().unwrap().unwrap();
    let logs = c.get_and_clear_logs();
    assert!(!logs.is_empty());
    assert_eq!(c.get_and_clear_logs(), "");
}

#[test]
fn malformed_configuration_is_refused() {
    let factory = ParserFactory::new_simple(&byte_env()).unwrap();
    let r = ConstraintConfig::_from_json(factory, "{not json", settings());
    assert!(matches!(r, Err(ConfigError::Capabilities(_))));
    let factory = ParserFactory::new_simple(&byte_env()).unwrap();
    let high = ConstraintSettings { console_log_level: Some(6), buffer_log_level: None };
    let r = ConstraintConfig::_from_json(factory, "{}", high);
    assert!(matches!(r, Err(ConfigError::LogLevel)));
    let factory = ParserFactory::new_simple(&byte_env()).unwrap();
    let top = ConstraintSettings { console_log_level: Some(5), buffer_log_level: Some(5) };
    assert!(ConstraintConfig::_from_json(factory, "{}", top).is_ok());
}

#[test]
fn malformed_grammar_is_refused() {
    let cfg = config("{}");
    assert!(matches!(cfg.new_constraint("{\"grammars\": 5}"), Err(ConfigError::Grammar(_))));
    assert!(matches!(cfg.new_constraint("nonsense"), Err(ConfigError::Grammar(_))));
    assert!(matches!(
        cfg.new_constraint(&lark("start: undefined_rule")),
        Err(ConfigError::Parser(_))
    ));
    assert!(cfg.new_constraint(&lark("start: \"ok\"")).is_ok());
}

#[test]
fn refusals_carry_the_reason() {
    let factory = ParserFactory::new_simple(&byte_env()).unwrap();
    match ConstraintConfig::_from_json(factory, "{\"ff_tokens\": 3}", settings()) {
        Err(ConfigError::Capabilities(m)) => assert!(m.contains("invalid type")),
        _ => panic!("expected the capability record to be refused"),
    }
    match config("{}").new_constraint("[1, 2]") {
        Err(ConfigError::Grammar(m)) => assert!(m.contains("invalid type")),
        _ => panic!("expected the grammar to be refused"),
    }
}

#[test]
fn logs_hold_what_the_decoder_wrote_since_the_last_drain() {
    let mut c = session("{}", "start: /[ab]/ /[cd]/");
    c.process_prompt(Vec::new()).unwrap();
    assert!(!c.get_and_clear_logs().is_empty());
    assert_eq!(c.get_and_clear_logs(), "");
    c.sampling_mask().unwrap().unwrap();
    let logs = c.get_and_clear_logs();
    assert!(logs.contains("compute_mask"));
    assert_eq!(c.get_and_clear_logs(), "");
    assert_eq!(c.state().phase(), Phase::AwaitingSample);
}

#[test]
fn settings_default_to_level_one() {
    let s = ConstraintSettings { console_log_level: None, buffer_log_level: None };
    assert_eq!(s.console_level(), 1);
    assert_eq!(s.buffer_level(), 1);
    assert!(s.is_valid());
    let s = ConstraintSettings { console_log_level: Some(0), buffer_log_level: Some(5) };
    assert_eq!((s.console_level(), s.buffer_level()), (0, 5));
    assert!(s.is_valid());
    let s = ConstraintSettings { console_log_level: None, buffer_log_level: Some(6) };
    assert!(!s.is_valid());
}
