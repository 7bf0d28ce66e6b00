//! The grammar decoder of the `llguidance` crate, as far as the bridge calls
//! it. Each function here makes one call into that crate; what is stated of
//! a call is believed, not proved. The decoder's answers depend on its own
//! state, so most calls promise nothing about their result.

use vstd::prelude::*;
use llguidance::api::{GrammarInit, TopLevelGrammar};
use llguidance::output::{ParserOutput, Reporter};
use llguidance::toktrie::InferenceCapabilities;
use llguidance::{Logger, ParserFactory, TokenParser};

verus! {

// The decoder's types. All but the capability record are carried through
// without a look inside; the capability record is four public flags.

#[verifier::external_type_specification]
#[verifier::external_body]
pub struct ExTokenParser(TokenParser);

#[verifier::external_type_specification]
#[verifier::external_body]
pub struct ExParserFactory(ParserFactory);

#[verifier::external_type_specification]
#[verifier::external_body]
pub struct ExReporter(Reporter);

#[verifier::external_type_specification]
#[verifier::external_body]
pub struct ExParserOutput(ParserOutput);

#[verifier::external_type_specification]
#[verifier::external_body]
pub struct ExTopLevelGrammar(TopLevelGrammar);

#[verifier::external_type_specification]
pub struct ExInferenceCapabilities(InferenceCapabilities);

#[verifier::external_type_specification]
#[verifier::external_body]
pub struct ExAnyhowError(anyhow::Error);

#[verifier::external_type_specification]
#[verifier::external_body]
pub struct ExJsonError(serde_json::Error);

/// Whether a decoder has taken neither a prompt nor a start yet.
pub uninterp spec fn parser_fresh(parser: TokenParser) -> bool;

/// Whether the tokenizer that a decoder was built over declares its
/// segmentations canonical. A tokenizer declares this once and for all.
pub uninterp spec fn parser_canonical(parser: TokenParser) -> bool;

/// The message on a decoder's error channel, if it has recorded one.
pub uninterp spec fn parser_error(parser: TokenParser) -> Option<Seq<char>>;

/// Whether a decoder has stopped, for whatever reason.
pub uninterp spec fn parser_stopped(parser: TokenParser) -> bool;

/// Whether a decoder's text reaches past the prompt bytes that it took over
/// as a prefix of the grammar, so that its terminal text can be taken.
pub uninterp spec fn parser_text_ready(parser: TokenParser) -> bool;

/// The capabilities that a decoder was created with.
pub uninterp spec fn parser_capabilities(parser: TokenParser) -> InferenceCapabilities;

/// The number of identifiers in the vocabulary of a decoder's tokenizer.
pub uninterp spec fn parser_vocab_size(parser: TokenParser) -> nat;

/// The level up to which a decoder's logger keeps messages in its buffer.
pub uninterp spec fn parser_buffer_level(parser: TokenParser) -> u32;

/// The level up to which a decoder's logger prints messages.
pub uninterp spec fn parser_console_level(parser: TokenParser) -> u32;

/// The text in the buffer of a decoder's logger.
pub uninterp spec fn parser_logs(parser: TokenParser) -> Seq<char>;

/// The serialized form of a progress record, or why it has none.
pub uninterp spec fn record_json(record: ParserOutput) -> Result<Seq<char>, serde_json::Error>;

/// The message of a deserialization or serialization error.
pub uninterp spec fn json_error_message(e: serde_json::Error) -> Seq<char>;

/// The record of a decoder's terminal text and stop reason.
pub uninterp spec fn final_record(reporter: Reporter, parser: TokenParser) -> ParserOutput;

/// Whether a text deserializes as a grammar.
pub uninterp spec fn is_grammar_json(text: Seq<char>) -> bool;

/// The capability record that a text deserializes to, if it does.
pub uninterp spec fn capabilities_json(text: Seq<char>) -> Option<InferenceCapabilities>;

/// Calls `serde_json::from_str` for a grammar. Whether it succeeds depends on
/// the text alone.
#[verifier::external_body]
pub(crate) fn parse_grammar(text: &str) -> (res: Result<TopLevelGrammar, serde_json::Error>)
    ensures
        res is Ok == is_grammar_json(text@),
{
    serde_json::from_str::<TopLevelGrammar>(text)
}

/// Calls `serde_json::from_str` for a capability record. The result depends
/// on the text alone.
#[verifier::external_body]
pub(crate) fn parse_capabilities(text: &str) -> (res: Result<
    InferenceCapabilities,
    serde_json::Error,
>)
    ensures
        match res {
            Ok(caps) => capabilities_json(text@) == Some(caps),
            Err(_) => capabilities_json(text@) is None,
        },
{
    serde_json::from_str::<InferenceCapabilities>(text)
}

/// The message of a `serde_json::Error`, by its `Display`. It depends on the
/// error alone.
#[verifier::external_body]
pub(crate) fn json_error_text(e: &serde_json::Error) -> (text: String)
    ensures
        text@ == json_error_message(*e),
{
    format!("{}", e)
}

/// The message of a decoder error, by its `Display`.
#[verifier::external_body]
pub(crate) fn error_text(e: &anyhow::Error) -> (text: String) {
    format!("{}", e)
}

/// Calls `ParserFactory::create_parser_from_init_ext` with a serialized
/// grammar and a new logger at the given levels. The call reports failures,
/// its own panics included, as errors. A decoder that it returns is fresh,
/// holds no text and no prefix, has recorded no error, has not stopped, and
/// keeps the capabilities and the two levels as they were given.
#[verifier::external_body]
pub(crate) fn create_parser(
    factory: &ParserFactory,
    grammar: TopLevelGrammar,
    buffer_level: u32,
    console_level: u32,
    caps: &InferenceCapabilities,
) -> (res: Result<TokenParser, anyhow::Error>)
    ensures
        res matches Ok(parser) ==> {
            &&& parser_fresh(parser)
            &&& parser_text_ready(parser)
            &&& parser_error(parser) is None
            &&& !parser_stopped(parser)
            &&& parser_capabilities(parser) == *caps
            &&& parser_buffer_level(parser) == buffer_level
            &&& parser_console_level(parser) == console_level
        },
{
    factory.create_parser_from_init_ext(
        GrammarInit::Serialized(grammar),
        Logger::new(buffer_level, console_level),
        caps.clone(),
        factory.limits().clone(),
    )
}

/// Calls `TokTrie::vocab_size` on the trie of the decoder's tokenizer, which
/// widens a 32-bit count.
#[verifier::external_body]
pub(crate) fn vocab_size(parser: &TokenParser) -> (n: usize)
    ensures
        n == parser_vocab_size(*parser),
        n <= u32::MAX,
{
    parser.token_env.tok_trie().vocab_size()
}

/// Calls `TokenParser::is_fresh`.
#[verifier::external_body]
pub(crate) fn is_fresh(parser: &TokenParser) -> (fresh: bool)
    ensures
        fresh == parser_fresh(*parser),
{
    parser.is_fresh()
}

/// Calls `tokenize_is_canonical` on the decoder's tokenizer.
#[verifier::external_body]
pub(crate) fn is_canonical(parser: &TokenParser) -> (canonical: bool)
    ensures
        canonical == parser_canonical(*parser),
{
    parser.token_env.tokenize_is_canonical()
}

/// Calls `TokenParser::start_without_prompt`, which asserts that the decoder
/// is fresh, clears that flag and writes a line to the log.
#[verifier::external_body]
pub(crate) fn start_without_prompt(parser: &mut TokenParser)
    requires
        parser_fresh(*old(parser)),
    ensures
        !parser_fresh(*final(parser)),
        parser_capabilities(*final(parser)) == parser_capabilities(*old(parser)),
{
    parser.start_without_prompt()
}

/// Calls `TokenParser::process_prompt`, which asserts that the decoder is
/// fresh and its tokenizer canonical, and clears the fresh flag. It slices
/// the prompt's bytes by what the tokenizer hands back, so it relies on a
/// tokenizer whose segmentations are byte-exact. Nothing is promised of the
/// rewritten prompt.
#[verifier::external_body]
pub(crate) fn process_prompt(parser: &mut TokenParser, prompt: Vec<u32>) -> (rewritten: Vec<u32>)
    requires
        parser_fresh(*old(parser)),
        parser_canonical(*old(parser)),
    ensures
        !parser_fresh(*final(parser)),
        parser_capabilities(*final(parser)) == parser_capabilities(*old(parser)),
{
    parser.process_prompt(prompt)
}

/// Calls `TokenParser::error_message`, which hands out a copy of the
/// recorded message.
#[verifier::external_body]
pub(crate) fn error_message(parser: &TokenParser) -> (message: Option<String>)
    ensures
        match message {
            Some(m) => parser_error(*parser) == Some(m@),
            None => parser_error(*parser) is None,
        },
{
    parser.error_message()
}

/// Calls `TokenParser::check_stop`. Where it answers that the sequence must
/// stop, it has put the decoder in its stopped state, and it has found no
/// prefix byte outstanding. It leaves the fresh flag and the capabilities
/// alone.
#[verifier::external_body]
pub(crate) fn check_stop(parser: &mut TokenParser) -> (res: Result<bool, anyhow::Error>)
    ensures
        res matches Ok(true) ==> parser_stopped(*final(parser)) && parser_text_ready(
            *final(parser),
        ),
        parser_fresh(*final(parser)) == parser_fresh(*old(parser)),
        parser_capabilities(*final(parser)) == parser_capabilities(*old(parser)),
{
    parser.check_stop()
}

/// Calls `TokenParser::compute_mask` and hands out the mask's words. It
/// leaves the fresh flag and the capabilities alone.
#[verifier::external_body]
pub(crate) fn compute_mask(parser: &mut TokenParser) -> (res: Result<Vec<u32>, anyhow::Error>)
    ensures
        parser_fresh(*final(parser)) == parser_fresh(*old(parser)),
        parser_capabilities(*final(parser)) == parser_capabilities(*old(parser)),
{
    parser.compute_mask().map(|mask| mask.as_slice().to_vec())
}

/// Calls `TokenParser::temperature` and hands out the value's bit pattern.
#[verifier::external_body]
pub(crate) fn temperature(parser: &TokenParser) -> (bits: Option<u32>) {
    parser.temperature().map(|t| t.to_bits())
}

/// Calls `TokenParser::consume_token`: the number of tokens to rescind,
/// which is none for a decoder without the backtrack capability. An
/// identifier out of range is an error.
#[verifier::external_body]
pub(crate) fn consume_token(parser: &mut TokenParser, token: u32) -> (res: Result<
    usize,
    anyhow::Error,
>)
    ensures
        !parser_capabilities(*old(parser)).backtrack ==> (res matches Ok(n) ==> n == 0),
        parser_capabilities(*final(parser)) == parser_capabilities(*old(parser)),
{
    parser.consume_token(token)
}

/// Calls `TokenParser::consume_ff_tokens`: the tokens that the grammar
/// forces. It leaves the capabilities alone.
#[verifier::external_body]
pub(crate) fn consume_ff_tokens(parser: &mut TokenParser) -> (res: Result<
    Vec<u32>,
    anyhow::Error,
>)
    ensures
        parser_capabilities(*final(parser)) == parser_capabilities(*old(parser)),
{
    parser.consume_ff_tokens()
}

/// Calls `Logger::get_and_clear_logs` on the decoder's logger, which takes
/// the buffer's text and leaves the buffer empty. It touches the logger
/// alone.
#[verifier::external_body]
pub(crate) fn take_logs(parser: &mut TokenParser) -> (logs: String)
    ensures
        logs@ == parser_logs(*old(parser)),
        parser_logs(*final(parser)) == Seq::<char>::empty(),
        parser_fresh(*final(parser)) == parser_fresh(*old(parser)),
        parser_capabilities(*final(parser)) == parser_capabilities(*old(parser)),
{
    parser.logger.get_and_clear_logs()
}

/// Calls `Reporter::default`.
#[verifier::external_body]
pub(crate) fn new_reporter() -> (reporter: Reporter) {
    Reporter::default()
}

/// Calls `Reporter::set_is_generated`.
#[verifier::external_body]
pub(crate) fn set_is_generated(reporter: &mut Reporter, generated: bool) {
    reporter.set_is_generated(generated)
}

/// Calls `Reporter::get_progress_core`: the records since the last call.
#[verifier::external_body]
pub(crate) fn progress_core(reporter: &mut Reporter, parser: &TokenParser) -> (records: Vec<
    ParserOutput,
>) {
    reporter.get_progress_core(parser)
}

/// Calls `Reporter::final_text`: the record of the terminal text and the
/// stop reason, as the decoder holds them. The call slices the decoder's
/// text past its prefix, so the text must reach that far.
#[verifier::external_body]
pub(crate) fn final_text(reporter: &Reporter, parser: &TokenParser) -> (record: ParserOutput)
    requires
        parser_text_ready(*parser),
    ensures
        record == final_record(*reporter, *parser),
{
    reporter.final_text(parser)
}

/// Calls `serde_json::to_string` for one progress record. The result depends
/// on the record alone.
#[verifier::external_body]
pub(crate) fn record_text(record: &ParserOutput) -> (res: Result<String, serde_json::Error>)
    ensures
        match res {
            Ok(text) => record_json(*record) == Ok::<Seq<char>, serde_json::Error>(text@),
            Err(e) => record_json(*record) == Err::<Seq<char>, serde_json::Error>(e),
        },
{
    serde_json::to_string(record)
}

} // verus!
