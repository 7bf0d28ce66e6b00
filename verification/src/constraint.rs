//! The host-facing objects: the configuration template that makes sessions,
//! and the session that couples the decoder with the decode-loop state.

use vstd::prelude::*;
use llguidance::output::{ParserOutput, Reporter};
use llguidance::toktrie::InferenceCapabilities;
use llguidance::{ParserFactory, TokenParser};
use crate::mask::{lemma_restrict_valid, mask_valid, mask_words};
use crate::parser::{
    capabilities_json, check_stop, compute_mask, consume_ff_tokens, consume_token, create_parser,
    error_message, error_text, final_record, final_text, is_canonical, is_fresh,
    is_grammar_json, json_error_message, json_error_text, new_reporter, parse_capabilities,
    parse_grammar, parser_buffer_level, parser_canonical, parser_capabilities,
    parser_console_level, parser_error, parser_fresh, parser_logs, parser_stopped,
    parser_text_ready, parser_vocab_size, process_prompt, progress_core, record_json,
    record_text, set_is_generated, start_without_prompt, take_logs, temperature, vocab_size,
};
use crate::session::{
    advance_outcome, advance_proceeds, advance_step, assemble_advance, assemble_mid_step,
    mask_outcome, mask_proceeds, mask_step, opt_text, prime_step, record_models,
    texts, Advance, AdvanceResult, AdvanceResultModel, ErrorModel, MidStep, MidStepModel,
    MidStepOutput, ProgressRecord, Session, SessionError, SessionModel, SpliceModel,
};

verus! {

/// Log level used where the settings give none.
pub const DEFAULT_LOG_LEVEL: u32 = 1;

/// Highest log level.
pub const MAX_LOG_LEVEL: u32 = 5;

/// Console and buffer log levels, each optional.
#[derive(Debug, Clone, Copy, PartialEq, Eq, Structural)]
pub struct ConstraintSettings {
    pub console_log_level: Option<u32>,
    pub buffer_log_level: Option<u32>,
}

/// The level that an optional setting stands for.
pub open spec fn level_of(level: Option<u32>) -> u32 {
    match level {
        Some(v) => v,
        None => DEFAULT_LOG_LEVEL,
    }
}

impl ConstraintSettings {
    /// Whether both levels are within range.
    pub open spec fn valid(self) -> bool {
        level_of(self.console_log_level) <= MAX_LOG_LEVEL && level_of(self.buffer_log_level)
            <= MAX_LOG_LEVEL
    }

    /// The console log level, or the default.
    pub fn console_level(&self) -> (level: u32)
        ensures
            level == level_of(self.console_log_level),
    {
        match self.console_log_level {
            Some(v) => v,
            None => DEFAULT_LOG_LEVEL,
        }
    }

    /// The buffer log level, or the default.
    pub fn buffer_level(&self) -> (level: u32)
        ensures
            level == level_of(self.buffer_log_level),
    {
        match self.buffer_log_level {
            Some(v) => v,
            None => DEFAULT_LOG_LEVEL,
        }
    }

    /// Whether both levels are within range.
    pub fn is_valid(&self) -> (ok: bool)
        ensures
            ok == self.valid(),
    {
        self.console_level() <= MAX_LOG_LEVEL && self.buffer_level() <= MAX_LOG_LEVEL
    }
}

/// Why a configuration or a session could not be made.
#[derive(Debug)]
pub enum ConfigError {
    /// The capability record does not deserialize; the message says why.
    Capabilities(String),
    /// A log level is out of range.
    LogLevel,
    /// The grammar does not deserialize; the message says why.
    Grammar(String),
    /// The decoder refused the grammar or the capabilities.
    Parser(String),
}

/// A prototype for sessions: the decoder factory over one tokenizer, the
/// host's capabilities, and the log settings.
pub struct ConstraintConfig {
    factory: ParserFactory,
    inf_caps: InferenceCapabilities,
    settings: ConstraintSettings,
}

impl ConstraintConfig {
    /// The log settings.
    pub closed spec fn log_settings(&self) -> ConstraintSettings {
        self.settings
    }

    /// The host's capabilities.
    pub closed spec fn capabilities(&self) -> InferenceCapabilities {
        self.inf_caps
    }

    /// Makes a configuration from a decoder factory, the serialized
    /// capability record and the log settings.
    ///
    /// It is made exactly when the record deserializes and both log levels
    /// are within range; a record that does not deserialize is reported
    /// first.
    pub fn _from_json(
        factory: ParserFactory,
        inference_caps: &str,
        settings: ConstraintSettings,
    ) -> (res: Result<ConstraintConfig, ConfigError>)
        ensures
            match res {
                Ok(config) => {
                    &&& capabilities_json(inference_caps@) == Some(config.capabilities())
                    &&& settings.valid()
                    &&& config.log_settings() == settings
                },
                Err(ConfigError::Capabilities(_)) => capabilities_json(inference_caps@) is None,
                Err(ConfigError::LogLevel) => capabilities_json(inference_caps@) is Some
                    && !settings.valid(),
                Err(_) => false,
            },
    {
        let inf_caps = match parse_capabilities(inference_caps) {
            Ok(caps) => caps,
            Err(e) => {
                return Err(ConfigError::Capabilities(json_error_text(&e)));
            },
        };
        if !settings.is_valid() {
            return Err(ConfigError::LogLevel);
        }
        Ok(ConstraintConfig { factory, inf_caps, settings })
    }

    /// Makes a session for a serialized grammar: temperature 0.0, nothing
    /// pending, nothing logged, over the vocabulary of the decoder's
    /// tokenizer.
    ///
    /// A grammar that does not deserialize is reported as such; whether the
    /// decoder then accepts it is the decoder's to say. The decoder of a
    /// session that is made is fresh and without error, and holds this
    /// configuration's capabilities and log levels.
    pub fn new_constraint(&self, grammar: &str) -> (res: Result<Constraint, ConfigError>)
        ensures
            match res {
                Ok(c) => {
                    &&& is_grammar_json(grammar@)
                    &&& c.session() == SessionModel::initial(c.decoder_vocab())
                    &&& c.decoder_fresh()
                    &&& c.decoder_error() is None
                    &&& !c.decoder_stopped()
                    &&& c.decoder_capabilities() == self.capabilities()
                    &&& c.takes_forced_tokens() == self.capabilities().ff_tokens
                    &&& c.buffer_log_level() == level_of(self.log_settings().buffer_log_level)
                    &&& c.console_log_level() == level_of(self.log_settings().console_log_level)
                },
                Err(ConfigError::Grammar(_)) => !is_grammar_json(grammar@),
                Err(ConfigError::Parser(_)) => is_grammar_json(grammar@),
                Err(_) => false,
            },
    {
        let grammar = match parse_grammar(grammar) {
            Ok(g) => g,
            Err(e) => {
                return Err(ConfigError::Grammar(json_error_text(&e)));
            },
        };
        let parser = match create_parser(
            &self.factory,
            grammar,
            self.settings.buffer_level(),
            self.settings.console_level(),
            &self.inf_caps,
        ) {
            Ok(p) => p,
            Err(e) => {
                return Err(ConfigError::Parser(error_text(&e)));
            },
        };
        let vocab: u32 = vocab_size(&parser) as u32;
        Ok(
            Constraint {
                parser,
                reporter: new_reporter(),
                ff_tokens: self.inf_caps.ff_tokens,
                session: Session::with_vocabulary(vocab),
            },
        )
    }
}

/// One decoding session: the decoder, its progress reporter, and the
/// decode-loop state.
pub struct Constraint {
    parser: TokenParser,
    reporter: Reporter,
    ff_tokens: bool,
    session: Session,
}

/// The serialized records of one step and, where the step ends the session,
/// the serialized terminal record.
struct Flushed {
    records: Vec<String>,
    last: String,
}

/// The text that stands for a progress record: its serialized form, or the
/// reason it has none.
pub open spec fn serialized(record: ParserOutput) -> Seq<char> {
    match record_json(record) {
        Ok(text) => text,
        Err(e) => json_error_message(e),
    }
}

/// The texts that stand for a sequence of progress records, in order.
pub open spec fn serialized_all(records: Seq<ParserOutput>) -> Seq<Seq<char>> {
    Seq::new(records.len(), |i: int| serialized(records[i]))
}

/// The decoder's error channel after a call: its recorded message, else the
/// text of the failed call.
pub open spec fn error_after(recorded: Option<Seq<char>>, failure: Option<Seq<char>>) -> Option<
    Seq<char>,
> {
    match recorded {
        Some(m) => Some(m),
        None => failure,
    }
}

/// Serializes one progress record; a record that does not serialize is
/// replaced by the reason.
fn serialize_record(record: &ParserOutput) -> (text: String)
    ensures
        text@ == serialized(*record),
{
    match record_text(record) {
        Ok(text) => text,
        Err(e) => json_error_text(&e),
    }
}

/// The text of a decoder call's outcome where the call failed.
fn flag_or_text(res: Result<bool, anyhow::Error>) -> (r: Result<bool, String>)
    ensures
        r is Ok == res is Ok,
        res matches Ok(b) ==> r == Ok::<bool, String>(b),
{
    match res {
        Ok(b) => Ok(b),
        Err(e) => Err(error_text(&e)),
    }
}

/// The text of a decoder call's outcome where the call failed.
fn count_or_text(res: Result<usize, anyhow::Error>) -> (r: Result<usize, String>)
    ensures
        r is Ok == res is Ok,
        res matches Ok(n) ==> r == Ok::<usize, String>(n),
{
    match res {
        Ok(n) => Ok(n),
        Err(e) => Err(error_text(&e)),
    }
}

/// The text of a decoder call's outcome where the call failed.
fn words_or_text(res: Result<Vec<u32>, anyhow::Error>) -> (r: Result<Vec<u32>, String>)
    ensures
        r is Ok == res is Ok,
        res matches Ok(v) ==> r == Ok::<Vec<u32>, String>(v),
{
    match res {
        Ok(v) => Ok(v),
        Err(e) => Err(error_text(&e)),
    }
}

impl Constraint {
    /// The decode-loop state.
    pub closed spec fn session(&self) -> SessionModel {
        self.session@
    }

    /// The decoder.
    pub closed spec fn decoder(&self) -> TokenParser {
        self.parser
    }

    /// The reporter that follows the decoder's progress.
    pub closed spec fn progress_reporter(&self) -> Reporter {
        self.reporter
    }

    /// Whether the host takes fast-forward tokens.
    pub closed spec fn takes_forced_tokens(&self) -> bool {
        self.ff_tokens
    }

    /// Whether the decoder has taken neither a prompt nor a start yet.
    pub open spec fn decoder_fresh(&self) -> bool {
        parser_fresh(self.decoder())
    }

    /// Whether the decoder's tokenizer declares its segmentations canonical.
    pub open spec fn decoder_canonical(&self) -> bool {
        parser_canonical(self.decoder())
    }

    /// The decoder's logs that await draining.
    pub open spec fn buffered_logs(&self) -> Seq<char> {
        parser_logs(self.decoder())
    }

    /// The message on the decoder's error channel, if it has recorded one.
    pub open spec fn decoder_error(&self) -> Option<Seq<char>> {
        parser_error(self.decoder())
    }

    /// Whether the decoder has stopped.
    pub open spec fn decoder_stopped(&self) -> bool {
        parser_stopped(self.decoder())
    }

    /// The capabilities that the decoder was created with.
    pub open spec fn decoder_capabilities(&self) -> InferenceCapabilities {
        parser_capabilities(self.decoder())
    }

    /// The number of identifiers in the vocabulary of the decoder's tokenizer.
    pub open spec fn decoder_vocab(&self) -> u32 {
        parser_vocab_size(self.decoder()) as u32
    }

    /// The level up to which the decoder's logger buffers messages.
    pub open spec fn buffer_log_level(&self) -> u32 {
        parser_buffer_level(self.decoder())
    }

    /// The level up to which the decoder's logger prints messages.
    pub open spec fn console_log_level(&self) -> u32 {
        parser_console_level(self.decoder())
    }

    /// Whether a call left everything but the decode-loop state as it was.
    pub open spec fn rest_unchanged(&self, before: &Constraint) -> bool {
        &&& self.decoder() == before.decoder()
        &&& self.progress_reporter() == before.progress_reporter()
        &&& self.takes_forced_tokens() == before.takes_forced_tokens()
    }

    /// The bit pattern of the current temperature.
    pub fn temperature_bits(&self) -> (bits: u32)
        ensures
            bits == self.session().temperature,
    {
        self.session.temperature_bits()
    }

    /// The decode-loop state, for reading.
    pub fn state(&self) -> (session: &Session)
        ensures
            session@ == self.session(),
    {
        &self.session
    }

    /// Hands the prompt to the decoder, which may rewrite it, and returns the
    /// rewritten prompt. Allowed once, before the first mask; afterwards it
    /// is misuse and changes nothing. A fresh decoder is started by the
    /// call. A decoder that has already started, or whose tokenizer is not
    /// canonical, returns the prompt as it is.
    pub fn process_prompt(&mut self, prompt: Vec<u32>) -> (res: Result<Vec<u32>, SessionError>)
        ensures
            final(self).session() == prime_step(old(self).session()).0,
            old(self).session().primed ==> res matches Err(SessionError::ApiMisuse),
            old(self).session().primed ==> final(self).rest_unchanged(old(self)),
            !old(self).session().primed ==> res is Ok,
            res matches Ok(rewritten) ==> (old(self).decoder_fresh() && old(self).decoder_canonical()) || rewritten@ == prompt@,
            !old(self).session().primed && old(self).decoder_fresh() ==> !final(self).decoder_fresh(),
            !old(self).decoder_fresh() ==> final(self).rest_unchanged(old(self)),
            final(self).decoder_capabilities() == old(self).decoder_capabilities(),
            final(self).progress_reporter() == old(self).progress_reporter(),
            final(self).takes_forced_tokens() == old(self).takes_forced_tokens(),
    {
        match self.session.begin_prompt() {
            Err(e) => Err(e),
            Ok(()) => {
                if !is_fresh(&self.parser) {
                    Ok(prompt)
                } else if is_canonical(&self.parser) {
                    Ok(process_prompt(&mut self.parser, prompt))
                } else {
                    start_without_prompt(&mut self.parser);
                    Ok(prompt)
                }
            },
        }
    }

    /// The decoder's error channel after a call: its recorded message, else
    /// the text of the failed call.
    fn check_error(&self, failure: Option<String>) -> (message: Option<String>)
        ensures
            opt_text(message) == error_after(parser_error(self.parser), opt_text(failure)),
    {
        match error_message(&self.parser) {
            Some(m) => Some(m),
            None => failure,
        }
    }

    /// Collects the decoder's progress since the last step, tagged as given,
    /// and the terminal record if the step ends the session.
    ///
    /// Each text stands for one record that the reporter handed out, in
    /// order. The terminal text stands for the decoder's terminal record
    /// where the step ends the session, and is empty where it does not. The
    /// decoder and the decode-loop state stay as they are.
    fn flush_progress(&mut self, generated: bool, stop: bool) -> (flushed: Flushed)
        requires
            stop ==> parser_text_ready(old(self).parser),
        ensures
            final(self).session() == old(self).session(),
            final(self).parser == old(self).parser,
            final(self).ff_tokens == old(self).ff_tokens,
            exists|outputs: Seq<ParserOutput>| #[trigger]
                serialized_all(outputs) == texts(flushed.records@),
            flushed.last@ == if stop {
                serialized(final_record(final(self).reporter, final(self).parser))
            } else {
                Seq::<char>::empty()
            },
    {
        set_is_generated(&mut self.reporter, generated);
        let outputs = progress_core(&mut self.reporter, &self.parser);
        let mut records: Vec<String> = Vec::new();
        let mut i: usize = 0;
        while i < outputs.len()
            invariant
                i <= outputs.len(),
                texts(records@) == serialized_all(outputs@.take(i as int)),
            decreases outputs.len() - i,
        {
            let ghost before = texts(records@);
            let text = serialize_record(&outputs[i]);
            records.push(text);
            i += 1;
            proof {
                assert(texts(records@) =~= before.push(text@));
                assert(serialized_all(outputs@.take(i as int)) =~= serialized_all(
                    outputs@.take(i - 1),
                ).push(serialized(outputs@[i - 1])));
            }
        }
        proof {
            assert(outputs@.take(i as int) =~= outputs@);
            assert(serialized_all(outputs@) == texts(records@));
        }
        let last: String = if stop {
            let record = final_text(&self.reporter, &self.parser);
            serialize_record(&record)
        } else {
            String::new()
        };
        Flushed { records, last }
    }

    /// Asks the decoder for its mid-step output, in the order that the
    /// decoder documents as its typical use: a fresh decoder is started;
    /// the decoder is asked whether the sequence must stop; where it must
    /// not, it is asked for the mask and for the temperature override.
    ///
    /// Whatever the decoder answers: the step is assembled from its answers;
    /// it never forces a continuation here; a stop carries no temperature; a
    /// failed call is reported with a stop; and a stop without a failed call
    /// comes from a decoder that has stopped and whose terminal text can be
    /// taken. The decoder is started, keeps its capabilities, and the
    /// decode-loop state stays as it is.
    fn mid_step(&mut self) -> (step: MidStep)
        ensures
            final(self).session() == old(self).session(),
            final(self).ff_tokens == old(self).ff_tokens,
            final(self).reporter == old(self).reporter,
            !parser_fresh(final(self).parser),
            parser_capabilities(final(self).parser) == parser_capabilities(old(self).parser),
            step.out@.unconditional_splice is None,
            step.out@.is_stop() ==> step.out@.temperature is None,
            step.failure is Some ==> step.out@.is_stop(),
            step.failure is None && step.out@.is_stop() ==> parser_stopped(final(self).parser)
                && parser_text_ready(final(self).parser),
    {
        if is_fresh(&self.parser) {
            start_without_prompt(&mut self.parser);
        }
        let stop = flag_or_text(check_stop(&mut self.parser));
        let goes_on: bool = match &stop {
            Ok(false) => true,
            _ => false,
        };
        if goes_on {
            let mask = words_or_text(compute_mask(&mut self.parser));
            let override_bits = temperature(&self.parser);
            assemble_mid_step(stop, mask, override_bits)
        } else {
            assemble_mid_step(stop, Err(String::new()), None)
        }
    }

    /// Feeds the sampled token to the decoder and asks what follows, in the
    /// order that the decoder documents as its typical use: the token is
    /// consumed; the decoder is asked whether the sequence must stop; where
    /// it must not and the host takes fast-forward tokens, the forced tokens
    /// are consumed.
    ///
    /// Whatever the decoder answers: the step is assembled from its answers;
    /// a failed call is reported without an answer; the decoder is done only
    /// where it has stopped and its terminal text can be taken; no token is
    /// forced on a host that takes none; and nothing is rescinded for a
    /// decoder without the backtrack capability. The decoder keeps its
    /// capabilities and the decode-loop state stays as it is.
    fn advance_decoder(&mut self, sampled: u32) -> (step: Advance)
        ensures
            final(self).session() == old(self).session(),
            final(self).ff_tokens == old(self).ff_tokens,
            final(self).reporter == old(self).reporter,
            parser_capabilities(final(self).parser) == parser_capabilities(old(self).parser),
            step.failure is Some ==> step.out is None,
            step.failure is None && step.out is None ==> parser_stopped(final(self).parser)
                && parser_text_ready(final(self).parser),
            !old(self).ff_tokens ==> (step.out matches Some(o) ==> o.ff_tokens@.len() == 0),
            !parser_capabilities(old(self).parser).backtrack ==> (step.out matches Some(o)
                ==> o.backtrack == 0),
    {
        let consumed = count_or_text(consume_token(&mut self.parser, sampled));
        if consumed.is_err() {
            return assemble_advance(consumed, Ok(false), Ok(Vec::new()), self.ff_tokens);
        }
        let stop = flag_or_text(check_stop(&mut self.parser));
        let goes_on: bool = match &stop {
            Ok(false) => true,
            _ => false,
        };
        let forced: Result<Vec<u32>, String> = if goes_on && self.ff_tokens {
            words_or_text(consume_ff_tokens(&mut self.parser))
        } else {
            Ok(Vec::new())
        };
        assemble_advance(consumed, stop, forced, self.ff_tokens)
    }

    /// Returns and clears the decoder's buffered logs.
    pub fn get_and_clear_logs(&mut self) -> (logs: String)
        ensures
            logs@ == old(self).buffered_logs(),
            final(self).buffered_logs() == Seq::<char>::empty(),
            final(self).session() == old(self).session(),
            final(self).decoder_fresh() == old(self).decoder_fresh(),
            final(self).decoder_capabilities() == old(self).decoder_capabilities(),
            final(self).progress_reporter() == old(self).progress_reporter(),
            final(self).takes_forced_tokens() == old(self).takes_forced_tokens(),
    {
        take_logs(&mut self.parser)
    }

    /// Returns the buffered progress records in order and clears the buffer.
    pub fn get_and_clear_results(&mut self) -> (records: Vec<ProgressRecord>)
        ensures
            record_models(records@) == old(self).session().progress,
            final(self).session() == (SessionModel {
                progress: Seq::empty(),
                ..old(self).session()
            }),
            final(self).rest_unchanged(old(self)),
    {
        self.session.drain_progress()
    }

    /// Computes the mask of tokens that may be sampled next; `None` tells the
    /// host to stop.
    ///
    /// The session takes exactly one mask step, for whatever the decoder
    /// answers. Where the step does not reach the decoder (an error is
    /// recorded, the session has stopped, or a mask is already out), nothing
    /// changes, the decoder included, and the result is fixed by the session
    /// alone. Where it does, the decoder is started; a message on its error
    /// channel is the error returned; and the host is told to stop only by a
    /// decoder that has stopped. Every mask returned has one bit for each
    /// identifier and none past the vocabulary.
    pub fn sampling_mask(&mut self) -> (res: Result<Option<Vec<u32>>, SessionError>)
        ensures
            exists|
                out: MidStepModel,
                records: Seq<Seq<char>>,
                last: Seq<char>,
                failure: Option<Seq<char>>,
            |
                #[trigger] mask_step(old(self).session(), out, records, last, failure) == (
                    final(self).session(),
                    mask_outcome(res),
                ),
            !mask_proceeds(old(self).session()) ==> final(self).session() == old(self).session()
                && final(self).rest_unchanged(old(self)),
            mask_proceeds(old(self).session()) ==> !final(self).decoder_fresh(),
            mask_proceeds(old(self).session()) ==> (final(self).decoder_error() matches Some(m)
                ==> mask_outcome(res) == Err::<Option<Seq<u32>>, ErrorModel>(
                ErrorModel::Parser(m),
            )),
            mask_proceeds(old(self).session()) ==> (res matches Ok(None)
                ==> final(self).decoder_stopped()),
            res matches Ok(Some(m)) ==> mask_valid(m@, old(self).session().vocab_size as nat),
            final(self).decoder_capabilities() == old(self).decoder_capabilities(),
            final(self).takes_forced_tokens() == old(self).takes_forced_tokens(),
            old(self).session().wf() ==> final(self).session().wf(),
    {
        if !self.session.mask_proceeds() {
            let none: Vec<String> = Vec::new();
            return self.session.compute_mask(MidStepOutput::stop(), &none, String::new(), None);
        }
        let step = self.mid_step();
        let ends: bool = step.out.is_stop() && step.failure.is_none();
        let flushed = self.flush_progress(false, ends);
        let failure = self.check_error(step.failure);
        proof {
            if step.out@.sample_mask is Some {
                let m = step.out@.sample_mask->0;
                if m.len() == mask_words(self.session@.vocab_size as nat) {
                    lemma_restrict_valid(m, self.session@.vocab_size as nat);
                }
            }
        }
        self.session.compute_mask(step.out, &flushed.records, flushed.last, failure)
    }

    /// Takes the token that the host sampled and returns what the host must
    /// do next.
    ///
    /// The session takes exactly one advance step, for whatever the decoder
    /// answers. Where the step does not reach the decoder (an error is
    /// recorded, the session has stopped, or no mask is out), nothing
    /// changes, the decoder included, and the result is fixed by the session
    /// alone. Where it does: a message on the decoder's error channel is the
    /// error returned; the host is told to stop only by a decoder that has
    /// stopped; no token is left pending for a host that takes no
    /// fast-forward tokens; and for a decoder without the backtrack
    /// capability the host is told to stop or to keep the sampled token.
    pub fn advance_parser(&mut self, sampled: u32) -> (res: Result<AdvanceResult, SessionError>)
        ensures
            exists|
                out: Option<SpliceModel>,
                records: Seq<Seq<char>>,
                last: Seq<char>,
                failure: Option<Seq<char>>,
            |
                #[trigger] advance_step(old(self).session(), sampled, out, records, last, failure)
                    == (final(self).session(), advance_outcome(res)),
            !advance_proceeds(old(self).session()) ==> final(self).session() == old(self).session() && final(self).rest_unchanged(old(self)),
            advance_proceeds(old(self).session()) ==> (final(self).decoder_error() matches Some(
                m,
            ) ==> advance_outcome(res) == Err::<AdvanceResultModel, ErrorModel>(
                ErrorModel::Parser(m),
            )),
            advance_proceeds(old(self).session()) ==> (res matches Ok(r) ==> (r.stop
                ==> final(self).decoder_stopped())),
            advance_proceeds(old(self).session()) && !old(self).takes_forced_tokens() ==> (
            res is Ok ==> final(self).session().step_arg.tokens.len() == 0),
            advance_proceeds(old(self).session()) && !old(self).decoder_capabilities().backtrack
                ==> (res matches Ok(r) ==> r.stop || (r.backtrack == 0 && r.tokens@.len() >= 1
                && r.tokens@[0] == sampled)),
            final(self).decoder_capabilities() == old(self).decoder_capabilities(),
            final(self).takes_forced_tokens() == old(self).takes_forced_tokens(),
            old(self).session().wf() ==> final(self).session().wf(),
    {
        if !self.session.advance_proceeds() {
            let none: Vec<String> = Vec::new();
            return self.session.advance(sampled, None, &none, String::new(), None);
        }
        let step = self.advance_decoder(sampled);
        let ends: bool = step.out.is_none() && step.failure.is_none();
        let flushed = self.flush_progress(true, ends);
        let failure = self.check_error(step.failure);
        self.session.advance(sampled, step.out, &flushed.records, flushed.last, failure)
    }
}

} // verus!
