//! The decode-loop state machine: what a session holds between steps, and how
//! one mask step or one advance step changes it for a given decoder output.
//!
//! Everything here works on plain values. The decoder's answers arrive as
//! arguments, so each transition is stated exactly, for every answer.

use vstd::prelude::*;
use crate::mask::{
    has_mask_length, mask_words, restrict_spec, restrict_to_vocabulary, singleton_mask,
    singleton_spec,
};

verus! {

/// Where a session stands in the two-phase protocol.
#[derive(Debug, Clone, Copy, PartialEq, Eq, Structural)]
pub enum Phase {
    /// A mask may be computed next.
    Ready,
    /// A mask was handed out; the host owes a sampled token.
    AwaitingSample,
    /// The grammar is complete; further steps return the terminal signal.
    Stopped,
}

/// What the host has committed since the previous mask.
#[derive(Debug)]
pub struct StepArgument {
    pub backtrack: u32,
    pub tokens: Vec<u32>,
    pub sampled: Option<u32>,
}

/// Mathematical model of a step argument.
#[verifier::ext_equal]
pub struct StepArgumentModel {
    pub backtrack: u32,
    pub tokens: Seq<u32>,
    pub sampled: Option<u32>,
}

impl View for StepArgument {
    type V = StepArgumentModel;

    open spec fn view(&self) -> StepArgumentModel {
        StepArgumentModel { backtrack: self.backtrack, tokens: self.tokens@, sampled: self.sampled }
    }
}

impl StepArgumentModel {
    /// The argument that carries nothing.
    pub open spec fn empty() -> StepArgumentModel {
        StepArgumentModel { backtrack: 0, tokens: Seq::empty(), sampled: None }
    }

    /// An argument is empty when it has neither tokens nor a sampled token.
    pub open spec fn is_empty(self) -> bool {
        self.tokens.len() == 0 && self.sampled is None
    }
}

impl StepArgument {
    /// The empty argument.
    pub fn empty() -> (arg: StepArgument)
        ensures
            arg@ == StepArgumentModel::empty(),
    {
        StepArgument { backtrack: 0, tokens: Vec::new(), sampled: None }
    }

    /// Whether the argument has neither tokens nor a sampled token.
    pub fn is_empty(&self) -> (b: bool)
        ensures
            b == self@.is_empty(),
    {
        self.tokens.len() == 0 && self.sampled.is_none()
    }
}

/// A continuation that the grammar forces, with no sampling freedom.
#[derive(Debug)]
pub struct Splice {
    pub backtrack: u32,
    pub ff_tokens: Vec<u32>,
}

/// Mathematical model of a splice.
#[verifier::ext_equal]
pub struct SpliceModel {
    pub backtrack: u32,
    pub ff_tokens: Seq<u32>,
}

impl View for Splice {
    type V = SpliceModel;

    open spec fn view(&self) -> SpliceModel {
        SpliceModel { backtrack: self.backtrack, ff_tokens: self.ff_tokens@ }
    }
}

/// What the decoder reports in the middle of a step. The temperature is held
/// by its bit pattern.
#[derive(Debug)]
pub struct MidStepOutput {
    pub temperature: Option<u32>,
    pub sample_mask: Option<Vec<u32>>,
    pub unconditional_splice: Option<Splice>,
}

/// Mathematical model of a mid-step output.
#[verifier::ext_equal]
pub struct MidStepModel {
    pub temperature: Option<u32>,
    pub sample_mask: Option<Seq<u32>>,
    pub unconditional_splice: Option<SpliceModel>,
}

impl View for MidStepOutput {
    type V = MidStepModel;

    open spec fn view(&self) -> MidStepModel {
        MidStepModel {
            temperature: self.temperature,
            sample_mask: match self.sample_mask {
                Some(m) => Some(m@),
                None => None,
            },
            unconditional_splice: match self.unconditional_splice {
                Some(s) => Some(s@),
                None => None,
            },
        }
    }
}

impl MidStepModel {
    /// The decoder stops when it offers neither a mask nor a splice.
    pub open spec fn is_stop(self) -> bool {
        self.sample_mask is None && self.unconditional_splice is None
    }
}

impl MidStepOutput {
    /// The output of a decoder that has nothing more to offer.
    pub fn stop() -> (out: MidStepOutput)
        ensures
            out@ == stop_output(),
    {
        MidStepOutput { temperature: None, sample_mask: None, unconditional_splice: None }
    }

    /// Whether the decoder stops.
    pub fn is_stop(&self) -> (b: bool)
        ensures
            b == self@.is_stop(),
    {
        self.sample_mask.is_none() && self.unconditional_splice.is_none()
    }
}

/// What the decoder reports after taking a sampled token, unless it is done.
#[derive(Debug)]
pub struct AdvanceOutput {
    pub backtrack: u32,
    pub ff_tokens: Vec<u32>,
}

impl View for AdvanceOutput {
    type V = SpliceModel;

    open spec fn view(&self) -> SpliceModel {
        SpliceModel { backtrack: self.backtrack, ff_tokens: self.ff_tokens@ }
    }
}

/// What the host must do after an advance: stop, or rescind `backtrack`
/// tokens and then append `tokens`.
#[derive(Debug)]
pub struct AdvanceResult {
    pub stop: bool,
    pub backtrack: u32,
    pub tokens: Vec<u32>,
}

/// Mathematical model of an advance result.
#[verifier::ext_equal]
pub struct AdvanceResultModel {
    pub stop: bool,
    pub backtrack: u32,
    pub tokens: Seq<u32>,
}

impl View for AdvanceResult {
    type V = AdvanceResultModel;

    open spec fn view(&self) -> AdvanceResultModel {
        AdvanceResultModel { stop: self.stop, backtrack: self.backtrack, tokens: self.tokens@ }
    }
}

impl AdvanceResultModel {
    /// The terminal signal.
    pub open spec fn terminal() -> AdvanceResultModel {
        AdvanceResultModel { stop: true, backtrack: 0, tokens: Seq::empty() }
    }
}

/// One progress record: its serialized text and how it is tagged.
#[derive(Debug)]
pub struct ProgressRecord {
    pub text: String,
    pub generated: bool,
    pub is_final: bool,
}

/// Mathematical model of a progress record.
#[verifier::ext_equal]
pub struct RecordModel {
    pub text: Seq<char>,
    pub generated: bool,
    pub is_final: bool,
}

impl View for ProgressRecord {
    type V = RecordModel;

    open spec fn view(&self) -> RecordModel {
        RecordModel { text: self.text@, generated: self.generated, is_final: self.is_final }
    }
}

/// Why a session operation failed.
#[derive(Debug)]
pub enum SessionError {
    /// The host called the operations out of order.
    ApiMisuse,
    /// The decoder reported an error; it is returned by every later step.
    Parser(String),
    /// The decoder forced a continuation that is empty or names no token.
    MalformedSplice,
    /// The decoder's mask has not one bit for every identifier.
    MalformedMask,
}

/// Mathematical model of a session error.
#[verifier::ext_equal]
pub enum ErrorModel {
    ApiMisuse,
    Parser(Seq<char>),
    MalformedSplice,
    MalformedMask,
}

impl View for SessionError {
    type V = ErrorModel;

    open spec fn view(&self) -> ErrorModel {
        match self {
            SessionError::ApiMisuse => ErrorModel::ApiMisuse,
            SessionError::Parser(m) => ErrorModel::Parser(m@),
            SessionError::MalformedSplice => ErrorModel::MalformedSplice,
            SessionError::MalformedMask => ErrorModel::MalformedMask,
        }
    }
}

/// The views of a sequence of strings, in order.
pub open spec fn texts(items: Seq<String>) -> Seq<Seq<char>> {
    Seq::new(items.len(), |i: int| items[i]@)
}

/// The models of a sequence of progress records, in order.
pub open spec fn record_models(items: Seq<ProgressRecord>) -> Seq<RecordModel> {
    Seq::new(items.len(), |i: int| items[i]@)
}

/// The records of one step: each text tagged as given, then the final record
/// if there is one.
pub open spec fn tagged(
    records: Seq<Seq<char>>,
    generated: bool,
    final_text: Option<Seq<char>>,
) -> Seq<RecordModel> {
    Seq::new(
        records.len(),
        |i: int| RecordModel { text: records[i], generated, is_final: false },
    ) + match final_text {
        Some(t) => seq![RecordModel { text: t, generated, is_final: true }],
        None => Seq::empty(),
    }
}

/// The mask that answers a mid-step output over a vocabulary: the sample mask
/// if there is one, cut to the vocabulary; else the singleton of the first
/// forced token; else the stop signal (`None`). A sample mask of the wrong
/// length is refused.
pub open spec fn mask_for(out: MidStepModel, vocab_size: u32) -> Result<
    Option<Seq<u32>>,
    ErrorModel,
> {
    match out.sample_mask {
        Some(m) => if m.len() == mask_words(vocab_size as nat) {
            Ok(Some(restrict_spec(m, vocab_size as nat)))
        } else {
            Err(ErrorModel::MalformedMask)
        },
        None => match out.unconditional_splice {
            Some(s) => if s.ff_tokens.len() == 0 || s.ff_tokens[0] >= vocab_size {
                Err(ErrorModel::MalformedSplice)
            } else {
                Ok(Some(singleton_spec(vocab_size as nat, s.ff_tokens[0] as nat)))
            },
            None => Ok(None),
        },
    }
}

/// What the host is told after an advance: the terminal signal when the
/// decoder is done; the sampled token followed by the forced tokens when
/// nothing is rescinded; else one rollback fewer than the decoder asked for,
/// because the sampled token never reached the host's history.
pub open spec fn advance_result_for(sampled: u32, out: Option<SpliceModel>) -> AdvanceResultModel {
    match out {
        None => AdvanceResultModel::terminal(),
        Some(o) => if o.backtrack == 0 {
            AdvanceResultModel { stop: false, backtrack: 0, tokens: seq![sampled] + o.ff_tokens }
        } else {
            AdvanceResultModel {
                stop: false,
                backtrack: (o.backtrack - 1) as u32,
                tokens: o.ff_tokens,
            }
        },
    }
}

/// The step argument that an advance leaves pending for the next mask.
pub open spec fn pending_after(out: Option<SpliceModel>) -> StepArgumentModel {
    match out {
        None => StepArgumentModel::empty(),
        Some(o) => StepArgumentModel { backtrack: o.backtrack, tokens: o.ff_tokens, sampled: None },
    }
}


/// Mathematical model of a session.
#[verifier::ext_equal]
pub struct SessionModel {
    pub vocab_size: u32,
    pub phase: Phase,
    pub primed: bool,
    pub step_arg: StepArgumentModel,
    pub temperature: u32,
    pub progress: Seq<RecordModel>,
    pub error: Option<Seq<char>>,
}

impl SessionModel {
    /// A fresh session: ready, unprimed, temperature 0.0, nothing pending,
    /// nothing logged.
    pub open spec fn initial(vocab_size: u32) -> SessionModel {
        SessionModel {
            vocab_size,
            phase: Phase::Ready,
            primed: false,
            step_arg: StepArgumentModel::empty(),
            temperature: 0,
            progress: Seq::empty(),
            error: None,
        }
    }

    /// A session that awaits a sample has nothing pending.
    pub open spec fn wf(self) -> bool {
        self.phase == Phase::AwaitingSample ==> self.step_arg.is_empty()
    }
}

/// The model of an optional string.
pub open spec fn opt_text(s: Option<String>) -> Option<Seq<char>> {
    match s {
        Some(t) => Some(t@),
        None => None,
    }
}

/// The model of the outcome of a mask step.
pub open spec fn mask_outcome(res: Result<Option<Vec<u32>>, SessionError>) -> Result<
    Option<Seq<u32>>,
    ErrorModel,
> {
    match res {
        Ok(Some(m)) => Ok(Some(m@)),
        Ok(None) => Ok(None),
        Err(e) => Err(e@),
    }
}

/// The model of the outcome of an advance step.
pub open spec fn advance_outcome(res: Result<AdvanceResult, SessionError>) -> Result<
    AdvanceResultModel,
    ErrorModel,
> {
    match res {
        Ok(r) => Ok(r@),
        Err(e) => Err(e@),
    }
}

/// The model of an optional decoder answer to an advance.
pub open spec fn opt_splice(out: Option<AdvanceOutput>) -> Option<SpliceModel> {
    match out {
        Some(o) => Some(o@),
        None => None,
    }
}

/// Whether a mask step would reach the decoder: no error is recorded and the
/// session is ready.
pub open spec fn mask_proceeds(pre: SessionModel) -> bool {
    pre.error is None && pre.phase == Phase::Ready
}

/// Whether an advance would reach the decoder: no error is recorded, a mask
/// was handed out, and nothing is pending.
pub open spec fn advance_proceeds(pre: SessionModel) -> bool {
    pre.error is None && pre.phase == Phase::AwaitingSample && pre.step_arg.is_empty()
}

/// One mask step: the session after it and what the host is told.
///
/// A recorded error is returned again and a stopped session returns the stop
/// signal, both without change. A second mask without an advance is misuse,
/// without change. Otherwise the pending argument is consumed, the step's
/// records are logged (with a final record if the decoder stops without an
/// error), and then: a decoder error is recorded and returned; else the
/// temperature override is taken and the mask is returned.
pub open spec fn mask_step(
    pre: SessionModel,
    out: MidStepModel,
    records: Seq<Seq<char>>,
    final_text: Seq<char>,
    parser_error: Option<Seq<char>>,
) -> (SessionModel, Result<Option<Seq<u32>>, ErrorModel>) {
    if pre.error is Some {
        (pre, Err(ErrorModel::Parser(pre.error->0)))
    } else if pre.phase == Phase::Stopped {
        (pre, Ok(None))
    } else if pre.phase == Phase::AwaitingSample {
        (pre, Err(ErrorModel::ApiMisuse))
    } else {
        let taken = SessionModel {
            step_arg: StepArgumentModel::empty(),
            primed: true,
            progress: pre.progress + tagged(
                records,
                false,
                if out.is_stop() && parser_error is None {
                    Some(final_text)
                } else {
                    None
                },
            ),
            ..pre
        };
        match parser_error {
            Some(e) => (SessionModel { error: Some(e), ..taken }, Err(ErrorModel::Parser(e))),
            None => match mask_for(out, pre.vocab_size) {
                Err(e) => (SessionModel { phase: Phase::Stopped, ..taken }, Err(e)),
                Ok(m) => (
                    SessionModel {
                        temperature: match out.temperature {
                            Some(t) => t,
                            None => pre.temperature,
                        },
                        phase: if m is None {
                            Phase::Stopped
                        } else {
                            Phase::AwaitingSample
                        },
                        ..taken
                    },
                    Ok(m),
                ),
            },
        }
    }
}

/// One advance step: the session after it and what the host is told.
///
/// A recorded error is returned again and a stopped session returns the
/// terminal signal, both without change. An advance that no mask preceded is
/// misuse, without change. Otherwise the step's records are logged as
/// generated (with a final record if the decoder is done without an error),
/// and then: a decoder error is recorded and returned; else the decoder's
/// answer becomes the pending argument and the host's instructions are
/// returned.
pub open spec fn advance_step(
    pre: SessionModel,
    sampled: u32,
    out: Option<SpliceModel>,
    records: Seq<Seq<char>>,
    final_text: Seq<char>,
    parser_error: Option<Seq<char>>,
) -> (SessionModel, Result<AdvanceResultModel, ErrorModel>) {
    if pre.error is Some {
        (pre, Err(ErrorModel::Parser(pre.error->0)))
    } else if pre.phase == Phase::Stopped {
        (pre, Ok(AdvanceResultModel::terminal()))
    } else if !advance_proceeds(pre) {
        (pre, Err(ErrorModel::ApiMisuse))
    } else {
        let logged = SessionModel {
            progress: pre.progress + tagged(
                records,
                true,
                if out is None && parser_error is None {
                    Some(final_text)
                } else {
                    None
                },
            ),
            ..pre
        };
        match parser_error {
            Some(e) => (SessionModel { error: Some(e), ..logged }, Err(ErrorModel::Parser(e))),
            None => (
                SessionModel {
                    step_arg: pending_after(out),
                    phase: if out is None {
                        Phase::Stopped
                    } else {
                        Phase::Ready
                    },
                    ..logged
                },
                Ok(advance_result_for(sampled, out)),
            ),
        }
    }
}

/// Priming: allowed once, before any step; afterwards it is misuse and
/// changes nothing.
pub open spec fn prime_step(pre: SessionModel) -> (SessionModel, Result<(), ErrorModel>) {
    if pre.primed {
        (pre, Err(ErrorModel::ApiMisuse))
    } else {
        (SessionModel { primed: true, ..pre }, Ok(()))
    }
}


/// The decoder's answer in the middle of a step, and the text of a call that
/// failed.
#[derive(Debug)]
pub struct MidStep {
    pub out: MidStepOutput,
    pub failure: Option<String>,
}

/// The decoder's answer to an advance (`None` when it is done), and the text
/// of a call that failed.
#[derive(Debug)]
pub struct Advance {
    pub out: Option<AdvanceOutput>,
    pub failure: Option<String>,
}

/// The model of a yes-or-no answer, or of the text of its failure.
pub open spec fn flag_model(r: Result<bool, String>) -> Result<bool, Seq<char>> {
    match r {
        Ok(b) => Ok(b),
        Err(t) => Err(t@),
    }
}

/// The model of a count, or of the text of its failure.
pub open spec fn count_model(r: Result<usize, String>) -> Result<usize, Seq<char>> {
    match r {
        Ok(n) => Ok(n),
        Err(t) => Err(t@),
    }
}

/// The model of a list of words or tokens, or of the text of its failure.
pub open spec fn words_model(r: Result<Vec<u32>, String>) -> Result<Seq<u32>, Seq<char>> {
    match r {
        Ok(v) => Ok(v@),
        Err(t) => Err(t@),
    }
}

/// The mid-step output that has nothing to offer.
pub open spec fn stop_output() -> MidStepModel {
    MidStepModel { temperature: None, sample_mask: None, unconditional_splice: None }
}

/// A rollback count in the width that the host's protocol carries.
pub open spec fn narrow(count: usize) -> u32 {
    if count > u32::MAX {
        u32::MAX
    } else {
        count as u32
    }
}

/// What the decoder's answers in the middle of a step amount to.
///
/// `stop` answers whether the sequence must stop. Only where it must not are
/// `mask` and `temperature` looked at: they answer the request for a mask and
/// for the temperature override. A failed call is a stop with its text.
pub open spec fn mid_step_for(
    stop: Result<bool, Seq<char>>,
    mask: Result<Seq<u32>, Seq<char>>,
    temperature: Option<u32>,
) -> (MidStepModel, Option<Seq<char>>) {
    match stop {
        Err(t) => (stop_output(), Some(t)),
        Ok(true) => (stop_output(), None),
        Ok(false) => match mask {
            Ok(m) => (
                MidStepModel { temperature, sample_mask: Some(m), unconditional_splice: None },
                None,
            ),
            Err(t) => (stop_output(), Some(t)),
        },
    }
}

/// What the decoder's answers to an advance amount to.
///
/// `consumed` answers the sampled token with a rollback count. Only where
/// that succeeded is `stop` looked at, and only where the sequence goes on
/// and the host takes forced tokens is `forced`. A failed call leaves no
/// answer, only its text; a stop leaves neither.
pub open spec fn advance_for(
    consumed: Result<usize, Seq<char>>,
    stop: Result<bool, Seq<char>>,
    forced: Result<Seq<u32>, Seq<char>>,
    takes_forced: bool,
) -> (Option<SpliceModel>, Option<Seq<char>>) {
    match consumed {
        Err(t) => (None, Some(t)),
        Ok(count) => match stop {
            Err(t) => (None, Some(t)),
            Ok(true) => (None, None),
            Ok(false) => if !takes_forced {
                (Some(SpliceModel { backtrack: narrow(count), ff_tokens: Seq::empty() }), None)
            } else {
                match forced {
                    Err(t) => (None, Some(t)),
                    Ok(tokens) => (
                        Some(SpliceModel { backtrack: narrow(count), ff_tokens: tokens }),
                        None,
                    ),
                }
            },
        },
    }
}

/// Puts the decoder's answers in the middle of a step together.
pub fn assemble_mid_step(
    stop: Result<bool, String>,
    mask: Result<Vec<u32>, String>,
    temperature: Option<u32>,
) -> (step: MidStep)
    ensures
        (step.out@, opt_text(step.failure)) == mid_step_for(
            flag_model(stop),
            words_model(mask),
            temperature,
        ),
{
    match stop {
        Err(t) => MidStep { out: MidStepOutput::stop(), failure: Some(t) },
        Ok(true) => MidStep { out: MidStepOutput::stop(), failure: None },
        Ok(false) => match mask {
            Ok(m) => MidStep {
                out: MidStepOutput { temperature, sample_mask: Some(m), unconditional_splice: None },
                failure: None,
            },
            Err(t) => MidStep { out: MidStepOutput::stop(), failure: Some(t) },
        },
    }
}

/// Puts the decoder's answers to an advance together.
pub fn assemble_advance(
    consumed: Result<usize, String>,
    stop: Result<bool, String>,
    forced: Result<Vec<u32>, String>,
    takes_forced: bool,
) -> (step: Advance)
    ensures
        (opt_splice(step.out), opt_text(step.failure)) == advance_for(
            count_model(consumed),
            flag_model(stop),
            words_model(forced),
            takes_forced,
        ),
{
    let count: usize = match consumed {
        Err(t) => {
            return Advance { out: None, failure: Some(t) };
        },
        Ok(count) => count,
    };
    let backtrack: u32 = if count > 0xffff_ffff {
        0xffff_ffff
    } else {
        count as u32
    };
    match stop {
        Err(t) => Advance { out: None, failure: Some(t) },
        Ok(true) => Advance { out: None, failure: None },
        Ok(false) => {
            if !takes_forced {
                Advance {
                    out: Some(AdvanceOutput { backtrack, ff_tokens: Vec::new() }),
                    failure: None,
                }
            } else {
                match forced {
                    Err(t) => Advance { out: None, failure: Some(t) },
                    Ok(tokens) => Advance {
                        out: Some(AdvanceOutput { backtrack, ff_tokens: tokens }),
                        failure: None,
                    },
                }
            }
        },
    }
}

/// Builds the mask that answers a mid-step output.
pub fn mask_from_output(out: MidStepOutput, vocab_size: u32) -> (res: Result<
    Option<Vec<u32>>,
    SessionError,
>)
    ensures
        mask_outcome(res) == mask_for(out@, vocab_size),
{
    match out.sample_mask {
        Some(m) => {
            if has_mask_length(&m, vocab_size) {
                Ok(Some(restrict_to_vocabulary(m, vocab_size)))
            } else {
                Err(SessionError::MalformedMask)
            }
        },
        None => match out.unconditional_splice {
            Some(s) => {
                if s.ff_tokens.len() == 0 {
                    return Err(SessionError::MalformedSplice);
                }
                let first: u32 = s.ff_tokens[0];
                if first >= vocab_size {
                    return Err(SessionError::MalformedSplice);
                }
                Ok(Some(singleton_mask(vocab_size, first)))
            },
            None => Ok(None),
        },
    }
}

/// Builds the host's instructions from the decoder's answer to an advance.
pub fn advance_result(sampled: u32, out: &Option<AdvanceOutput>) -> (r: AdvanceResult)
    ensures
        r@ == advance_result_for(sampled, opt_splice(*out)),
{
    match out {
        None => AdvanceResult { stop: true, backtrack: 0, tokens: Vec::new() },
        Some(o) => {
            let mut tokens: Vec<u32> = o.ff_tokens.clone();
            assert(tokens@ =~= o.ff_tokens@);
            if o.backtrack == 0 {
                tokens.insert(0, sampled);
                assert(tokens@ =~= seq![sampled] + o.ff_tokens@);
                AdvanceResult { stop: false, backtrack: 0, tokens }
            } else {
                AdvanceResult { stop: false, backtrack: o.backtrack - 1, tokens }
            }
        },
    }
}

/// Builds the argument that stays pending after an advance.
pub fn pending_step(out: Option<AdvanceOutput>) -> (arg: StepArgument)
    ensures
        arg@ == pending_after(opt_splice(out)),
{
    match out {
        None => StepArgument::empty(),
        Some(o) => StepArgument { backtrack: o.backtrack, tokens: o.ff_tokens, sampled: None },
    }
}

/// Appends the records of one step to a progress buffer.
pub fn append_progress(
    progress: &mut Vec<ProgressRecord>,
    records: &Vec<String>,
    generated: bool,
    final_text: Option<String>,
)
    ensures
        record_models(final(progress)@) == record_models(old(progress)@) + tagged(
            texts(records@),
            generated,
            opt_text(final_text),
        ),
{
    let ghost before = record_models(progress@);
    let ghost plain = tagged(texts(records@), generated, None);
    let mut i: usize = 0;
    proof {
        assert(before + plain.take(0) =~= before);
    }
    while i < records.len()
        invariant
            i <= records.len(),
            plain == tagged(texts(records@), generated, None),
            record_models(progress@) == before + plain.take(i as int),
        decreases records.len() - i,
    {
        let text: String = records[i].clone();
        let rec = ProgressRecord { text, generated, is_final: false };
        let ghost prev = record_models(progress@);
        progress.push(rec);
        i += 1;
        proof {
            assert(record_models(progress@) =~= prev.push(rec@));
            assert(rec@ == plain[i - 1]);
            assert(before + plain.take(i as int) =~= (before + plain.take(i - 1)).push(
                plain[i - 1],
            ));
        }
    }
    proof {
        assert(plain.take(i as int) =~= plain);
    }
    match final_text {
        Some(text) => {
            let rec = ProgressRecord { text, generated, is_final: true };
            let ghost prev = record_models(progress@);
            progress.push(rec);
            proof {
                assert(record_models(progress@) =~= prev.push(rec@));
                assert(prev.push(rec@) =~= before + tagged(
                    texts(records@),
                    generated,
                    Some(text@),
                ));
            }
        },
        None => {
            proof {
                assert(plain =~= tagged(texts(records@), generated, opt_text(final_text)));
            }
        },
    }
}


/// The plain state of one decoding session.
#[derive(Debug)]
pub struct Session {
    vocab_size: u32,
    phase: Phase,
    primed: bool,
    step_arg: StepArgument,
    temperature: u32,
    progress: Vec<ProgressRecord>,
    error: Option<String>,
}

impl View for Session {
    type V = SessionModel;

    closed spec fn view(&self) -> SessionModel {
        SessionModel {
            vocab_size: self.vocab_size,
            phase: self.phase,
            primed: self.primed,
            step_arg: self.step_arg@,
            temperature: self.temperature,
            progress: record_models(self.progress@),
            error: opt_text(self.error),
        }
    }
}

impl Session {
    /// A fresh session over a vocabulary of `vocab_size` identifiers.
    pub fn with_vocabulary(vocab_size: u32) -> (s: Session)
        ensures
            s@ == SessionModel::initial(vocab_size),
            s@.wf(),
    {
        let s = Session {
            vocab_size,
            phase: Phase::Ready,
            primed: false,
            step_arg: StepArgument::empty(),
            temperature: 0,
            progress: Vec::new(),
            error: None,
        };
        assert(s@ =~= SessionModel::initial(vocab_size));
        s
    }

    /// The number of identifiers in the vocabulary.
    pub fn vocab_size(&self) -> (n: u32)
        ensures
            n == self@.vocab_size,
    {
        self.vocab_size
    }

    /// Where the session stands in the protocol.
    pub fn phase(&self) -> (p: Phase)
        ensures
            p == self@.phase,
    {
        self.phase
    }

    /// Whether priming is no longer allowed.
    pub fn is_primed(&self) -> (b: bool)
        ensures
            b == self@.primed,
    {
        self.primed
    }

    /// The bit pattern of the current temperature.
    pub fn temperature_bits(&self) -> (t: u32)
        ensures
            t == self@.temperature,
    {
        self.temperature
    }

    /// The argument that is pending for the next mask.
    pub fn pending(&self) -> (arg: &StepArgument)
        ensures
            arg@ == self@.step_arg,
    {
        &self.step_arg
    }

    /// The number of progress records that await draining.
    pub fn progress_len(&self) -> (n: usize)
        ensures
            n == self@.progress.len(),
    {
        self.progress.len()
    }

    /// The recorded decoder error, if any.
    pub fn error_message(&self) -> (e: Option<String>)
        ensures
            opt_text(e) == self@.error,
    {
        match &self.error {
            Some(m) => Some(m.clone()),
            None => None,
        }
    }

    /// Whether a mask step would reach the decoder.
    pub fn mask_proceeds(&self) -> (b: bool)
        ensures
            b == mask_proceeds(self@),
    {
        self.error.is_none() && self.phase == Phase::Ready
    }

    /// Whether an advance would reach the decoder.
    pub fn advance_proceeds(&self) -> (b: bool)
        ensures
            b == advance_proceeds(self@),
    {
        self.error.is_none() && self.phase == Phase::AwaitingSample && self.step_arg.is_empty()
    }

    /// Marks the session as primed, once.
    pub fn begin_prompt(&mut self) -> (res: Result<(), SessionError>)
        ensures
            final(self)@ == prime_step(old(self)@).0,
            match res {
                Ok(()) => prime_step(old(self)@).1 == Ok::<(), ErrorModel>(()),
                Err(e) => prime_step(old(self)@).1 == Err::<(), ErrorModel>(e@),
            },
            old(self)@.wf() ==> final(self)@.wf(),
    {
        if self.primed {
            return Err(SessionError::ApiMisuse);
        }
        self.primed = true;
        assert(self@ =~= prime_step(old(self)@).0);
        Ok(())
    }

    /// Takes one mask step with the decoder's mid-step output, the step's
    /// serialized progress records, the terminal text, and the decoder's
    /// error channel.
    pub fn compute_mask(
        &mut self,
        out: MidStepOutput,
        records: &Vec<String>,
        final_text: String,
        parser_error: Option<String>,
    ) -> (res: Result<Option<Vec<u32>>, SessionError>)
        ensures
            (final(self)@, mask_outcome(res)) == mask_step(
                old(self)@,
                out@,
                texts(records@),
                final_text@,
                opt_text(parser_error),
            ),
            old(self)@.wf() ==> final(self)@.wf(),
    {
        let ghost pre = self@;
        let ghost want = mask_step(
            pre,
            out@,
            texts(records@),
            final_text@,
            opt_text(parser_error),
        );
        if let Some(m) = &self.error {
            return Err(SessionError::Parser(m.clone()));
        }
        if self.phase == Phase::Stopped {
            return Ok(None);
        }
        if self.phase == Phase::AwaitingSample {
            return Err(SessionError::ApiMisuse);
        }
        self.step_arg = StepArgument::empty();
        self.primed = true;
        let stop: bool = out.is_stop();
        let last: Option<String> = if stop && parser_error.is_none() {
            Some(final_text)
        } else {
            None
        };
        append_progress(&mut self.progress, records, false, last);
        if let Some(e) = parser_error {
            let copy: String = e.clone();
            self.error = Some(e);
            assert(self@ =~= want.0);
            return Err(SessionError::Parser(copy));
        }
        let temperature: Option<u32> = out.temperature;
        match mask_from_output(out, self.vocab_size) {
            Err(e) => {
                self.phase = Phase::Stopped;
                assert(self@ =~= want.0);
                Err(e)
            },
            Ok(mask) => {
                if let Some(t) = temperature {
                    self.temperature = t;
                }
                self.phase = if mask.is_none() {
                    Phase::Stopped
                } else {
                    Phase::AwaitingSample
                };
                assert(self@ =~= want.0);
                Ok(mask)
            },
        }
    }

    /// Takes one advance step with the sampled token, the decoder's answer
    /// (`None` when it is done), the step's serialized progress records, the
    /// terminal text, and the decoder's error channel.
    pub fn advance(
        &mut self,
        sampled: u32,
        out: Option<AdvanceOutput>,
        records: &Vec<String>,
        final_text: String,
        parser_error: Option<String>,
    ) -> (res: Result<AdvanceResult, SessionError>)
        ensures
            (final(self)@, advance_outcome(res)) == advance_step(
                old(self)@,
                sampled,
                opt_splice(out),
                texts(records@),
                final_text@,
                opt_text(parser_error),
            ),
            old(self)@.wf() ==> final(self)@.wf(),
    {
        let ghost pre = self@;
        let ghost want = advance_step(
            pre,
            sampled,
            opt_splice(out),
            texts(records@),
            final_text@,
            opt_text(parser_error),
        );
        if let Some(m) = &self.error {
            return Err(SessionError::Parser(m.clone()));
        }
        if self.phase == Phase::Stopped {
            return Ok(AdvanceResult { stop: true, backtrack: 0, tokens: Vec::new() });
        }
        if !(self.phase == Phase::AwaitingSample && self.step_arg.is_empty()) {
            return Err(SessionError::ApiMisuse);
        }
        let done: bool = out.is_none();
        let last: Option<String> = if done && parser_error.is_none() {
            Some(final_text)
        } else {
            None
        };
        append_progress(&mut self.progress, records, true, last);
        if let Some(e) = parser_error {
            let copy: String = e.clone();
            self.error = Some(e);
            assert(self@ =~= want.0);
            return Err(SessionError::Parser(copy));
        }
        let result = advance_result(sampled, &out);
        self.step_arg = pending_step(out);
        self.phase = if done {
            Phase::Stopped
        } else {
            Phase::Ready
        };
        assert(self@ =~= want.0);
        Ok(result)
    }

    /// Returns the buffered progress records in order and clears the buffer.
    pub fn drain_progress(&mut self) -> (records: Vec<ProgressRecord>)
        ensures
            record_models(records@) == old(self)@.progress,
            final(self)@ == (SessionModel { progress: Seq::empty(), ..old(self)@ }),
    {
        let mut records: Vec<ProgressRecord> = Vec::new();
        core::mem::swap(&mut self.progress, &mut records);
        assert(self@ =~= (SessionModel { progress: Seq::empty(), ..old(self)@ }));
        records
    }
}

} // verus!
