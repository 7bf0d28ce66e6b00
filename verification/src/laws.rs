//! What holds of every session, whatever the decoder answers.

use vstd::prelude::*;
use crate::mask::{
    bit_set, lemma_restrict_valid, lemma_singleton_one_bit, mask_valid, mask_words,
};
use crate::session::{
    advance_proceeds, advance_step, mask_for, mask_proceeds, mask_step, AdvanceResultModel,
    ErrorModel, MidStepModel, Phase, RecordModel, SessionModel, SpliceModel, StepArgumentModel,
};

verus! {

/// Every mask that a mask step returns has one bit for each identifier of
/// the vocabulary and permits identifiers of it only, whatever the decoder
/// answers.
pub proof fn lemma_returned_mask_valid(
    pre: SessionModel,
    out: MidStepModel,
    records: Seq<Seq<char>>,
    final_text: Seq<char>,
    parser_error: Option<Seq<char>>,
)
    ensures
        mask_step(pre, out, records, final_text, parser_error).1 matches Ok(Some(m))
            ==> mask_valid(m, pre.vocab_size as nat),
{
    if out.sample_mask is Some {
        let m = out.sample_mask->0;
        if m.len() == mask_words(pre.vocab_size as nat) {
            lemma_restrict_valid(m, pre.vocab_size as nat);
        }
    } else if out.unconditional_splice is Some {
        let s = out.unconditional_splice->0;
        if s.ff_tokens.len() > 0 && s.ff_tokens[0] < pre.vocab_size {
            lemma_singleton_one_bit(pre.vocab_size as nat, s.ff_tokens[0] as nat);
        }
    }
}

/// A sample mask of the right length is returned with every bit of the
/// vocabulary as the decoder set it.
pub proof fn lemma_sample_mask_kept(
    pre: SessionModel,
    out: MidStepModel,
    records: Seq<Seq<char>>,
    final_text: Seq<char>,
)
    requires
        mask_proceeds(pre),
        out.sample_mask matches Some(m) && m.len() == mask_words(pre.vocab_size as nat),
    ensures
        mask_step(pre, out, records, final_text, None).1 matches Ok(Some(m)) && forall|t: int|
            0 <= t < pre.vocab_size ==> (bit_set(m, t) <==> bit_set(out.sample_mask->0, t)),
{
    lemma_restrict_valid(out.sample_mask->0, pre.vocab_size as nat);
}

/// When the decoder forces a continuation and offers no sample mask, the
/// returned mask has exactly one bit, at the first forced token.
pub proof fn lemma_splice_gives_singleton(
    pre: SessionModel,
    out: MidStepModel,
    records: Seq<Seq<char>>,
    final_text: Seq<char>,
)
    requires
        mask_proceeds(pre),
        out.sample_mask is None,
        out.unconditional_splice matches Some(s) && s.ff_tokens.len() > 0 && s.ff_tokens[0]
            < pre.vocab_size,
    ensures
        mask_step(pre, out, records, final_text, None).1 matches Ok(Some(m)) && forall|t: int|
            bit_set(m, t) <==> t == (out.unconditional_splice->0).ff_tokens[0],
{
    let s = out.unconditional_splice->0;
    lemma_singleton_one_bit(pre.vocab_size as nat, s.ff_tokens[0] as nat);
}

/// An advance that no mask preceded is misuse and changes nothing: on a fresh
/// session, and on any session that is ready for its next mask.
pub proof fn lemma_advance_needs_mask(
    pre: SessionModel,
    sampled: u32,
    out: Option<SpliceModel>,
    records: Seq<Seq<char>>,
    final_text: Seq<char>,
    parser_error: Option<Seq<char>>,
)
    requires
        pre.error is None,
        pre.phase == Phase::Ready,
    ensures
        advance_step(pre, sampled, out, records, final_text, parser_error) == (
            pre,
            Err::<AdvanceResultModel, ErrorModel>(ErrorModel::ApiMisuse),
        ),
        advance_step(
            SessionModel::initial(pre.vocab_size),
            sampled,
            out,
            records,
            final_text,
            parser_error,
        ).1 == Err::<AdvanceResultModel, ErrorModel>(ErrorModel::ApiMisuse),
{
}

/// A second advance without a mask in between is misuse and changes nothing.
pub proof fn lemma_advance_twice_is_misuse(
    pre: SessionModel,
    first: u32,
    out: SpliceModel,
    records: Seq<Seq<char>>,
    final_text: Seq<char>,
    second: u32,
    out2: Option<SpliceModel>,
    records2: Seq<Seq<char>>,
    final_text2: Seq<char>,
    parser_error2: Option<Seq<char>>,
)
    requires
        advance_proceeds(pre),
    ensures
        ({
            let mid = advance_step(pre, first, Some(out), records, final_text, None).0;
            advance_step(mid, second, out2, records2, final_text2, parser_error2) == (
                mid,
                Err::<AdvanceResultModel, ErrorModel>(ErrorModel::ApiMisuse),
            )
        }),
{
}

/// A second mask without an advance in between is misuse and changes nothing.
pub proof fn lemma_mask_twice_is_misuse(
    pre: SessionModel,
    out: MidStepModel,
    records: Seq<Seq<char>>,
    final_text: Seq<char>,
    parser_error: Option<Seq<char>>,
)
    requires
        pre.error is None,
        pre.phase == Phase::AwaitingSample,
    ensures
        mask_step(pre, out, records, final_text, parser_error) == (
            pre,
            Err::<Option<Seq<u32>>, ErrorModel>(ErrorModel::ApiMisuse),
        ),
{
}

/// When the decoder rescinds tokens, the host is told one rollback fewer and
/// the forced tokens alone; the sampled token is not among them. The pending
/// argument keeps the decoder's own count.
pub proof fn lemma_backtrack_decrement(
    pre: SessionModel,
    sampled: u32,
    out: SpliceModel,
    records: Seq<Seq<char>>,
    final_text: Seq<char>,
)
    requires
        advance_proceeds(pre),
        out.backtrack > 0,
    ensures
        ({
            let (post, res) = advance_step(pre, sampled, Some(out), records, final_text, None);
            &&& res == Ok::<AdvanceResultModel, ErrorModel>(
                AdvanceResultModel {
                    stop: false,
                    backtrack: (out.backtrack - 1) as u32,
                    tokens: out.ff_tokens,
                },
            )
            &&& post.step_arg == (StepArgumentModel {
                backtrack: out.backtrack,
                tokens: out.ff_tokens,
                sampled: None,
            })
        }),
{
}

/// When the decoder rescinds nothing, the host is told to append the sampled
/// token followed by the forced tokens, in order.
pub proof fn lemma_forward_commit(
    pre: SessionModel,
    sampled: u32,
    out: SpliceModel,
    records: Seq<Seq<char>>,
    final_text: Seq<char>,
)
    requires
        advance_proceeds(pre),
        out.backtrack == 0,
    ensures
        ({
            let res = advance_step(pre, sampled, Some(out), records, final_text, None).1;
            &&& res matches Ok(r)
            &&& !r.stop
            &&& r.backtrack == 0
            &&& r.tokens.len() == out.ff_tokens.len() + 1
            &&& r.tokens[0] == sampled
            &&& r.tokens.subrange(1, r.tokens.len() as int) == out.ff_tokens
        }),
{
    let res = advance_step(pre, sampled, Some(out), records, final_text, None).1;
    let r = res->Ok_0;
    assert(r.tokens.subrange(1, r.tokens.len() as int) =~= out.ff_tokens);
}

/// A decoder error is recorded by the step that meets it.
pub proof fn lemma_error_recorded(
    pre: SessionModel,
    out: MidStepModel,
    sampled: u32,
    answer: Option<SpliceModel>,
    records: Seq<Seq<char>>,
    final_text: Seq<char>,
    message: Seq<char>,
)
    ensures
        mask_proceeds(pre) ==> mask_step(pre, out, records, final_text, Some(message)).0.error
            == Some(message) && mask_step(pre, out, records, final_text, Some(message)).1 == Err::<
            Option<Seq<u32>>,
            ErrorModel,
        >(ErrorModel::Parser(message)),
        advance_proceeds(pre) ==> advance_step(
            pre,
            sampled,
            answer,
            records,
            final_text,
            Some(message),
        ).0.error == Some(message) && advance_step(
            pre,
            sampled,
            answer,
            records,
            final_text,
            Some(message),
        ).1 == Err::<AdvanceResultModel, ErrorModel>(ErrorModel::Parser(message)),
{
}

/// Once an error is recorded, every later mask step and advance returns the
/// same message and leaves the session as it is.
pub proof fn lemma_error_sticky(
    pre: SessionModel,
    out: MidStepModel,
    sampled: u32,
    answer: Option<SpliceModel>,
    records: Seq<Seq<char>>,
    final_text: Seq<char>,
    parser_error: Option<Seq<char>>,
)
    requires
        pre.error is Some,
    ensures
        mask_step(pre, out, records, final_text, parser_error) == (
            pre,
            Err::<Option<Seq<u32>>, ErrorModel>(ErrorModel::Parser(pre.error->0)),
        ),
        advance_step(pre, sampled, answer, records, final_text, parser_error) == (
            pre,
            Err::<AdvanceResultModel, ErrorModel>(ErrorModel::Parser(pre.error->0)),
        ),
{
}

/// A temperature that the decoder's output carries is the session's
/// temperature after a mask step that succeeds, bit for bit; without one the
/// temperature stays.
pub proof fn lemma_temperature_taken(
    pre: SessionModel,
    out: MidStepModel,
    records: Seq<Seq<char>>,
    final_text: Seq<char>,
)
    requires
        mask_proceeds(pre),
        mask_for(out, pre.vocab_size) is Ok,
    ensures
        out.temperature matches Some(t) ==> mask_step(
            pre,
            out,
            records,
            final_text,
            None,
        ).0.temperature == t,
        out.temperature is None ==> mask_step(pre, out, records, final_text, None).0.temperature
            == pre.temperature,
{
}

/// When the decoder stops in a mask step, the host is told to stop, the
/// progress buffer gains the step's records and then one final record, and
/// every later advance returns the terminal signal without change.
pub proof fn lemma_stop_is_terminal(
    pre: SessionModel,
    out: MidStepModel,
    records: Seq<Seq<char>>,
    final_text: Seq<char>,
    sampled: u32,
    answer: Option<SpliceModel>,
    records2: Seq<Seq<char>>,
    final_text2: Seq<char>,
    parser_error2: Option<Seq<char>>,
)
    requires
        mask_proceeds(pre),
        out.is_stop(),
    ensures
        ({
            let (post, res) = mask_step(pre, out, records, final_text, None);
            &&& res == Ok::<Option<Seq<u32>>, ErrorModel>(None)
            &&& post.phase == Phase::Stopped
            &&& post.progress.len() == pre.progress.len() + records.len() + 1
            &&& post.progress.last() == (RecordModel {
                text: final_text,
                generated: false,
                is_final: true,
            })
            &&& advance_step(post, sampled, answer, records2, final_text2, parser_error2) == (
                post,
                Ok::<AdvanceResultModel, ErrorModel>(AdvanceResultModel::terminal()),
            )
            &&& mask_step(post, out, records2, final_text2, parser_error2) == (
                post,
                Ok::<Option<Seq<u32>>, ErrorModel>(None),
            )
        }),
{
}

/// Every step keeps a well-formed session well-formed.
pub proof fn lemma_steps_keep_wf(
    pre: SessionModel,
    out: MidStepModel,
    sampled: u32,
    answer: Option<SpliceModel>,
    records: Seq<Seq<char>>,
    final_text: Seq<char>,
    parser_error: Option<Seq<char>>,
)
    requires
        pre.wf(),
    ensures
        mask_step(pre, out, records, final_text, parser_error).0.wf(),
        advance_step(pre, sampled, answer, records, final_text, parser_error).0.wf(),
{
}

} // verus!
