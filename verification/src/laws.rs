//! Laws of the session model.

use vstd::prelude::*;
use vstd::arithmetic::div_mod::{
    lemma_add_mod_noop_right, lemma_mod_add_multiples_vanish, lemma_mod_sub_multiples_vanish,
    lemma_small_mod, lemma_sub_mod_noop,
};
use crate::session::{bank_valid, Operation, ProgressModel, QuestionModel, SessionModel};

verus! {

/// A session started on a playable bank is well formed, whatever progress was
/// saved.
pub proof fn lemma_initial_wf(bank: Seq<QuestionModel>, saved: Option<ProgressModel>)
    requires
        bank_valid(bank),
    ensures
        SessionModel::initial(bank, saved).wf(),
{
}

/// Without saved progress a session starts at the first question with both
/// counters at zero.
pub proof fn lemma_initial_without_progress(bank: Seq<QuestionModel>)
    ensures
        SessionModel::initial(bank, None).current_index == 0,
        SessionModel::initial(bank, None).score == 0,
        SessionModel::initial(bank, None).total_attempted == 0,
        SessionModel::initial(bank, None).counters_consistent(),
{
}

/// A saved position at or beyond the end of the bank resumes at the last
/// question; one inside the bank is kept.
pub proof fn lemma_initial_clamps(bank: Seq<QuestionModel>, saved: ProgressModel)
    requires
        bank.len() >= 1,
    ensures
        saved.current_index >= bank.len() ==> SessionModel::initial(
            bank,
            Some(saved),
        ).current_index == bank.len() - 1,
        saved.current_index < bank.len() ==> SessionModel::initial(
            bank,
            Some(saved),
        ).current_index == saved.current_index,
        SessionModel::initial(bank, Some(saved)).current_index < bank.len(),
{
}

/// No operation changes the bank.
pub proof fn lemma_apply_keeps_bank(s: SessionModel, op: Operation)
    ensures
        s.apply(op).bank == s.bank,
{
}

/// Every operation takes a well-formed session to a well-formed session.
pub proof fn lemma_apply_preserves_wf(s: SessionModel, op: Operation)
    requires
        s.wf(),
    ensures
        s.apply(op).wf(),
{
}

/// Every sequence of operations takes a well-formed session to a well-formed
/// session over the same bank.
pub proof fn lemma_run_preserves_wf(s: SessionModel, ops: Seq<Operation>)
    requires
        s.wf(),
    ensures
        s.run(ops).wf(),
        s.run(ops).bank == s.bank,
    decreases ops.len(),
{
    if ops.len() > 0 {
        lemma_run_preserves_wf(s, ops.drop_last());
    }
}

/// The score never exceeds the number of attempts: an operation on a session
/// of which this holds gives a session of which it holds.
pub proof fn lemma_apply_keeps_counters_consistent(s: SessionModel, op: Operation)
    requires
        s.counters_consistent(),
    ensures
        s.apply(op).counters_consistent(),
{
}

/// The score never exceeds the number of attempts at any point of a run that
/// started so: it holds after every sequence of operations.
pub proof fn lemma_run_keeps_counters_consistent(s: SessionModel, ops: Seq<Operation>)
    requires
        s.counters_consistent(),
    ensures
        s.run(ops).counters_consistent(),
    decreases ops.len(),
{
    if ops.len() > 0 {
        lemma_run_keeps_counters_consistent(s, ops.drop_last());
    }
}

/// Neither counter ever goes down, except by a reset.
pub proof fn lemma_counters_never_decrease(s: SessionModel, op: Operation)
    requires
        op != Operation::Reset,
    ensures
        s.apply(op).score >= s.score,
        s.apply(op).total_attempted >= s.total_attempted,
{
}

/// Only scoring and a reset touch the counters: every other operation leaves
/// both as they are.
pub proof fn lemma_only_scoring_and_reset_touch_counters(s: SessionModel, op: Operation)
    requires
        op != Operation::CheckAnswer,
        op != Operation::Reset,
    ensures
        s.apply(op).score == s.score,
        s.apply(op).total_attempted == s.total_attempted,
{
}

/// Scoring counts one attempt per question: it adds one to the attempts of an
/// open question, at most one to its score, and nothing to a closed one.
pub proof fn lemma_scoring_counts_one_attempt(s: SessionModel)
    ensures
        s.answered ==> s.check_answer() == s,
        !s.answered ==> s.check_answer().total_attempted == s.total_attempted + 1,
        !s.answered && s.selection_is_correct() ==> s.check_answer().score == s.score + 1,
        !s.answered && !s.selection_is_correct() ==> s.check_answer().score == s.score,
{
}

/// Whenever the current question changes, the new one is open and its first
/// option is highlighted.
pub proof fn lemma_question_change_reopens(s: SessionModel, op: Operation)
    ensures
        s.apply(op).current_index != s.current_index ==> !s.apply(op).answered,
        s.apply(op).current_index != s.current_index ==> s.apply(op).selected == 0,
{
}

/// A session started with saved progress whose score does not exceed its
/// attempts, or with none, starts with a score that does not exceed its
/// attempts.
pub proof fn lemma_initial_counters_consistent(
    bank: Seq<QuestionModel>,
    saved: Option<ProgressModel>,
)
    requires
        saved matches Some(p) ==> p.score <= p.total_attempted,
    ensures
        SessionModel::initial(bank, saved).counters_consistent(),
{
}

/// Scoring is idempotent: scoring a second time, with no change of question in
/// between, changes nothing, so only the first call touches the counters.
pub proof fn lemma_check_answer_idempotent(s: SessionModel)
    ensures
        s.check_answer().check_answer() == s.check_answer(),
        s.check_answer().answered,
{
}

/// A reset after any sequence of operations gives the session that a run on
/// the same bank starts with when nothing was saved: first question, first
/// option, not scored, both counters at zero.
pub proof fn lemma_reset_after_run(s: SessionModel, ops: Seq<Operation>)
    ensures
        s.run(ops).reset() == SessionModel::initial(s.bank, None),
        s.run(ops).reset().current_index == 0,
        s.run(ops).reset().selected == 0,
        !s.run(ops).reset().answered,
        s.run(ops).reset().score == 0,
        s.run(ops).reset().total_attempted == 0,
    decreases ops.len(),
{
    if ops.len() > 0 {
        lemma_reset_after_run(s, ops.drop_last());
    }
}

/// Moving the highlight down `count` times puts it `count` places further,
/// counted round the options.
proof fn lemma_next_option_repeated(s: SessionModel, count: nat)
    requires
        s.wf(),
    ensures
        s.repeat(Operation::NextOption, count) == (SessionModel {
            selected: ((s.selected + count) % s.option_count()) as nat,
            ..s
        }),
    decreases count,
{
    let n = s.option_count() as int;
    if count == 0 {
        lemma_small_mod(s.selected, s.option_count());
    } else {
        let before = (count - 1) as nat;
        lemma_next_option_repeated(s, before);
        lemma_add_mod_noop_right(1, (s.selected + before) as int, n);
    }
}

/// Moving the highlight up `count` times puts it `count` places back, counted
/// round the options.
proof fn lemma_previous_option_repeated(s: SessionModel, count: nat)
    requires
        s.wf(),
    ensures
        s.repeat(Operation::PreviousOption, count) == (SessionModel {
            selected: ((s.selected - count) % (s.option_count() as int)) as nat,
            ..s
        }),
    decreases count,
{
    let n = s.option_count() as int;
    if count == 0 {
        lemma_small_mod(s.selected, s.option_count());
    } else {
        let before = (count - 1) as nat;
        lemma_previous_option_repeated(s, before);
        let at = (s.selected - before) % n;
        lemma_sub_mod_noop(s.selected - before, 1, n);
        if n > 1 {
            lemma_small_mod(1, n as nat);
        }
        if at == 0 {
            lemma_mod_add_multiples_vanish(-1, n);
            lemma_small_mod((n - 1) as nat, n as nat);
        } else {
            lemma_small_mod((at - 1) as nat, n as nat);
        }
    }
}

/// Moving the highlight down as many times as the question has options brings
/// it back to where it was, and leaves the rest of the session alone.
pub proof fn lemma_next_option_cycle(s: SessionModel)
    requires
        s.wf(),
    ensures
        s.repeat(Operation::NextOption, s.option_count()) == s,
{
    let n = s.option_count() as int;
    lemma_next_option_repeated(s, s.option_count());
    lemma_mod_add_multiples_vanish(s.selected as int, n);
    lemma_small_mod(s.selected, s.option_count());
}

/// Moving the highlight up as many times as the question has options brings it
/// back to where it was, and leaves the rest of the session alone.
pub proof fn lemma_previous_option_cycle(s: SessionModel)
    requires
        s.wf(),
    ensures
        s.repeat(Operation::PreviousOption, s.option_count()) == s,
{
    let n = s.option_count() as int;
    lemma_previous_option_repeated(s, s.option_count());
    lemma_mod_sub_multiples_vanish(s.selected as int, n);
    lemma_small_mod(s.selected, s.option_count());
}

/// Up undoes down and down undoes up.
pub proof fn lemma_next_previous_inverse(s: SessionModel)
    requires
        s.wf(),
    ensures
        s.next_option().previous_option() == s,
        s.previous_option().next_option() == s,
{
    let n = s.option_count();
    if s.selected + 1 < n {
        lemma_small_mod(s.selected + 1, n);
    } else {
        lemma_mod_add_multiples_vanish(0, n as int);
    }
    if s.selected > 0 {
        lemma_small_mod(s.selected, n);
    }
}

} // verus!
