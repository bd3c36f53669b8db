//! A one-shot quiz: each user owns a record that is graded once against a
//! fixed answer key.
use vstd::prelude::*;
use crate::key::Pubkey;

verus! {

/// How many answers a submission holds.
pub const ANSWER_COUNT: usize = 10;

/// The answer key, one choice per question (C, B, D, A, C, B, D, C, A, B).
pub open spec fn answer_key() -> Seq<u8> {
    seq![2u8, 1u8, 3u8, 0u8, 2u8, 1u8, 3u8, 2u8, 0u8, 1u8]
}

/// How many of the first `n` positions hold the same choice in `answers` and `key`.
pub open spec fn matches_up_to(answers: Seq<u8>, key: Seq<u8>, n: int) -> nat
    decreases n,
{
    if n <= 0 {
        0
    } else {
        matches_up_to(answers, key, n - 1) + if answers[n - 1] == key[n - 1] {
            1nat
        } else {
            0nat
        }
    }
}

/// The score of `answers` against `key`: the positions, present in both, where they agree.
pub open spec fn score_of(answers: Seq<u8>, key: Seq<u8>) -> nat {
    if answers.len() <= key.len() {
        matches_up_to(answers, key, answers.len() as int)
    } else {
        matches_up_to(answers, key, key.len() as int)
    }
}

/// The per-user quiz record.
#[derive(Clone, Copy, Debug)]
pub struct QuizState {
    pub authority: Pubkey,
    pub score: u8,
    pub is_completed: bool,
}

/// Why a submission was refused.
#[derive(Clone, Copy, Debug, PartialEq, Eq, Structural)]
pub enum QuizError {
    /// The record has already been graded.
    QuizAlreadyCompleted,
    /// The submission does not hold exactly `ANSWER_COUNT` answers.
    InvalidAnswersLength,
    /// The signer, or the account passed as the authority, is not the owner
    /// stored in the record.
    ConstraintHasOne,
}

/// The accounts of the instruction that creates a quiz record.
#[derive(Clone, Copy, Debug)]
pub struct InitializeQuizState {
    pub quiz_state: QuizState,
    pub user: Pubkey,
}

/// The accounts of the instruction that submits answers.
#[derive(Clone, Copy, Debug)]
pub struct SubmitAnswers {
    pub quiz_state: QuizState,
    pub user: Pubkey,
    pub authority: Pubkey,
}

/// The answer key as a vector.
pub fn correct_answers() -> (r: Vec<u8>)
    ensures
        r@ == answer_key(),
{
    let r: Vec<u8> = vec![2u8, 1u8, 3u8, 0u8, 2u8, 1u8, 3u8, 2u8, 0u8, 1u8];
    assert(r@ =~= answer_key());
    r
}

/// Counts the positions, present in both, where `answers` agrees with `key`.
pub fn grade(answers: &Vec<u8>, key: &Vec<u8>) -> (score: usize)
    ensures
        score == score_of(answers@, key@),
        score <= answers@.len(),
        score <= key@.len(),
{
    let n: usize = if answers.len() <= key.len() {
        answers.len()
    } else {
        key.len()
    };
    let mut score: usize = 0;
    let mut i: usize = 0;
    while i < n
        invariant
            n <= answers@.len(),
            n <= key@.len(),
            n == answers@.len() || n == key@.len(),
            0 <= i <= n,
            score == matches_up_to(answers@, key@, i as int),
            score <= i,
        decreases n - i,
    {
        if answers[i] == key[i] {
            score = score + 1;
        }
        i = i + 1;
    }
    score
}

/// The record as it stands after a successful submission of `answers`.
pub open spec fn graded(q: QuizState, answers: Seq<u8>) -> QuizState {
    QuizState { authority: q.authority, score: score_of(answers, answer_key()) as u8, is_completed: true }
}

/// What submitting `answers` on the accounts `ctx` yields, guards checked in order.
pub open spec fn submit_outcome(ctx: SubmitAnswers, answers: Seq<u8>) -> Result<(), QuizError> {
    if ctx.quiz_state.authority.bytes@ != ctx.authority.bytes@ || ctx.quiz_state.authority.bytes@
        != ctx.user.bytes@ {
        Err(QuizError::ConstraintHasOne)
    } else if answers.len() != ANSWER_COUNT {
        Err(QuizError::InvalidAnswersLength)
    } else if ctx.quiz_state.is_completed {
        Err(QuizError::QuizAlreadyCompleted)
    } else {
        Ok(())
    }
}

/// Creates the record of `ctx.user`: owned by that user, score zero, not completed.
pub fn initialize_quiz_state(ctx: &mut InitializeQuizState)
    ensures
        final(ctx).user == old(ctx).user,
        final(ctx).quiz_state == (QuizState { authority: old(ctx).user, score: 0, is_completed: false }),
{
    ctx.quiz_state = QuizState { authority: ctx.user, score: 0, is_completed: false };
}

/// Grades `user_answers` against the answer key and marks the record completed.
/// Both the signer and the authority account must be the record's owner.
/// A refused submission leaves every account as it was.
pub fn submit_answers(ctx: &mut SubmitAnswers, user_answers: Vec<u8>) -> (r: Result<(), QuizError>)
    ensures
        r == submit_outcome(*old(ctx), user_answers@),
        r is Err ==> *final(ctx) == *old(ctx),
        r is Ok ==> final(ctx).quiz_state == graded(old(ctx).quiz_state, user_answers@),
        final(ctx).user == old(ctx).user,
        final(ctx).authority == old(ctx).authority,
        final(ctx).quiz_state.authority == old(ctx).quiz_state.authority,
        user_answers@.len() != ANSWER_COUNT ==> r is Err && final(ctx).quiz_state.is_completed
            == old(ctx).quiz_state.is_completed,
        r is Ok ==> final(ctx).quiz_state.score == score_of(user_answers@, answer_key()),
        r is Ok ==> final(ctx).quiz_state.score <= ANSWER_COUNT,
{
    if ctx.quiz_state.authority != ctx.authority || ctx.quiz_state.authority != ctx.user {
        return Err(QuizError::ConstraintHasOne);
    }
    if user_answers.len() != ANSWER_COUNT {
        return Err(QuizError::InvalidAnswersLength);
    }
    if ctx.quiz_state.is_completed {
        return Err(QuizError::QuizAlreadyCompleted);
    }
    let key = correct_answers();
    let score = grade(&user_answers, &key);
    ctx.quiz_state.score = score as u8;
    ctx.quiz_state.is_completed = true;
    Ok(())
}

/// A record is graded at most once: after a submission has been accepted,
/// every later submission of the right length is refused as already completed.
pub proof fn lemma_submit_once(ctx: SubmitAnswers, first: Seq<u8>, second: Seq<u8>)
    requires
        submit_outcome(ctx, first) is Ok,
        second.len() == ANSWER_COUNT,
    ensures
        submit_outcome(
            (SubmitAnswers { quiz_state: graded(ctx.quiz_state, first), ..ctx }),
            second,
        ) == Err::<(), QuizError>(QuizError::QuizAlreadyCompleted),
{
}

} // verus!
