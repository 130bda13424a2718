//! The quiz session engine: the sole authority on how a session advances
//! from question to question, how answers are scored, and when a session is
//! finished.

use vstd::prelude::*;

use crate::quiz::Quiz;

verus! {

/// Mutable progression state of one quiz session. The question list itself is
/// owned by the caller and passed read-only to each operation.
#[derive(Debug)]
pub struct QuizState {
    /// Index of the active question; counts the questions answered so far.
    pub current: usize,
    /// Number of correct answers so far.
    pub score: usize,
    /// Whether the session has run past its last question.
    pub finished: bool,
}

/// Outcome of one `answer` call.
#[derive(Debug, PartialEq, Eq, Structural)]
pub enum AnswerResult {
    Correct,
    Wrong,
    Finished,
}

impl QuizState {
    /// The session invariant: the score never exceeds the number of questions
    /// answered, which never exceeds the session's question count.
    pub open spec fn inv(self, total: nat) -> bool {
        self.score <= self.current <= total
    }

    /// A fresh session: at the first question, with no score, not finished.
    pub fn new() -> (s: Self)
        ensures
            s.current == 0,
            s.score == 0,
            !s.finished,
    {
        Self { current: 0, score: 0, finished: false }
    }

    /// The active question, or none once the session is finished (or was
    /// given an empty question list). Reads state only; never mutates it.
    pub fn current_quiz<'a>(&self, quizzes: &'a [Quiz]) -> (r: Option<&'a Quiz>)
        ensures
            r.is_some() <==> !self.finished && self.current < quizzes@.len(),
            r matches Some(q) ==> *q == quizzes@[self.current as int],
    {
        if self.finished {
            None
        } else if self.current < quizzes.len() {
            Some(&quizzes[self.current])
        } else {
            None
        }
    }

    /// Submit an answer for the active question.
    ///
    /// On a finished session this is a no-op returning `Finished`; otherwise
    /// the choice is scored against the active question's correct index, the
    /// session advances one question, and it becomes finished exactly when it
    /// has run past the last question. An out-of-range `choice` is simply
    /// wrong; it never corrupts state.
    pub fn answer(&mut self, quizzes: &[Quiz], choice: usize) -> (r: AnswerResult)
        requires
            old(self).score <= old(self).current,
        ensures
            // a finished session is inert: nothing changes, ever
            old(self).finished ==> r == AnswerResult::Finished && *final(self) == *old(self),
            // ran out of questions without being marked finished: mark it now
            !old(self).finished && old(self).current >= quizzes@.len() ==> {
                &&& r == AnswerResult::Finished
                &&& final(self).current == old(self).current
                &&& final(self).score == old(self).score
                &&& final(self).finished
            },
            // in progress: score the choice and advance
            !old(self).finished && old(self).current < quizzes@.len() ==> {
                let q = quizzes@[old(self).current as int];
                &&& final(self).current == old(self).current + 1
                &&& (choice == q.correct ==> r == AnswerResult::Correct
                    && final(self).score == old(self).score + 1)
                &&& (choice != q.correct ==> r == AnswerResult::Wrong
                    && final(self).score == old(self).score)
                &&& (final(self).finished <==> old(self).current + 1 >= quizzes@.len())
            },
            // the session invariant is preserved by every call
            old(self).inv(quizzes@.len()) ==> final(self).inv(quizzes@.len()),
    {
        if self.finished {
            return AnswerResult::Finished;
        }

        if self.current >= quizzes.len() {
            self.finished = true;
            return AnswerResult::Finished;
        }

        let quiz = &quizzes[self.current];

        let result = if quiz.correct == choice {
            self.score = self.score + 1;
            AnswerResult::Correct
        } else {
            AnswerResult::Wrong
        };

        self.current = self.current + 1;

        if self.current >= quizzes.len() {
            self.finished = true;
        }

        result
    }

    /// Progress for display: the pair (questions answered so far, total),
    /// where the first component is capped at the total.
    pub fn progress(&self, total: usize) -> (r: (usize, usize))
        ensures
            r.0 == vstd::math::min(self.current as int, total as int),
            r.1 == total,
    {
        if self.current < total {
            (self.current, total)
        } else {
            (total, total)
        }
    }

    /// Return to the initial state: first question, no score, not finished —
    /// unconditionally, whatever the prior state.
    pub fn reset(&mut self)
        ensures
            final(self).current == 0,
            final(self).score == 0,
            !final(self).finished,
    {
        *self = Self::new();
    }
}

} // verus!
