//! The mathematical model of a quiz session.
//!
//! Counters and indices are natural numbers here, so the model knows nothing of
//! machine limits. The executable session refines it operation by operation.

use vstd::prelude::*;

verus! {

/// What one question is: its prompt, its answer options in order, and the set
/// of positions of the correct options.
#[verifier::ext_equal]
pub struct QuestionModel {
    pub prompt: Seq<char>,
    pub options: Seq<Seq<char>>,
    pub correct: Set<nat>,
}

impl QuestionModel {
    /// A question can be asked when it offers at least one option, marks at
    /// least one option correct, and marks only options that it offers.
    pub open spec fn valid(self) -> bool {
        &&& self.options.len() >= 1
        &&& exists|i: nat| self.correct.contains(i)
        &&& forall|i: nat| self.correct.contains(i) ==> i < self.options.len()
    }
}

/// A bank can be played when it is not empty and every question in it is valid.
pub open spec fn bank_valid(bank: Seq<QuestionModel>) -> bool {
    &&& bank.len() >= 1
    &&& forall|i: int| 0 <= i < bank.len() ==> (#[trigger] bank[i]).valid()
}

/// The part of a session that outlives a run.
pub struct ProgressModel {
    pub current_index: nat,
    pub score: nat,
    pub total_attempted: nat,
}

/// One step that changes a session.
#[derive(Clone, Copy, Debug, PartialEq, Eq, Structural)]
pub enum Operation {
    /// Highlight the option below, wrapping to the first one.
    NextOption,
    /// Highlight the option above, wrapping to the last one.
    PreviousOption,
    /// Score the highlighted option, once per question.
    CheckAnswer,
    /// Move on to the following question, if there is one.
    NextQuestion,
    /// Start over from the first question with empty counters.
    Reset,
}

/// The state of a session.
#[verifier::ext_equal]
pub struct SessionModel {
    pub bank: Seq<QuestionModel>,
    pub current_index: nat,
    pub selected: nat,
    pub answered: bool,
    pub score: nat,
    pub total_attempted: nat,
}

impl SessionModel {
    /// The bank can be played, the current question is one of the bank, and the
    /// highlighted option is one of that question.
    pub open spec fn wf(self) -> bool {
        &&& bank_valid(self.bank)
        &&& self.current_index < self.bank.len()
        &&& self.selected < self.option_count()
    }

    pub open spec fn current_question(self) -> QuestionModel {
        self.bank[self.current_index as int]
    }

    /// How many options the current question offers.
    pub open spec fn option_count(self) -> nat {
        self.current_question().options.len()
    }

    /// Whether the highlighted option is a correct one.
    pub open spec fn selection_is_correct(self) -> bool {
        self.current_question().correct.contains(self.selected)
    }

    /// No more answers were right than were given.
    pub open spec fn counters_consistent(self) -> bool {
        self.score <= self.total_attempted
    }

    /// The session that a run starts with. Saved progress gives the counters
    /// and the question to resume at, held back to the last question when the
    /// bank has become shorter; without saved progress all three are zero.
    pub open spec fn initial(
        bank: Seq<QuestionModel>,
        saved: Option<ProgressModel>,
    ) -> SessionModel {
        match saved {
            Some(p) => SessionModel {
                bank,
                current_index: if p.current_index < bank.len() {
                    p.current_index
                } else {
                    (bank.len() - 1) as nat
                },
                selected: 0,
                answered: false,
                score: p.score,
                total_attempted: p.total_attempted,
            },
            None => SessionModel {
                bank,
                current_index: 0,
                selected: 0,
                answered: false,
                score: 0,
                total_attempted: 0,
            },
        }
    }

    pub open spec fn next_option(self) -> SessionModel {
        SessionModel { selected: ((self.selected + 1) % self.option_count()) as nat, ..self }
    }

    pub open spec fn previous_option(self) -> SessionModel {
        SessionModel {
            selected: if self.selected == 0 {
                (self.option_count() - 1) as nat
            } else {
                (self.selected - 1) as nat
            },
            ..self
        }
    }

    /// Scoring counts the attempt, counts it as right when the highlighted
    /// option is correct, and closes the question. On a closed question it
    /// changes nothing.
    pub open spec fn check_answer(self) -> SessionModel {
        if self.answered {
            self
        } else {
            SessionModel {
                answered: true,
                score: if self.selection_is_correct() {
                    self.score + 1
                } else {
                    self.score
                },
                total_attempted: self.total_attempted + 1,
                ..self
            }
        }
    }

    /// Moving on opens the following question with its first option
    /// highlighted. The last question has no following one: there the session
    /// stays as it is.
    pub open spec fn next_question(self) -> SessionModel {
        if self.current_index + 1 < self.bank.len() {
            SessionModel {
                current_index: self.current_index + 1,
                selected: 0,
                answered: false,
                ..self
            }
        } else {
            self
        }
    }

    pub open spec fn snapshot(self) -> ProgressModel {
        ProgressModel {
            current_index: self.current_index,
            score: self.score,
            total_attempted: self.total_attempted,
        }
    }

    pub open spec fn reset(self) -> SessionModel {
        SessionModel {
            bank: self.bank,
            current_index: 0,
            selected: 0,
            answered: false,
            score: 0,
            total_attempted: 0,
        }
    }

    pub open spec fn apply(self, op: Operation) -> SessionModel {
        match op {
            Operation::NextOption => self.next_option(),
            Operation::PreviousOption => self.previous_option(),
            Operation::CheckAnswer => self.check_answer(),
            Operation::NextQuestion => self.next_question(),
            Operation::Reset => self.reset(),
        }
    }

    /// The session after the operations of `ops`, first to last.
    pub open spec fn run(self, ops: Seq<Operation>) -> SessionModel
        decreases ops.len(),
    {
        if ops.len() == 0 {
            self
        } else {
            self.run(ops.drop_last()).apply(ops.last())
        }
    }

    /// The session after `count` times the same operation.
    pub open spec fn repeat(self, op: Operation, count: nat) -> SessionModel
        decreases count,
    {
        if count == 0 {
            self
        } else {
            self.repeat(op, (count - 1) as nat).apply(op)
        }
    }
}

} // verus!
