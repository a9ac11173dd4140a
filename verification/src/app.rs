//! The session that runs: the question bank, the position in it, and the score.

use vstd::prelude::*;
use crate::session::{bank_valid, Operation, ProgressModel, QuestionModel, SessionModel};

verus! {

/// A single multiple-choice question.
#[derive(Debug, Clone, PartialEq, Eq)]
pub struct Question {
    /// The prompt.
    pub question: String,
    /// The answer options, in the order in which they are shown.
    pub options: Vec<String>,
    /// The positions, counted from zero, of the correct options.
    pub correct: Vec<usize>,
}

impl View for Question {
    type V = QuestionModel;

    open spec fn view(&self) -> QuestionModel {
        QuestionModel {
            prompt: self.question@,
            options: self.options@.map_values(|s: String| s@),
            correct: Set::new(|i: nat| self.correct@.contains(i as usize) && i <= usize::MAX),
        }
    }
}

impl Question {
    /// The question can be asked: it has an option, it marks an option
    /// correct, and it marks only options that it has.
    pub open spec fn playable(&self) -> bool {
        &&& self.options@.len() >= 1
        &&& self.correct@.len() >= 1
        &&& forall|k: int|
            0 <= k < self.correct@.len() ==> #[trigger] self.correct@[k] < self.options@.len()
    }

    /// A question can be asked exactly when its model is valid.
    pub proof fn lemma_playable_iff_valid(&self)
        ensures
            self.playable() <==> self@.valid(),
    {
        if self.playable() {
            assert(self@.correct.contains(self.correct@[0] as nat));
        }
        if self@.valid() {
            let i = choose|i: nat| self@.correct.contains(i);
            assert(self.correct@.contains(i as usize));
            assert forall|k: int| 0 <= k < self.correct@.len() implies #[trigger] self.correct@[k]
                < self.options@.len() by {
                assert(self@.correct.contains(self.correct@[k] as nat));
            }
        }
    }

    /// Whether the option at `option` is one of the correct ones.
    pub fn is_correct(&self, option: usize) -> (found: bool)
        ensures
            found == self.correct@.contains(option),
            found == self@.correct.contains(option as nat),
    {
        let mut k: usize = 0;
        while k < self.correct.len()
            invariant
                k <= self.correct@.len(),
                forall|j: int| 0 <= j < k ==> self.correct@[j] != option,
            decreases self.correct@.len() - k,
        {
            if self.correct[k] == option {
                return true;
            }
            k += 1;
        }
        false
    }

    /// Whether every marked position is one of the options.
    fn marks_in_range(&self) -> (ok: bool)
        ensures
            ok == forall|k: int|
                0 <= k < self.correct@.len() ==> #[trigger] self.correct@[k] < self.options@.len(),
    {
        let mut k: usize = 0;
        while k < self.correct.len()
            invariant
                k <= self.correct@.len(),
                forall|j: int| 0 <= j < k ==> self.correct@[j] < self.options@.len(),
            decreases self.correct@.len() - k,
        {
            if self.correct[k] >= self.options.len() {
                return false;
            }
            k += 1;
        }
        true
    }

    /// Whether the question can be asked.
    pub fn is_valid(&self) -> (ok: bool)
        ensures
            ok == self.playable(),
            ok == self@.valid(),
    {
        proof {
            self.lemma_playable_iff_valid();
        }
        if self.options.len() == 0 || self.correct.len() == 0 {
            return false;
        }
        self.marks_in_range()
    }
}

/// The part of a session that is kept between runs.
#[derive(Debug, Clone, Copy, PartialEq, Eq)]
pub struct Progress {
    pub current_index: usize,
    pub score: u32,
    pub total_attempted: u32,
}

impl View for Progress {
    type V = ProgressModel;

    open spec fn view(&self) -> ProgressModel {
        ProgressModel {
            current_index: self.current_index as nat,
            score: self.score as nat,
            total_attempted: self.total_attempted as nat,
        }
    }
}

/// Why a question bank cannot be played.
#[derive(Debug, Clone, Copy, PartialEq, Eq)]
pub enum BankError {
    /// The bank holds no question.
    Empty,
    /// The question at this position is the first that cannot be asked.
    InvalidQuestion(usize),
}

/// The questions of a bank as the model sees them.
pub open spec fn bank_view(questions: Seq<Question>) -> Seq<QuestionModel> {
    questions.map_values(|q: Question| q@)
}

/// Saved progress, if any, as the model sees it.
pub open spec fn saved_view(progress: Option<Progress>) -> Option<ProgressModel> {
    match progress {
        Some(p) => Some(p@),
        None => None,
    }
}

/// The bank can be played: it is not empty and every question in it can be
/// asked.
pub open spec fn bank_playable(questions: Seq<Question>) -> bool {
    &&& questions.len() >= 1
    &&& forall|i: int| 0 <= i < questions.len() ==> (#[trigger] questions[i]).playable()
}

/// The first question of the bank that cannot be asked is the one at `i`.
pub open spec fn first_unplayable(questions: Seq<Question>, i: int) -> bool {
    &&& 0 <= i < questions.len()
    &&& !questions[i].playable()
    &&& forall|j: int| 0 <= j < i ==> (#[trigger] questions[j]).playable()
}

/// A bank can be played exactly when its model is valid.
pub proof fn lemma_bank_playable_iff_valid(questions: Seq<Question>)
    ensures
        bank_playable(questions) <==> bank_valid(bank_view(questions)),
{
    assert forall|i: int| 0 <= i < questions.len() implies (#[trigger] questions[i]).playable()
        == bank_view(questions)[i].valid() by {
        questions[i].lemma_playable_iff_valid();
    }
}

/// Says whether a bank can be played, and if not, why not: an empty bank is
/// `Empty`, any other is refused for its first question that cannot be asked.
pub fn check_bank(questions: &Vec<Question>) -> (checked: Result<(), BankError>)
    ensures
        checked is Ok <==> bank_playable(questions@),
        checked is Ok <==> bank_valid(bank_view(questions@)),
        checked == Err::<(), BankError>(BankError::Empty) <==> questions@.len() == 0,
        checked matches Err(BankError::InvalidQuestion(i)) ==> first_unplayable(
            questions@,
            i as int,
        ),
        forall|i: usize| #[trigger]
            first_unplayable(questions@, i as int) ==> checked == Err::<(), BankError>(
                BankError::InvalidQuestion(i),
            ),
{
    proof {
        lemma_bank_playable_iff_valid(questions@);
    }
    if questions.len() == 0 {
        return Err(BankError::Empty);
    }
    let mut i: usize = 0;
    while i < questions.len()
        invariant
            i <= questions@.len(),
            questions@.len() > 0,
            forall|j: int| 0 <= j < i ==> (#[trigger] questions@[j]).playable(),
            bank_playable(questions@) <==> bank_valid(bank_view(questions@)),
        decreases questions@.len() - i,
    {
        if !questions[i].is_valid() {
            return Err(BankError::InvalidQuestion(i));
        }
        i += 1;
    }
    Ok(())
}

/// A quiz session: the bank and where the player stands in it.
#[derive(Debug, Clone, PartialEq, Eq)]
pub struct App {
    pub questions: Vec<Question>,
    /// Position of the current question in `questions`.
    pub current_index: usize,
    /// Position of the highlighted option of the current question.
    pub selected: usize,
    /// Whether the current question has been scored.
    pub answered: bool,
    /// How many questions were answered correctly.
    pub score: u32,
    /// How many questions were scored.
    pub total_attempted: u32,
}

impl View for App {
    type V = SessionModel;

    open spec fn view(&self) -> SessionModel {
        SessionModel {
            bank: bank_view(self.questions@),
            current_index: self.current_index as nat,
            selected: self.selected as nat,
            answered: self.answered,
            score: self.score as nat,
            total_attempted: self.total_attempted as nat,
        }
    }
}

impl App {
    /// The session is one that the model accepts: a playable bank, a current
    /// question inside it, a highlighted option inside that question.
    pub open spec fn wf(&self) -> bool {
        self@.wf()
    }

    /// Scoring the current question keeps both counters within `u32`.
    pub open spec fn can_count(&self) -> bool {
        self.answered || (self.total_attempted < u32::MAX && self.score < u32::MAX)
    }

    /// Whether the session is well formed. A session made by `new` and changed
    /// only through the operations of this type always is.
    pub fn is_wf(&self) -> (ok: bool)
        ensures
            ok == self.wf(),
    {
        match check_bank(&self.questions) {
            Err(_) => false,
            Ok(()) => self.current_index < self.questions.len() && self.selected
                < self.questions[self.current_index].options.len(),
        }
    }

    /// Whether scoring the current question keeps both counters within `u32`.
    pub fn has_room(&self) -> (ok: bool)
        ensures
            ok == self.can_count(),
    {
        self.answered || (self.total_attempted < u32::MAX && self.score < u32::MAX)
    }

    /// The question at `current_index`.
    pub open spec fn asked(&self) -> Question {
        self.questions@[self.current_index as int]
    }

    /// How many options the question at `current_index` has.
    pub open spec fn option_count(&self) -> nat {
        self.asked().options@.len()
    }

    /// Whether the highlighted option is marked correct.
    pub open spec fn selection_is_correct(&self) -> bool {
        self.asked().correct@.contains(self.selected)
    }

    /// Starts a session on `questions`, resuming from `progress` where there is
    /// one. The bank must be playable: otherwise the reason is returned, as
    /// `check_bank` gives it. A saved position beyond the bank resumes at the
    /// last question.
    pub fn new(questions: Vec<Question>, progress: Option<Progress>) -> (started: Result<
        App,
        BankError,
    >)
        ensures
            started is Ok <==> bank_playable(questions@),
            started is Ok <==> bank_valid(bank_view(questions@)),
            started matches Ok(app) ==> {
                &&& app.questions == questions
                &&& app.selected == 0
                &&& !app.answered
                &&& match progress {
                    Some(p) => {
                        &&& app.current_index == if p.current_index < questions@.len() {
                            p.current_index
                        } else {
                            (questions@.len() - 1) as usize
                        }
                        &&& app.score == p.score
                        &&& app.total_attempted == p.total_attempted
                    },
                    None => app.current_index == 0 && app.score == 0 && app.total_attempted == 0,
                }
                &&& app@ == SessionModel::initial(bank_view(questions@), saved_view(progress))
                &&& app.wf()
                &&& (progress matches Some(p) ==> p.score <= p.total_attempted) ==> app.score
                    <= app.total_attempted
            },
            started matches Err(e) ==> (e == BankError::Empty <==> questions@.len() == 0),
            started matches Err(BankError::InvalidQuestion(i)) ==> first_unplayable(
                questions@,
                i as int,
            ),
            forall|i: usize| #[trigger]
                first_unplayable(questions@, i as int) ==> started == Err::<App, BankError>(
                    BankError::InvalidQuestion(i),
                ),
    {
        match check_bank(&questions) {
            Err(e) => Err(e),
            Ok(()) => {
                let last = questions.len() - 1;
                let (current_index, score, total_attempted) = match progress {
                    Some(p) => (
                        if p.current_index < last {
                            p.current_index
                        } else {
                            last
                        },
                        p.score,
                        p.total_attempted,
                    ),
                    None => (0, 0, 0),
                };
                Ok(
                    App {
                        questions,
                        current_index,
                        selected: 0,
                        answered: false,
                        score,
                        total_attempted,
                    },
                )
            },
        }
    }

    /// The question that is being asked.
    pub fn current_question(&self) -> (q: &Question)
        requires
            self.wf(),
        ensures
            *q == self.asked(),
            q@ == self@.current_question(),
    {
        &self.questions[self.current_index]
    }

    /// Moves the highlight one option down; from the last option it goes to the
    /// first.
    pub fn next_option(&mut self)
        requires
            old(self).wf(),
        ensures
            *final(self) == (App {
                selected: ((old(self).selected + 1) % (old(self).option_count() as int)) as usize,
                ..*old(self)
            }),
            final(self)@ == old(self)@.next_option(),
            final(self).wf(),
    {
        let count = self.current_question().options.len();
        self.selected = (self.selected + 1) % count;
    }

    /// Moves the highlight one option up; from the first option it goes to the
    /// last.
    pub fn previous_option(&mut self)
        requires
            old(self).wf(),
        ensures
            *final(self) == (App {
                selected: if old(self).selected == 0 {
                    (old(self).option_count() - 1) as usize
                } else {
                    (old(self).selected - 1) as usize
                },
                ..*old(self)
            }),
            final(self)@ == old(self)@.previous_option(),
            final(self).wf(),
    {
        if self.selected == 0 {
            self.selected = self.current_question().options.len() - 1;
        } else {
            self.selected -= 1;
        }
    }

    /// Opens the following question, with its first option highlighted and not
    /// yet scored. On the last question nothing changes: the session neither
    /// wraps to the first question nor reopens the last.
    pub fn next_question(&mut self)
        requires
            old(self).wf(),
        ensures
            old(self).current_index + 1 < old(self).questions@.len() ==> *final(self) == (App {
                current_index: (old(self).current_index + 1) as usize,
                selected: 0,
                answered: false,
                ..*old(self)
            }),
            old(self).current_index + 1 == old(self).questions@.len() ==> *final(self)
                == *old(self),
            final(self)@ == old(self)@.next_question(),
            final(self).wf(),
    {
        if self.current_index < self.questions.len() - 1 {
            self.current_index += 1;
            self.selected = 0;
            self.answered = false;
        }
    }

    /// Scores the highlighted option: one more attempt, one more point if the
    /// option is correct, and the question is closed. A closed question is not
    /// scored again.
    pub fn check_answer(&mut self)
        requires
            old(self).wf(),
            old(self).can_count(),
        ensures
            old(self).answered ==> *final(self) == *old(self),
            !old(self).answered ==> *final(self) == (App {
                answered: true,
                score: if old(self).selection_is_correct() {
                    (old(self).score + 1) as u32
                } else {
                    old(self).score
                },
                total_attempted: (old(self).total_attempted + 1) as u32,
                ..*old(self)
            }),
            final(self)@ == old(self)@.check_answer(),
            final(self).wf(),
            old(self).score <= old(self).total_attempted ==> final(self).score
                <= final(self).total_attempted,
    {
        if !self.answered {
            self.total_attempted += 1;
            if self.current_question().is_correct(self.selected) {
                self.score += 1;
            }
            self.answered = true;
        }
    }

    /// The progress to keep for a later run.
    pub fn save_progress(&self) -> (progress: Progress)
        ensures
            progress@ == self@.snapshot(),
            progress.current_index == self.current_index,
            progress.score == self.score,
            progress.total_attempted == self.total_attempted,
    {
        Progress {
            current_index: self.current_index,
            score: self.score,
            total_attempted: self.total_attempted,
        }
    }

    /// Starts over: first question, first option, nothing scored. The bank
    /// stays.
    pub fn reset_progress(&mut self)
        ensures
            *final(self) == (App {
                questions: old(self).questions,
                current_index: 0,
                selected: 0,
                answered: false,
                score: 0,
                total_attempted: 0,
            }),
            final(self)@ == old(self)@.reset(),
            bank_valid(old(self)@.bank) ==> final(self).wf(),
    {
        self.current_index = 0;
        self.score = 0;
        self.total_attempted = 0;
        self.selected = 0;
        self.answered = false;
    }

    /// Carries out one operation.
    pub fn apply(&mut self, op: Operation)
        requires
            old(self).wf(),
            op == Operation::CheckAnswer ==> old(self).can_count(),
        ensures
            final(self)@ == old(self)@.apply(op),
            final(self).questions == old(self).questions,
            final(self).wf(),
            old(self).score <= old(self).total_attempted ==> final(self).score
                <= final(self).total_attempted,
    {
        match op {
            Operation::NextOption => self.next_option(),
            Operation::PreviousOption => self.previous_option(),
            Operation::CheckAnswer => self.check_answer(),
            Operation::NextQuestion => self.next_question(),
            Operation::Reset => self.reset_progress(),
        }
    }
}

} // verus!
