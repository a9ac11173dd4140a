//! What a session looks like on the screen.
//!
//! The screen is described, not drawn: three regions, one above the other,
//! with the text and the colours of each. Whoever owns the terminal draws it.

use vstd::prelude::*;
use vstd::string::StringExecFns;
use crate::app::App;
use crate::session::SessionModel;
use crate::text::{decimal, push_decimal};

verus! {

/// The colours that the screen uses.
#[derive(Clone, Copy, Debug, PartialEq, Eq, Structural)]
pub enum Color {
    Yellow,
    Black,
    Cyan,
    Green,
    Red,
}

/// How a piece of text is shown. `None` leaves a colour as the terminal has it.
#[derive(Clone, Copy, Debug, PartialEq, Eq)]
pub struct Style {
    pub fg: Option<Color>,
    pub bg: Option<Color>,
    pub bold: bool,
}

/// How many rows a region takes.
#[derive(Clone, Copy, Debug, PartialEq, Eq, Structural)]
pub enum Height {
    /// This many rows.
    Exactly(u16),
    /// This many rows or more: the region takes what the others leave.
    AtLeast(u16),
}

/// A piece of text with its style.
#[derive(Debug, Clone, PartialEq, Eq)]
pub struct StyledText {
    pub text: String,
    pub style: Style,
}

#[verifier::ext_equal]
pub struct StyledTextModel {
    pub text: Seq<char>,
    pub style: Style,
}

impl View for StyledText {
    type V = StyledTextModel;

    open spec fn view(&self) -> StyledTextModel {
        StyledTextModel { text: self.text@, style: self.style }
    }
}

/// One frame: the question on top, the answer list in a bordered box below
/// it, the status line at the bottom, all inside a margin.
#[derive(Debug, Clone, PartialEq, Eq)]
pub struct Screen {
    /// Empty cells kept free on every side.
    pub margin: u16,
    pub question_height: Height,
    pub answers_height: Height,
    pub status_height: Height,
    pub question: StyledText,
    /// Title of the box round the answer list.
    pub answers_title: String,
    /// One line per option, in the order of the options.
    pub answers: Vec<StyledText>,
    pub status: String,
}

#[verifier::ext_equal]
pub struct ScreenModel {
    pub margin: nat,
    pub question_height: Height,
    pub answers_height: Height,
    pub status_height: Height,
    pub question: StyledTextModel,
    pub answers_title: Seq<char>,
    pub answers: Seq<StyledTextModel>,
    pub status: Seq<char>,
}

impl View for Screen {
    type V = ScreenModel;

    open spec fn view(&self) -> ScreenModel {
        ScreenModel {
            margin: self.margin as nat,
            question_height: self.question_height,
            answers_height: self.answers_height,
            status_height: self.status_height,
            question: self.question@,
            answers_title: self.answers_title@,
            answers: self.answers@.map_values(|t: StyledText| t@),
            status: self.status@,
        }
    }
}

/// The prompt stands out from the options: yellow and bold.
pub open spec fn prompt_style() -> Style {
    Style { fg: Some(Color::Yellow), bg: None, bold: true }
}

/// The style of the option at `option`. The highlighted option is black on
/// cyan. Once the question is scored, every correct option turns green, and
/// the highlighted option turns red if it is not correct.
pub open spec fn option_style(s: SessionModel, option: nat) -> Style {
    let highlighted = s.selected == option;
    let correct = s.current_question().correct.contains(option);
    Style {
        fg: if s.answered && correct {
            Some(Color::Green)
        } else if s.answered && highlighted {
            Some(Color::Red)
        } else if highlighted {
            Some(Color::Black)
        } else {
            None
        },
        bg: if highlighted {
            Some(Color::Cyan)
        } else {
            None
        },
        bold: false,
    }
}

/// The status line: the score, then the number of attempts.
pub open spec fn status_text(score: nat, total_attempted: nat) -> Seq<char> {
    " Score: "@ + decimal(score) + " / "@ + decimal(total_attempted)
}

/// The screen that shows a session.
pub open spec fn render(s: SessionModel) -> ScreenModel {
    ScreenModel {
        margin: 2,
        question_height: Height::Exactly(3),
        answers_height: Height::AtLeast(1),
        status_height: Height::Exactly(1),
        question: StyledTextModel { text: s.current_question().prompt, style: prompt_style() },
        answers_title: "Answers"@,
        answers: Seq::new(
            s.option_count(),
            |i: int|
                StyledTextModel {
                    text: s.current_question().options[i],
                    style: option_style(s, i as nat),
                },
        ),
        status: status_text(s.score, s.total_attempted),
    }
}

/// The style of the option at `option` of the current question.
pub fn style_of_option(app: &App, option: usize) -> (style: Style)
    requires
        app.wf(),
    ensures
        style == option_style(app@, option as nat),
{
    let highlighted = app.selected == option;
    let correct = app.current_question().is_correct(option);
    let fg = if app.answered && correct {
        Some(Color::Green)
    } else if app.answered && highlighted {
        Some(Color::Red)
    } else if highlighted {
        Some(Color::Black)
    } else {
        None
    };
    let bg = if highlighted {
        Some(Color::Cyan)
    } else {
        None
    };
    Style { fg, bg, bold: false }
}

/// The status line for a score and a number of attempts.
pub fn status_line(score: u32, total_attempted: u32) -> (line: String)
    ensures
        line@ == status_text(score as nat, total_attempted as nat),
{
    let mut line = String::from_str(" Score: ");
    push_decimal(&mut line, score);
    line.append(" / ");
    push_decimal(&mut line, total_attempted);
    line
}

/// Describes the frame that shows the session. The session is only read: the
/// same session always gives the same frame.
pub fn draw_ui(app: &App) -> (screen: Screen)
    requires
        app.wf(),
    ensures
        screen@ == render(app@),
        screen.margin == 2,
        screen.question_height == Height::Exactly(3),
        screen.answers_height == Height::AtLeast(1),
        screen.status_height == Height::Exactly(1),
        screen.question.text == app.asked().question,
        screen.question.style == prompt_style(),
        screen.answers_title@ == "Answers"@,
        screen.answers@.len() == app.option_count(),
        forall|i: int|
            0 <= i < app.option_count() ==> {
                &&& (#[trigger] screen.answers@[i]).text == app.asked().options@[i]
                &&& screen.answers@[i].style == option_style(app@, i as nat)
            },
        screen.status@ == status_text(app.score as nat, app.total_attempted as nat),
{
    let current = app.current_question();
    let mut answers: Vec<StyledText> = Vec::new();
    let mut i: usize = 0;
    while i < current.options.len()
        invariant
            app.wf(),
            *current == app.questions@[app.current_index as int],
            current@ == app@.current_question(),
            i <= current.options@.len(),
            answers@.len() == i,
            forall|j: int|
                0 <= j < i ==> {
                    &&& (#[trigger] answers@[j]).text == current.options@[j]
                    &&& answers@[j].style == option_style(app@, j as nat)
                },
        decreases current.options@.len() - i,
    {
        let style = style_of_option(app, i);
        answers.push(StyledText { text: current.options[i].clone(), style });
        i += 1;
    }
    let screen = Screen {
        margin: 2,
        question_height: Height::Exactly(3),
        answers_height: Height::AtLeast(1),
        status_height: Height::Exactly(1),
        question: StyledText {
            text: current.question.clone(),
            style: Style { fg: Some(Color::Yellow), bg: None, bold: true },
        },
        answers_title: String::from_str("Answers"),
        answers,
        status: status_line(app.score, app.total_attempted),
    };
    assert(screen@.answers =~= render(app@).answers);
    screen
}

} // verus!
