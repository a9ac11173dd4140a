use termquiz::app::{App, Progress, Question};
use termquiz::text::push_decimal;
use termquiz::ui::{draw_ui, status_line, style_of_option, Color, Height, Style, StyledText};

fn quiz() -> Vec<Question> {
    vec![
        Question {
            question: "2+2?".to_string(),
            options: vec!["3".to_string(), "4".to_string(), "5".to_string()],
            correct: vec![1],
        },
        Question {
            question: "Even numbers?".to_string(),
            options: vec!["1".to_string(), "2".to_string(), "3".to_string(), "4".to_string()],
            correct: vec![1, 3],
        },
    ]
}

fn decimal(n: u32) -> String {
    let mut out = String::new();
    push_decimal(&mut out, n);
    out
}

const PLAIN: Style = Style { fg: None, bg: None, bold: false };
const HIGHLIGHT: Style = Style { fg: Some(Color::Black), bg: Some(Color::Cyan), bold: false };
const RIGHT: Style = Style { fg: Some(Color::Green), bg: None, bold: false };
const RIGHT_AND_HIGHLIGHTED: Style =
    Style { fg: Some(Color::Green), bg: Some(Color::Cyan), bold: false };
const WRONG: Style = Style { fg: Some(Color::Red), bg: Some(Color::Cyan), bold: false };

fn styles(app: &App) -> Vec<Style> {
    draw_ui(app).answers.iter().map(|a| a.style).collect()
}

#[test]
fn decimal_writes_single_digits() {
    let digits: Vec<String> = (0..10).map(decimal).collect();
    assert_eq!(digits, vec!["0", "1", "2", "3", "4", "5", "6", "7", "8", "9"]);
}

#[test]
fn decimal_writes_the_digits_most_significant_first() {
    assert_eq!(decimal(10), "10");
    assert_eq!(decimal(42), "42");
    assert_eq!(decimal(105), "105");
    assert_eq!(decimal(1000), "1000");
    assert_eq!(decimal(9876543), "9876543");
    assert_eq!(decimal(u32::MAX), "4294967295");
}

#[test]
fn decimal_agrees_with_the_standard_library() {
    for n in [0, 9, 10, 11, 99, 100, 101, 999, 1234, 65535, 65536, 1_000_000_007, u32::MAX - 1] {
        assert_eq!(decimal(n), n.to_string());
    }
}

#[test]
fn push_decimal_appends_to_what_is_there() {
    let mut out = "n = ".to_string();
    push_decimal(&mut out, 30);
    assert_eq!(out, "n = 30");
    push_decimal(&mut out, 7);
    assert_eq!(out, "n = 307");
}

#[test]
fn status_line_shows_score_then_attempts() {
    assert_eq!(status_line(0, 0), " Score: 0 / 0");
    assert_eq!(status_line(1, 1), " Score: 1 / 1");
    assert_eq!(status_line(3, 12), " Score: 3 / 12");
    assert_eq!(status_line(100, 4294967295), " Score: 100 / 4294967295");
}

#[test]
fn a_fresh_session_shows_the_first_question() {
    let app = App::new(quiz(), None).unwrap();
    let screen = draw_ui(&app);
    assert_eq!(screen.margin, 2);
    assert_eq!(screen.question_height, Height::Exactly(3));
    assert_eq!(screen.answers_height, Height::AtLeast(1));
    assert_eq!(screen.status_height, Height::Exactly(1));
    assert_eq!(
        screen.question,
        StyledText {
            text: "2+2?".to_string(),
            style: Style { fg: Some(Color::Yellow), bg: None, bold: true },
        }
    );
    assert_eq!(screen.answers_title, "Answers");
    assert_eq!(
        screen.answers,
        vec![
            StyledText { text: "3".to_string(), style: HIGHLIGHT },
            StyledText { text: "4".to_string(), style: PLAIN },
            StyledText { text: "5".to_string(), style: PLAIN },
        ]
    );
    assert_eq!(screen.status, " Score: 0 / 0");
}

#[test]
fn the_highlight_follows_the_selection() {
    let mut app = App::new(quiz(), None).unwrap();
    app.next_option();
    assert_eq!(styles(&app), vec![PLAIN, HIGHLIGHT, PLAIN]);
    app.next_option();
    assert_eq!(styles(&app), vec![PLAIN, PLAIN, HIGHLIGHT]);
    app.next_option();
    assert_eq!(styles(&app), vec![HIGHLIGHT, PLAIN, PLAIN]);
}

#[test]
fn a_right_answer_turns_green_under_the_highlight() {
    let mut app = App::new(quiz(), None).unwrap();
    app.next_option();
    app.check_answer();
    assert_eq!(styles(&app), vec![PLAIN, RIGHT_AND_HIGHLIGHTED, PLAIN]);
    assert_eq!(draw_ui(&app).status, " Score: 1 / 1");
}

#[test]
fn a_wrong_answer_turns_red_and_the_right_one_green() {
    let mut app = App::new(quiz(), None).unwrap();
    app.check_answer();
    assert_eq!(styles(&app), vec![WRONG, RIGHT, PLAIN]);
    assert_eq!(draw_ui(&app).status, " Score: 0 / 1");
}

#[test]
fn every_correct_option_is_marked_once_scored() {
    let mut app = App::new(quiz(), None).unwrap();
    app.next_question();
    app.next_option();
    app.next_option();
    assert_eq!(styles(&app), vec![PLAIN, PLAIN, HIGHLIGHT, PLAIN]);
    app.check_answer();
    assert_eq!(styles(&app), vec![PLAIN, RIGHT, WRONG, RIGHT]);
    app.next_option();
    assert_eq!(styles(&app), vec![PLAIN, RIGHT, PLAIN, RIGHT_AND_HIGHLIGHTED]);
}

#[test]
fn the_screen_shows_the_current_question_and_its_options_in_order() {
    let mut app = App::new(quiz(), None).unwrap();
    app.next_question();
    let screen = draw_ui(&app);
    assert_eq!(screen.question.text, "Even numbers?");
    let texts: Vec<String> = screen.answers.iter().map(|a| a.text.clone()).collect();
    assert_eq!(texts, vec!["1", "2", "3", "4"]);
}

#[test]
fn the_status_shows_saved_counters() {
    let app =
        App::new(quiz(), Some(Progress { current_index: 1, score: 12, total_attempted: 40 }))
            .unwrap();
    assert_eq!(draw_ui(&app).status, " Score: 12 / 40");
}

#[test]
fn drawing_reads_the_session_and_repeats_itself() {
    let mut app = App::new(quiz(), None).unwrap();
    app.next_option();
    app.check_answer();
    let before = app.clone();
    let first = draw_ui(&app);
    let second = draw_ui(&app);
    assert_eq!(first, second);
    assert_eq!(app, before);
}

#[test]
fn style_of_option_is_what_the_screen_uses() {
    let mut app = App::new(quiz(), None).unwrap();
    app.next_question();
    app.check_answer();
    let screen = draw_ui(&app);
    for i in 0..4 {
        assert_eq!(style_of_option(&app, i), screen.answers[i].style);
    }
    assert_eq!(style_of_option(&app, 0), WRONG);
    assert_eq!(style_of_option(&app, 3), RIGHT);
}
