use termquiz::app::{App, Question};
use termquiz::input::{command_for, handle_key, Command, Key};
use termquiz::session::Operation;

fn one_question() -> App {
    let bank = vec![Question {
        question: "2+2?".to_string(),
        options: vec!["3".to_string(), "4".to_string(), "5".to_string()],
        correct: vec![1],
    }];
    App::new(bank, None).unwrap()
}

#[test]
fn q_leaves_the_quiz() {
    assert_eq!(command_for(Key::Char('q')), Command::Quit);
}

#[test]
fn the_arrows_move_the_highlight() {
    assert_eq!(command_for(Key::Down), Command::Apply(Operation::NextOption));
    assert_eq!(command_for(Key::Up), Command::Apply(Operation::PreviousOption));
}

#[test]
fn enter_scores_the_highlighted_option() {
    assert_eq!(command_for(Key::Enter), Command::Apply(Operation::CheckAnswer));
}

#[test]
fn other_keys_are_ignored() {
    assert_eq!(command_for(Key::Other), Command::Ignore);
    for c in ['Q', 'a', 'j', 'k', ' ', '\n', '1'] {
        assert_eq!(command_for(Key::Char(c)), Command::Ignore);
    }
}

#[test]
fn handle_key_ends_the_quiz_on_q_only() {
    let mut app = one_question();
    for key in [Key::Down, Key::Up, Key::Enter, Key::Other, Key::Char('x'), Key::Char('Q')] {
        assert!(!handle_key(&mut app, key));
    }
    let before = app.clone();
    assert!(handle_key(&mut app, Key::Char('q')));
    assert_eq!(app, before);
}

#[test]
fn handle_key_plays_a_question() {
    let mut app = one_question();
    handle_key(&mut app, Key::Down);
    assert_eq!(app.selected, 1);
    handle_key(&mut app, Key::Enter);
    assert_eq!(app.score, 1);
    assert_eq!(app.total_attempted, 1);
    assert!(app.answered);
    handle_key(&mut app, Key::Enter);
    assert_eq!(app.total_attempted, 1);
    handle_key(&mut app, Key::Up);
    handle_key(&mut app, Key::Up);
    assert_eq!(app.selected, 2);
}

#[test]
fn ignored_keys_leave_the_session_alone() {
    let mut app = one_question();
    handle_key(&mut app, Key::Down);
    let before = app.clone();
    handle_key(&mut app, Key::Other);
    handle_key(&mut app, Key::Char('z'));
    assert_eq!(app, before);
}
