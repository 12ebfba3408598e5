use std::path::PathBuf;

use least::event::{Event, TermEvent};
use least::input::{Input, InputKind};
use least::keys::{Action, Key, KeyState};
use least::overstrike::{SpanStyle, StyledSpan};
use least::pager::{App, AppMode, Cli, Size};
use least::store::OpenedInput;

fn numbered(n: usize) -> Vec<String> {
    (0..n).map(|i| format!("line {i}\n")).collect()
}

fn app_with(lines: usize, width: u16, height: u16) -> App {
    let mut app = App::new(Cli::default());
    app.handle_events(Event::Term(TermEvent::Resize(width, height))).unwrap();
    app.handle_events(Event::NewLines(numbered(lines))).unwrap();
    app
}

fn press(app: &mut App, c: char) {
    app.handle_events(Event::Term(TermEvent::Key { key: Key::Char(c), press: true })).unwrap();
}

#[test]
fn total_count_is_cumulative_and_monotone() {
    let mut store = OpenedInput::new();
    let mut expected = 0;
    for size in [3, 0, 5, 1] {
        let before = store.current_total_lines();
        store.handle_event(Event::NewLines(numbered(size))).unwrap();
        expected += size;
        assert_eq!(store.current_total_lines(), expected);
        assert!(store.current_total_lines() >= before);
    }
}

#[test]
fn ten_full_screens_reach_the_bottom() {
    let mut app = app_with(100, 80, 10);
    assert_eq!(app.current_line(), 0);
    for _ in 0..10 {
        app.on_action(Action::ScrollDownScreen);
    }
    assert_eq!(app.current_line(), 90);
    assert_eq!(app.current_max_line(), 90);
    app.on_action(Action::ScrollDownScreen);
    assert_eq!(app.current_line(), 90);
}

#[test]
fn end_of_input_with_no_lines_shows_nothing() {
    let mut app = App::new(Cli::default());
    app.handle_events(Event::Term(TermEvent::Resize(80, 24))).unwrap();
    app.handle_events(Event::EOF).unwrap();
    assert!(app.opened_input().reached_eof());
    assert!(app.opened_input().lines(0, 24).is_empty());
    assert!(app.current_viewport_lines().is_empty());
}

#[test]
fn go_to_top_twice_equals_once() {
    let mut app = app_with(50, 80, 10);
    app.on_action(Action::GoToLine(17));
    app.go_to_top();
    let once = (app.current_line(), app.mode(), app.key_state(), app.term_size());
    app.go_to_top();
    assert_eq!((app.current_line(), app.mode(), app.key_state(), app.term_size()), once);
    assert_eq!(app.current_line(), 0);
}

#[test]
fn go_to_bottom_at_bottom_changes_nothing() {
    let mut app = app_with(50, 80, 10);
    app.go_to_bottom();
    assert_eq!(app.current_line(), 40);
    app.go_to_bottom();
    assert_eq!(app.current_line(), 40);
}

#[test]
fn every_operation_stays_in_range() {
    let actions = [
        Action::ScrollDownOneLine,
        Action::ScrollUpOneLine,
        Action::ScrollDownHalfScreen,
        Action::ScrollUpHalfScreen,
        Action::ScrollDownScreen,
        Action::ScrollUpScreen,
        Action::GoToTop,
        Action::GoToBottom,
        Action::GoToLine(0),
        Action::GoToLine(7),
        Action::GoToLine(usize::MAX),
    ];
    for (total, height) in [(0, 10), (5, 10), (10, 10), (11, 10), (100, 7), (3, 0)] {
        let max_top = if total > height as usize { total - height as usize } else { 0 };
        for first in actions {
            for second in actions {
                let mut app = app_with(total, 80, height);
                app.on_action(first);
                assert!(app.current_line() <= max_top);
                app.on_action(second);
                assert!(app.current_line() <= max_top);
            }
        }
    }
}

#[test]
fn scroll_steps_match_the_table() {
    let mut app = app_with(100, 80, 10);
    app.on_action(Action::ScrollDownOneLine);
    assert_eq!(app.current_line(), 1);
    app.on_action(Action::ScrollDownHalfScreen);
    assert_eq!(app.current_line(), 6);
    app.on_action(Action::ScrollDownScreen);
    assert_eq!(app.current_line(), 16);
    app.on_action(Action::ScrollUpHalfScreen);
    assert_eq!(app.current_line(), 11);
    app.on_action(Action::ScrollUpScreen);
    assert_eq!(app.current_line(), 1);
    app.on_action(Action::ScrollUpOneLine);
    assert_eq!(app.current_line(), 0);
    app.on_action(Action::ScrollUpOneLine);
    assert_eq!(app.current_line(), 0);
    app.on_action(Action::GoToLine(42));
    assert_eq!(app.current_line(), 42);
    app.on_action(Action::GoToLine(1000));
    assert_eq!(app.current_line(), 90);
}

#[test]
fn fewer_lines_than_height_pins_top_to_zero() {
    let mut app = app_with(4, 80, 10);
    app.on_action(Action::ScrollDownScreen);
    app.on_action(Action::GoToBottom);
    assert_eq!(app.current_line(), 0);
}

#[test]
fn resize_reclamps_top_line() {
    let mut app = app_with(100, 80, 10);
    app.go_to_bottom();
    assert_eq!(app.current_line(), 90);
    app.handle_events(Event::Term(TermEvent::Resize(100, 30))).unwrap();
    assert_eq!(app.term_size(), Size::new(100, 30));
    assert_eq!(app.current_line(), 70);
}

#[test]
fn keys_drive_the_viewport() {
    let mut app = app_with(100, 80, 10);
    press(&mut app, 'G');
    assert_eq!(app.current_line(), 90);
    press(&mut app, 'g');
    assert_eq!(app.key_state(), KeyState::WaitingG);
    press(&mut app, 'g');
    assert_eq!(app.current_line(), 0);
    press(&mut app, 'g');
    press(&mut app, '2');
    press(&mut app, '5');
    app.handle_events(Event::Term(TermEvent::Key { key: Key::Enter, press: true })).unwrap();
    assert_eq!(app.current_line(), 25);
    app.handle_events(Event::Term(TermEvent::Key { key: Key::Char('j'), press: false })).unwrap();
    assert_eq!(app.current_line(), 25);
    press(&mut app, 'q');
    assert_eq!(app.mode(), AppMode::Terminated);
}

#[test]
fn reader_failure_is_handed_back() {
    let mut app = app_with(3, 80, 10);
    let report = color_eyre::eyre::Report::msg("input went away");
    let err = app.handle_events(Event::ReaderFailed(report)).unwrap_err();
    assert_eq!(err.to_string(), "input went away");
    assert_eq!(app.opened_input().current_total_lines(), 3);
}

#[test]
fn viewport_lines_are_decoded() {
    let mut app = App::new(Cli::default());
    app.handle_events(Event::Term(TermEvent::Resize(80, 2))).unwrap();
    let batch = vec!["plain\n".to_string(), "B\u{8}Bx".to_string(), "tail".to_string()];
    app.handle_events(Event::NewLines(batch)).unwrap();
    press(&mut app, 'j');
    let lines = app.current_viewport_lines();
    assert_eq!(lines.len(), 2);
    assert_eq!(
        lines[0],
        vec![
            StyledSpan { text: "B".to_string(), style: SpanStyle::Bold },
            StyledSpan { text: "x".to_string(), style: SpanStyle::Plain },
        ]
    );
    assert_eq!(lines[1], vec![StyledSpan { text: "tail".to_string(), style: SpanStyle::Plain }]);
}

#[test]
fn lines_clamp_to_what_is_stored() {
    let mut store = OpenedInput::new();
    store.handle_event(Event::NewLines(numbered(5))).unwrap();
    assert_eq!(store.lines(3, 10).len(), 2);
    assert_eq!(store.lines(0, 0).len(), 0);
    assert_eq!(store.lines(5, 3).len(), 0);
    assert_eq!(store.lines(9, 3).len(), 0);
    assert_eq!(store.lines(1, 2)[0][0].text, "line 1\n");
}

#[test]
fn no_files_means_stdin() {
    let app = App::new(Cli::default());
    let inputs = app.inputs();
    assert_eq!(inputs.len(), 1);
    assert!(inputs[0].is_stdin());
}

#[test]
fn each_file_becomes_an_input() {
    let cli = Cli { files: vec![PathBuf::from("a.txt"), PathBuf::from("b.txt")] };
    let app = App::new(cli);
    let inputs = app.inputs();
    assert_eq!(inputs.len(), 2);
    assert!(!inputs[1].is_stdin());
    match &inputs[1].kind {
        InputKind::OrdinaryFile(p) => assert_eq!(p, &PathBuf::from("b.txt")),
        InputKind::StdIn => panic!("expected a file"),
    }
    assert!(Input::stdin().is_stdin());
    assert!(!Input::ordinary_file(PathBuf::from("x")).is_stdin());
}
