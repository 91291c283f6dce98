use huhnitor::app::{
    cursor_cell, App, Frame, InputMode, KeyCode, KeyPress, Outcome, UiEvent, TICK_MILLIS,
};
use huhnitor::classifier::{Color, OutputClassifier, Style};
use huhnitor::monitor::ControlMessage;

fn key(code: KeyCode) -> UiEvent {
    UiEvent::Key(KeyPress { code, control: false, pressed: true })
}

fn interrupt() -> UiEvent {
    UiEvent::Key(KeyPress { code: KeyCode::Char('c'), control: true, pressed: true })
}

fn quiet() -> Outcome {
    Outcome { messages: vec![], quit: false }
}

fn type_text(app: &mut App, text: &str) {
    for c in text.chars() {
        assert_eq!(app.on_event(key(KeyCode::Char(c))), quiet());
    }
}

fn classifier() -> OutputClassifier {
    match OutputClassifier::new() {
        Some(classifier) => classifier,
        None => panic!("the rule table does not compile"),
    }
}

fn lines(app: &App) -> Vec<String> {
    app.output().clone()
}

#[test]
fn a_new_app_is_empty_and_in_insert_mode() {
    let app = App::new();
    assert_eq!(app.input(), "");
    assert_eq!(app.cursor(), 0);
    assert_eq!(app.mode(), InputMode::Insert);
    assert!(app.output().is_empty());
    assert_eq!(app.scroll().offset(), 0);
    assert!(!app.scroll().is_manual());
}

#[test]
fn the_tick_is_fifteen_milliseconds() {
    assert_eq!(TICK_MILLIS, 15);
}

#[test]
fn typed_characters_enter_at_the_cursor() {
    let mut app = App::new();
    type_text(&mut app, "sca");
    assert_eq!(app.input(), "sca");
    assert_eq!(app.cursor(), 3);
    app.on_event(key(KeyCode::Left));
    app.on_event(key(KeyCode::Left));
    type_text(&mut app, "X");
    assert_eq!(app.input(), "sXca");
    assert_eq!(app.cursor(), 2);
}

#[test]
fn the_cursor_counts_characters_not_bytes() {
    let mut app = App::new();
    type_text(&mut app, "größe");
    assert_eq!(app.input(), "größe");
    assert_eq!(app.cursor(), 5);
    app.on_event(key(KeyCode::Left));
    app.on_event(key(KeyCode::Left));
    app.on_event(key(KeyCode::Backspace));
    assert_eq!(app.input(), "grße");
    assert_eq!(app.cursor(), 2);
    type_text(&mut app, "ü");
    assert_eq!(app.input(), "grüße");
    assert_eq!(app.cursor(), 3);
}

#[test]
fn the_cursor_stays_within_the_line() {
    let mut app = App::new();
    app.on_event(key(KeyCode::Left));
    assert_eq!(app.cursor(), 0);
    app.on_event(key(KeyCode::Right));
    assert_eq!(app.cursor(), 0);
    type_text(&mut app, "ab");
    app.on_event(key(KeyCode::Right));
    assert_eq!(app.cursor(), 2);
    app.on_event(key(KeyCode::Left));
    app.on_event(key(KeyCode::Left));
    app.on_event(key(KeyCode::Left));
    assert_eq!(app.cursor(), 0);
    app.on_event(key(KeyCode::Right));
    assert_eq!(app.cursor(), 1);
}

#[test]
fn backspace_deletes_left_of_the_cursor_and_does_nothing_at_the_start() {
    let mut app = App::new();
    assert_eq!(app.on_event(key(KeyCode::Backspace)), quiet());
    assert_eq!(app.input(), "");
    type_text(&mut app, "abc");
    app.on_event(key(KeyCode::Backspace));
    assert_eq!(app.input(), "ab");
    assert_eq!(app.cursor(), 2);
    app.on_event(key(KeyCode::Left));
    app.on_event(key(KeyCode::Backspace));
    assert_eq!(app.input(), "b");
    assert_eq!(app.cursor(), 0);
    app.on_event(key(KeyCode::Backspace));
    assert_eq!(app.input(), "b");
    assert_eq!(app.cursor(), 0);
}

#[test]
fn remove_char_takes_out_everything_from_left_of_the_cursor_up_to_the_index() {
    let mut app = App::new();
    type_text(&mut app, "abcdef");
    app.on_event(key(KeyCode::Left));
    app.on_event(key(KeyCode::Left));
    app.on_event(key(KeyCode::Left));
    // Cursor at 3: the characters at 2, 3 and 4 leave.
    app.remove_char(5);
    assert_eq!(app.input(), "abf");
    assert_eq!(app.cursor(), 2);
    // An index beyond the line takes the rest of the line.
    app.remove_char(9);
    assert_eq!(app.input(), "a");
    assert_eq!(app.cursor(), 1);
}

#[test]
fn enter_commits_the_line_and_emits_it_as_it_is() {
    let mut app = App::new();
    type_text(&mut app, " scan -t 5s ");
    let outcome = app.on_event(key(KeyCode::Enter));
    assert_eq!(
        outcome,
        Outcome { messages: vec![ControlMessage::Raw(" scan -t 5s ".to_string())], quit: false }
    );
    assert_eq!(app.input(), "");
    assert_eq!(app.cursor(), 0);
    assert_eq!(lines(&app), vec![" scan -t 5s ".to_string()]);
    assert_eq!(app.on_event(key(KeyCode::Up)), quiet());
    assert_eq!(app.input(), " scan -t 5s ");
}

#[test]
fn enter_on_an_empty_line_commits_the_empty_line() {
    let mut app = App::new();
    let outcome = app.on_event(key(KeyCode::Enter));
    assert_eq!(outcome, Outcome { messages: vec![ControlMessage::Raw(String::new())], quit: false });
    assert_eq!(lines(&app), vec![String::new()]);
}

#[test]
fn submitting_exit_closes_the_view_after_emitting_the_line() {
    let mut app = App::new();
    type_text(&mut app, "EXIT");
    let outcome = app.on_event(key(KeyCode::Enter));
    assert_eq!(outcome, Outcome { messages: vec![ControlMessage::Raw("EXIT".to_string())], quit: true });
}

#[test]
fn exit_closes_the_view_without_regard_to_case_or_surrounding_space() {
    let mut app = App::new();
    type_text(&mut app, "  exit ");
    let outcome = app.on_event(key(KeyCode::Enter));
    assert_eq!(outcome.messages, vec![ControlMessage::Raw("  exit ".to_string())]);
    assert!(outcome.quit);
    type_text(&mut app, "exit now");
    assert!(!app.on_event(key(KeyCode::Enter)).quit);
}

#[test]
fn up_recalls_the_submissions_newest_first_and_stays_at_the_oldest() {
    let mut app = App::new();
    for line in ["one", "two", "three"] {
        type_text(&mut app, line);
        app.on_event(key(KeyCode::Enter));
    }
    for expected in ["three", "two", "one", "one", "one"] {
        assert_eq!(app.on_event(key(KeyCode::Up)), quiet());
        assert_eq!(app.input(), expected);
        assert_eq!(app.cursor(), expected.chars().count());
    }
}

#[test]
fn down_from_the_newest_line_returns_to_the_empty_line() {
    let mut app = App::new();
    for line in ["one", "two"] {
        type_text(&mut app, line);
        app.on_event(key(KeyCode::Enter));
    }
    app.on_event(key(KeyCode::Up));
    app.on_event(key(KeyCode::Up));
    assert_eq!(app.input(), "one");
    app.on_event(key(KeyCode::Down));
    assert_eq!(app.input(), "two");
    app.on_event(key(KeyCode::Down));
    assert_eq!(app.input(), "");
    assert_eq!(app.cursor(), 0);
    app.on_event(key(KeyCode::Down));
    assert_eq!(app.input(), "");
}

#[test]
fn a_recalled_line_can_be_edited_and_submitted_again() {
    let mut app = App::new();
    type_text(&mut app, "scan");
    app.on_event(key(KeyCode::Enter));
    app.on_event(key(KeyCode::Up));
    type_text(&mut app, " -a");
    let outcome = app.on_event(key(KeyCode::Enter));
    assert_eq!(outcome.messages, vec![ControlMessage::Raw("scan -a".to_string())]);
    app.on_event(key(KeyCode::Up));
    assert_eq!(app.input(), "scan -a");
    app.on_event(key(KeyCode::Up));
    assert_eq!(app.input(), "scan");
}

#[test]
fn the_interrupt_key_emits_a_stop_request() {
    let mut app = App::new();
    type_text(&mut app, "abc");
    let outcome = app.on_event(interrupt());
    assert_eq!(outcome, Outcome { messages: vec![ControlMessage::Stop], quit: false });
    assert_eq!(app.input(), "abc");
}

#[test]
fn repeated_interrupts_emit_an_exit_request_and_close_the_view() {
    let mut app = App::new();
    for _ in 0..3 {
        assert_eq!(app.on_event(interrupt()), Outcome { messages: vec![ControlMessage::Stop], quit: false });
    }
    assert_eq!(
        app.on_event(interrupt()),
        Outcome { messages: vec![ControlMessage::Stop, ControlMessage::Exit], quit: true }
    );
}

#[test]
fn the_letter_c_without_control_is_text() {
    let mut app = App::new();
    type_text(&mut app, "c");
    assert_eq!(app.input(), "c");
}

#[test]
fn another_letter_with_control_is_text() {
    let mut app = App::new();
    let event = UiEvent::Key(KeyPress { code: KeyCode::Char('d'), control: true, pressed: true });
    assert_eq!(app.on_event(event), quiet());
    assert_eq!(app.input(), "d");
}

#[test]
fn keys_that_are_not_presses_are_ignored() {
    let mut app = App::new();
    for code in [KeyCode::Char('x'), KeyCode::Enter, KeyCode::Esc, KeyCode::PageUp] {
        let event = UiEvent::Key(KeyPress { code, control: false, pressed: false });
        assert_eq!(app.on_event(event), quiet());
    }
    let release = UiEvent::Key(KeyPress { code: KeyCode::Char('c'), control: true, pressed: false });
    assert_eq!(app.on_event(release), quiet());
    assert_eq!(app.input(), "");
    assert_eq!(app.mode(), InputMode::Insert);
    assert!(app.output().is_empty());
    assert!(!app.scroll().is_manual());
}

#[test]
fn escape_switches_between_the_modes() {
    let mut app = App::new();
    assert_eq!(app.on_event(key(KeyCode::Esc)), quiet());
    assert_eq!(app.mode(), InputMode::Navigation);
    assert_eq!(app.on_event(key(KeyCode::Esc)), quiet());
    assert_eq!(app.mode(), InputMode::Insert);
}

#[test]
fn navigation_mode_ignores_text_and_the_interrupt_key() {
    let mut app = App::new();
    type_text(&mut app, "ab");
    app.on_event(key(KeyCode::Esc));
    for event in [
        key(KeyCode::Char('x')),
        key(KeyCode::Backspace),
        key(KeyCode::Enter),
        key(KeyCode::Left),
        key(KeyCode::Right),
        key(KeyCode::Other),
        interrupt(),
        UiEvent::Other,
    ] {
        assert_eq!(app.on_event(event), quiet());
    }
    assert_eq!(app.input(), "ab");
    assert_eq!(app.cursor(), 2);
    assert!(app.output().is_empty());
    assert_eq!(app.mode(), InputMode::Navigation);
}

#[test]
fn navigation_mode_scrolls_with_the_arrow_and_page_keys() {
    let classifier = classifier();
    let mut app = App::new();
    for n in 0..50 {
        app.receive(format!("line {n}"));
    }
    app.frame(12, &classifier);
    assert_eq!(app.scroll().offset(), 40);
    app.on_event(key(KeyCode::Esc));
    app.on_event(key(KeyCode::Up));
    assert_eq!(app.scroll().offset(), 39);
    assert!(app.scroll().is_manual());
    app.on_event(key(KeyCode::PageUp));
    assert_eq!(app.scroll().offset(), 38);
    app.on_event(key(KeyCode::Down));
    assert_eq!(app.scroll().offset(), 39);
    app.on_event(key(KeyCode::PageDown));
    assert_eq!(app.scroll().offset(), 40);
    // No history is recalled in this mode.
    assert_eq!(app.input(), "");
}

#[test]
fn insert_mode_scrolls_with_the_page_keys_and_the_wheel() {
    let classifier = classifier();
    let mut app = App::new();
    for n in 0..50 {
        app.receive(format!("line {n}"));
    }
    app.frame(12, &classifier);
    assert_eq!(app.on_event(key(KeyCode::PageUp)), quiet());
    assert_eq!(app.scroll().offset(), 39);
    assert_eq!(app.on_event(UiEvent::WheelUp), quiet());
    assert_eq!(app.scroll().offset(), 38);
    assert_eq!(app.on_event(UiEvent::WheelDown), quiet());
    assert_eq!(app.scroll().offset(), 39);
    assert_eq!(app.on_event(key(KeyCode::PageDown)), quiet());
    assert_eq!(app.scroll().offset(), 40);
    assert!(app.scroll().is_manual());
}

#[test]
fn the_wheel_scrolls_in_navigation_mode_too() {
    let classifier = classifier();
    let mut app = App::new();
    for n in 0..50 {
        app.receive(format!("line {n}"));
    }
    app.frame(12, &classifier);
    app.on_event(key(KeyCode::Esc));
    app.on_event(UiEvent::WheelUp);
    app.on_event(UiEvent::WheelUp);
    assert_eq!(app.scroll().offset(), 38);
    app.on_event(UiEvent::WheelDown);
    assert_eq!(app.scroll().offset(), 39);
}

#[test]
fn the_view_follows_new_lines_until_the_user_scrolls_and_again_from_the_bottom() {
    let classifier = classifier();
    let mut app = App::new();
    for n in 0..30 {
        app.receive(format!("line {n}"));
    }
    let frame = app.frame(12, &classifier);
    assert_eq!(frame.offset, 20);
    app.receive("more".to_string());
    assert_eq!(app.frame(12, &classifier).offset, 21);

    app.on_event(key(KeyCode::PageUp));
    app.receive("and more".to_string());
    let frame = app.frame(12, &classifier);
    assert_eq!(frame.offset, 20);
    assert!(app.scroll().is_manual());

    app.on_event(key(KeyCode::PageDown));
    app.on_event(key(KeyCode::PageDown));
    let frame = app.frame(12, &classifier);
    assert_eq!(frame.offset, 22);
    assert!(!app.scroll().is_manual());
    app.receive("last".to_string());
    assert_eq!(app.frame(12, &classifier).offset, 23);
}

#[test]
fn a_frame_styles_every_line_of_the_scrollback() {
    let classifier = classifier();
    let mut app = App::new();
    app.receive("ERROR: sensor offline\n".to_string());
    app.receive("[ ===== BOOT ===== ]\n".to_string());
    app.receive("hello world\n".to_string());
    type_text(&mut app, "ab");
    let frame = app.frame(10, &classifier);
    assert_eq!(
        frame,
        Frame {
            styles: vec![
                Style { color: Color::Red, bold: false },
                Style { color: Color::Yellow, bold: true },
                Style { color: Color::White, bold: false },
            ],
            offset: 0,
            cursor: 2,
            messages_border: Color::Yellow,
            input_border: Color::White,
        }
    );
    assert_eq!(app.scroll().content_length(), 3);
}

#[test]
fn the_borders_swap_their_colours_with_the_mode() {
    let classifier = classifier();
    let mut app = App::new();
    let frame = app.frame(10, &classifier);
    assert_eq!((frame.messages_border, frame.input_border), (Color::Yellow, Color::White));
    app.on_event(key(KeyCode::Esc));
    let frame = app.frame(10, &classifier);
    assert_eq!((frame.messages_border, frame.input_border), (Color::White, Color::Yellow));
}

#[test]
fn a_submitted_line_shows_in_the_scrollback_with_its_style() {
    let classifier = classifier();
    let mut app = App::new();
    type_text(&mut app, "# note");
    app.on_event(key(KeyCode::Enter));
    let frame = app.frame(10, &classifier);
    assert_eq!(frame.styles, vec![Style { color: Color::White, bold: true }]);
}

#[test]
fn the_cursor_is_drawn_one_cell_inside_the_input_box() {
    assert_eq!(cursor_cell(2, 20, 0), (3, 21));
    assert_eq!(cursor_cell(2, 20, 5), (8, 21));
    assert_eq!(cursor_cell(0, 0, 0), (1, 1));
}

#[test]
fn the_cursor_cell_stops_at_the_last_column_and_row() {
    assert_eq!(cursor_cell(10, u16::MAX, 70_000), (u16::MAX, u16::MAX));
    assert_eq!(cursor_cell(u16::MAX, 0, 0), (u16::MAX, 1));
    assert_eq!(cursor_cell(0, 0, 65_534), (u16::MAX, 1));
    assert_eq!(cursor_cell(0, 0, 65_533), (65_534, 1));
    assert_eq!(cursor_cell(1, 0, usize::MAX), (u16::MAX, 1));
}

#[test]
fn received_lines_are_all_kept_in_their_order() {
    // Nothing bounds the scrollback and nothing is dropped from it: no policy
    // for a view that falls behind the device has been settled.
    let mut app = App::new();
    for n in 0..10_000 {
        app.receive(format!("{n}\n"));
    }
    assert_eq!(app.output().len(), 10_000);
    assert_eq!(app.output()[0], "0\n");
    assert_eq!(app.output()[9_999], "9999\n");
}

#[test]
fn the_editing_functions_can_be_called_one_by_one() {
    let mut app = App::new();
    app.put_char('a');
    app.put_char('c');
    app.cursor_left();
    app.put_char('b');
    assert_eq!(app.input(), "abc");
    app.cursor_right();
    app.cursor_right();
    assert_eq!(app.cursor(), 3);
    app.delete_char();
    assert_eq!(app.input(), "ab");
    app.cursor_reset();
    assert_eq!(app.cursor(), 0);
    app.delete_char();
    assert_eq!(app.input(), "ab");
    assert_eq!(app.submit(), "ab");
    assert_eq!(app.input(), "");
    assert_eq!(app.history().len(), 1);
    assert_eq!(app.history().line(0), Some("ab"));
    assert_eq!(app.history().cursor(), 1);
    app.scroll_up();
    assert!(app.scroll().is_manual());
    app.scroll_down();
    assert!(app.scroll().is_manual());
}

#[test]
fn the_fourth_interrupt_within_three_seconds_of_the_first_closes_the_view() {
    let second: u128 = 1_000_000_000;
    let mut app = App::new();
    let stop = Outcome { messages: vec![ControlMessage::Stop], quit: false };
    assert_eq!(app.on_event_at(interrupt(), 10 * second), stop);
    assert_eq!(app.on_event_at(interrupt(), 11 * second), stop);
    assert_eq!(app.on_event_at(interrupt(), 12 * second), stop);
    assert_eq!(
        app.on_event_at(interrupt(), 13 * second),
        Outcome { messages: vec![ControlMessage::Stop, ControlMessage::Exit], quit: true }
    );
}

#[test]
fn interrupts_that_come_slowly_never_close_the_view() {
    let second: u128 = 1_000_000_000;
    let mut app = App::new();
    let stop = Outcome { messages: vec![ControlMessage::Stop], quit: false };
    for n in 0..20u128 {
        assert_eq!(app.on_event_at(interrupt(), n * 2 * second), stop);
    }
}

#[test]
fn the_time_matters_for_the_interrupt_key_only() {
    let mut early = App::new();
    let mut late = App::new();
    for event in [
        key(KeyCode::Char('a')),
        key(KeyCode::Char('b')),
        key(KeyCode::Left),
        key(KeyCode::Enter),
        key(KeyCode::Up),
        key(KeyCode::PageUp),
        key(KeyCode::Esc),
        UiEvent::WheelDown,
        interrupt(),
        UiEvent::Other,
    ] {
        assert_eq!(early.on_event_at(event, 0), late.on_event_at(event, u128::MAX));
        assert_eq!(early.input(), late.input());
        assert_eq!(early.cursor(), late.cursor());
        assert_eq!(early.mode(), late.mode());
        assert_eq!(early.output(), late.output());
        assert_eq!(early.scroll().offset(), late.scroll().offset());
    }
}

#[test]
fn a_tick_takes_in_the_pending_line_and_then_handles_the_event() {
    let mut app = App::new();
    type_text(&mut app, "go");
    let outcome = app.tick(Some("hello\n".to_string()), Some(key(KeyCode::Enter)));
    assert_eq!(outcome, Outcome { messages: vec![ControlMessage::Raw("go".to_string())], quit: false });
    assert_eq!(lines(&app), vec!["hello\n".to_string(), "go".to_string()]);
}

#[test]
fn a_tick_with_nothing_pending_and_no_event_changes_nothing() {
    let mut app = App::new();
    type_text(&mut app, "go");
    assert_eq!(app.tick(None, None), quiet());
    assert_eq!(app.input(), "go");
    assert_eq!(app.cursor(), 2);
    assert!(app.output().is_empty());
}

#[test]
fn a_tick_with_only_a_pending_line_or_only_an_event_does_just_that() {
    let mut app = App::new();
    assert_eq!(app.tick(Some("one\n".to_string()), None), quiet());
    assert_eq!(lines(&app), vec!["one\n".to_string()]);
    assert_eq!(app.tick(None, Some(key(KeyCode::Char('x')))), quiet());
    assert_eq!(app.input(), "x");
    assert_eq!(lines(&app), vec!["one\n".to_string()]);
}

#[test]
fn ticks_at_given_times_close_the_view_on_the_fourth_quick_interrupt() {
    let mut app = App::new();
    let stop = Outcome { messages: vec![ControlMessage::Stop], quit: false };
    assert_eq!(app.tick_at(None, Some(interrupt()), 1), stop);
    assert_eq!(app.tick_at(Some("a\n".to_string()), Some(interrupt()), 2), stop);
    assert_eq!(app.tick_at(None, None, 3), quiet());
    assert_eq!(app.tick_at(None, Some(interrupt()), 4), stop);
    assert_eq!(
        app.tick_at(None, Some(interrupt()), 3_000_000_001),
        Outcome { messages: vec![ControlMessage::Stop, ControlMessage::Exit], quit: true }
    );
    assert_eq!(lines(&app), vec!["a\n".to_string()]);
}

#[test]
fn submitting_clear_empties_the_scrollback() {
    let mut app = App::new();
    app.receive("ERROR: sensor offline\n".to_string());
    type_text(&mut app, "scan");
    app.on_event(key(KeyCode::Enter));
    assert_eq!(app.output().len(), 2);
    type_text(&mut app, "CLEAR");
    let outcome = app.on_event(key(KeyCode::Enter));
    assert_eq!(
        outcome,
        Outcome { messages: vec![ControlMessage::Raw("CLEAR".to_string())], quit: false }
    );
    assert!(app.output().is_empty());
    assert_eq!(app.input(), "");
    // The line is in the history like any other.
    app.on_event(key(KeyCode::Up));
    assert_eq!(app.input(), "CLEAR");
}

#[test]
fn clear_empties_the_scrollback_without_regard_to_case_or_surrounding_space() {
    let mut app = App::new();
    app.receive("one\n".to_string());
    type_text(&mut app, " clear ");
    app.on_event(key(KeyCode::Enter));
    assert!(app.output().is_empty());
    app.receive("two\n".to_string());
    type_text(&mut app, "clear it");
    app.on_event(key(KeyCode::Enter));
    assert_eq!(lines(&app), vec!["two\n".to_string(), "clear it".to_string()]);
}

#[test]
fn the_view_follows_again_from_the_top_after_the_scrollback_is_emptied() {
    let classifier = classifier();
    let mut app = App::new();
    for n in 0..40 {
        app.receive(format!("line {n}"));
    }
    assert_eq!(app.frame(12, &classifier).offset, 30);
    type_text(&mut app, "clear");
    app.on_event(key(KeyCode::Enter));
    let frame = app.frame(12, &classifier);
    assert_eq!(frame.offset, 0);
    assert!(frame.styles.is_empty());
}
