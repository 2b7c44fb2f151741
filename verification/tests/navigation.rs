use rust_sniffer::{App, Flow, InputMode, Key, Popup};

fn app_with(records: &[&str]) -> App {
    let (mut app, _tx) = App::new();
    for record in records {
        app.push_frame(record.to_string());
    }
    app
}

fn press_all(app: &mut App, keys: &[Key]) {
    for key in keys {
        assert_eq!(app.handle_key(*key), Flow::Continue);
    }
}

fn type_text(app: &mut App, text: &str) {
    for c in text.chars() {
        assert_eq!(app.handle_key(Key::Char(c)), Flow::Continue);
    }
}

#[test]
fn new_app_starts_in_normal_mode_with_empty_log() {
    let (app, _tx) = App::new();
    assert_eq!(app.len(), 0);
    assert_eq!(app.selected(), None);
    assert_eq!(app.scroll(), 0);
    assert_eq!(app.mode(), InputMode::NormalMode);
    assert_eq!(app.popup(), Popup::Closed);
    assert_eq!(app.input(), "");
}

#[test]
fn push_frame_labels_records_with_their_index() {
    let app = app_with(&["r0", "r1", "r2"]);
    assert_eq!(app.len(), 3);
    assert_eq!(app.record(0).unwrap(), "0: r0");
    assert_eq!(app.record(1).unwrap(), "1: r1");
    assert_eq!(app.record(2).unwrap(), "2: r2");
    assert!(app.record(3).is_none());
}

#[test]
fn push_frame_labels_with_multi_digit_indexes() {
    let (mut app, _tx) = App::new();
    for i in 0..12 {
        app.push_frame(format!("frame {}", i));
    }
    assert_eq!(app.record(9).unwrap(), "9: frame 9");
    assert_eq!(app.record(10).unwrap(), "10: frame 10");
    assert_eq!(app.record(11).unwrap(), "11: frame 11");
}

#[test]
fn quit_key_ends_the_loop_in_normal_mode() {
    let mut app = app_with(&["r0"]);
    assert_eq!(app.handle_key(Key::Char('q')), Flow::Quit);
    assert_eq!(app.selected(), None);
    assert_eq!(app.mode(), InputMode::NormalMode);
}

#[test]
fn quit_key_is_text_in_edit_mode() {
    let mut app = app_with(&["r0"]);
    press_all(&mut app, &[Key::Char('g')]);
    assert_eq!(app.handle_key(Key::Char('q')), Flow::Continue);
    assert_eq!(app.input(), "q");
}

#[test]
fn forward_key_moves_and_stops_at_last_record() {
    let mut app = app_with(&["r0", "r1", "r2"]);
    press_all(&mut app, &[Key::Char('j')]);
    assert_eq!(app.selected(), Some(0));
    press_all(&mut app, &[Key::Char('j'), Key::Char('j')]);
    assert_eq!(app.selected(), Some(2));
    press_all(&mut app, &[Key::Char('j'), Key::Char('j'), Key::Char('j')]);
    assert_eq!(app.selected(), Some(2));
}

#[test]
fn backward_key_moves_and_stops_at_first_record() {
    let mut app = app_with(&["r0", "r1", "r2"]);
    press_all(&mut app, &[Key::Char('j'), Key::Char('j'), Key::Char('j')]);
    assert_eq!(app.selected(), Some(2));
    press_all(&mut app, &[Key::Char('k')]);
    assert_eq!(app.selected(), Some(1));
    press_all(&mut app, &[Key::Char('k'), Key::Char('k'), Key::Char('k')]);
    assert_eq!(app.selected(), Some(0));
}

#[test]
fn backward_key_without_selection_takes_first_record() {
    let mut app = app_with(&["r0", "r1", "r2"]);
    press_all(&mut app, &[Key::Char('k')]);
    assert_eq!(app.selected(), Some(0));
}

#[test]
fn move_keys_on_empty_log_do_nothing() {
    let mut app = app_with(&[]);
    press_all(&mut app, &[Key::Char('j'), Key::Char('k'), Key::Char('j'), Key::Char('j')]);
    assert_eq!(app.selected(), None);
    assert_eq!(app.len(), 0);
    assert_eq!(app.mode(), InputMode::NormalMode);
}

#[test]
fn long_runs_of_move_keys_stay_inside_the_log() {
    let mut app = app_with(&["a", "b", "c", "d", "e"]);
    let pattern = "jjjkjjjjjjkkkkkkkkjkjkjjjjjjjjjjjkkk";
    for c in pattern.chars() {
        let before = app.selected();
        press_all(&mut app, &[Key::Char(c)]);
        let after = app.selected().unwrap();
        assert!(after < app.len());
        if let Some(before) = before {
            if c == 'j' {
                assert!(after >= before && after <= before + 1);
            } else {
                assert!(after <= before && after + 1 >= before);
            }
        }
    }
    assert_eq!(app.selected(), Some(1));
}

#[test]
fn goto_key_opens_the_overlay() {
    let mut app = app_with(&["r0"]);
    press_all(&mut app, &[Key::Char('g')]);
    assert_eq!(app.mode(), InputMode::EditMode);
    assert_eq!(app.popup(), Popup::GotoCommand);
    assert_eq!(app.input(), "");
    assert_eq!(app.selected(), None);
}

#[test]
fn typing_and_backspace_edit_the_buffer() {
    let mut app = app_with(&["r0"]);
    press_all(&mut app, &[Key::Char('g')]);
    type_text(&mut app, "12x");
    assert_eq!(app.input(), "12x");
    press_all(&mut app, &[Key::Backspace]);
    assert_eq!(app.input(), "12");
    press_all(&mut app, &[Key::Backspace, Key::Backspace]);
    assert_eq!(app.input(), "");
    press_all(&mut app, &[Key::Backspace]);
    assert_eq!(app.input(), "");
    assert_eq!(app.mode(), InputMode::EditMode);
}

#[test]
fn move_keys_are_text_in_edit_mode() {
    let mut app = app_with(&["r0", "r1"]);
    press_all(&mut app, &[Key::Char('g')]);
    type_text(&mut app, "jkg");
    assert_eq!(app.input(), "jkg");
    assert_eq!(app.selected(), None);
}

#[test]
fn goto_index_in_range_selects_it() {
    let mut app = app_with(&["r0", "r1", "r2"]);
    press_all(&mut app, &[Key::Char('g')]);
    type_text(&mut app, "1");
    press_all(&mut app, &[Key::Enter]);
    assert_eq!(app.selected(), Some(1));
    assert_eq!(app.popup(), Popup::Closed);
    assert_eq!(app.input(), "");
    assert_eq!(app.mode(), InputMode::NormalMode);
}

#[test]
fn goto_index_beyond_the_log_selects_last_record() {
    let mut app = app_with(&["r0", "r1", "r2"]);
    press_all(&mut app, &[Key::Char('g')]);
    type_text(&mut app, "9");
    press_all(&mut app, &[Key::Enter]);
    assert_eq!(app.selected(), Some(2));
    assert_eq!(app.popup(), Popup::Closed);
    assert_eq!(app.input(), "");
}

#[test]
fn goto_index_equal_to_length_selects_last_record() {
    let mut app = app_with(&["r0", "r1", "r2"]);
    press_all(&mut app, &[Key::Char('g')]);
    type_text(&mut app, "3");
    press_all(&mut app, &[Key::Enter]);
    assert_eq!(app.selected(), Some(2));
}

#[test]
fn goto_zero_selects_first_record() {
    let mut app = app_with(&["r0", "r1", "r2"]);
    press_all(&mut app, &[Key::Char('j'), Key::Char('j'), Key::Char('g')]);
    type_text(&mut app, "0");
    press_all(&mut app, &[Key::Enter]);
    assert_eq!(app.selected(), Some(0));
}

#[test]
fn goto_huge_index_selects_last_record() {
    let mut app = app_with(&["r0", "r1", "r2"]);
    press_all(&mut app, &[Key::Char('g')]);
    type_text(&mut app, "340282366920938463463374607431768211456");
    press_all(&mut app, &[Key::Enter]);
    assert_eq!(app.selected(), Some(2));
    assert_eq!(app.popup(), Popup::Closed);
}

#[test]
fn goto_on_empty_log_selects_nothing() {
    let mut app = app_with(&[]);
    press_all(&mut app, &[Key::Char('g')]);
    type_text(&mut app, "0");
    press_all(&mut app, &[Key::Enter]);
    assert_eq!(app.selected(), None);
    assert_eq!(app.popup(), Popup::Closed);
    assert_eq!(app.mode(), InputMode::NormalMode);
}

#[test]
fn goto_with_other_text_keeps_selection_and_closes_overlay() {
    for text in ["abc", "1x", "x1", "", "-1", "+1", "1 2", "1.0"] {
        let mut app = app_with(&["r0", "r1", "r2"]);
        press_all(&mut app, &[Key::Char('j'), Key::Char('j'), Key::Char('g')]);
        type_text(&mut app, text);
        press_all(&mut app, &[Key::Enter]);
        assert_eq!(app.selected(), Some(1));
        assert_eq!(app.popup(), Popup::Closed);
        assert_eq!(app.mode(), InputMode::NormalMode);
        assert_eq!(app.input(), "");
    }
}

#[test]
fn goto_with_other_text_keeps_no_selection() {
    let mut app = app_with(&["r0", "r1", "r2"]);
    press_all(&mut app, &[Key::Char('g')]);
    type_text(&mut app, "two");
    press_all(&mut app, &[Key::Enter]);
    assert_eq!(app.selected(), None);
    assert_eq!(app.popup(), Popup::Closed);
}

#[test]
fn escape_in_edit_mode_cancels_the_command() {
    let mut app = app_with(&["r0", "r1", "r2"]);
    press_all(&mut app, &[Key::Char('j'), Key::Char('g')]);
    type_text(&mut app, "2");
    press_all(&mut app, &[Key::Esc]);
    assert_eq!(app.input(), "");
    assert_eq!(app.mode(), InputMode::NormalMode);
    assert_eq!(app.popup(), Popup::Closed);
    assert_eq!(app.selected(), Some(0));
}

#[test]
fn escape_in_normal_mode_drops_the_selection() {
    let mut app = app_with(&["r0", "r1", "r2"]);
    press_all(&mut app, &[Key::Char('j'), Key::Char('j')]);
    assert_eq!(app.selected(), Some(1));
    press_all(&mut app, &[Key::Esc]);
    assert_eq!(app.selected(), None);
    press_all(&mut app, &[Key::Esc]);
    assert_eq!(app.selected(), None);
    assert_eq!(app.mode(), InputMode::NormalMode);
}

#[test]
fn buffer_is_empty_when_the_overlay_is_opened_again() {
    let mut app = app_with(&["r0", "r1", "r2"]);
    press_all(&mut app, &[Key::Char('g')]);
    type_text(&mut app, "12");
    press_all(&mut app, &[Key::Esc, Key::Char('g')]);
    assert_eq!(app.input(), "");
    type_text(&mut app, "1");
    press_all(&mut app, &[Key::Enter]);
    assert_eq!(app.selected(), Some(1));
}

#[test]
fn other_keys_change_nothing() {
    let mut app = app_with(&["r0", "r1"]);
    press_all(&mut app, &[Key::Char('j')]);
    press_all(&mut app, &[Key::Other, Key::Enter, Key::Backspace, Key::Char('x')]);
    assert_eq!(app.selected(), Some(0));
    assert_eq!(app.mode(), InputMode::NormalMode);
    assert_eq!(app.popup(), Popup::Closed);
    assert_eq!(app.input(), "");
    press_all(&mut app, &[Key::Char('g')]);
    type_text(&mut app, "5");
    press_all(&mut app, &[Key::Other]);
    assert_eq!(app.input(), "5");
    assert_eq!(app.mode(), InputMode::EditMode);
}

#[test]
fn key_presses_leave_log_and_scroll_alone() {
    let mut app = app_with(&["r0", "r1", "r2", "r3"]);
    app.set_scroll(2);
    press_all(&mut app, &[Key::Char('j'), Key::Char('g')]);
    type_text(&mut app, "3");
    press_all(&mut app, &[Key::Enter, Key::Char('k'), Key::Esc]);
    assert_eq!(app.len(), 4);
    assert_eq!(app.scroll(), 2);
    assert_eq!(app.record(3).unwrap(), "3: r3");
}
