use layer_browser::app::{Action, App, CurrentScreen, Key};
use layer_browser::component::{EditingInput, InputId, MainInput};
use layer_browser::model::Header;

fn sample_records() -> Vec<Header> {
    vec![
        Header::from(1, None, String::from("tcp_syn"), String::from("t0")),
        Header::from(2, Some(7), String::from("tcp_ack"), String::from("t1")),
        Header::from(3, None, String::from("udp_ping"), String::from("t2")),
    ]
}

fn sample_app() -> App {
    App::new(sample_records()).unwrap()
}

#[test]
fn fresh_app_starts_on_the_main_screen() {
    let app = sample_app();
    assert_eq!(app.state.current_screen, CurrentScreen::Main(MainInput::Normal));
    assert!(!app.exit);
    assert_eq!(app.input_arena.get_content(&InputId::Filter).unwrap(), "");
}

#[test]
fn typing_a_filter_and_confirming_it() {
    let mut app = sample_app();
    app.handle_events(Key::Char('f')).unwrap();
    assert_eq!(app.state.current_screen, CurrentScreen::Main(MainInput::Filter));
    for c in ['u', 'd', 'p'] {
        app.handle_events(Key::Char(c)).unwrap();
    }
    app.handle_events(Key::Enter).unwrap();
    assert_eq!(app.state.current_screen, CurrentScreen::Main(MainInput::Normal));
    assert_eq!(app.input_arena.get_content(&InputId::Filter).unwrap(), "udp");
    app.update_view().unwrap();
    assert_eq!(app.state.filtered_indexes, vec![2]);
}

#[test]
fn backspace_edits_the_filter_line() {
    let mut app = sample_app();
    app.handle_events(Key::Char('f')).unwrap();
    for c in ['a', 'b'] {
        app.handle_events(Key::Char(c)).unwrap();
    }
    app.handle_events(Key::Backspace).unwrap();
    assert_eq!(app.input_arena.get_content(&InputId::Filter).unwrap(), "a");
    app.handle_events(Key::Backspace).unwrap();
    app.handle_events(Key::Backspace).unwrap();
    assert_eq!(app.input_arena.get_content(&InputId::Filter).unwrap(), "");
}

#[test]
fn quit_asks_for_confirmation_and_y_confirms() {
    let mut app = sample_app();
    app.handle_events(Key::Char('q')).unwrap();
    assert_eq!(app.state.current_screen, CurrentScreen::Exiting);
    assert!(!app.exit);
    app.handle_events(Key::Char('y')).unwrap();
    assert!(app.exit);
}

#[test]
fn declining_exit_returns_to_filter_focus() {
    let mut app = sample_app();
    app.handle_events(Key::Char('q')).unwrap();
    app.handle_events(Key::Char('n')).unwrap();
    assert_eq!(app.state.current_screen, CurrentScreen::Main(MainInput::Filter));
    assert!(!app.exit);

    let mut again = sample_app();
    again.handle_events(Key::Char('q')).unwrap();
    again.handle_events(Key::Char('q')).unwrap();
    assert_eq!(again.state.current_screen, CurrentScreen::Main(MainInput::Filter));
}

#[test]
fn reload_is_requested_not_performed() {
    let mut app = sample_app();
    let action = app.handle_events(Key::Char('r')).unwrap();
    assert_eq!(action, Action::Reload);
    assert_eq!(app.state.items.len(), 3);
    let noop = app.handle_events(Key::Char('x')).unwrap();
    assert_eq!(noop, Action::Noop);
}

#[test]
fn arrow_keys_move_the_selection() {
    let mut app = sample_app();
    app.update_view().unwrap();
    app.handle_events(Key::Down).unwrap();
    assert_eq!(app.state.selected_index, 1);
    app.handle_events(Key::Up).unwrap();
    assert_eq!(app.state.selected_index, 0);
    app.handle_events(Key::Up).unwrap();
    assert_eq!(app.state.selected_index, 2);
}

#[test]
fn editing_screen_routes_text_to_key_and_value() {
    let mut app = sample_app();
    app.handle_events(Key::Char('e')).unwrap();
    assert_eq!(app.state.current_screen, CurrentScreen::Editing(EditingInput::Key));
    app.handle_events(Key::Char('a')).unwrap();
    app.handle_events(Key::Enter).unwrap();
    assert_eq!(app.state.current_screen, CurrentScreen::Editing(EditingInput::Value));
    app.handle_events(Key::Char('b')).unwrap();
    assert_eq!(app.input_arena.get_content(&InputId::Key).unwrap(), "a");
    assert_eq!(app.input_arena.get_content(&InputId::Value).unwrap(), "b");
    app.handle_events(Key::Tab).unwrap();
    assert_eq!(app.state.current_screen, CurrentScreen::Editing(EditingInput::Key));
    app.handle_events(Key::Backspace).unwrap();
    assert_eq!(app.input_arena.get_content(&InputId::Key).unwrap(), "");
    app.handle_events(Key::Esc).unwrap();
    assert_eq!(app.state.current_screen, CurrentScreen::Main(MainInput::Normal));
}

#[test]
fn toggle_editing_swaps_or_enters_editing() {
    let mut app = sample_app();
    app.toggle_editing();
    assert_eq!(app.state.current_screen, CurrentScreen::Editing(EditingInput::Value));
    app.toggle_editing();
    assert_eq!(app.state.current_screen, CurrentScreen::Editing(EditingInput::Key));
    app.toggle_editing();
    assert_eq!(app.state.current_screen, CurrentScreen::Editing(EditingInput::Value));
}

#[test]
fn update_view_fetches_once_per_selection() {
    let mut app = sample_app();
    let owed = app.update_view().unwrap();
    assert_eq!(owed, Some(1));
    app.state.store_payload(1, String::from("first payload"));
    assert_eq!(app.update_view().unwrap(), None);
    assert_eq!(app.state.cached, Some((1, String::from("first payload"))));
}

#[test]
fn focus_mapping_is_total_for_editing_inputs() {
    assert_eq!(EditingInput::Key.input_id(), InputId::Key);
    assert_eq!(EditingInput::Value.input_id(), InputId::Value);
    assert_eq!(MainInput::Filter.input_id(), Some(InputId::Filter));
    assert_eq!(MainInput::Normal.input_id(), None);
}
