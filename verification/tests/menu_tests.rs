use menu_shell::state::{App, Event, Key, MenuItem};

fn press(app: &mut App, k: Key) -> bool {
    app.handle_event(&Event::Input(k))
}

#[test]
fn starts_at_home_with_empty_buffer() {
    let app = App::new();
    assert_eq!(app.active_menu_item, MenuItem::Home);
    assert_eq!(app.savefile_name, "");
}

#[test]
fn tick_changes_nothing() {
    let mut app = App::new();
    let quit = app.handle_event(&Event::Tick);
    assert!(!quit);
    assert_eq!(app.active_menu_item, MenuItem::Home);
    assert_eq!(app.savefile_name, "");
}

#[test]
fn home_o_then_any_key_reaches_savegame() {
    let mut app = App::new();
    assert!(!press(&mut app, Key::Char('o')));
    assert_eq!(app.active_menu_item, MenuItem::Opening);
    assert!(!press(&mut app, Key::Char('x')));
    assert_eq!(app.active_menu_item, MenuItem::SavegameName);
}

#[test]
fn opening_enter_also_reaches_savegame() {
    let mut app = App::new();
    assert!(!press(&mut app, Key::Char('o')));
    assert!(!press(&mut app, Key::Enter));
    assert_eq!(app.active_menu_item, MenuItem::SavegameName);
}

#[test]
fn esc_quits_from_opening() {
    let mut app = App::new();
    assert!(!press(&mut app, Key::Char('o')));
    assert!(press(&mut app, Key::Esc));
}

#[test]
fn esc_quits_from_savegame() {
    let mut app = App::new();
    assert!(!press(&mut app, Key::Char('o')));
    assert!(!press(&mut app, Key::Char('x')));
    assert!(press(&mut app, Key::Esc));
}

#[test]
fn q_quits_from_home() {
    let mut app = App::new();
    assert!(press(&mut app, Key::Char('q')));
}

#[test]
fn q_in_savegame_is_appended_not_quit() {
    let mut app = App::new();
    assert!(!press(&mut app, Key::Char('o')));
    assert!(!press(&mut app, Key::Other));
    assert!(!press(&mut app, Key::Char('q')));
    assert_eq!(app.active_menu_item, MenuItem::SavegameName);
    assert_eq!(app.savefile_name, "q");
}

#[test]
fn esc_at_home_is_ignored() {
    let mut app = App::new();
    assert!(!press(&mut app, Key::Esc));
    assert_eq!(app.active_menu_item, MenuItem::Home);
}

#[test]
fn home_h_stays_home() {
    let mut app = App::new();
    assert!(!press(&mut app, Key::Char('h')));
    assert_eq!(app.active_menu_item, MenuItem::Home);
}

#[test]
fn home_other_keys_are_ignored() {
    let mut app = App::new();
    assert!(!press(&mut app, Key::Char('z')));
    assert!(!press(&mut app, Key::Enter));
    assert!(!press(&mut app, Key::Backspace));
    assert!(!press(&mut app, Key::Other));
    assert_eq!(app.active_menu_item, MenuItem::Home);
    assert_eq!(app.savefile_name, "");
}

#[test]
fn typing_then_enter_appends_and_returns_home() {
    let mut app = App::new();
    assert!(!press(&mut app, Key::Char('o')));
    assert!(!press(&mut app, Key::Other));
    assert!(!press(&mut app, Key::Char('c')));
    assert_eq!(app.savefile_name, "c");
    for c in "at".chars() {
        assert!(!press(&mut app, Key::Char(c)));
    }
    assert!(!press(&mut app, Key::Enter));
    assert_eq!(app.active_menu_item, MenuItem::Home);
    assert_eq!(app.savefile_name, "cat");
}

#[test]
fn backspace_removes_exactly_one_trailing_character() {
    let mut app = App::new();
    assert!(!press(&mut app, Key::Char('o')));
    assert!(!press(&mut app, Key::Other));
    assert!(!press(&mut app, Key::Char('a')));
    assert!(!press(&mut app, Key::Char('b')));
    assert!(!press(&mut app, Key::Backspace));
    assert_eq!(app.savefile_name, "a");
    assert_eq!(app.active_menu_item, MenuItem::SavegameName);
}

#[test]
fn backspace_on_empty_buffer_is_noop() {
    let mut app = App::new();
    assert!(!press(&mut app, Key::Char('o')));
    assert!(!press(&mut app, Key::Other));
    assert!(!press(&mut app, Key::Backspace));
    assert_eq!(app.savefile_name, "");
    assert_eq!(app.active_menu_item, MenuItem::SavegameName);
}

#[test]
fn buffer_carries_over_between_visits() {
    let mut app = App::new();
    assert!(!press(&mut app, Key::Char('o')));
    assert!(!press(&mut app, Key::Other));
    assert!(!press(&mut app, Key::Char('a')));
    assert!(!press(&mut app, Key::Enter));
    assert_eq!(app.active_menu_item, MenuItem::Home);
    assert_eq!(app.savefile_name, "a");
    assert!(!press(&mut app, Key::Char('o')));
    assert!(!press(&mut app, Key::Other));
    assert!(!press(&mut app, Key::Char('b')));
    assert_eq!(app.savefile_name, "ab");
}

#[test]
fn no_quit_keys_never_terminate() {
    let mut app = App::new();
    let events = [
        Event::Tick,
        Event::Input(Key::Char('h')),
        Event::Input(Key::Char('o')),
        Event::Input(Key::Enter),
        Event::Input(Key::Char('w')),
        Event::Input(Key::Backspace),
        Event::Tick,
        Event::Input(Key::Enter),
        Event::Input(Key::Char('o')),
        Event::Input(Key::Other),
        Event::Tick,
    ];
    for ev in &events {
        assert!(!app.handle_event(ev));
    }
}

#[test]
fn menu_item_indices() {
    assert_eq!(usize::from(MenuItem::Opening), 0);
    assert_eq!(usize::from(MenuItem::Home), 1);
    assert_eq!(usize::from(MenuItem::SavegameName), 2);
}
