use file_browser::input::{ApplicationEvent, KeyCode, KeyModifiers, Keybindings};
use file_browser::App;

fn fresh() -> App {
    let mut app = App::new("/".to_string());
    app.setup();
    app
}

#[test]
fn the_default_bindings_are_there_after_setup() {
    let app = fresh();
    let none = KeyModifiers::none();
    let expected = [
        (KeyCode::Esc, none, ApplicationEvent::Close),
        (KeyCode::Char('c'), KeyModifiers::control(), ApplicationEvent::Close),
        (KeyCode::Char('a'), none, ApplicationEvent::NavigateUp),
        (KeyCode::Char('d'), none, ApplicationEvent::NavigateDown),
        (KeyCode::Char('w'), none, ApplicationEvent::SelectPrevious),
        (KeyCode::Char('s'), none, ApplicationEvent::SelectNext),
        (KeyCode::Left, none, ApplicationEvent::NavigateUp),
        (KeyCode::Right, none, ApplicationEvent::NavigateDown),
        (KeyCode::Up, none, ApplicationEvent::SelectPrevious),
        (KeyCode::Down, none, ApplicationEvent::SelectNext),
        (KeyCode::Char('h'), none, ApplicationEvent::ToggleShowHidden),
        (KeyCode::Char('f'), none, ApplicationEvent::OpenImage),
        (KeyCode::Char('p'), none, ApplicationEvent::PlayMedia),
        (KeyCode::Char('q'), none, ApplicationEvent::DebugEvent),
    ];
    for (key, modifiers, event) in expected {
        assert_eq!(app.resolve_keybinding(key, modifiers), Some(event), "{:?}", key);
    }
}

#[test]
fn a_fresh_application_has_no_bindings() {
    let app = App::new("/".to_string());
    assert_eq!(app.resolve_keybinding(KeyCode::Esc, KeyModifiers::none()), None);
}

#[test]
fn an_unbound_combination_resolves_to_nothing() {
    let app = fresh();
    assert_eq!(app.resolve_keybinding(KeyCode::Char('x'), KeyModifiers::none()), None);
    assert_eq!(app.resolve_keybinding(KeyCode::Enter, KeyModifiers::none()), None);
    assert_eq!(app.resolve_keybinding(KeyCode::F(1), KeyModifiers::none()), None);
}

#[test]
fn the_modifiers_belong_to_the_combination() {
    let app = fresh();
    assert_eq!(app.resolve_keybinding(KeyCode::Char('c'), KeyModifiers::none()), None);
    assert_eq!(app.resolve_keybinding(KeyCode::Esc, KeyModifiers::control()), None);
    assert_eq!(app.resolve_keybinding(KeyCode::Char('a'), KeyModifiers::shift()), None);
    assert_eq!(app.resolve_keybinding(KeyCode::Char('a'), KeyModifiers { bits: 3 }), None);
}

#[test]
fn letters_are_told_apart_by_their_case() {
    let app = fresh();
    assert_eq!(app.resolve_keybinding(KeyCode::Char('A'), KeyModifiers::none()), None);
}

#[test]
fn the_last_binding_of_a_combination_wins() {
    let mut app = fresh();
    app.add_keybinding(KeyCode::Char('q'), KeyModifiers::none(), ApplicationEvent::Close);
    assert_eq!(
        app.resolve_keybinding(KeyCode::Char('q'), KeyModifiers::none()),
        Some(ApplicationEvent::Close)
    );
    app.add_keybinding(KeyCode::Char('q'), KeyModifiers::none(), ApplicationEvent::ReadPdf);
    assert_eq!(
        app.resolve_keybinding(KeyCode::Char('q'), KeyModifiers::none()),
        Some(ApplicationEvent::ReadPdf)
    );
    assert_eq!(
        app.resolve_keybinding(KeyCode::Esc, KeyModifiers::none()),
        Some(ApplicationEvent::Close)
    );
}

#[test]
fn keys_of_different_kinds_with_the_same_number_do_not_collide() {
    let mut table = Keybindings::new();
    let none = KeyModifiers::none();
    table.bind(KeyCode::F(1), none, ApplicationEvent::Close);
    table.bind(KeyCode::Media(1), none, ApplicationEvent::OpenText);
    table.bind(KeyCode::Modifier(1), none, ApplicationEvent::OpenImage);
    table.bind(KeyCode::Char('\u{1}'), none, ApplicationEvent::PlayMedia);
    table.bind(KeyCode::Backspace, none, ApplicationEvent::DebugEvent);
    table.bind(KeyCode::Backspace, KeyModifiers::shift(), ApplicationEvent::ReadPdf);
    assert_eq!(table.resolve(KeyCode::F(1), none), Some(ApplicationEvent::Close));
    assert_eq!(table.resolve(KeyCode::Media(1), none), Some(ApplicationEvent::OpenText));
    assert_eq!(table.resolve(KeyCode::Modifier(1), none), Some(ApplicationEvent::OpenImage));
    assert_eq!(table.resolve(KeyCode::Char('\u{1}'), none), Some(ApplicationEvent::PlayMedia));
    assert_eq!(table.resolve(KeyCode::Backspace, none), Some(ApplicationEvent::DebugEvent));
    assert_eq!(
        table.resolve(KeyCode::Backspace, KeyModifiers::shift()),
        Some(ApplicationEvent::ReadPdf)
    );
    assert_eq!(table.resolve(KeyCode::F(2), none), None);
    assert_eq!(table.resolve(KeyCode::Enter, none), None);
}

#[test]
fn characters_beyond_ascii_can_be_bound() {
    let mut table = Keybindings::new();
    table.bind(KeyCode::Char('\u{10ffff}'), KeyModifiers::alt(), ApplicationEvent::Close);
    table.bind(KeyCode::Char('\u{e9}'), KeyModifiers { bits: 255 }, ApplicationEvent::OpenText);
    assert_eq!(
        table.resolve(KeyCode::Char('\u{10ffff}'), KeyModifiers::alt()),
        Some(ApplicationEvent::Close)
    );
    assert_eq!(
        table.resolve(KeyCode::Char('\u{e9}'), KeyModifiers { bits: 255 }),
        Some(ApplicationEvent::OpenText)
    );
    assert_eq!(table.resolve(KeyCode::Char('\u{e9}'), KeyModifiers { bits: 254 }), None);
}

#[test]
fn the_modifier_values_are_single_bits() {
    assert_eq!(KeyModifiers::none().bits, 0);
    assert_eq!(KeyModifiers::shift().bits, 1);
    assert_eq!(KeyModifiers::control().bits, 2);
    assert_eq!(KeyModifiers::alt().bits, 4);
}

#[test]
fn a_bound_key_makes_its_event_wait() {
    let mut app = fresh();
    app.input(KeyCode::Down, KeyModifiers::none());
    app.input(KeyCode::Char('h'), KeyModifiers::none());
    assert_eq!(
        app.new_events(),
        &vec![ApplicationEvent::SelectNext, ApplicationEvent::ToggleShowHidden]
    );
}

#[test]
fn an_unbound_key_makes_nothing_wait() {
    let mut app = fresh();
    app.input(KeyCode::Char('x'), KeyModifiers::none());
    app.input(KeyCode::Down, KeyModifiers::control());
    assert!(app.new_events().is_empty());
}
