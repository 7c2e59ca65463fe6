//! Keys, the events they stand for, and the table that binds one to the
//! other.
use crate::{App, AppView};
use std::collections::HashMap;
use vstd::prelude::*;

verus! {

broadcast use vstd::std_specs::hash::group_hash_axioms;

/// What the user can ask of the application.
#[derive(Debug, Clone, Copy, PartialEq, Eq, Structural)]
pub enum ApplicationEvent {
    Close,
    NavigateUp,
    NavigateDown,
    SelectNext,
    SelectPrevious,
    OpenImage,
    PlayMedia,
    OpenText,
    OpenExecutable,
    ReadPdf,
    ToggleShowHidden,
    DebugEvent,
}

/// A key of the keyboard.
#[derive(Debug, Clone, Copy, PartialEq, Eq, Structural)]
pub enum KeyCode {
    Backspace,
    Enter,
    Left,
    Right,
    Up,
    Down,
    Home,
    End,
    PageUp,
    PageDown,
    Tab,
    BackTab,
    Delete,
    Insert,
    /// A function key, by its number.
    F(u8),
    /// A key that types a character.
    Char(char),
    Null,
    Esc,
    CapsLock,
    ScrollLock,
    NumLock,
    PrintScreen,
    Pause,
    Menu,
    KeypadBegin,
    /// A media key, by its number.
    Media(u8),
    /// A modifier key pressed alone, by its number.
    Modifier(u8),
}

/// The modifier keys held down with a key, one bit each.
#[derive(Debug, Clone, Copy, PartialEq, Eq, Structural)]
pub struct KeyModifiers {
    pub bits: u8,
}

impl KeyModifiers {
    /// No modifier.
    pub fn none() -> (m: Self)
        ensures
            m.bits == 0,
    {
        KeyModifiers { bits: 0 }
    }

    /// The shift key.
    pub fn shift() -> (m: Self)
        ensures
            m.bits == 1,
    {
        KeyModifiers { bits: 1 }
    }

    /// The control key.
    pub fn control() -> (m: Self)
        ensures
            m.bits == 2,
    {
        KeyModifiers { bits: 2 }
    }

    /// The alt key.
    pub fn alt() -> (m: Self)
        ensures
            m.bits == 4,
    {
        KeyModifiers { bits: 4 }
    }
}

/// The modifier value that stands for no modifier.
pub open spec fn no_modifiers() -> KeyModifiers {
    KeyModifiers { bits: 0 }
}

/// The modifier value that stands for the control key alone.
pub open spec fn control_modifier() -> KeyModifiers {
    KeyModifiers { bits: 2 }
}

/// The number of a key's variant.
pub open spec fn key_tag(key: KeyCode) -> int {
    match key {
        KeyCode::Backspace => 0,
        KeyCode::Enter => 1,
        KeyCode::Left => 2,
        KeyCode::Right => 3,
        KeyCode::Up => 4,
        KeyCode::Down => 5,
        KeyCode::Home => 6,
        KeyCode::End => 7,
        KeyCode::PageUp => 8,
        KeyCode::PageDown => 9,
        KeyCode::Tab => 10,
        KeyCode::BackTab => 11,
        KeyCode::Delete => 12,
        KeyCode::Insert => 13,
        KeyCode::F(_) => 14,
        KeyCode::Char(_) => 15,
        KeyCode::Null => 16,
        KeyCode::Esc => 17,
        KeyCode::CapsLock => 18,
        KeyCode::ScrollLock => 19,
        KeyCode::NumLock => 20,
        KeyCode::PrintScreen => 21,
        KeyCode::Pause => 22,
        KeyCode::Menu => 23,
        KeyCode::KeypadBegin => 24,
        KeyCode::Media(_) => 25,
        KeyCode::Modifier(_) => 26,
    }
}

/// The number that a key's variant carries, 0 where it carries none.
pub open spec fn key_payload(key: KeyCode) -> int {
    match key {
        KeyCode::F(n) => n as int,
        KeyCode::Char(c) => c as int,
        KeyCode::Media(n) => n as int,
        KeyCode::Modifier(n) => n as int,
        _ => 0,
    }
}

/// The number under which a key with its modifiers is filed in the table.
pub open spec fn binding_code(key: KeyCode, modifiers: KeyModifiers) -> int {
    (key_tag(key) * 0x1_0000_0000 + key_payload(key)) * 256 + modifiers.bits
}

/// Different combinations are filed under different numbers.
pub proof fn lemma_binding_code_injective(
    key1: KeyCode,
    modifiers1: KeyModifiers,
    key2: KeyCode,
    modifiers2: KeyModifiers,
)
    requires
        binding_code(key1, modifiers1) == binding_code(key2, modifiers2),
    ensures
        key1 == key2,
        modifiers1 == modifiers2,
{
    let a = key_tag(key1) * 0x1_0000_0000 + key_payload(key1);
    let b = key_tag(key2) * 0x1_0000_0000 + key_payload(key2);
    assert(0 <= key_payload(key1) < 0x1_0000_0000);
    assert(0 <= key_payload(key2) < 0x1_0000_0000);
    assert(a == b);
    assert(key_tag(key1) == key_tag(key2));
    assert(key_payload(key1) == key_payload(key2));
    match key1 {
        KeyCode::Char(c1) => {
            let c2 = key2->Char_0;
            assert(c1 as int == c2 as int);
        },
        _ => {},
    }
}

fn key_number(key: KeyCode) -> (n: u64)
    ensures
        n == key_tag(key) * 0x1_0000_0000 + key_payload(key),
        n < 27 * 0x1_0000_0000,
{
    let (tag, payload): (u64, u64) = match key {
        KeyCode::Backspace => (0, 0),
        KeyCode::Enter => (1, 0),
        KeyCode::Left => (2, 0),
        KeyCode::Right => (3, 0),
        KeyCode::Up => (4, 0),
        KeyCode::Down => (5, 0),
        KeyCode::Home => (6, 0),
        KeyCode::End => (7, 0),
        KeyCode::PageUp => (8, 0),
        KeyCode::PageDown => (9, 0),
        KeyCode::Tab => (10, 0),
        KeyCode::BackTab => (11, 0),
        KeyCode::Delete => (12, 0),
        KeyCode::Insert => (13, 0),
        KeyCode::F(n) => (14, n as u64),
        KeyCode::Char(c) => (15, c as u64),
        KeyCode::Null => (16, 0),
        KeyCode::Esc => (17, 0),
        KeyCode::CapsLock => (18, 0),
        KeyCode::ScrollLock => (19, 0),
        KeyCode::NumLock => (20, 0),
        KeyCode::PrintScreen => (21, 0),
        KeyCode::Pause => (22, 0),
        KeyCode::Menu => (23, 0),
        KeyCode::KeypadBegin => (24, 0),
        KeyCode::Media(n) => (25, n as u64),
        KeyCode::Modifier(n) => (26, n as u64),
    };
    tag * 0x1_0000_0000 + payload
}

/// The table that binds keys to events.
pub struct Keybindings {
    table: HashMap<u64, ApplicationEvent>,
}

impl View for Keybindings {
    type V = Map<(KeyCode, KeyModifiers), ApplicationEvent>;

    closed spec fn view(&self) -> Map<(KeyCode, KeyModifiers), ApplicationEvent> {
        Map::new(
            |k: (KeyCode, KeyModifiers)|
                0 <= binding_code(k.0, k.1) <= u64::MAX && self.table@.contains_key(
                    binding_code(k.0, k.1) as u64,
                ),
            |k: (KeyCode, KeyModifiers)| self.table@[binding_code(k.0, k.1) as u64],
        )
    }
}

/// The bindings that a fresh application starts with, laid over `base`:
/// quitting, moving between directories and within one with the letter
/// keys and with the arrow keys, and the single-letter commands.
pub open spec fn with_default_bindings(
    base: Map<(KeyCode, KeyModifiers), ApplicationEvent>,
) -> Map<(KeyCode, KeyModifiers), ApplicationEvent> {
    base.insert((KeyCode::Esc, no_modifiers()), ApplicationEvent::Close).insert(
        (KeyCode::Char('c'), control_modifier()),
        ApplicationEvent::Close,
    ).insert((KeyCode::Char('a'), no_modifiers()), ApplicationEvent::NavigateUp).insert(
        (KeyCode::Char('d'), no_modifiers()),
        ApplicationEvent::NavigateDown,
    ).insert((KeyCode::Char('w'), no_modifiers()), ApplicationEvent::SelectPrevious).insert(
        (KeyCode::Char('s'), no_modifiers()),
        ApplicationEvent::SelectNext,
    ).insert((KeyCode::Left, no_modifiers()), ApplicationEvent::NavigateUp).insert(
        (KeyCode::Right, no_modifiers()),
        ApplicationEvent::NavigateDown,
    ).insert((KeyCode::Up, no_modifiers()), ApplicationEvent::SelectPrevious).insert(
        (KeyCode::Down, no_modifiers()),
        ApplicationEvent::SelectNext,
    ).insert((KeyCode::Char('h'), no_modifiers()), ApplicationEvent::ToggleShowHidden).insert(
        (KeyCode::Char('f'), no_modifiers()),
        ApplicationEvent::OpenImage,
    ).insert((KeyCode::Char('p'), no_modifiers()), ApplicationEvent::PlayMedia).insert(
        (KeyCode::Char('q'), no_modifiers()),
        ApplicationEvent::DebugEvent,
    )
}

impl Keybindings {
    /// A table without bindings.
    pub fn new() -> (bindings: Self)
        ensures
            bindings@ == Map::<(KeyCode, KeyModifiers), ApplicationEvent>::empty(),
    {
        let bindings = Keybindings { table: HashMap::new() };
        proof {
            assert(bindings@ =~= Map::<(KeyCode, KeyModifiers), ApplicationEvent>::empty());
        }
        bindings
    }

    /// Binds `event` to the combination of `key` and `modifiers`; an
    /// earlier binding of the same combination gives way.
    pub fn bind(&mut self, key: KeyCode, modifiers: KeyModifiers, event: ApplicationEvent)
        ensures
            final(self)@ == old(self)@.insert((key, modifiers), event),
    {
        let code = key_number(key) * 256 + modifiers.bits as u64;
        self.table.insert(code, event);
        proof {
            assert forall|k: (KeyCode, KeyModifiers)|
                binding_code(k.0, k.1) == binding_code(key, modifiers) implies k == (
                key,
                modifiers,
            ) by {
                lemma_binding_code_injective(k.0, k.1, key, modifiers);
            }
            assert(self@ =~= old(self)@.insert((key, modifiers), event));
        }
    }

    /// The event bound to exactly this combination, if there is one.
    pub fn resolve(&self, key: KeyCode, modifiers: KeyModifiers) -> (event: Option<
        ApplicationEvent,
    >)
        ensures
            event == if self@.contains_key((key, modifiers)) {
                Some(self@[(key, modifiers)])
            } else {
                None
            },
    {
        let code = key_number(key) * 256 + modifiers.bits as u64;
        match self.table.get(&code) {
            Some(event) => Some(*event),
            None => None,
        }
    }

    /// Lays the default bindings over the table.
    pub fn bind_defaults(&mut self)
        ensures
            final(self)@ == with_default_bindings(old(self)@),
    {
        // close
        self.bind(KeyCode::Esc, KeyModifiers::none(), ApplicationEvent::Close);
        self.bind(KeyCode::Char('c'), KeyModifiers::control(), ApplicationEvent::Close);
        // navigation
        self.bind(KeyCode::Char('a'), KeyModifiers::none(), ApplicationEvent::NavigateUp);
        self.bind(
            KeyCode::Char('d'),
            KeyModifiers::none(),
            ApplicationEvent::NavigateDown,
        );
        self.bind(
            KeyCode::Char('w'),
            KeyModifiers::none(),
            ApplicationEvent::SelectPrevious,
        );
        self.bind(KeyCode::Char('s'), KeyModifiers::none(), ApplicationEvent::SelectNext);
        self.bind(KeyCode::Left, KeyModifiers::none(), ApplicationEvent::NavigateUp);
        self.bind(KeyCode::Right, KeyModifiers::none(), ApplicationEvent::NavigateDown);
        self.bind(KeyCode::Up, KeyModifiers::none(), ApplicationEvent::SelectPrevious);
        self.bind(KeyCode::Down, KeyModifiers::none(), ApplicationEvent::SelectNext);
        // single-letter commands
        self.bind(
            KeyCode::Char('h'),
            KeyModifiers::none(),
            ApplicationEvent::ToggleShowHidden,
        );
        self.bind(KeyCode::Char('f'), KeyModifiers::none(), ApplicationEvent::OpenImage);
        self.bind(KeyCode::Char('p'), KeyModifiers::none(), ApplicationEvent::PlayMedia);
        self.bind(KeyCode::Char('q'), KeyModifiers::none(), ApplicationEvent::DebugEvent);
    }
}

/// A binding answers for its own combination and for no other.
pub proof fn lemma_binding_is_exact(
    bindings: Map<(KeyCode, KeyModifiers), ApplicationEvent>,
    key: KeyCode,
    modifiers: KeyModifiers,
    event: ApplicationEvent,
    other_key: KeyCode,
    other_modifiers: KeyModifiers,
)
    ensures
        bindings.insert((key, modifiers), event)[(key, modifiers)] == event,
        (other_key, other_modifiers) != (key, modifiers) ==> (bindings.insert(
            (key, modifiers),
            event,
        ).contains_key((other_key, other_modifiers)) <==> bindings.contains_key(
            (other_key, other_modifiers),
        )),
{
}

/// Of two bindings of one combination the later one holds.
pub proof fn lemma_last_binding_wins(
    bindings: Map<(KeyCode, KeyModifiers), ApplicationEvent>,
    key: KeyCode,
    modifiers: KeyModifiers,
    first: ApplicationEvent,
    second: ApplicationEvent,
)
    ensures
        bindings.insert((key, modifiers), first).insert((key, modifiers), second)
            == bindings.insert((key, modifiers), second),
{
    assert(bindings.insert((key, modifiers), first).insert((key, modifiers), second)
        =~= bindings.insert((key, modifiers), second));
}

/// The events that wait for the next tick after a key was pressed: the
/// event bound to the key joins them, and a key without a binding changes
/// nothing.
pub open spec fn key_pressed(s: AppView, key: KeyCode, modifiers: KeyModifiers) -> AppView {
    if s.keybindings.contains_key((key, modifiers)) {
        AppView { new_events: s.new_events.push(s.keybindings[(key, modifiers)]), ..s }
    } else {
        s
    }
}

impl App {
    /// Takes in a key that was pressed: the event bound to it, if any,
    /// waits for the next tick.
    pub fn input(&mut self, key: KeyCode, modifiers: KeyModifiers)
        requires
            old(self).wf(),
        ensures
            final(self).wf(),
            final(self)@ == key_pressed(old(self)@, key, modifiers),
    {
        if let Some(event) = self.resolve_keybinding(key, modifiers) {
            self.new_events.push(event);
        }
    }

    /// Lays the default bindings over those that are there.
    pub fn add_default_keybindings(&mut self)
        requires
            old(self).wf(),
        ensures
            final(self).wf(),
            final(self)@ == (AppView {
                keybindings: with_default_bindings(old(self)@.keybindings),
                ..old(self)@
            }),
    {
        self.keybindings.bind_defaults();
    }

    /// Binds `event` to the combination of `key` and `modifiers`; an
    /// earlier binding of the same combination gives way.
    pub fn add_keybinding(&mut self, key: KeyCode, modifiers: KeyModifiers, event: ApplicationEvent)
        requires
            old(self).wf(),
        ensures
            final(self).wf(),
            final(self)@ == (AppView {
                keybindings: old(self)@.keybindings.insert((key, modifiers), event),
                ..old(self)@
            }),
    {
        self.keybindings.bind(key, modifiers, event);
    }

    /// The event bound to exactly this combination, if there is one.
    pub fn resolve_keybinding(&self, key: KeyCode, modifiers: KeyModifiers) -> (event: Option<
        ApplicationEvent,
    >)
        ensures
            event == if self@.keybindings.contains_key((key, modifiers)) {
                Some(self@.keybindings[(key, modifiers)])
            } else {
                None
            },
    {
        self.keybindings.resolve(key, modifiers)
    }
}

} // verus!
