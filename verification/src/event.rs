//! Input translator: a pure mapping from raw terminal events onto the
//! toolkit's abstract event vocabulary.
//!
//! Named keys expand into a press/release pair, since the terminal protocol
//! reports no key releases. Every mouse button or scroll event is preceded
//! by a synthetic cursor-move for its coordinates, so consumers always see a
//! current cursor position before the click or scroll. Unrecognized raw
//! events translate to an empty sequence: they are dropped, not an error.

use vstd::prelude::*;

verus! {

/// Modifier keys reported with a raw key event.
#[derive(Clone, Copy, PartialEq, Eq, Debug)]
pub struct RawModifiers {
    pub shift: bool,
    pub control: bool,
    pub alt: bool,
}

/// Key taxonomy of the terminal protocol.
#[derive(Clone, Copy, PartialEq, Eq, Debug)]
pub enum RawKeyCode {
    Backspace,
    Enter,
    Left,
    Right,
    Up,
    Down,
    Home,
    End,
    PageUp,
    PageDown,
    Tab,
    BackTab,
    Delete,
    Insert,
    F(u8),
    Char(char),
    Null,
    Esc,
}

/// Mouse buttons the terminal protocol distinguishes.
#[derive(Clone, Copy, PartialEq, Eq, Debug)]
pub enum RawMouseButton {
    Left,
    Right,
    Middle,
}

/// Kinds of raw mouse events.
#[derive(Clone, Copy, PartialEq, Eq, Debug)]
pub enum RawMouseKind {
    Down(RawMouseButton),
    Up(RawMouseButton),
    Drag(RawMouseButton),
    Moved,
    ScrollDown,
    ScrollUp,
}

/// A device-specific input event as the terminal driver reports it. The
/// `Unknown` case stands for every event kind of the driver that the
/// translator does not recognize.
#[derive(Clone, Copy, PartialEq, Eq, Debug)]
pub enum RawEvent {
    Key(RawKeyCode, RawModifiers),
    Mouse(RawMouseKind, u16, u16),
    Resize(u16, u16),
    Unknown,
}

/// Modifier set of an abstract keyboard event. The logo/meta key is never
/// asserted: the terminal protocol has no reliable signal for it.
#[derive(Clone, Copy, PartialEq, Eq, Debug)]
pub struct Modifiers {
    pub shift: bool,
    pub control: bool,
    pub alt: bool,
    pub logo: bool,
}

/// Abstract key vocabulary of the toolkit, restricted to the keys the
/// translator can produce. Function keys carry their number (1 to 24).
#[derive(Clone, Copy, PartialEq, Eq, Debug)]
pub enum KeyCode {
    Backspace,
    Enter,
    Left,
    Right,
    Up,
    Down,
    Home,
    End,
    PageUp,
    PageDown,
    Tab,
    Delete,
    Insert,
    Escape,
    F(u8),
}

/// Abstract mouse buttons.
#[derive(Clone, Copy, PartialEq, Eq, Debug)]
pub enum MouseButton {
    Left,
    Right,
    Middle,
}

/// Abstract keyboard events.
#[derive(Clone, Copy, PartialEq, Eq, Debug)]
pub enum KeyboardEvent {
    KeyPressed { key_code: KeyCode, modifiers: Modifiers },
    KeyReleased { key_code: KeyCode, modifiers: Modifiers },
    CharacterReceived(char),
}

/// Abstract mouse events. A cursor move carries the cell the cursor sits
/// in; the continuous position the toolkit works with is the center of that
/// cell. A wheel scroll carries a line delta: positive scrolls up.
#[derive(Clone, Copy, PartialEq, Eq, Debug)]
pub enum MouseEvent {
    CursorMoved { column: u16, row: u16 },
    ButtonPressed(MouseButton),
    ButtonReleased(MouseButton),
    WheelScrolled { lines: i8 },
}

/// Abstract window events.
#[derive(Clone, Copy, PartialEq, Eq, Debug)]
pub enum WindowEvent {
    Resized { width: u32, height: u32 },
}

/// A translated, device-independent input event.
#[derive(Clone, Copy, PartialEq, Eq, Debug)]
pub enum Event {
    Keyboard(KeyboardEvent),
    Mouse(MouseEvent),
    Window(WindowEvent),
}

/// Raw modifiers carried over unchanged; logo is never asserted.
pub open spec fn spec_convert_modifiers(m: RawModifiers) -> Modifiers {
    Modifiers { shift: m.shift, control: m.control, alt: m.alt, logo: false }
}

/// Which abstract key a named raw key maps to. Printable characters are
/// handled separately; keys the vocabulary lacks map to `None`. Back-tab
/// maps to Tab (its shift modifier is forced by `effective_modifiers`).
pub open spec fn key_mapping(code: RawKeyCode) -> Option<KeyCode> {
    match code {
        RawKeyCode::Backspace => Some(KeyCode::Backspace),
        RawKeyCode::Enter => Some(KeyCode::Enter),
        RawKeyCode::Left => Some(KeyCode::Left),
        RawKeyCode::Right => Some(KeyCode::Right),
        RawKeyCode::Up => Some(KeyCode::Up),
        RawKeyCode::Down => Some(KeyCode::Down),
        RawKeyCode::Home => Some(KeyCode::Home),
        RawKeyCode::End => Some(KeyCode::End),
        RawKeyCode::PageUp => Some(KeyCode::PageUp),
        RawKeyCode::PageDown => Some(KeyCode::PageDown),
        RawKeyCode::Tab => Some(KeyCode::Tab),
        RawKeyCode::BackTab => Some(KeyCode::Tab),
        RawKeyCode::Delete => Some(KeyCode::Delete),
        RawKeyCode::Insert => Some(KeyCode::Insert),
        RawKeyCode::Esc => Some(KeyCode::Escape),
        RawKeyCode::F(n) => if 1 <= n && n <= 24 {
            Some(KeyCode::F(n))
        } else {
            None
        },
        _ => None,
    }
}

/// The modifiers a raw key event carries into translation: back-tab is
/// treated as Tab with the shift modifier forced on.
pub open spec fn effective_modifiers(code: RawKeyCode, m: RawModifiers) -> RawModifiers {
    if code is BackTab {
        RawModifiers { shift: true, control: m.control, alt: m.alt }
    } else {
        m
    }
}

/// The press/release pair a named key expands into.
pub open spec fn press_release_seq(key_code: KeyCode, m: Modifiers) -> Seq<Event> {
    seq![
        Event::Keyboard(KeyboardEvent::KeyPressed { key_code, modifiers: m }),
        Event::Keyboard(KeyboardEvent::KeyReleased { key_code, modifiers: m }),
    ]
}

/// What a raw key event translates to: a printable character yields a single
/// character-received event, a mapped named key its press/release pair, an
/// unmapped key nothing.
pub open spec fn spec_translate_key(code: RawKeyCode, m: RawModifiers) -> Seq<Event> {
    match code {
        RawKeyCode::Char(c) => seq![Event::Keyboard(KeyboardEvent::CharacterReceived(c))],
        _ => match key_mapping(code) {
            Some(key_code) => press_release_seq(
                key_code,
                spec_convert_modifiers(effective_modifiers(code, m)),
            ),
            None => Seq::empty(),
        },
    }
}

pub open spec fn spec_convert_button(b: RawMouseButton) -> MouseButton {
    match b {
        RawMouseButton::Left => MouseButton::Left,
        RawMouseButton::Right => MouseButton::Right,
        RawMouseButton::Middle => MouseButton::Middle,
    }
}

pub open spec fn cursor_moved(column: u16, row: u16) -> Event {
    Event::Mouse(MouseEvent::CursorMoved { column, row })
}

/// What a raw mouse event translates to: buttons and scrolls are preceded
/// by a cursor move for the event's cell, drags and plain moves yield only
/// the cursor move.
pub open spec fn spec_translate_mouse(kind: RawMouseKind, column: u16, row: u16) -> Seq<Event> {
    match kind {
        RawMouseKind::Down(b) => seq![
            cursor_moved(column, row),
            Event::Mouse(MouseEvent::ButtonPressed(spec_convert_button(b))),
        ],
        RawMouseKind::Up(b) => seq![
            cursor_moved(column, row),
            Event::Mouse(MouseEvent::ButtonReleased(spec_convert_button(b))),
        ],
        RawMouseKind::Drag(b) => seq![cursor_moved(column, row)],
        RawMouseKind::Moved => seq![cursor_moved(column, row)],
        RawMouseKind::ScrollDown => seq![
            cursor_moved(column, row),
            Event::Mouse(MouseEvent::WheelScrolled { lines: -1i8 }),
        ],
        RawMouseKind::ScrollUp => seq![
            cursor_moved(column, row),
            Event::Mouse(MouseEvent::WheelScrolled { lines: 1i8 }),
        ],
    }
}

/// The full translation of one raw event.
pub open spec fn spec_translate(raw: RawEvent) -> Seq<Event> {
    match raw {
        RawEvent::Key(code, m) => spec_translate_key(code, m),
        RawEvent::Mouse(kind, column, row) => spec_translate_mouse(kind, column, row),
        RawEvent::Resize(w, h) => seq![
            Event::Window(WindowEvent::Resized { width: w as u32, height: h as u32 }),
        ],
        RawEvent::Unknown => Seq::empty(),
    }
}

/// Whether a raw event translates to anything at all.
pub open spec fn recognized(raw: RawEvent) -> bool {
    match raw {
        RawEvent::Key(code, m) => code is Char || key_mapping(code) is Some,
        RawEvent::Mouse(kind, column, row) => true,
        RawEvent::Resize(w, h) => true,
        RawEvent::Unknown => false,
    }
}

fn convert_modifiers(m: RawModifiers) -> (r: Modifiers)
    ensures
        r == spec_convert_modifiers(m),
{
    Modifiers { shift: m.shift, control: m.control, alt: m.alt, logo: false }
}

fn convert_button(b: RawMouseButton) -> (r: MouseButton)
    ensures
        r == spec_convert_button(b),
{
    match b {
        RawMouseButton::Left => MouseButton::Left,
        RawMouseButton::Right => MouseButton::Right,
        RawMouseButton::Middle => MouseButton::Middle,
    }
}

fn move_cursor(column: u16, row: u16) -> (r: Event)
    ensures
        r == cursor_moved(column, row),
{
    Event::Mouse(MouseEvent::CursorMoved { column, row })
}

fn move_cursor_and(column: u16, row: u16, other: Event) -> (r: Vec<Event>)
    ensures
        r@ =~= seq![cursor_moved(column, row), other],
{
    let mut r: Vec<Event> = Vec::new();
    r.push(move_cursor(column, row));
    r.push(other);
    r
}

fn press_and_release(key_code: KeyCode, modifiers: RawModifiers) -> (r: Vec<Event>)
    ensures
        r@ =~= press_release_seq(key_code, spec_convert_modifiers(modifiers)),
{
    let m = convert_modifiers(modifiers);
    let mut r: Vec<Event> = Vec::new();
    r.push(Event::Keyboard(KeyboardEvent::KeyPressed { key_code, modifiers: m }));
    r.push(Event::Keyboard(KeyboardEvent::KeyReleased { key_code, modifiers: m }));
    r
}

fn translate_key(code: RawKeyCode, modifiers: RawModifiers) -> (r: Vec<Event>)
    ensures
        r@ =~= spec_translate_key(code, modifiers),
{
    match code {
        RawKeyCode::Char(c) => {
            let mut r: Vec<Event> = Vec::new();
            r.push(Event::Keyboard(KeyboardEvent::CharacterReceived(c)));
            r
        },
        RawKeyCode::Backspace => press_and_release(KeyCode::Backspace, modifiers),
        RawKeyCode::Enter => press_and_release(KeyCode::Enter, modifiers),
        RawKeyCode::Left => press_and_release(KeyCode::Left, modifiers),
        RawKeyCode::Right => press_and_release(KeyCode::Right, modifiers),
        RawKeyCode::Up => press_and_release(KeyCode::Up, modifiers),
        RawKeyCode::Down => press_and_release(KeyCode::Down, modifiers),
        RawKeyCode::Home => press_and_release(KeyCode::Home, modifiers),
        RawKeyCode::End => press_and_release(KeyCode::End, modifiers),
        RawKeyCode::PageUp => press_and_release(KeyCode::PageUp, modifiers),
        RawKeyCode::PageDown => press_and_release(KeyCode::PageDown, modifiers),
        RawKeyCode::Tab => press_and_release(KeyCode::Tab, modifiers),
        RawKeyCode::BackTab => press_and_release(
            KeyCode::Tab,
            RawModifiers { shift: true, control: modifiers.control, alt: modifiers.alt },
        ),
        RawKeyCode::Delete => press_and_release(KeyCode::Delete, modifiers),
        RawKeyCode::Insert => press_and_release(KeyCode::Insert, modifiers),
        RawKeyCode::Esc => press_and_release(KeyCode::Escape, modifiers),
        RawKeyCode::F(n) => {
            if 1 <= n && n <= 24 {
                press_and_release(KeyCode::F(n), modifiers)
            } else {
                Vec::new()
            }
        },
        _ => Vec::new(),
    }
}

fn translate_mouse(kind: RawMouseKind, column: u16, row: u16) -> (r: Vec<Event>)
    ensures
        r@ =~= spec_translate_mouse(kind, column, row),
{
    match kind {
        RawMouseKind::Down(b) => move_cursor_and(
            column,
            row,
            Event::Mouse(MouseEvent::ButtonPressed(convert_button(b))),
        ),
        RawMouseKind::Up(b) => move_cursor_and(
            column,
            row,
            Event::Mouse(MouseEvent::ButtonReleased(convert_button(b))),
        ),
        RawMouseKind::Drag(b) => {
            let mut r: Vec<Event> = Vec::new();
            r.push(move_cursor(column, row));
            r
        },
        RawMouseKind::Moved => {
            let mut r: Vec<Event> = Vec::new();
            r.push(move_cursor(column, row));
            r
        },
        RawMouseKind::ScrollDown => move_cursor_and(
            column,
            row,
            Event::Mouse(MouseEvent::WheelScrolled { lines: -1i8 }),
        ),
        RawMouseKind::ScrollUp => move_cursor_and(
            column,
            row,
            Event::Mouse(MouseEvent::WheelScrolled { lines: 1i8 }),
        ),
    }
}

/// Translates one raw terminal event into the abstract events it stands
/// for, in the order consumers must see them.
pub fn translate(raw: RawEvent) -> (r: Vec<Event>)
    ensures
        r@ == spec_translate(raw),
{
    match raw {
        RawEvent::Key(code, modifiers) => translate_key(code, modifiers),
        RawEvent::Mouse(kind, column, row) => translate_mouse(kind, column, row),
        RawEvent::Resize(w, h) => {
            let mut r: Vec<Event> = Vec::new();
            r.push(Event::Window(WindowEvent::Resized { width: w as u32, height: h as u32 }));
            proof {
                assert(r@ =~= spec_translate(raw));
            }
            r
        },
        RawEvent::Unknown => {
            let r: Vec<Event> = Vec::new();
            proof {
                assert(r@ =~= spec_translate(raw));
            }
            r
        },
    }
}

/// Law: a mapped named key translates to exactly two events, a key-press
/// followed by a key-release, both carrying the same modifier set.
pub proof fn lemma_named_key_pair(code: RawKeyCode, m: RawModifiers)
    requires
        !(code is Char),
        key_mapping(code) is Some,
    ensures
        spec_translate(RawEvent::Key(code, m)).len() == 2,
        spec_translate(RawEvent::Key(code, m))[0] == Event::Keyboard(
            KeyboardEvent::KeyPressed {
                key_code: key_mapping(code).unwrap(),
                modifiers: spec_convert_modifiers(effective_modifiers(code, m)),
            },
        ),
        spec_translate(RawEvent::Key(code, m))[1] == Event::Keyboard(
            KeyboardEvent::KeyReleased {
                key_code: key_mapping(code).unwrap(),
                modifiers: spec_convert_modifiers(effective_modifiers(code, m)),
            },
        ),
{
}

/// Law: a raw mouse button or scroll event translates to exactly two events,
/// a cursor move for the event's cell followed by the semantic event.
pub proof fn lemma_mouse_cursor_first(kind: RawMouseKind, column: u16, row: u16)
    requires
        !(kind is Drag),
        !(kind is Moved),
    ensures
        spec_translate(RawEvent::Mouse(kind, column, row)).len() == 2,
        spec_translate(RawEvent::Mouse(kind, column, row))[0] == cursor_moved(column, row),
{
}

/// Law: an unrecognized raw event translates to the empty sequence.
pub proof fn lemma_unrecognized_empty(raw: RawEvent)
    requires
        !recognized(raw),
    ensures
        spec_translate(raw) == Seq::<Event>::empty(),
{
}

} // verus!
