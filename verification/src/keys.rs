//! Translation of logical keys reported by the windowing system into Dear ImGui keys.
use vstd::prelude::*;

verus! {

/// Where on the keyboard a key sits, as the windowing system reports it.
#[derive(Clone, Copy, Debug, PartialEq, Eq, Structural)]
pub enum KeyLocation {
    Standard,
    Left,
    Right,
    Numpad,
}

/// The named (non-printable) keys that the translation distinguishes.
///
/// Every other named key of the windowing system is `Other`: none of them has an
/// ImGui counterpart in this translation.
#[derive(Clone, Copy, Debug, PartialEq, Eq, Structural)]
pub enum NamedKey {
    Tab,
    ArrowLeft,
    ArrowRight,
    ArrowUp,
    ArrowDown,
    PageUp,
    PageDown,
    Home,
    End,
    Insert,
    Delete,
    Backspace,
    Space,
    Enter,
    Escape,
    Control,
    Shift,
    Alt,
    Super,
    ContextMenu,
    F1,
    F2,
    F3,
    F4,
    F5,
    F6,
    F7,
    F8,
    F9,
    F10,
    F11,
    F12,
    CapsLock,
    ScrollLock,
    NumLock,
    PrintScreen,
    Pause,
    Other,
}

/// A logical key press: what the key means under the current keyboard layout.
pub enum LogicalKey {
    /// A key with a name, such as `Tab` or `Enter`.
    Named(NamedKey),
    /// A key that produces text; the text is held as it was reported.
    Character(String),
    /// A key the windowing system could not identify.
    Unidentified,
    /// A dead key (a key that combines with the next one), with its character if known.
    Dead(Option<char>),
}

/// The mathematical model of a [`LogicalKey`]: its text is a sequence of characters.
pub enum LogicalKeyView {
    Named(NamedKey),
    Character(Seq<char>),
    Unidentified,
    Dead(Option<char>),
}

impl View for LogicalKey {
    type V = LogicalKeyView;

    open spec fn view(&self) -> LogicalKeyView {
        match self {
            LogicalKey::Named(n) => LogicalKeyView::Named(*n),
            LogicalKey::Character(s) => LogicalKeyView::Character(s@),
            LogicalKey::Unidentified => LogicalKeyView::Unidentified,
            LogicalKey::Dead(c) => LogicalKeyView::Dead(*c),
        }
    }
}

/// The Dear ImGui keys that this translation produces.
#[derive(Clone, Copy, Debug, PartialEq, Eq, Structural)]
pub enum Key {
    Tab,
    LeftArrow,
    RightArrow,
    UpArrow,
    DownArrow,
    PageUp,
    PageDown,
    Home,
    End,
    Insert,
    Delete,
    Backspace,
    Space,
    Enter,
    Escape,
    LeftCtrl,
    LeftShift,
    LeftAlt,
    LeftSuper,
    RightCtrl,
    RightShift,
    RightAlt,
    RightSuper,
    Menu,
    Alpha0,
    Alpha1,
    Alpha2,
    Alpha3,
    Alpha4,
    Alpha5,
    Alpha6,
    Alpha7,
    Alpha8,
    Alpha9,
    A,
    B,
    C,
    D,
    E,
    F,
    G,
    H,
    I,
    J,
    K,
    L,
    M,
    N,
    O,
    P,
    Q,
    R,
    S,
    T,
    U,
    V,
    W,
    X,
    Y,
    Z,
    F1,
    F2,
    F3,
    F4,
    F5,
    F6,
    F7,
    F8,
    F9,
    F10,
    F11,
    F12,
    Apostrophe,
    Comma,
    Minus,
    Period,
    Slash,
    Semicolon,
    Equal,
    LeftBracket,
    Backslash,
    RightBracket,
    GraveAccent,
    CapsLock,
    ScrollLock,
    NumLock,
    PrintScreen,
    Pause,
    Keypad0,
    Keypad1,
    Keypad2,
    Keypad3,
    Keypad4,
    Keypad5,
    Keypad6,
    Keypad7,
    Keypad8,
    Keypad9,
    KeypadDecimal,
    KeypadDivide,
    KeypadMultiply,
    KeypadSubtract,
    KeypadAdd,
    KeypadEnter,
    KeypadEqual,
    ModCtrl,
    ModShift,
    ModAlt,
    ModSuper,
}

/// The ImGui key of a named key at a location.
///
/// Most named keys translate wherever they sit. `Enter` tells the main block from
/// the keypad; the modifier keys tell the left one from the right one and have no
/// translation in any other location.
pub open spec fn named_key_translation(n: NamedKey, location: KeyLocation) -> Option<Key> {
    match n {
        NamedKey::Tab => Some(Key::Tab),
        NamedKey::ArrowLeft => Some(Key::LeftArrow),
        NamedKey::ArrowRight => Some(Key::RightArrow),
        NamedKey::ArrowUp => Some(Key::UpArrow),
        NamedKey::ArrowDown => Some(Key::DownArrow),
        NamedKey::PageUp => Some(Key::PageUp),
        NamedKey::PageDown => Some(Key::PageDown),
        NamedKey::Home => Some(Key::Home),
        NamedKey::End => Some(Key::End),
        NamedKey::Insert => Some(Key::Insert),
        NamedKey::Delete => Some(Key::Delete),
        NamedKey::Backspace => Some(Key::Backspace),
        NamedKey::Space => Some(Key::Space),
        NamedKey::Enter => match location {
            KeyLocation::Standard => Some(Key::Enter),
            KeyLocation::Numpad => Some(Key::KeypadEnter),
            _ => None,
        },
        NamedKey::Escape => Some(Key::Escape),
        NamedKey::Control => sided(location, Key::LeftCtrl, Key::RightCtrl),
        NamedKey::Shift => sided(location, Key::LeftShift, Key::RightShift),
        NamedKey::Alt => sided(location, Key::LeftAlt, Key::RightAlt),
        NamedKey::Super => sided(location, Key::LeftSuper, Key::RightSuper),
        NamedKey::ContextMenu => Some(Key::Menu),
        NamedKey::F1 => Some(Key::F1),
        NamedKey::F2 => Some(Key::F2),
        NamedKey::F3 => Some(Key::F3),
        NamedKey::F4 => Some(Key::F4),
        NamedKey::F5 => Some(Key::F5),
        NamedKey::F6 => Some(Key::F6),
        NamedKey::F7 => Some(Key::F7),
        NamedKey::F8 => Some(Key::F8),
        NamedKey::F9 => Some(Key::F9),
        NamedKey::F10 => Some(Key::F10),
        NamedKey::F11 => Some(Key::F11),
        NamedKey::F12 => Some(Key::F12),
        NamedKey::CapsLock => Some(Key::CapsLock),
        NamedKey::ScrollLock => Some(Key::ScrollLock),
        NamedKey::NumLock => Some(Key::NumLock),
        NamedKey::PrintScreen => Some(Key::PrintScreen),
        NamedKey::Pause => Some(Key::Pause),
        NamedKey::Other => None,
    }
}

/// A modifier key: its left or its right ImGui key, and nothing elsewhere.
pub open spec fn sided(location: KeyLocation, left: Key, right: Key) -> Option<Key> {
    match location {
        KeyLocation::Left => Some(left),
        KeyLocation::Right => Some(right),
        _ => None,
    }
}

/// A key whose ImGui key depends on whether it sits on the main block or on the keypad.
pub open spec fn block_or_keypad(location: KeyLocation, main: Option<Key>, keypad: Option<Key>) -> Option<Key> {
    match location {
        KeyLocation::Standard => main,
        KeyLocation::Numpad => keypad,
        _ => None,
    }
}

/// The ImGui key of a key that types the single character `c` at a location.
///
/// Digits and `- . / =` tell the main block from the keypad; `, - . / =` and the
/// digits have no translation elsewhere. `* +` translate on the keypad only. Letters
/// (lower case only) and the other punctuation translate wherever they sit.
pub open spec fn character_key_translation(c: char, location: KeyLocation) -> Option<Key> {
    match c {
        '0' => block_or_keypad(location, Some(Key::Alpha0), Some(Key::Keypad0)),
        '1' => block_or_keypad(location, Some(Key::Alpha1), Some(Key::Keypad1)),
        '2' => block_or_keypad(location, Some(Key::Alpha2), Some(Key::Keypad2)),
        '3' => block_or_keypad(location, Some(Key::Alpha3), Some(Key::Keypad3)),
        '4' => block_or_keypad(location, Some(Key::Alpha4), Some(Key::Keypad4)),
        '5' => block_or_keypad(location, Some(Key::Alpha5), Some(Key::Keypad5)),
        '6' => block_or_keypad(location, Some(Key::Alpha6), Some(Key::Keypad6)),
        '7' => block_or_keypad(location, Some(Key::Alpha7), Some(Key::Keypad7)),
        '8' => block_or_keypad(location, Some(Key::Alpha8), Some(Key::Keypad8)),
        '9' => block_or_keypad(location, Some(Key::Alpha9), Some(Key::Keypad9)),
        'a' => Some(Key::A),
        'b' => Some(Key::B),
        'c' => Some(Key::C),
        'd' => Some(Key::D),
        'e' => Some(Key::E),
        'f' => Some(Key::F),
        'g' => Some(Key::G),
        'h' => Some(Key::H),
        'i' => Some(Key::I),
        'j' => Some(Key::J),
        'k' => Some(Key::K),
        'l' => Some(Key::L),
        'm' => Some(Key::M),
        'n' => Some(Key::N),
        'o' => Some(Key::O),
        'p' => Some(Key::P),
        'q' => Some(Key::Q),
        'r' => Some(Key::R),
        's' => Some(Key::S),
        't' => Some(Key::T),
        'u' => Some(Key::U),
        'v' => Some(Key::V),
        'w' => Some(Key::W),
        'x' => Some(Key::X),
        'y' => Some(Key::Y),
        'z' => Some(Key::Z),
        '\'' => Some(Key::Apostrophe),
        ',' => block_or_keypad(location, Some(Key::Comma), None),
        '-' => block_or_keypad(location, Some(Key::Minus), Some(Key::KeypadSubtract)),
        '.' => block_or_keypad(location, Some(Key::Period), Some(Key::KeypadDecimal)),
        '/' => block_or_keypad(location, Some(Key::Slash), Some(Key::KeypadDivide)),
        ';' => Some(Key::Semicolon),
        '=' => block_or_keypad(location, Some(Key::Equal), Some(Key::KeypadEqual)),
        '[' => Some(Key::LeftBracket),
        '\\' => Some(Key::Backslash),
        ']' => Some(Key::RightBracket),
        '`' => Some(Key::GraveAccent),
        '*' => block_or_keypad(location, None, Some(Key::KeypadMultiply)),
        '+' => block_or_keypad(location, None, Some(Key::KeypadAdd)),
        _ => None,
    }
}

/// The ImGui key of a logical key at a location, if it has one.
///
/// Only text made of exactly one character can translate; unidentified and dead
/// keys never do.
pub open spec fn key_translation(key: LogicalKeyView, location: KeyLocation) -> Option<Key> {
    match key {
        LogicalKeyView::Named(n) => named_key_translation(n, location),
        LogicalKeyView::Character(s) => if s.len() == 1 {
            character_key_translation(s[0], location)
        } else {
            None
        },
        _ => None,
    }
}

/// The logical key that an ImGui key stands for.
///
/// The modifier-state keys (`ModCtrl`, `ModShift`, `ModAlt`, `ModSuper`) come from
/// modifier changes, never from a key press; they are given `Unidentified`, which no
/// translation starts from.
pub open spec fn key_origin(k: Key) -> LogicalKeyView {
    match k {
        Key::Tab => LogicalKeyView::Named(NamedKey::Tab),
        Key::LeftArrow => LogicalKeyView::Named(NamedKey::ArrowLeft),
        Key::RightArrow => LogicalKeyView::Named(NamedKey::ArrowRight),
        Key::UpArrow => LogicalKeyView::Named(NamedKey::ArrowUp),
        Key::DownArrow => LogicalKeyView::Named(NamedKey::ArrowDown),
        Key::PageUp => LogicalKeyView::Named(NamedKey::PageUp),
        Key::PageDown => LogicalKeyView::Named(NamedKey::PageDown),
        Key::Home => LogicalKeyView::Named(NamedKey::Home),
        Key::End => LogicalKeyView::Named(NamedKey::End),
        Key::Insert => LogicalKeyView::Named(NamedKey::Insert),
        Key::Delete => LogicalKeyView::Named(NamedKey::Delete),
        Key::Backspace => LogicalKeyView::Named(NamedKey::Backspace),
        Key::Space => LogicalKeyView::Named(NamedKey::Space),
        Key::Enter => LogicalKeyView::Named(NamedKey::Enter),
        Key::KeypadEnter => LogicalKeyView::Named(NamedKey::Enter),
        Key::Escape => LogicalKeyView::Named(NamedKey::Escape),
        Key::LeftCtrl => LogicalKeyView::Named(NamedKey::Control),
        Key::RightCtrl => LogicalKeyView::Named(NamedKey::Control),
        Key::LeftShift => LogicalKeyView::Named(NamedKey::Shift),
        Key::RightShift => LogicalKeyView::Named(NamedKey::Shift),
        Key::LeftAlt => LogicalKeyView::Named(NamedKey::Alt),
        Key::RightAlt => LogicalKeyView::Named(NamedKey::Alt),
        Key::LeftSuper => LogicalKeyView::Named(NamedKey::Super),
        Key::RightSuper => LogicalKeyView::Named(NamedKey::Super),
        Key::Menu => LogicalKeyView::Named(NamedKey::ContextMenu),
        Key::F1 => LogicalKeyView::Named(NamedKey::F1),
        Key::F2 => LogicalKeyView::Named(NamedKey::F2),
        Key::F3 => LogicalKeyView::Named(NamedKey::F3),
        Key::F4 => LogicalKeyView::Named(NamedKey::F4),
        Key::F5 => LogicalKeyView::Named(NamedKey::F5),
        Key::F6 => LogicalKeyView::Named(NamedKey::F6),
        Key::F7 => LogicalKeyView::Named(NamedKey::F7),
        Key::F8 => LogicalKeyView::Named(NamedKey::F8),
        Key::F9 => LogicalKeyView::Named(NamedKey::F9),
        Key::F10 => LogicalKeyView::Named(NamedKey::F10),
        Key::F11 => LogicalKeyView::Named(NamedKey::F11),
        Key::F12 => LogicalKeyView::Named(NamedKey::F12),
        Key::CapsLock => LogicalKeyView::Named(NamedKey::CapsLock),
        Key::ScrollLock => LogicalKeyView::Named(NamedKey::ScrollLock),
        Key::NumLock => LogicalKeyView::Named(NamedKey::NumLock),
        Key::PrintScreen => LogicalKeyView::Named(NamedKey::PrintScreen),
        Key::Pause => LogicalKeyView::Named(NamedKey::Pause),
        Key::ModCtrl | Key::ModShift | Key::ModAlt | Key::ModSuper => LogicalKeyView::Unidentified,
        _ => LogicalKeyView::Character(seq![character_origin(k)]),
    }
}

/// The character typed by the key that an ImGui character key stands for.
pub open spec fn character_origin(k: Key) -> char {
    match k {
        Key::Alpha0 | Key::Keypad0 => '0',
        Key::Alpha1 | Key::Keypad1 => '1',
        Key::Alpha2 | Key::Keypad2 => '2',
        Key::Alpha3 | Key::Keypad3 => '3',
        Key::Alpha4 | Key::Keypad4 => '4',
        Key::Alpha5 | Key::Keypad5 => '5',
        Key::Alpha6 | Key::Keypad6 => '6',
        Key::Alpha7 | Key::Keypad7 => '7',
        Key::Alpha8 | Key::Keypad8 => '8',
        Key::Alpha9 | Key::Keypad9 => '9',
        Key::A => 'a',
        Key::B => 'b',
        Key::C => 'c',
        Key::D => 'd',
        Key::E => 'e',
        Key::F => 'f',
        Key::G => 'g',
        Key::H => 'h',
        Key::I => 'i',
        Key::J => 'j',
        Key::K => 'k',
        Key::L => 'l',
        Key::M => 'm',
        Key::N => 'n',
        Key::O => 'o',
        Key::P => 'p',
        Key::Q => 'q',
        Key::R => 'r',
        Key::S => 's',
        Key::T => 't',
        Key::U => 'u',
        Key::V => 'v',
        Key::W => 'w',
        Key::X => 'x',
        Key::Y => 'y',
        Key::Z => 'z',
        Key::Apostrophe => '\'',
        Key::Comma => ',',
        Key::Minus | Key::KeypadSubtract => '-',
        Key::Period | Key::KeypadDecimal => '.',
        Key::Slash | Key::KeypadDivide => '/',
        Key::Semicolon => ';',
        Key::Equal | Key::KeypadEqual => '=',
        Key::LeftBracket => '[',
        Key::Backslash => '\\',
        Key::RightBracket => ']',
        Key::GraveAccent => '`',
        Key::KeypadMultiply => '*',
        Key::KeypadAdd => '+',
        _ => ' ',
    }
}

/// Every ImGui key that a translation produces comes from exactly one logical key:
/// the one that [`key_origin`] names.
pub proof fn lemma_translation_has_origin(key: LogicalKeyView, location: KeyLocation)
    requires
        key_translation(key, location) is Some,
    ensures
        key_origin(key_translation(key, location)->0) == key,
{
    match key {
        LogicalKeyView::Character(s) => {
            assert(s =~= seq![s[0]]);
        },
        _ => {},
    }
}

/// The translation never merges two keys: two logical keys that translate to the
/// same ImGui key, in whatever locations, are the same logical key.
pub proof fn lemma_translation_is_injective(
    k1: LogicalKeyView,
    l1: KeyLocation,
    k2: LogicalKeyView,
    l2: KeyLocation,
)
    requires
        key_translation(k1, l1) is Some,
        key_translation(k1, l1) == key_translation(k2, l2),
    ensures
        k1 == k2,
{
    lemma_translation_has_origin(k1, l1);
    lemma_translation_has_origin(k2, l2);
}

/// The modifier-state keys are never the translation of a key press.
pub proof fn lemma_translation_skips_modifier_state(key: LogicalKeyView, location: KeyLocation)
    ensures
        key_translation(key, location) != Some(Key::ModCtrl),
        key_translation(key, location) != Some(Key::ModShift),
        key_translation(key, location) != Some(Key::ModAlt),
        key_translation(key, location) != Some(Key::ModSuper),
{
}

/// Whether a named key is one of the sided modifier keys.
pub open spec fn is_modifier(n: NamedKey) -> bool {
    n == NamedKey::Control || n == NamedKey::Shift || n == NamedKey::Alt || n == NamedKey::Super
}

/// The keyboard location that an ImGui key is tied to, if it is tied to one: the
/// left and right modifiers to their side, the keypad keys to the keypad, and the
/// main-block twins of keypad keys to the main block.
pub open spec fn key_location_class(k: Key) -> Option<KeyLocation> {
    match k {
        Key::LeftCtrl | Key::LeftShift | Key::LeftAlt | Key::LeftSuper => Some(KeyLocation::Left),
        Key::RightCtrl | Key::RightShift | Key::RightAlt | Key::RightSuper => Some(
            KeyLocation::Right,
        ),
        Key::Keypad0 | Key::Keypad1 | Key::Keypad2 | Key::Keypad3 | Key::Keypad4 | Key::Keypad5
        | Key::Keypad6 | Key::Keypad7 | Key::Keypad8 | Key::Keypad9 | Key::KeypadDecimal
        | Key::KeypadDivide | Key::KeypadMultiply | Key::KeypadSubtract | Key::KeypadAdd
        | Key::KeypadEnter | Key::KeypadEqual => Some(KeyLocation::Numpad),
        Key::Alpha0 | Key::Alpha1 | Key::Alpha2 | Key::Alpha3 | Key::Alpha4 | Key::Alpha5
        | Key::Alpha6 | Key::Alpha7 | Key::Alpha8 | Key::Alpha9 | Key::Enter | Key::Comma
        | Key::Minus | Key::Period | Key::Slash | Key::Equal => Some(KeyLocation::Standard),
        _ => None,
    }
}

/// A key tied to a location is only ever the translation of a key pressed there: a
/// left modifier never comes from the right one, a keypad key never from the main
/// block, and the other way round.
pub proof fn lemma_translation_respects_location(key: LogicalKeyView, location: KeyLocation)
    requires
        key_translation(key, location) is Some,
        key_location_class(key_translation(key, location)->0) is Some,
    ensures
        key_location_class(key_translation(key, location)->0) == Some(location),
{
}

/// Every named key that ImGui knows reaches it: the location-free named keys in every
/// location, `Enter` on the main block and on the keypad, and the modifiers on either
/// side; and each translates to the ImGui key that stands for that very named key.
pub proof fn lemma_named_keys_translate(n: NamedKey, location: KeyLocation)
    ensures
        n != NamedKey::Other && n != NamedKey::Enter && !is_modifier(n) ==> key_translation(
            LogicalKeyView::Named(n),
            location,
        ) is Some,
        n == NamedKey::Enter && (location == KeyLocation::Standard || location
            == KeyLocation::Numpad) ==> key_translation(LogicalKeyView::Named(n), location) is Some,
        is_modifier(n) && (location == KeyLocation::Left || location == KeyLocation::Right)
            ==> key_translation(LogicalKeyView::Named(n), location) is Some,
        n == NamedKey::Other ==> key_translation(LogicalKeyView::Named(n), location) is None,
        key_translation(LogicalKeyView::Named(n), location) is Some ==> key_origin(
            key_translation(LogicalKeyView::Named(n), location)->0,
        ) == LogicalKeyView::Named(n),
{
}

/// Every lower-case letter translates in every location, and every digit on the main
/// block and on the keypad, each to the ImGui key that stands for that character.
pub proof fn lemma_letters_and_digits_translate(c: char, location: KeyLocation)
    ensures
        ('a' <= c && c <= 'z') ==> key_translation(LogicalKeyView::Character(seq![c]), location)
            is Some,
        ('0' <= c && c <= '9' && (location == KeyLocation::Standard || location
            == KeyLocation::Numpad)) ==> key_translation(
            LogicalKeyView::Character(seq![c]),
            location,
        ) is Some,
        key_translation(LogicalKeyView::Character(seq![c]), location) is Some ==> key_origin(
            key_translation(LogicalKeyView::Character(seq![c]), location)->0,
        ) == LogicalKeyView::Character(seq![c]),
{
    lemma_translation_has_origin_chars(c, location);
}

proof fn lemma_translation_has_origin_chars(c: char, location: KeyLocation)
    ensures
        key_translation(LogicalKeyView::Character(seq![c]), location) is Some ==> key_origin(
            key_translation(LogicalKeyView::Character(seq![c]), location)->0,
        ) == LogicalKeyView::Character(seq![c]),
{
    if key_translation(LogicalKeyView::Character(seq![c]), location) is Some {
        lemma_translation_has_origin(LogicalKeyView::Character(seq![c]), location);
    }
}

fn named_to_imgui_key(n: NamedKey, location: KeyLocation) -> (r: Option<Key>)
    ensures
        r == named_key_translation(n, location),
{
    match (n, location) {
        (NamedKey::Tab, _) => Some(Key::Tab),
        (NamedKey::ArrowLeft, _) => Some(Key::LeftArrow),
        (NamedKey::ArrowRight, _) => Some(Key::RightArrow),
        (NamedKey::ArrowUp, _) => Some(Key::UpArrow),
        (NamedKey::ArrowDown, _) => Some(Key::DownArrow),
        (NamedKey::PageUp, _) => Some(Key::PageUp),
        (NamedKey::PageDown, _) => Some(Key::PageDown),
        (NamedKey::Home, _) => Some(Key::Home),
        (NamedKey::End, _) => Some(Key::End),
        (NamedKey::Insert, _) => Some(Key::Insert),
        (NamedKey::Delete, _) => Some(Key::Delete),
        (NamedKey::Backspace, _) => Some(Key::Backspace),
        (NamedKey::Space, _) => Some(Key::Space),
        (NamedKey::Enter, KeyLocation::Standard) => Some(Key::Enter),
        (NamedKey::Enter, KeyLocation::Numpad) => Some(Key::KeypadEnter),
        (NamedKey::Escape, _) => Some(Key::Escape),
        (NamedKey::Control, KeyLocation::Left) => Some(Key::LeftCtrl),
        (NamedKey::Control, KeyLocation::Right) => Some(Key::RightCtrl),
        (NamedKey::Shift, KeyLocation::Left) => Some(Key::LeftShift),
        (NamedKey::Shift, KeyLocation::Right) => Some(Key::RightShift),
        (NamedKey::Alt, KeyLocation::Left) => Some(Key::LeftAlt),
        (NamedKey::Alt, KeyLocation::Right) => Some(Key::RightAlt),
        (NamedKey::Super, KeyLocation::Left) => Some(Key::LeftSuper),
        (NamedKey::Super, KeyLocation::Right) => Some(Key::RightSuper),
        (NamedKey::ContextMenu, _) => Some(Key::Menu),
        (NamedKey::F1, _) => Some(Key::F1),
        (NamedKey::F2, _) => Some(Key::F2),
        (NamedKey::F3, _) => Some(Key::F3),
        (NamedKey::F4, _) => Some(Key::F4),
        (NamedKey::F5, _) => Some(Key::F5),
        (NamedKey::F6, _) => Some(Key::F6),
        (NamedKey::F7, _) => Some(Key::F7),
        (NamedKey::F8, _) => Some(Key::F8),
        (NamedKey::F9, _) => Some(Key::F9),
        (NamedKey::F10, _) => Some(Key::F10),
        (NamedKey::F11, _) => Some(Key::F11),
        (NamedKey::F12, _) => Some(Key::F12),
        (NamedKey::CapsLock, _) => Some(Key::CapsLock),
        (NamedKey::ScrollLock, _) => Some(Key::ScrollLock),
        (NamedKey::NumLock, _) => Some(Key::NumLock),
        (NamedKey::PrintScreen, _) => Some(Key::PrintScreen),
        (NamedKey::Pause, _) => Some(Key::Pause),
        _ => None,
    }
}

fn character_to_imgui_key(c: char, location: KeyLocation) -> (r: Option<Key>)
    ensures
        r == character_key_translation(c, location),
{
    match (c, location) {
        ('0', KeyLocation::Standard) => Some(Key::Alpha0),
        ('1', KeyLocation::Standard) => Some(Key::Alpha1),
        ('2', KeyLocation::Standard) => Some(Key::Alpha2),
        ('3', KeyLocation::Standard) => Some(Key::Alpha3),
        ('4', KeyLocation::Standard) => Some(Key::Alpha4),
        ('5', KeyLocation::Standard) => Some(Key::Alpha5),
        ('6', KeyLocation::Standard) => Some(Key::Alpha6),
        ('7', KeyLocation::Standard) => Some(Key::Alpha7),
        ('8', KeyLocation::Standard) => Some(Key::Alpha8),
        ('9', KeyLocation::Standard) => Some(Key::Alpha9),
        ('0', KeyLocation::Numpad) => Some(Key::Keypad0),
        ('1', KeyLocation::Numpad) => Some(Key::Keypad1),
        ('2', KeyLocation::Numpad) => Some(Key::Keypad2),
        ('3', KeyLocation::Numpad) => Some(Key::Keypad3),
        ('4', KeyLocation::Numpad) => Some(Key::Keypad4),
        ('5', KeyLocation::Numpad) => Some(Key::Keypad5),
        ('6', KeyLocation::Numpad) => Some(Key::Keypad6),
        ('7', KeyLocation::Numpad) => Some(Key::Keypad7),
        ('8', KeyLocation::Numpad) => Some(Key::Keypad8),
        ('9', KeyLocation::Numpad) => Some(Key::Keypad9),
        ('a', _) => Some(Key::A),
        ('b', _) => Some(Key::B),
        ('c', _) => Some(Key::C),
        ('d', _) => Some(Key::D),
        ('e', _) => Some(Key::E),
        ('f', _) => Some(Key::F),
        ('g', _) => Some(Key::G),
        ('h', _) => Some(Key::H),
        ('i', _) => Some(Key::I),
        ('j', _) => Some(Key::J),
        ('k', _) => Some(Key::K),
        ('l', _) => Some(Key::L),
        ('m', _) => Some(Key::M),
        ('n', _) => Some(Key::N),
        ('o', _) => Some(Key::O),
        ('p', _) => Some(Key::P),
        ('q', _) => Some(Key::Q),
        ('r', _) => Some(Key::R),
        ('s', _) => Some(Key::S),
        ('t', _) => Some(Key::T),
        ('u', _) => Some(Key::U),
        ('v', _) => Some(Key::V),
        ('w', _) => Some(Key::W),
        ('x', _) => Some(Key::X),
        ('y', _) => Some(Key::Y),
        ('z', _) => Some(Key::Z),
        ('\'', _) => Some(Key::Apostrophe),
        (',', KeyLocation::Standard) => Some(Key::Comma),
        ('-', KeyLocation::Standard) => Some(Key::Minus),
        ('-', KeyLocation::Numpad) => Some(Key::KeypadSubtract),
        ('.', KeyLocation::Standard) => Some(Key::Period),
        ('.', KeyLocation::Numpad) => Some(Key::KeypadDecimal),
        ('/', KeyLocation::Standard) => Some(Key::Slash),
        ('/', KeyLocation::Numpad) => Some(Key::KeypadDivide),
        (';', _) => Some(Key::Semicolon),
        ('=', KeyLocation::Standard) => Some(Key::Equal),
        ('=', KeyLocation::Numpad) => Some(Key::KeypadEqual),
        ('[', _) => Some(Key::LeftBracket),
        ('\\', _) => Some(Key::Backslash),
        (']', _) => Some(Key::RightBracket),
        ('`', _) => Some(Key::GraveAccent),
        ('*', KeyLocation::Numpad) => Some(Key::KeypadMultiply),
        ('+', KeyLocation::Numpad) => Some(Key::KeypadAdd),
        _ => None,
    }
}

/// Translates a logical key at a location into the ImGui key it stands for, if any.
pub fn to_imgui_key(key: &LogicalKey, location: KeyLocation) -> (r: Option<Key>)
    ensures
        r == key_translation(key@, location),
        r is Some ==> key_origin(r->0) == key@,
        r is Some && key_location_class(r->0) is Some ==> key_location_class(r->0) == Some(
            location,
        ),
{
    proof {
        if key_translation(key@, location) is Some {
            lemma_translation_has_origin(key@, location);
        }
    }
    match key {
        LogicalKey::Named(n) => named_to_imgui_key(*n, location),
        LogicalKey::Character(text) => {
            let s: &str = text.as_str();
            if s.unicode_len() == 1 {
                character_to_imgui_key(s.get_char(0), location)
            } else {
                None
            }
        },
        LogicalKey::Unidentified => None,
        LogicalKey::Dead(_) => None,
    }
}

} // verus!
