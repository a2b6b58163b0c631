use imgui_winit_support::cursor::{
    same_settings, to_winit_cursor, CursorCommand, CursorIcon, CursorSettings, MouseCursor,
};
use imgui_winit_support::events::{translate_window_input, IoEvent, WindowInput};
use imgui_winit_support::hidpi::{ActiveHiDpiMode, ScaleFactorUpdate};
use imgui_winit_support::keys::{to_imgui_key, Key, KeyLocation, LogicalKey, NamedKey};
use imgui_winit_support::mouse::{to_imgui_mouse_button, MouseButton, WinitMouseButton};
use imgui_winit_support::platform::PlatformState;

fn ch(s: &str) -> LogicalKey {
    LogicalKey::Character(s.to_string())
}

#[test]
fn named_keys_translate_in_any_location() {
    for loc in [KeyLocation::Standard, KeyLocation::Left, KeyLocation::Right, KeyLocation::Numpad] {
        assert_eq!(to_imgui_key(&LogicalKey::Named(NamedKey::Tab), loc), Some(Key::Tab));
        assert_eq!(to_imgui_key(&LogicalKey::Named(NamedKey::ArrowLeft), loc), Some(Key::LeftArrow));
        assert_eq!(to_imgui_key(&LogicalKey::Named(NamedKey::ContextMenu), loc), Some(Key::Menu));
        assert_eq!(to_imgui_key(&LogicalKey::Named(NamedKey::F12), loc), Some(Key::F12));
        assert_eq!(to_imgui_key(&LogicalKey::Named(NamedKey::Pause), loc), Some(Key::Pause));
        assert_eq!(to_imgui_key(&LogicalKey::Named(NamedKey::Other), loc), None);
    }
}

#[test]
fn enter_tells_main_block_from_keypad() {
    let enter = LogicalKey::Named(NamedKey::Enter);
    assert_eq!(to_imgui_key(&enter, KeyLocation::Standard), Some(Key::Enter));
    assert_eq!(to_imgui_key(&enter, KeyLocation::Numpad), Some(Key::KeypadEnter));
    assert_eq!(to_imgui_key(&enter, KeyLocation::Left), None);
    assert_eq!(to_imgui_key(&enter, KeyLocation::Right), None);
}

#[test]
fn modifiers_are_sided() {
    let ctrl = LogicalKey::Named(NamedKey::Control);
    assert_eq!(to_imgui_key(&ctrl, KeyLocation::Left), Some(Key::LeftCtrl));
    assert_eq!(to_imgui_key(&ctrl, KeyLocation::Right), Some(Key::RightCtrl));
    assert_eq!(to_imgui_key(&ctrl, KeyLocation::Standard), None);
    assert_eq!(to_imgui_key(&ctrl, KeyLocation::Numpad), None);
    assert_eq!(to_imgui_key(&LogicalKey::Named(NamedKey::Shift), KeyLocation::Right), Some(Key::RightShift));
    assert_eq!(to_imgui_key(&LogicalKey::Named(NamedKey::Alt), KeyLocation::Left), Some(Key::LeftAlt));
    assert_eq!(to_imgui_key(&LogicalKey::Named(NamedKey::Super), KeyLocation::Right), Some(Key::RightSuper));
}

#[test]
fn digits_tell_main_block_from_keypad() {
    assert_eq!(to_imgui_key(&ch("0"), KeyLocation::Standard), Some(Key::Alpha0));
    assert_eq!(to_imgui_key(&ch("7"), KeyLocation::Standard), Some(Key::Alpha7));
    assert_eq!(to_imgui_key(&ch("0"), KeyLocation::Numpad), Some(Key::Keypad0));
    assert_eq!(to_imgui_key(&ch("9"), KeyLocation::Numpad), Some(Key::Keypad9));
    assert_eq!(to_imgui_key(&ch("5"), KeyLocation::Left), None);
}

#[test]
fn letters_translate_in_lower_case_only() {
    assert_eq!(to_imgui_key(&ch("a"), KeyLocation::Standard), Some(Key::A));
    assert_eq!(to_imgui_key(&ch("z"), KeyLocation::Numpad), Some(Key::Z));
    assert_eq!(to_imgui_key(&ch("q"), KeyLocation::Left), Some(Key::Q));
    assert_eq!(to_imgui_key(&ch("A"), KeyLocation::Standard), None);
}

#[test]
fn punctuation_translates_by_location() {
    assert_eq!(to_imgui_key(&ch("-"), KeyLocation::Standard), Some(Key::Minus));
    assert_eq!(to_imgui_key(&ch("-"), KeyLocation::Numpad), Some(Key::KeypadSubtract));
    assert_eq!(to_imgui_key(&ch("."), KeyLocation::Numpad), Some(Key::KeypadDecimal));
    assert_eq!(to_imgui_key(&ch("/"), KeyLocation::Numpad), Some(Key::KeypadDivide));
    assert_eq!(to_imgui_key(&ch("="), KeyLocation::Numpad), Some(Key::KeypadEqual));
    assert_eq!(to_imgui_key(&ch(","), KeyLocation::Standard), Some(Key::Comma));
    assert_eq!(to_imgui_key(&ch(","), KeyLocation::Numpad), None);
    assert_eq!(to_imgui_key(&ch("*"), KeyLocation::Numpad), Some(Key::KeypadMultiply));
    assert_eq!(to_imgui_key(&ch("*"), KeyLocation::Standard), None);
    assert_eq!(to_imgui_key(&ch("+"), KeyLocation::Numpad), Some(Key::KeypadAdd));
    assert_eq!(to_imgui_key(&ch("'"), KeyLocation::Right), Some(Key::Apostrophe));
    assert_eq!(to_imgui_key(&ch("\\"), KeyLocation::Standard), Some(Key::Backslash));
    assert_eq!(to_imgui_key(&ch("`"), KeyLocation::Standard), Some(Key::GraveAccent));
    assert_eq!(to_imgui_key(&ch("["), KeyLocation::Standard), Some(Key::LeftBracket));
    assert_eq!(to_imgui_key(&ch("]"), KeyLocation::Standard), Some(Key::RightBracket));
    assert_eq!(to_imgui_key(&ch(";"), KeyLocation::Standard), Some(Key::Semicolon));
}

#[test]
fn text_of_other_lengths_and_other_keys_do_not_translate() {
    assert_eq!(to_imgui_key(&ch(""), KeyLocation::Standard), None);
    assert_eq!(to_imgui_key(&ch("ab"), KeyLocation::Standard), None);
    assert_eq!(to_imgui_key(&ch("é"), KeyLocation::Standard), None);
    assert_eq!(to_imgui_key(&LogicalKey::Unidentified, KeyLocation::Standard), None);
    assert_eq!(to_imgui_key(&LogicalKey::Dead(Some('a')), KeyLocation::Standard), None);
}

#[test]
fn distinct_keys_never_merge() {
    // Keys that share a location-dependent character keep their ImGui keys apart.
    let main = to_imgui_key(&ch("-"), KeyLocation::Standard);
    let keypad = to_imgui_key(&ch("-"), KeyLocation::Numpad);
    assert_ne!(main, keypad);
    assert_ne!(to_imgui_key(&ch("1"), KeyLocation::Standard), to_imgui_key(&ch("2"), KeyLocation::Standard));
}

#[test]
fn mouse_buttons_translate_by_name_and_number() {
    assert_eq!(to_imgui_mouse_button(WinitMouseButton::Left), Some(MouseButton::Left));
    assert_eq!(to_imgui_mouse_button(WinitMouseButton::Right), Some(MouseButton::Right));
    assert_eq!(to_imgui_mouse_button(WinitMouseButton::Middle), Some(MouseButton::Middle));
    assert_eq!(to_imgui_mouse_button(WinitMouseButton::Other(0)), Some(MouseButton::Left));
    assert_eq!(to_imgui_mouse_button(WinitMouseButton::Other(1)), Some(MouseButton::Right));
    assert_eq!(to_imgui_mouse_button(WinitMouseButton::Other(2)), Some(MouseButton::Middle));
    assert_eq!(to_imgui_mouse_button(WinitMouseButton::Other(3)), Some(MouseButton::Extra1));
    assert_eq!(to_imgui_mouse_button(WinitMouseButton::Other(4)), Some(MouseButton::Extra2));
    assert_eq!(to_imgui_mouse_button(WinitMouseButton::Other(5)), None);
    assert_eq!(to_imgui_mouse_button(WinitMouseButton::Back), None);
    assert_eq!(to_imgui_mouse_button(WinitMouseButton::Forward), None);
}

#[test]
fn cursors_map_to_distinct_icons() {
    let all = [
        MouseCursor::Arrow,
        MouseCursor::TextInput,
        MouseCursor::ResizeAll,
        MouseCursor::ResizeNS,
        MouseCursor::ResizeEW,
        MouseCursor::ResizeNESW,
        MouseCursor::ResizeNWSE,
        MouseCursor::Hand,
        MouseCursor::NotAllowed,
    ];
    assert_eq!(to_winit_cursor(MouseCursor::Arrow), CursorIcon::Default);
    assert_eq!(to_winit_cursor(MouseCursor::TextInput), CursorIcon::Text);
    assert_eq!(to_winit_cursor(MouseCursor::ResizeAll), CursorIcon::Move);
    assert_eq!(to_winit_cursor(MouseCursor::Hand), CursorIcon::Grab);
    for a in all {
        for b in all {
            assert_eq!(a == b, to_winit_cursor(a) == to_winit_cursor(b));
        }
    }
}

#[test]
fn cursor_command_shows_or_hides() {
    let shown = CursorSettings { cursor: Some(MouseCursor::TextInput), draw_cursor: false };
    assert_eq!(shown.command(), CursorCommand::Show(CursorIcon::Text));
    let drawn = CursorSettings { cursor: Some(MouseCursor::TextInput), draw_cursor: true };
    assert_eq!(drawn.command(), CursorCommand::Hide);
    let none = CursorSettings { cursor: None, draw_cursor: false };
    assert_eq!(none.command(), CursorCommand::Hide);
    assert!(same_settings(&Some(shown), &Some(shown)));
    assert!(!same_settings(&Some(shown), &Some(drawn)));
    assert!(!same_settings(&None, &Some(none)));
    assert!(same_settings(&None, &None));
}

#[test]
fn new_platform_starts_in_default_mode() {
    let p = PlatformState::new();
    assert_eq!(p.hidpi_mode(), ActiveHiDpiMode::Default);
    assert_eq!(p.cursor_cache, None);
}

#[test]
fn prepare_render_sends_only_changes() {
    let mut p = PlatformState::new();
    assert_eq!(
        p.prepare_render(false, Some(MouseCursor::Arrow), false),
        Some(CursorCommand::Show(CursorIcon::Default))
    );
    assert_eq!(p.prepare_render(false, Some(MouseCursor::Arrow), false), None);
    assert_eq!(
        p.prepare_render(false, Some(MouseCursor::Arrow), true),
        Some(CursorCommand::Hide)
    );
    assert_eq!(p.cursor_cache, Some(CursorSettings { cursor: Some(MouseCursor::Arrow), draw_cursor: true }));
    assert_eq!(p.prepare_render(false, Some(MouseCursor::Arrow), true), None);
}

#[test]
fn prepare_render_respects_no_cursor_change() {
    let mut p = PlatformState::new();
    assert_eq!(p.prepare_render(true, Some(MouseCursor::Hand), false), None);
    assert_eq!(p.cursor_cache, None);
    p.prepare_render(false, Some(MouseCursor::Hand), false);
    assert_eq!(p.prepare_render(true, None, false), None);
    assert_eq!(p.cursor_cache, Some(CursorSettings { cursor: Some(MouseCursor::Hand), draw_cursor: false }));
}

#[test]
fn set_hidpi_mode_keeps_cursor_cache() {
    let mut p = PlatformState::new();
    p.prepare_render(false, None, false);
    p.set_hidpi_mode(ActiveHiDpiMode::Locked);
    assert_eq!(p.hidpi_mode(), ActiveHiDpiMode::Locked);
    assert_eq!(p.cursor_cache, Some(CursorSettings { cursor: None, draw_cursor: false }));
}

#[test]
fn hidpi_mode_decisions() {
    assert!(!ActiveHiDpiMode::Default.rescales_coordinates());
    assert!(ActiveHiDpiMode::Rounded.rescales_coordinates());
    assert!(ActiveHiDpiMode::Locked.rescales_coordinates());
    assert_eq!(ActiveHiDpiMode::Default.scale_factor_update(), ScaleFactorUpdate::Adopt);
    assert_eq!(ActiveHiDpiMode::Rounded.scale_factor_update(), ScaleFactorUpdate::AdoptRounded);
    assert_eq!(ActiveHiDpiMode::Locked.scale_factor_update(), ScaleFactorUpdate::Ignore);
}

#[test]
fn modifier_changes_report_all_four() {
    let events = translate_window_input(&WindowInput::ModifiersChanged {
        shift: true,
        control: false,
        alt: true,
        super_key: false,
    });
    assert_eq!(
        events,
        vec![
            IoEvent::Key(Key::ModShift, true),
            IoEvent::Key(Key::ModCtrl, false),
            IoEvent::Key(Key::ModAlt, true),
            IoEvent::Key(Key::ModSuper, false),
        ]
    );
}

#[test]
fn key_press_types_text_then_reports_key() {
    let events = translate_window_input(&WindowInput::KeyboardInput {
        pressed: true,
        text: Some("a".to_string()),
        logical_key: ch("a"),
        location: KeyLocation::Standard,
    });
    assert_eq!(events, vec![IoEvent::Character('a'), IoEvent::Key(Key::A, true)]);
}

#[test]
fn key_release_types_nothing() {
    let events = translate_window_input(&WindowInput::KeyboardInput {
        pressed: false,
        text: Some("a".to_string()),
        logical_key: ch("a"),
        location: KeyLocation::Standard,
    });
    assert_eq!(events, vec![IoEvent::Key(Key::A, false)]);
}

#[test]
fn delete_character_is_not_typed() {
    let events = translate_window_input(&WindowInput::KeyboardInput {
        pressed: true,
        text: Some("x\u{7f}é".to_string()),
        logical_key: LogicalKey::Named(NamedKey::Delete),
        location: KeyLocation::Standard,
    });
    assert_eq!(
        events,
        vec![IoEvent::Character('x'), IoEvent::Character('é'), IoEvent::Key(Key::Delete, true)]
    );
}

#[test]
fn untranslatable_key_reports_only_text() {
    let events = translate_window_input(&WindowInput::KeyboardInput {
        pressed: true,
        text: Some("A".to_string()),
        logical_key: ch("A"),
        location: KeyLocation::Standard,
    });
    assert_eq!(events, vec![IoEvent::Character('A')]);
    let none = translate_window_input(&WindowInput::KeyboardInput {
        pressed: true,
        text: None,
        logical_key: LogicalKey::Unidentified,
        location: KeyLocation::Standard,
    });
    assert_eq!(none, vec![]);
}

#[test]
fn mouse_input_reports_known_buttons() {
    let events = translate_window_input(&WindowInput::MouseInput {
        pressed: true,
        button: WinitMouseButton::Other(3),
    });
    assert_eq!(events, vec![IoEvent::MouseButton(MouseButton::Extra1, true)]);
    let released = translate_window_input(&WindowInput::MouseInput {
        pressed: false,
        button: WinitMouseButton::Left,
    });
    assert_eq!(released, vec![IoEvent::MouseButton(MouseButton::Left, false)]);
    let back = translate_window_input(&WindowInput::MouseInput {
        pressed: true,
        button: WinitMouseButton::Back,
    });
    assert_eq!(back, vec![]);
}

#[test]
fn only_focus_loss_is_reported() {
    assert_eq!(translate_window_input(&WindowInput::Focused(false)), vec![IoEvent::FocusLost]);
    assert_eq!(translate_window_input(&WindowInput::Focused(true)), vec![]);
}
