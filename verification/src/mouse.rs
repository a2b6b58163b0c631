//! Translation of pointer buttons reported by the windowing system into Dear ImGui buttons.
use vstd::prelude::*;

verus! {

/// A pointer button as the windowing system reports it.
#[derive(Clone, Copy, Debug, PartialEq, Eq, Structural)]
pub enum WinitMouseButton {
    Left,
    Right,
    Middle,
    Back,
    Forward,
    /// Any other button, by its number.
    Other(u16),
}

/// The mouse buttons that Dear ImGui tracks.
#[derive(Clone, Copy, Debug, PartialEq, Eq, Structural)]
pub enum MouseButton {
    Left,
    Right,
    Middle,
    Extra1,
    Extra2,
}

/// The ImGui button of a pointer button.
///
/// The three main buttons translate by name or by their numbers 0, 1 and 2; the
/// numbers 3 and 4 are the two extra buttons. `Back`, `Forward` and every other
/// number have no ImGui button.
pub open spec fn button_translation(button: WinitMouseButton) -> Option<MouseButton> {
    match button {
        WinitMouseButton::Left => Some(MouseButton::Left),
        WinitMouseButton::Right => Some(MouseButton::Right),
        WinitMouseButton::Middle => Some(MouseButton::Middle),
        WinitMouseButton::Other(n) => if n == 0 {
            Some(MouseButton::Left)
        } else if n == 1 {
            Some(MouseButton::Right)
        } else if n == 2 {
            Some(MouseButton::Middle)
        } else if n == 3 {
            Some(MouseButton::Extra1)
        } else if n == 4 {
            Some(MouseButton::Extra2)
        } else {
            None
        },
        _ => None,
    }
}

/// Translates a pointer button into the ImGui button it stands for, if any.
pub fn to_imgui_mouse_button(button: WinitMouseButton) -> (r: Option<MouseButton>)
    ensures
        r == button_translation(button),
        r is Some ==> imgui_button_index(r->0) == button_number(button),
        0 <= button_number(button) <= 4 ==> r is Some,
{
    match button {
        WinitMouseButton::Left | WinitMouseButton::Other(0) => Some(MouseButton::Left),
        WinitMouseButton::Right | WinitMouseButton::Other(1) => Some(MouseButton::Right),
        WinitMouseButton::Middle | WinitMouseButton::Other(2) => Some(MouseButton::Middle),
        WinitMouseButton::Other(3) => Some(MouseButton::Extra1),
        WinitMouseButton::Other(4) => Some(MouseButton::Extra2),
        _ => None,
    }
}

/// A button reported by its number translates exactly as the button of that name:
/// numbers 0, 1 and 2 are the left, right and middle buttons.
pub proof fn lemma_numbered_buttons_agree_with_named()
    ensures
        button_translation(WinitMouseButton::Other(0)) == button_translation(WinitMouseButton::Left),
        button_translation(WinitMouseButton::Other(1)) == button_translation(WinitMouseButton::Right),
        button_translation(WinitMouseButton::Other(2)) == button_translation(WinitMouseButton::Middle),
{
}

/// Every ImGui button is the translation of some pointer button, and two pointer
/// buttons translate to the same ImGui button only when they are a named button and
/// its number.
pub proof fn lemma_button_translation_onto_and_merges_only_aliases(
    a: WinitMouseButton,
    b: WinitMouseButton,
    m: MouseButton,
)
    ensures
        exists|w: WinitMouseButton| button_translation(w) == Some(m),
        button_translation(a) is Some && button_translation(a) == button_translation(b) ==> (a == b
            || button_number(a) == button_number(b)),
{
    match m {
        MouseButton::Left => assert(button_translation(WinitMouseButton::Left) == Some(m)),
        MouseButton::Right => assert(button_translation(WinitMouseButton::Right) == Some(m)),
        MouseButton::Middle => assert(button_translation(WinitMouseButton::Middle) == Some(m)),
        MouseButton::Extra1 => assert(button_translation(WinitMouseButton::Other(3)) == Some(m)),
        MouseButton::Extra2 => assert(button_translation(WinitMouseButton::Other(4)) == Some(m)),
    }
}

/// The index Dear ImGui gives a mouse button: left 0, right 1, middle 2, and the
/// two extra buttons 3 and 4.
pub open spec fn imgui_button_index(button: MouseButton) -> int {
    match button {
        MouseButton::Left => 0,
        MouseButton::Right => 1,
        MouseButton::Middle => 2,
        MouseButton::Extra1 => 3,
        MouseButton::Extra2 => 4,
    }
}

/// A pointer button reaches ImGui as the button with the same number, and every
/// button numbered 0 to 4 reaches it.
pub proof fn lemma_button_keeps_number(button: WinitMouseButton)
    ensures
        button_translation(button) is Some ==> imgui_button_index(button_translation(button)->0)
            == button_number(button),
        0 <= button_number(button) <= 4 ==> button_translation(button) is Some,
{
}

/// The number of a pointer button: the named main buttons are 0, 1 and 2.
pub open spec fn button_number(button: WinitMouseButton) -> int {
    match button {
        WinitMouseButton::Left => 0,
        WinitMouseButton::Right => 1,
        WinitMouseButton::Middle => 2,
        WinitMouseButton::Other(n) => n as int,
        WinitMouseButton::Back => -1,
        WinitMouseButton::Forward => -2,
    }
}

} // verus!
