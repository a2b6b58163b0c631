//! Translation of discrete window events into the input events Dear ImGui receives.
use vstd::prelude::*;
use crate::keys::{Key, KeyLocation, LogicalKey, LogicalKeyView, key_translation, to_imgui_key};
use crate::mouse::{
    MouseButton, WinitMouseButton, button_number, button_translation, imgui_button_index,
    to_imgui_mouse_button,
};

verus! {

/// The delete control character, which is never passed on as typed text.
pub const DELETE_CHARACTER: char = '\u{7f}';

/// A discrete window event, as the windowing system reports it.
pub enum WindowInput {
    /// The state of the modifier keys changed; each flag tells whether it is held.
    ModifiersChanged { shift: bool, control: bool, alt: bool, super_key: bool },
    /// A key was pressed or released.
    KeyboardInput {
        pressed: bool,
        /// The text the press produced, if any.
        text: Option<String>,
        logical_key: LogicalKey,
        location: KeyLocation,
    },
    /// A pointer button was pressed or released.
    MouseInput { pressed: bool, button: WinitMouseButton },
    /// The window gained (`true`) or lost (`false`) the focus.
    Focused(bool),
}

/// The mathematical model of a [`WindowInput`].
pub enum WindowInputView {
    ModifiersChanged { shift: bool, control: bool, alt: bool, super_key: bool },
    KeyboardInput {
        pressed: bool,
        text: Option<Seq<char>>,
        logical_key: LogicalKeyView,
        location: KeyLocation,
    },
    MouseInput { pressed: bool, button: WinitMouseButton },
    Focused(bool),
}

impl View for WindowInput {
    type V = WindowInputView;

    open spec fn view(&self) -> WindowInputView {
        match self {
            WindowInput::ModifiersChanged { shift, control, alt, super_key } => {
                WindowInputView::ModifiersChanged {
                    shift: *shift,
                    control: *control,
                    alt: *alt,
                    super_key: *super_key,
                }
            },
            WindowInput::KeyboardInput { pressed, text, logical_key, location } => {
                WindowInputView::KeyboardInput {
                    pressed: *pressed,
                    text: match text {
                        Some(t) => Some(t@),
                        None => None,
                    },
                    logical_key: logical_key@,
                    location: *location,
                }
            },
            WindowInput::MouseInput { pressed, button } => WindowInputView::MouseInput {
                pressed: *pressed,
                button: *button,
            },
            WindowInput::Focused(f) => WindowInputView::Focused(*f),
        }
    }
}

/// An input event handed to Dear ImGui.
#[derive(Clone, Copy, Debug, PartialEq, Eq, Structural)]
pub enum IoEvent {
    /// A key went down (`true`) or up (`false`).
    Key(Key, bool),
    /// A character was typed.
    Character(char),
    /// A mouse button went down (`true`) or up (`false`).
    MouseButton(MouseButton, bool),
    /// The application lost the focus.
    FocusLost,
}

/// The character event of a typed character, unless it is the delete character.
pub open spec fn typed(c: char) -> Option<IoEvent> {
    if c != DELETE_CHARACTER {
        Some(IoEvent::Character(c))
    } else {
        None
    }
}

/// The character events of typed text: one per character, in order, leaving out the
/// delete character.
pub open spec fn typed_text(text: Seq<char>) -> Seq<IoEvent> {
    text.filter_map(|c: char| typed(c))
}

/// The events ImGui receives for a window event.
///
/// - A modifier change reports the shift, control, alt and super modifiers, in that
///   order.
/// - A key press first types its text, if it has any; a release types nothing. Then
///   the key goes down or up, if it has an ImGui key.
/// - A pointer button goes down or up, if it has an ImGui button.
/// - Losing the focus is reported; gaining it is not.
pub open spec fn window_input_events(input: WindowInputView) -> Seq<IoEvent> {
    match input {
        WindowInputView::ModifiersChanged { shift, control, alt, super_key } => seq![
            IoEvent::Key(Key::ModShift, shift),
            IoEvent::Key(Key::ModCtrl, control),
            IoEvent::Key(Key::ModAlt, alt),
            IoEvent::Key(Key::ModSuper, super_key),
        ],
        WindowInputView::KeyboardInput { pressed, text, logical_key, location } => {
            let characters = match text {
                Some(t) => if pressed {
                    typed_text(t)
                } else {
                    Seq::empty()
                },
                None => Seq::empty(),
            };
            let key_events = match key_translation(logical_key, location) {
                Some(k) => seq![IoEvent::Key(k, pressed)],
                None => Seq::empty(),
            };
            characters + key_events
        },
        WindowInputView::MouseInput { pressed, button } => match button_translation(button) {
            Some(b) => seq![IoEvent::MouseButton(b, pressed)],
            None => Seq::empty(),
        },
        WindowInputView::Focused(focused) => if focused {
            Seq::empty()
        } else {
            seq![IoEvent::FocusLost]
        },
    }
}

/// The modifier flag that a modifier-state key reports, read off the key's name:
/// `ModShift` the shift flag, `ModCtrl` the control flag, `ModAlt` the alt flag,
/// `ModSuper` the super flag; other keys report none.
pub open spec fn modifier_flag(k: Key, shift: bool, control: bool, alt: bool, super_key: bool) -> Option<bool> {
    match k {
        Key::ModShift => Some(shift),
        Key::ModCtrl => Some(control),
        Key::ModAlt => Some(alt),
        Key::ModSuper => Some(super_key),
        _ => None,
    }
}

/// The key of a key event.
pub open spec fn event_key(e: IoEvent) -> Option<Key> {
    match e {
        IoEvent::Key(k, _) => Some(k),
        _ => None,
    }
}

/// A modifier change reports each of the four modifiers exactly once, each with its
/// own flag: the event for `ModShift` carries whether shift is held, the one for
/// `ModCtrl` whether control is, and so on.
pub proof fn lemma_modifier_change_reports_each_flag(
    shift: bool,
    control: bool,
    alt: bool,
    super_key: bool,
)
    ensures
        window_input_events(
            WindowInputView::ModifiersChanged { shift, control, alt, super_key },
        ).len() == 4,
        forall|i: int|
            0 <= i < 4 ==> {
                let e = #[trigger] window_input_events(
                    WindowInputView::ModifiersChanged { shift, control, alt, super_key },
                )[i];
                e matches IoEvent::Key(k, down) && modifier_flag(k, shift, control, alt, super_key)
                    == Some(down)
            },
        forall|i: int, j: int|
            0 <= i < j < 4 ==> event_key(
                #[trigger] window_input_events(
                    WindowInputView::ModifiersChanged { shift, control, alt, super_key },
                )[i],
            ) != event_key(
                #[trigger] window_input_events(
                    WindowInputView::ModifiersChanged { shift, control, alt, super_key },
                )[j],
            ),
{
}

/// One character event for each character of `text`, in order.
pub open spec fn character_events(text: Seq<char>) -> Seq<IoEvent> {
    text.map_values(|c: char| character_event(c))
}

/// The character event of a typed character.
pub open spec fn character_event(c: char) -> IoEvent {
    IoEvent::Character(c)
}

/// Text without the delete character is typed in full: one character event per
/// character, in order.
pub proof fn lemma_typed_text_keeps_plain_text(text: Seq<char>)
    requires
        !text.contains(DELETE_CHARACTER),
    ensures
        typed_text(text) == character_events(text),
    decreases text.len(),
{
    if text.len() > 0 {
        let rest = text.drop_last();
        assert(!rest.contains(DELETE_CHARACTER)) by {
            if rest.contains(DELETE_CHARACTER) {
                let k = choose|k: int| 0 <= k < rest.len() && rest[k] == DELETE_CHARACTER;
                assert(text[k] == DELETE_CHARACTER);
            }
        }
        lemma_typed_text_keeps_plain_text(rest);
        assert(text[text.len() - 1] != DELETE_CHARACTER);
        assert(typed_text(text) == typed_text(rest) + seq![IoEvent::Character(text.last())]);
        let pushed = character_events(rest).push(IoEvent::Character(text.last()));
        assert forall|i: int| 0 <= i < text.len() implies #[trigger] character_events(text)[i]
            == pushed[i] by {
            if i < rest.len() {
                assert(rest[i] == text[i]);
            }
        }
        assert(character_events(text) =~= pushed);
        assert(typed_text(text) =~= character_events(text));
    } else {
        assert(typed_text(text) =~= character_events(text));
    }
}

/// Every character event of typed text is a character of the text other than the
/// delete character, and there is never more than one per character.
pub proof fn lemma_typed_text_comes_from_text(text: Seq<char>)
    ensures
        typed_text(text).len() <= text.len(),
        forall|i: int|
            0 <= i < typed_text(text).len() ==> (#[trigger] typed_text(text)[i] matches IoEvent::Character(
                c,
            ) && c != DELETE_CHARACTER && text.contains(c)),
    decreases text.len(),
{
    if text.len() > 0 {
        let rest = text.drop_last();
        lemma_typed_text_comes_from_text(rest);
        assert forall|i: int| 0 <= i < typed_text(text).len() implies (#[trigger] typed_text(
            text,
        )[i] matches IoEvent::Character(c) && c != DELETE_CHARACTER && text.contains(c)) by {
            if i < typed_text(rest).len() {
                let c = typed_text(rest)[i]->Character_0;
                let k = choose|k: int| 0 <= k < rest.len() && rest[k] == c;
                assert(text[k] == c);
            } else {
                assert(text[text.len() - 1] == text.last());
            }
        }
    }
}

/// A key press or release: the key event, if the key has an ImGui key, comes last
/// and says whether the key went down; a release types nothing; a press types the
/// characters of its text (all of them, when the text has no delete character), and
/// nothing else comes out.
pub proof fn lemma_keyboard_input_events(
    pressed: bool,
    text: Option<Seq<char>>,
    logical_key: LogicalKeyView,
    location: KeyLocation,
)
    ensures
        ({
            let ev = window_input_events(
                WindowInputView::KeyboardInput { pressed, text, logical_key, location },
            );
            &&& key_translation(logical_key, location) is Some ==> ev.len() > 0 && ev.last()
                == IoEvent::Key(key_translation(logical_key, location)->0, pressed)
            &&& forall|i: int|
                0 <= i < ev.len() ==> (#[trigger] ev[i] matches IoEvent::Key(k, down) ==> (i
                    == ev.len() - 1 && down == pressed && Some(k) == key_translation(
                    logical_key,
                    location,
                )))
            &&& forall|i: int|
                0 <= i < ev.len() ==> (#[trigger] ev[i] matches IoEvent::Character(c) ==> (pressed
                    && text is Some && c != DELETE_CHARACTER && text->0.contains(c)))
            &&& forall|i: int|
                0 <= i < ev.len() ==> (#[trigger] ev[i] is Key || ev[i] is Character)
            &&& (pressed && text is Some && !text->0.contains(DELETE_CHARACTER)) ==> ev.take(
                text->0.len() as int,
            ) == character_events(text->0)
        }),
{
    let ev = window_input_events(
        WindowInputView::KeyboardInput { pressed, text, logical_key, location },
    );
    let chars = match text {
        Some(t) => if pressed {
            typed_text(t)
        } else {
            Seq::empty()
        },
        None => Seq::empty(),
    };
    if let Some(t) = text {
        lemma_typed_text_comes_from_text(t);
        if pressed && !t.contains(DELETE_CHARACTER) {
            lemma_typed_text_keeps_plain_text(t);
            assert(ev.take(t.len() as int) =~= chars);
        }
    }
    assert forall|i: int| 0 <= i < ev.len() implies (#[trigger] ev[i] matches IoEvent::Key(
        k,
        down,
    ) ==> (i == ev.len() - 1 && down == pressed && Some(k) == key_translation(
        logical_key,
        location,
    ))) by {
        if i < chars.len() {
            assert(ev[i] == chars[i]);
        }
    }
    assert forall|i: int| 0 <= i < ev.len() implies (#[trigger] ev[i] matches IoEvent::Character(
        c,
    ) ==> (pressed && text is Some && c != DELETE_CHARACTER && text->0.contains(c))) by {
        if i < chars.len() {
            assert(ev[i] == chars[i]);
        }
    }
    assert forall|i: int| 0 <= i < ev.len() implies (#[trigger] ev[i] is Key
        || ev[i] is Character) by {
        if i < chars.len() {
            assert(ev[i] == chars[i]);
        }
    }
}

/// A pointer button reports at most one event: the ImGui button with the same
/// number, going down or up as the pointer button did; buttons numbered 0 to 4
/// always report.
pub proof fn lemma_mouse_input_events(pressed: bool, button: WinitMouseButton)
    ensures
        ({
            let ev = window_input_events(WindowInputView::MouseInput { pressed, button });
            &&& ev.len() <= 1
            &&& 0 <= button_number(button) <= 4 ==> ev.len() == 1
            &&& ev.len() == 1 ==> (ev[0] matches IoEvent::MouseButton(m, down) && down == pressed
                && imgui_button_index(m) == button_number(button))
        }),
{
    crate::mouse::lemma_button_keeps_number(button);
}

/// Losing the focus reports exactly one focus-lost event; gaining it reports nothing.
pub proof fn lemma_focus_events(focused: bool)
    ensures
        window_input_events(WindowInputView::Focused(focused)).len() == (if focused {
            0int
        } else {
            1int
        }),
        !focused ==> window_input_events(WindowInputView::Focused(focused))[0]
            == IoEvent::FocusLost,
{
}

/// Appends the character events of `text` to `events`.
fn push_typed_text(events: &mut Vec<IoEvent>, text: &String)
    ensures
        final(events)@ == old(events)@ + typed_text(text@),
{
    let s: &str = text.as_str();
    let n: usize = s.unicode_len();
    let ghost start = events@;
    let mut i: usize = 0;
    while i < n
        invariant
            n == s@.len(),
            s@ == text@,
            0 <= i <= n,
            events@ == start + s@.take(i as int).filter_map(|c: char| typed(c)),
        decreases n - i,
    {
        let c = s.get_char(i);
        proof {
            s@.lemma_filter_map_take_succ(|c: char| typed(c), i as int);
        }
        if c != DELETE_CHARACTER {
            events.push(IoEvent::Character(c));
        }
        i = i + 1;
    }
    assert(s@.take(n as int) =~= s@);
}

/// Translates a discrete window event into the events ImGui receives, in order.
pub fn translate_window_input(input: &WindowInput) -> (r: Vec<IoEvent>)
    ensures
        r@ == window_input_events(input@),
{
    let mut events: Vec<IoEvent> = Vec::new();
    match input {
        WindowInput::ModifiersChanged { shift, control, alt, super_key } => {
            events.push(IoEvent::Key(Key::ModShift, *shift));
            events.push(IoEvent::Key(Key::ModCtrl, *control));
            events.push(IoEvent::Key(Key::ModAlt, *alt));
            events.push(IoEvent::Key(Key::ModSuper, *super_key));
        },
        WindowInput::KeyboardInput { pressed, text, logical_key, location } => {
            if *pressed {
                if let Some(txt) = text {
                    push_typed_text(&mut events, txt);
                }
            }
            if let Some(key) = to_imgui_key(logical_key, *location) {
                events.push(IoEvent::Key(key, *pressed));
            }
        },
        WindowInput::MouseInput { pressed, button } => {
            if let Some(mb) = to_imgui_mouse_button(*button) {
                events.push(IoEvent::MouseButton(mb, *pressed));
            }
        },
        WindowInput::Focused(newly_focused) => {
            if !*newly_focused {
                events.push(IoEvent::FocusLost);
            }
        },
    }
    events
}

} // verus!
