//! The mouse cursor that Dear ImGui asks for, and what the window is told to show.
use vstd::prelude::*;

verus! {

/// The mouse cursor shapes that Dear ImGui asks for.
#[derive(Clone, Copy, Debug, PartialEq, Eq, Structural)]
pub enum MouseCursor {
    Arrow,
    TextInput,
    ResizeAll,
    ResizeNS,
    ResizeEW,
    ResizeNESW,
    ResizeNWSE,
    Hand,
    NotAllowed,
}

/// The cursor icons of the windowing system that Dear ImGui cursors are shown with.
#[derive(Clone, Copy, Debug, PartialEq, Eq, Structural)]
pub enum CursorIcon {
    Default,
    Text,
    Move,
    NsResize,
    EwResize,
    NeswResize,
    NwseResize,
    Grab,
    NotAllowed,
}

/// The window icon that shows an ImGui cursor.
pub open spec fn icon_of(cursor: MouseCursor) -> CursorIcon {
    match cursor {
        MouseCursor::Arrow => CursorIcon::Default,
        MouseCursor::TextInput => CursorIcon::Text,
        MouseCursor::ResizeAll => CursorIcon::Move,
        MouseCursor::ResizeNS => CursorIcon::NsResize,
        MouseCursor::ResizeEW => CursorIcon::EwResize,
        MouseCursor::ResizeNESW => CursorIcon::NeswResize,
        MouseCursor::ResizeNWSE => CursorIcon::NwseResize,
        MouseCursor::Hand => CursorIcon::Grab,
        MouseCursor::NotAllowed => CursorIcon::NotAllowed,
    }
}

/// Translates an ImGui cursor into the window icon that shows it.
pub fn to_winit_cursor(cursor: MouseCursor) -> (r: CursorIcon)
    ensures
        r == icon_of(cursor),
        icon_shape(r) == cursor_shape(cursor),
{
    match cursor {
        MouseCursor::Arrow => CursorIcon::Default,
        MouseCursor::TextInput => CursorIcon::Text,
        MouseCursor::ResizeAll => CursorIcon::Move,
        MouseCursor::ResizeNS => CursorIcon::NsResize,
        MouseCursor::ResizeEW => CursorIcon::EwResize,
        MouseCursor::ResizeNESW => CursorIcon::NeswResize,
        MouseCursor::ResizeNWSE => CursorIcon::NwseResize,
        MouseCursor::Hand => CursorIcon::Grab,
        MouseCursor::NotAllowed => CursorIcon::NotAllowed,
    }
}

/// The shape a cursor or an icon depicts, shared by both vocabularies.
pub enum CursorShape {
    /// The ordinary pointer arrow.
    Pointer,
    /// The text-insertion bar.
    TextBar,
    /// Arrows in all four directions.
    AllDirections,
    /// A double arrow pointing up and down (north-south).
    NorthSouth,
    /// A double arrow pointing left and right (east-west).
    EastWest,
    /// A double arrow along the north-east to south-west diagonal.
    NorthEastSouthWest,
    /// A double arrow along the north-west to south-east diagonal.
    NorthWestSouthEast,
    /// A hand, for something that can be clicked or grabbed.
    Hand,
    /// A sign that the action is not allowed.
    Forbidden,
}

/// The shape an ImGui cursor asks for, read off its name.
pub open spec fn cursor_shape(c: MouseCursor) -> CursorShape {
    match c {
        MouseCursor::Arrow => CursorShape::Pointer,
        MouseCursor::TextInput => CursorShape::TextBar,
        MouseCursor::ResizeAll => CursorShape::AllDirections,
        MouseCursor::ResizeNS => CursorShape::NorthSouth,
        MouseCursor::ResizeEW => CursorShape::EastWest,
        MouseCursor::ResizeNESW => CursorShape::NorthEastSouthWest,
        MouseCursor::ResizeNWSE => CursorShape::NorthWestSouthEast,
        MouseCursor::Hand => CursorShape::Hand,
        MouseCursor::NotAllowed => CursorShape::Forbidden,
    }
}

/// The shape a window icon shows, read off its name.
pub open spec fn icon_shape(i: CursorIcon) -> CursorShape {
    match i {
        CursorIcon::Default => CursorShape::Pointer,
        CursorIcon::Text => CursorShape::TextBar,
        CursorIcon::Move => CursorShape::AllDirections,
        CursorIcon::NsResize => CursorShape::NorthSouth,
        CursorIcon::EwResize => CursorShape::EastWest,
        CursorIcon::NeswResize => CursorShape::NorthEastSouthWest,
        CursorIcon::NwseResize => CursorShape::NorthWestSouthEast,
        CursorIcon::Grab => CursorShape::Hand,
        CursorIcon::NotAllowed => CursorShape::Forbidden,
    }
}

/// Every ImGui cursor is shown with an icon of the same shape: resize arrows keep
/// their direction, the text cursor stays a text bar, and so on.
pub proof fn lemma_icon_keeps_shape(c: MouseCursor)
    ensures
        icon_shape(icon_of(c)) == cursor_shape(c),
{
}

/// Distinct ImGui cursors are shown with distinct window icons.
pub proof fn lemma_icon_of_is_injective(a: MouseCursor, b: MouseCursor)
    ensures
        icon_of(a) == icon_of(b) ==> a == b,
{
}

/// What Dear ImGui wants of the mouse cursor for a frame.
#[derive(Clone, Copy, Debug, PartialEq, Eq, Structural)]
pub struct CursorSettings {
    /// The cursor shape ImGui asks for; `None` when it wants no cursor at all.
    pub cursor: Option<MouseCursor>,
    /// Whether ImGui draws the cursor itself, in which case the window's is hidden.
    pub draw_cursor: bool,
}

/// What the window is told to do with its cursor.
#[derive(Clone, Copy, Debug, PartialEq, Eq, Structural)]
pub enum CursorCommand {
    /// Make the cursor visible, with this icon.
    Show(CursorIcon),
    /// Hide the cursor.
    Hide,
}

/// The command that puts settings into effect: the window shows the icon of the
/// cursor ImGui asks for, unless ImGui asks for none or draws the cursor itself, in
/// which case the window hides its cursor.
pub open spec fn command_for(settings: CursorSettings) -> CursorCommand {
    match settings.cursor {
        Some(c) => if !settings.draw_cursor {
            CursorCommand::Show(icon_of(c))
        } else {
            CursorCommand::Hide
        },
        None => CursorCommand::Hide,
    }
}

/// The window shows the cursor ImGui asks for, in its shape, whenever ImGui asks for
/// one and does not draw it itself; it hides its cursor exactly when ImGui asks for
/// none or draws it itself.
pub proof fn lemma_command_shows_wanted_cursor(settings: CursorSettings, c: MouseCursor)
    ensures
        command_for(CursorSettings { cursor: Some(c), draw_cursor: false }) == CursorCommand::Show(
            icon_of(c),
        ),
        command_for(settings) is Hide <==> (settings.cursor is None || settings.draw_cursor),
        command_for(settings) is Show ==> icon_shape(command_for(settings)->0) == cursor_shape(
            settings.cursor->0,
        ),
{
}

impl CursorSettings {
    /// The window command that puts these settings into effect.
    pub fn command(&self) -> (r: CursorCommand)
        ensures
            r == command_for(*self),
            r is Hide <==> (self.cursor is None || self.draw_cursor),
            r is Show ==> icon_shape(r->0) == cursor_shape(self.cursor->0),
    {
        match self.cursor {
            Some(mouse_cursor) if !self.draw_cursor => CursorCommand::Show(
                to_winit_cursor(mouse_cursor),
            ),
            _ => CursorCommand::Hide,
        }
    }
}

/// Whether two optional settings are the same.
pub fn same_settings(a: &Option<CursorSettings>, b: &Option<CursorSettings>) -> (r: bool)
    ensures
        r == (*a == *b),
{
    match (a, b) {
        (Some(x), Some(y)) => x.cursor == y.cursor && x.draw_cursor == y.draw_cursor,
        (None, None) => true,
        _ => false,
    }
}

} // verus!
