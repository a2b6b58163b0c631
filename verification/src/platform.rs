//! The state a platform keeps between frames, and what it decides from it.
use vstd::prelude::*;
use crate::cursor::{CursorCommand, CursorSettings, MouseCursor, command_for, same_settings};
use crate::hidpi::ActiveHiDpiMode;

verus! {

/// The state a platform keeps between frames: the DPI mode in effect and the
/// cursor settings last put into effect on the window.
#[derive(Debug)]
pub struct PlatformState {
    pub hidpi_mode: ActiveHiDpiMode,
    /// The cursor settings last put into effect, `None` before the first.
    pub cursor_cache: Option<CursorSettings>,
}

/// The cursor settings ImGui asks for in a frame.
pub open spec fn wanted_settings(cursor: Option<MouseCursor>, draw_cursor: bool) -> CursorSettings {
    CursorSettings { cursor, draw_cursor }
}

/// The cursor settings remembered after a frame's render preparation: those ImGui
/// asked for, unless ImGui may not change the cursor.
pub open spec fn next_cursor_cache(
    cache: Option<CursorSettings>,
    no_mouse_cursor_change: bool,
    wanted: CursorSettings,
) -> Option<CursorSettings> {
    if no_mouse_cursor_change {
        cache
    } else {
        Some(wanted)
    }
}

/// The command a frame's render preparation sends to the window: the one that puts
/// the wanted settings into effect, when ImGui may change the cursor and the
/// settings differ from those last put into effect.
pub open spec fn due_command(
    cache: Option<CursorSettings>,
    no_mouse_cursor_change: bool,
    wanted: CursorSettings,
) -> Option<CursorCommand> {
    if no_mouse_cursor_change || cache == Some(wanted) {
        None
    } else {
        Some(command_for(wanted))
    }
}

impl PlatformState {
    /// A new platform: default DPI mode, no cursor settings put into effect yet.
    pub fn new() -> (r: PlatformState)
        ensures
            r.hidpi_mode == ActiveHiDpiMode::Default,
            r.cursor_cache is None,
    {
        PlatformState { hidpi_mode: ActiveHiDpiMode::Default, cursor_cache: None }
    }

    /// The DPI mode in effect.
    pub fn hidpi_mode(&self) -> (r: ActiveHiDpiMode)
        ensures
            r == self.hidpi_mode,
    {
        self.hidpi_mode
    }

    /// Switches the DPI mode, as attaching to a window does; the cursor settings stay.
    pub fn set_hidpi_mode(&mut self, mode: ActiveHiDpiMode)
        ensures
            final(self).hidpi_mode == mode,
            final(self).cursor_cache == old(self).cursor_cache,
    {
        self.hidpi_mode = mode;
    }

    /// Render preparation: decides what the window must be told about its cursor.
    ///
    /// `no_mouse_cursor_change` is ImGui's configuration flag that forbids cursor
    /// changes; `cursor` and `draw_cursor` are what ImGui wants for this frame. The
    /// window is told something only when the wanted settings differ from those
    /// last put into effect, and they are then remembered.
    pub fn prepare_render(
        &mut self,
        no_mouse_cursor_change: bool,
        cursor: Option<MouseCursor>,
        draw_cursor: bool,
    ) -> (r: Option<CursorCommand>)
        ensures
            r == due_command(
                old(self).cursor_cache,
                no_mouse_cursor_change,
                wanted_settings(cursor, draw_cursor),
            ),
            final(self).cursor_cache == next_cursor_cache(
                old(self).cursor_cache,
                no_mouse_cursor_change,
                wanted_settings(cursor, draw_cursor),
            ),
            final(self).hidpi_mode == old(self).hidpi_mode,
            no_mouse_cursor_change ==> r is None && final(self).cursor_cache == old(self).cursor_cache,
            !no_mouse_cursor_change ==> final(self).cursor_cache == Some(
                CursorSettings { cursor, draw_cursor },
            ),
            r is Some <==> (!no_mouse_cursor_change && old(self).cursor_cache != Some(
                CursorSettings { cursor, draw_cursor },
            )),
            r is Some ==> r == Some(command_for(CursorSettings { cursor, draw_cursor })),
    {
        if !no_mouse_cursor_change {
            let wanted = CursorSettings { cursor, draw_cursor };
            let cached = Some(wanted);
            if !same_settings(&self.cursor_cache, &cached) {
                let command = wanted.command();
                self.cursor_cache = cached;
                return Some(command);
            }
        }
        None
    }
}

/// Render preparation never repeats itself: once a frame has put settings into
/// effect, a frame that wants the same settings sends the window nothing.
pub proof fn lemma_prepare_render_is_idempotent(
    cache: Option<CursorSettings>,
    no_mouse_cursor_change: bool,
    wanted: CursorSettings,
)
    ensures
        due_command(
            next_cursor_cache(cache, no_mouse_cursor_change, wanted),
            no_mouse_cursor_change,
            wanted,
        ) is None,
        next_cursor_cache(
            next_cursor_cache(cache, no_mouse_cursor_change, wanted),
            no_mouse_cursor_change,
            wanted,
        ) == next_cursor_cache(cache, no_mouse_cursor_change, wanted),
{
}

/// The remembered settings are always those the window was last told: whenever a
/// command is sent, it is the one that puts the newly remembered settings into effect.
pub proof fn lemma_cache_matches_last_command(
    cache: Option<CursorSettings>,
    no_mouse_cursor_change: bool,
    wanted: CursorSettings,
)
    ensures
        due_command(cache, no_mouse_cursor_change, wanted) is Some ==> (next_cursor_cache(
            cache,
            no_mouse_cursor_change,
            wanted,
        ) is Some && due_command(cache, no_mouse_cursor_change, wanted) == Some(
            command_for(next_cursor_cache(cache, no_mouse_cursor_change, wanted)->0),
        )),
        due_command(cache, no_mouse_cursor_change, wanted) is None ==> (next_cursor_cache(
            cache,
            no_mouse_cursor_change,
            wanted,
        ) == cache),
{
}

} // verus!

verus! {

/// When ImGui may change the cursor, the window is sent a command exactly when the
/// wanted settings differ from the remembered ones, the command is the one for the
/// wanted settings, and afterwards the wanted settings are remembered. When it may
/// not, nothing is sent and nothing is remembered.
pub proof fn lemma_prepare_render_follows_changes(
    cache: Option<CursorSettings>,
    no_mouse_cursor_change: bool,
    cursor: Option<MouseCursor>,
    draw_cursor: bool,
)
    ensures
        !no_mouse_cursor_change ==> (due_command(
            cache,
            false,
            CursorSettings { cursor, draw_cursor },
        ) is Some <==> cache != Some(CursorSettings { cursor, draw_cursor })),
        !no_mouse_cursor_change ==> next_cursor_cache(
            cache,
            false,
            CursorSettings { cursor, draw_cursor },
        ) == Some(CursorSettings { cursor, draw_cursor }),
        due_command(cache, no_mouse_cursor_change, CursorSettings { cursor, draw_cursor }) is Some
            ==> due_command(cache, no_mouse_cursor_change, CursorSettings { cursor, draw_cursor })
            == Some(command_for(CursorSettings { cursor, draw_cursor })),
        no_mouse_cursor_change ==> due_command(
            cache,
            true,
            CursorSettings { cursor, draw_cursor },
        ) is None && next_cursor_cache(cache, true, CursorSettings { cursor, draw_cursor })
            == cache,
{
}

} // verus!
