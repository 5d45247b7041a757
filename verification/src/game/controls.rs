//! Direct controls: six keys read as switches, and the keys and events that
//! command the window.
use crate::game::input::InputEvent;
use crate::game::settings::{KEY_A, KEY_D, KEY_ESCAPE, KEY_S, KEY_W};
use vstd::prelude::*;

verus! {

/// The code of the space bar.
pub const KEY_SPACE: i32 = 32;

/// The code of the key `F1`.
pub const KEY_F1: i32 = 290;

/// The code of the key `F2`.
pub const KEY_F2: i32 = 291;

/// The code of the left shift key.
pub const KEY_LEFT_SHIFT: i32 = 340;

/// Six keys as switches: each is on while its key is held down.
#[derive(Debug, Default, Clone, Copy, PartialEq, Eq, Structural)]
pub struct KeySwitches {
    pub w: bool,
    pub a: bool,
    pub s: bool,
    pub d: bool,
    pub space: bool,
    pub shift: bool,
}

/// What an event commands the window or the renderer to do.
#[derive(Debug, Clone, Copy, PartialEq, Eq, Structural)]
pub enum WindowCommand {
    /// Close the window.
    Close,
    /// Switch between drawing outlines and drawing filled faces.
    SwitchWireframe,
    /// Show the cursor.
    CursorNormal,
    /// Hide and capture the cursor.
    CursorDisabled,
    /// Adopt the new size of the window.
    Resize(u32, u32),
    /// Nothing.
    Nothing,
}

/// How polygons are drawn.
#[derive(Debug, Clone, Copy, PartialEq, Eq, Structural)]
pub enum PolygonMode {
    Line,
    Fill,
}

/// The command of an event: escape closes, pressing `F1` switches the
/// wireframe, pressing `F2` shows the cursor, releasing `F1` captures it,
/// and a new window size is adopted.
pub open spec fn command_spec(event: InputEvent) -> WindowCommand {
    match event {
        InputEvent::KeyPress(key) => if key == KEY_ESCAPE {
            WindowCommand::Close
        } else if key == KEY_F1 {
            WindowCommand::SwitchWireframe
        } else if key == KEY_F2 {
            WindowCommand::CursorNormal
        } else {
            WindowCommand::Nothing
        },
        InputEvent::KeyRelease(key) => if key == KEY_F1 {
            WindowCommand::CursorDisabled
        } else {
            WindowCommand::Nothing
        },
        InputEvent::Size(w, h) => WindowCommand::Resize(w, h),
        InputEvent::Other => WindowCommand::Nothing,
    }
}

/// The switches after `key` went down (`on`) or up (not `on`).
pub open spec fn switched(switches: KeySwitches, key: i32, on: bool) -> KeySwitches {
    if key == KEY_W {
        KeySwitches { w: on, ..switches }
    } else if key == KEY_S {
        KeySwitches { s: on, ..switches }
    } else if key == KEY_A {
        KeySwitches { a: on, ..switches }
    } else if key == KEY_D {
        KeySwitches { d: on, ..switches }
    } else if key == KEY_SPACE {
        KeySwitches { space: on, ..switches }
    } else if key == KEY_LEFT_SHIFT {
        KeySwitches { shift: on, ..switches }
    } else {
        switches
    }
}

/// The switches after an event. Only key events change them.
pub open spec fn after_event(switches: KeySwitches, event: InputEvent) -> KeySwitches {
    match event {
        InputEvent::KeyPress(key) => switched(switches, key, true),
        InputEvent::KeyRelease(key) => switched(switches, key, false),
        _ => switches,
    }
}

/// The command of an event.
pub fn command(event: InputEvent) -> (r: WindowCommand)
    ensures
        r == command_spec(event),
{
    match event {
        InputEvent::KeyPress(key) => {
            if key == KEY_ESCAPE {
                WindowCommand::Close
            } else if key == KEY_F1 {
                WindowCommand::SwitchWireframe
            } else if key == KEY_F2 {
                WindowCommand::CursorNormal
            } else {
                WindowCommand::Nothing
            }
        },
        InputEvent::KeyRelease(key) => {
            if key == KEY_F1 {
                WindowCommand::CursorDisabled
            } else {
                WindowCommand::Nothing
            }
        },
        InputEvent::Size(w, h) => WindowCommand::Resize(w, h),
        InputEvent::Other => WindowCommand::Nothing,
    }
}

impl KeySwitches {
    /// Takes one event in: a key that went down switches on, one that went
    /// up switches off.
    pub fn handle_event(&mut self, event: InputEvent)
        ensures
            *final(self) == after_event(*old(self), event),
    {
        match event {
            InputEvent::KeyPress(key) => self.switch(key, true),
            InputEvent::KeyRelease(key) => self.switch(key, false),
            _ => {},
        }
    }

    /// Sets the switch of `key`, if it has one.
    pub fn switch(&mut self, key: i32, on: bool)
        ensures
            *final(self) == switched(*old(self), key, on),
    {
        if key == KEY_W {
            self.w = on;
        } else if key == KEY_S {
            self.s = on;
        } else if key == KEY_A {
            self.a = on;
        } else if key == KEY_D {
            self.d = on;
        } else if key == KEY_SPACE {
            self.space = on;
        } else if key == KEY_LEFT_SHIFT {
            self.shift = on;
        }
    }
}

/// Switches the wireframe flag and says how polygons are to be drawn from
/// now on: as lines when the flag was set, filled when it was not.
pub fn switch_wireframe(wireframe: &mut bool) -> (r: PolygonMode)
    ensures
        *final(wireframe) == !*old(wireframe),
        r == (if *old(wireframe) {
            PolygonMode::Line
        } else {
            PolygonMode::Fill
        }),
{
    if *wireframe {
        *wireframe = false;
        PolygonMode::Line
    } else {
        *wireframe = true;
        PolygonMode::Fill
    }
}

/// A key that commands the window has no switch, and a key with a switch
/// commands nothing.
pub proof fn lemma_commands_and_switches_are_apart(switches: KeySwitches, event: InputEvent)
    ensures
        command_spec(event) != WindowCommand::Nothing ==> after_event(switches, event) == switches,
{
}

} // verus!
