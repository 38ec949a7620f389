//! The registry of live windows, one per role, and the commands that the
//! windowing layer carries out on a role's window.
use vstd::prelude::*;

use crate::display::{get_current_monitor, display_at, Cursor, Display};
use crate::role::Role;

verus! {

/// Why a command on a window could not be carried out. Each aborts the one
/// action that issued it.
#[derive(Clone, Copy, Debug, PartialEq, Eq, Structural)]
pub enum WindowError {
    /// The window could not be looked up.
    GetWindowFailed,
    /// The window could not be created.
    BuildFailed,
    /// A property of the window could not be set.
    SetPropertyFailed,
}

/// The operating system family, which decides decorations and shadows.
#[derive(Clone, Copy, Debug, PartialEq, Eq, Structural)]
pub enum Platform {
    MacOs,
    Windows,
    Linux,
}

/// A snapshot of the desktop, read fresh for each decision: the attached
/// displays in enumeration order, the primary display, the cursor and the
/// platform.
#[derive(Clone, Debug)]
pub struct Desktop {
    pub displays: Vec<Display>,
    pub primary: Display,
    pub cursor: Cursor,
    pub platform: Platform,
}

impl Desktop {
    /// The display under the cursor, where new windows open.
    pub open spec fn target(&self) -> Display {
        display_at(self.displays@, self.primary, self.cursor.x as int, self.cursor.y as int)
    }
}

/// A command on the window of one role, for the windowing layer to carry out.
/// Physical sizes and positions are in pixels; logical ones in units that the
/// windowing layer scales itself.
#[derive(Clone, Debug, PartialEq, Eq)]
pub enum WindowCommand {
    /// Bring the existing window to the front and give it focus.
    Focus,
    /// Make the window visible.
    Show,
    /// Create the window of `role`, labelled `role.label()` and titled
    /// `role.title()`, hidden and focused, at a physical position; with an
    /// overlay title bar (else borderless and transparent), with or without a
    /// drop shadow.
    Create { role: Role, x: i32, y: i32, overlay_title: bool, shadow: bool },
    /// Keep the window out of the task or dock switcher.
    SkipTaskbar,
    SetPhysicalSize { width: i128, height: i128 },
    SetPhysicalPosition { x: i128, y: i128 },
    SetLogicalMinSize { width: u32, height: u32 },
    SetLogicalSize { width: u32, height: u32 },
    /// Center the window on its display.
    Center,
    Fullscreen,
    RemoveDecorations,
    AlwaysOnTop,
    /// Send the window's content the text to translate.
    EmitText(String),
    /// Tell the window's content that a new image is ready.
    EmitImage,
}

/// How a new window of `role` is created on `display`: at its origin, with
/// the platform's decorations, and shadowed unless it is the screenshot
/// window or the platform cannot draw shadows.
pub open spec fn creation(role: Role, platform: Platform, display: Display) -> WindowCommand {
    WindowCommand::Create {
        role,
        x: display.x,
        y: display.y,
        overlay_title: platform == Platform::MacOs,
        shadow: role != Role::Screenshot && platform != Platform::Linux,
    }
}

/// The live windows, one entry per role that has one.
pub struct Registry {
    live: Vec<Role>,
}

impl View for Registry {
    type V = Set<Role>;

    closed spec fn view(&self) -> Set<Role> {
        Set::new(|r: Role| self.live@.contains(r))
    }
}

/// What acquiring a window for `role` does: an existing one is focused and
/// reported as such; otherwise one is created on the desktop's target display.
pub open spec fn acquire_plan(live: Set<Role>, role: Role, desk: Desktop) -> (Seq<WindowCommand>, bool) {
    if live.contains(role) {
        (seq![WindowCommand::Focus], true)
    } else {
        (seq![creation(role, desk.platform, desk.target())], false)
    }
}

impl Registry {
    /// No live window.
    pub fn new() -> (r: Registry)
        ensures
            r@ == Set::<Role>::empty(),
    {
        let r = Registry { live: Vec::new() };
        assert(r@ =~= Set::<Role>::empty());
        r
    }

    /// Whether a window of `role` is live.
    pub fn is_live(&self, role: Role) -> (r: bool)
        ensures
            r == self@.contains(role),
    {
        let mut i: usize = 0;
        while i < self.live.len()
            invariant
                i <= self.live@.len(),
                forall|j: int| 0 <= j < i ==> self.live@[j] != role,
            decreases self.live@.len() - i,
        {
            if self.live[i] == role {
                return true;
            }
            i = i + 1;
        }
        false
    }

    /// Records that the windowing layer reports a live window of `role`.
    pub fn note_live(&mut self, role: Role)
        ensures
            final(self)@ == old(self)@.insert(role),
    {
        if !self.is_live(role) {
            self.live.push(role);
            assert forall|r: Role| self.live@.contains(r) <==> old(self).live@.contains(r) || r
                == role by {
                if old(self).live@.contains(r) {
                    let j = choose|j: int| 0 <= j < old(self).live@.len() && old(self).live@[j] == r;
                    assert(self.live@[j] == r);
                }
                if r == role {
                    assert(self.live@[old(self).live@.len() as int] == r);
                }
            }
        }
        assert(self@ =~= old(self)@.insert(role));
    }

    /// Acquires the window of `role`: focuses the live one, or creates one at
    /// the origin of the display under the cursor. Returns the commands and
    /// whether the window already existed.
    pub fn build_window(&mut self, role: Role, desk: &Desktop) -> (r: (Vec<WindowCommand>, bool))
        ensures
            (r.0@, r.1) == acquire_plan(old(self)@, role, *desk),
            final(self)@ == old(self)@.insert(role),
    {
        let d = get_current_monitor(&desk.displays, desk.primary, desk.cursor.x, desk.cursor.y);
        let exists = self.is_live(role);
        let mut cmds: Vec<WindowCommand> = Vec::new();
        if exists {
            cmds.push(WindowCommand::Focus);
        } else {
            let mac = match desk.platform {
                Platform::MacOs => true,
                _ => false,
            };
            let linux = match desk.platform {
                Platform::Linux => true,
                _ => false,
            };
            let screenshot = match role {
                Role::Screenshot => true,
                _ => false,
            };
            cmds.push(
                WindowCommand::Create {
                    role,
                    x: d.x,
                    y: d.y,
                    overlay_title: mac,
                    shadow: !screenshot && !linux,
                },
            );
        }
        self.note_live(role);
        assert(cmds@ =~= acquire_plan(old(self)@, role, *desk).0);
        (cmds, exists)
    }
}

/// Acquiring a role's window twice in a row gives the existing window the
/// second time: a role never has two live windows.
pub proof fn lemma_acquire_twice(live: Set<Role>, role: Role, first: Desktop, second: Desktop)
    ensures
        acquire_plan(live, role, first).1 == live.contains(role),
        acquire_plan(live.insert(role), role, second).1,
        acquire_plan(live.insert(role), role, second).0 == seq![WindowCommand::Focus],
        live.insert(role).insert(role) == live.insert(role),
{
    assert(live.insert(role).insert(role) =~= live.insert(role));
}

} // verus!
