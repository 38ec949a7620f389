//! The role controllers: what each entry point does to the registry, the
//! stored geometry and the pending text, and the commands it issues.
use vstd::prelude::*;

use crate::display::get_current_monitor;
use crate::geometry::{
    axis_position, get_window_size, physical, place_near_cursor, read_or_store, to_physical,
    Dimension, SettingKey, Settings,
};
use crate::pending::{
    image_marker, image_marker_string, input_marker, input_marker_string, StringWrapper,
};
use crate::registry::{acquire_plan, creation, Desktop, Platform, Registry, WindowCommand};
use crate::role::Role;

verus! {

/// Where a new translate window is placed.
#[derive(Clone, Copy, Debug, PartialEq, Eq, Structural)]
pub enum PositionMode {
    /// Next to the cursor, kept on its display.
    Mouse,
    /// At the stored position.
    Fixed,
}

/// The state that the controllers read and change: the live windows, the
/// stored geometry and the pending text.
pub struct Context {
    pub registry: Registry,
    pub settings: Settings,
    pub pending: StringWrapper,
}

impl Context {
    /// No live window, no stored setting, no pending text.
    pub fn new() -> (r: Context)
        ensures
            r.registry@ == Set::<Role>::empty(),
            r.settings@ == Map::<SettingKey, i64>::empty(),
            r.pending.0@ == Seq::<char>::empty(),
    {
        Context { registry: Registry::new(), settings: Settings::new(), pending: StringWrapper::new() }
    }
}

/// The key of a role's stored dimension.
pub open spec fn key(role: Role, dimension: Dimension) -> SettingKey {
    SettingKey { role, dimension }
}

/// The stored value of `k`, or `d`.
pub open spec fn stored_or(m: Map<SettingKey, i64>, k: SettingKey, d: i64) -> i64 {
    if m.contains_key(k) {
        m[k]
    } else {
        d
    }
}

/// The commands of the translate window and the settings after them. A live
/// window is focused and left where it is. A new one skips the task
/// switcher, takes the stored size (350 x 420 by default, stored when
/// absent) scaled to its display, and is placed by `mode`: next to the
/// cursor, or at the stored position (0, 0 when absent) scaled.
pub open spec fn translate_plan(
    live: Set<Role>,
    m: Map<SettingKey, i64>,
    desk: Desktop,
    mode: PositionMode,
) -> (Seq<WindowCommand>, Map<SettingKey, i64>) {
    if live.contains(Role::Translate) {
        (seq![WindowCommand::Focus], m)
    } else {
        let (w, m1) = read_or_store(m, key(Role::Translate, Dimension::Width), 350);
        let (h, m2) = read_or_store(m1, key(Role::Translate, Dimension::Height), 420);
        let d = desk.target();
        let pw = physical(w as int, d.scale_milli as int);
        let ph = physical(h as int, d.scale_milli as int);
        let (x, y) = match mode {
            PositionMode::Mouse => (
                axis_position(desk.cursor.x as int, pw, d.x as int, d.width as int),
                axis_position(desk.cursor.y as int, ph, d.y as int, d.height as int),
            ),
            PositionMode::Fixed => (
                physical(
                    stored_or(m2, key(Role::Translate, Dimension::PositionX), 0) as int,
                    d.scale_milli as int,
                ),
                physical(
                    stored_or(m2, key(Role::Translate, Dimension::PositionY), 0) as int,
                    d.scale_milli as int,
                ),
            ),
        };
        (
            seq![
                creation(Role::Translate, desk.platform, d),
                WindowCommand::SkipTaskbar,
                WindowCommand::SetPhysicalSize { width: pw as i128, height: ph as i128 },
                WindowCommand::SetPhysicalPosition { x: x as i128, y: y as i128 },
            ],
            m2,
        )
    }
}

/// Acquires the translate window and, when it is new, sizes and places it.
pub fn translate_window(ctx: &mut Context, desk: &Desktop, mode: PositionMode) -> (r: Vec<
    WindowCommand,
>)
    ensures
        (r@, final(ctx).settings@) == translate_plan(
            old(ctx).registry@,
            old(ctx).settings@,
            *desk,
            mode,
        ),
        final(ctx).registry@ == old(ctx).registry@.insert(Role::Translate),
        final(ctx).pending == old(ctx).pending,
{
    let (mut cmds, exists) = ctx.registry.build_window(Role::Translate, desk);
    if exists {
        return cmds;
    }
    cmds.push(WindowCommand::SkipTaskbar);
    let (width, height) = get_window_size(
        &mut ctx.settings,
        SettingKey { role: Role::Translate, dimension: Dimension::Width },
        SettingKey { role: Role::Translate, dimension: Dimension::Height },
        350,
        420,
    );
    let d = get_current_monitor(&desk.displays, desk.primary, desk.cursor.x, desk.cursor.y);
    let pw = to_physical(width, d.scale_milli);
    let ph = to_physical(height, d.scale_milli);
    cmds.push(WindowCommand::SetPhysicalSize { width: pw, height: ph });
    match mode {
        PositionMode::Mouse => {
            let (x, y) = place_near_cursor(desk.cursor, pw, ph, d);
            cmds.push(WindowCommand::SetPhysicalPosition { x, y });
        },
        PositionMode::Fixed => {
            let px = ctx.settings.get_or(
                SettingKey { role: Role::Translate, dimension: Dimension::PositionX },
                0,
            );
            let py = ctx.settings.get_or(
                SettingKey { role: Role::Translate, dimension: Dimension::PositionY },
                0,
            );
            cmds.push(
                WindowCommand::SetPhysicalPosition {
                    x: to_physical(px, d.scale_milli),
                    y: to_physical(py, d.scale_milli),
                },
            );
        },
    }
    assert(cmds@ =~= translate_plan(old(ctx).registry@, old(ctx).settings@, *desk, mode).0);
    cmds
}

/// `c` sends the window's content the text `t`.
pub open spec fn emits_text(c: WindowCommand, t: Seq<char>) -> bool {
    c matches WindowCommand::EmitText(s) && s@ == t
}

/// Centering, where the translate window follows the cursor.
pub open spec fn center_for(mode: PositionMode) -> Seq<WindowCommand> {
    if mode == PositionMode::Mouse {
        seq![WindowCommand::Center]
    } else {
        seq![]
    }
}

/// Translates the selected text `text`: it becomes the pending text, and the
/// translate window is acquired and sent it.
pub fn selection_translate(ctx: &mut Context, desk: &Desktop, mode: PositionMode, text: String) -> (r:
    Vec<WindowCommand>)
    ensures
        ({
            let (cmds, m) = translate_plan(old(ctx).registry@, old(ctx).settings@, *desk, mode);
            &&& r@ == cmds.push(WindowCommand::EmitText(text))
            &&& final(ctx).settings@ == m
        }),
        final(ctx).registry@ == old(ctx).registry@.insert(Role::Translate),
        final(ctx).pending.0@ == text@,
{
    ctx.pending.replace(text.as_str());
    let mut cmds = translate_window(ctx, desk, mode);
    cmds.push(WindowCommand::EmitText(text));
    cmds
}

/// Translates the given text: it becomes the pending text, and the translate
/// window is acquired and sent it.
pub fn text_translate(ctx: &mut Context, desk: &Desktop, mode: PositionMode, text: String) -> (r: Vec<
    WindowCommand,
>)
    ensures
        ({
            let (cmds, m) = translate_plan(old(ctx).registry@, old(ctx).settings@, *desk, mode);
            &&& r@ == cmds.push(WindowCommand::EmitText(text))
            &&& final(ctx).settings@ == m
        }),
        final(ctx).registry@ == old(ctx).registry@.insert(Role::Translate),
        final(ctx).pending.0@ == text@,
{
    ctx.pending.replace(text.as_str());
    let mut cmds = translate_window(ctx, desk, mode);
    cmds.push(WindowCommand::EmitText(text));
    cmds
}

/// Translates the text of a captured image: the image marker becomes the
/// pending text, and the translate window is acquired and sent it.
pub fn image_translate(ctx: &mut Context, desk: &Desktop, mode: PositionMode) -> (r: Vec<
    WindowCommand,
>)
    ensures
        ({
            let (cmds, m) = translate_plan(old(ctx).registry@, old(ctx).settings@, *desk, mode);
            &&& r@.len() == cmds.len() + 1
            &&& r@.drop_last() == cmds
            &&& emits_text(r@.last(), image_marker())
            &&& final(ctx).settings@ == m
        }),
        final(ctx).registry@ == old(ctx).registry@.insert(Role::Translate),
        final(ctx).pending.0@ == image_marker(),
{
    let marker = image_marker_string();
    ctx.pending.replace(marker.as_str());
    let mut cmds = translate_window(ctx, desk, mode);
    let ghost before = cmds@;
    cmds.push(WindowCommand::EmitText(marker));
    assert(cmds@.drop_last() =~= before);
    cmds
}

/// What asking for manual input does before the marker is sent: a live
/// translate window is shown and focused, and left where it is; otherwise
/// one is acquired as usual and centered when it follows the cursor.
pub open spec fn input_plan(
    live: Set<Role>,
    m: Map<SettingKey, i64>,
    desk: Desktop,
    mode: PositionMode,
) -> (Seq<WindowCommand>, Map<SettingKey, i64>) {
    if live.contains(Role::Translate) {
        (seq![WindowCommand::Show, WindowCommand::Focus], m)
    } else {
        let (cmds, m1) = translate_plan(live, m, desk, mode);
        (cmds + center_for(mode), m1)
    }
}

/// Opens the translate window for manual input: the input marker becomes the
/// pending text and is sent to the window.
pub fn input_translate(ctx: &mut Context, desk: &Desktop, mode: PositionMode) -> (r: Vec<
    WindowCommand,
>)
    ensures
        ({
            let (cmds, m) = input_plan(old(ctx).registry@, old(ctx).settings@, *desk, mode);
            &&& r@.len() == cmds.len() + 1
            &&& r@.drop_last() == cmds
            &&& emits_text(r@.last(), input_marker())
            &&& final(ctx).settings@ == m
        }),
        final(ctx).registry@ == old(ctx).registry@.insert(Role::Translate),
        final(ctx).pending.0@ == input_marker(),
{
    let live = ctx.registry.is_live(Role::Translate);
    let marker = input_marker_string();
    ctx.pending.replace(marker.as_str());
    let mut cmds: Vec<WindowCommand>;
    if live {
        cmds = Vec::new();
        cmds.push(WindowCommand::Show);
        cmds.push(WindowCommand::Focus);
        proof {
            assert(ctx.registry@ =~= old(ctx).registry@.insert(Role::Translate));
        }
    } else {
        cmds = translate_window(ctx, desk, mode);
        match mode {
            PositionMode::Mouse => cmds.push(WindowCommand::Center),
            PositionMode::Fixed => {},
        }
    }
    let ghost before = cmds@;
    assert(before =~= input_plan(old(ctx).registry@, old(ctx).settings@, *desk, mode).0);
    cmds.push(WindowCommand::EmitText(marker));
    assert(cmds@.drop_last() =~= before);
    cmds
}

/// Physical size of a window of logical size `width` x `height` on `display`.
fn set_window_size(width: i64, height: i64, display: crate::display::Display) -> (r: WindowCommand)
    ensures
        r == (WindowCommand::SetPhysicalSize {
            width: physical(width as int, display.scale_milli as int) as i128,
            height: physical(height as int, display.scale_milli as int) as i128,
        }),
{
    WindowCommand::SetPhysicalSize {
        width: to_physical(width, display.scale_milli),
        height: to_physical(height, display.scale_milli),
    }
}

/// The commands of the recognize window and the settings after them. A live
/// window is focused; a new one takes the stored size (800 x 400 by default,
/// stored when absent) scaled to its display, and is centered. Either way
/// the content is told of a new image.
pub open spec fn recognize_plan(live: Set<Role>, m: Map<SettingKey, i64>, desk: Desktop) -> (Seq<
    WindowCommand,
>, Map<SettingKey, i64>) {
    if live.contains(Role::Recognize) {
        (seq![WindowCommand::Focus, WindowCommand::EmitImage], m)
    } else {
        let (w, m1) = read_or_store(m, key(Role::Recognize, Dimension::Width), 800);
        let (h, m2) = read_or_store(m1, key(Role::Recognize, Dimension::Height), 400);
        let d = desk.target();
        (
            seq![
                creation(Role::Recognize, desk.platform, d),
                WindowCommand::SetPhysicalSize {
                    width: physical(w as int, d.scale_milli as int) as i128,
                    height: physical(h as int, d.scale_milli as int) as i128,
                },
                WindowCommand::Center,
                WindowCommand::EmitImage,
            ],
            m2,
        )
    }
}

/// Opens the recognize window, or signals the open one, that a new image is
/// ready.
pub fn recognize_window(ctx: &mut Context, desk: &Desktop) -> (r: Vec<WindowCommand>)
    ensures
        (r@, final(ctx).settings@) == recognize_plan(old(ctx).registry@, old(ctx).settings@, *desk),
        old(ctx).registry@.contains(Role::Recognize) ==> r@.last() == WindowCommand::EmitImage,
        final(ctx).registry@ == old(ctx).registry@.insert(Role::Recognize),
        final(ctx).pending == old(ctx).pending,
{
    let (mut cmds, exists) = ctx.registry.build_window(Role::Recognize, desk);
    if exists {
        cmds.push(WindowCommand::EmitImage);
        assert(cmds@ =~= recognize_plan(old(ctx).registry@, old(ctx).settings@, *desk).0);
        return cmds;
    }
    let (width, height) = get_window_size(
        &mut ctx.settings,
        SettingKey { role: Role::Recognize, dimension: Dimension::Width },
        SettingKey { role: Role::Recognize, dimension: Dimension::Height },
        800,
        400,
    );
    let d = get_current_monitor(&desk.displays, desk.primary, desk.cursor.x, desk.cursor.y);
    cmds.push(set_window_size(width, height, d));
    cmds.push(WindowCommand::Center);
    cmds.push(WindowCommand::EmitImage);
    assert(cmds@ =~= recognize_plan(old(ctx).registry@, old(ctx).settings@, *desk).0);
    cmds
}

/// The commands of the screenshot window: acquired, kept out of the task
/// switcher, covering its display (on macOS by taking the display's size
/// without decorations, elsewhere in fullscreen), and above all windows.
pub open spec fn screenshot_plan(live: Set<Role>, desk: Desktop) -> Seq<WindowCommand> {
    let d = desk.target();
    let cover = if desk.platform == Platform::MacOs {
        seq![
            WindowCommand::RemoveDecorations,
            WindowCommand::SetPhysicalSize { width: d.width as i128, height: d.height as i128 },
        ]
    } else {
        seq![WindowCommand::Fullscreen]
    };
    acquire_plan(live, Role::Screenshot, desk).0 + seq![WindowCommand::SkipTaskbar] + cover + seq![
        WindowCommand::AlwaysOnTop,
    ]
}

/// Opens the screenshot window over the display under the cursor.
fn screenshot_window(ctx: &mut Context, desk: &Desktop) -> (r: Vec<WindowCommand>)
    ensures
        r@ == screenshot_plan(old(ctx).registry@, *desk),
        final(ctx).registry@ == old(ctx).registry@.insert(Role::Screenshot),
        final(ctx).settings == old(ctx).settings,
        final(ctx).pending == old(ctx).pending,
{
    let (mut cmds, _exists) = ctx.registry.build_window(Role::Screenshot, desk);
    cmds.push(WindowCommand::SkipTaskbar);
    match desk.platform {
        Platform::MacOs => {
            let d = get_current_monitor(&desk.displays, desk.primary, desk.cursor.x, desk.cursor.y);
            cmds.push(WindowCommand::RemoveDecorations);
            cmds.push(
                WindowCommand::SetPhysicalSize { width: d.width as i128, height: d.height as i128 },
            );
        },
        _ => cmds.push(WindowCommand::Fullscreen),
    }
    cmds.push(WindowCommand::AlwaysOnTop);
    assert(cmds@ =~= screenshot_plan(old(ctx).registry@, *desk));
    cmds
}

/// What follows a successful capture.
#[derive(Clone, Copy, Debug, PartialEq, Eq, Structural)]
pub enum NextAction {
    /// Open the recognize window.
    Recognize,
    /// Open the translate window in image mode.
    TranslateImage,
}

/// A one-shot link from a capture's success to the action that follows it.
/// It fires at most once, then stays spent.
#[derive(Clone, Copy, Debug, PartialEq, Eq, Structural)]
pub struct CaptureHandoff {
    pub next: NextAction,
    pub armed: bool,
}

/// What a success signal does to a handoff: an armed one hands out its action
/// and is spent; a spent one hands out nothing.
pub open spec fn fire_spec(h: CaptureHandoff) -> (Option<NextAction>, CaptureHandoff) {
    if h.armed {
        (Some(h.next), CaptureHandoff { next: h.next, armed: false })
    } else {
        (None, h)
    }
}

/// How many actions `n` success signals in a row hand out, and the handoff
/// after them.
pub open spec fn fire_times(h: CaptureHandoff, n: nat) -> (nat, CaptureHandoff)
    decreases n,
{
    if n == 0 {
        (0, h)
    } else {
        let (a, h1) = fire_spec(h);
        let (k, h2) = fire_times(h1, (n - 1) as nat);
        (if a is Some {
            k + 1
        } else {
            k
        }, h2)
    }
}

impl CaptureHandoff {
    /// A handoff waiting to start `next`.
    pub fn new(next: NextAction) -> (r: CaptureHandoff)
        ensures
            r == (CaptureHandoff { next, armed: true }),
    {
        CaptureHandoff { next, armed: true }
    }

    /// Handles one success signal: the first hands out the action, any later
    /// one nothing.
    pub fn fire(&mut self) -> (r: Option<NextAction>)
        ensures
            (r, *final(self)) == fire_spec(*old(self)),
    {
        if self.armed {
            self.armed = false;
            Some(self.next)
        } else {
            None
        }
    }

    /// Drops the link without firing it.
    pub fn cancel(&mut self)
        ensures
            *final(self) == (CaptureHandoff { next: old(self).next, armed: false }),
    {
        self.armed = false;
    }
}

/// A spent handoff hands out nothing, however often it is signalled.
pub proof fn lemma_spent_stays_spent(h: CaptureHandoff, n: nat)
    requires
        !h.armed,
    ensures
        fire_times(h, n) == (0nat, h),
    decreases n,
{
    if n > 0 {
        lemma_spent_stays_spent(h, (n - 1) as nat);
    }
}

/// A capture session hands out its action exactly once, however many times
/// the success signal comes, and the first signal hands it out.
pub proof fn lemma_fires_once(next: NextAction, n: nat)
    requires
        n >= 1,
    ensures
        fire_times(CaptureHandoff { next, armed: true }, n).0 == 1,
        !fire_times(CaptureHandoff { next, armed: true }, n).1.armed,
        fire_spec(CaptureHandoff { next, armed: true }).0 == Some(next),
        fire_spec(fire_spec(CaptureHandoff { next, armed: true }).1).0 is None,
{
    lemma_spent_stays_spent(CaptureHandoff { next, armed: false }, (n - 1) as nat);
}

/// Opens the screenshot window; the recognize window follows a successful
/// capture, through the returned handoff.
pub fn ocr_recognize(ctx: &mut Context, desk: &Desktop) -> (r: (Vec<WindowCommand>, CaptureHandoff))
    ensures
        r.0@ == screenshot_plan(old(ctx).registry@, *desk),
        r.1 == (CaptureHandoff { next: NextAction::Recognize, armed: true }),
        final(ctx).registry@ == old(ctx).registry@.insert(Role::Screenshot),
        final(ctx).settings == old(ctx).settings,
        final(ctx).pending == old(ctx).pending,
{
    let cmds = screenshot_window(ctx, desk);
    (cmds, CaptureHandoff::new(NextAction::Recognize))
}

/// Opens the screenshot window; the translate window in image mode follows a
/// successful capture, through the returned handoff.
pub fn ocr_translate(ctx: &mut Context, desk: &Desktop) -> (r: (Vec<WindowCommand>, CaptureHandoff))
    ensures
        r.0@ == screenshot_plan(old(ctx).registry@, *desk),
        r.1 == (CaptureHandoff { next: NextAction::TranslateImage, armed: true }),
        final(ctx).registry@ == old(ctx).registry@.insert(Role::Screenshot),
        final(ctx).settings == old(ctx).settings,
        final(ctx).pending == old(ctx).pending,
{
    let cmds = screenshot_window(ctx, desk);
    (cmds, CaptureHandoff::new(NextAction::TranslateImage))
}

/// Carries out the action that a handoff handed out.
pub fn run_next(ctx: &mut Context, desk: &Desktop, mode: PositionMode, next: NextAction) -> (r: Vec<
    WindowCommand,
>)
    ensures
        next == NextAction::Recognize ==> {
            &&& (r@, final(ctx).settings@) == recognize_plan(
                old(ctx).registry@,
                old(ctx).settings@,
                *desk,
            )
            &&& final(ctx).registry@ == old(ctx).registry@.insert(Role::Recognize)
            &&& final(ctx).pending == old(ctx).pending
        },
        next == NextAction::TranslateImage ==> {
            let (cmds, m) = translate_plan(old(ctx).registry@, old(ctx).settings@, *desk, mode);
            &&& r@.len() == cmds.len() + 1
            &&& r@.drop_last() == cmds
            &&& emits_text(r@.last(), image_marker())
            &&& final(ctx).settings@ == m
            &&& final(ctx).registry@ == old(ctx).registry@.insert(Role::Translate)
            &&& final(ctx).pending.0@ == image_marker()
        },
{
    match next {
        NextAction::Recognize => recognize_window(ctx, desk),
        NextAction::TranslateImage => image_translate(ctx, desk, mode),
    }
}

/// The commands of a window of fixed geometry: acquired, given its minimum
/// and its size in logical units, and centered.
pub open spec fn fixed_plan(
    live: Set<Role>,
    role: Role,
    desk: Desktop,
    min_w: u32,
    min_h: u32,
    w: u32,
    h: u32,
) -> Seq<WindowCommand> {
    acquire_plan(live, role, desk).0 + seq![
        WindowCommand::SetLogicalMinSize { width: min_w, height: min_h },
        WindowCommand::SetLogicalSize { width: w, height: h },
        WindowCommand::Center,
    ]
}

fn fixed_window(
    ctx: &mut Context,
    desk: &Desktop,
    role: Role,
    min_w: u32,
    min_h: u32,
    w: u32,
    h: u32,
) -> (r: Vec<WindowCommand>)
    ensures
        r@ == fixed_plan(old(ctx).registry@, role, *desk, min_w, min_h, w, h),
        final(ctx).registry@ == old(ctx).registry@.insert(role),
        final(ctx).settings == old(ctx).settings,
        final(ctx).pending == old(ctx).pending,
{
    let (mut cmds, _exists) = ctx.registry.build_window(role, desk);
    cmds.push(WindowCommand::SetLogicalMinSize { width: min_w, height: min_h });
    cmds.push(WindowCommand::SetLogicalSize { width: w, height: h });
    cmds.push(WindowCommand::Center);
    assert(cmds@ =~= fixed_plan(old(ctx).registry@, role, *desk, min_w, min_h, w, h));
    cmds
}

/// Opens the configuration window: at least 800 x 400, sized 800 x 600,
/// centered; nothing of its geometry is stored.
pub fn config_window(ctx: &mut Context, desk: &Desktop) -> (r: Vec<WindowCommand>)
    ensures
        r@ == fixed_plan(old(ctx).registry@, Role::Config, *desk, 800, 400, 800, 600),
        final(ctx).registry@ == old(ctx).registry@.insert(Role::Config),
        final(ctx).settings == old(ctx).settings,
        final(ctx).pending == old(ctx).pending,
{
    fixed_window(ctx, desk, Role::Config, 800, 400, 800, 600)
}

/// Opens the updater window: at least and sized 600 x 400, centered; nothing
/// of its geometry is stored.
pub fn updater_window(ctx: &mut Context, desk: &Desktop) -> (r: Vec<WindowCommand>)
    ensures
        r@ == fixed_plan(old(ctx).registry@, Role::Updater, *desk, 600, 400, 600, 400),
        final(ctx).registry@ == old(ctx).registry@.insert(Role::Updater),
        final(ctx).settings == old(ctx).settings,
        final(ctx).pending == old(ctx).pending,
{
    fixed_window(ctx, desk, Role::Updater, 600, 400, 600, 400)
}

} // verus!
