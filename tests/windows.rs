use pot_windows::controllers::{
    config_window, image_translate, input_translate, ocr_recognize, ocr_translate,
    recognize_window, run_next, selection_translate, text_translate, translate_window,
    updater_window, CaptureHandoff, Context, NextAction, PositionMode,
};
use pot_windows::display::{get_current_monitor, get_mouse_position, Cursor, Display};
use pot_windows::geometry::{
    get_window_size, place_near_cursor, to_physical, Dimension, SettingKey, Settings,
};
use pot_windows::pending::StringWrapper;
use pot_windows::registry::{Desktop, Platform, Registry, WindowCommand, WindowError};
use pot_windows::role::Role;

fn full_hd() -> Display {
    Display { x: 0, y: 0, width: 1920, height: 1080, scale_milli: 1000 }
}

fn desk_at(x: i32, y: i32, platform: Platform) -> Desktop {
    let side = Display { x: 1920, y: 0, width: 2560, height: 1440, scale_milli: 2000 };
    Desktop { displays: vec![full_hd(), side], primary: full_hd(), cursor: Cursor { x, y }, platform }
}

fn key(role: Role, dimension: Dimension) -> SettingKey {
    SettingKey { role, dimension }
}

#[test]
fn acquire_twice_reports_existing_window() {
    let mut reg = Registry::new();
    let desk = desk_at(100, 100, Platform::Windows);
    let (first, existed) = reg.build_window(Role::Recognize, &desk);
    assert!(!existed);
    assert_eq!(
        first,
        vec![WindowCommand::Create { role: Role::Recognize, x: 0, y: 0, overlay_title: false, shadow: true }]
    );
    let (second, existed) = reg.build_window(Role::Recognize, &desk);
    assert!(existed);
    assert_eq!(second, vec![WindowCommand::Focus]);
    assert!(reg.is_live(Role::Recognize));
    assert!(!reg.is_live(Role::Translate));
}

#[test]
fn new_window_opens_on_display_under_cursor() {
    let mut reg = Registry::new();
    let desk = desk_at(2500, 700, Platform::MacOs);
    let (cmds, _) = reg.build_window(Role::Config, &desk);
    assert_eq!(
        cmds,
        vec![WindowCommand::Create { role: Role::Config, x: 1920, y: 0, overlay_title: true, shadow: true }]
    );
}

#[test]
fn screenshot_and_linux_windows_have_no_shadow() {
    let mut reg = Registry::new();
    let (cmds, _) = reg.build_window(Role::Screenshot, &desk_at(0, 0, Platform::Windows));
    assert_eq!(cmds, vec![WindowCommand::Create { role: Role::Screenshot, x: 0, y: 0, overlay_title: false, shadow: false }]);
    let (cmds, _) = reg.build_window(Role::Translate, &desk_at(0, 0, Platform::Linux));
    assert_eq!(cmds, vec![WindowCommand::Create { role: Role::Translate, x: 0, y: 0, overlay_title: false, shadow: false }]);
}

#[test]
fn note_live_marks_window_existing() {
    let mut reg = Registry::new();
    reg.note_live(Role::Translate);
    reg.note_live(Role::Translate);
    let (cmds, existed) = reg.build_window(Role::Translate, &desk_at(0, 0, Platform::Windows));
    assert!(existed);
    assert_eq!(cmds, vec![WindowCommand::Focus]);
}

#[test]
fn monitor_containing_point_and_primary_fallback() {
    let desk = desk_at(0, 0, Platform::Windows);
    let side = desk.displays[1];
    assert_eq!(get_current_monitor(&desk.displays, full_hd(), 2000, 5), side);
    assert_eq!(get_current_monitor(&desk.displays, side, 10, 10), full_hd());
    assert_eq!(get_current_monitor(&desk.displays, side, -50, 10), side);
    assert_eq!(get_current_monitor(&desk.displays, full_hd(), 9000, 9000), full_hd());
}

#[test]
fn monitor_bounds_are_inclusive_and_first_wins() {
    let desk = desk_at(0, 0, Platform::Windows);
    let side = desk.displays[1];
    // (1920, 0) lies on the edge of both displays; the first one listed wins.
    assert_eq!(get_current_monitor(&desk.displays, side, 1920, 0), full_hd());
    assert_eq!(get_current_monitor(&desk.displays, side, 1920, 1080), full_hd());
    assert_eq!(get_current_monitor(&desk.displays, full_hd(), 4480, 1440), side);
    assert_eq!(get_current_monitor(&Vec::new(), side, 0, 0), side);
}

#[test]
fn cursor_probe_falls_back_to_origin() {
    assert_eq!(get_mouse_position(None), Cursor { x: 0, y: 0 });
    assert_eq!(get_mouse_position(Some(Cursor { x: -5, y: 7 })), Cursor { x: -5, y: 7 });
}

#[test]
fn mouse_placement_clamps_to_display() {
    let pos = place_near_cursor(Cursor { x: 1800, y: 1000 }, 350, 420, full_hd());
    assert_eq!(pos, (1450, 580));
}

#[test]
fn mouse_placement_keeps_cursor_when_window_fits() {
    let pos = place_near_cursor(Cursor { x: 100, y: 200 }, 350, 420, full_hd());
    assert_eq!(pos, (100, 200));
    // Right on the edge still fits.
    let pos = place_near_cursor(Cursor { x: 1570, y: 660 }, 350, 420, full_hd());
    assert_eq!(pos, (1570, 660));
}

#[test]
fn mouse_placement_never_passes_display_origin() {
    let small = Display { x: 100, y: 50, width: 400, height: 300, scale_milli: 1000 };
    let pos = place_near_cursor(Cursor { x: 300, y: 200 }, 350, 420, small);
    assert_eq!(pos, (100, 50));
}

#[test]
fn dpi_conversion_doubles_at_scale_two() {
    assert_eq!(to_physical(350, 2000), 700);
    assert_eq!(to_physical(420, 2000), 840);
}

#[test]
fn dpi_conversion_truncates_towards_zero() {
    assert_eq!(to_physical(3, 1500), 4);
    assert_eq!(to_physical(-3, 1500), -4);
    assert_eq!(to_physical(101, 1250), 126);
    assert_eq!(to_physical(0, 3000), 0);
    assert_eq!(to_physical(i64::MIN, u32::MAX), -(((1i128 << 63) * (u32::MAX as i128)) / 1000));
}

#[test]
fn window_size_default_is_stored_once() {
    let mut s = Settings::new();
    let w = key(Role::Translate, Dimension::Width);
    let h = key(Role::Translate, Dimension::Height);
    assert_eq!(s.get(w), None);
    assert_eq!(get_window_size(&mut s, w, h, 350, 420), (350, 420));
    assert_eq!(s.get(w), Some(350));
    assert_eq!(s.get(h), Some(420));
    assert_eq!(get_window_size(&mut s, w, h, 1, 2), (350, 420));
    assert_eq!(s.get(w), Some(350));
}

#[test]
fn stored_window_size_wins_over_default() {
    let mut s = Settings::new();
    let w = key(Role::Recognize, Dimension::Width);
    let h = key(Role::Recognize, Dimension::Height);
    s.set(w, 640);
    s.set(w, 900);
    assert_eq!(get_window_size(&mut s, w, h, 800, 400), (900, 400));
    assert_eq!(s.get_or(key(Role::Recognize, Dimension::PositionX), -3), -3);
    assert_eq!(s.get(key(Role::Recognize, Dimension::PositionX)), None);
}

#[test]
fn capture_handoff_fires_once() {
    let mut h = CaptureHandoff::new(NextAction::Recognize);
    assert_eq!(h.fire(), Some(NextAction::Recognize));
    assert_eq!(h.fire(), None);
    assert_eq!(h.fire(), None);
    assert!(!h.armed);
}

#[test]
fn cancelled_handoff_never_fires() {
    let mut h = CaptureHandoff::new(NextAction::TranslateImage);
    h.cancel();
    assert_eq!(h.fire(), None);
}

#[test]
fn recognize_reopen_still_emits_image() {
    let mut ctx = Context::new();
    let desk = desk_at(10, 10, Platform::Windows);
    let first = recognize_window(&mut ctx, &desk);
    assert_eq!(
        first,
        vec![
            WindowCommand::Create { role: Role::Recognize, x: 0, y: 0, overlay_title: false, shadow: true },
            WindowCommand::SetPhysicalSize { width: 800, height: 400 },
            WindowCommand::Center,
            WindowCommand::EmitImage,
        ]
    );
    let second = recognize_window(&mut ctx, &desk);
    assert_eq!(second, vec![WindowCommand::Focus, WindowCommand::EmitImage]);
}

#[test]
fn recognize_uses_stored_size_and_display_scale() {
    let mut ctx = Context::new();
    ctx.settings.set(key(Role::Recognize, Dimension::Width), 500);
    let desk = desk_at(3000, 100, Platform::Windows);
    let cmds = recognize_window(&mut ctx, &desk);
    assert_eq!(cmds[1], WindowCommand::SetPhysicalSize { width: 1000, height: 800 });
    assert_eq!(ctx.settings.get(key(Role::Recognize, Dimension::Height)), Some(400));
}

#[test]
fn translate_window_follows_cursor() {
    let mut ctx = Context::new();
    let desk = desk_at(1800, 1000, Platform::Windows);
    let cmds = translate_window(&mut ctx, &desk, PositionMode::Mouse);
    assert_eq!(
        cmds,
        vec![
            WindowCommand::Create { role: Role::Translate, x: 0, y: 0, overlay_title: false, shadow: true },
            WindowCommand::SkipTaskbar,
            WindowCommand::SetPhysicalSize { width: 350, height: 420 },
            WindowCommand::SetPhysicalPosition { x: 1450, y: 580 },
        ]
    );
    assert_eq!(translate_window(&mut ctx, &desk, PositionMode::Mouse), vec![WindowCommand::Focus]);
}

#[test]
fn translate_window_scaled_on_hidpi_display() {
    let mut ctx = Context::new();
    let desk = desk_at(4000, 1000, Platform::Windows);
    let cmds = translate_window(&mut ctx, &desk, PositionMode::Mouse);
    assert_eq!(cmds[2], WindowCommand::SetPhysicalSize { width: 700, height: 840 });
    assert_eq!(cmds[3], WindowCommand::SetPhysicalPosition { x: 3300, y: 160 });
}

#[test]
fn translate_window_fixed_position() {
    let mut ctx = Context::new();
    ctx.settings.set(key(Role::Translate, Dimension::PositionX), 100);
    let desk = desk_at(2000, 10, Platform::Windows);
    let cmds = translate_window(&mut ctx, &desk, PositionMode::Fixed);
    assert_eq!(cmds[3], WindowCommand::SetPhysicalPosition { x: 200, y: 0 });
}

#[test]
fn selection_translate_replaces_pending_even_when_blank() {
    let mut ctx = Context::new();
    ctx.pending.replace("earlier");
    let desk = desk_at(0, 0, Platform::Windows);
    let cmds = selection_translate(&mut ctx, &desk, PositionMode::Mouse, " \t\n".to_string());
    assert_eq!(ctx.pending.0, " \t\n");
    assert_eq!(cmds.last(), Some(&WindowCommand::EmitText(" \t\n".to_string())));
    let cmds = selection_translate(&mut ctx, &desk, PositionMode::Mouse, "hello".to_string());
    assert_eq!(ctx.pending.0, "hello");
    assert_eq!(cmds, vec![WindowCommand::Focus, WindowCommand::EmitText("hello".to_string())]);
}

#[test]
fn text_translate_replaces_pending() {
    let mut ctx = Context::new();
    let desk = desk_at(0, 0, Platform::Windows);
    let cmds = text_translate(&mut ctx, &desk, PositionMode::Mouse, "你好".to_string());
    assert_eq!(ctx.pending.0, "你好");
    assert_eq!(cmds.len(), 5);
    assert_eq!(cmds[4], WindowCommand::EmitText("你好".to_string()));
}

#[test]
fn image_translate_sends_marker() {
    let mut ctx = Context::new();
    let desk = desk_at(0, 0, Platform::Windows);
    let cmds = image_translate(&mut ctx, &desk, PositionMode::Mouse);
    assert_eq!(ctx.pending.0, "[IMAGE_TRANSLATE]");
    assert_eq!(cmds.last(), Some(&WindowCommand::EmitText("[IMAGE_TRANSLATE]".to_string())));
}

#[test]
fn input_translate_on_open_window_leaves_it_in_place() {
    let mut ctx = Context::new();
    ctx.registry.note_live(Role::Translate);
    let desk = desk_at(0, 0, Platform::Windows);
    let cmds = input_translate(&mut ctx, &desk, PositionMode::Mouse);
    assert_eq!(ctx.pending.0, "[INPUT_TRANSLATE_FROM_TRAY]");
    assert_eq!(
        cmds,
        vec![
            WindowCommand::Show,
            WindowCommand::Focus,
            WindowCommand::EmitText("[INPUT_TRANSLATE_FROM_TRAY]".to_string()),
        ]
    );
    let cmds = input_translate(&mut ctx, &desk, PositionMode::Fixed);
    assert_eq!(cmds.len(), 3);
}

#[test]
fn input_translate_creates_window_when_closed() {
    let mut ctx = Context::new();
    let desk = desk_at(0, 0, Platform::Windows);
    let cmds = input_translate(&mut ctx, &desk, PositionMode::Mouse);
    assert_eq!(cmds.len(), 6);
    assert_eq!(cmds[4], WindowCommand::Center);
    assert!(ctx.registry.is_live(Role::Translate));
}

#[test]
fn ocr_opens_fullscreen_capture_with_handoff() {
    let mut ctx = Context::new();
    let desk = desk_at(0, 0, Platform::Windows);
    let (cmds, mut h) = ocr_recognize(&mut ctx, &desk);
    assert_eq!(
        cmds,
        vec![
            WindowCommand::Create { role: Role::Screenshot, x: 0, y: 0, overlay_title: false, shadow: false },
            WindowCommand::SkipTaskbar,
            WindowCommand::Fullscreen,
            WindowCommand::AlwaysOnTop,
        ]
    );
    let next = h.fire().unwrap();
    let after = run_next(&mut ctx, &desk, PositionMode::Mouse, next);
    assert_eq!(after.last(), Some(&WindowCommand::EmitImage));
    assert_eq!(h.fire(), None);
}

#[test]
fn ocr_translate_on_macos_covers_display() {
    let mut ctx = Context::new();
    let desk = desk_at(2000, 10, Platform::MacOs);
    let (cmds, h) = ocr_translate(&mut ctx, &desk);
    assert_eq!(h, CaptureHandoff { next: NextAction::TranslateImage, armed: true });
    assert_eq!(
        cmds[1..].to_vec(),
        vec![
            WindowCommand::SkipTaskbar,
            WindowCommand::RemoveDecorations,
            WindowCommand::SetPhysicalSize { width: 2560, height: 1440 },
            WindowCommand::AlwaysOnTop,
        ]
    );
    let after = run_next(&mut ctx, &desk, PositionMode::Mouse, h.next);
    assert_eq!(ctx.pending.0, "[IMAGE_TRANSLATE]");
    assert_eq!(after.len(), 5);
}

#[test]
fn config_and_updater_have_fixed_geometry() {
    let mut ctx = Context::new();
    let desk = desk_at(0, 0, Platform::Windows);
    let cmds = config_window(&mut ctx, &desk);
    assert_eq!(
        cmds[1..].to_vec(),
        vec![
            WindowCommand::SetLogicalMinSize { width: 800, height: 400 },
            WindowCommand::SetLogicalSize { width: 800, height: 600 },
            WindowCommand::Center,
        ]
    );
    let cmds = updater_window(&mut ctx, &desk);
    assert_eq!(cmds[2], WindowCommand::SetLogicalSize { width: 600, height: 400 });
    let again = updater_window(&mut ctx, &desk);
    assert_eq!(again[0], WindowCommand::Focus);
    assert_eq!(ctx.settings.get(key(Role::Config, Dimension::Width)), None);
}

#[test]
fn pending_text_wrapper_replaces_whole_text() {
    let mut p = StringWrapper::new();
    p.replace("first text");
    p.replace("2nd");
    assert_eq!(p.0, "2nd");
}

#[test]
fn role_labels_and_errors() {
    assert_eq!(Role::Screenshot.label(), "screenshot");
    assert_eq!(Role::Daemon.label(), "daemon");
    assert_eq!(Role::Daemon.title(), "Daemon");
    assert_eq!(Role::Translate.title(), "翻译");
    assert_eq!(Role::Updater.label(), "updater");
    assert_ne!(WindowError::BuildFailed, WindowError::SetPropertyFailed);
}
