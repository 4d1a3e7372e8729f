use std::cell::Cell;
use std::collections::VecDeque;

use cococa_clip::hotkey::{
    binding_preview_text, init_hotkey, key_binding_from_event, key_label, modifier_symbol,
    BindingModifier, HotKeyCommand, HotKeyEventRecord,
    WakeHotKey, BINDING_REJECTED_MESSAGE, MODIFIER_FLAG_COMMAND, MODIFIER_FLAG_CONTROL,
    MODIFIER_FLAG_OPTION, MODIFIER_FLAG_SHIFT,
};
use cococa_clip::icons::{render_svg_png, PNG_DATA_ERROR, PNG_HEADER_ERROR};
use cococa_clip::paste::{commit_current_clipboard, commit_text, is_blank, CommitAction, CommitEvent};
use cococa_clip::tray::{init_tray, tray_icon_rgba, TrayCommand, TrayMenuIds};

#[test]
fn wake_press_behind_other_events_is_found() {
    let wake = WakeHotKey { id: 7 };
    let mut pending: VecDeque<HotKeyEventRecord> = VecDeque::new();
    pending.push_back(HotKeyEventRecord { id: 3, pressed: true });
    pending.push_back(HotKeyEventRecord { id: 7, pressed: false });
    pending.push_back(HotKeyEventRecord { id: 7, pressed: true });
    pending.push_back(HotKeyEventRecord { id: 9, pressed: true });
    assert_eq!(wake.poll_command(&mut pending), Some(HotKeyCommand::ShowWindow));
    assert_eq!(pending.len(), 1);
    assert_eq!(pending[0], HotKeyEventRecord { id: 9, pressed: true });
    assert_eq!(wake.poll_command(&mut pending), None);
    assert!(pending.is_empty());
    assert_eq!(wake.poll_command(&mut pending), None);
}

#[test]
fn hotkey_event_commands() {
    let wake = WakeHotKey { id: 1 };
    assert_eq!(
        wake.command_for_event(HotKeyEventRecord { id: 1, pressed: true }),
        Some(HotKeyCommand::ShowWindow)
    );
    assert_eq!(wake.command_for_event(HotKeyEventRecord { id: 1, pressed: false }), None);
    assert_eq!(wake.command_for_event(HotKeyEventRecord { id: 2, pressed: true }), None);
}

#[test]
fn tray_menu_clicks() {
    let ids = TrayMenuIds { show_id: "show".to_string(), quit_id: "quit".to_string() };
    let mut pending: VecDeque<String> = VecDeque::new();
    pending.push_back("other".to_string());
    pending.push_back("quit".to_string());
    pending.push_back("show".to_string());
    assert_eq!(ids.poll_command(&mut pending), Some(TrayCommand::Quit));
    assert_eq!(ids.poll_command(&mut pending), Some(TrayCommand::ShowWindow));
    assert_eq!(ids.poll_command(&mut pending), None);
    assert_eq!(ids.command_for_event(&"show".to_string()), Some(TrayCommand::ShowWindow));
    assert_eq!(ids.command_for_event(&"nope".to_string()), None);
}

#[test]
fn init_creates_once() {
    let mut slot: Option<u32> = None;
    assert_eq!(init_hotkey(&mut slot, || Ok(5)), Ok(()));
    assert_eq!(slot, Some(5));
    let called = Cell::new(false);
    assert_eq!(
        init_hotkey(&mut slot, || {
            called.set(true);
            Ok(6)
        }),
        Ok(())
    );
    assert_eq!(slot, Some(5));
    assert!(!called.get());

    let mut tray: Option<String> = None;
    assert_eq!(
        init_tray(&mut tray, || Err("Failed to create tray icon: x".to_string())),
        Err("Failed to create tray icon: x".to_string())
    );
    assert!(tray.is_none());
    assert_eq!(init_tray(&mut tray, || Ok("tray".to_string())), Ok(()));
    assert_eq!(tray.as_deref(), Some("tray"));
}

#[test]
fn tray_icon_is_a_white_disc() {
    let rgba = tray_icon_rgba();
    assert_eq!(rgba.len(), 18 * 18 * 4);
    let size = 18usize;
    for y in 0..size {
        for x in 0..size {
            let dx = x as f64 - (size as f64 * 0.5 - 0.5);
            let dy = y as f64 - (size as f64 * 0.5 - 0.5);
            let r = (dx * dx + dy * dy).sqrt();
            let alpha = if r < 7.6 { 255u8 } else { 0u8 };
            let index = (y * size + x) * 4;
            assert_eq!(&rgba[index..index + 4], &[255, 255, 255, alpha]);
        }
    }
    assert_eq!(rgba[(9 * 18 + 9) * 4 + 3], 255);
    assert_eq!(rgba[3], 0);
}

#[test]
fn blank_text_is_not_pasted() {
    let called = Cell::new(false);
    let r = commit_text("  \n\t", |_| {
        called.set(true);
        Ok(())
    });
    assert_eq!(r, Ok(()));
    assert!(!called.get());
    assert!(is_blank(""));
    assert!(is_blank("\u{3000}"));
    assert!(!is_blank(" a "));
}

#[test]
fn text_is_handed_to_the_paste() {
    let seen = Cell::new(false);
    let r = commit_text(" hi ", |content| {
        assert_eq!(content, " hi ");
        seen.set(true);
        Err("写入系统剪贴板失败: x".to_string())
    });
    assert_eq!(r, Err("写入系统剪贴板失败: x".to_string()));
    assert!(seen.get());
}

#[test]
fn rendered_icon_is_encoded_as_png() {
    let png = render_svg_png(Ok(vec![255, 0, 0, 255]), 1).unwrap();
    assert_eq!(&png[..8], &[137, 80, 78, 71, 13, 10, 26, 10]);
    assert_ne!(png, vec![255, 0, 0, 255]);
    assert!(render_svg_png(Ok(vec![1, 2, 3]), 1).is_err());
    assert!(render_svg_png(Ok(Vec::new()), 0).is_err());
    assert_eq!(
        render_svg_png(Err("Failed to parse SVG icon: x".to_string()), 22),
        Err("Failed to parse SVG icon: x".to_string())
    );
}

#[test]
fn png_errors_name_the_failed_step() {
    assert_eq!(
        render_svg_png(Ok(Vec::new()), 0),
        Err(format!("{PNG_HEADER_ERROR}Zero width not allowed"))
    );
    assert_eq!(
        render_svg_png(Ok(vec![1, 2, 3]), 1),
        Err(format!("{PNG_DATA_ERROR}wrong data size, expected 4 got 3"))
    );
    let square = render_svg_png(Ok(vec![0; 300 * 300 * 4]), 300).unwrap();
    assert_eq!(
        &square[..29],
        &[
            137, 80, 78, 71, 13, 10, 26, 10, 0, 0, 0, 13, 73, 72, 68, 82, 0, 0, 1, 44, 0, 0, 1,
            44, 8, 6, 0, 0, 0
        ]
    );
}

#[test]
fn one_modifier_and_a_letter_make_a_binding() {
    assert_eq!(key_binding_from_event(8, MODIFIER_FLAG_OPTION), Ok((BindingModifier::Option, 8)));
    assert_eq!(key_binding_from_event(0, MODIFIER_FLAG_COMMAND | 0x100), Ok((BindingModifier::Command, 0)));
    assert_eq!(key_binding_from_event(29, MODIFIER_FLAG_SHIFT), Ok((BindingModifier::Shift, 29)));
    assert_eq!(key_binding_from_event(46, MODIFIER_FLAG_CONTROL), Ok((BindingModifier::Control, 46)));
    let rejected = Err(BINDING_REJECTED_MESSAGE.to_string());
    assert_eq!(key_binding_from_event(8, 0), rejected);
    assert_eq!(key_binding_from_event(8, MODIFIER_FLAG_OPTION | MODIFIER_FLAG_SHIFT), rejected);
    assert_eq!(key_binding_from_event(10, MODIFIER_FLAG_OPTION), rejected);
    assert_eq!(key_binding_from_event(53, MODIFIER_FLAG_COMMAND), rejected);
}

fn run_commit(
    found: Result<i32, String>,
    activated: Result<(), String>,
    primary: Result<(), String>,
    legacy: Result<(), String>,
) -> (Result<(), String>, Vec<&'static str>) {
    let mut steps = Vec::new();
    let mut action = commit_current_clipboard(CommitEvent::FrontmostFound(found));
    loop {
        let event = match action {
            CommitAction::Activate(pid) => {
                assert_eq!(pid, 42);
                steps.push("activate");
                CommitEvent::Activated(activated.clone())
            }
            CommitAction::Settle => {
                steps.push("settle");
                CommitEvent::Settled
            }
            CommitAction::SendPrimary => {
                steps.push("primary");
                CommitEvent::PrimarySent(primary.clone())
            }
            CommitAction::SendLegacy => {
                steps.push("legacy");
                CommitEvent::LegacySent(legacy.clone())
            }
            CommitAction::Finish(result) => return (result, steps),
        };
        action = commit_current_clipboard(event);
    }
}

#[test]
fn paste_falls_back_and_ignores_activation() {
    assert_eq!(
        run_commit(Ok(42), Err("no".to_string()), Err("primary".to_string()), Ok(())),
        (Ok(()), vec!["activate", "primary", "legacy"])
    );
    assert_eq!(
        run_commit(Ok(42), Ok(()), Ok(()), Err("unused".to_string())),
        (Ok(()), vec!["activate", "settle", "primary"])
    );
    assert_eq!(
        run_commit(Ok(42), Ok(()), Err("primary".to_string()), Err("legacy".to_string())),
        (Err("legacy".to_string()), vec!["activate", "settle", "primary", "legacy"])
    );
    assert_eq!(
        run_commit(Err("no front app".to_string()), Ok(()), Ok(()), Ok(())),
        (Err("no front app".to_string()), vec![])
    );
}

#[test]
fn bindings_are_shown_with_symbol_and_key() {
    assert_eq!(binding_preview_text(BindingModifier::Option, 8), "⌥ + C");
    assert_eq!(binding_preview_text(BindingModifier::Command, 29), "⌘ + 0");
    assert_eq!(modifier_symbol(BindingModifier::Control), "⌃");
    assert_eq!(modifier_symbol(BindingModifier::Shift), "⇧");
    assert_eq!(key_label(46), "M");
    assert_eq!(key_label(25), "9");
    assert_eq!(key_label(53), "?");
    for code in 0u16..128 {
        let accepted = key_binding_from_event(code, MODIFIER_FLAG_OPTION).is_ok();
        assert_eq!(accepted, key_label(code) != "?");
    }
}
