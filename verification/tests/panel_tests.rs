use cococa_clip::ui::controller_state::KeyEventStep;
use cococa_clip::ui::panel::{
    panel_placeholder_text, PanelHotkeyEditor, HOTKEY_SETTINGS_IDLE_HINT,
    HOTKEY_SETTINGS_PENDING_HINT, HOTKEY_SETTINGS_RECORDING_HINT, HOTKEY_SETTINGS_REJECTED_HINT,
    HOTKEY_SETTINGS_UNCHANGED_HINT, PANEL_CAPTURE_CANCEL_KEYCODE,
};

#[test]
fn panel_editor_starts_idle_and_hidden() {
    let editor: PanelHotkeyEditor<u32> = PanelHotkeyEditor::new();
    assert!(!editor.settings_visible);
    assert!(!editor.recording);
    assert_eq!(editor.hotkey_draft_binding(), None);
    assert_eq!(editor.view.hint, HOTKEY_SETTINGS_IDLE_HINT);
    assert!(!editor.view.record_hidden);
    assert!(editor.view.save_hidden && editor.view.cancel_hidden);
    assert!(!editor.view.save_enabled);
    assert!(editor.focuses_input_on_show());
}

#[test]
fn panel_draft_reads_back_what_was_set() {
    let mut editor: PanelHotkeyEditor<u32> = PanelHotkeyEditor::new();
    editor.set_hotkey_draft_binding(Some(9));
    assert_eq!(editor.hotkey_draft_binding(), Some(9));
    editor.set_hotkey_draft_binding(None);
    assert_eq!(editor.hotkey_draft_binding(), None);
}

#[test]
fn panel_recording_flow_to_saved_binding() {
    let mut editor: PanelHotkeyEditor<u32> = PanelHotkeyEditor::new();
    editor.transition_settings_page(true);
    assert!(editor.settings_visible);
    assert!(!editor.focuses_input_on_show());
    assert_eq!(editor.key_event_step(false, 8), KeyEventStep::PassThrough);

    editor.begin_hotkey_recording();
    assert!(editor.recording);
    assert_eq!(editor.view.hint, HOTKEY_SETTINGS_RECORDING_HINT);
    assert!(editor.view.record_hidden && !editor.view.cancel_hidden && !editor.view.save_hidden);
    assert!(!editor.view.save_enabled);
    assert_eq!(editor.key_event_step(true, 8), KeyEventStep::SwallowRepeat);
    assert_eq!(editor.key_event_step(false, PANEL_CAPTURE_CANCEL_KEYCODE), KeyEventStep::Cancel);
    assert_eq!(editor.key_event_step(false, 8), KeyEventStep::Capture);

    editor.apply_captured_binding(Ok(21), false);
    assert!(!editor.recording);
    assert_eq!(editor.hotkey_draft_binding(), Some(21));
    assert_eq!(editor.view.hint, HOTKEY_SETTINGS_PENDING_HINT);
    assert!(editor.view.save_enabled && !editor.view.save_hidden);

    editor.finish_save(true);
    assert_eq!(editor.hotkey_draft_binding(), None);
    assert_eq!(editor.view.hint, HOTKEY_SETTINGS_IDLE_HINT);
    assert!(!editor.view.record_hidden && editor.view.save_hidden && editor.view.cancel_hidden);
}

#[test]
fn panel_refused_save_keeps_binding() {
    let mut editor: PanelHotkeyEditor<u32> = PanelHotkeyEditor::new();
    editor.begin_hotkey_recording();
    editor.apply_captured_binding(Ok(5), false);
    editor.finish_save(false);
    assert!(!editor.recording);
    assert_eq!(editor.hotkey_draft_binding(), Some(5));
    assert_eq!(editor.view.hint, HOTKEY_SETTINGS_REJECTED_HINT);
    assert!(editor.view.save_enabled);
}

#[test]
fn panel_capture_errors_and_unchanged() {
    let mut editor: PanelHotkeyEditor<u32> = PanelHotkeyEditor::new();
    editor.begin_hotkey_recording();
    editor.apply_captured_binding(Err("需要一个修饰键"), false);
    assert!(editor.recording);
    assert_eq!(editor.view.hint, "需要一个修饰键");
    assert_eq!(editor.hotkey_draft_binding(), None);

    editor.apply_captured_binding(Ok(1), true);
    assert!(!editor.recording);
    assert_eq!(editor.hotkey_draft_binding(), None);
    assert_eq!(editor.view.hint, HOTKEY_SETTINGS_UNCHANGED_HINT);
    assert!(!editor.view.record_hidden);
}

#[test]
fn panel_cancel_only_when_needed() {
    let mut editor: PanelHotkeyEditor<u32> = PanelHotkeyEditor::new();
    assert!(!editor.cancel_hotkey_recording_if_needed());
    editor.begin_hotkey_recording();
    assert!(editor.cancel_hotkey_recording_if_needed());
    assert!(!editor.recording);
    assert_eq!(editor.view.hint, HOTKEY_SETTINGS_IDLE_HINT);

    editor.set_hotkey_draft_binding(Some(2));
    assert!(editor.cancel_hotkey_recording_if_needed());
    assert_eq!(editor.hotkey_draft_binding(), None);
}

#[test]
fn panel_leaving_settings_resets_editor() {
    let mut editor: PanelHotkeyEditor<u32> = PanelHotkeyEditor::new();
    editor.transition_settings_page(true);
    editor.begin_hotkey_recording();
    editor.apply_captured_binding(Ok(4), false);
    editor.transition_settings_page(false);
    assert!(!editor.settings_visible);
    assert!(!editor.recording);
    assert_eq!(editor.hotkey_draft_binding(), None);
    assert_eq!(editor.view.hint, HOTKEY_SETTINGS_IDLE_HINT);
    assert!(editor.focuses_input_on_show());
}

#[test]
fn panel_placeholder_texts() {
    assert_eq!(panel_placeholder_text(false, 0), Some("历史加载失败"));
    assert_eq!(panel_placeholder_text(false, 3), Some("历史加载失败"));
    assert_eq!(panel_placeholder_text(true, 0), Some("复制的内容会显示在这里"));
    assert_eq!(panel_placeholder_text(true, 2), None);
}
