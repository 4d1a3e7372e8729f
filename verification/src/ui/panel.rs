use vstd::prelude::*;

use crate::text::push_str;
use crate::ui::controller_state::{KeyEventStep, SettingsView, SettingsViewModel};

verus! {

/// Hint of the settings page while nothing is recorded.
pub const HOTKEY_SETTINGS_IDLE_HINT: &'static str = "点击“录制新快捷键”后按下组合键，确认无误再保存";

/// Hint of the settings page while a combination is being recorded.
pub const HOTKEY_SETTINGS_RECORDING_HINT: &'static str =
    "请按下新的快捷键组合，按 Esc 或点“取消”放弃修改";

/// Hint of the settings page while a recorded binding waits to be saved.
pub const HOTKEY_SETTINGS_PENDING_HINT: &'static str =
    "新的快捷键已录制，点击“保存”应用，或点“取消”保留原绑定";

/// Hint after the system refused a binding.
pub const HOTKEY_SETTINGS_REJECTED_HINT: &'static str = "系统未接受该快捷键，请换一个组合";

/// Hint after the recorded combination turned out to be the current binding.
pub const HOTKEY_SETTINGS_UNCHANGED_HINT: &'static str = "该组合已是当前绑定，无需重复保存";

/// The key code of Escape, which cancels a recording.
pub const PANEL_CAPTURE_CANCEL_KEYCODE: u16 = 53;

/// The settings page of the panel for a recording state, a waiting binding
/// or none, and an optional message: the message, else the hint for the
/// state; the record button while idle without a waiting binding; save and
/// cancel while recording or with a waiting binding, save enabled only for
/// a waiting binding.
pub open spec fn panel_settings_view(recording: bool, has_draft: bool, message: Option<Seq<char>>) -> SettingsViewModel {
    SettingsViewModel {
        hint: match message {
            Some(m) => m,
            None => if recording {
                HOTKEY_SETTINGS_RECORDING_HINT@
            } else if has_draft {
                HOTKEY_SETTINGS_PENDING_HINT@
            } else {
                HOTKEY_SETTINGS_IDLE_HINT@
            },
        },
        record_hidden: recording || has_draft,
        save_hidden: !recording && !has_draft,
        cancel_hidden: !recording && !has_draft,
        save_enabled: has_draft,
    }
}

/// The model of an optional message.
pub open spec fn panel_message_view(message: Option<&str>) -> Option<Seq<char>> {
    match message {
        Some(m) => Some(m@),
        None => None,
    }
}

/// What the history list of the panel shows in place of rows, if anything.
pub open spec fn panel_placeholder(loaded: bool, entry_count: nat) -> Option<Seq<char>> {
    if !loaded {
        Some("历史加载失败"@)
    } else if entry_count == 0 {
        Some("复制的内容会显示在这里"@)
    } else {
        None
    }
}

/// The text the history list of the panel shows in place of rows.
pub fn panel_placeholder_text(loaded: bool, entry_count: usize) -> (r: Option<&'static str>)
    ensures
        match r {
            Some(t) => panel_placeholder(loaded, entry_count as nat) == Some(t@),
            None => panel_placeholder(loaded, entry_count as nat) is None,
        },
{
    if !loaded {
        Some("历史加载失败")
    } else if entry_count == 0 {
        Some("复制的内容会显示在这里")
    } else {
        None
    }
}

/// The state of the hot key editor on the settings page of the panel.
pub struct PanelHotkeyEditor<B> {
    pub settings_visible: bool,
    pub recording: bool,
    pub draft: Option<B>,
    pub view: SettingsView,
}

fn panel_hint_text(recording: bool, has_draft: bool, message: Option<&str>) -> (r: String)
    ensures
        r@ == panel_settings_view(recording, has_draft, panel_message_view(message)).hint,
{
    let text = match message {
        Some(m) => m,
        None => if recording {
            HOTKEY_SETTINGS_RECORDING_HINT
        } else if has_draft {
            HOTKEY_SETTINGS_PENDING_HINT
        } else {
            HOTKEY_SETTINGS_IDLE_HINT
        },
    };
    let mut r = String::new();
    push_str(&mut r, text);
    assert(r@ =~= text@);
    r
}

impl<B: Copy> PanelHotkeyEditor<B> {
    /// An editor with the settings page hidden, nothing recorded and the
    /// idle hint.
    pub fn new() -> (r: PanelHotkeyEditor<B>)
        ensures
            !r.settings_visible,
            !r.recording,
            r.draft is None,
            r.view@ == panel_settings_view(false, false, None),
    {
        let view = SettingsView {
            hint: panel_hint_text(false, false, None),
            record_hidden: false,
            save_hidden: true,
            cancel_hidden: true,
            save_enabled: false,
        };
        PanelHotkeyEditor { settings_visible: false, recording: false, draft: None, view }
    }

    /// The recorded binding that waits to be saved.
    pub fn hotkey_draft_binding(&self) -> (r: Option<B>)
        ensures
            r == self.draft,
    {
        self.draft
    }

    /// Sets the recorded binding that waits to be saved.
    pub fn set_hotkey_draft_binding(&mut self, binding: Option<B>)
        ensures
            final(self).draft == binding,
            final(self).recording == old(self).recording,
            final(self).settings_visible == old(self).settings_visible,
            final(self).view == old(self).view,
    {
        self.draft = binding;
    }

    /// Sets whether a combination is being recorded and redraws the page,
    /// showing `message` in place of the hint for the state where one is
    /// given.
    pub fn set_hotkey_recording(&mut self, recording: bool, message: Option<&str>)
        ensures
            final(self).recording == recording,
            final(self).draft == old(self).draft,
            final(self).settings_visible == old(self).settings_visible,
            final(self).view@ == panel_settings_view(
                recording,
                old(self).draft is Some,
                panel_message_view(message),
            ),
    {
        let has_draft = self.draft.is_some();
        self.recording = recording;
        self.view = SettingsView {
            hint: panel_hint_text(recording, has_draft, message),
            record_hidden: recording || has_draft,
            save_hidden: !recording && !has_draft,
            cancel_hidden: !recording && !has_draft,
            save_enabled: has_draft,
        };
    }

    /// Drops the waiting binding and ends any recording.
    pub fn reset_hotkey_editor(&mut self)
        ensures
            !final(self).recording,
            final(self).draft is None,
            final(self).settings_visible == old(self).settings_visible,
            final(self).view@ == panel_settings_view(false, false, None),
    {
        self.set_hotkey_draft_binding(None);
        self.set_hotkey_recording(false, None);
    }

    /// Resets the editor where a recording runs or a binding waits; tells
    /// whether it did.
    pub fn cancel_hotkey_recording_if_needed(&mut self) -> (reset: bool)
        ensures
            reset == (old(self).recording || old(self).draft is Some),
            reset ==> !final(self).recording && final(self).draft is None && final(self).view@
                == panel_settings_view(false, false, None),
            !reset ==> *final(self) == *old(self),
            final(self).settings_visible == old(self).settings_visible,
    {
        if self.recording || self.draft.is_some() {
            self.reset_hotkey_editor();
            true
        } else {
            false
        }
    }

    /// "Record new hot key": any waiting binding is dropped.
    pub fn begin_hotkey_recording(&mut self)
        ensures
            final(self).recording,
            final(self).draft is None,
            final(self).settings_visible == old(self).settings_visible,
            final(self).view@ == panel_settings_view(true, false, None),
    {
        self.set_hotkey_draft_binding(None);
        self.set_hotkey_recording(true, None);
    }

    /// The outcome of saving the waiting binding: accepted, it is no longer
    /// waiting; refused, it stays and the page says so.
    pub fn finish_save(&mut self, accepted: bool)
        ensures
            !final(self).recording,
            final(self).settings_visible == old(self).settings_visible,
            accepted ==> final(self).draft is None && final(self).view@ == panel_settings_view(
                false,
                false,
                None,
            ),
            !accepted ==> final(self).draft == old(self).draft && final(self).view@
                == panel_settings_view(
                false,
                old(self).draft is Some,
                Some(HOTKEY_SETTINGS_REJECTED_HINT@),
            ),
    {
        if accepted {
            self.set_hotkey_draft_binding(None);
            self.set_hotkey_recording(false, None);
        } else {
            self.set_hotkey_recording(false, Some(HOTKEY_SETTINGS_REJECTED_HINT));
        }
    }

    /// What a key press does: outside a recording it passes through; a
    /// repeat is swallowed; Escape cancels; any other key is captured.
    pub fn key_event_step(&self, is_repeat: bool, key_code: u16) -> (r: KeyEventStep)
        ensures
            r == (if !self.recording {
                KeyEventStep::PassThrough
            } else if is_repeat {
                KeyEventStep::SwallowRepeat
            } else if key_code == PANEL_CAPTURE_CANCEL_KEYCODE {
                KeyEventStep::Cancel
            } else {
                KeyEventStep::Capture
            }),
    {
        if !self.recording {
            KeyEventStep::PassThrough
        } else if is_repeat {
            KeyEventStep::SwallowRepeat
        } else if key_code == PANEL_CAPTURE_CANCEL_KEYCODE {
            KeyEventStep::Cancel
        } else {
            KeyEventStep::Capture
        }
    }

    /// Takes in the binding made of a captured key press: a key that makes
    /// no binding keeps the recording going with the reason shown; the
    /// current binding is not offered again; any other binding waits to be
    /// saved.
    pub fn apply_captured_binding(&mut self, captured: Result<B, &str>, matches_current: bool)
        ensures
            final(self).settings_visible == old(self).settings_visible,
            match captured {
                Err(reason) => {
                    &&& final(self).recording
                    &&& final(self).draft == old(self).draft
                    &&& final(self).view@ == panel_settings_view(
                        true,
                        old(self).draft is Some,
                        Some(reason@),
                    )
                },
                Ok(binding) => if matches_current {
                    &&& !final(self).recording
                    &&& final(self).draft is None
                    &&& final(self).view@ == panel_settings_view(
                        false,
                        false,
                        Some(HOTKEY_SETTINGS_UNCHANGED_HINT@),
                    )
                } else {
                    &&& !final(self).recording
                    &&& final(self).draft == Some(binding)
                    &&& final(self).view@ == panel_settings_view(false, true, None)
                },
            },
    {
        match captured {
            Err(reason) => {
                self.set_hotkey_recording(true, Some(reason));
            },
            Ok(binding) => {
                if matches_current {
                    self.set_hotkey_draft_binding(None);
                    self.set_hotkey_recording(false, Some(HOTKEY_SETTINGS_UNCHANGED_HINT));
                } else {
                    self.set_hotkey_draft_binding(Some(binding));
                    self.set_hotkey_recording(false, None);
                }
            },
        }
    }

    /// Slides the settings page in or out: the editor is reset either way
    /// and the page is marked visible or hidden.
    pub fn transition_settings_page(&mut self, show_settings: bool)
        ensures
            final(self).settings_visible == show_settings,
            !final(self).recording,
            final(self).draft is None,
            final(self).view@ == panel_settings_view(false, false, None),
    {
        if !show_settings {
            self.reset_hotkey_editor();
        }
        self.settings_visible = show_settings;
        if show_settings {
            self.reset_hotkey_editor();
        }
    }

    /// Whether showing the panel puts the focus into the search field: not
    /// while the settings page is up.
    pub fn focuses_input_on_show(&self) -> (r: bool)
        ensures
            r == !self.settings_visible,
    {
        !self.settings_visible
    }
}

/// On the panel's settings page, save and cancel always show together, and
/// the record button shows exactly when they do not.
pub proof fn lemma_panel_view_consistent(recording: bool, has_draft: bool, message: Option<Seq<char>>)
    ensures
        panel_settings_view(recording, has_draft, message).save_hidden == panel_settings_view(
            recording,
            has_draft,
            message,
        ).cancel_hidden,
        panel_settings_view(recording, has_draft, message).record_hidden != panel_settings_view(
            recording,
            has_draft,
            message,
        ).cancel_hidden,
        panel_settings_view(recording, has_draft, message).save_enabled ==> !panel_settings_view(
            recording,
            has_draft,
            message,
        ).save_hidden,
{
}

/// The buttons of the panel's settings page follow the editor's state
/// alone, whatever message is shown: the record button shows exactly when
/// nothing is being recorded and no binding waits; save and cancel show
/// exactly when it does not; save is enabled exactly when a binding waits.
/// A message, if any, is the hint.
pub proof fn lemma_panel_buttons_follow_state(
    recording: bool,
    has_draft: bool,
    message: Option<Seq<char>>,
    other: Option<Seq<char>>,
)
    ensures
        ({
            let v = panel_settings_view(recording, has_draft, message);
            let w = panel_settings_view(recording, has_draft, other);
            &&& v.record_hidden == w.record_hidden
            &&& v.cancel_hidden == w.cancel_hidden
            &&& v.save_hidden == w.save_hidden
            &&& v.save_enabled == w.save_enabled
            &&& !recording && !has_draft ==> !v.record_hidden && v.cancel_hidden && v.save_hidden
            &&& recording || has_draft ==> v.record_hidden && !v.cancel_hidden && !v.save_hidden
            &&& v.save_enabled == has_draft
            &&& message matches Some(m) ==> v.hint == m
        }),
{
}

} // verus!
