use vstd::prelude::*;

use crate::text::push_str;

verus! {

/// Hint while nothing is being recorded and no new binding waits.
pub const HOTKEY_HINT_IDLE: &'static str = "准备好后点击“开始录制”";

/// Hint while a key combination is being recorded.
pub const HOTKEY_HINT_RECORDING: &'static str = "正在录制中，按下组合键（Esc 可取消）";

/// Hint while a recorded binding waits to be saved.
pub const HOTKEY_HINT_PENDING: &'static str = "已捕获新组合，点击保存立即生效";

/// Hint after the system refused a binding.
pub const HOTKEY_HINT_REJECTED: &'static str = "系统未接受该快捷键，请换一个组合";

/// Hint after the recorded combination turned out to be the current binding.
pub const HOTKEY_HINT_UNCHANGED: &'static str = "该组合已是当前绑定，无需保存";

/// The key code of Escape, which cancels a recording.
pub const HOTKEY_CAPTURE_CANCEL_KEYCODE: u16 = 53;

/// What the settings page shows about the hot key editor.
#[derive(Debug, Clone)]
pub struct SettingsView {
    pub hint: String,
    pub record_hidden: bool,
    pub save_hidden: bool,
    pub cancel_hidden: bool,
    pub save_enabled: bool,
}

/// The model of a settings view.
pub struct SettingsViewModel {
    pub hint: Seq<char>,
    pub record_hidden: bool,
    pub save_hidden: bool,
    pub cancel_hidden: bool,
    pub save_enabled: bool,
}

impl View for SettingsView {
    type V = SettingsViewModel;

    open spec fn view(&self) -> SettingsViewModel {
        SettingsViewModel {
            hint: self.hint@,
            record_hidden: self.record_hidden,
            save_hidden: self.save_hidden,
            cancel_hidden: self.cancel_hidden,
            save_enabled: self.save_enabled,
        }
    }
}

/// The settings page for a recording state, a waiting binding or none, and
/// an optional message: the message, else the hint for the state; the record
/// button while idle without a waiting binding; save only for a waiting
/// binding; cancel while recording or with a waiting binding.
pub open spec fn settings_view(recording: bool, has_draft: bool, message: Option<Seq<char>>) -> SettingsViewModel {
    SettingsViewModel {
        hint: match message {
            Some(m) => m,
            None => if recording {
                HOTKEY_HINT_RECORDING@
            } else if has_draft {
                HOTKEY_HINT_PENDING@
            } else {
                HOTKEY_HINT_IDLE@
            },
        },
        record_hidden: recording || has_draft,
        save_hidden: !has_draft,
        cancel_hidden: !(recording || has_draft),
        save_enabled: has_draft,
    }
}

/// The model of an optional message.
pub open spec fn message_view(message: Option<&str>) -> Option<Seq<char>> {
    match message {
        Some(m) => Some(m@),
        None => None,
    }
}

/// What a key press does while the settings page is up.
#[derive(Debug, Clone, Copy, PartialEq, Eq, Structural)]
pub enum KeyEventStep {
    /// Not recording: the key goes to the application.
    PassThrough,
    /// A repeat while recording: swallowed.
    SwallowRepeat,
    /// Escape while recording: the recording ends without a binding.
    Cancel,
    /// Any other key while recording: its binding is to be captured.
    Capture,
}

/// The state of the hot key editor on the settings page: whether the page is
/// up, whether a combination is being recorded, the recorded binding that
/// waits to be saved, and what the page shows.
pub struct HotkeyEditor<B> {
    pub settings_visible: bool,
    pub recording: bool,
    pub draft: Option<B>,
    pub view: SettingsView,
}

fn hint_text(recording: bool, has_draft: bool, message: Option<&str>) -> (r: String)
    ensures
        r@ == settings_view(recording, has_draft, message_view(message)).hint,
{
    let text = match message {
        Some(m) => m,
        None => if recording {
            HOTKEY_HINT_RECORDING
        } else if has_draft {
            HOTKEY_HINT_PENDING
        } else {
            HOTKEY_HINT_IDLE
        },
    };
    let mut r = String::new();
    push_str(&mut r, text);
    assert(r@ =~= text@);
    r
}

impl<B: Copy> HotkeyEditor<B> {
    /// An editor with the settings page hidden, nothing recorded and the
    /// idle hint.
    pub fn new() -> (r: HotkeyEditor<B>)
        ensures
            !r.settings_visible,
            !r.recording,
            r.draft is None,
            r.view@ == settings_view(false, false, None),
    {
        let view = SettingsView {
            hint: hint_text(false, false, None),
            record_hidden: false,
            save_hidden: true,
            cancel_hidden: true,
            save_enabled: false,
        };
        HotkeyEditor { settings_visible: false, recording: false, draft: None, view }
    }

    /// The recorded binding that waits to be saved.
    pub fn hotkey_draft(&self) -> (r: Option<B>)
        ensures
            r == self.draft,
    {
        self.draft
    }

    /// Sets the recorded binding that waits to be saved; the page is redrawn
    /// by the next `set_recording_state`.
    pub fn set_hotkey_draft(&mut self, binding: Option<B>)
        ensures
            final(self).draft == binding,
            final(self).recording == old(self).recording,
            final(self).settings_visible == old(self).settings_visible,
            final(self).view == old(self).view,
    {
        self.draft = binding;
    }

    /// Sets whether a combination is being recorded and redraws the page,
    /// showing `hint` in place of the hint for the state where one is given.
    pub fn set_recording_state(&mut self, recording: bool, hint: Option<&str>)
        ensures
            final(self).recording == recording,
            final(self).draft == old(self).draft,
            final(self).settings_visible == old(self).settings_visible,
            final(self).view@ == settings_view(recording, old(self).draft is Some, message_view(hint)),
    {
        let has_draft = self.draft.is_some();
        self.recording = recording;
        self.view = SettingsView {
            hint: hint_text(recording, has_draft, hint),
            record_hidden: recording || has_draft,
            save_hidden: !has_draft,
            cancel_hidden: !(recording || has_draft),
            save_enabled: has_draft,
        };
    }

    /// The settings page came up.
    pub fn set_settings_visible(&mut self, visible: bool)
        ensures
            final(self).settings_visible == visible,
            final(self).recording == old(self).recording,
            final(self).draft == old(self).draft,
            final(self).view == old(self).view,
    {
        self.settings_visible = visible;
    }

    /// The settings page went away: the waiting binding is dropped and the
    /// recording ends.
    pub fn hide_settings_window(&mut self)
        ensures
            !final(self).settings_visible,
            !final(self).recording,
            final(self).draft is None,
            final(self).view@ == settings_view(false, false, None),
    {
        self.settings_visible = false;
        self.set_hotkey_draft(None);
        self.set_recording_state(false, None);
    }

    /// "Start recording": any waiting binding is dropped.
    pub fn begin_record(&mut self)
        ensures
            final(self).recording,
            final(self).draft is None,
            final(self).settings_visible == old(self).settings_visible,
            final(self).view@ == settings_view(true, false, None),
    {
        self.set_hotkey_draft(None);
        self.set_recording_state(true, None);
    }

    /// "Cancel": the recording ends and the waiting binding is dropped.
    pub fn cancel_record(&mut self)
        ensures
            !final(self).recording,
            final(self).draft is None,
            final(self).settings_visible == old(self).settings_visible,
            final(self).view@ == settings_view(false, false, None),
    {
        self.set_hotkey_draft(None);
        self.set_recording_state(false, None);
    }

    /// The outcome of saving the waiting binding: accepted, it is no longer
    /// waiting; refused, it stays and the page says so. Either way the
    /// recording is over.
    pub fn finish_save(&mut self, accepted: bool)
        ensures
            !final(self).recording,
            final(self).settings_visible == old(self).settings_visible,
            accepted ==> final(self).draft is None && final(self).view@ == settings_view(
                false,
                false,
                None,
            ),
            !accepted ==> final(self).draft == old(self).draft && final(self).view@
                == settings_view(false, old(self).draft is Some, Some(HOTKEY_HINT_REJECTED@)),
    {
        if accepted {
            self.set_hotkey_draft(None);
            self.set_recording_state(false, None);
        } else {
            self.set_recording_state(false, Some(HOTKEY_HINT_REJECTED));
        }
    }

    /// What a key press does: outside a recording on a visible page it passes
    /// through; a repeat is swallowed; Escape cancels; any other key is
    /// captured.
    pub fn key_event_step(&self, is_repeat: bool, key_code: u16) -> (r: KeyEventStep)
        ensures
            r == (if !self.settings_visible || !self.recording {
                KeyEventStep::PassThrough
            } else if is_repeat {
                KeyEventStep::SwallowRepeat
            } else if key_code == HOTKEY_CAPTURE_CANCEL_KEYCODE {
                KeyEventStep::Cancel
            } else {
                KeyEventStep::Capture
            }),
    {
        if !self.settings_visible || !self.recording {
            KeyEventStep::PassThrough
        } else if is_repeat {
            KeyEventStep::SwallowRepeat
        } else if key_code == HOTKEY_CAPTURE_CANCEL_KEYCODE {
            KeyEventStep::Cancel
        } else {
            KeyEventStep::Capture
        }
    }

    /// Takes in the binding made of a captured key press: a key that makes
    /// no binding keeps the recording going with the reason shown; the
    /// current binding is not offered again; any other binding waits to be
    /// saved.
    pub fn apply_captured_binding(&mut self, captured: Result<B, &str>, matches_current: bool)
        ensures
            final(self).settings_visible == old(self).settings_visible,
            match captured {
                Err(reason) => {
                    &&& final(self).recording
                    &&& final(self).draft == old(self).draft
                    &&& final(self).view@ == settings_view(
                        true,
                        old(self).draft is Some,
                        Some(reason@),
                    )
                },
                Ok(binding) => if matches_current {
                    &&& !final(self).recording
                    &&& final(self).draft is None
                    &&& final(self).view@ == settings_view(
                        false,
                        false,
                        Some(HOTKEY_HINT_UNCHANGED@),
                    )
                } else {
                    &&& !final(self).recording
                    &&& final(self).draft == Some(binding)
                    &&& final(self).view@ == settings_view(false, true, None)
                },
            },
    {
        match captured {
            Err(reason) => {
                self.set_recording_state(true, Some(reason));
            },
            Ok(binding) => {
                if matches_current {
                    self.set_hotkey_draft(None);
                    self.set_recording_state(false, Some(HOTKEY_HINT_UNCHANGED));
                } else {
                    self.set_hotkey_draft(Some(binding));
                    self.set_recording_state(false, None);
                }
            },
        }
    }
}

/// Whatever the state, the page it shows offers save exactly when a binding
/// waits, and shows exactly one of the record and cancel buttons.
pub proof fn lemma_settings_view_consistent(recording: bool, has_draft: bool, message: Option<Seq<char>>)
    ensures
        settings_view(recording, has_draft, message).save_enabled == has_draft,
        settings_view(recording, has_draft, message).save_hidden == !has_draft,
        settings_view(recording, has_draft, message).record_hidden != settings_view(
            recording,
            has_draft,
            message,
        ).cancel_hidden,
{
}

/// The buttons of the settings page follow the editor's state alone,
/// whatever message is shown: the record button shows exactly when nothing
/// is being recorded and no binding waits, cancel shows exactly when it does
/// not, and save shows, enabled, exactly when a binding waits. A message, if
/// any, is the hint.
pub proof fn lemma_buttons_follow_state(
    recording: bool,
    has_draft: bool,
    message: Option<Seq<char>>,
    other: Option<Seq<char>>,
)
    ensures
        ({
            let v = settings_view(recording, has_draft, message);
            let w = settings_view(recording, has_draft, other);
            &&& v.record_hidden == w.record_hidden
            &&& v.cancel_hidden == w.cancel_hidden
            &&& v.save_hidden == w.save_hidden
            &&& v.save_enabled == w.save_enabled
            &&& !recording && !has_draft ==> !v.record_hidden && v.cancel_hidden && v.save_hidden
            &&& recording || has_draft ==> v.record_hidden && !v.cancel_hidden
            &&& has_draft ==> !v.save_hidden && v.save_enabled
            &&& !has_draft ==> v.save_hidden && !v.save_enabled
            &&& message matches Some(m) ==> v.hint == m
        }),
{
}

} // verus!
