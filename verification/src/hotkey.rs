use vstd::prelude::*;

use std::collections::VecDeque;

use crate::text::push_str;

verus! {

/// What the global hot key asks the program to do.
#[derive(Debug, Clone, Copy, PartialEq, Eq, Structural)]
pub enum HotKeyCommand {
    ShowWindow,
}

/// A global hot key event: the id of the hot key and whether it was
/// pressed (as opposed to released).
#[derive(Debug, Clone, Copy, PartialEq, Eq, Structural)]
pub struct HotKeyEventRecord {
    pub id: u32,
    pub pressed: bool,
}

/// The hot key that wakes the main window.
#[derive(Debug, Clone, Copy, PartialEq, Eq, Structural)]
pub struct WakeHotKey {
    pub id: u32,
}

/// The command an event stands for: a press of the wake hot key shows the
/// window; anything else stands for nothing.
pub open spec fn event_command(event: HotKeyEventRecord, wake_id: u32) -> Option<HotKeyCommand> {
    if event.id == wake_id && event.pressed {
        Some(HotKeyCommand::ShowWindow)
    } else {
        None
    }
}

/// Draining `pending` from the front up to and including the first event
/// that stands for a command: that command and the events left over; no
/// command and nothing left over when no event stands for one.
pub open spec fn drain_until_command(pending: Seq<HotKeyEventRecord>, wake_id: u32) -> (
    Option<HotKeyCommand>,
    Seq<HotKeyEventRecord>,
)
    decreases pending.len(),
{
    if pending.len() == 0 {
        (None, pending)
    } else if event_command(pending[0], wake_id) is Some {
        (event_command(pending[0], wake_id), pending.drop_first())
    } else {
        drain_until_command(pending.drop_first(), wake_id)
    }
}

impl WakeHotKey {
    /// The command that `event` stands for.
    pub fn command_for_event(&self, event: HotKeyEventRecord) -> (r: Option<HotKeyCommand>)
        ensures
            r == event_command(event, self.id),
    {
        if event.id == self.id && event.pressed {
            Some(HotKeyCommand::ShowWindow)
        } else {
            None
        }
    }

    /// Takes events from the front of `pending` until one stands for a
    /// command, and returns that command; the events behind it stay.
    pub fn poll_command(&self, pending: &mut VecDeque<HotKeyEventRecord>) -> (r: Option<
        HotKeyCommand,
    >)
        ensures
            (r, final(pending)@) == drain_until_command(old(pending)@, self.id),
    {
        loop
            invariant
                drain_until_command(pending@, self.id) == drain_until_command(
                    old(pending)@,
                    self.id,
                ),
            decreases pending@.len(),
        {
            let ghost before = pending@;
            match pending.pop_front() {
                None => {
                    return None;
                },
                Some(event) => {
                    assert(before.drop_first() =~= pending@);
                    if let Some(command) = self.command_for_event(event) {
                        return Some(command);
                    }
                },
            }
        }
    }
}

/// Creates the hot key listener with `create` unless `slot` already holds
/// one; an error of `create` is handed back and the slot stays empty.
pub fn init_hotkey<T, F: FnOnce() -> Result<T, String>>(slot: &mut Option<T>, create: F) -> (r:
    Result<(), String>)
    requires
        *old(slot) is None ==> create.requires(()),
    ensures
        *old(slot) is Some ==> r is Ok && *final(slot) == *old(slot),
        *old(slot) is None ==> match r {
            Ok(()) => match *final(slot) {
                Some(created) => create.ensures((), Ok::<T, String>(created)),
                None => false,
            },
            Err(e) => *final(slot) is None && create.ensures((), Err::<T, String>(e)),
        },
{
    if slot.is_none() {
        match create() {
            Ok(listener) => {
                *slot = Some(listener);
            },
            Err(e) => {
                return Err(e);
            },
        }
    }
    Ok(())
}

/// A wake press in the queue is found however many other events stand
/// before it, and the events behind it are kept for the next poll.
pub proof fn lemma_press_behind_others_is_found(
    others: Seq<HotKeyEventRecord>,
    later: Seq<HotKeyEventRecord>,
    wake_id: u32,
)
    requires
        forall|i: int| 0 <= i < others.len() ==> event_command(#[trigger] others[i], wake_id) is None,
    ensures
        drain_until_command(
            others + seq![HotKeyEventRecord { id: wake_id, pressed: true }] + later,
            wake_id,
        ) == (Some(HotKeyCommand::ShowWindow), later),
    decreases others.len(),
{
    let press = HotKeyEventRecord { id: wake_id, pressed: true };
    let all = others + seq![press] + later;
    if others.len() == 0 {
        assert(all[0] == press);
        assert(all.drop_first() =~= later);
    } else {
        assert(event_command(others[0], wake_id) is None);
        assert(all[0] == others[0]);
        assert(all.drop_first() =~= others.drop_first() + seq![press] + later);
        assert forall|i: int| 0 <= i < others.drop_first().len() implies event_command(
            #[trigger] others.drop_first()[i],
            wake_id,
        ) is None by {
            assert(others.drop_first()[i] == others[i + 1]);
        }
        lemma_press_behind_others_is_found(others.drop_first(), later, wake_id);
    }
}

/// The modifier key of a hot key binding.
#[derive(Debug, Clone, Copy, PartialEq, Eq, Structural)]
pub enum BindingModifier {
    Shift,
    Control,
    Option,
    Command,
}

/// The flag of a key event that tells Shift is held.
pub const MODIFIER_FLAG_SHIFT: u64 = 0x2_0000;

/// The flag of a key event that tells Control is held.
pub const MODIFIER_FLAG_CONTROL: u64 = 0x4_0000;

/// The flag of a key event that tells Option is held.
pub const MODIFIER_FLAG_OPTION: u64 = 0x8_0000;

/// The flag of a key event that tells Command is held.
pub const MODIFIER_FLAG_COMMAND: u64 = 0x10_0000;

/// Why a key press makes no binding.
pub const BINDING_REJECTED_MESSAGE: &'static str = "仅支持一个修饰键 + 字母 / 数字";

/// The one modifier held in `flags`, if exactly one of Shift, Control,
/// Option and Command is held.
pub open spec fn single_modifier(flags: u64) -> Option<BindingModifier> {
    let shift = flags & MODIFIER_FLAG_SHIFT != 0;
    let control = flags & MODIFIER_FLAG_CONTROL != 0;
    let option = flags & MODIFIER_FLAG_OPTION != 0;
    let command = flags & MODIFIER_FLAG_COMMAND != 0;
    if shift && !control && !option && !command {
        Some(BindingModifier::Shift)
    } else if !shift && control && !option && !command {
        Some(BindingModifier::Control)
    } else if !shift && !control && option && !command {
        Some(BindingModifier::Option)
    } else if !shift && !control && !option && command {
        Some(BindingModifier::Command)
    } else {
        None
    }
}

/// Whether `code` is the virtual key code of a letter A to Z or a digit
/// 0 to 9 on an ANSI keyboard.
pub open spec fn letter_or_digit_key(code: u16) -> bool {
    code <= 9 || (11 <= code <= 23) || code == 25 || code == 26 || code == 28 || code == 29
        || code == 31 || code == 32 || code == 34 || code == 35 || code == 37 || code == 38
        || code == 40 || code == 45 || code == 46
}

/// The binding a key press makes: exactly one modifier held and a letter
/// or digit key; anything else is refused with the reason.
pub fn key_binding_from_event(key_code: u16, modifier_flags: u64) -> (r: Result<
    (BindingModifier, u16),
    String,
>)
    ensures
        r is Ok <==> single_modifier(modifier_flags) is Some && letter_or_digit_key(key_code),
        r matches Ok((modifier, key)) ==> Some(modifier) == single_modifier(modifier_flags)
            && key == key_code,
        r matches Err(message) ==> message@ == BINDING_REJECTED_MESSAGE@,
        r matches Ok((modifier, _)) ==> held(modifier_flags, modifier) && (forall|
            other: BindingModifier,
        | other != modifier ==> !held(modifier_flags, other)),
        (exists|a: BindingModifier, b: BindingModifier|
            a != b && held(modifier_flags, a) && held(modifier_flags, b)) ==> r is Err,
{
    proof {
        lemma_single_modifier_is_the_only_one_held(modifier_flags, BindingModifier::Shift);
        lemma_single_modifier_is_the_only_one_held(modifier_flags, BindingModifier::Control);
        lemma_single_modifier_is_the_only_one_held(modifier_flags, BindingModifier::Option);
        lemma_single_modifier_is_the_only_one_held(modifier_flags, BindingModifier::Command);
    }
    let shift = modifier_flags & MODIFIER_FLAG_SHIFT != 0;
    let control = modifier_flags & MODIFIER_FLAG_CONTROL != 0;
    let option = modifier_flags & MODIFIER_FLAG_OPTION != 0;
    let command = modifier_flags & MODIFIER_FLAG_COMMAND != 0;
    let modifier = if shift && !control && !option && !command {
        Some(BindingModifier::Shift)
    } else if !shift && control && !option && !command {
        Some(BindingModifier::Control)
    } else if !shift && !control && option && !command {
        Some(BindingModifier::Option)
    } else if !shift && !control && !option && command {
        Some(BindingModifier::Command)
    } else {
        None
    };
    let key_ok = key_code <= 9 || (11 <= key_code && key_code <= 23) || key_code == 25
        || key_code == 26 || key_code == 28 || key_code == 29 || key_code == 31 || key_code == 32
        || key_code == 34 || key_code == 35 || key_code == 37 || key_code == 38 || key_code == 40
        || key_code == 45 || key_code == 46;
    match modifier {
        Some(m) => if key_ok {
            Ok((m, key_code))
        } else {
            Err(rejected_message())
        },
        None => Err(rejected_message()),
    }
}

fn rejected_message() -> (r: String)
    ensures
        r@ == BINDING_REJECTED_MESSAGE@,
{
    let mut r = String::new();
    push_str(&mut r, BINDING_REJECTED_MESSAGE);
    assert(r@ =~= BINDING_REJECTED_MESSAGE@);
    r
}

/// The symbol shown for a modifier.
pub open spec fn modifier_symbol_text(modifier: BindingModifier) -> Seq<char> {
    match modifier {
        BindingModifier::Command => "⌘"@,
        BindingModifier::Control => "⌃"@,
        BindingModifier::Shift => "⇧"@,
        BindingModifier::Option => "⌥"@,
    }
}

/// The symbol shown for `modifier`.
pub fn modifier_symbol(modifier: BindingModifier) -> (r: &'static str)
    ensures
        r@ == modifier_symbol_text(modifier),
{
    match modifier {
        BindingModifier::Command => "⌘",
        BindingModifier::Control => "⌃",
        BindingModifier::Shift => "⇧",
        BindingModifier::Option => "⌥",
    }
}

/// The label shown for the key with virtual key code `code`: its letter or
/// digit, or `?` for any other key.
pub open spec fn key_label_text(code: u16) -> Seq<char> {
    if code == 0 {
        "A"@
    } else if code == 11 {
        "B"@
    } else if code == 8 {
        "C"@
    } else if code == 2 {
        "D"@
    } else if code == 14 {
        "E"@
    } else if code == 3 {
        "F"@
    } else if code == 5 {
        "G"@
    } else if code == 4 {
        "H"@
    } else if code == 34 {
        "I"@
    } else if code == 38 {
        "J"@
    } else if code == 40 {
        "K"@
    } else if code == 37 {
        "L"@
    } else if code == 46 {
        "M"@
    } else if code == 45 {
        "N"@
    } else if code == 31 {
        "O"@
    } else if code == 35 {
        "P"@
    } else if code == 12 {
        "Q"@
    } else if code == 15 {
        "R"@
    } else if code == 1 {
        "S"@
    } else if code == 17 {
        "T"@
    } else if code == 32 {
        "U"@
    } else if code == 9 {
        "V"@
    } else if code == 13 {
        "W"@
    } else if code == 7 {
        "X"@
    } else if code == 16 {
        "Y"@
    } else if code == 6 {
        "Z"@
    } else if code == 29 {
        "0"@
    } else if code == 18 {
        "1"@
    } else if code == 19 {
        "2"@
    } else if code == 20 {
        "3"@
    } else if code == 21 {
        "4"@
    } else if code == 23 {
        "5"@
    } else if code == 22 {
        "6"@
    } else if code == 26 {
        "7"@
    } else if code == 28 {
        "8"@
    } else if code == 25 {
        "9"@
    } else {
        "?"@
    }
}

/// The label shown for the key with virtual key code `code`.
pub fn key_label(code: u16) -> (r: &'static str)
    ensures
        r@ == key_label_text(code),
{
    if code == 0 {
        "A"
    } else if code == 11 {
        "B"
    } else if code == 8 {
        "C"
    } else if code == 2 {
        "D"
    } else if code == 14 {
        "E"
    } else if code == 3 {
        "F"
    } else if code == 5 {
        "G"
    } else if code == 4 {
        "H"
    } else if code == 34 {
        "I"
    } else if code == 38 {
        "J"
    } else if code == 40 {
        "K"
    } else if code == 37 {
        "L"
    } else if code == 46 {
        "M"
    } else if code == 45 {
        "N"
    } else if code == 31 {
        "O"
    } else if code == 35 {
        "P"
    } else if code == 12 {
        "Q"
    } else if code == 15 {
        "R"
    } else if code == 1 {
        "S"
    } else if code == 17 {
        "T"
    } else if code == 32 {
        "U"
    } else if code == 9 {
        "V"
    } else if code == 13 {
        "W"
    } else if code == 7 {
        "X"
    } else if code == 16 {
        "Y"
    } else if code == 6 {
        "Z"
    } else if code == 29 {
        "0"
    } else if code == 18 {
        "1"
    } else if code == 19 {
        "2"
    } else if code == 20 {
        "3"
    } else if code == 21 {
        "4"
    } else if code == 23 {
        "5"
    } else if code == 22 {
        "6"
    } else if code == 26 {
        "7"
    } else if code == 28 {
        "8"
    } else if code == 25 {
        "9"
    } else {
        "?"
    }
}

/// The text that shows a binding, such as `⌥ + C`.
pub fn binding_preview_text(modifier: BindingModifier, key_code: u16) -> (r: String)
    ensures
        r@ == modifier_symbol_text(modifier) + " + "@ + key_label_text(key_code),
{
    let mut r = String::new();
    push_str(&mut r, modifier_symbol(modifier));
    push_str(&mut r, " + ");
    push_str(&mut r, key_label(key_code));
    r
}

/// Every key that makes a binding has a label of its own.
pub proof fn lemma_binding_keys_labelled(code: u16)
    requires
        letter_or_digit_key(code),
    ensures
        key_label_text(code) != "?"@,
{
    reveal_strlit("?");
    reveal_strlit("A");
    reveal_strlit("B");
    reveal_strlit("C");
    reveal_strlit("D");
    reveal_strlit("E");
    reveal_strlit("F");
    reveal_strlit("G");
    reveal_strlit("H");
    reveal_strlit("I");
    reveal_strlit("J");
    reveal_strlit("K");
    reveal_strlit("L");
    reveal_strlit("M");
    reveal_strlit("N");
    reveal_strlit("O");
    reveal_strlit("P");
    reveal_strlit("Q");
    reveal_strlit("R");
    reveal_strlit("S");
    reveal_strlit("T");
    reveal_strlit("U");
    reveal_strlit("V");
    reveal_strlit("W");
    reveal_strlit("X");
    reveal_strlit("Y");
    reveal_strlit("Z");
    reveal_strlit("0");
    reveal_strlit("1");
    reveal_strlit("2");
    reveal_strlit("3");
    reveal_strlit("4");
    reveal_strlit("5");
    reveal_strlit("6");
    reveal_strlit("7");
    reveal_strlit("8");
    reveal_strlit("9");
    assert(key_label_text(code)[0] != "?"@[0]);
}

/// The flag of a key event that tells `modifier` is held.
pub open spec fn modifier_flag(modifier: BindingModifier) -> u64 {
    match modifier {
        BindingModifier::Shift => MODIFIER_FLAG_SHIFT,
        BindingModifier::Control => MODIFIER_FLAG_CONTROL,
        BindingModifier::Option => MODIFIER_FLAG_OPTION,
        BindingModifier::Command => MODIFIER_FLAG_COMMAND,
    }
}

/// Whether `flags` tell that `modifier` is held.
pub open spec fn held(flags: u64, modifier: BindingModifier) -> bool {
    flags & modifier_flag(modifier) != 0
}

/// The modifier of a binding is the one modifier held: `single_modifier`
/// gives `modifier` exactly when its flag is set and none of the other
/// three is; where two modifiers are held, there is none; and the flag of a
/// modifier alone gives that modifier.
pub proof fn lemma_single_modifier_is_the_only_one_held(flags: u64, modifier: BindingModifier)
    ensures
        single_modifier(flags) == Some(modifier) <==> held(flags, modifier) && (forall|
            other: BindingModifier,
        | other != modifier ==> !held(flags, other)),
        forall|a: BindingModifier, b: BindingModifier|
            a != b && held(flags, a) && held(flags, b) ==> single_modifier(flags) is None,
        single_modifier(modifier_flag(modifier)) == Some(modifier),
{
    assert(0x2_0000u64 & 0x2_0000u64 != 0 && 0x2_0000u64 & 0x4_0000u64 == 0 && 0x2_0000u64
        & 0x8_0000u64 == 0 && 0x2_0000u64 & 0x10_0000u64 == 0 && 0x4_0000u64 & 0x2_0000u64 == 0
        && 0x4_0000u64 & 0x4_0000u64 != 0 && 0x4_0000u64 & 0x8_0000u64 == 0 && 0x4_0000u64
        & 0x10_0000u64 == 0 && 0x8_0000u64 & 0x2_0000u64 == 0 && 0x8_0000u64 & 0x4_0000u64 == 0
        && 0x8_0000u64 & 0x8_0000u64 != 0 && 0x8_0000u64 & 0x10_0000u64 == 0 && 0x10_0000u64
        & 0x2_0000u64 == 0 && 0x10_0000u64 & 0x4_0000u64 == 0 && 0x10_0000u64 & 0x8_0000u64 == 0
        && 0x10_0000u64 & 0x10_0000u64 != 0) by (bit_vector);
    if held(flags, modifier) && (forall|other: BindingModifier|
        other != modifier ==> !held(flags, other)) {
        assert(!held(flags, BindingModifier::Shift) || modifier == BindingModifier::Shift);
        assert(!held(flags, BindingModifier::Control) || modifier == BindingModifier::Control);
        assert(!held(flags, BindingModifier::Option) || modifier == BindingModifier::Option);
        assert(!held(flags, BindingModifier::Command) || modifier == BindingModifier::Command);
    }
}

/// Every letter A to Z and digit 0 to 9 can be bound, and its key is shown
/// as that letter or digit: the virtual key codes of the ANSI keyboard
/// with their labels. Any other key shows `?` and makes no binding.
pub proof fn lemma_key_table()
    ensures
        key_label_text(0) == "A"@ && letter_or_digit_key(0),
        key_label_text(11) == "B"@ && letter_or_digit_key(11),
        key_label_text(8) == "C"@ && letter_or_digit_key(8),
        key_label_text(2) == "D"@ && letter_or_digit_key(2),
        key_label_text(14) == "E"@ && letter_or_digit_key(14),
        key_label_text(3) == "F"@ && letter_or_digit_key(3),
        key_label_text(5) == "G"@ && letter_or_digit_key(5),
        key_label_text(4) == "H"@ && letter_or_digit_key(4),
        key_label_text(34) == "I"@ && letter_or_digit_key(34),
        key_label_text(38) == "J"@ && letter_or_digit_key(38),
        key_label_text(40) == "K"@ && letter_or_digit_key(40),
        key_label_text(37) == "L"@ && letter_or_digit_key(37),
        key_label_text(46) == "M"@ && letter_or_digit_key(46),
        key_label_text(45) == "N"@ && letter_or_digit_key(45),
        key_label_text(31) == "O"@ && letter_or_digit_key(31),
        key_label_text(35) == "P"@ && letter_or_digit_key(35),
        key_label_text(12) == "Q"@ && letter_or_digit_key(12),
        key_label_text(15) == "R"@ && letter_or_digit_key(15),
        key_label_text(1) == "S"@ && letter_or_digit_key(1),
        key_label_text(17) == "T"@ && letter_or_digit_key(17),
        key_label_text(32) == "U"@ && letter_or_digit_key(32),
        key_label_text(9) == "V"@ && letter_or_digit_key(9),
        key_label_text(13) == "W"@ && letter_or_digit_key(13),
        key_label_text(7) == "X"@ && letter_or_digit_key(7),
        key_label_text(16) == "Y"@ && letter_or_digit_key(16),
        key_label_text(6) == "Z"@ && letter_or_digit_key(6),
        key_label_text(29) == "0"@ && letter_or_digit_key(29),
        key_label_text(18) == "1"@ && letter_or_digit_key(18),
        key_label_text(19) == "2"@ && letter_or_digit_key(19),
        key_label_text(20) == "3"@ && letter_or_digit_key(20),
        key_label_text(21) == "4"@ && letter_or_digit_key(21),
        key_label_text(23) == "5"@ && letter_or_digit_key(23),
        key_label_text(22) == "6"@ && letter_or_digit_key(22),
        key_label_text(26) == "7"@ && letter_or_digit_key(26),
        key_label_text(28) == "8"@ && letter_or_digit_key(28),
        key_label_text(25) == "9"@ && letter_or_digit_key(25),
        forall|code: u16| !letter_or_digit_key(code) ==> key_label_text(code) == "?"@,
{
}

/// Different keys that can be bound are shown with different labels.
pub proof fn lemma_binding_labels_distinct(a: u16, b: u16)
    requires
        letter_or_digit_key(a),
        letter_or_digit_key(b),
        a != b,
    ensures
        key_label_text(a) != key_label_text(b),
{
    reveal_strlit("A");
    reveal_strlit("B");
    reveal_strlit("C");
    reveal_strlit("D");
    reveal_strlit("E");
    reveal_strlit("F");
    reveal_strlit("G");
    reveal_strlit("H");
    reveal_strlit("I");
    reveal_strlit("J");
    reveal_strlit("K");
    reveal_strlit("L");
    reveal_strlit("M");
    reveal_strlit("N");
    reveal_strlit("O");
    reveal_strlit("P");
    reveal_strlit("Q");
    reveal_strlit("R");
    reveal_strlit("S");
    reveal_strlit("T");
    reveal_strlit("U");
    reveal_strlit("V");
    reveal_strlit("W");
    reveal_strlit("X");
    reveal_strlit("Y");
    reveal_strlit("Z");
    reveal_strlit("0");
    reveal_strlit("1");
    reveal_strlit("2");
    reveal_strlit("3");
    reveal_strlit("4");
    reveal_strlit("5");
    reveal_strlit("6");
    reveal_strlit("7");
    reveal_strlit("8");
    reveal_strlit("9");
    assert(key_label_text(a)[0] != key_label_text(b)[0]);
}

} // verus!
