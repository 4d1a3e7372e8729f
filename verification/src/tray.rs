use vstd::prelude::*;

use std::collections::VecDeque;

verus! {

/// What the tray menu asks the program to do.
#[derive(Debug, Clone, Copy, PartialEq, Eq, Structural)]
pub enum TrayCommand {
    ShowWindow,
    Quit,
}

/// The ids of the two entries of the tray menu.
#[derive(Debug, Clone)]
pub struct TrayMenuIds {
    pub show_id: String,
    pub quit_id: String,
}

/// The command a click on the menu entry `id` stands for.
pub open spec fn menu_command(id: Seq<char>, show_id: Seq<char>, quit_id: Seq<char>) -> Option<
    TrayCommand,
> {
    if id == show_id {
        Some(TrayCommand::ShowWindow)
    } else if id == quit_id {
        Some(TrayCommand::Quit)
    } else {
        None
    }
}

/// Draining `pending` up to and including the first click that stands for a
/// command: that command and the clicks left over; no command and nothing
/// left over when no click stands for one.
pub open spec fn drain_until_menu_command(
    pending: Seq<String>,
    show_id: Seq<char>,
    quit_id: Seq<char>,
) -> (Option<TrayCommand>, Seq<String>)
    decreases pending.len(),
{
    if pending.len() == 0 {
        (None, pending)
    } else if menu_command(pending[0]@, show_id, quit_id) is Some {
        (menu_command(pending[0]@, show_id, quit_id), pending.drop_first())
    } else {
        drain_until_menu_command(pending.drop_first(), show_id, quit_id)
    }
}

impl TrayMenuIds {
    /// The command a click on the menu entry `id` stands for.
    pub fn command_for_event(&self, id: &String) -> (r: Option<TrayCommand>)
        ensures
            r == menu_command(id@, self.show_id@, self.quit_id@),
    {
        if *id == self.show_id {
            Some(TrayCommand::ShowWindow)
        } else if *id == self.quit_id {
            Some(TrayCommand::Quit)
        } else {
            None
        }
    }

    /// Takes menu clicks from the front of `pending` until one stands for a
    /// command, and returns that command; the clicks behind it stay.
    pub fn poll_command(&self, pending: &mut VecDeque<String>) -> (r: Option<TrayCommand>)
        ensures
            (r, final(pending)@) == drain_until_menu_command(
                old(pending)@,
                self.show_id@,
                self.quit_id@,
            ),
    {
        loop
            invariant
                drain_until_menu_command(pending@, self.show_id@, self.quit_id@)
                    == drain_until_menu_command(old(pending)@, self.show_id@, self.quit_id@),
            decreases pending@.len(),
        {
            let ghost before = pending@;
            match pending.pop_front() {
                None => {
                    return None;
                },
                Some(id) => {
                    assert(before.drop_first() =~= pending@);
                    if let Some(command) = self.command_for_event(&id) {
                        return Some(command);
                    }
                },
            }
        }
    }
}

/// The side of the tray icon in pixels.
pub const TRAY_ICON_SIZE: u32 = 18;

/// Whether the pixel at column `x`, row `y` of the tray icon lies inside the
/// disc of radius 7.6 around the centre (8.5, 8.5). Doubling the offsets
/// keeps everything integral: `(2x - 17)² + (2y - 17)² ≤ 231` is
/// `(x - 8.5)² + (y - 8.5)² < 57.76`, as the left side only takes values a
/// whole quarter apart and none of them lies near the bound.
pub open spec fn in_tray_disc(x: int, y: int) -> bool {
    (2 * x - 17) * (2 * x - 17) + (2 * y - 17) * (2 * y - 17) <= 231
}

/// The RGBA bytes of pixel `i` (row-major) of the tray icon: white, opaque
/// inside the disc and transparent outside.
pub open spec fn tray_icon_byte(i: int) -> u8 {
    let pixel = i / 4;
    let x = pixel % 18;
    let y = pixel / 18;
    if i % 4 == 3 {
        if in_tray_disc(x, y) {
            255
        } else {
            0
        }
    } else {
        255
    }
}

/// The pixels of the tray icon: a white disc on a transparent square of
/// side `TRAY_ICON_SIZE`.
pub fn tray_icon_rgba() -> (rgba: Vec<u8>)
    ensures
        rgba@.len() == 18 * 18 * 4,
        forall|i: int| 0 <= i < 18 * 18 * 4 ==> #[trigger] rgba@[i] == tray_icon_byte(i),
{
    let mut rgba: Vec<u8> = Vec::new();
    let mut y: usize = 0;
    while y < 18
        invariant
            y <= 18,
            rgba@.len() == y * 18 * 4,
            forall|i: int| 0 <= i < rgba@.len() ==> #[trigger] rgba@[i] == tray_icon_byte(i),
        decreases 18 - y,
    {
        let mut x: usize = 0;
        while x < 18
            invariant
                y < 18,
                x <= 18,
                rgba@.len() == (y * 18 + x) * 4,
                forall|i: int| 0 <= i < rgba@.len() ==> #[trigger] rgba@[i] == tray_icon_byte(i),
            decreases 18 - x,
        {
            let dx: i64 = 2 * (x as i64) - 17;
            let dy: i64 = 2 * (y as i64) - 17;
            assert(0 <= dx * dx <= 289 && 0 <= dy * dy <= 289) by (nonlinear_arith)
                requires
                    -17 <= dx <= 17,
                    -17 <= dy <= 17,
            ;
            let alpha: u8 = if dx * dx + dy * dy <= 231 {
                255
            } else {
                0
            };
            let ghost base = rgba@.len() as int;
            proof {
                assert(base == (y * 18 + x) * 4);
                assert(base / 4 == y * 18 + x);
                assert((y * 18 + x) % 18 == x && (y * 18 + x) / 18 == y) by (nonlinear_arith)
                    requires x < 18;
                assert((base + 1) / 4 == y * 18 + x && (base + 1) % 4 == 1);
                assert((base + 2) / 4 == y * 18 + x && (base + 2) % 4 == 2);
                assert((base + 3) / 4 == y * 18 + x && (base + 3) % 4 == 3);
                assert(base % 4 == 0);
            }
            rgba.push(255);
            rgba.push(255);
            rgba.push(255);
            rgba.push(alpha);
            x = x + 1;
        }
        y = y + 1;
    }
    rgba
}

/// Creates the tray icon with `create` unless `slot` already holds one; an
/// error of `create` is handed back and the slot stays empty.
pub fn init_tray<T, F: FnOnce() -> Result<T, String>>(slot: &mut Option<T>, create: F) -> (r:
    Result<(), String>)
    requires
        *old(slot) is None ==> create.requires(()),
    ensures
        *old(slot) is Some ==> r is Ok && *final(slot) == *old(slot),
        *old(slot) is None ==> match r {
            Ok(()) => match *final(slot) {
                Some(created) => create.ensures((), Ok::<T, String>(created)),
                None => false,
            },
            Err(e) => *final(slot) is None && create.ensures((), Err::<T, String>(e)),
        },
{
    if slot.is_none() {
        match create() {
            Ok(tray) => {
                *slot = Some(tray);
            },
            Err(e) => {
                return Err(e);
            },
        }
    }
    Ok(())
}

} // verus!
