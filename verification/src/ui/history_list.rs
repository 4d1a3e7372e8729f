use vstd::prelude::*;

use crate::text;
use crate::text::{push_decimal, push_str};

verus! {

/// What the history list shows in place of rows, if anything.
pub open spec fn placeholder(loaded: bool, entry_count: nat) -> Option<Seq<char>> {
    if !loaded {
        Some("历史加载失败"@)
    } else if entry_count == 0 {
        Some("当前还没有历史记录"@)
    } else {
        None
    }
}

/// The text the history list shows in place of rows: a failure to load, or
/// an empty history.
pub fn placeholder_text(loaded: bool, entry_count: usize) -> (r: Option<&'static str>)
    ensures
        match r {
            Some(t) => placeholder(loaded, entry_count as nat) == Some(t@),
            None => placeholder(loaded, entry_count as nat) is None,
        },
{
    if !loaded {
        Some("历史加载失败")
    } else if entry_count == 0 {
        Some("当前还没有历史记录")
    } else {
        None
    }
}

/// The entry that a pressed history row stands for: rows carry the entry id
/// as their tag, and a tag that is not positive stands for none.
pub fn selected_entry_id(tag: isize) -> (r: Option<i64>)
    ensures
        tag <= 0 ==> r is None,
        tag > 0 ==> r == Some(tag as i64),
{
    if tag <= 0 {
        None
    } else {
        Some(tag as i64)
    }
}

/// The shortcut hint of a history row: the first nine rows show `⌘ 1` to
/// `⌘ 9`, the others nothing.
pub open spec fn row_shortcut(index: nat) -> Seq<char> {
    if index < 9 {
        "⌘ "@ + text::decimal(index + 1)
    } else {
        Seq::empty()
    }
}

/// The shortcut hint of the history row at `index`.
pub fn row_shortcut_label(index: usize) -> (r: String)
    ensures
        r@ == row_shortcut(index as nat),
{
    let mut r = String::new();
    if index < 9 {
        push_str(&mut r, "⌘ ");
        push_decimal(&mut r, (index + 1) as u64);
        assert(r@ =~= "⌘ "@ + text::decimal(index as nat + 1));
    }
    r
}

} // verus!
