use vstd::prelude::*;

verus! {

/// A cursor move. `Up` and `PageUp` move toward the start of the list, `Down`
/// and `PageDown` toward its end.
#[derive(Clone, Copy, Debug, PartialEq, Eq, Structural)]
pub enum ScrollType {
    Up,
    Down,
    PageUp,
    PageDown,
    Home,
    End,
}

/// The cursor for a view of `len` rows: `0` when the view is empty, else the
/// last row when `selection` lies past it.
pub open spec fn clamp_spec(selection: int, len: int) -> int {
    if len == 0 {
        0
    } else if selection > len - 1 {
        len - 1
    } else {
        selection
    }
}

/// Where a move aims before clamping; a page is `height` rows.
pub open spec fn target_spec(kind: ScrollType, selection: int, len: int, height: int) -> int {
    match kind {
        ScrollType::Up => if selection >= 1 { selection - 1 } else { 0 },
        ScrollType::Down => selection + 1,
        ScrollType::PageUp => if selection >= height { selection - height } else { 0 },
        ScrollType::PageDown => selection + height,
        ScrollType::Home => 0,
        ScrollType::End => if len >= 1 { len - 1 } else { 0 },
    }
}

/// Snaps `selection` into a view of `len` rows.
pub fn clamp_selection(selection: usize, len: usize) -> (r: usize)
    ensures
        r == clamp_spec(selection as int, len as int),
        len == 0 ==> r == 0,
        len > 0 ==> r < len,
        len > 0 && selection >= len ==> r == len - 1,
        selection < len ==> r == selection,
{
    if len == 0 {
        0
    } else if selection > len - 1 {
        len - 1
    } else {
        selection
    }
}

/// The cursor after `kind` in a view of `len` rows with pages of `height` rows.
pub fn move_target(kind: ScrollType, selection: usize, len: usize, height: usize) -> (r: usize)
    ensures
        r == clamp_spec(target_spec(kind, selection as int, len as int, height as int), len as int),
{
    let last: usize = if len >= 1 { len - 1 } else { 0 };
    match kind {
        ScrollType::Up => clamp_selection(if selection >= 1 { selection - 1 } else { 0 }, len),
        ScrollType::Down => if selection >= last { last } else { selection + 1 },
        ScrollType::PageUp => clamp_selection(
            if selection >= height { selection - height } else { 0 },
            len,
        ),
        ScrollType::PageDown => if selection >= last || height >= last - selection {
            last
        } else {
            selection + height
        },
        ScrollType::Home => 0,
        ScrollType::End => last,
    }
}

} // verus!
