use vstd::prelude::*;

verus! {

/// The offset after moving `top` as little as needed to show row `selection`
/// of `len` rows in a viewport of `height` rows, kept within
/// `[0, max(0, len - height)]`.
pub open spec fn scroll_top_spec(top: int, selection: int, len: int, height: int) -> int {
    if height == 0 || len <= height {
        0
    } else {
        let s = if selection >= len { len - 1 } else { selection };
        let t = if s < top {
            s
        } else if s >= top + height {
            s - height + 1
        } else {
            top
        };
        if t > len - height {
            len - height
        } else {
            t
        }
    }
}

/// The offset is in range and, when there is something to show, the cursor's row is visible.
pub open spec fn scroll_settled(top: int, selection: int, len: int, height: int) -> bool {
    if height == 0 || len <= height {
        top == 0
    } else {
        0 <= top <= len - height && (selection < len ==> top <= selection < top + height)
    }
}

/// Updating the offset shows the cursor: for any offset, cursor, length and
/// viewport, the new offset lies in `[0, max(0, len - height)]` and, for a
/// cursor inside a non-empty list, `offset <= cursor < offset + height`.
pub proof fn lemma_update_shows_cursor(top: int, selection: int, len: int, height: int)
    requires
        top >= 0,
        selection >= 0,
        len >= 0,
        height >= 0,
    ensures
        scroll_settled(scroll_top_spec(top, selection, len, height), selection, len, height),
        0 < len && 0 < height && selection < len ==> ({
            let t = scroll_top_spec(top, selection, len, height);
            t <= selection < t + height
        }),
{
}

/// Vertical scroll position of a list viewport.
#[derive(Clone, Copy, Debug)]
pub struct VerticalScroll {
    pub top: usize,
}

impl VerticalScroll {
    pub fn new() -> (r: Self)
        ensures
            r.top == 0,
    {
        VerticalScroll { top: 0 }
    }

    pub fn get_top(&self) -> (r: usize)
        ensures
            r == self.top,
    {
        self.top
    }

    /// Moves the offset as little as needed to show `selection` and returns it.
    pub fn update(&mut self, selection: usize, len: usize, height: usize) -> (r: usize)
        ensures
            final(self).top == scroll_top_spec(
                old(self).top as int,
                selection as int,
                len as int,
                height as int,
            ),
            r == final(self).top,
            scroll_settled(r as int, selection as int, len as int, height as int),
    {
        let top = self.top;
        let new_top: usize = if height == 0 || len <= height {
            0
        } else {
            let s: usize = if selection >= len { len - 1 } else { selection };
            let t: usize = if s < top {
                s
            } else if s - top >= height {
                s - height + 1
            } else {
                top
            };
            if t > len - height {
                len - height
            } else {
                t
            }
        };
        self.top = new_top;
        new_top
    }
}

} // verus!
