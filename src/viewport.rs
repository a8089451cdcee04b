use vstd::prelude::*;

verus! {

/// Window height assumed before the terminal has reported its real size.
pub const PLACEHOLDER_HEIGHT: usize = 10;

pub open spec fn min_int(a: int, b: int) -> int {
    if a <= b { a } else { b }
}

pub open spec fn max_int(a: int, b: int) -> int {
    if a >= b { a } else { b }
}

/// Largest scroll offset that still fills the window: `max(0, total - height)`.
pub open spec fn max_offset_of(total: int, height: int) -> int {
    max_int(total - height, 0)
}

/// A motion command of the list view.
#[derive(Clone, Copy, Debug, PartialEq, Eq, Structural)]
pub enum Motion {
    Next,
    Previous,
    PageTop,
    PageMiddle,
    PageBottom,
    PageForward,
    PageBackward,
    HalfPageForward,
    HalfPageBackward,
    LineForward,
    LineBackward,
    Resize(usize),
}

/// Cursor and scroll window over an ordered list of `total` records.
///
/// `selected` is the cursor, `scroll_offset` the index of the first visible
/// record and `visible_height` the number of rows the window shows.
#[derive(Clone, Copy, Debug, PartialEq, Eq, Structural)]
pub struct ListViewport {
    pub total: usize,
    pub selected: Option<usize>,
    pub scroll_offset: usize,
    pub visible_height: usize,
}

impl ListViewport {
    /// The cursor as an integer (0 when there is none).
    pub open spec fn cursor(self) -> int {
        match self.selected {
            Some(s) => s as int,
            None => 0,
        }
    }

    pub open spec fn max_offset(self) -> int {
        max_offset_of(self.total as int, self.visible_height as int)
    }

    /// What every motion needs to run: a positive height, and a cursor and an
    /// offset that index a record (none and zero for an empty list).
    pub open spec fn in_bounds(self) -> bool {
        &&& self.visible_height >= 1
        &&& if self.total == 0 {
            self.selected is None && self.scroll_offset == 0
        } else {
            self.selected is Some && self.cursor() < self.total && self.scroll_offset
                < self.total
        }
    }

    /// The invariant: the window does not scroll past the end of the list and
    /// the cursor lies inside the window.
    pub open spec fn well_formed(self) -> bool {
        &&& self.in_bounds()
        &&& self.scroll_offset <= self.max_offset()
        &&& self.total > 0 ==> self.scroll_offset <= self.cursor() < self.scroll_offset
            + self.visible_height
    }

    /// This viewport with the cursor at `s` and the window at `o`.
    pub open spec fn at(self, s: int, o: int) -> ListViewport {
        ListViewport { selected: Some(s as usize), scroll_offset: o as usize, ..self }
    }

    pub open spec fn after_next(self) -> ListViewport {
        let (n, h, o, s) = (
            self.total as int,
            self.visible_height as int,
            self.scroll_offset as int,
            self.cursor(),
        );
        if n == 0 || s + 1 >= n {
            self
        } else {
            self.at(s + 1, if s + 1 >= o + h { s + 2 - h } else { o })
        }
    }

    pub open spec fn after_previous(self) -> ListViewport {
        let (o, s) = (self.scroll_offset as int, self.cursor());
        if self.total == 0 || s == 0 {
            self
        } else {
            self.at(s - 1, if s - 1 < o { s - 1 } else { o })
        }
    }

    pub open spec fn after_page_top(self) -> ListViewport {
        let o = self.scroll_offset as int;
        if self.total == 0 {
            self
        } else {
            self.at(o, o)
        }
    }

    pub open spec fn after_page_middle(self) -> ListViewport {
        let (n, h, o) = (self.total as int, self.visible_height as int, self.scroll_offset as int);
        if n == 0 {
            self
        } else {
            self.at(min_int(o + (min_int(o + h, n) - o) / 2, n - 1), o)
        }
    }

    pub open spec fn after_page_bottom(self) -> ListViewport {
        let (n, h, o) = (self.total as int, self.visible_height as int, self.scroll_offset as int);
        if n == 0 {
            self
        } else {
            self.at(min_int(o + h - 1, n - 1), o)
        }
    }

    pub open spec fn after_page_forward(self) -> ListViewport {
        let (n, h, o) = (self.total as int, self.visible_height as int, self.scroll_offset as int);
        let o2 = min_int(o + h, self.max_offset());
        if n == 0 {
            self
        } else if o2 != o {
            self.at(o2, o2)
        } else {
            self.at(n - 1, o)
        }
    }

    pub open spec fn after_page_backward(self) -> ListViewport {
        let o2 = max_int(self.scroll_offset - self.visible_height, 0);
        if self.total == 0 {
            self
        } else {
            self.at(o2, o2)
        }
    }

    /// Rows that a half-page motion scrolls: half the window, at least one.
    pub open spec fn half_page(self) -> int {
        max_int(self.visible_height as int / 2, 1)
    }

    /// Row of the cursor within the window (0 when it lies above it).
    pub open spec fn row_in_window(self) -> int {
        max_int(self.cursor() - self.scroll_offset, 0)
    }

    pub open spec fn after_half_page_forward(self) -> ListViewport {
        let o2 = min_int(self.scroll_offset + self.half_page(), self.max_offset());
        if self.total == 0 {
            self
        } else {
            self.at(min_int(o2 + self.row_in_window(), self.total - 1), o2)
        }
    }

    pub open spec fn after_half_page_backward(self) -> ListViewport {
        let o2 = max_int(self.scroll_offset - self.half_page(), 0);
        if self.total == 0 {
            self
        } else {
            self.at(o2 + self.row_in_window(), o2)
        }
    }

    pub open spec fn after_line_forward(self) -> ListViewport {
        let (o, s) = (self.scroll_offset as int, self.cursor());
        let o2 = min_int(o + 1, self.max_offset());
        if self.total == 0 {
            self
        } else if s == o && o2 > o {
            self.at(s + 1, o2)
        } else {
            self.at(s, o2)
        }
    }

    /// Last row of the window that holds a record.
    pub open spec fn bottom_row(self) -> int {
        min_int(self.scroll_offset + self.visible_height - 1, self.total - 1)
    }

    pub open spec fn after_line_backward(self) -> ListViewport {
        let (o, s) = (self.scroll_offset as int, self.cursor());
        if self.total == 0 {
            self
        } else if s == self.bottom_row() && o > 0 && s > 0 {
            self.at(s - 1, o - 1)
        } else {
            self.at(s, max_int(o - 1, 0))
        }
    }

    pub open spec fn after_resize(self, height: usize) -> ListViewport {
        let h = max_int(height as int, 1);
        let o2 = min_int(self.scroll_offset as int, max_offset_of(self.total as int, h));
        let resized = ListViewport { visible_height: h as usize, ..self };
        if self.total == 0 {
            resized
        } else {
            resized.at(max_int(o2, min_int(self.cursor(), o2 + h - 1)), o2)
        }
    }

    /// The viewport that `m` leads to.
    pub open spec fn after(self, m: Motion) -> ListViewport {
        match m {
            Motion::Next => self.after_next(),
            Motion::Previous => self.after_previous(),
            Motion::PageTop => self.after_page_top(),
            Motion::PageMiddle => self.after_page_middle(),
            Motion::PageBottom => self.after_page_bottom(),
            Motion::PageForward => self.after_page_forward(),
            Motion::PageBackward => self.after_page_backward(),
            Motion::HalfPageForward => self.after_half_page_forward(),
            Motion::HalfPageBackward => self.after_half_page_backward(),
            Motion::LineForward => self.after_line_forward(),
            Motion::LineBackward => self.after_line_backward(),
            Motion::Resize(height) => self.after_resize(height),
        }
    }

    /// The viewport of a fresh session: cursor on the first record, if any,
    /// window at the top, placeholder height.
    pub open spec fn initial(total: usize) -> ListViewport {
        ListViewport {
            total,
            selected: if total > 0 { Some(0usize) } else { None },
            scroll_offset: 0,
            visible_height: PLACEHOLDER_HEIGHT,
        }
    }

    pub fn new(total: usize) -> (r: ListViewport)
        ensures
            r == ListViewport::initial(total),
            r.well_formed(),
    {
        ListViewport {
            total,
            selected: if total > 0 { Some(0) } else { None },
            scroll_offset: 0,
            visible_height: PLACEHOLDER_HEIGHT,
        }
    }

    /// The cursor, read where the list is known not to be empty.
    fn current(&self) -> (s: usize)
        requires
            self.in_bounds(),
            self.total > 0,
        ensures
            s == self.cursor(),
            s < self.total,
    {
        match self.selected {
            Some(s) => s,
            None => 0,
        }
    }

    /// `max(0, total - visible_height)`.
    fn max_scroll(&self) -> (r: usize)
        ensures
            r == self.max_offset(),
    {
        self.total.saturating_sub(self.visible_height)
    }

    /// Moves the cursor down one record; the window follows only when the
    /// cursor would leave its bottom edge.
    pub fn next(&mut self)
        requires
            old(self).in_bounds(),
        ensures
            *final(self) == old(self).after_next(),
            final(self).in_bounds(),
            old(self).well_formed() ==> final(self).well_formed(),
    {
        if self.total == 0 {
            return;
        }
        let s = self.current();
        if s >= self.total - 1 {
            return;
        }
        let s2 = s + 1;
        self.selected = Some(s2);
        if s2 >= self.scroll_offset.saturating_add(self.visible_height) {
            self.scroll_offset = s2 - self.visible_height + 1;
        }
    }

    /// Moves the cursor up one record; the window follows only when the
    /// cursor would leave its top edge.
    pub fn previous(&mut self)
        requires
            old(self).in_bounds(),
        ensures
            *final(self) == old(self).after_previous(),
            final(self).in_bounds(),
            old(self).well_formed() ==> final(self).well_formed(),
    {
        if self.total == 0 {
            return;
        }
        let s = self.current();
        if s == 0 {
            return;
        }
        let s2 = s - 1;
        self.selected = Some(s2);
        if s2 < self.scroll_offset {
            self.scroll_offset = s2;
        }
    }
    /// Puts the cursor on the first visible row.
    pub fn goto_page_top(&mut self)
        requires
            old(self).in_bounds(),
        ensures
            *final(self) == old(self).after_page_top(),
            final(self).in_bounds(),
            old(self).well_formed() ==> final(self).well_formed(),
    {
        if self.total == 0 {
            return;
        }
        self.selected = Some(self.scroll_offset);
    }

    /// Puts the cursor on the middle row of the part of the window that
    /// holds records.
    pub fn goto_page_middle(&mut self)
        requires
            old(self).in_bounds(),
        ensures
            *final(self) == old(self).after_page_middle(),
            final(self).in_bounds(),
            old(self).well_formed() ==> final(self).well_formed(),
    {
        if self.total == 0 {
            return;
        }
        let end = if self.scroll_offset.saturating_add(self.visible_height) < self.total {
            self.scroll_offset + self.visible_height
        } else {
            self.total
        };
        let middle = self.scroll_offset + (end - self.scroll_offset) / 2;
        let target = if middle < self.total - 1 { middle } else { self.total - 1 };
        self.selected = Some(target);
    }

    /// Puts the cursor on the last visible row, which is the last record when
    /// the window reaches past the end of the list.
    pub fn goto_page_bottom(&mut self)
        requires
            old(self).in_bounds(),
        ensures
            *final(self) == old(self).after_page_bottom(),
            final(self).in_bounds(),
            old(self).well_formed() ==> final(self).well_formed(),
    {
        if self.total == 0 {
            return;
        }
        let last_visible = self.scroll_offset.saturating_add(self.visible_height) - 1;
        let target = if last_visible < self.total - 1 { last_visible } else { self.total - 1 };
        self.selected = Some(target);
    }

    /// Scrolls one window forward and puts the cursor on its top row; when
    /// the window cannot move, puts the cursor on the last record.
    pub fn page_forward(&mut self)
        requires
            old(self).in_bounds(),
        ensures
            *final(self) == old(self).after_page_forward(),
            final(self).in_bounds(),
            old(self).well_formed() ==> final(self).well_formed(),
    {
        if self.total == 0 {
            return;
        }
        let limit = self.max_scroll();
        let advanced = self.scroll_offset.saturating_add(self.visible_height);
        let o2 = if advanced < limit { advanced } else { limit };
        if o2 != self.scroll_offset {
            self.scroll_offset = o2;
            self.selected = Some(o2);
        } else {
            self.selected = Some(self.total - 1);
        }
    }

    /// Scrolls one window back and puts the cursor on its top row.
    pub fn page_backward(&mut self)
        requires
            old(self).in_bounds(),
        ensures
            *final(self) == old(self).after_page_backward(),
            final(self).in_bounds(),
            old(self).well_formed() ==> final(self).well_formed(),
    {
        if self.total == 0 {
            return;
        }
        let o2 = self.scroll_offset.saturating_sub(self.visible_height);
        self.scroll_offset = o2;
        self.selected = Some(o2);
    }

    /// Half a window, at least one row.
    fn half_page_rows(&self) -> (r: usize)
        requires
            self.visible_height >= 1,
        ensures
            r == self.half_page(),
            1 <= r <= self.visible_height,
    {
        let half = self.visible_height / 2;
        if half > 1 { half } else { 1 }
    }

    /// Scrolls half a window forward; the cursor keeps its row in the window
    /// as far as the list allows.
    pub fn half_page_forward(&mut self)
        requires
            old(self).in_bounds(),
        ensures
            *final(self) == old(self).after_half_page_forward(),
            final(self).in_bounds(),
            old(self).well_formed() ==> final(self).well_formed(),
    {
        if self.total == 0 {
            return;
        }
        let half = self.half_page_rows();
        let s = self.current();
        let row = s.saturating_sub(self.scroll_offset);
        let limit = self.max_scroll();
        let advanced = self.scroll_offset.saturating_add(half);
        let o2 = if advanced < limit { advanced } else { limit };
        let target = o2.saturating_add(row);
        let s2 = if target < self.total - 1 { target } else { self.total - 1 };
        self.scroll_offset = o2;
        self.selected = Some(s2);
    }

    /// Scrolls half a window back; the cursor keeps its row in the window.
    pub fn half_page_backward(&mut self)
        requires
            old(self).in_bounds(),
        ensures
            *final(self) == old(self).after_half_page_backward(),
            final(self).in_bounds(),
            old(self).well_formed() ==> final(self).well_formed(),
    {
        if self.total == 0 {
            return;
        }
        let half = self.half_page_rows();
        let s = self.current();
        let row = s.saturating_sub(self.scroll_offset);
        let o2 = self.scroll_offset.saturating_sub(half);
        self.scroll_offset = o2;
        self.selected = Some(o2 + row);
    }

    /// Scrolls the window one row forward; the cursor moves only when it sat
    /// on the top row and would otherwise leave the window.
    pub fn line_forward(&mut self)
        requires
            old(self).in_bounds(),
        ensures
            *final(self) == old(self).after_line_forward(),
            final(self).in_bounds(),
            old(self).well_formed() ==> final(self).well_formed(),
    {
        if self.total == 0 {
            return;
        }
        let s = self.current();
        let at_top = s == self.scroll_offset;
        let limit = self.max_scroll();
        let o2 = if self.scroll_offset < limit { self.scroll_offset + 1 } else { limit };
        self.scroll_offset = o2;
        if at_top && o2 > s && s < self.total - 1 {
            self.selected = Some(s + 1);
        }
    }

    /// Scrolls the window one row back; the cursor moves only when it sat on
    /// the bottom row and the window did move.
    pub fn line_backward(&mut self)
        requires
            old(self).in_bounds(),
        ensures
            *final(self) == old(self).after_line_backward(),
            final(self).in_bounds(),
            old(self).well_formed() ==> final(self).well_formed(),
    {
        if self.total == 0 {
            return;
        }
        let s = self.current();
        let last_visible = self.scroll_offset.saturating_add(self.visible_height) - 1;
        let bottom = if last_visible < self.total - 1 { last_visible } else { self.total - 1 };
        let at_bottom = s == bottom;
        let receded = self.scroll_offset > 0;
        self.scroll_offset = self.scroll_offset.saturating_sub(1);
        if at_bottom && receded && s > 0 {
            self.selected = Some(s - 1);
        }
    }

    /// Sets the window height (at least one row), then pulls the window and
    /// the cursor back inside their bounds.
    pub fn resize(&mut self, height: usize)
        requires
            old(self).in_bounds(),
        ensures
            *final(self) == old(self).after_resize(height),
            final(self).in_bounds(),
            final(self).well_formed(),
    {
        let h = if height > 1 { height } else { 1 };
        self.visible_height = h;
        let limit = self.max_scroll();
        if self.scroll_offset > limit {
            self.scroll_offset = limit;
        }
        if self.total == 0 {
            return;
        }
        let s = self.current();
        let last_visible = self.scroll_offset.saturating_add(h) - 1;
        let s2 = if s < self.scroll_offset {
            self.scroll_offset
        } else if s > last_visible {
            last_visible
        } else {
            s
        };
        self.selected = Some(s2);
    }

    /// The records the window shows, as the half-open index range
    /// `[scroll_offset, min(scroll_offset + visible_height, total))`.
    pub fn visible_range(&self) -> (r: (usize, usize))
        requires
            self.in_bounds(),
        ensures
            r.0 == self.scroll_offset,
            r.1 == min_int(self.scroll_offset + self.visible_height, self.total as int),
            r.0 <= r.1 <= self.total,
    {
        let end = if self.scroll_offset.saturating_add(self.visible_height) < self.total {
            self.scroll_offset + self.visible_height
        } else {
            self.total
        };
        (self.scroll_offset, end)
    }

    /// The row of the window that holds the cursor, if the cursor is inside
    /// the window.
    pub fn cursor_row(&self) -> (r: Option<usize>)
        requires
            self.in_bounds(),
        ensures
            match self.selected {
                Some(s) => if self.scroll_offset <= s < self.scroll_offset + self.visible_height {
                    r == Some((s - self.scroll_offset) as usize)
                } else {
                    r is None
                },
                None => r is None,
            },
    {
        match self.selected {
            Some(s) => if s >= self.scroll_offset && s - self.scroll_offset < self.visible_height {
                Some(s - self.scroll_offset)
            } else {
                None
            },
            None => None,
        }
    }

    /// Carries out one motion command.
    pub fn apply(&mut self, m: Motion)
        requires
            old(self).in_bounds(),
        ensures
            *final(self) == old(self).after(m),
            final(self).in_bounds(),
            old(self).well_formed() ==> final(self).well_formed(),
    {
        match m {
            Motion::Next => self.next(),
            Motion::Previous => self.previous(),
            Motion::PageTop => self.goto_page_top(),
            Motion::PageMiddle => self.goto_page_middle(),
            Motion::PageBottom => self.goto_page_bottom(),
            Motion::PageForward => self.page_forward(),
            Motion::PageBackward => self.page_backward(),
            Motion::HalfPageForward => self.half_page_forward(),
            Motion::HalfPageBackward => self.half_page_backward(),
            Motion::LineForward => self.line_forward(),
            Motion::LineBackward => self.line_backward(),
            Motion::Resize(height) => self.resize(height),
        }
    }
}

} // verus!
