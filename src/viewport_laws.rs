use vstd::prelude::*;

use crate::viewport::{max_offset_of, ListViewport, Motion};

verus! {

/// The viewport after the motions of `ms`, in order, starting from `v`.
pub open spec fn run(v: ListViewport, ms: Seq<Motion>) -> ListViewport
    decreases ms.len(),
{
    if ms.len() == 0 {
        v
    } else {
        run(v.after(ms[0]), ms.drop_first())
    }
}

/// The viewport after paging forward `k` times from `v`.
pub open spec fn page_forward_times(v: ListViewport, k: nat) -> ListViewport
    decreases k,
{
    if k == 0 {
        v
    } else {
        page_forward_times(v.after_page_forward(), (k - 1) as nat)
    }
}

/// Every motion keeps a well-formed viewport well-formed, over the same list.
pub proof fn lemma_motion_keeps_well_formed(v: ListViewport, m: Motion)
    requires
        v.well_formed(),
    ensures
        v.after(m).well_formed(),
        v.after(m).total == v.total,
{
    match m {
        Motion::Next => assert(v.after_next().well_formed()),
        Motion::Previous => assert(v.after_previous().well_formed()),
        Motion::PageTop => assert(v.after_page_top().well_formed()),
        Motion::PageMiddle => assert(v.after_page_middle().well_formed()),
        Motion::PageBottom => assert(v.after_page_bottom().well_formed()),
        Motion::PageForward => assert(v.after_page_forward().well_formed()),
        Motion::PageBackward => assert(v.after_page_backward().well_formed()),
        Motion::HalfPageForward => assert(v.after_half_page_forward().well_formed()),
        Motion::HalfPageBackward => assert(v.after_half_page_backward().well_formed()),
        Motion::LineForward => assert(v.after_line_forward().well_formed()),
        Motion::LineBackward => assert(v.after_line_backward().well_formed()),
        Motion::Resize(h) => assert(v.after_resize(h).well_formed()),
    }
}

/// A sequence of motions keeps a well-formed viewport well-formed.
pub proof fn lemma_run_keeps_well_formed(v: ListViewport, ms: Seq<Motion>)
    requires
        v.well_formed(),
    ensures
        run(v, ms).well_formed(),
        run(v, ms).total == v.total,
    decreases ms.len(),
{
    if ms.len() > 0 {
        lemma_motion_keeps_well_formed(v, ms[0]);
        lemma_run_keeps_well_formed(v.after(ms[0]), ms.drop_first());
    }
}

/// A fresh session starts well-formed, whatever the number of records.
pub proof fn lemma_initial_well_formed(total: usize)
    ensures
        ListViewport::initial(total).well_formed(),
{
}

/// After any sequence of motions from a well-formed viewport (a fresh
/// session is one), the window starts between zero and
/// `max(0, total - visible_height)`.
pub proof fn lemma_offset_stays_in_range(v: ListViewport, ms: Seq<Motion>)
    requires
        v.well_formed(),
    ensures
        0 <= run(v, ms).scroll_offset <= max_offset_of(
            run(v, ms).total as int,
            run(v, ms).visible_height as int,
        ),
{
    lemma_run_keeps_well_formed(v, ms);
}

/// After any sequence of motions from a well-formed viewport (a fresh session
/// is one), the cursor of a non-empty list lies inside the window.
pub proof fn lemma_cursor_stays_visible(v: ListViewport, ms: Seq<Motion>)
    requires
        v.well_formed(),
    ensures
        run(v, ms).total > 0 ==> run(v, ms).scroll_offset <= run(v, ms).cursor() < run(
            v,
            ms,
        ).scroll_offset + run(v, ms).visible_height,
{
    lemma_run_keeps_well_formed(v, ms);
}

/// Moving down and then up from any record but the last brings the cursor
/// back to where it was.
pub proof fn lemma_next_then_previous(v: ListViewport)
    requires
        v.in_bounds(),
        v.total > 0,
        v.cursor() + 1 < v.total,
    ensures
        v.after_next().after_previous().selected == v.selected,
{
}

/// Rows of paging forward still to come: the distance to the last window,
/// plus one while the cursor is not on the last record.
pub open spec fn pages_left(v: ListViewport) -> int {
    (v.max_offset() - v.scroll_offset) + if v.cursor() == v.total - 1 { 0int } else { 1int }
}

/// Once paging forward no longer changes the viewport, the cursor is on the
/// last record.
pub proof fn lemma_page_forward_rest_is_last(v: ListViewport)
    requires
        v.well_formed(),
        v.total > 0,
        v.after_page_forward() == v,
    ensures
        v.cursor() == v.total - 1,
{
}

/// Each page forward that changes something brings the end closer.
proof fn lemma_page_forward_progress(v: ListViewport)
    requires
        v.well_formed(),
        v.total > 0,
    ensures
        v.after_page_forward().well_formed(),
        v.after_page_forward().total == v.total,
        v.after_page_forward().visible_height == v.visible_height,
        0 <= pages_left(v) <= v.total,
        pages_left(v) == 0 ==> v.after_page_forward() == v,
        pages_left(v) > 0 ==> 0 <= pages_left(v.after_page_forward()) < pages_left(v),
{
    lemma_motion_keeps_well_formed(v, Motion::PageForward);
}

proof fn lemma_page_forward_times_ends(v: ListViewport, k: nat)
    requires
        v.well_formed(),
        v.total > 0,
        k >= pages_left(v),
    ensures
        page_forward_times(v, k).well_formed(),
        page_forward_times(v, k).total == v.total,
        pages_left(page_forward_times(v, k)) == 0,
    decreases k,
{
    lemma_page_forward_progress(v);
    if k > 0 {
        lemma_page_forward_times_ends(v.after_page_forward(), (k - 1) as nat);
    }
}

/// Paging forward repeatedly from a well-formed viewport of a non-empty list
/// comes to rest, after at most `total` steps, with the cursor on the last
/// record.
pub proof fn lemma_page_forward_reaches_last(v: ListViewport)
    requires
        v.well_formed(),
        v.total > 0,
    ensures
        ({
            let w = page_forward_times(v, v.total as nat);
            &&& w.after_page_forward() == w
            &&& w.cursor() == v.total - 1
        }),
{
    lemma_page_forward_progress(v);
    lemma_page_forward_times_ends(v, v.total as nat);
    lemma_page_forward_progress(page_forward_times(v, v.total as nat));
}

/// Jumping to the top, middle or bottom row of the window never scrolls it.
pub proof fn lemma_page_jumps_keep_offset(v: ListViewport)
    ensures
        v.after_page_top().scroll_offset == v.scroll_offset,
        v.after_page_middle().scroll_offset == v.scroll_offset,
        v.after_page_bottom().scroll_offset == v.scroll_offset,
{
}

/// On an empty list no motion selects anything or scrolls; all but a resize
/// leave the viewport exactly as it was.
pub proof fn lemma_empty_list_is_inert(v: ListViewport, m: Motion)
    requires
        v.in_bounds(),
        v.total == 0,
    ensures
        v.after(m).selected is None,
        v.after(m).scroll_offset == 0,
        !(m is Resize) ==> v.after(m) == v,
{
}

} // verus!
