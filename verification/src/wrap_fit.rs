use vstd::prelude::*;

use crate::message_log::Message;
use crate::message_log::MessageLog;

verus! {

/// Fixed number of rows a message block occupies beyond its wrapped text
/// lines: one border row above and one below.
pub const DECORATION_HEIGHT: u16 = 2;

/// The number of visual lines that word-wrapping `text` to `width` columns
/// produces; a function of the text and the width alone.
pub uninterp spec fn wrap_count(text: Seq<char>, width: int) -> nat;

/// Relies on `textwrap::wrap`: word-wraps a text to the given column width
/// (breaking at the last whitespace boundary that fits, hard-breaking words
/// wider than the line) and returns one entry per visual line. The result
/// depends on the text and the width alone.
#[verifier::external_body]
fn wrapped_line_count(text: &str, width: u16) -> (n: usize)
    ensures
        n == wrap_count(text@, width as int),
{
    textwrap::wrap(text, width as usize).len()
}

/// Rendered height, in rows, of one message block at a given width: its
/// wrapped lines plus the border decoration.
pub open spec fn block_height(text: Seq<char>, width: int) -> int {
    wrap_count(text, width) + DECORATION_HEIGHT as int
}

/// Summed rendered height of the messages from index `k` to the end.
pub open spec fn suffix_height(msgs: Seq<Message>, width: int, k: int) -> int
    decreases msgs.len() - k,
{
    if k < 0 || k >= msgs.len() {
        0
    } else {
        block_height(msgs[k].content@, width) + suffix_height(msgs, width, k + 1)
    }
}

/// Every suffix of the log has a non-negative rendered height.
pub proof fn lemma_suffix_height_nonneg(msgs: Seq<Message>, width: int, k: int)
    ensures
        suffix_height(msgs, width, k) >= 0,
    decreases msgs.len() - k,
{
    if 0 <= k < msgs.len() {
        lemma_suffix_height_nonneg(msgs, width, k + 1);
    }
}

/// A suffix that starts earlier is at least as tall: dropping messages from
/// the front never increases the summed height.
pub proof fn lemma_suffix_height_antitone(msgs: Seq<Message>, width: int, j: int, k: int)
    requires
        0 <= j <= k,
    ensures
        suffix_height(msgs, width, j) >= suffix_height(msgs, width, k),
    decreases k - j,
{
    if j < k {
        if j >= msgs.len() {
            assert(suffix_height(msgs, width, k) == 0);
        } else {
            lemma_suffix_height_antitone(msgs, width, j + 1, k);
        }
    }
}

/// One vertical slot in the message area, `y` rows below the area's top edge
/// and `height` rows tall.
#[derive(PartialEq, Eq, Clone, Copy, Debug)]
pub struct Slot {
    pub y: u16,
    pub height: u16,
}

/// The result of wrap-fitting a log into the message area: the `drop_count`
/// oldest messages no longer fit; each kept message `drop_count + k` of the
/// input is drawn in `slots[k]`.
pub struct FittedLayout {
    pub drop_count: usize,
    pub slots: Vec<Slot>,
}

/// What a correct fitted layout for `msgs` in a `width` by `height` message
/// area looks like:
/// - `drop_count` is the least start index whose trailing subsequence fits
///   the area, and it never passes the newest message, which is kept even
///   when its rendered height alone exceeds the area;
/// - the kept messages get bottom-anchored slots, stacked so that the newest
///   message's bottom edge meets the bottom of the area, each slot exactly
///   its message's rendered height;
/// - when even the lone newest message overflows the area, its single slot
///   is clipped to the whole area.
pub open spec fn is_fitted_layout(
    layout: FittedLayout,
    msgs: Seq<Message>,
    width: int,
    height: int,
) -> bool {
    let dc = layout.drop_count as int;
    &&& dc <= msgs.len()
    &&& (msgs.len() == 0 ==> dc == 0)
    &&& (msgs.len() > 0 ==> dc < msgs.len())
    &&& layout.slots@.len() == msgs.len() - dc
    &&& forall|j: int| 0 <= j < dc ==> suffix_height(msgs, width, j) > height
    &&& (suffix_height(msgs, width, dc) <= height || dc == msgs.len() - 1)
    &&& (suffix_height(msgs, width, dc) <= height ==> forall|k: int|
        0 <= k < layout.slots@.len() ==> ((#[trigger] layout.slots@[k]).y == height
            - suffix_height(msgs, width, dc + k) && layout.slots@[k].height == block_height(
            msgs[dc + k].content@,
            width,
        )))
    &&& ((msgs.len() > 0 && suffix_height(msgs, width, dc) > height) ==> (layout.slots@[0].y == 0
        && layout.slots@[0].height == height))
}

/// Wrap-fits `msgs` (oldest first) into a message area of `width` columns by
/// `height` rows: keeps the maximal trailing subsequence whose summed
/// rendered height does not exceed the area (but always at least the newest
/// message) and assigns each kept message a bottom-anchored slot.
pub fn compute_layout(msgs: &Vec<Message>, width: u16, height: u16) -> (layout: FittedLayout)
    ensures
        is_fitted_layout(layout, msgs@, width as int, height as int),
{
    let ghost w = width as int;
    let ghost h = height as int;

    let mut counts: Vec<usize> = Vec::new();
    let mut idx: usize = 0;
    while idx < msgs.len()
        invariant
            w == width as int,
            h == height as int,
            idx <= msgs@.len(),
            counts@.len() == idx,
            forall|t: int| 0 <= t < idx ==> #[trigger] counts@[t] == wrap_count(
                msgs@[t].content@,
                w,
            ),
        decreases msgs@.len() - idx,
    {
        let n = wrapped_line_count(msgs[idx].content.as_str(), width);
        counts.push(n);
        idx = idx + 1;
    }

    let mut start: usize = msgs.len();
    let mut acc: u32 = 0;
    loop
        invariant_except_break
            w == width as int,
            h == height as int,
            start <= msgs@.len(),
            counts@.len() == msgs@.len(),
            forall|t: int| 0 <= t < msgs@.len() ==> #[trigger] counts@[t] == wrap_count(
                msgs@[t].content@,
                w,
            ),
            acc == suffix_height(msgs@, w, start as int),
            acc <= height,
        ensures
            w == width as int,
            h == height as int,
            start <= msgs@.len(),
            counts@.len() == msgs@.len(),
            forall|t: int| 0 <= t < msgs@.len() ==> #[trigger] counts@[t] == wrap_count(
                msgs@[t].content@,
                w,
            ),
            acc == suffix_height(msgs@, w, start as int),
            acc <= height,
            start > 0 ==> suffix_height(msgs@, w, start as int - 1) > h,
        decreases start,
    {
        if start == 0 {
            break ;
        }
        let c: usize = counts[start - 1];
        proof {
            assert(c == wrap_count(msgs@[start as int - 1].content@, w));
            assert(suffix_height(msgs@, w, start as int - 1) == c + DECORATION_HEIGHT as int
                + acc);
        }
        let room: u32 = height as u32 - acc;
        if room >= 2 && (c as u64) <= ((room - 2) as u64) {
            assert(c <= u32::MAX);
            acc = acc + 2 + (c as u32);
            start = start - 1;
        } else {
            assert(suffix_height(msgs@, w, start as int - 1) > h);
            break ;
        }
    }

    let drop_count: usize = if start == msgs.len() && msgs.len() > 0 {
        msgs.len() - 1
    } else {
        start
    };

    proof {
        assert forall|j: int| 0 <= j < drop_count implies suffix_height(msgs@, w, j) > h by {
            lemma_suffix_height_antitone(msgs@, w, j, start as int - 1);
        }
    }

    let mut slots: Vec<Slot> = Vec::new();
    if msgs.len() > 0 && start == msgs.len() {
        // even the newest message alone overflows: clip its slot to the area
        slots.push(Slot { y: 0, height });
    } else {
        let mut y: u32 = height as u32 - acc;
        let mut j: usize = start;
        while j < msgs.len()
            invariant
                w == width as int,
                h == height as int,
                start <= j <= msgs@.len(),
                counts@.len() == msgs@.len(),
                forall|t: int| 0 <= t < msgs@.len() ==> #[trigger] counts@[t] == wrap_count(
                    msgs@[t].content@,
                    w,
                ),
                0 <= suffix_height(msgs@, w, j as int) <= h,
                y == h - suffix_height(msgs@, w, j as int),
                slots@.len() == j - start,
                forall|k: int| 0 <= k < slots@.len() ==> ((#[trigger] slots@[k]).y == h
                    - suffix_height(msgs@, w, start + k) && slots@[k].height == block_height(
                    msgs@[start + k].content@,
                    w,
                )),
            decreases msgs@.len() - j,
        {
            let c: usize = counts[j];
            proof {
                lemma_suffix_height_nonneg(msgs@, w, j as int + 1);
                assert(c == wrap_count(msgs@[j as int].content@, w));
                assert(suffix_height(msgs@, w, j as int) == c + DECORATION_HEIGHT as int
                    + suffix_height(msgs@, w, j as int + 1));
                assert(c + 2 <= h);
            }
            let block: u32 = (c as u32) + 2;
            slots.push(Slot { y: y as u16, height: block as u16 });
            y = y + block;
            j = j + 1;
        }
    }

    FittedLayout { drop_count, slots }
}

impl MessageLog {
    /// Computes the fitted layout for the current log, then evicts from the
    /// log itself the prefix of messages that fell out of view: the visible
    /// window and the retained log are the same structure.
    pub fn fit_and_evict(&mut self, width: u16, height: u16) -> (layout: FittedLayout)
        ensures
            is_fitted_layout(layout, old(self)@, width as int, height as int),
            final(self)@ == old(self)@.subrange(
                layout.drop_count as int,
                old(self)@.len() as int,
            ),
    {
        let snap = self.snapshot();
        let layout = compute_layout(&snap, width, height);
        self.evict_front(layout.drop_count);
        layout
    }
}

/// Law: when the message area is at least one decorated block tall and every
/// message of the log fits the area on its own, the fitted layout holds
/// exactly the maximal trailing subsequence whose summed rendered height does
/// not exceed the area height.
pub proof fn lemma_fit_is_maximal(
    layout: FittedLayout,
    msgs: Seq<Message>,
    width: int,
    height: int,
)
    requires
        is_fitted_layout(layout, msgs, width, height),
        height >= DECORATION_HEIGHT,
        forall|i: int| 0 <= i < msgs.len() ==> #[trigger] block_height(msgs[i].content@, width)
            <= height,
    ensures
        suffix_height(msgs, width, layout.drop_count as int) <= height,
        forall|j: int| 0 <= j < layout.drop_count ==> suffix_height(msgs, width, j) > height,
{
    if msgs.len() > 0 && layout.drop_count == msgs.len() - 1 {
        assert(suffix_height(msgs, width, msgs.len() as int) == 0);
        assert(block_height(msgs[msgs.len() - 1].content@, width) <= height);
        assert(suffix_height(msgs, width, msgs.len() - 1) == block_height(
            msgs[msgs.len() - 1].content@,
            width,
        ) + suffix_height(msgs, width, msgs.len() as int));
    }
}

/// Law: when the kept suffix fits the area, its slots stack contiguously and
/// the newest message's bottom edge meets the bottom edge of the area; any
/// leftover rows are blank space above the oldest kept message.
pub proof fn lemma_slots_bottom_anchored(
    layout: FittedLayout,
    msgs: Seq<Message>,
    width: int,
    height: int,
)
    requires
        is_fitted_layout(layout, msgs, width, height),
        suffix_height(msgs, width, layout.drop_count as int) <= height,
        msgs.len() > 0,
    ensures
        layout.slots@.last().y + layout.slots@.last().height == height,
        forall|k: int| 0 <= k < layout.slots@.len() - 1 ==> (#[trigger] layout.slots@[k]).y
            + layout.slots@[k].height == layout.slots@[k + 1].y,
{
    let dc = layout.drop_count as int;
    let n = layout.slots@.len() as int;
    assert(suffix_height(msgs, width, msgs.len() as int) == 0);
    assert(layout.slots@.last().y + layout.slots@.last().height == height) by {
        assert(suffix_height(msgs, width, dc + n - 1) == block_height(
            msgs[dc + n - 1].content@,
            width,
        ) + suffix_height(msgs, width, dc + n));
    }
    assert forall|k: int| 0 <= k < n - 1 implies (#[trigger] layout.slots@[k]).y
        + layout.slots@[k].height == layout.slots@[k + 1].y by {
        assert(suffix_height(msgs, width, dc + k) == block_height(msgs[dc + k].content@, width)
            + suffix_height(msgs, width, dc + k + 1));
    }
}

/// Law: the newest message is present in the fitted layout whenever the log
/// is non-empty, even when its rendered height alone exceeds the area.
pub proof fn lemma_newest_always_fitted(
    layout: FittedLayout,
    msgs: Seq<Message>,
    width: int,
    height: int,
)
    requires
        is_fitted_layout(layout, msgs, width, height),
        msgs.len() > 0,
    ensures
        layout.drop_count < msgs.len(),
        layout.slots@.len() >= 1,
{
}

} // verus!
