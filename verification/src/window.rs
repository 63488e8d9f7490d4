//! Window management: decoration hit-testing, the spatial registry keyed by
//! window id, drag with edge snapping, resize with a pinned opposite edge,
//! maximize/restore, minimize, focus and z-order.

use vstd::prelude::*;
use crate::{TITLE_BAR_HEIGHT, BORDER_WIDTH, SNAP_THRESHOLD, PANEL_HEIGHT, MIN_WINDOW_SIZE};

verus! {

/// Largest coordinate magnitude the shell tracks; every stored position and
/// size stays within it, which keeps all geometry arithmetic in range.
pub const MAX_COORD: i32 = 500_000_000;

/// An integer screen-space rectangle.
#[derive(Debug, Clone, Copy, PartialEq, Eq, Structural)]
pub struct Rect {
    pub x: i32,
    pub y: i32,
    pub w: i32,
    pub h: i32,
}

/// Which window edge or corner a resize grabs.
#[derive(Debug, Clone, Copy, PartialEq, Eq, Structural)]
pub enum ResizeEdge {
    Top,
    Bottom,
    Left,
    Right,
    TopLeft,
    TopRight,
    BottomLeft,
    BottomRight,
}

/// What a point hits on a decorated window.
#[derive(Debug, Clone, Copy, PartialEq, Eq, Structural)]
pub enum HitResult {
    Outside,
    TitleBar,
    CloseButton,
    MaximizeButton,
    MinimizeButton,
    Resize(ResizeEdge),
    Client,
}

/// A client toplevel as the shell tracks it: a stable id, an opaque
/// client-surface handle owned by the protocol layer, decoration state and
/// the client size. Its location lives in the `Space`.
#[derive(Debug, Clone)]
pub struct ManagedWindow {
    pub id: u32,
    pub surface: u64,
    pub title: String,
    pub minimized: bool,
    pub maximized: bool,
    pub pre_max_geometry: Option<Rect>,
    pub width: i32,
    pub height: i32,
}

/// Whether a window size is one the shell stores: at least the minimum
/// window size and within the coordinate range.
pub open spec fn spec_size_ok(n: int) -> bool {
    MIN_WINDOW_SIZE <= n <= MAX_COORD
}

/// Whether a coordinate is one the shell stores.
pub open spec fn spec_coord_ok(n: int) -> bool {
    -MAX_COORD <= n <= MAX_COORD
}

/// Where the point (x, y) lands on a window of this size whose client
/// rectangle has its top-left corner at (wx, wy). The title bar spans the
/// band of `TITLE_BAR_HEIGHT` above the client rectangle, with the three
/// 20-by-20 buttons near its right edge; a `BORDER_WIDTH` band outside each
/// edge resizes, corners taking priority; anything further out misses.
pub open spec fn spec_hit_test(width: int, height: int, x: int, y: int, wx: int, wy: int) -> HitResult {
    let left = wx;
    let right = wx + width;
    let top = wy - TITLE_BAR_HEIGHT;
    let bottom = wy + height;
    let client_top = wy;
    if x < left - BORDER_WIDTH || x > right + BORDER_WIDTH || y < top - BORDER_WIDTH || y > bottom
        + BORDER_WIDTH {
        HitResult::Outside
    } else if top <= y && y < client_top {
        if top + 5 <= y && y <= top + 25 {
            if right - 25 <= x && x <= right - 5 {
                HitResult::CloseButton
            } else if right - 50 <= x && x <= right - 30 {
                HitResult::MaximizeButton
            } else if right - 75 <= x && x <= right - 55 {
                HitResult::MinimizeButton
            } else {
                HitResult::TitleBar
            }
        } else {
            HitResult::TitleBar
        }
    } else if top - BORDER_WIDTH <= y && y < top {
        if x < left + BORDER_WIDTH {
            HitResult::Resize(ResizeEdge::TopLeft)
        } else if x > right - BORDER_WIDTH {
            HitResult::Resize(ResizeEdge::TopRight)
        } else {
            HitResult::Resize(ResizeEdge::Top)
        }
    } else if bottom < y && y <= bottom + BORDER_WIDTH {
        if x < left + BORDER_WIDTH {
            HitResult::Resize(ResizeEdge::BottomLeft)
        } else if x > right - BORDER_WIDTH {
            HitResult::Resize(ResizeEdge::BottomRight)
        } else {
            HitResult::Resize(ResizeEdge::Bottom)
        }
    } else if left - BORDER_WIDTH <= x && x < left {
        HitResult::Resize(ResizeEdge::Left)
    } else if right < x && x <= right + BORDER_WIDTH {
        HitResult::Resize(ResizeEdge::Right)
    } else if left <= x && x <= right && client_top <= y && y <= bottom {
        HitResult::Client
    } else {
        HitResult::Outside
    }
}

impl ManagedWindow {
    /// Where the point (x, y) lands on this window when its client
    /// rectangle's top-left corner sits at `window_pos`.
    pub fn hit_test(&self, x: i32, y: i32, window_pos: (i32, i32)) -> (r: HitResult)
        requires
            spec_coord_ok(window_pos.0 as int),
            spec_coord_ok(window_pos.1 as int),
            spec_coord_ok(self.width as int),
            spec_coord_ok(self.height as int),
        ensures
            r == spec_hit_test(
                self.width as int, self.height as int, x as int, y as int,
                window_pos.0 as int, window_pos.1 as int,
            ),
    {
        let left = window_pos.0;
        let right = window_pos.0 + self.width;
        let top = window_pos.1 - TITLE_BAR_HEIGHT;
        let bottom = window_pos.1 + self.height;
        let client_top = window_pos.1;
        if x < left - BORDER_WIDTH || x > right + BORDER_WIDTH || y < top - BORDER_WIDTH || y
            > bottom + BORDER_WIDTH {
            HitResult::Outside
        } else if top <= y && y < client_top {
            if top + 5 <= y && y <= top + 25 {
                if right - 25 <= x && x <= right - 5 {
                    HitResult::CloseButton
                } else if right - 50 <= x && x <= right - 30 {
                    HitResult::MaximizeButton
                } else if right - 75 <= x && x <= right - 55 {
                    HitResult::MinimizeButton
                } else {
                    HitResult::TitleBar
                }
            } else {
                HitResult::TitleBar
            }
        } else if top - BORDER_WIDTH <= y && y < top {
            if x < left + BORDER_WIDTH {
                HitResult::Resize(ResizeEdge::TopLeft)
            } else if x > right - BORDER_WIDTH {
                HitResult::Resize(ResizeEdge::TopRight)
            } else {
                HitResult::Resize(ResizeEdge::Top)
            }
        } else if bottom < y && y <= bottom + BORDER_WIDTH {
            if x < left + BORDER_WIDTH {
                HitResult::Resize(ResizeEdge::BottomLeft)
            } else if x > right - BORDER_WIDTH {
                HitResult::Resize(ResizeEdge::BottomRight)
            } else {
                HitResult::Resize(ResizeEdge::Bottom)
            }
        } else if left - BORDER_WIDTH <= x && x < left {
            HitResult::Resize(ResizeEdge::Left)
        } else if right < x && x <= right + BORDER_WIDTH {
            HitResult::Resize(ResizeEdge::Right)
        } else if left <= x && x <= right && client_top <= y && y <= bottom {
            HitResult::Client
        } else {
            HitResult::Outside
        }
    }
}

/// The first location registered for `id` in `s`, scanning front to back.
pub open spec fn spec_locate_in(s: Seq<(u32, i32, i32)>, id: u32) -> Option<(i32, i32)>
    decreases s.len(),
{
    if s.len() == 0 {
        None
    } else if s[0].0 == id {
        Some((s[0].1, s[0].2))
    } else {
        spec_locate_in(s.skip(1), id)
    }
}

/// The spatial registry: each window id maps to the screen position of its
/// client rectangle's top-left corner.
pub struct Space {
    entries: Vec<(u32, i32, i32)>,
}

impl Space {
    /// The registered (id, x, y) entries.
    pub closed spec fn entries_seq(&self) -> Seq<(u32, i32, i32)> {
        self.entries@
    }

    /// The location registered for `id`, if any.
    pub open spec fn spec_locate(&self, id: u32) -> Option<(i32, i32)> {
        spec_locate_in(self.entries_seq(), id)
    }

    /// Well-formedness: one entry per id, every coordinate in range.
    pub open spec fn wf(&self) -> bool {
        &&& forall|i: int, j: int|
            0 <= i < j < self.entries_seq().len()
                ==> (#[trigger] self.entries_seq()[i]).0 != (#[trigger] self.entries_seq()[j]).0
        &&& forall|i: int|
            0 <= i < self.entries_seq().len() ==> spec_coord_ok(
                (#[trigger] self.entries_seq()[i]).1 as int,
            ) && spec_coord_ok(self.entries_seq()[i].2 as int)
    }

    /// An empty registry.
    pub fn new() -> (r: Self)
        ensures
            r.wf(),
            r.entries_seq() == Seq::<(u32, i32, i32)>::empty(),
    {
        Space { entries: Vec::new() }
    }

    /// The location registered for `id`, if any.
    pub fn locate(&self, id: u32) -> (r: Option<(i32, i32)>)
        ensures
            r == self.spec_locate(id),
    {
        let n = self.entries.len();
        let mut i: usize = 0;
        proof {
            assert(self.entries@.skip(0) =~= self.entries@);
        }
        while i < n
            invariant
                n == self.entries@.len(),
                i <= n,
                forall|j: int| 0 <= j < i ==> (#[trigger] self.entries@[j]).0 != id,
                spec_locate_in(self.entries@.skip(i as int), id) == spec_locate_in(
                    self.entries@, id,
                ),
            decreases n - i,
        {
            let e = self.entries[i];
            proof {
                assert(self.entries@.skip(i as int)[0] == self.entries@[i as int]);
                assert(self.entries@.skip(i as int).skip(1) =~= self.entries@.skip(i as int + 1));
            }
            if e.0 == id {
                return Some((e.1, e.2));
            }
            i = i + 1;
        }
        proof {
            assert(self.entries@.skip(n as int) =~= Seq::<(u32, i32, i32)>::empty());
        }
        None
    }

    /// Register `id` at (x, y), replacing any earlier entry for it; no
    /// other id's location moves.
    pub fn place(&mut self, id: u32, x: i32, y: i32)
        requires
            old(self).wf(),
            spec_coord_ok(x as int),
            spec_coord_ok(y as int),
        ensures
            final(self).wf(),
            final(self).spec_locate(id) == Some((x, y)),
            forall|q: u32| q != id ==> final(self).spec_locate(q) == old(self).spec_locate(q),
    {
        let n = self.entries.len();
        let mut i: usize = 0;
        while i < n
            invariant
                old(self).wf(),
                *self == *old(self),
                spec_coord_ok(x as int),
                spec_coord_ok(y as int),
                n == self.entries@.len(),
                i <= n,
                forall|j: int| 0 <= j < i ==> (#[trigger] self.entries@[j]).0 != id,
            decreases n - i,
        {
            if self.entries[i].0 == id {
                self.entries.set(i, (id, x, y));
                proof {
                    let s0 = old(self).entries@;
                    let s1 = self.entries@;
                    assert(s1 == s0.update(i as int, (id, x, y)));
                    lemma_locate_update(s0, i as int, id, x, y);
                    assert forall|a: int, b: int|
                        0 <= a < b < s1.len() implies (#[trigger] s1[a]).0 != (
                    #[trigger] s1[b]).0 by {
                        assert(s1[a].0 == s0[a].0);
                        assert(s1[b].0 == s0[b].0);
                    }
                    assert forall|a: int|
                        0 <= a < s1.len() implies spec_coord_ok(
                        (#[trigger] s1[a]).1 as int,
                    ) && spec_coord_ok(s1[a].2 as int) by {
                        if a != i {
                            assert(s1[a] == s0[a]);
                        }
                    }
                }
                return;
            }
            i = i + 1;
        }
        self.entries.push((id, x, y));
        proof {
            let s0 = old(self).entries@;
            let s1 = self.entries@;
            assert(s1 == s0.push((id, x, y)));
            lemma_locate_push(s0, id, x, y);
        }
    }

    /// Drop any entry for `id`; no other id's location moves.
    pub fn remove(&mut self, id: u32)
        requires
            old(self).wf(),
        ensures
            final(self).wf(),
            final(self).spec_locate(id) is None,
            forall|q: u32| q != id ==> final(self).spec_locate(q) == old(self).spec_locate(q),
    {
        let n = self.entries.len();
        let mut i: usize = 0;
        while i < n
            invariant
                old(self).wf(),
                *self == *old(self),
                n == self.entries@.len(),
                i <= n,
                forall|j: int| 0 <= j < i ==> (#[trigger] self.entries@[j]).0 != id,
            decreases n - i,
        {
            if self.entries[i].0 == id {
                self.entries.remove(i);
                proof {
                    let s0 = old(self).entries@;
                    let s1 = self.entries@;
                    assert(s1 == s0.remove(i as int));
                    lemma_locate_remove(s0, i as int, id);
                    assert forall|a: int, b: int|
                        0 <= a < b < s1.len() implies (#[trigger] s1[a]).0 != (
                    #[trigger] s1[b]).0 by {
                        let sa: int = if a < i { a } else { a + 1 };
                        let sb: int = if b < i { b } else { b + 1 };
                        assert(s1[a] == s0[sa]);
                        assert(s1[b] == s0[sb]);
                    }
                    assert forall|a: int|
                        0 <= a < s1.len() implies spec_coord_ok(
                        (#[trigger] s1[a]).1 as int,
                    ) && spec_coord_ok(s1[a].2 as int) by {
                        let sa: int = if a < i { a } else { a + 1 };
                        assert(s1[a] == s0[sa]);
                    }
                }
                return;
            }
            i = i + 1;
        }
        proof {
            lemma_locate_absent(self.entries@, id);
        }
    }
}

/// With no matching entry, lookup finds nothing.
proof fn lemma_locate_absent(s: Seq<(u32, i32, i32)>, id: u32)
    requires
        forall|j: int| 0 <= j < s.len() ==> (#[trigger] s[j]).0 != id,
    ensures
        spec_locate_in(s, id) is None,
    decreases s.len(),
{
    if s.len() > 0 {
        lemma_locate_absent(s.skip(1), id);
    }
}

/// Updating the unique entry of `id` in place moves only that id's lookup.
proof fn lemma_locate_update(s: Seq<(u32, i32, i32)>, i: int, id: u32, x: i32, y: i32)
    requires
        0 <= i < s.len(),
        s[i].0 == id,
        forall|a: int, b: int| 0 <= a < b < s.len() ==> (#[trigger] s[a]).0 != (#[trigger] s[b]).0,
    ensures
        spec_locate_in(s.update(i, (id, x, y)), id) == Some((x, y)),
        forall|q: u32|
            q != id ==> spec_locate_in(s.update(i, (id, x, y)), q) == spec_locate_in(s, q),
    decreases i,
{
    let t = s.update(i, (id, x, y));
    if i == 0 {
        assert(t[0] == (id, x, y));
        assert(t.skip(1) =~= s.skip(1));
        assert forall|q: u32| q != id implies spec_locate_in(t, q) == spec_locate_in(s, q) by {
            assert(spec_locate_in(t, q) == spec_locate_in(t.skip(1), q));
            assert(spec_locate_in(s, q) == spec_locate_in(s.skip(1), q));
        }
    } else {
        assert(t[0] == s[0]);
        assert(t.skip(1) =~= s.skip(1).update(i - 1, (id, x, y)));
        lemma_locate_update(s.skip(1), i - 1, id, x, y);
        assert(spec_locate_in(t, id) == Some((x, y)));
        assert forall|q: u32| q != id implies spec_locate_in(t, q) == spec_locate_in(s, q) by {
            assert(spec_locate_in(t.skip(1), q) == spec_locate_in(s.skip(1), q));
        }
    }
}

/// Appending an entry for an id not yet present registers it and moves no
/// other id's lookup.
proof fn lemma_locate_push(s: Seq<(u32, i32, i32)>, id: u32, x: i32, y: i32)
    requires
        forall|j: int| 0 <= j < s.len() ==> (#[trigger] s[j]).0 != id,
    ensures
        spec_locate_in(s.push((id, x, y)), id) == Some((x, y)),
        forall|q: u32| q != id ==> spec_locate_in(s.push((id, x, y)), q) == spec_locate_in(s, q),
    decreases s.len(),
{
    let t = s.push((id, x, y));
    if s.len() == 0 {
        assert(t[0] == (id, x, y));
        assert(t.skip(1) =~= Seq::<(u32, i32, i32)>::empty());
        assert forall|q: u32| q != id implies spec_locate_in(t, q) == spec_locate_in(s, q) by {
            assert(spec_locate_in(t, q) == spec_locate_in(t.skip(1), q));
        }
    } else {
        assert(t[0] == s[0]);
        assert(t.skip(1) =~= s.skip(1).push((id, x, y)));
        lemma_locate_push(s.skip(1), id, x, y);
        assert(spec_locate_in(t, id) == Some((x, y)));
        assert forall|q: u32| q != id implies spec_locate_in(t, q) == spec_locate_in(s, q) by {
            assert(spec_locate_in(t.skip(1), q) == spec_locate_in(s.skip(1), q));
        }
    }
}

/// Removing the unique entry of `id` clears only that id's lookup.
proof fn lemma_locate_remove(s: Seq<(u32, i32, i32)>, i: int, id: u32)
    requires
        0 <= i < s.len(),
        s[i].0 == id,
        forall|a: int, b: int| 0 <= a < b < s.len() ==> (#[trigger] s[a]).0 != (#[trigger] s[b]).0,
    ensures
        spec_locate_in(s.remove(i), id) is None,
        forall|q: u32| q != id ==> spec_locate_in(s.remove(i), q) == spec_locate_in(s, q),
    decreases i,
{
    let t = s.remove(i);
    if i == 0 {
        assert(t =~= s.skip(1));
        lemma_locate_absent_tail(s, id);
        assert forall|q: u32| q != id implies spec_locate_in(t, q) == spec_locate_in(s, q) by {
            assert(spec_locate_in(s, q) == spec_locate_in(s.skip(1), q));
        }
    } else {
        assert(t[0] == s[0]);
        assert(t.skip(1) =~= s.skip(1).remove(i - 1));
        lemma_locate_remove(s.skip(1), i - 1, id);
        assert(spec_locate_in(t, id) is None);
        assert forall|q: u32| q != id implies spec_locate_in(t, q) == spec_locate_in(s, q) by {
            assert(spec_locate_in(t.skip(1), q) == spec_locate_in(s.skip(1), q));
        }
    }
}

/// With the only entry of `id` at the front, the tail holds none.
proof fn lemma_locate_absent_tail(s: Seq<(u32, i32, i32)>, id: u32)
    requires
        s.len() > 0,
        s[0].0 == id,
        forall|a: int, b: int| 0 <= a < b < s.len() ==> (#[trigger] s[a]).0 != (#[trigger] s[b]).0,
    ensures
        spec_locate_in(s.skip(1), id) is None,
{
    assert forall|j: int| 0 <= j < s.skip(1).len() implies (#[trigger] s.skip(1)[j]).0 != id by {
        assert(s.skip(1)[j] == s[j + 1]);
    }
    lemma_locate_absent(s.skip(1), id);
}

/// `n` forced into the coordinate range.
pub open spec fn spec_clamp_coord(n: int) -> int {
    if n < -MAX_COORD {
        -MAX_COORD as int
    } else if n > MAX_COORD {
        MAX_COORD as int
    } else {
        n
    }
}

/// `n` forced into the stored size range: at least the minimum window
/// size, at most the coordinate limit.
pub open spec fn spec_clamp_size(n: int) -> int {
    if n < MIN_WINDOW_SIZE {
        MIN_WINDOW_SIZE as int
    } else if n > MAX_COORD {
        MAX_COORD as int
    } else {
        n
    }
}

/// The magnitude of `n`.
pub open spec fn spec_abs(n: int) -> int {
    if n >= 0 {
        n
    } else {
        -n
    }
}

/// Where a dragged window of size (w, h) lands: the candidate position is
/// the window position at drag start moved by the pointer delta, and each
/// axis snaps to the left edge (0), below the panel, the right screen edge
/// or the bottom screen edge whenever the candidate lies within
/// `SNAP_THRESHOLD` of it, in that order. The result is kept inside the
/// coordinate range.
pub open spec fn spec_drag_pos(
    start_win: (int, int),
    start_ptr: (int, int),
    ptr: (int, int),
    w: int,
    h: int,
    sw: int,
    sh: int,
) -> (int, int) {
    let cx = start_win.0 + (ptr.0 - start_ptr.0);
    let cy = start_win.1 + (ptr.1 - start_ptr.1);
    let x1 = if spec_abs(cx) < SNAP_THRESHOLD {
        0
    } else {
        cx
    };
    let y1 = if spec_abs(cy - PANEL_HEIGHT) < SNAP_THRESHOLD {
        PANEL_HEIGHT as int
    } else {
        cy
    };
    let x2 = if spec_abs(x1 + w - sw) < SNAP_THRESHOLD {
        sw - w
    } else {
        x1
    };
    let y2 = if spec_abs(y1 + h - sh) < SNAP_THRESHOLD {
        sh - h
    } else {
        y1
    };
    (spec_clamp_coord(x2), spec_clamp_coord(y2))
}

/// The geometry a resize yields before range clamping: the grabbed edge or
/// corner follows the pointer delta, each resized axis is held at or above
/// the minimum window size, and the opposite edge stays pinned.
pub open spec fn spec_resize_raw(start: Rect, edge: ResizeEdge, dx: int, dy: int) -> (
    int,
    int,
    int,
    int,
) {
    let x0 = start.x as int;
    let y0 = start.y as int;
    let w0 = start.w as int;
    let h0 = start.h as int;
    let grow_w = if w0 + dx >= MIN_WINDOW_SIZE {
        w0 + dx
    } else {
        MIN_WINDOW_SIZE as int
    };
    let grow_h = if h0 + dy >= MIN_WINDOW_SIZE {
        h0 + dy
    } else {
        MIN_WINDOW_SIZE as int
    };
    let shrink_w = if w0 - dx >= MIN_WINDOW_SIZE {
        w0 - dx
    } else {
        MIN_WINDOW_SIZE as int
    };
    let shrink_h = if h0 - dy >= MIN_WINDOW_SIZE {
        h0 - dy
    } else {
        MIN_WINDOW_SIZE as int
    };
    match edge {
        ResizeEdge::Right => (x0, y0, grow_w, h0),
        ResizeEdge::Bottom => (x0, y0, w0, grow_h),
        ResizeEdge::Left => (x0 + w0 - shrink_w, y0, shrink_w, h0),
        ResizeEdge::Top => (x0, y0 + h0 - shrink_h, w0, shrink_h),
        ResizeEdge::TopLeft => (x0 + w0 - shrink_w, y0 + h0 - shrink_h, shrink_w, shrink_h),
        ResizeEdge::TopRight => (x0, y0 + h0 - shrink_h, grow_w, shrink_h),
        ResizeEdge::BottomLeft => (x0 + w0 - shrink_w, y0, shrink_w, grow_h),
        ResizeEdge::BottomRight => (x0, y0, grow_w, grow_h),
    }
}

/// The geometry a resize yields, kept inside the stored ranges.
pub open spec fn spec_resize_rect(start: Rect, edge: ResizeEdge, dx: int, dy: int) -> Rect {
    let (x, y, w, h) = spec_resize_raw(start, edge, dx, dy);
    Rect {
        x: spec_clamp_coord(x) as i32,
        y: spec_clamp_coord(y) as i32,
        w: spec_clamp_size(w) as i32,
        h: spec_clamp_size(h) as i32,
    }
}

/// The size a maximized window takes on a screen of (sw, sh): the full
/// width, and the height under the panel, both held at or above the
/// minimum window size.
pub open spec fn spec_maximized_size(sw: int, sh: int) -> (int, int) {
    let w = if sw >= MIN_WINDOW_SIZE {
        sw
    } else {
        MIN_WINDOW_SIZE as int
    };
    let h = if sh - PANEL_HEIGHT >= MIN_WINDOW_SIZE {
        sh - PANEL_HEIGHT
    } else {
        MIN_WINDOW_SIZE as int
    };
    (w, h)
}

/// Maximizing `w` located at `loc`: the current geometry is saved, the
/// window fills the screen under the panel, and it moves to (0, panel).
pub open spec fn spec_maximize_win(w: ManagedWindow, loc: (i32, i32), sw: int, sh: int) -> (
    ManagedWindow,
    (int, int),
) {
    let (mw, mh) = spec_maximized_size(sw, sh);
    (
        ManagedWindow {
            maximized: true,
            pre_max_geometry: Some(Rect { x: loc.0, y: loc.1, w: w.width, h: w.height }),
            width: mw as i32,
            height: mh as i32,
            ..w
        },
        (0, PANEL_HEIGHT as int),
    )
}

/// Restoring `w` from the saved geometry `g`: the saved size and position
/// apply exactly and the saved geometry is cleared.
pub open spec fn spec_restore_win(w: ManagedWindow, g: Rect) -> (ManagedWindow, (int, int)) {
    (
        ManagedWindow { maximized: false, pre_max_geometry: None, width: g.w, height: g.h, ..w },
        (g.x as int, g.y as int),
    )
}

/// Maximize then restore is lossless: a window that is not maximized,
/// maximized on any screen and then restored from the geometry it saved,
/// has its position, size and flags back exactly; only an unrelated saved
/// geometry it might have carried before is gone.
pub proof fn lemma_maximize_restore_round_trip(
    w: ManagedWindow, loc: (i32, i32), sw: int, sh: int,
)
    requires
        !w.maximized,
    ensures
        ({
            let (w1, _l1) = spec_maximize_win(w, loc, sw, sh);
            let (w2, l2) = spec_restore_win(w1, w1.pre_max_geometry->0);
            &&& w1.pre_max_geometry == Some(
                Rect { x: loc.0, y: loc.1, w: w.width, h: w.height },
            )
            &&& w2 == (ManagedWindow { pre_max_geometry: None, ..w })
            &&& l2 == (loc.0 as int, loc.1 as int)
            &&& w.pre_max_geometry is None ==> w2 == w
        }),
{
}

/// The first index of `s` holding the window id `id`, or -1.
pub open spec fn spec_win_position(s: Seq<ManagedWindow>, id: u32) -> int
    decreases s.len(),
{
    if s.len() == 0 {
        -1
    } else if s[0].id == id {
        0
    } else {
        let r = spec_win_position(s.skip(1), id);
        if r < 0 {
            -1
        } else {
            r + 1
        }
    }
}

/// Bridges a left-to-right search to `spec_win_position`.
pub(crate) proof fn lemma_win_position_found(s: Seq<ManagedWindow>, id: u32, i: int)
    requires
        0 <= i < s.len(),
        s[i].id == id,
        forall|j: int| 0 <= j < i ==> s[j].id != id,
    ensures
        spec_win_position(s, id) == i,
    decreases i,
{
    if i > 0 {
        lemma_win_position_found(s.skip(1), id, i - 1);
    }
}

/// A sequence with no matching window has position -1.
pub(crate) proof fn lemma_win_position_none(s: Seq<ManagedWindow>, id: u32)
    requires
        forall|j: int| 0 <= j < s.len() ==> s[j].id != id,
    ensures
        spec_win_position(s, id) == -1,
    decreases s.len(),
{
    if s.len() > 0 {
        lemma_win_position_none(s.skip(1), id);
    }
}

/// An in-progress pointer interaction; dragging and resizing are mutually
/// exclusive by construction.
#[derive(Debug, Clone, Copy)]
pub enum Interaction {
    Idle,
    Dragging { id: u32, start_pointer: (i32, i32), start_window_pos: (i32, i32) },
    Resizing { id: u32, edge: ResizeEdge, start_pointer: (i32, i32), start_geometry: Rect },
}

/// The window id an interaction holds on to, if any.
pub open spec fn spec_interaction_target(it: Interaction) -> Option<u32> {
    match it {
        Interaction::Idle => None,
        Interaction::Dragging { id, .. } => Some(id),
        Interaction::Resizing { id, .. } => Some(id),
    }
}

/// Whether a stored rectangle is in range.
pub open spec fn spec_rect_wf(r: Rect) -> bool {
    &&& spec_coord_ok(r.x as int)
    &&& spec_coord_ok(r.y as int)
    &&& spec_size_ok(r.w as int)
    &&& spec_size_ok(r.h as int)
}

/// Whether an interaction's recorded coordinates are in range.
pub open spec fn spec_interaction_wf(it: Interaction) -> bool {
    match it {
        Interaction::Idle => true,
        Interaction::Dragging { id: _, start_pointer, start_window_pos } => {
            &&& spec_coord_ok(start_pointer.0 as int)
            &&& spec_coord_ok(start_pointer.1 as int)
            &&& spec_coord_ok(start_window_pos.0 as int)
            &&& spec_coord_ok(start_window_pos.1 as int)
        },
        Interaction::Resizing { id: _, edge: _, start_pointer, start_geometry } => {
            &&& spec_coord_ok(start_pointer.0 as int)
            &&& spec_coord_ok(start_pointer.1 as int)
            &&& spec_rect_wf(start_geometry)
        },
    }
}

/// Whether one tracked window is in range.
pub open spec fn spec_win_wf(w: ManagedWindow) -> bool {
    &&& spec_size_ok(w.width as int)
    &&& spec_size_ok(w.height as int)
    &&& w.pre_max_geometry matches Some(g) ==> spec_rect_wf(w.pre_max_geometry->0)
}

/// The topmost window under the point (x, y), scanning the top `k` windows
/// of the z-order from the top down, skipping minimized windows and
/// windows without a registered location, together with what the point
/// hits on it.
pub open spec fn spec_window_at_in(
    ws: Seq<ManagedWindow>, sp: Seq<(u32, i32, i32)>, x: int, y: int, k: int,
) -> Option<(u32, HitResult)>
    decreases k,
{
    if k <= 0 {
        None
    } else {
        let w = ws[k - 1];
        let loc = spec_locate_in(sp, w.id);
        if loc is None || w.minimized {
            spec_window_at_in(ws, sp, x, y, k - 1)
        } else {
            let l = loc->0;
            let hit = spec_hit_test(w.width as int, w.height as int, x, y, l.0 as int, l.1 as int);
            if hit != HitResult::Outside {
                Some((w.id, hit))
            } else {
                spec_window_at_in(ws, sp, x, y, k - 1)
            }
        }
    }
}

/// A location found in an in-range registry is in range.
proof fn lemma_locate_in_range(s: Seq<(u32, i32, i32)>, id: u32)
    requires
        forall|i: int|
            0 <= i < s.len() ==> spec_coord_ok((#[trigger] s[i]).1 as int) && spec_coord_ok(
                s[i].2 as int,
            ),
    ensures
        spec_locate_in(s, id) matches Some(l) ==> spec_coord_ok(l.0 as int) && spec_coord_ok(
            l.1 as int,
        ),
    decreases s.len(),
{
    if s.len() > 0 {
        assert forall|i: int|
            0 <= i < s.skip(1).len() implies spec_coord_ok(
            (#[trigger] s.skip(1)[i]).1 as int,
        ) && spec_coord_ok(s.skip(1)[i].2 as int) by {
            assert(s.skip(1)[i] == s[i + 1]);
        }
        lemma_locate_in_range(s.skip(1), id);
    }
}

/// The window manager: the tracked windows in z-order (the last one on
/// top), their spatial registry, the focused id, and the single in-flight
/// pointer interaction.
pub struct WindowManager {
    pub windows: Vec<ManagedWindow>,
    pub space: Space,
    pub focused: Option<u32>,
    pub interaction: Interaction,
    pub next_window_id: u32,
}

impl WindowManager {
    /// Well-formedness: the registry is sound, window ids are unique and
    /// below the next id to be given out, and every stored coordinate is
    /// in range.
    pub open spec fn wf(&self) -> bool {
        &&& self.space.wf()
        &&& spec_interaction_wf(self.interaction)
        &&& forall|i: int, j: int|
            0 <= i < j < self.windows@.len() ==> (#[trigger] self.windows@[i]).id != (
            #[trigger] self.windows@[j]).id
        &&& forall|i: int|
            0 <= i < self.windows@.len() ==> (#[trigger] self.windows@[i]).id
                < self.next_window_id
        &&& forall|i: int| 0 <= i < self.windows@.len() ==> spec_win_wf(#[trigger] self.windows@[i])
    }

    /// An empty manager; window ids start at 1.
    pub fn new() -> (r: Self)
        ensures
            r.wf(),
            r.windows@ == Seq::<ManagedWindow>::empty(),
            r.space.entries_seq() == Seq::<(u32, i32, i32)>::empty(),
            r.focused is None,
            r.interaction is Idle,
            r.next_window_id == 1u32,
    {
        WindowManager {
            windows: Vec::new(),
            space: Space::new(),
            focused: None,
            interaction: Interaction::Idle,
            next_window_id: 1,
        }
    }

    /// The topmost non-minimized window under (x, y) and what the point
    /// hits on it, or `None` when the point hits no window.
    pub fn window_at(&self, x: i32, y: i32) -> (r: Option<(u32, HitResult)>)
        requires
            self.wf(),
        ensures
            r == spec_window_at_in(
                self.windows@,
                self.space.entries_seq(),
                x as int,
                y as int,
                self.windows@.len() as int,
            ),
    {
        let mut i: usize = self.windows.len();
        while i > 0
            invariant
                self.wf(),
                i <= self.windows@.len(),
                spec_window_at_in(
                    self.windows@,
                    self.space.entries_seq(),
                    x as int,
                    y as int,
                    self.windows@.len() as int,
                ) == spec_window_at_in(
                    self.windows@, self.space.entries_seq(), x as int, y as int, i as int,
                ),
            decreases i,
        {
            i = i - 1;
            let w = &self.windows[i];
            if !w.minimized {
                if let Some(loc) = self.space.locate(w.id) {
                    proof {
                        lemma_locate_in_range(self.space.entries_seq(), w.id);
                    }
                    let hit = w.hit_test(x, y, loc);
                    if !matches!(hit, HitResult::Outside) {
                        return Some((w.id, hit));
                    }
                }
            }
        }
        None
    }

    /// Focus the window with the given id: it becomes the focused window
    /// and rises to the top of the z-order; its geometry does not move.
    /// With no such window nothing changes.
    pub fn focus_window(&mut self, id: u32)
        requires
            old(self).wf(),
        ensures
            final(self).wf(),
            ({
                let pos = spec_win_position(old(self).windows@, id);
                if pos >= 0 {
                    &&& final(self).windows@ == old(self).windows@.remove(pos).push(
                        old(self).windows@[pos],
                    )
                    &&& final(self).focused == Some(id)
                } else {
                    &&& final(self).windows@ == old(self).windows@
                    &&& final(self).focused == old(self).focused
                }
            }),
            final(self).space == old(self).space,
            final(self).interaction == old(self).interaction,
            final(self).next_window_id == old(self).next_window_id,
    {
        let n = self.windows.len();
        let mut i: usize = 0;
        while i < n
            invariant
                old(self).wf(),
                *self == *old(self),
                n == self.windows@.len(),
                i <= n,
                forall|j: int| 0 <= j < i ==> (#[trigger] self.windows@[j]).id != id,
            decreases n - i,
        {
            if self.windows[i].id == id {
                proof {
                    lemma_win_position_found(self.windows@, id, i as int);
                }
                let w = self.windows.remove(i);
                self.windows.push(w);
                self.focused = Some(id);
                proof {
                    let s0 = old(self).windows@;
                    let s1 = self.windows@;
                    assert(s1 == s0.remove(i as int).push(s0[i as int]));
                    assert forall|a: int, b: int|
                        0 <= a < b < s1.len() implies (#[trigger] s1[a]).id != (
                    #[trigger] s1[b]).id by {
                        lemma_remove_push_index(s0, i as int, a);
                        lemma_remove_push_index(s0, i as int, b);
                    }
                    assert forall|a: int|
                        0 <= a < s1.len() implies (#[trigger] s1[a]).id < self.next_window_id
                            && spec_win_wf(s1[a]) by {
                        lemma_remove_push_index(s0, i as int, a);
                    }
                }
                return;
            }
            i = i + 1;
        }
        proof {
            lemma_win_position_none(self.windows@, id);
        }
    }
}

/// The decimal digits of `n`.
pub open spec fn spec_decimal_chars(n: int) -> Seq<char>
    decreases n,
{
    if n < 10 {
        seq![(((48 + if n >= 0 { n } else { 0 }) as u8) as char)]
    } else {
        spec_decimal_chars(n / 10) + seq![(((48 + n % 10) as u8) as char)]
    }
}

/// Append the decimal digits of `n` to `s`.
fn push_decimal(s: &mut String, n: u32)
    ensures
        final(s)@ == old(s)@ + spec_decimal_chars(n as int),
    decreases n,
{
    if n < 10 {
        crate::sys::string_push(s, (48u8 + n as u8) as char);
        proof {
            assert(final(s)@ =~= old(s)@ + spec_decimal_chars(n as int));
        }
    } else {
        push_decimal(s, n / 10);
        crate::sys::string_push(s, (48u8 + (n % 10) as u8) as char);
        proof {
            assert(final(s)@ =~= old(s)@ + spec_decimal_chars(n as int));
        }
    }
}

/// `n` forced into the stored size range.
fn clamp_size(n: i32) -> (r: i32)
    ensures
        r as int == spec_clamp_size(n as int),
{
    if n < MIN_WINDOW_SIZE {
        MIN_WINDOW_SIZE
    } else if n > MAX_COORD {
        MAX_COORD
    } else {
        n
    }
}

/// A wide intermediate coordinate forced into the stored range.
fn clamp_coord64(n: i64) -> (r: i32)
    ensures
        r as int == spec_clamp_coord(n as int),
{
    if n < -(MAX_COORD as i64) {
        -MAX_COORD
    } else if n > MAX_COORD as i64 {
        MAX_COORD
    } else {
        n as i32
    }
}

/// The cascade position given to the `count + 1`-th window: each new
/// window opens thirty units further down and right, its client rectangle
/// leaving room for the title bar.
pub open spec fn spec_cascade_pos(count: int) -> (int, int) {
    let off = 30 * count;
    (spec_clamp_coord(50 + off), spec_clamp_coord(50 + off + TITLE_BAR_HEIGHT))
}

impl WindowManager {
    /// The z-order index of the window with the given id, if it is
    /// tracked.
    pub(crate) fn find_window(&self, id: u32) -> (r: Option<usize>)
        ensures
            ({
                let pos = spec_win_position(self.windows@, id);
                if pos >= 0 {
                    r == Some(pos as usize)
                } else {
                    r is None
                }
            }),
            r matches Some(i) ==> i < self.windows@.len() && self.windows@[i as int].id == id
                && i as int == spec_win_position(self.windows@, id),
            r is None ==> spec_win_position(self.windows@, id) == -1,
    {
        let n = self.windows.len();
        let mut i: usize = 0;
        while i < n
            invariant
                n == self.windows@.len(),
                i <= n,
                forall|j: int| 0 <= j < i ==> (#[trigger] self.windows@[j]).id != id,
            decreases n - i,
        {
            if self.windows[i].id == id {
                proof {
                    lemma_win_position_found(self.windows@, id, i as int);
                }
                return Some(i);
            }
            i = i + 1;
        }
        proof {
            lemma_win_position_none(self.windows@, id);
        }
        None
    }

    /// Track a fresh toplevel: it takes the next id, a numbered title, a
    /// size clamped into the stored range, the next cascade position, and
    /// the focus.
    pub fn add_window(&mut self, surface: u64, width: i32, height: i32) -> (id: u32)
        requires
            old(self).wf(),
            old(self).next_window_id < u32::MAX,
            old(self).windows@.len() + 1 < u32::MAX,
        ensures
            final(self).wf(),
            id == old(self).next_window_id,
            final(self).next_window_id == id + 1,
            final(self).windows@.drop_last() == old(self).windows@,
            final(self).windows@.len() == old(self).windows@.len() + 1,
            ({
                let w = final(self).windows@.last();
                &&& w.id == id
                &&& w.surface == surface
                &&& w.title@ == "Window "@ + spec_decimal_chars(old(self).windows@.len() as int + 1)
                &&& !w.minimized
                &&& !w.maximized
                &&& w.pre_max_geometry is None
                &&& w.width as int == spec_clamp_size(width as int)
                &&& w.height as int == spec_clamp_size(height as int)
            }),
            final(self).focused == Some(id),
            ({
                let p = spec_cascade_pos(old(self).windows@.len() as int);
                final(self).space.spec_locate(id) == Some(((p.0 as i32), (p.1 as i32)))
            }),
            forall|q: u32|
                q != id ==> final(self).space.spec_locate(q) == old(self).space.spec_locate(q),
            final(self).interaction == old(self).interaction,
    {
        let id = self.next_window_id;
        self.next_window_id = self.next_window_id + 1;
        let count = self.windows.len();
        let mut title = String::from_str("Window ");
        push_decimal(&mut title, (count as u32) + 1);
        let w = ManagedWindow {
            id,
            surface,
            title,
            minimized: false,
            maximized: false,
            pre_max_geometry: None,
            width: clamp_size(width),
            height: clamp_size(height),
        };
        let off: i64 = 30i64 * (count as i64);
        let x = clamp_coord64(50i64 + off);
        let y = clamp_coord64(50i64 + off + TITLE_BAR_HEIGHT as i64);
        self.space.place(id, x, y);
        self.windows.push(w);
        self.focused = Some(id);
        proof {
            let s0 = old(self).windows@;
            let s1 = self.windows@;
            assert(s1.drop_last() =~= s0);
            assert forall|a: int, b: int|
                0 <= a < b < s1.len() implies (#[trigger] s1[a]).id != (#[trigger] s1[b]).id by {
                if b + 1 < s1.len() {
                    assert(s1[a] == s0[a] && s1[b] == s0[b]);
                } else {
                    assert(s1[a] == s0[a] && s1[b].id == id);
                }
            }
        }
        id
    }

    /// Stop tracking the window with the given id: it leaves the list and
    /// the registry; focus held on it falls to the new top window, and an
    /// interaction holding it ends. With no such window nothing changes.
    pub fn remove_window(&mut self, id: u32)
        requires
            old(self).wf(),
        ensures
            final(self).wf(),
            final(self).next_window_id == old(self).next_window_id,
            ({
                let pos = spec_win_position(old(self).windows@, id);
                if pos >= 0 {
                    &&& final(self).windows@ == old(self).windows@.remove(pos)
                    &&& final(self).space.spec_locate(id) is None
                    &&& forall|q: u32|
                        q != id ==> final(self).space.spec_locate(q) == old(
                            self,
                        ).space.spec_locate(q)
                    &&& final(self).focused == (if old(self).focused == Some(id) {
                        if final(self).windows@.len() > 0 {
                            Some(final(self).windows@.last().id)
                        } else {
                            None
                        }
                    } else {
                        old(self).focused
                    })
                    &&& final(self).interaction == (if spec_interaction_target(
                        old(self).interaction,
                    ) == Some(id) {
                        Interaction::Idle
                    } else {
                        old(self).interaction
                    })
                } else {
                    *final(self) == *old(self)
                }
            }),
    {
        let found = self.find_window(id);
        if let Some(i) = found {
            self.windows.remove(i);
            self.space.remove(id);
            proof {
                let s0 = old(self).windows@;
                let s1 = self.windows@;
                assert forall|a: int, b: int|
                    0 <= a < b < s1.len() implies (#[trigger] s1[a]).id != (
                #[trigger] s1[b]).id by {
                    let sa: int = if a < i { a } else { a + 1 };
                    let sb: int = if b < i { b } else { b + 1 };
                    assert(s1[a] == s0[sa] && s1[b] == s0[sb]);
                }
                assert forall|a: int|
                    0 <= a < s1.len() implies (#[trigger] s1[a]).id < self.next_window_id
                        && spec_win_wf(s1[a]) by {
                    let sa: int = if a < i { a } else { a + 1 };
                    assert(s1[a] == s0[sa]);
                }
            }
            let is_focused = match self.focused {
                Some(f) => f == id,
                None => false,
            };
            if is_focused {
                let n = self.windows.len();
                if n > 0 {
                    self.focused = Some(self.windows[n - 1].id);
                } else {
                    self.focused = None;
                }
            }
            let clear = match self.interaction {
                Interaction::Idle => false,
                Interaction::Dragging { id: t, .. } => t == id,
                Interaction::Resizing { id: t, .. } => t == id,
            };
            if clear {
                self.interaction = Interaction::Idle;
            }
        }
    }

    /// Flip whether the window with the given id is minimized; with no
    /// such window nothing changes.
    pub fn toggle_minimize(&mut self, id: u32)
        requires
            old(self).wf(),
        ensures
            final(self).wf(),
            ({
                let pos = spec_win_position(old(self).windows@, id);
                if pos >= 0 {
                    final(self).windows@ == old(self).windows@.update(
                        pos,
                        ManagedWindow {
                            minimized: !old(self).windows@[pos].minimized,
                            ..old(self).windows@[pos]
                        },
                    )
                } else {
                    final(self).windows@ == old(self).windows@
                }
            }),
            final(self).space == old(self).space,
            final(self).focused == old(self).focused,
            final(self).interaction == old(self).interaction,
            final(self).next_window_id == old(self).next_window_id,
    {
        let found = self.find_window(id);
        if let Some(i) = found {
            let mut w = self.windows.remove(i);
            w.minimized = !w.minimized;
            self.windows.insert(i, w);
            proof {
                let s0 = old(self).windows@;
                let s1 = self.windows@;
                assert(s1 =~= s0.update(i as int, s1[i as int]));
                assert forall|a: int, b: int|
                    0 <= a < b < s1.len() implies (#[trigger] s1[a]).id != (
                #[trigger] s1[b]).id by {
                    assert(s1[a].id == s0[a].id && s1[b].id == s0[b].id);
                }
                assert forall|a: int|
                    0 <= a < s1.len() implies (#[trigger] s1[a]).id < self.next_window_id
                        && spec_win_wf(s1[a]) by {
                    if a != i {
                        assert(s1[a] == s0[a]);
                    }
                }
            }
        }
    }

    /// Whether a close request should go to the client owning the window
    /// with the given id: true exactly when the window is tracked. Closing
    /// never removes the window itself; removal follows the client's
    /// destroy notification.
    pub fn close_window(&self, id: u32) -> (r: bool)
        ensures
            r == (spec_win_position(self.windows@, id) >= 0),
    {
        self.find_window(id).is_some()
    }

    /// Release whatever pointer interaction is in flight.
    pub fn end_interaction(&mut self)
        ensures
            final(self).interaction is Idle,
            final(self).windows == old(self).windows,
            final(self).space == old(self).space,
            final(self).focused == old(self).focused,
            final(self).next_window_id == old(self).next_window_id,
    {
        self.interaction = Interaction::Idle;
    }

    /// Begin dragging the window with the given id from pointer position
    /// (px, py): the pointer and the window's current position are
    /// recorded. Without such a window, or without a registered location,
    /// nothing changes.
    pub fn start_drag(&mut self, id: u32, px: i32, py: i32)
        requires
            old(self).wf(),
            spec_coord_ok(px as int),
            spec_coord_ok(py as int),
        ensures
            final(self).wf(),
            final(self).windows == old(self).windows,
            final(self).space == old(self).space,
            final(self).focused == old(self).focused,
            final(self).next_window_id == old(self).next_window_id,
            ({
                let pos = spec_win_position(old(self).windows@, id);
                let loc = old(self).space.spec_locate(id);
                if pos >= 0 && loc is Some {
                    final(self).interaction == (Interaction::Dragging {
                        id,
                        start_pointer: (px, py),
                        start_window_pos: loc->0,
                    })
                } else {
                    final(self).interaction == old(self).interaction
                }
            }),
    {
        let found = self.find_window(id);
        if found.is_some() {
            if let Some(loc) = self.space.locate(id) {
                proof {
                    lemma_locate_in_range(self.space.entries_seq(), id);
                }
                self.interaction = Interaction::Dragging {
                    id,
                    start_pointer: (px, py),
                    start_window_pos: loc,
                };
            }
        }
    }

    /// Move the dragged window under the pointer at (px, py), snapping to
    /// the screen edges of a (screen_w, screen_h) screen; outside a drag,
    /// or with the dragged window gone, nothing changes.
    pub fn update_drag(&mut self, px: i32, py: i32, screen_w: i32, screen_h: i32)
        requires
            old(self).wf(),
            spec_coord_ok(px as int),
            spec_coord_ok(py as int),
            0 <= screen_w <= MAX_COORD,
            0 <= screen_h <= MAX_COORD,
        ensures
            final(self).wf(),
            final(self).windows == old(self).windows,
            final(self).focused == old(self).focused,
            final(self).interaction == old(self).interaction,
            final(self).next_window_id == old(self).next_window_id,
            ({
                match old(self).interaction {
                    Interaction::Dragging { id, start_pointer, start_window_pos } => {
                        let pos = spec_win_position(old(self).windows@, id);
                        if pos >= 0 {
                            let w = old(self).windows@[pos];
                            let p = spec_drag_pos(
                                (start_window_pos.0 as int, start_window_pos.1 as int),
                                (start_pointer.0 as int, start_pointer.1 as int),
                                (px as int, py as int),
                                w.width as int,
                                w.height as int,
                                screen_w as int,
                                screen_h as int,
                            );
                            &&& final(self).space.spec_locate(id) == Some(
                                ((p.0 as i32), (p.1 as i32)),
                            )
                            &&& forall|q: u32|
                                q != id ==> final(self).space.spec_locate(q) == old(
                                    self,
                                ).space.spec_locate(q)
                        } else {
                            final(self).space == old(self).space
                        }
                    },
                    _ => final(self).space == old(self).space,
                }
            }),
    {
        let it = self.interaction;
        if let Interaction::Dragging { id, start_pointer, start_window_pos } = it {
            let found = self.find_window(id);
            if let Some(i) = found {
                let w = self.windows[i].width;
                let h = self.windows[i].height;
                let cx: i64 = start_window_pos.0 as i64 + (px as i64 - start_pointer.0 as i64);
                let cy: i64 = start_window_pos.1 as i64 + (py as i64 - start_pointer.1 as i64);
                let ax: i64 = if cx >= 0 {
                    cx
                } else {
                    -cx
                };
                let x1: i64 = if ax < SNAP_THRESHOLD as i64 {
                    0
                } else {
                    cx
                };
                let dy_panel: i64 = cy - PANEL_HEIGHT as i64;
                let ay: i64 = if dy_panel >= 0 {
                    dy_panel
                } else {
                    -dy_panel
                };
                let y1: i64 = if ay < SNAP_THRESHOLD as i64 {
                    PANEL_HEIGHT as i64
                } else {
                    cy
                };
                let rx: i64 = x1 + w as i64 - screen_w as i64;
                let arx: i64 = if rx >= 0 {
                    rx
                } else {
                    -rx
                };
                let x2: i64 = if arx < SNAP_THRESHOLD as i64 {
                    screen_w as i64 - w as i64
                } else {
                    x1
                };
                let by: i64 = y1 + h as i64 - screen_h as i64;
                let aby: i64 = if by >= 0 {
                    by
                } else {
                    -by
                };
                let y2: i64 = if aby < SNAP_THRESHOLD as i64 {
                    screen_h as i64 - h as i64
                } else {
                    y1
                };
                let nx = clamp_coord64(x2);
                let ny = clamp_coord64(y2);
                self.space.place(id, nx, ny);
            }
        }
    }

    /// Begin resizing the window with the given id by `edge` from pointer
    /// position (px, py): the pointer and the window's current geometry
    /// are recorded. Without such a window, or without a registered
    /// location, nothing changes.
    pub fn start_resize(&mut self, id: u32, edge: ResizeEdge, px: i32, py: i32)
        requires
            old(self).wf(),
            spec_coord_ok(px as int),
            spec_coord_ok(py as int),
        ensures
            final(self).wf(),
            final(self).windows == old(self).windows,
            final(self).space == old(self).space,
            final(self).focused == old(self).focused,
            final(self).next_window_id == old(self).next_window_id,
            ({
                let pos = spec_win_position(old(self).windows@, id);
                let loc = old(self).space.spec_locate(id);
                if pos >= 0 && loc is Some {
                    let l = loc->0;
                    let w = old(self).windows@[pos];
                    final(self).interaction == (Interaction::Resizing {
                        id,
                        edge,
                        start_pointer: (px, py),
                        start_geometry: Rect { x: l.0, y: l.1, w: w.width, h: w.height },
                    })
                } else {
                    final(self).interaction == old(self).interaction
                }
            }),
    {
        let found = self.find_window(id);
        if let Some(i) = found {
            if let Some(loc) = self.space.locate(id) {
                proof {
                    lemma_locate_in_range(self.space.entries_seq(), id);
                }
                self.interaction = Interaction::Resizing {
                    id,
                    edge,
                    start_pointer: (px, py),
                    start_geometry: Rect {
                        x: loc.0,
                        y: loc.1,
                        w: self.windows[i].width,
                        h: self.windows[i].height,
                    },
                };
            }
        }
    }

    /// Resize the grabbed window under the pointer at (px, py): the stored
    /// size and position move per `spec_resize_rect`, and the new size is
    /// returned as (id, width, height) for the protocol layer to negotiate
    /// with the client. Outside a resize, or with the window gone, nothing
    /// changes and nothing is returned.
    pub fn update_resize(&mut self, px: i32, py: i32) -> (r: Option<(u32, i32, i32)>)
        requires
            old(self).wf(),
            spec_coord_ok(px as int),
            spec_coord_ok(py as int),
        ensures
            final(self).wf(),
            final(self).focused == old(self).focused,
            final(self).interaction == old(self).interaction,
            final(self).next_window_id == old(self).next_window_id,
            ({
                match old(self).interaction {
                    Interaction::Resizing { id, edge, start_pointer, start_geometry } => {
                        let pos = spec_win_position(old(self).windows@, id);
                        if pos >= 0 {
                            let g = spec_resize_rect(
                                start_geometry,
                                edge,
                                px - start_pointer.0,
                                py - start_pointer.1,
                            );
                            &&& final(self).windows@ == old(self).windows@.update(
                                pos,
                                ManagedWindow {
                                    width: g.w,
                                    height: g.h,
                                    ..old(self).windows@[pos]
                                },
                            )
                            &&& final(self).space.spec_locate(id) == Some((g.x, g.y))
                            &&& forall|q: u32|
                                q != id ==> final(self).space.spec_locate(q) == old(
                                    self,
                                ).space.spec_locate(q)
                            &&& r == Some((id, g.w, g.h))
                        } else {
                            &&& final(self).windows@ == old(self).windows@
                            &&& final(self).space == old(self).space
                            &&& r is None
                        }
                    },
                    _ => {
                        &&& final(self).windows@ == old(self).windows@
                        &&& final(self).space == old(self).space
                        &&& r is None
                    },
                }
            }),
    {
        let it = self.interaction;
        if let Interaction::Resizing { id, edge, start_pointer, start_geometry } = it {
            let found = self.find_window(id);
            if let Some(i) = found {
                let dx: i64 = px as i64 - start_pointer.0 as i64;
                let dy: i64 = py as i64 - start_pointer.1 as i64;
                let x0: i64 = start_geometry.x as i64;
                let y0: i64 = start_geometry.y as i64;
                let w0: i64 = start_geometry.w as i64;
                let h0: i64 = start_geometry.h as i64;
                let min: i64 = MIN_WINDOW_SIZE as i64;
                let grow_w: i64 = if w0 + dx >= min {
                    w0 + dx
                } else {
                    min
                };
                let grow_h: i64 = if h0 + dy >= min {
                    h0 + dy
                } else {
                    min
                };
                let shrink_w: i64 = if w0 - dx >= min {
                    w0 - dx
                } else {
                    min
                };
                let shrink_h: i64 = if h0 - dy >= min {
                    h0 - dy
                } else {
                    min
                };
                let (nx, ny, nw, nh): (i64, i64, i64, i64) = match edge {
                    ResizeEdge::Right => (x0, y0, grow_w, h0),
                    ResizeEdge::Bottom => (x0, y0, w0, grow_h),
                    ResizeEdge::Left => (x0 + w0 - shrink_w, y0, shrink_w, h0),
                    ResizeEdge::Top => (x0, y0 + h0 - shrink_h, w0, shrink_h),
                    ResizeEdge::TopLeft => (
                        x0 + w0 - shrink_w,
                        y0 + h0 - shrink_h,
                        shrink_w,
                        shrink_h,
                    ),
                    ResizeEdge::TopRight => (x0, y0 + h0 - shrink_h, grow_w, shrink_h),
                    ResizeEdge::BottomLeft => (x0 + w0 - shrink_w, y0, shrink_w, grow_h),
                    ResizeEdge::BottomRight => (x0, y0, grow_w, grow_h),
                };
                let fx = clamp_coord64(nx);
                let fy = clamp_coord64(ny);
                let fw = if nw > MAX_COORD as i64 {
                    MAX_COORD
                } else {
                    nw as i32
                };
                let fh = if nh > MAX_COORD as i64 {
                    MAX_COORD
                } else {
                    nh as i32
                };
                let mut w = self.windows.remove(i);
                w.width = fw;
                w.height = fh;
                self.windows.insert(i, w);
                self.space.place(id, fx, fy);
                proof {
                    let s0 = old(self).windows@;
                    let s1 = self.windows@;
                    assert(s1 =~= s0.update(i as int, s1[i as int]));
                    assert forall|a: int, b: int|
                        0 <= a < b < s1.len() implies (#[trigger] s1[a]).id != (
                    #[trigger] s1[b]).id by {
                        assert(s1[a].id == s0[a].id && s1[b].id == s0[b].id);
                    }
                    assert forall|a: int|
                        0 <= a < s1.len() implies (#[trigger] s1[a]).id < self.next_window_id
                            && spec_win_wf(s1[a]) by {
                        if a != i {
                            assert(s1[a] == s0[a]);
                        }
                    }
                }
                return Some((id, fw, fh));
            }
        }
        None
    }

    /// Maximize or restore the window with the given id on a
    /// (screen_w, screen_h) screen. Maximizing saves the current geometry
    /// and fills the screen under the panel; restoring applies the saved
    /// geometry exactly and clears it. The returned (id, width, height),
    /// if any, is the size for the protocol layer to negotiate with the
    /// client.
    pub fn toggle_maximize(&mut self, id: u32, screen_w: i32, screen_h: i32) -> (r: Option<
        (u32, i32, i32),
    >)
        requires
            old(self).wf(),
            0 <= screen_w <= MAX_COORD,
            0 <= screen_h <= MAX_COORD,
        ensures
            final(self).wf(),
            final(self).focused == old(self).focused,
            final(self).interaction == old(self).interaction,
            final(self).next_window_id == old(self).next_window_id,
            ({
                let pos = spec_win_position(old(self).windows@, id);
                if pos >= 0 {
                    let w = old(self).windows@[pos];
                    if w.maximized {
                        if w.pre_max_geometry is Some {
                            let g = w.pre_max_geometry->0;
                            let (w2, l2) = spec_restore_win(w, g);
                            &&& final(self).windows@ == old(self).windows@.update(pos, w2)
                            &&& final(self).space.spec_locate(id) == Some((g.x, g.y))
                            &&& forall|q: u32|
                                q != id ==> final(self).space.spec_locate(q) == old(
                                    self,
                                ).space.spec_locate(q)
                            &&& r == Some((id, g.w, g.h))
                        } else {
                            &&& final(self).windows@ == old(self).windows@.update(
                                pos,
                                ManagedWindow { maximized: false, ..w },
                            )
                            &&& final(self).space == old(self).space
                            &&& r is None
                        }
                    } else {
                        let loc = old(self).space.spec_locate(id);
                        if loc is Some {
                            let (w1, l1) = spec_maximize_win(w, loc->0, screen_w as int, screen_h as int);
                            &&& final(self).windows@ == old(self).windows@.update(pos, w1)
                            &&& final(self).space.spec_locate(id) == Some(
                                ((l1.0 as i32), (l1.1 as i32)),
                            )
                            &&& forall|q: u32|
                                q != id ==> final(self).space.spec_locate(q) == old(
                                    self,
                                ).space.spec_locate(q)
                            &&& r == Some((id, w1.width, w1.height))
                        } else {
                            let (mw, mh) = spec_maximized_size(screen_w as int, screen_h as int);
                            &&& final(self).windows@ == old(self).windows@.update(
                                pos,
                                ManagedWindow {
                                    maximized: true,
                                    width: mw as i32,
                                    height: mh as i32,
                                    ..w
                                },
                            )
                            &&& final(self).space.spec_locate(id) == Some((0i32, PANEL_HEIGHT))
                            &&& forall|q: u32|
                                q != id ==> final(self).space.spec_locate(q) == old(
                                    self,
                                ).space.spec_locate(q)
                            &&& r == Some((id, mw as i32, mh as i32))
                        }
                    }
                } else {
                    *final(self) == *old(self) && r is None
                }
            }),
    {
        let found = self.find_window(id);
        if let Some(i) = found {
            let mut w = self.windows.remove(i);
            let result: Option<(u32, i32, i32)>;
            if w.maximized {
                w.maximized = false;
                let saved = w.pre_max_geometry;
                w.pre_max_geometry = None;
                if let Some(g) = saved {
                    w.width = g.w;
                    w.height = g.h;
                    self.space.place(id, g.x, g.y);
                    result = Some((id, g.w, g.h));
                } else {
                    result = None;
                }
            } else {
                let loc = self.space.locate(id);
                proof {
                    lemma_locate_in_range(self.space.entries_seq(), id);
                }
                if let Some(l) = loc {
                    w.pre_max_geometry = Some(Rect { x: l.0, y: l.1, w: w.width, h: w.height });
                }
                w.maximized = true;
                w.width = if screen_w >= MIN_WINDOW_SIZE {
                    screen_w
                } else {
                    MIN_WINDOW_SIZE
                };
                w.height = if screen_h - PANEL_HEIGHT >= MIN_WINDOW_SIZE {
                    screen_h - PANEL_HEIGHT
                } else {
                    MIN_WINDOW_SIZE
                };
                self.space.place(id, 0, PANEL_HEIGHT);
                result = Some((id, w.width, w.height));
            }
            let ghost w1 = w;
            self.windows.insert(i, w);
            proof {
                let s0 = old(self).windows@;
                let s1 = self.windows@;
                assert(s1 =~= s0.update(i as int, w1));
                assert forall|a: int, b: int|
                    0 <= a < b < s1.len() implies (#[trigger] s1[a]).id != (
                #[trigger] s1[b]).id by {
                    assert(s1[a].id == s0[a].id && s1[b].id == s0[b].id);
                }
                assert forall|a: int|
                    0 <= a < s1.len() implies (#[trigger] s1[a]).id < self.next_window_id
                        && spec_win_wf(s1[a]) by {
                    if a != i {
                        assert(s1[a] == s0[a]);
                    }
                }
            }
            return result;
        }
        None
    }
}

/// Each element of `s.remove(i).push(s[i])` is an element of `s`, at an
/// index that differs between distinct positions.
proof fn lemma_remove_push_index(s: Seq<ManagedWindow>, i: int, a: int)
    requires
        0 <= i < s.len(),
        0 <= a < s.len(),
    ensures
        s.remove(i).push(s[i])[a] == s[
            if a < i {
                a
            } else if a + 1 < s.len() {
                a + 1
            } else {
                i
            }
        ],
{
    let t = s.remove(i).push(s[i]);
    if a < i {
        assert(t[a] == s[a]);
    } else if a + 1 < s.len() {
        assert(t[a] == s[a + 1]);
    } else {
        assert(t[a] == s[i]);
    }
}

} // verus!
