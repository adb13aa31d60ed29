//! The glyph atlas: a 2D texture-region allocator.
//!
//! Glyphs are queued by key and packed shelf-wise on flush: rows are stacked
//! top to bottom, and within the current row rectangles sit side by side.
//! The atlas never evicts; a glyph that does not fit is skipped, and the
//! renderable output simply omits it. The flush reports exactly the newly
//! placed rectangles so their pixel blocks can be uploaded.

use vstd::prelude::*;

verus! {

/// Largest atlas dimension and glyph extent, in pixels.
pub const ATLAS_LIMIT: i64 = 0x10_0000;

/// Identifies a rasterized glyph: which glyph, at which pixel size.
#[derive(Clone, Copy, PartialEq, Eq, Structural, Debug)]
pub struct GlyphKey {
    pub glyph_id: u32,
    pub font_size_px: i64,
}

/// A rectangle in atlas pixel coordinates.
#[derive(Clone, Copy, PartialEq, Eq, Structural, Debug)]
pub struct AtlasRect {
    pub x: i64,
    pub y: i64,
    pub w: i64,
    pub h: i64,
}

/// A glyph waiting to be packed, with its pixel extent.
#[derive(Clone, Copy, PartialEq, Eq, Structural, Debug)]
pub struct QueuedGlyph {
    pub key: GlyphKey,
    pub w: i64,
    pub h: i64,
}

/// The shelf cursor: x and y of the free spot in the current row, and the
/// height of that row so far.
pub type ShelfCursor = (int, int, int);

/// Two atlas rectangles occupy no common pixel: they are separated along
/// at least one axis.
pub open spec fn spec_rects_disjoint(a: AtlasRect, b: AtlasRect) -> bool {
    ||| a.x + a.w <= b.x
    ||| b.x + b.w <= a.x
    ||| a.y + a.h <= b.y
    ||| b.y + b.h <= a.y
}

/// First rectangle recorded for `key`, if any.
pub open spec fn spec_find(entries: Seq<(GlyphKey, AtlasRect)>, key: GlyphKey) -> Option<AtlasRect>
    decreases entries.len(),
{
    if entries.len() == 0 {
        None
    } else if entries[0].0 == key {
        Some(entries[0].1)
    } else {
        spec_find(entries.drop_first(), key)
    }
}

/// Where the shelf cursor would place a `w` by `h` block inside a `width` by
/// `height` atlas: in the current row if it fits there, else at the start of
/// a fresh row below, else nowhere.
pub open spec fn spec_try_place(
    cursor: ShelfCursor,
    width: int,
    height: int,
    w: int,
    h: int,
) -> Option<(ShelfCursor, AtlasRect)> {
    let (cur_x, cur_y, row_h) = cursor;
    if cur_x + w <= width && cur_y + h <= height {
        let rect = AtlasRect { x: cur_x as i64, y: cur_y as i64, w: w as i64, h: h as i64 };
        let new_row_h = if h > row_h {
            h
        } else {
            row_h
        };
        Some(((cur_x + w, cur_y, new_row_h), rect))
    } else if w <= width && cur_y + row_h + h <= height {
        let ny = cur_y + row_h;
        let rect = AtlasRect { x: 0, y: ny as i64, w: w as i64, h: h as i64 };
        Some(((w, ny, h), rect))
    } else {
        None
    }
}

/// The flush policy: queued requests are handled in order; one whose key is
/// already resident, or whose extent is degenerate or does not fit, is
/// dropped; the rest are placed by the shelf cursor and appended to the
/// resident entries. Returns the final entries, the final cursor, and the
/// newly placed entries in order.
pub open spec fn spec_flush(
    entries: Seq<(GlyphKey, AtlasRect)>,
    cursor: ShelfCursor,
    width: int,
    height: int,
    q: Seq<QueuedGlyph>,
) -> (Seq<(GlyphKey, AtlasRect)>, ShelfCursor, Seq<(GlyphKey, AtlasRect)>)
    decreases q.len(),
{
    if q.len() == 0 {
        (entries, cursor, Seq::empty())
    } else {
        let item = q[0];
        if spec_find(entries, item.key) is Some || item.w <= 0 || item.h <= 0 {
            spec_flush(entries, cursor, width, height, q.drop_first())
        } else {
            match spec_try_place(cursor, width, height, item.w as int, item.h as int) {
                Some((cursor2, rect)) => {
                    let (done, cursor3, rest) = spec_flush(
                        entries.push((item.key, rect)),
                        cursor2,
                        width,
                        height,
                        q.drop_first(),
                    );
                    (done, cursor3, seq![(item.key, rect)] + rest)
                },
                None => spec_flush(entries, cursor, width, height, q.drop_first()),
            }
        }
    }
}

/// The atlas allocator: resident entries plus the queue of requested glyphs
/// and the shelf cursor.
pub struct GlyphCache {
    width: i64,
    height: i64,
    entries: Vec<(GlyphKey, AtlasRect)>,
    queued: Vec<QueuedGlyph>,
    cur_x: i64,
    cur_y: i64,
    row_h: i64,
}

impl GlyphCache {
    pub closed spec fn spec_width(self) -> int {
        self.width as int
    }

    pub closed spec fn spec_height(self) -> int {
        self.height as int
    }

    /// The resident entries, in placement order.
    pub closed spec fn spec_entries(self) -> Seq<(GlyphKey, AtlasRect)> {
        self.entries@
    }

    /// The queue of requested glyphs, in request order.
    pub closed spec fn spec_queued(self) -> Seq<QueuedGlyph> {
        self.queued@
    }

    /// The shelf cursor.
    pub closed spec fn spec_cursor(self) -> ShelfCursor {
        (self.cur_x as int, self.cur_y as int, self.row_h as int)
    }

    /// The rectangle resident for `key`, if any.
    pub open spec fn spec_rect_for(self, key: GlyphKey) -> Option<AtlasRect> {
        spec_find(self.spec_entries(), key)
    }

    /// Well-formedness: bounded dimensions and queue extents, a shelf cursor
    /// inside the atlas, every resident rectangle inside the atlas and
    /// consistent with the shelf cursor (fully above the current row, or in
    /// the current row and left of the cursor), and keys resident at most
    /// once.
    pub closed spec fn wf(self) -> bool {
        &&& 0 <= self.width <= ATLAS_LIMIT
        &&& 0 <= self.height <= ATLAS_LIMIT
        &&& forall|i: int|
            0 <= i < self.queued@.len() ==> {
                &&& 0 <= (#[trigger] self.queued@[i]).w <= ATLAS_LIMIT
                &&& 0 <= self.queued@[i].h <= ATLAS_LIMIT
            }
        &&& 0 <= self.cur_x <= self.width
        &&& 0 <= self.cur_y
        &&& 0 <= self.row_h
        &&& self.cur_y + self.row_h <= self.height
        &&& forall|i: int|
            0 <= i < self.entries@.len() ==> {
                let r = (#[trigger] self.entries@[i]).1;
                &&& 0 <= r.x && 0 <= r.y && 0 < r.w && 0 < r.h
                &&& r.x + r.w <= self.width
                &&& r.y + r.h <= self.height
                &&& (r.y + r.h <= self.cur_y || (r.y == self.cur_y && r.x + r.w <= self.cur_x
                    && r.h <= self.row_h))
            }
        &&& forall|i: int, j: int|
            0 <= i < j < self.entries@.len() ==> (#[trigger] self.entries@[i]).0 != (
            #[trigger] self.entries@[j]).0
        &&& forall|i: int, j: int|
            0 <= i < j < self.entries@.len() ==> spec_rects_disjoint(
                (#[trigger] self.entries@[i]).1,
                (#[trigger] self.entries@[j]).1,
            )
    }

    /// The packing law: in a well-formed atlas, no two resident glyphs
    /// share a pixel — a flush places newly requested glyphs only into
    /// free atlas space.
    pub proof fn lemma_resident_rects_disjoint(self)
        requires
            self.wf(),
        ensures
            forall|i: int, j: int|
                0 <= i < j < self.spec_entries().len() ==> spec_rects_disjoint(
                    (#[trigger] self.spec_entries()[i]).1,
                    (#[trigger] self.spec_entries()[j]).1,
                ),
    {
    }

    /// An empty atlas of the requested dimensions, clamped into the
    /// supported range.
    pub fn new(width: i64, height: i64) -> (r: GlyphCache)
        ensures
            r.wf(),
            r.spec_width() == clamp_atlas_dim(width as int),
            r.spec_height() == clamp_atlas_dim(height as int),
            r.spec_entries() == Seq::<(GlyphKey, AtlasRect)>::empty(),
            r.spec_queued() == Seq::<QueuedGlyph>::empty(),
            r.spec_cursor() == (0int, 0int, 0int),
    {
        GlyphCache {
            width: clamp_dim(width),
            height: clamp_dim(height),
            entries: Vec::new(),
            queued: Vec::new(),
            cur_x: 0,
            cur_y: 0,
            row_h: 0,
        }
    }

    pub fn width(&self) -> (r: i64)
        ensures
            r as int == self.spec_width(),
    {
        self.width
    }

    pub fn height(&self) -> (r: i64)
        ensures
            r as int == self.spec_height(),
    {
        self.height
    }

    /// Request that a glyph of the given pixel extent become resident at the
    /// next flush. Extents are clamped into the supported range.
    pub fn queue_glyph(&mut self, key: GlyphKey, w: i64, h: i64)
        requires
            old(self).wf(),
        ensures
            final(self).wf(),
            final(self).spec_queued() == old(self).spec_queued().push(
                QueuedGlyph {
                    key,
                    w: clamp_atlas_dim(w as int) as i64,
                    h: clamp_atlas_dim(h as int) as i64,
                },
            ),
            final(self).spec_entries() == old(self).spec_entries(),
            final(self).spec_cursor() == old(self).spec_cursor(),
            final(self).spec_width() == old(self).spec_width(),
            final(self).spec_height() == old(self).spec_height(),
    {
        let item = QueuedGlyph { key, w: clamp_dim(w), h: clamp_dim(h) };
        self.queued.push(item);
    }

    /// Pack every queued glyph that is not yet resident and fits, emptying
    /// the queue. Returns exactly the newly resident entries, in placement
    /// order, so the caller can upload their pixel blocks; everything that
    /// was resident before stays resident, unchanged.
    pub fn cache_queued(&mut self) -> (r: Vec<(GlyphKey, AtlasRect)>)
        requires
            old(self).wf(),
        ensures
            final(self).wf(),
            final(self).spec_queued() == Seq::<QueuedGlyph>::empty(),
            final(self).spec_width() == old(self).spec_width(),
            final(self).spec_height() == old(self).spec_height(),
            ({
                let (ents, cur, placed) = spec_flush(
                    old(self).spec_entries(),
                    old(self).spec_cursor(),
                    old(self).spec_width(),
                    old(self).spec_height(),
                    old(self).spec_queued(),
                );
                &&& final(self).spec_entries() == ents
                &&& final(self).spec_cursor() == cur
                &&& r@ == placed
                &&& final(self).spec_entries() == old(self).spec_entries() + placed
            }),
    {
        let ghost orig = *self;
        let mut r: Vec<(GlyphKey, AtlasRect)> = Vec::new();
        proof {
            lemma_flush_appends(
                orig.spec_entries(),
                orig.spec_cursor(),
                orig.spec_width(),
                orig.spec_height(),
                orig.spec_queued(),
            );
        }
        while self.queued.len() > 0
            invariant
                self.wf(),
                self.width == orig.width,
                self.height == orig.height,
                ({
                    let (ents0, cur0, placed0) = spec_flush(
                        orig.spec_entries(),
                        orig.spec_cursor(),
                        orig.spec_width(),
                        orig.spec_height(),
                        orig.spec_queued(),
                    );
                    let (ents, cur, placed) = spec_flush(
                        self.spec_entries(),
                        self.spec_cursor(),
                        self.spec_width(),
                        self.spec_height(),
                        self.spec_queued(),
                    );
                    &&& ents0 == ents
                    &&& cur0 == cur
                    &&& placed0 == r@ + placed
                    &&& self.spec_entries() == orig.spec_entries() + r@
                }),
            decreases self.queued.len(),
        {
            let item = self.queued.remove(0);
            let already = self.rect_for(&item.key);
            proof {
                if already is None {
                    lemma_find_none(self.entries@, item.key);
                }
            }
            if already.is_none() && item.w > 0 && item.h > 0 {
                if self.cur_x <= self.width - item.w && self.cur_y <= self.height - item.h {
                    let rect = AtlasRect { x: self.cur_x, y: self.cur_y, w: item.w, h: item.h };
                    self.cur_x = self.cur_x + item.w;
                    if item.h > self.row_h {
                        self.row_h = item.h;
                    }
                    self.entries.push((item.key, rect));
                    r.push((item.key, rect));
                } else if item.w <= self.width && self.cur_y + self.row_h <= self.height - item.h {
                    let ny = self.cur_y + self.row_h;
                    let rect = AtlasRect { x: 0, y: ny, w: item.w, h: item.h };
                    self.cur_x = item.w;
                    self.cur_y = ny;
                    self.row_h = item.h;
                    self.entries.push((item.key, rect));
                    r.push((item.key, rect));
                }
            }
        }
        r
    }

    /// The atlas rectangle resident for `key`, if any. In a well-formed
    /// atlas the rectangle lies inside the atlas bounds.
    pub fn rect_for(&self, key: &GlyphKey) -> (r: Option<AtlasRect>)
        ensures
            r == self.spec_rect_for(*key),
            self.wf() ==> (r matches Some(rect) ==> {
                &&& 0 <= rect.x && 0 <= rect.y && 0 < rect.w && 0 < rect.h
                &&& rect.x + rect.w <= self.spec_width() <= ATLAS_LIMIT
                &&& rect.y + rect.h <= self.spec_height() <= ATLAS_LIMIT
            }),
    {
        proof {
            if self.wf() && self.spec_rect_for(*key) is Some {
                lemma_find_bounds(self.entries@, *key, self.width as int, self.height as int);
            }
        }
        let mut i: usize = 0;
        proof {
            assert(self.entries@.skip(0) =~= self.entries@);
        }
        while i < self.entries.len()
            invariant
                0 <= i <= self.entries@.len(),
                spec_find(self.entries@, *key) == spec_find(self.entries@.skip(i as int), *key),
            decreases self.entries@.len() - i,
        {
            proof {
                assert(self.entries@.skip(i as int).drop_first() =~= self.entries@.skip(
                    i as int + 1,
                ));
                assert(self.entries@.skip(i as int)[0] == self.entries@[i as int]);
            }
            if self.entries[i].0.glyph_id == key.glyph_id && self.entries[i].0.font_size_px
                == key.font_size_px {
                return Some(self.entries[i].1);
            }
            i = i + 1;
        }
        proof {
            assert(self.entries@.skip(i as int) =~= Seq::<(GlyphKey, AtlasRect)>::empty());
        }
        None
    }
}

/// Clamp a requested dimension or extent into `[0, ATLAS_LIMIT]`.
pub open spec fn clamp_atlas_dim(x: int) -> int {
    if x < 0 {
        0
    } else if x > ATLAS_LIMIT {
        ATLAS_LIMIT as int
    } else {
        x
    }
}

fn clamp_dim(x: i64) -> (r: i64)
    ensures
        r as int == clamp_atlas_dim(x as int),
{
    if x < 0 {
        0
    } else if x > ATLAS_LIMIT {
        ATLAS_LIMIT
    } else {
        x
    }
}

/// A found rectangle inherits the bounds that hold of every entry.
proof fn lemma_find_bounds(
    entries: Seq<(GlyphKey, AtlasRect)>,
    key: GlyphKey,
    width: int,
    height: int,
)
    requires
        forall|i: int|
            0 <= i < entries.len() ==> {
                let r = (#[trigger] entries[i]).1;
                &&& 0 <= r.x && 0 <= r.y && 0 < r.w && 0 < r.h
                &&& r.x + r.w <= width
                &&& r.y + r.h <= height
            },
        spec_find(entries, key) is Some,
    ensures
        ({
            let rect = spec_find(entries, key)->0;
            &&& 0 <= rect.x && 0 <= rect.y && 0 < rect.w && 0 < rect.h
            &&& rect.x + rect.w <= width
            &&& rect.y + rect.h <= height
        }),
    decreases entries.len(),
{
    if entries.len() > 0 && entries[0].0 != key {
        assert(forall|i: int|
            0 <= i < entries.drop_first().len() ==> (#[trigger] entries.drop_first()[i])
                == entries[i + 1]);
        lemma_find_bounds(entries.drop_first(), key, width, height);
    }
}

/// When `spec_find` reports no entry, no entry carries the key.
proof fn lemma_find_none(entries: Seq<(GlyphKey, AtlasRect)>, key: GlyphKey)
    requires
        spec_find(entries, key) is None,
    ensures
        forall|i: int| 0 <= i < entries.len() ==> (#[trigger] entries[i]).0 != key,
    decreases entries.len(),
{
    if entries.len() > 0 {
        lemma_find_none(entries.drop_first(), key);
        assert forall|i: int| 0 <= i < entries.len() implies (#[trigger] entries[i]).0
            != key by {
            if i > 0 {
                assert(entries.drop_first()[i - 1] == entries[i]);
            }
        }
    }
}

/// Flushing places entries append-only: the final entries extend the
/// starting ones by exactly the placed sequence.
proof fn lemma_flush_appends(
    entries: Seq<(GlyphKey, AtlasRect)>,
    cursor: ShelfCursor,
    width: int,
    height: int,
    q: Seq<QueuedGlyph>,
)
    ensures
        ({
            let (ents, cur, placed) = spec_flush(entries, cursor, width, height, q);
            ents == entries + placed
        }),
    decreases q.len(),
{
    if q.len() == 0 {
        assert(entries + Seq::<(GlyphKey, AtlasRect)>::empty() =~= entries);
    } else {
        let item = q[0];
        if spec_find(entries, item.key) is Some || item.w <= 0 || item.h <= 0 {
            lemma_flush_appends(entries, cursor, width, height, q.drop_first());
        } else {
            match spec_try_place(cursor, width, height, item.w as int, item.h as int) {
                Some((cursor2, rect)) => {
                    lemma_flush_appends(
                        entries.push((item.key, rect)),
                        cursor2,
                        width,
                        height,
                        q.drop_first(),
                    );
                    let (done, cursor3, rest) = spec_flush(
                        entries.push((item.key, rect)),
                        cursor2,
                        width,
                        height,
                        q.drop_first(),
                    );
                    assert(entries + (seq![(item.key, rect)] + rest) =~= entries.push(
                        (item.key, rect),
                    ) + rest);
                },
                None => {
                    lemma_flush_appends(entries, cursor, width, height, q.drop_first());
                },
            }
        }
    }
}

} // verus!
