//! Text shaping: string + font metrics + wrap bound to positioned glyphs.
//!
//! Font metrics are plain integer pixel values, resolved for a component's
//! current font size by whoever owns the typeface (the platform layer
//! queries the font file; tests build a stub). The shaping engine here is
//! pure: it walks the normalized code points, applies pairwise kerning,
//! wraps a glyph whose right pixel bound crosses the wrap bound onto a
//! fresh line (clearing the kerning pair memory), and records the final
//! caret. Carriage-return-class control characters advance to a new line;
//! line feeds and other controls are deliberately ignored.

use vstd::prelude::*;

use unicode_normalization::UnicodeNormalization;

use crate::component::Component;
use crate::component::Vec2;
use crate::global::Global;
use crate::utils::cursor::clamp_font_size;
use crate::utils::cursor::spec_clamp_font_size;
use crate::utils::cursor::Cursor;
use crate::utils::glyph_cache::clamp_atlas_dim;
use crate::utils::glyph_cache::spec_flush;
use crate::utils::glyph_cache::AtlasRect;
use crate::utils::glyph_cache::GlyphCache;
use crate::utils::glyph_cache::GlyphKey;
use crate::utils::glyph_cache::QueuedGlyph;

verus! {

/// Largest magnitude of any single font metric, in pixels.
pub const METRIC_LIMIT: i64 = 0x10_0000;

/// Largest supported content length, in code points.
pub const TEXT_LIMIT: usize = 0x10_0000;

/// Largest supported wrap bound, in pixels.
pub const WRAP_LIMIT: i64 = 0x100_0000_0000;

/// Largest magnitude of a placed glyph coordinate; follows from the limits
/// above (text length times per-glyph step, plus slack).
pub const PLACED_LIMIT: i64 = 0x1000_0000_0000;

/// Pixel metrics of one glyph: its identity, advance width, and bounding
/// box relative to the caret position (absent for blank glyphs such as
/// spaces).
#[derive(Clone, Copy, PartialEq, Eq, Structural, Debug)]
pub struct GlyphMetrics {
    pub id: u32,
    pub advance: i64,
    pub has_bb: bool,
    pub bb_min_x: i64,
    pub bb_min_y: i64,
    pub bb_max_x: i64,
    pub bb_max_y: i64,
}

impl GlyphMetrics {
    /// Bounded advance, bounded bounding box, box corners ordered.
    pub open spec fn wf(self) -> bool {
        &&& 0 <= self.advance <= METRIC_LIMIT
        &&& -METRIC_LIMIT <= self.bb_min_x <= self.bb_max_x <= METRIC_LIMIT
        &&& -METRIC_LIMIT <= self.bb_min_y <= self.bb_max_y <= METRIC_LIMIT
    }
}

/// Pixel metrics of a typeface at one font size: vertical metrics, a glyph
/// table, a kerning table keyed by glyph id pairs, and the fallback glyph
/// for code points missing from the table.
#[derive(Clone, PartialEq, Eq, Debug)]
pub struct FontMetrics {
    pub ascent: i64,
    pub descent: i64,
    pub line_gap: i64,
    pub glyphs: Vec<(char, GlyphMetrics)>,
    pub kerning: Vec<(u32, u32, i64)>,
    pub default_glyph: GlyphMetrics,
}

/// Glyph metrics recorded for `c`, if any.
pub open spec fn spec_find_glyph(table: Seq<(char, GlyphMetrics)>, c: char) -> Option<GlyphMetrics>
    decreases table.len(),
{
    if table.len() == 0 {
        None
    } else if table[0].0 == c {
        Some(table[0].1)
    } else {
        spec_find_glyph(table.drop_first(), c)
    }
}

/// Kerning recorded for the glyph pair `(a, b)`, if any.
pub open spec fn spec_find_kern(table: Seq<(u32, u32, i64)>, a: u32, b: u32) -> Option<i64>
    decreases table.len(),
{
    if table.len() == 0 {
        None
    } else if table[0].0 == a && table[0].1 == b {
        Some(table[0].2)
    } else {
        spec_find_kern(table.drop_first(), a, b)
    }
}

impl FontMetrics {
    /// Bounded vertical metrics and tables.
    pub open spec fn wf(self) -> bool {
        &&& 0 <= self.ascent <= METRIC_LIMIT
        &&& -METRIC_LIMIT <= self.descent <= 0
        &&& 0 <= self.line_gap <= METRIC_LIMIT
        &&& self.default_glyph.wf()
        &&& forall|i: int| 0 <= i < self.glyphs@.len() ==> (#[trigger] self.glyphs@[i]).1.wf()
        &&& forall|i: int|
            0 <= i < self.kerning@.len() ==> -METRIC_LIMIT <= (#[trigger] self.kerning@[i]).2
                <= METRIC_LIMIT
    }

    /// Caret step from one text line to the next.
    pub open spec fn spec_advance_height(self) -> int {
        self.ascent - self.descent + self.line_gap
    }

    /// Metrics used for `c`: the table entry, or the fallback glyph.
    pub open spec fn spec_lookup(self, c: char) -> GlyphMetrics {
        match spec_find_glyph(self.glyphs@, c) {
            Some(g) => g,
            None => self.default_glyph,
        }
    }

    /// Kerning applied between consecutive glyphs `a` and `b`; zero when the
    /// pair is not in the table.
    pub open spec fn spec_kern(self, a: u32, b: u32) -> int {
        match spec_find_kern(self.kerning@, a, b) {
            Some(k) => k as int,
            None => 0,
        }
    }

    pub fn advance_height(&self) -> (r: i64)
        requires
            self.wf(),
        ensures
            r as int == self.spec_advance_height(),
    {
        self.ascent - self.descent + self.line_gap
    }

    /// Look up the glyph metrics used for a code point.
    pub fn lookup(&self, c: char) -> (r: GlyphMetrics)
        ensures
            r == self.spec_lookup(c),
    {
        let mut i: usize = 0;
        proof {
            assert(self.glyphs@.skip(0) =~= self.glyphs@);
        }
        while i < self.glyphs.len()
            invariant
                0 <= i <= self.glyphs@.len(),
                spec_find_glyph(self.glyphs@, c) == spec_find_glyph(
                    self.glyphs@.skip(i as int),
                    c,
                ),
            decreases self.glyphs@.len() - i,
        {
            proof {
                assert(self.glyphs@.skip(i as int).drop_first() =~= self.glyphs@.skip(
                    i as int + 1,
                ));
                assert(self.glyphs@.skip(i as int)[0] == self.glyphs@[i as int]);
            }
            if self.glyphs[i].0 == c {
                return self.glyphs[i].1;
            }
            i = i + 1;
        }
        proof {
            assert(self.glyphs@.skip(i as int) =~= Seq::<(char, GlyphMetrics)>::empty());
        }
        self.default_glyph
    }

    /// Look up the kerning between two consecutive glyph ids.
    pub fn kern(&self, a: u32, b: u32) -> (r: i64)
        ensures
            r as int == self.spec_kern(a, b),
    {
        let mut i: usize = 0;
        proof {
            assert(self.kerning@.skip(0) =~= self.kerning@);
        }
        while i < self.kerning.len()
            invariant
                0 <= i <= self.kerning@.len(),
                spec_find_kern(self.kerning@, a, b) == spec_find_kern(
                    self.kerning@.skip(i as int),
                    a,
                    b,
                ),
            decreases self.kerning@.len() - i,
        {
            proof {
                assert(self.kerning@.skip(i as int).drop_first() =~= self.kerning@.skip(
                    i as int + 1,
                ));
                assert(self.kerning@.skip(i as int)[0] == self.kerning@[i as int]);
            }
            if self.kerning[i].0 == a && self.kerning[i].1 == b {
                return self.kerning[i].2;
            }
            i = i + 1;
        }
        proof {
            assert(self.kerning@.skip(i as int) =~= Seq::<(u32, u32, i64)>::empty());
        }
        0
    }
}

/// A control character: the C0 range, delete, and the C1 range. Of these
/// only the carriage return advances the caret to a new line.
pub open spec fn spec_is_control(c: char) -> bool {
    (c as u32) < 0x20 || (0x7f <= c as u32 && c as u32 <= 0x9f)
}

fn is_control(c: char) -> (r: bool)
    ensures
        r == spec_is_control(c),
{
    let n = c as u32;
    n < 0x20 || (0x7f <= n && n <= 0x9f)
}

/// One glyph positioned by the shaping pass: the code point, the metrics it
/// was placed with, and the caret position it was placed at.
#[derive(Clone, Copy, PartialEq, Eq, Structural, Debug)]
pub struct PlacedGlyph {
    pub ch: char,
    pub metrics: GlyphMetrics,
    pub x: i64,
    pub y: i64,
}

impl PlacedGlyph {
    pub open spec fn wf(self) -> bool {
        &&& self.metrics.wf()
        &&& -PLACED_LIMIT <= self.x <= PLACED_LIMIT
        &&& 0 <= self.y <= PLACED_LIMIT
    }
}

/// The shaping policy, from a caret state: control characters advance to a
/// new line (carriage-return-class) or are ignored; any other code point is
/// kerned against the previous glyph, placed at the caret, wrapped onto a
/// fresh line if its right pixel bound crosses the wrap bound (with the
/// kerning pair memory cleared, both into and out of the wrapped glyph),
/// and the caret advances by its advance width. Returns the glyphs placed
/// from this state on, and the final caret.
pub open spec fn spec_shape_from(
    font: FontMetrics,
    wrap_bound: int,
    cs: Seq<char>,
    caret_x: int,
    caret_y: int,
    last: Option<u32>,
) -> (Seq<PlacedGlyph>, int, int)
    decreases cs.len(),
{
    if cs.len() == 0 {
        (Seq::empty(), caret_x, caret_y)
    } else {
        let c = cs[0];
        if spec_is_control(c) {
            if c == '\r' {
                spec_shape_from(
                    font,
                    wrap_bound,
                    cs.drop_first(),
                    0,
                    caret_y + font.spec_advance_height(),
                    last,
                )
            } else {
                spec_shape_from(font, wrap_bound, cs.drop_first(), caret_x, caret_y, last)
            }
        } else {
            let g = font.spec_lookup(c);
            let kerned_x = caret_x + (match last {
                Some(id) => font.spec_kern(id, g.id),
                None => 0,
            });
            if g.has_bb && kerned_x + g.bb_max_x > wrap_bound {
                let ny = caret_y + font.spec_advance_height();
                let placed = PlacedGlyph { ch: c, metrics: g, x: 0, y: ny as i64 };
                let (rest, fx, fy) = spec_shape_from(
                    font,
                    wrap_bound,
                    cs.drop_first(),
                    g.advance as int,
                    ny,
                    None,
                );
                (seq![placed] + rest, fx, fy)
            } else {
                let placed = PlacedGlyph { ch: c, metrics: g, x: kerned_x as i64, y: caret_y as i64 };
                let (rest, fx, fy) = spec_shape_from(
                    font,
                    wrap_bound,
                    cs.drop_first(),
                    kerned_x + g.advance,
                    caret_y,
                    Some(g.id),
                );
                (seq![placed] + rest, fx, fy)
            }
        }
    }
}

/// The shaping of a whole text: the caret starts at the ascent baseline
/// with no kerning pair memory.
pub open spec fn spec_shape(font: FontMetrics, wrap_bound: int, cs: Seq<char>) -> (
    Seq<PlacedGlyph>,
    int,
    int,
) {
    spec_shape_from(font, wrap_bound, cs, 0, font.ascent as int, None)
}

/// Shape a normalized code point sequence: the verified core of the text
/// engine. Returns the placed glyphs and the final caret position.
#[verifier::rlimit(100)]
pub fn shape_text(font: &FontMetrics, wrap_bound: i64, cs: &Vec<char>) -> (r: (
    Vec<PlacedGlyph>,
    i64,
    i64,
))
    requires
        font.wf(),
        0 <= wrap_bound <= WRAP_LIMIT,
        cs@.len() <= TEXT_LIMIT,
    ensures
        ({
            let (glyphs, fx, fy) = spec_shape(*font, wrap_bound as int, cs@);
            &&& r.0@ == glyphs
            &&& r.1 as int == fx
            &&& r.2 as int == fy
            &&& forall|i: int| 0 <= i < r.0@.len() ==> (#[trigger] r.0@[i]).wf()
            &&& -PLACED_LIMIT <= r.1 <= PLACED_LIMIT
            &&& 0 <= r.2 <= PLACED_LIMIT
        }),
{
    let mut out: Vec<PlacedGlyph> = Vec::new();
    let mut caret_x: i64 = 0;
    let mut caret_y: i64 = font.ascent;
    let mut last: Option<u32> = None;
    let mut i: usize = 0;
    let line_height = font.advance_height();
    proof {
        assert(cs@.skip(0) =~= cs@);
    }
    while i < cs.len()
        invariant
            font.wf(),
            0 <= wrap_bound <= WRAP_LIMIT,
            cs@.len() <= TEXT_LIMIT,
            0 <= i <= cs@.len(),
            line_height as int == font.spec_advance_height(),
            -0x20_0000 * (i as int) <= caret_x <= 0x20_0000 * (i as int),
            0 <= caret_y <= 0x10_0000 + 0x30_0000 * (i as int),
            forall|j: int| 0 <= j < out@.len() ==> (#[trigger] out@[j]).wf(),
            ({
                let (glyphs, fx, fy) = spec_shape(*font, wrap_bound as int, cs@);
                let (rest, rx, ry) = spec_shape_from(
                    *font,
                    wrap_bound as int,
                    cs@.skip(i as int),
                    caret_x as int,
                    caret_y as int,
                    last,
                );
                &&& glyphs == out@ + rest
                &&& fx == rx
                &&& fy == ry
            }),
        decreases cs@.len() - i,
    {
        proof {
            assert(cs@.skip(i as int).drop_first() =~= cs@.skip(i as int + 1));
            assert(cs@.skip(i as int)[0] == cs@[i as int]);
        }
        let ghost out0 = out@;
        let c = cs[i];
        if is_control(c) {
            if c == '\r' {
                caret_x = 0;
                caret_y = caret_y + line_height;
            }
        } else {
            let g = font.lookup(c);
            proof {
                lemma_lookup_wf(*font, c);
            }
            let k: i64 = match last {
                Some(id) => {
                    proof {
                        lemma_kern_bounded(*font, id, g.id);
                    }
                    font.kern(id, g.id)
                },
                None => 0,
            };
            let kerned_x = caret_x + k;
            if g.has_bb && kerned_x + g.bb_max_x > wrap_bound {
                let ny = caret_y + line_height;
                let placed = PlacedGlyph { ch: c, metrics: g, x: 0, y: ny };
                out.push(placed);
                caret_x = g.advance;
                caret_y = ny;
                last = None;
                proof {
                    assert(out@ == out0.push(placed));
                    lemma_push_wf_all(out0, placed);
                    lemma_push_append(
                        out0,
                        placed,
                        spec_shape_from(
                            *font,
                            wrap_bound as int,
                            cs@.skip(i as int + 1),
                            caret_x as int,
                            caret_y as int,
                            last,
                        ).0,
                    );
                }
            } else {
                let placed = PlacedGlyph { ch: c, metrics: g, x: kerned_x, y: caret_y };
                out.push(placed);
                caret_x = kerned_x + g.advance;
                last = Some(g.id);
                proof {
                    assert(out@ == out0.push(placed));
                    lemma_push_wf_all(out0, placed);
                    lemma_push_append(
                        out0,
                        placed,
                        spec_shape_from(
                            *font,
                            wrap_bound as int,
                            cs@.skip(i as int + 1),
                            caret_x as int,
                            caret_y as int,
                            last,
                        ).0,
                    );
                }
            }
        }
        i = i + 1;
    }
    proof {
        assert(cs@.skip(i as int) =~= Seq::<char>::empty());
        assert(out@ + Seq::<PlacedGlyph>::empty() =~= out@);
    }
    (out, caret_x, caret_y)
}

/// Pushing a well-formed glyph onto a sequence of well-formed glyphs
/// leaves every element well-formed.
proof fn lemma_push_wf_all(s: Seq<PlacedGlyph>, x: PlacedGlyph)
    requires
        forall|j: int| 0 <= j < s.len() ==> (#[trigger] s[j]).wf(),
        x.wf(),
    ensures
        forall|j: int| 0 <= j < s.push(x).len() ==> (#[trigger] s.push(x)[j]).wf(),
{
    assert forall|j: int| 0 <= j < s.push(x).len() implies (#[trigger] s.push(x)[j]).wf() by {
        if j < s.len() {
            assert(s.push(x)[j] == s[j]);
        } else {
            assert(s.push(x)[j] == x);
        }
    }
}

/// Appending a head element to the front of the right operand is the same
/// as pushing it onto the left one.
proof fn lemma_push_append<T>(a: Seq<T>, x: T, b: Seq<T>)
    ensures
        a + (seq![x] + b) == a.push(x) + b,
{
    assert(a + (seq![x] + b) =~= a.push(x) + b);
}

/// A glyph looked up in a well-formed font is well-formed.
proof fn lemma_lookup_wf(font: FontMetrics, c: char)
    requires
        font.wf(),
    ensures
        font.spec_lookup(c).wf(),
{
    if spec_find_glyph(font.glyphs@, c) is Some {
        lemma_find_glyph_wf_rec(font.glyphs@, c);
    }
}

proof fn lemma_find_glyph_wf_rec(table: Seq<(char, GlyphMetrics)>, c: char)
    requires
        forall|i: int| 0 <= i < table.len() ==> (#[trigger] table[i]).1.wf(),
        spec_find_glyph(table, c) is Some,
    ensures
        spec_find_glyph(table, c)->0.wf(),
    decreases table.len(),
{
    if table.len() > 0 && table[0].0 != c {
        assert(forall|i: int|
            0 <= i < table.drop_first().len() ==> (#[trigger] table.drop_first()[i])
                == table[i + 1]);
        lemma_find_glyph_wf_rec(table.drop_first(), c);
    }
}

/// Kerning read from a well-formed table is bounded.
proof fn lemma_kern_bounded(font: FontMetrics, a: u32, b: u32)
    requires
        font.wf(),
    ensures
        -METRIC_LIMIT <= font.spec_kern(a, b) <= METRIC_LIMIT,
{
    lemma_kern_bounded_rec(font.kerning@, a, b);
}

proof fn lemma_kern_bounded_rec(table: Seq<(u32, u32, i64)>, a: u32, b: u32)
    requires
        forall|i: int|
            0 <= i < table.len() ==> -METRIC_LIMIT <= (#[trigger] table[i]).2 <= METRIC_LIMIT,
    ensures
        match spec_find_kern(table, a, b) {
            Some(k) => -METRIC_LIMIT <= k <= METRIC_LIMIT,
            None => true,
        },
    decreases table.len(),
{
    if table.len() > 0 && !(table[0].0 == a && table[0].1 == b) {
        assert(forall|i: int|
            0 <= i < table.drop_first().len() ==> (#[trigger] table.drop_first()[i])
                == table[i + 1]);
        lemma_kern_bounded_rec(table.drop_first(), a, b);
    }
}

/// The code point sequence the shaping pass actually consumes: the content
/// in Unicode Normalization Form C, cut to the supported length.
pub open spec fn spec_normalized(content: Seq<char>) -> Seq<char> {
    let n = nfc_seq(content);
    if n.len() <= TEXT_LIMIT {
        n
    } else {
        n.take(TEXT_LIMIT as int)
    }
}

/// Unicode Normalization Form C of a code point sequence.
pub uninterp spec fn nfc_seq(s: Seq<char>) -> Seq<char>;

/// Relies on unicode-normalization's `nfc`: Unicode Normalization Form C,
/// a function of the code points alone.
#[verifier::external_body]
fn nfc_chars(s: &Vec<char>) -> (r: Vec<char>)
    ensures
        r@ == nfc_seq(s@),
{
    s.iter().cloned().nfc().collect()
}

/// The atlas request for one placed glyph: its key at the given pixel font
/// size, and its bounding-box extent (zero for blank glyphs, which the
/// atlas flush then drops).
pub open spec fn spec_queued_glyph(g: PlacedGlyph, font_size_px: i64) -> QueuedGlyph {
    let w = if g.metrics.has_bb {
        g.metrics.bb_max_x - g.metrics.bb_min_x
    } else {
        0
    };
    let h = if g.metrics.has_bb {
        g.metrics.bb_max_y - g.metrics.bb_min_y
    } else {
        0
    };
    QueuedGlyph {
        key: GlyphKey { glyph_id: g.metrics.id, font_size_px },
        w: clamp_atlas_dim(w as int) as i64,
        h: clamp_atlas_dim(h as int) as i64,
    }
}

/// The atlas requests for a glyph sequence, in order.
pub open spec fn spec_queue_of(gs: Seq<PlacedGlyph>, font_size_px: i64) -> Seq<QueuedGlyph>
    decreases gs.len(),
{
    if gs.len() == 0 {
        Seq::empty()
    } else {
        seq![spec_queued_glyph(gs[0], font_size_px)] + spec_queue_of(gs.drop_first(), font_size_px)
    }
}

proof fn lemma_queue_of_push(gs: Seq<PlacedGlyph>, g: PlacedGlyph, font_size_px: i64)
    ensures
        spec_queue_of(gs.push(g), font_size_px) == spec_queue_of(gs, font_size_px).push(
            spec_queued_glyph(g, font_size_px),
        ),
    decreases gs.len(),
{
    reveal_with_fuel(spec_queue_of, 3);
    if gs.len() == 0 {
        assert(gs.push(g).drop_first() =~= Seq::<PlacedGlyph>::empty());
        assert(spec_queue_of(gs.push(g), font_size_px) =~= spec_queue_of(gs, font_size_px).push(
            spec_queued_glyph(g, font_size_px),
        ));
    } else {
        assert(gs.push(g).drop_first() =~= gs.drop_first().push(g));
        assert(gs.push(g)[0] == gs[0]);
        lemma_queue_of_push(gs.drop_first(), g, font_size_px);
        assert(seq![spec_queued_glyph(gs[0], font_size_px)] + spec_queue_of(
            gs.drop_first(),
            font_size_px,
        ).push(spec_queued_glyph(g, font_size_px)) =~= (seq![
            spec_queued_glyph(gs[0], font_size_px),
        ] + spec_queue_of(gs.drop_first(), font_size_px)).push(
            spec_queued_glyph(g, font_size_px),
        ));
        assert(spec_queue_of(gs.push(g), font_size_px) =~= spec_queue_of(gs, font_size_px).push(
            spec_queued_glyph(g, font_size_px),
        ));
    }
}

/// One renderable glyph vertex: an atlas position in atlas pixels and a
/// screen position in logical pixels.
#[derive(Clone, Copy, PartialEq, Eq, Structural, Debug)]
pub struct FontRenderInfo {
    pub a_uv: Vec2,
    pub a_position: Vec2,
}

/// The six vertices (two triangles) of one glyph quad, carrying atlas and
/// screen corners.
pub open spec fn spec_glyph_quad(rect: AtlasRect, g: PlacedGlyph) -> Seq<FontRenderInfo> {
    let uv_min = Vec2 { x: rect.x, y: rect.y };
    let uv_max = Vec2 { x: (rect.x + rect.w) as i64, y: (rect.y + rect.h) as i64 };
    let p_min = Vec2 {
        x: (g.x + g.metrics.bb_min_x) as i64,
        y: (g.y + g.metrics.bb_min_y) as i64,
    };
    let p_max = Vec2 {
        x: (g.x + g.metrics.bb_max_x) as i64,
        y: (g.y + g.metrics.bb_max_y) as i64,
    };
    seq![
        FontRenderInfo { a_uv: uv_min, a_position: p_min },
        FontRenderInfo {
            a_uv: Vec2 { x: uv_max.x, y: uv_min.y },
            a_position: Vec2 { x: p_max.x, y: p_min.y },
        },
        FontRenderInfo { a_uv: uv_max, a_position: p_max },
        FontRenderInfo { a_uv: uv_max, a_position: p_max },
        FontRenderInfo {
            a_uv: Vec2 { x: uv_min.x, y: uv_max.y },
            a_position: Vec2 { x: p_min.x, y: p_max.y },
        },
        FontRenderInfo { a_uv: uv_min, a_position: p_min },
    ]
}

/// The renderable output of a glyph sequence against an atlas: six vertices
/// per glyph whose key is resident; a glyph without an atlas rectangle is
/// silently omitted.
pub open spec fn spec_render_info(
    cache: GlyphCache,
    gs: Seq<PlacedGlyph>,
    font_size_px: i64,
) -> Seq<FontRenderInfo>
    decreases gs.len(),
{
    if gs.len() == 0 {
        Seq::empty()
    } else {
        let head = match cache.spec_rect_for(
            GlyphKey { glyph_id: gs[0].metrics.id, font_size_px },
        ) {
            Some(rect) => spec_glyph_quad(rect, gs[0]),
            None => Seq::empty(),
        };
        head + spec_render_info(cache, gs.drop_first(), font_size_px)
    }
}

/// The shaping state of one text: content, font size, wrap bound, the
/// most recently positioned glyph sequence, the glyph atlas, and the
/// caret sub-component. The typeface metrics are borrowed from the
/// environment at each shaping pass.
pub struct RawText {
    pub content: Vec<char>,
    pub font_size: i64,
    pub cursor: Option<Cursor>,
    pub cache: GlyphCache,
    pub glyphs: Vec<PlacedGlyph>,
    pub wrap_bound: i64,
}

/// Clamp a wrap bound into the supported pixel range.
pub open spec fn spec_clamp_wrap(x: int) -> int {
    if x < 0 {
        0
    } else if x > WRAP_LIMIT {
        WRAP_LIMIT as int
    } else {
        x
    }
}

fn clamp_wrap(x: i64) -> (r: i64)
    ensures
        r as int == spec_clamp_wrap(x as int),
{
    if x < 0 {
        0
    } else if x > WRAP_LIMIT {
        WRAP_LIMIT
    } else {
        x
    }
}

impl RawText {
    /// Bounded content, font size, wrap bound and glyph positions; a
    /// well-formed typeface, atlas and caret.
    pub open spec fn wf(&self) -> bool {
        &&& self.content@.len() <= TEXT_LIMIT
        &&& 1 <= self.font_size <= METRIC_LIMIT
        &&& 0 <= self.wrap_bound <= WRAP_LIMIT
        &&& self.cache.wf()
        &&& match self.cursor {
            Some(c) => c.wf(),
            None => true,
        }
        &&& forall|i: int| 0 <= i < self.glyphs@.len() ==> (#[trigger] self.glyphs@[i]).wf()
    }

    /// A fresh text: empty content at the default font size, wrapping and
    /// caching at the given surface dimensions, without a caret.
    pub fn from_internal(cache_width: i64, cache_height: i64) -> (r: RawText)
        ensures
            r.wf(),
            r.content@ == Seq::<char>::empty(),
            r.font_size == 24i64,
            r.cursor is None,
            r.glyphs@ == Seq::<PlacedGlyph>::empty(),
            r.wrap_bound as int == spec_clamp_wrap(cache_width as int),
            r.cache.spec_entries() == Seq::<(GlyphKey, AtlasRect)>::empty(),
            r.cache.spec_queued() == Seq::<QueuedGlyph>::empty(),
            r.cache.spec_width() == clamp_atlas_dim(cache_width as int),
            r.cache.spec_height() == clamp_atlas_dim(cache_height as int),
    {
        RawText {
            content: Vec::new(),
            font_size: 24,
            cursor: None,
            cache: GlyphCache::new(cache_width, cache_height),
            glyphs: Vec::new(),
            wrap_bound: clamp_wrap(cache_width),
        }
    }

    /// Attach a caret, recomputed after every shaping pass.
    pub fn with_cursor(self, global: &Global) -> (r: RawText)
        ensures
            r.cursor is Some,
            r.cursor matches Some(c) ==> c.wf() && !c.visibility,
            r == (RawText { cursor: r.cursor, ..self }),
    {
        RawText { cursor: Some(Cursor::new(global)), ..self }
    }

    /// Show or hide the caret; reports whether one is attached.
    pub fn set_cursor_visibility(&mut self, visibility: bool) -> (r: bool)
        ensures
            r == (old(self).cursor is Some),
            old(self).cursor matches Some(c) ==> final(self).cursor == Some(
                Cursor { visibility, ..c },
            ),
            old(self).cursor is None ==> final(self).cursor is None,
            *final(self) == (RawText { cursor: final(self).cursor, ..*old(self) }),
    {
        let taken = self.cursor.take();
        match taken {
            Some(mut c) => {
                c.visibility = visibility;
                self.cursor = Some(c);
                true
            },
            None => false,
        }
    }

    /// Set the wrap bound, clamped into the supported pixel range.
    pub fn set_wrap_bound(&mut self, bound: i64)
        ensures
            final(self).wrap_bound as int == spec_clamp_wrap(bound as int),
            *final(self) == (RawText { wrap_bound: final(self).wrap_bound, ..*old(self) }),
    {
        self.wrap_bound = clamp_wrap(bound);
    }

    /// Set the font size (clamped into the supported range), resizing the
    /// caret along with it.
    pub fn set_font_size(&mut self, font_size: i64)
        ensures
            final(self).font_size as int == spec_clamp_font_size(font_size as int),
            old(self).cursor is Some <==> final(self).cursor is Some,
            final(self).cursor matches Some(c) ==> c.wf() && c.font_size
                == final(self).font_size,
            *final(self) == (RawText {
                font_size: final(self).font_size,
                cursor: final(self).cursor,
                ..*old(self)
            }),
    {
        self.font_size = clamp_font_size(font_size);
        let taken = self.cursor.take();
        match taken {
            Some(mut c) => {
                c.set_font_size(self.font_size);
                self.cursor = Some(c);
            },
            None => {},
        }
    }

    /// Append one code point; full content is left unchanged.
    pub fn push_char(&mut self, c: char)
        ensures
            final(self).content@ == if old(self).content@.len() < TEXT_LIMIT {
                old(self).content@.push(c)
            } else {
                old(self).content@
            },
            *final(self) == (RawText { content: final(self).content, ..*old(self) }),
    {
        if self.content.len() < TEXT_LIMIT {
            self.content.push(c);
        }
    }

    /// Remove the last code point; a no-op on empty content.
    pub fn pop_char(&mut self) -> (r: Option<char>)
        ensures
            final(self).content@ == if old(self).content@.len() > 0 {
                old(self).content@.drop_last()
            } else {
                old(self).content@
            },
            r == if old(self).content@.len() > 0 {
                Some(old(self).content@.last())
            } else {
                None::<char>
            },
            *final(self) == (RawText { content: final(self).content, ..*old(self) }),
    {
        self.content.pop()
    }

    /// Replace the content.
    pub fn set_content(&mut self, content: Vec<char>)
        requires
            content@.len() <= TEXT_LIMIT,
        ensures
            final(self).content == content,
            *final(self) == (RawText { content: final(self).content, ..*old(self) }),
    {
        self.content = content;
    }

    /// Run the shaping pass: normalize the content, place its glyphs,
    /// request every placed glyph from the atlas and flush it, and move the
    /// caret to just after the last placed glyph. Returns the newly placed
    /// atlas entries so their pixel blocks can be uploaded.
    pub fn update_cache(&mut self, font: &FontMetrics) -> (uploads: Vec<(GlyphKey, AtlasRect)>)
        requires
            old(self).wf(),
            font.wf(),
        ensures
            final(self).wf(),
            ({
                let shaped = spec_shape(
                    *font,
                    old(self).wrap_bound as int,
                    spec_normalized(old(self).content@),
                );
                let q = old(self).cache.spec_queued() + spec_queue_of(
                    shaped.0,
                    old(self).font_size,
                );
                let (ents, cur, placed) = spec_flush(
                    old(self).cache.spec_entries(),
                    old(self).cache.spec_cursor(),
                    old(self).cache.spec_width(),
                    old(self).cache.spec_height(),
                    q,
                );
                &&& final(self).glyphs@ == shaped.0
                &&& final(self).cache.spec_entries() == ents
                &&& final(self).cache.spec_cursor() == cur
                &&& final(self).cache.spec_queued() == Seq::<QueuedGlyph>::empty()
                &&& final(self).cache.spec_width() == old(self).cache.spec_width()
                &&& final(self).cache.spec_height() == old(self).cache.spec_height()
                &&& uploads@ == placed
                &&& (old(self).cursor is Some <==> final(self).cursor is Some)
                &&& final(self).cursor matches Some(c) ==> (old(self).cursor matches Some(c0)
                    && c == (Cursor {
                    local_position: Vec2 {
                        x: shaped.1 as i64,
                        y: (shaped.2 - font.ascent) as i64,
                    },
                    ..c0
                }))
            }),
            final(self).content == old(self).content,
            final(self).font_size == old(self).font_size,
            final(self).wrap_bound == old(self).wrap_bound,
    {
        let normalized_full = nfc_chars(&self.content);
        let normalized = if normalized_full.len() <= TEXT_LIMIT {
            normalized_full
        } else {
            let mut cut = normalized_full;
            cut.truncate(TEXT_LIMIT);
            proof {
                assert(cut@ =~= spec_normalized(old(self).content@));
            }
            cut
        };
        let (glyphs, caret_x, caret_y) = shape_text(font, self.wrap_bound, &normalized);
        let ghost q0 = self.cache.spec_queued();
        let mut i: usize = 0;
        while i < glyphs.len()
            invariant
                self.cache.wf(),
                0 <= i <= glyphs@.len(),
                forall|j: int| 0 <= j < glyphs@.len() ==> (#[trigger] glyphs@[j]).wf(),
                1 <= self.font_size <= METRIC_LIMIT,
                self.cache.spec_queued() == q0 + spec_queue_of(
                    glyphs@.take(i as int),
                    self.font_size,
                ),
                self.cache.spec_entries() == old(self).cache.spec_entries(),
                self.cache.spec_cursor() == old(self).cache.spec_cursor(),
                self.cache.spec_width() == old(self).cache.spec_width(),
                self.cache.spec_height() == old(self).cache.spec_height(),
                self.font_size == old(self).font_size,
                self.content == old(self).content,
                self.cursor == old(self).cursor,
                self.wrap_bound == old(self).wrap_bound,
                self.glyphs == old(self).glyphs,
                old(self).wf(),
            decreases glyphs@.len() - i,
        {
            let g = glyphs[i];
            let qw: i64 = if g.metrics.has_bb {
                g.metrics.bb_max_x - g.metrics.bb_min_x
            } else {
                0
            };
            let qh: i64 = if g.metrics.has_bb {
                g.metrics.bb_max_y - g.metrics.bb_min_y
            } else {
                0
            };
            let key = GlyphKey { glyph_id: g.metrics.id, font_size_px: self.font_size };
            self.cache.queue_glyph(key, qw, qh);
            proof {
                lemma_queue_of_push(glyphs@.take(i as int), g, self.font_size);
                assert(glyphs@.take(i as int).push(g) =~= glyphs@.take(i as int + 1));
                assert(q0 + spec_queue_of(glyphs@.take(i as int), self.font_size).push(
                    spec_queued_glyph(g, self.font_size),
                ) =~= (q0 + spec_queue_of(glyphs@.take(i as int), self.font_size)).push(
                    spec_queued_glyph(g, self.font_size),
                ));
            }
            i = i + 1;
        }
        proof {
            assert(glyphs@.take(glyphs@.len() as int) =~= glyphs@);
        }
        let uploads = self.cache.cache_queued();
        let ascent = font.ascent;
        let taken = self.cursor.take();
        match taken {
            Some(mut c) => {
                c.local_position = Vec2 { x: caret_x, y: caret_y - ascent };
                self.cursor = Some(c);
            },
            None => {},
        }
        self.glyphs = glyphs;
        uploads
    }

    /// Emit the renderable vertex list: six vertices per placed glyph whose
    /// atlas rectangle is resident; glyphs without one are omitted.
    pub fn to_font_render_info(&self) -> (r: Vec<FontRenderInfo>)
        requires
            self.wf(),
        ensures
            r@ == spec_render_info(self.cache, self.glyphs@, self.font_size),
    {
        let mut out: Vec<FontRenderInfo> = Vec::new();
        let mut i: usize = 0;
        proof {
            assert(self.glyphs@.skip(0) =~= self.glyphs@);
        }
        while i < self.glyphs.len()
            invariant
                self.wf(),
                0 <= i <= self.glyphs@.len(),
                spec_render_info(self.cache, self.glyphs@, self.font_size) == out@
                    + spec_render_info(self.cache, self.glyphs@.skip(i as int), self.font_size),
            decreases self.glyphs@.len() - i,
        {
            proof {
                assert(self.glyphs@.skip(i as int).drop_first() =~= self.glyphs@.skip(
                    i as int + 1,
                ));
                assert(self.glyphs@.skip(i as int)[0] == self.glyphs@[i as int]);
            }
            let ghost out0 = out@;
            let g = self.glyphs[i];
            let key = GlyphKey { glyph_id: g.metrics.id, font_size_px: self.font_size };
            let ghost head = match self.cache.spec_rect_for(key) {
                Some(rect) => spec_glyph_quad(rect, g),
                None => Seq::<FontRenderInfo>::empty(),
            };
            match self.cache.rect_for(&key) {
                Some(rect) => {
                    let uv_min = Vec2 { x: rect.x, y: rect.y };
                    let uv_max = Vec2 { x: rect.x + rect.w, y: rect.y + rect.h };
                    let p_min = Vec2 { x: g.x + g.metrics.bb_min_x, y: g.y + g.metrics.bb_min_y };
                    let p_max = Vec2 { x: g.x + g.metrics.bb_max_x, y: g.y + g.metrics.bb_max_y };
                    out.push(FontRenderInfo { a_uv: uv_min, a_position: p_min });
                    out.push(FontRenderInfo {
                        a_uv: Vec2 { x: uv_max.x, y: uv_min.y },
                        a_position: Vec2 { x: p_max.x, y: p_min.y },
                    });
                    out.push(FontRenderInfo { a_uv: uv_max, a_position: p_max });
                    out.push(FontRenderInfo { a_uv: uv_max, a_position: p_max });
                    out.push(FontRenderInfo {
                        a_uv: Vec2 { x: uv_min.x, y: uv_max.y },
                        a_position: Vec2 { x: p_min.x, y: p_max.y },
                    });
                    out.push(FontRenderInfo { a_uv: uv_min, a_position: p_min });
                },
                None => {},
            }
            proof {
                assert(out@ =~= out0 + head);
                assert(out0 + (head + spec_render_info(
                    self.cache,
                    self.glyphs@.skip(i as int + 1),
                    self.font_size,
                )) =~= (out0 + head) + spec_render_info(
                    self.cache,
                    self.glyphs@.skip(i as int + 1),
                    self.font_size,
                ));
            }
            i = i + 1;
        }
        proof {
            assert(self.glyphs@.skip(self.glyphs@.len() as int) =~= Seq::<PlacedGlyph>::empty());
            assert(out@ + Seq::<FontRenderInfo>::empty() =~= out@);
        }
        out
    }
}

/// The caret x-positions a glyph run would get with no wrapping: each
/// glyph is kerned against its predecessor and placed at the caret, which
/// then advances by its advance width. Meaningful for runs without control
/// characters.
pub open spec fn spec_nowrap_positions(
    font: FontMetrics,
    cs: Seq<char>,
    caret_x: int,
    last: Option<u32>,
) -> Seq<int>
    decreases cs.len(),
{
    if cs.len() == 0 {
        Seq::empty()
    } else {
        let g = font.spec_lookup(cs[0]);
        let kerned_x = caret_x + (match last {
            Some(id) => font.spec_kern(id, g.id),
            None => 0,
        });
        seq![kerned_x] + spec_nowrap_positions(
            font,
            cs.drop_first(),
            kerned_x + g.advance,
            Some(g.id),
        )
    }
}

/// Glyph `i`, placed unwrapped at `xs[i]`, sticks out past the wrap bound.
pub open spec fn spec_wrap_hit(
    font: FontMetrics,
    cs: Seq<char>,
    xs: Seq<int>,
    wrap: int,
    i: int,
) -> bool {
    let g = font.spec_lookup(cs[i]);
    g.has_bb && xs[i] + g.bb_max_x > wrap
}

/// Prepending one element lengthens a sequence by one.
proof fn lemma_cons_len<T>(x: T, b: Seq<T>)
    ensures
        (seq![x] + b).len() == 1 + b.len(),
{
}

/// What a sequence known to be an element prepended to another contains.
proof fn lemma_cons_facts<T>(a: Seq<T>, x: T, b: Seq<T>)
    requires
        a == seq![x] + b,
    ensures
        a.len() == 1 + b.len(),
        a[0] == x,
        forall|i: int| 1 <= i < a.len() ==> (#[trigger] a[i]) == b[i - 1],
{
}

/// A glyph run has one unwrapped position per code point.
pub proof fn lemma_nowrap_positions_len(
    font: FontMetrics,
    cs: Seq<char>,
    caret_x: int,
    last: Option<u32>,
)
    ensures
        spec_nowrap_positions(font, cs, caret_x, last).len() == cs.len(),
    decreases cs.len(),
{
    if cs.len() > 0 {
        let g = font.spec_lookup(cs[0]);
        let kerned_x = caret_x + (match last {
            Some(id) => font.spec_kern(id, g.id),
            None => 0,
        });
        lemma_nowrap_positions_len(font, cs.drop_first(), kerned_x + g.advance, Some(g.id));
    }
}

/// A run without control characters places exactly one glyph per code
/// point.
#[verifier::rlimit(100)]
pub proof fn lemma_shape_len_no_controls(
    font: FontMetrics,
    wrap: int,
    cs: Seq<char>,
    caret_x: int,
    caret_y: int,
    last: Option<u32>,
)
    requires
        forall|i: int| 0 <= i < cs.len() ==> !spec_is_control(#[trigger] cs[i]),
    ensures
        spec_shape_from(font, wrap, cs, caret_x, caret_y, last).0.len() == cs.len(),
    decreases cs.len(),
{
    broadcast use vstd::seq::group_seq_axioms;

    reveal_with_fuel(spec_shape_from, 2);
    if cs.len() > 0 {
        let c = cs[0];
        assert(!spec_is_control(c));
        let g = font.spec_lookup(c);
        let kerned_x = caret_x + (match last {
            Some(id) => font.spec_kern(id, g.id),
            None => 0,
        });
        assert(forall|i: int|
            0 <= i < cs.drop_first().len() ==> (#[trigger] cs.drop_first()[i]) == cs[i + 1]);
        if g.has_bb && kerned_x + g.bb_max_x > wrap {
            lemma_shape_len_no_controls(
                font,
                wrap,
                cs.drop_first(),
                g.advance as int,
                caret_y + font.spec_advance_height(),
                None,
            );
            let ny = caret_y + font.spec_advance_height();
            let placed = PlacedGlyph { ch: c, metrics: g, x: 0, y: ny as i64 };
            let (rest, fx, fy) = spec_shape_from(
                font,
                wrap,
                cs.drop_first(),
                g.advance as int,
                ny,
                None,
            );
            assert(spec_shape_from(font, wrap, cs, caret_x, caret_y, last).0 == seq![placed]
                + rest);
            lemma_cons_len(placed, rest);
        } else {
            lemma_shape_len_no_controls(
                font,
                wrap,
                cs.drop_first(),
                kerned_x + g.advance,
                caret_y,
                Some(g.id),
            );
            let placed = PlacedGlyph { ch: c, metrics: g, x: kerned_x as i64, y: caret_y as i64 };
            let (rest, fx, fy) = spec_shape_from(
                font,
                wrap,
                cs.drop_first(),
                kerned_x + g.advance,
                caret_y,
                Some(g.id),
            );
            assert(spec_shape_from(font, wrap, cs, caret_x, caret_y, last).0 == seq![placed]
                + rest);
            lemma_cons_len(placed, rest);
        }
    } else {
        assert(spec_shape_from(font, wrap, cs, caret_x, caret_y, last).0.len() == 0);
    }
}

/// The wrap boundary law: in a run without control characters whose
/// unwrapped placement first sticks out past the wrap bound at glyph `k`,
/// the shaping pass places glyphs `0..k` at their unwrapped positions on
/// the starting line, and glyph `k` at the start of the next line — with
/// no kerning applied across the break, since its x-position is exactly
/// zero. The run continues after glyph `k` from the fresh-line caret with
/// the kerning pair memory cleared, so glyph `k + 1` does not kern against
/// the wrapped glyph either.
pub proof fn lemma_wrap_boundary(
    font: FontMetrics,
    wrap: int,
    cs: Seq<char>,
    caret_x: int,
    caret_y: int,
    last: Option<u32>,
    k: int,
)
    requires
        font.wf(),
        cs.len() <= TEXT_LIMIT,
        0 <= k < cs.len(),
        forall|i: int| 0 <= i < cs.len() ==> !spec_is_control(#[trigger] cs[i]),
        -0x20_0000 * (TEXT_LIMIT - cs.len()) <= caret_x <= 0x20_0000 * (TEXT_LIMIT - cs.len()),
        0 <= caret_y <= 0x10_0000 + 0x30_0000 * (TEXT_LIMIT - cs.len()),
        ({
            let xs = spec_nowrap_positions(font, cs, caret_x, last);
            &&& forall|i: int| 0 <= i < k ==> !spec_wrap_hit(font, cs, xs, wrap, i)
            &&& spec_wrap_hit(font, cs, xs, wrap, k)
        }),
    ensures
        ({
            let xs = spec_nowrap_positions(font, cs, caret_x, last);
            let (glyphs, fx, fy) = spec_shape_from(font, wrap, cs, caret_x, caret_y, last);
            &&& glyphs.len() == cs.len()
            &&& forall|i: int|
                0 <= i < k ==> (#[trigger] glyphs[i]).x as int == xs[i] && glyphs[i].y as int
                    == caret_y
            &&& glyphs[k].x == 0i64
            &&& glyphs[k].y as int == caret_y + font.spec_advance_height()
            &&& glyphs.skip(k + 1) == spec_shape_from(
                font,
                wrap,
                cs.skip(k + 1),
                font.spec_lookup(cs[k]).advance as int,
                caret_y + font.spec_advance_height(),
                None::<u32>,
            ).0
        }),
    decreases cs.len(),
{
    reveal_with_fuel(spec_shape_from, 2);
    reveal_with_fuel(spec_nowrap_positions, 2);
    lemma_shape_len_no_controls(font, wrap, cs, caret_x, caret_y, last);
    lemma_nowrap_positions_len(font, cs, caret_x, last);
    let xs = spec_nowrap_positions(font, cs, caret_x, last);
    let c = cs[0];
    let g = font.spec_lookup(c);
    lemma_lookup_wf(font, c);
    let kerned_x = caret_x + (match last {
        Some(id) => {
            lemma_kern_bounded(font, id, g.id);
            font.spec_kern(id, g.id)
        },
        None => 0,
    });
    assert(xs[0] == kerned_x);
    assert(forall|i: int|
        0 <= i < cs.drop_first().len() ==> (#[trigger] cs.drop_first()[i]) == cs[i + 1]);
    if k == 0 {
        assert(spec_wrap_hit(font, cs, xs, wrap, 0));
        assert(g.has_bb && kerned_x + g.bb_max_x > wrap);
        let ny = caret_y + font.spec_advance_height();
        let (rest, fx, fy) = spec_shape_from(
            font,
            wrap,
            cs.drop_first(),
            g.advance as int,
            ny,
            None,
        );
        lemma_shape_len_no_controls(
            font,
            wrap,
            cs.drop_first(),
            g.advance as int,
            ny,
            None,
        );
        let placed = PlacedGlyph { ch: c, metrics: g, x: 0, y: ny as i64 };
        let glyphs = spec_shape_from(font, wrap, cs, caret_x, caret_y, last).0;
        assert(glyphs == seq![placed] + rest);
        lemma_cons_facts(glyphs, placed, rest);
        assert(0 <= ny <= 0x10_0000 + 0x30_0000 * (TEXT_LIMIT - cs.len()) + 0x30_0000);
        assert(glyphs[0] == placed);
        assert(glyphs[0].y as int == caret_y + font.spec_advance_height());
        assert(cs.drop_first() =~= cs.skip(1));
        assert(glyphs.skip(1) =~= rest);
    } else {
        assert(!spec_wrap_hit(font, cs, xs, wrap, 0));
        assert(!(g.has_bb && kerned_x + g.bb_max_x > wrap));
        let xs2 = spec_nowrap_positions(font, cs.drop_first(), kerned_x + g.advance, Some(g.id));
        assert(xs =~= seq![kerned_x] + xs2);
        assert(forall|i: int| 0 <= i < xs2.len() ==> #[trigger] xs2[i] == xs[i + 1]);
        assert forall|i: int| 0 <= i < k - 1 implies !spec_wrap_hit(
            font,
            cs.drop_first(),
            xs2,
            wrap,
            i,
        ) by {
            assert(!spec_wrap_hit(font, cs, xs, wrap, i + 1));
        }
        assert(spec_wrap_hit(font, cs.drop_first(), xs2, wrap, k - 1)) by {
            assert(spec_wrap_hit(font, cs, xs, wrap, k));
        }
        lemma_wrap_boundary(
            font,
            wrap,
            cs.drop_first(),
            kerned_x + g.advance,
            caret_y,
            Some(g.id),
            k - 1,
        );
        let (rest, fx, fy) = spec_shape_from(
            font,
            wrap,
            cs.drop_first(),
            kerned_x + g.advance,
            caret_y,
            Some(g.id),
        );
        let (glyphs, gx, gy) = spec_shape_from(font, wrap, cs, caret_x, caret_y, last);
        let placed = PlacedGlyph { ch: c, metrics: g, x: kerned_x as i64, y: caret_y as i64 };
        assert(glyphs == seq![placed] + rest);
        lemma_cons_facts(glyphs, placed, rest);
        assert(glyphs[0] == placed);
        assert(glyphs[0].x as int == xs[0]);
        assert(forall|i: int|
            1 <= i < k ==> (#[trigger] glyphs[i]).x as int == xs2[i - 1] && glyphs[i].y as int
                == caret_y);
        assert(forall|i: int|
            0 <= i < k ==> (#[trigger] glyphs[i]).x as int == xs[i] && glyphs[i].y as int
                == caret_y);
        assert(glyphs[k] == rest[k - 1]);
        assert(cs.drop_first()[k - 1] == cs[k]);
        assert(cs.drop_first().skip(k) =~= cs.skip(k + 1));
        assert(glyphs.skip(k + 1) =~= rest.skip(k));
    }
}

} // verus!
