//! The text label component: owns a shaping state and derives a renderable
//! vertex list from it, lazily, only when its content was edited.

use vstd::prelude::*;

use crate::component::Color;
use crate::component::Component;
use crate::component::Layout;
use crate::component::Vec2;
use crate::custom_event::UiEvent;
use crate::global::Global;
use crate::utils::cursor::spec_clamp_font_size;
use crate::utils::cursor::Cursor;
use crate::utils::glyph_cache::spec_flush;
use crate::utils::glyph_cache::AtlasRect;
use crate::utils::glyph_cache::GlyphKey;
use crate::utils::glyph_cache::clamp_atlas_dim;
use crate::utils::glyph_cache::QueuedGlyph;
use crate::utils::raw_text::spec_clamp_wrap;
use crate::utils::raw_text::spec_normalized;
use crate::utils::raw_text::spec_queue_of;
use crate::utils::raw_text::spec_render_info;
use crate::utils::raw_text::spec_shape;
use crate::utils::raw_text::FontRenderInfo;
use crate::utils::raw_text::FontMetrics;
use crate::utils::raw_text::PlacedGlyph;
use crate::utils::raw_text::RawText;
use crate::utils::raw_text::TEXT_LIMIT;

verus! {

/// A freshly constructed label against an environment: empty content at
/// the default font size, wrapping at the surface width, an empty atlas
/// sized to the surface, nothing shaped or pending, default style.
pub open spec fn spec_fresh_text(t: Text, global: Global) -> bool {
    &&& t.inner.content@ == Seq::<char>::empty()
    &&& t.inner.font_size == 24i64
    &&& t.inner.wrap_bound as int == spec_clamp_wrap(global.surface_size.x as int)
    &&& t.inner.cache.spec_width() == clamp_atlas_dim(global.surface_size.x as int)
    &&& t.inner.cache.spec_height() == clamp_atlas_dim(global.surface_size.y as int)
    &&& t.inner.cache.spec_entries() == Seq::<(GlyphKey, AtlasRect)>::empty()
    &&& t.inner.cache.spec_queued() == Seq::<QueuedGlyph>::empty()
    &&& t.inner.glyphs@ == Seq::<PlacedGlyph>::empty()
    &&& t.uploads@ == Seq::<(GlyphKey, AtlasRect)>::empty()
    &&& t.spec_vbo() is None
    &&& t.color == (Color { r: 0u8, g: 0u8, b: 0u8, a: 255u8 })
    &&& t.layout == (Layout {
        position: Vec2 { x: 0i64, y: 0i64 },
        size: Vec2 { x: 0i64, y: 0i64 },
    })
}

/// How one update tick transforms a label: the edited flag is consumed; a
/// label that was not edited only loses the flag; an edited one runs the
/// shaping pass — its glyphs, atlas, vertex list, pending uploads and
/// caret all follow the content, wrap bound and typeface exactly.
pub open spec fn spec_text_after_update(t0: Text, t1: Text, font: FontMetrics) -> bool {
    &&& !t1.inner_edited
    &&& (!t0.inner_edited ==> t1 == (Text { inner_edited: false, ..t0 }))
    &&& (t0.inner_edited ==> ({
        let shaped = spec_shape(
            font,
            t0.inner.wrap_bound as int,
            spec_normalized(t0.inner.content@),
        );
        let q = t0.inner.cache.spec_queued() + spec_queue_of(shaped.0, t0.inner.font_size);
        let (ents, cur, placed) = spec_flush(
            t0.inner.cache.spec_entries(),
            t0.inner.cache.spec_cursor(),
            t0.inner.cache.spec_width(),
            t0.inner.cache.spec_height(),
            q,
        );
        &&& t1.inner.glyphs@ == shaped.0
        &&& t1.inner.cache.spec_entries() == ents
        &&& t1.inner.cache.spec_cursor() == cur
        &&& t1.inner.cache.spec_queued() == Seq::<QueuedGlyph>::empty()
        &&& t1.inner.cache.spec_width() == t0.inner.cache.spec_width()
        &&& t1.inner.cache.spec_height() == t0.inner.cache.spec_height()
        &&& t1.spec_vbo() == Some(spec_render_info(t1.inner.cache, shaped.0, t0.inner.font_size))
        &&& t1.uploads@ == t0.uploads@ + placed
        &&& (t0.inner.cursor is Some <==> t1.inner.cursor is Some)
        &&& (t1.inner.cursor matches Some(c) ==> (t0.inner.cursor matches Some(c0) && c == (
        Cursor {
            local_position: Vec2 {
                x: shaped.1 as i64,
                y: (shaped.2 - font.ascent) as i64,
            },
            ..c0
        })))
        &&& t1.inner.content == t0.inner.content
        &&& t1.inner.font_size == t0.inner.font_size
        &&& t1.inner.wrap_bound == t0.inner.wrap_bound
        &&& t1.color == t0.color
        &&& t1.layout == t0.layout
    }))
}

/// How a layout assignment transforms a label: the rectangle is stored,
/// wrapping is bound to its width, the caret is laid out over the same
/// rectangle, and nothing else changes.
pub open spec fn spec_text_after_layout(t0: Text, t1: Text, layout: Layout) -> bool {
    &&& t1.layout == layout
    &&& t1.inner.wrap_bound as int == spec_clamp_wrap(layout.size.x as int)
    &&& (t0.inner.cursor is Some <==> t1.inner.cursor is Some)
    &&& (t1.inner.cursor matches Some(c) ==> (t0.inner.cursor matches Some(c0) && c == (Cursor {
        layout,
        ..c0
    })))
    &&& t1.inner == (RawText {
        wrap_bound: t1.inner.wrap_bound,
        cursor: t1.inner.cursor,
        ..t0.inner
    })
    &&& t1 == (Text { inner: t1.inner, layout, ..t0 })
}

/// A text label: the shaping state, an edited flag gating the rebuild, the
/// rebuilt vertex list, pixel blocks waiting to be uploaded, and style.
pub struct Text {
    pub inner: RawText,
    pub inner_edited: bool,
    pub vbo: Option<Vec<FontRenderInfo>>,
    pub uploads: Vec<(GlyphKey, AtlasRect)>,
    pub color: Color,
    pub layout: Layout,
}

impl Text {
    /// The rebuilt vertex list, if any.
    pub open spec fn spec_vbo(&self) -> Option<Seq<FontRenderInfo>> {
        match self.vbo {
            Some(ref v) => Some(v@),
            None => None,
        }
    }

    /// Wrap a shaping state into a label: black text, nothing rebuilt yet.
    pub fn from_raw_text(inner: RawText, _global: &Global) -> (r: Text)
        ensures
            r.inner == inner,
            !r.inner_edited,
            r.spec_vbo() is None,
            r.uploads@ == Seq::<(GlyphKey, AtlasRect)>::empty(),
            r.color == (Color { r: 0u8, g: 0u8, b: 0u8, a: 255u8 }),
            r.layout == (Layout {
                position: Vec2 { x: 0i64, y: 0i64 },
                size: Vec2 { x: 0i64, y: 0i64 },
            }),
    {
        Text {
            inner,
            inner_edited: false,
            vbo: None,
            uploads: Vec::new(),
            color: Color { r: 0, g: 0, b: 0, a: 255 },
            layout: Layout::default(),
        }
    }

    /// A fresh empty label, caching and wrapping at the surface extent.
    pub fn new(global: &Global) -> (r: Text)
        ensures
            r.wf(),
            spec_fresh_text(r, *global),
            r.inner.cursor is None,
            !r.inner_edited,
    {
        let inner = RawText::from_internal(global.surface_size.x, global.surface_size.y);
        Text::from_raw_text(inner, global)
    }

    /// A fresh empty label with a caret attached.
    pub fn new_cursored(global: &Global) -> (r: Text)
        ensures
            r.wf(),
            spec_fresh_text(r, *global),
            r.inner.cursor is Some,
            r.inner.cursor matches Some(c) ==> !c.visibility,
            !r.inner_edited,
    {
        let inner = RawText::from_internal(
            global.surface_size.x,
            global.surface_size.y,
        ).with_cursor(global);
        Text::from_raw_text(inner, global)
    }

    /// Show or hide the caret; reports whether one is attached.
    pub fn set_cursor_visibility(&mut self, visibility: bool) -> (r: bool)
        ensures
            r == (old(self).inner.cursor is Some),
            old(self).inner.cursor matches Some(c) ==> final(self).inner.cursor == Some(
                Cursor { visibility, ..c },
            ),
            old(self).inner.cursor is None ==> final(self).inner.cursor is None,
            final(self).inner == (RawText { cursor: final(self).inner.cursor, ..old(self).inner }),
            *final(self) == (Text { inner: final(self).inner, ..*old(self) }),
    {
        self.inner.set_cursor_visibility(visibility)
    }

    /// Set the font size, clamped into the supported range.
    pub fn set_font_size(&mut self, font_size: i64)
        ensures
            final(self).inner.font_size as int == spec_clamp_font_size(font_size as int),
            old(self).inner.cursor is Some <==> final(self).inner.cursor is Some,
            final(self).inner.cursor matches Some(c) ==> c.wf() && c.font_size
                == final(self).inner.font_size,
            final(self).inner == (RawText {
                font_size: final(self).inner.font_size,
                cursor: final(self).inner.cursor,
                ..old(self).inner
            }),
            *final(self) == (Text { inner: final(self).inner, ..*old(self) }),
    {
        self.inner.set_font_size(font_size);
    }

    /// The current content.
    pub fn content(&self) -> (r: &Vec<char>)
        ensures
            r == &self.inner.content,
    {
        &self.inner.content
    }

    /// Append one code point and mark the label edited; full content is
    /// left unchanged.
    pub fn push_char(&mut self, c: char)
        ensures
            final(self).inner.content@ == if old(self).inner.content@.len() < TEXT_LIMIT {
                old(self).inner.content@.push(c)
            } else {
                old(self).inner.content@
            },
            final(self).inner_edited,
            final(self).inner == (RawText {
                content: final(self).inner.content,
                ..old(self).inner
            }),
            *final(self) == (Text {
                inner: final(self).inner,
                inner_edited: true,
                ..*old(self)
            }),
    {
        self.inner_edited = true;
        self.inner.push_char(c);
    }

    /// Remove the last code point and mark the label edited; a no-op on
    /// empty content.
    pub fn pop_char(&mut self) -> (r: Option<char>)
        ensures
            final(self).inner.content@ == if old(self).inner.content@.len() > 0 {
                old(self).inner.content@.drop_last()
            } else {
                old(self).inner.content@
            },
            r == if old(self).inner.content@.len() > 0 {
                Some(old(self).inner.content@.last())
            } else {
                None::<char>
            },
            final(self).inner_edited,
            final(self).inner == (RawText {
                content: final(self).inner.content,
                ..old(self).inner
            }),
            *final(self) == (Text {
                inner: final(self).inner,
                inner_edited: true,
                ..*old(self)
            }),
    {
        self.inner_edited = true;
        self.inner.pop_char()
    }

    /// Replace the content and mark the label edited.
    pub fn set_content(&mut self, content: Vec<char>)
        requires
            content@.len() <= TEXT_LIMIT,
        ensures
            final(self).inner.content == content,
            final(self).inner_edited,
            final(self).inner == (RawText {
                content: final(self).inner.content,
                ..old(self).inner
            }),
            *final(self) == (Text {
                inner: final(self).inner,
                inner_edited: true,
                ..*old(self)
            }),
    {
        self.inner_edited = true;
        self.inner.set_content(content);
    }

    /// Ask for the renderable data to be rebuilt at the next update.
    pub fn request_redraw(&mut self)
        ensures
            *final(self) == (Text { inner_edited: true, ..*old(self) }),
    {
        self.inner_edited = true;
    }

    /// Rebuild the renderable data if the label was edited, consuming the
    /// flag: run the shaping pass, replace the vertex list atomically, and
    /// queue the newly placed atlas entries for upload.
    pub fn update_vbo(&mut self, global: &Global) -> (rebuilt: bool)
        requires
            old(self).wf(),
            global.wf(),
        ensures
            final(self).wf(),
            rebuilt == old(self).inner_edited,
            !final(self).inner_edited,
            !old(self).inner_edited ==> *final(self) == (Text {
                inner_edited: false,
                ..*old(self)
            }),
            old(self).inner_edited ==> ({
                let shaped = spec_shape(
                    global.font,
                    old(self).inner.wrap_bound as int,
                    spec_normalized(old(self).inner.content@),
                );
                let q = old(self).inner.cache.spec_queued() + spec_queue_of(
                    shaped.0,
                    old(self).inner.font_size,
                );
                let (ents, cur, placed) = spec_flush(
                    old(self).inner.cache.spec_entries(),
                    old(self).inner.cache.spec_cursor(),
                    old(self).inner.cache.spec_width(),
                    old(self).inner.cache.spec_height(),
                    q,
                );
                &&& final(self).inner.glyphs@ == shaped.0
                &&& final(self).inner.cache.spec_entries() == ents
                &&& final(self).inner.cache.spec_cursor() == cur
                &&& final(self).inner.cache.spec_queued() == Seq::<QueuedGlyph>::empty()
                &&& final(self).inner.cache.spec_width() == old(self).inner.cache.spec_width()
                &&& final(self).inner.cache.spec_height() == old(self).inner.cache.spec_height()
                &&& final(self).spec_vbo() == Some(
                    spec_render_info(
                        final(self).inner.cache,
                        shaped.0,
                        old(self).inner.font_size,
                    ),
                )
                &&& final(self).uploads@ == old(self).uploads@ + placed
                &&& (old(self).inner.cursor is Some <==> final(self).inner.cursor is Some)
                &&& final(self).inner.cursor matches Some(c) ==> (old(self).inner.cursor
                    matches Some(c0) && c == (Cursor {
                    local_position: Vec2 {
                        x: shaped.1 as i64,
                        y: (shaped.2 - global.font.ascent) as i64,
                    },
                    ..c0
                }))
                &&& final(self).inner.content == old(self).inner.content
                &&& final(self).inner.font_size == old(self).inner.font_size
                &&& final(self).inner.wrap_bound == old(self).inner.wrap_bound
                &&& final(self).color == old(self).color
                &&& final(self).layout == old(self).layout
            }),
    {
        if self.inner_edited {
            self.inner_edited = false;
            let mut placed = self.inner.update_cache(&global.font);
            let render_info = self.inner.to_font_render_info();
            self.vbo = Some(render_info);
            self.uploads.append(&mut placed);
            true
        } else {
            false
        }
    }

    /// Take the pixel blocks waiting to be uploaded, in placement order.
    pub fn take_uploads(&mut self) -> (r: Vec<(GlyphKey, AtlasRect)>)
        ensures
            r@ == old(self).uploads@,
            final(self).uploads@ == Seq::<(GlyphKey, AtlasRect)>::empty(),
            *final(self) == (Text { uploads: final(self).uploads, ..*old(self) }),
    {
        let mut taken: Vec<(GlyphKey, AtlasRect)> = Vec::new();
        core::mem::swap(&mut taken, &mut self.uploads);
        taken
    }
}

impl Component for Text {
    /// A label is well-formed when its shaping state is.
    open spec fn wf(&self) -> bool {
        self.inner.wf()
    }

    /// Labels ignore events; their owners edit them.
    open spec fn spec_after_event(self, post: Self, event: UiEvent, cursor: Vec2) -> bool {
        post == self
    }

    open spec fn spec_wants_redraw(self, event: UiEvent, cursor: Vec2) -> bool {
        false
    }

    open spec fn spec_after_update(self, post: Self, cursor: Vec2, font: FontMetrics) -> bool {
        spec_text_after_update(self, post, font)
    }

    open spec fn spec_update_wants_redraw(self) -> bool {
        self.inner_edited
    }

    open spec fn spec_after_layout(self, post: Self, layout: Layout) -> bool {
        spec_text_after_layout(self, post, layout)
    }

    fn handle_event(&mut self, _event: &UiEvent, _global: &mut Global) {
    }

    /// Rebuild the renderable data if edited, and flag the frame.
    fn update(&mut self, global: &mut Global) {
        let rebuilt = self.update_vbo(global);
        if rebuilt {
            global.request_redraw();
        }
    }

    /// Store the rectangle, bound wrapping to its width, and lay out the
    /// caret over the same rectangle.
    fn set_layout(&mut self, layout: Layout) {
        self.inner.set_wrap_bound(layout.size.x);
        self.layout = layout;
        let taken = self.inner.cursor.take();
        match taken {
            Some(mut c) => {
                c.set_layout(layout);
                self.inner.cursor = Some(c);
            },
            None => {},
        }
    }
}

} // verus!
