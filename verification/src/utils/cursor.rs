//! The caret sub-component: a thin line or box drawn after the last placed
//! glyph of a text, at a local offset the shaping pass recomputes.

use vstd::prelude::*;

use crate::component::Color;
use crate::component::Component;
use crate::component::Layout;
use crate::component::Vec2;
use crate::custom_event::UiEvent;
use crate::global::Global;
use crate::utils::raw_text::FontMetrics;
use crate::utils::raw_text::METRIC_LIMIT;

verus! {

/// How the caret is drawn.
#[derive(Clone, Copy, PartialEq, Eq, Structural, Debug)]
pub enum CursorShape {
    Line,
    Box,
}

/// The corner quad of a caret of the given font size: three quarters of the
/// size wide, the full size tall.
pub open spec fn spec_cursor_quad(font_size: int) -> Seq<Vec2> {
    let right = (font_size * 3 / 4) as i64;
    let up = font_size as i64;
    seq![
        Vec2 { x: 0i64, y: 0i64 },
        Vec2 { x: right, y: 0i64 },
        Vec2 { x: right, y: up },
        Vec2 { x: 0i64, y: up },
    ]
}

/// Clamp a font size into the supported pixel range.
pub open spec fn spec_clamp_font_size(x: int) -> int {
    if x < 1 {
        1
    } else if x > METRIC_LIMIT {
        METRIC_LIMIT as int
    } else {
        x
    }
}

pub fn clamp_font_size(x: i64) -> (r: i64)
    ensures
        r as int == spec_clamp_font_size(x as int),
{
    if x < 1 {
        1
    } else if x > METRIC_LIMIT {
        METRIC_LIMIT
    } else {
        x
    }
}

/// The caret: visibility, shape, font size, and the local offset relative
/// to the owning text's origin, plus the rebuilt corner quad.
pub struct Cursor {
    pub shape: CursorShape,
    pub font_size: i64,
    pub local_position: Vec2,
    pub color: Color,
    pub layout: Layout,
    pub visibility: bool,
    pub vbo: Option<Vec<Vec2>>,
}

impl Cursor {
    /// The rebuilt corner quad, if any.
    pub open spec fn spec_vbo(&self) -> Option<Seq<Vec2>> {
        match self.vbo {
            Some(ref v) => Some(v@),
            None => None,
        }
    }

    /// A fresh caret: a line shape at the default font size, invisible, at
    /// the text origin, with no quad built yet.
    pub fn new(_global: &Global) -> (r: Cursor)
        ensures
            r.wf(),
            r.shape == CursorShape::Line,
            r.font_size == 24i64,
            r.local_position == (Vec2 { x: 0i64, y: 0i64 }),
            r.color == (Color { r: 0u8, g: 0u8, b: 0u8, a: 255u8 }),
            r.visibility == false,
            r.layout == (Layout {
                position: Vec2 { x: 0i64, y: 0i64 },
                size: Vec2 { x: 0i64, y: 0i64 },
            }),
            r.spec_vbo() is None,
    {
        Cursor {
            shape: CursorShape::Line,
            font_size: 24,
            local_position: Vec2 { x: 0, y: 0 },
            color: Color { r: 0, g: 0, b: 0, a: 255 },
            layout: Layout::default(),
            visibility: false,
            vbo: None,
        }
    }

    /// Change the font size (clamped into the supported range) and rebuild
    /// the quad for it.
    pub fn set_font_size(&mut self, font_size: i64)
        ensures
            final(self).wf(),
            final(self).font_size as int == spec_clamp_font_size(font_size as int),
            final(self).spec_vbo() == Some(spec_cursor_quad(final(self).font_size as int)),
            *final(self) == (Cursor {
                font_size: final(self).font_size,
                vbo: final(self).vbo,
                ..*old(self)
            }),
    {
        self.font_size = clamp_font_size(font_size);
        self.update_vbo();
    }

    /// Rebuild the caret's corner quad from its font size.
    pub fn update_vbo(&mut self)
        requires
            old(self).wf(),
        ensures
            final(self).spec_vbo() == Some(spec_cursor_quad(old(self).font_size as int)),
            *final(self) == (Cursor { vbo: final(self).vbo, ..*old(self) }),
    {
        let right = self.font_size * 3 / 4;
        let up = self.font_size;
        let mut quad: Vec<Vec2> = Vec::new();
        quad.push(Vec2 { x: 0, y: 0 });
        quad.push(Vec2 { x: right, y: 0 });
        quad.push(Vec2 { x: right, y: up });
        quad.push(Vec2 { x: 0, y: up });
        proof {
            assert(quad@ =~= spec_cursor_quad(old(self).font_size as int));
        }
        self.vbo = Some(quad);
    }

    /// The rebuilt quad, for the layer that draws it.
    pub fn vbo(&self) -> (r: &Option<Vec<Vec2>>)
        ensures
            r is Some <==> self.spec_vbo() is Some,
            r matches Some(v) ==> Some(v@) == self.spec_vbo(),
    {
        &self.vbo
    }
}

impl Component for Cursor {
    /// The font size stays in the supported pixel range.
    open spec fn wf(&self) -> bool {
        1 <= self.font_size <= METRIC_LIMIT
    }

    /// The caret ignores events; its owner repositions it.
    open spec fn spec_after_event(self, post: Self, event: UiEvent, cursor: Vec2) -> bool {
        post == self
    }

    open spec fn spec_wants_redraw(self, event: UiEvent, cursor: Vec2) -> bool {
        false
    }

    open spec fn spec_after_update(self, post: Self, cursor: Vec2, font: FontMetrics) -> bool {
        post == self
    }

    open spec fn spec_update_wants_redraw(self) -> bool {
        false
    }

    /// The caret only stores its layout; the quad is in local coordinates.
    open spec fn spec_after_layout(self, post: Self, layout: Layout) -> bool {
        post == (Cursor { layout, ..self })
    }

    fn handle_event(&mut self, _event: &UiEvent, _global: &mut Global) {
    }

    fn update(&mut self, _global: &mut Global) {
    }

    fn set_layout(&mut self, layout: Layout) {
        self.layout = layout;
    }
}

} // verus!
