//! A rounded rectangle panel: the background of windows, inputs and
//! buttons. Its draw data is one corner quad over its own size, rebuilt
//! only when a redraw was requested.

use vstd::prelude::*;

use crate::component::Color;
use crate::component::Component;
use crate::component::Layout;
use crate::component::Vec2;
use crate::custom_event::UiEvent;
use crate::global::Global;
use crate::utils::raw_text::FontMetrics;

verus! {

/// The corner quad spanning a size: left-bottom, right-bottom, right-top,
/// left-top.
pub open spec fn spec_plane_quad(size: Vec2) -> Seq<Vec2> {
    seq![
        Vec2 { x: 0i64, y: 0i64 },
        Vec2 { x: size.x, y: 0i64 },
        Vec2 { x: size.x, y: size.y },
        Vec2 { x: 0i64, y: size.y },
    ]
}

/// How one update tick transforms a panel: the redraw request is
/// consumed, the quad is rebuilt over the panel's size exactly when one
/// stood, and nothing else changes.
pub open spec fn spec_plane_after_update(p0: Plane, p1: Plane) -> bool {
    &&& !p1.should_redraw
    &&& p1.spec_vbo() == if p0.should_redraw {
        Some(spec_plane_quad(p0.layout.size))
    } else {
        p0.spec_vbo()
    }
    &&& p1 == (Plane { should_redraw: false, vbo: p1.vbo, ..p0 })
}

/// The panel: geometry and style, a dirty flag, and the rebuilt quad.
pub struct Plane {
    pub layout: Layout,
    pub color: Color,
    pub round_radius: i64,
    pub should_redraw: bool,
    pub vbo: Option<Vec<Vec2>>,
}

impl Plane {
    /// Whether the quad will be rebuilt at the next update.
    pub open spec fn spec_should_redraw(&self) -> bool {
        self.should_redraw
    }

    /// The rebuilt corner quad, if any.
    pub open spec fn spec_vbo(&self) -> Option<Seq<Vec2>> {
        match self.vbo {
            Some(ref v) => Some(v@),
            None => None,
        }
    }

    /// A fresh panel: light grey, generous rounding, marked for rebuild.
    pub fn new(_global: &Global) -> (r: Plane)
        ensures
            r.layout == (Layout {
                position: Vec2 { x: 0i64, y: 0i64 },
                size: Vec2 { x: 0i64, y: 0i64 },
            }),
            r.color == (Color { r: 204u8, g: 204u8, b: 204u8, a: 204u8 }),
            r.round_radius == 10i64,
            r.spec_should_redraw(),
            r.spec_vbo() is None,
    {
        Plane {
            layout: Layout::default(),
            color: Color { r: 204, g: 204, b: 204, a: 204 },
            round_radius: 10,
            should_redraw: true,
            vbo: None,
        }
    }

    /// Rebuild the corner quad over the current size, but only when a
    /// redraw was requested; consuming the request.
    pub fn update_vbo(&mut self) -> (rebuilt: bool)
        ensures
            rebuilt == old(self).spec_should_redraw(),
            !final(self).spec_should_redraw(),
            final(self).spec_vbo() == if old(self).spec_should_redraw() {
                Some(spec_plane_quad(old(self).layout.size))
            } else {
                old(self).spec_vbo()
            },
            *final(self) == (Plane {
                should_redraw: final(self).should_redraw,
                vbo: final(self).vbo,
                ..*old(self)
            }),
    {
        if self.should_redraw {
            self.should_redraw = false;
            let mut quad: Vec<Vec2> = Vec::new();
            quad.push(Vec2 { x: 0, y: 0 });
            quad.push(Vec2 { x: self.layout.size.x, y: 0 });
            quad.push(Vec2 { x: self.layout.size.x, y: self.layout.size.y });
            quad.push(Vec2 { x: 0, y: self.layout.size.y });
            proof {
                assert(quad@ =~= spec_plane_quad(old(self).layout.size));
            }
            self.vbo = Some(quad);
            true
        } else {
            false
        }
    }

    /// Ask for the quad to be rebuilt at the next update.
    pub fn request_redraw(&mut self)
        ensures
            final(self).spec_should_redraw(),
            *final(self) == (Plane { should_redraw: true, ..*old(self) }),
    {
        self.should_redraw = true;
    }

    /// The rebuilt quad, for the layer that draws it.
    pub fn vbo(&self) -> (r: &Option<Vec<Vec2>>)
        ensures
            r is Some <==> self.spec_vbo() is Some,
            r matches Some(v) ==> Some(v@) == self.spec_vbo(),
    {
        &self.vbo
    }
}

/// One update tick, restated in the protocol's transition terms.
proof fn lemma_plane_update_bridge(p0: Plane, p1: Plane, cursor: Vec2, font: FontMetrics)
    requires
        spec_plane_after_update(p0, p1),
    ensures
        p0.spec_after_update(p1, cursor, font),
        p1.wf(),
        p0.spec_update_wants_redraw() == p0.should_redraw,
{
}

impl Component for Plane {
    /// Panels carry no internal invariant.
    open spec fn wf(&self) -> bool {
        true
    }

    /// Panels ignore events.
    open spec fn spec_after_event(self, post: Self, event: UiEvent, cursor: Vec2) -> bool {
        post == self
    }

    open spec fn spec_wants_redraw(self, event: UiEvent, cursor: Vec2) -> bool {
        false
    }

    open spec fn spec_after_update(self, post: Self, cursor: Vec2, font: FontMetrics) -> bool {
        spec_plane_after_update(self, post)
    }

    open spec fn spec_update_wants_redraw(self) -> bool {
        self.should_redraw
    }

    /// Panels just store the assigned rectangle.
    open spec fn spec_after_layout(self, post: Self, layout: Layout) -> bool {
        post == (Plane { layout, ..self })
    }

    fn handle_event(&mut self, _event: &UiEvent, _global: &mut Global) {
    }

    /// Rebuild the quad if a redraw was requested, and flag the frame.
    fn update(&mut self, global: &mut Global) {
        let rebuilt = self.update_vbo();
        if rebuilt {
            global.request_redraw();
        }
        proof {
            lemma_plane_update_bridge(
                *old(self),
                *self,
                old(global).spec_cursor_position(),
                old(global).font,
            );
        }
    }

    fn set_layout(&mut self, layout: Layout) {
        self.layout = layout;
    }
}

} // verus!
