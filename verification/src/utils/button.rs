//! The button component: a labelled rounded panel with a pressed visual
//! flag. A press while the pointer hovers the button registers one click
//! and shows it pressed; any release shows it released.

use vstd::prelude::*;

use crate::component::make_layout;
use crate::component::spec_make_layout;
use crate::component::Component;
use crate::component::Layout;
use crate::component::Vec2;
use crate::custom_event::UiEvent;
use crate::global::Global;
use crate::utils::cursor::spec_clamp_font_size;
use crate::utils::plane::spec_plane_quad;
use crate::utils::raw_text::FontMetrics;
use crate::utils::text::spec_fresh_text;
use crate::utils::text::spec_text_after_layout;
use crate::utils::text::spec_text_after_update;
use crate::utils::text::Text;

verus! {

/// Inset of the label inside the button's rectangle.
pub const BUTTON_FRAME_WIDTH: i64 = 3;

/// How one event transforms a button: a press while the pointer hovers it
/// registers one click and shows it pressed; any release shows it
/// released; everything else is ignored.
pub open spec fn spec_button_after_event(b0: Button, b1: Button, event: UiEvent, cursor: Vec2) -> bool {
    match event {
        UiEvent::PointerPressed => {
            if b0.layout.spec_contains(cursor) {
                &&& b1.clicks == if b0.clicks < u64::MAX {
                    b0.clicks + 1
                } else {
                    b0.clicks as int
                }
                &&& b1 == (Button { pressed: true, clicks: b1.clicks, ..b0 })
            } else {
                b1 == b0
            }
        },
        UiEvent::PointerReleased => b1 == (Button { pressed: false, ..b0 }),
        _ => b1 == b0,
    }
}

/// Whether an event makes the button signal a redraw: a hovered press or
/// any release.
pub open spec fn spec_button_wants_redraw(b0: Button, event: UiEvent, cursor: Vec2) -> bool {
    ||| (event is PointerPressed && b0.layout.spec_contains(cursor))
    ||| event is PointerReleased
}

/// How one update tick transforms a button: the redraw request is
/// consumed, the quad is rebuilt over the button's size exactly when one
/// stood, and the label advances by its own update transition.
pub open spec fn spec_button_after_update(b0: Button, b1: Button, font: FontMetrics) -> bool {
    &&& !b1.should_redraw
    &&& b1.spec_vbo() == if b0.should_redraw {
        Some(spec_plane_quad(b0.layout.size))
    } else {
        b0.spec_vbo()
    }
    &&& spec_text_after_update(b0.text, b1.text, font)
    &&& b1 == (Button {
        text: b1.text,
        vbo: b1.vbo,
        should_redraw: false,
        ..b0
    })
}

/// How a layout assignment transforms a button: it stores its rectangle
/// clamped into the coordinate band and insets its label by the frame
/// width; everything else stands.
pub open spec fn spec_button_after_layout(b0: Button, b1: Button, layout: Layout) -> bool {
    let lay = spec_make_layout(
        layout.position.x as int,
        layout.position.y as int,
        layout.size.x as int,
        layout.size.y as int,
    );
    let text_layout = spec_make_layout(
        lay.position.x + BUTTON_FRAME_WIDTH,
        lay.position.y + BUTTON_FRAME_WIDTH,
        lay.size.x - 2 * BUTTON_FRAME_WIDTH,
        lay.size.y - 2 * BUTTON_FRAME_WIDTH,
    );
    &&& b1.layout == lay
    &&& spec_text_after_layout(b0.text, b1.text, text_layout)
    &&& b1 == (Button { layout: lay, text: b1.text, ..b0 })
}

/// The button: a label, geometry and style, the pressed flag, a click
/// counter standing in for the click callback, and the rebuilt quad.
pub struct Button {
    pub text: Text,
    pub layout: Layout,
    pub visibility: bool,
    pub round_radius: i64,
    pub clicks: u64,
    pub pressed: bool,
    pub should_redraw: bool,
    pub vbo: Option<Vec<Vec2>>,
}

impl Button {
    /// The rebuilt corner quad, if any.
    pub open spec fn spec_vbo(&self) -> Option<Seq<Vec2>> {
        match self.vbo {
            Some(ref v) => Some(v@),
            None => None,
        }
    }

    /// A fresh button: visible, unpressed, no clicks registered yet.
    pub fn new(global: &Global) -> (r: Button)
        requires
            global.wf(),
        ensures
            r.wf(),
            spec_fresh_text(r.text, *global),
            r.text.inner.cursor is None,
            !r.text.inner_edited,
            r.layout == (Layout {
                position: Vec2 { x: 0i64, y: 0i64 },
                size: Vec2 { x: 0i64, y: 0i64 },
            }),
            r.visibility,
            r.round_radius == 10i64,
            r.clicks == 0u64,
            !r.pressed,
            r.should_redraw,
            r.spec_vbo() is None,
    {
        Button {
            text: Text::new(global),
            layout: Layout::default(),
            visibility: true,
            round_radius: 10,
            clicks: 0,
            pressed: false,
            should_redraw: true,
            vbo: None,
        }
    }

    /// Set the label's font size, clamped into the supported range.
    pub fn set_font_size(&mut self, font_size: i64)
        ensures
            final(self).text.inner.font_size as int == spec_clamp_font_size(font_size as int),
            final(self).text.inner.content == old(self).text.inner.content,
            old(self).wf() ==> final(self).wf(),
            *final(self) == (Button { text: final(self).text, ..*old(self) }),
    {
        self.text.set_font_size(font_size);
    }

    /// Rebuild the corner quad over the current size, but only when a
    /// redraw was requested; consuming the request.
    pub fn update_vbo(&mut self)
        ensures
            !final(self).should_redraw,
            final(self).spec_vbo() == if old(self).should_redraw {
                Some(spec_plane_quad(old(self).layout.size))
            } else {
                old(self).spec_vbo()
            },
            *final(self) == (Button {
                vbo: final(self).vbo,
                should_redraw: false,
                ..*old(self)
            }),
    {
        if !self.should_redraw {
            return ;
        }
        self.should_redraw = false;
        let mut quad: Vec<Vec2> = Vec::new();
        quad.push(Vec2 { x: 0, y: 0 });
        quad.push(Vec2 { x: self.layout.size.x, y: 0 });
        quad.push(Vec2 { x: self.layout.size.x, y: self.layout.size.y });
        quad.push(Vec2 { x: 0, y: self.layout.size.y });
        proof {
            assert(quad@ =~= spec_plane_quad(old(self).layout.size));
        }
        self.vbo = Some(quad);
    }

    /// Whether the pointer is over the button.
    fn is_cursor_hovering(&self, global: &Global) -> (r: bool)
        ensures
            r == self.layout.spec_contains(global.spec_cursor_position()),
    {
        self.layout.contains(&global.cursor_position())
    }
}

impl Component for Button {
    /// A button is well-formed when its label is.
    open spec fn wf(&self) -> bool {
        self.text.wf()
    }

    /// A press while hovering registers one click and shows the button
    /// pressed; any release shows it released.
    open spec fn spec_after_event(self, post: Self, event: UiEvent, cursor: Vec2) -> bool {
        spec_button_after_event(self, post, event, cursor)
    }

    /// A hovered press or any release signals a redraw.
    open spec fn spec_wants_redraw(self, event: UiEvent, cursor: Vec2) -> bool {
        spec_button_wants_redraw(self, event, cursor)
    }

    open spec fn spec_after_update(self, post: Self, cursor: Vec2, font: FontMetrics) -> bool {
        spec_button_after_update(self, post, font)
    }

    open spec fn spec_update_wants_redraw(self) -> bool {
        self.text.inner_edited
    }

    open spec fn spec_after_layout(self, post: Self, layout: Layout) -> bool {
        spec_button_after_layout(self, post, layout)
    }

    fn handle_event(&mut self, event: &UiEvent, global: &mut Global) {
        match event {
            UiEvent::PointerPressed => {
                if self.is_cursor_hovering(global) {
                    if self.clicks < u64::MAX {
                        self.clicks = self.clicks + 1;
                    }
                    self.pressed = true;
                    global.request_redraw();
                }
            },
            UiEvent::PointerReleased => {
                self.pressed = false;
                global.request_redraw();
            },
            _ => {},
        }
    }

    /// Rebuild the quad and update the label.
    fn update(&mut self, global: &mut Global) {
        self.update_vbo();
        self.text.update(global);
    }

    /// The button stores its rectangle (clamped into the coordinate band)
    /// and insets its label by the frame width.
    fn set_layout(&mut self, layout: Layout) {
        let lay = make_layout(layout.position.x, layout.position.y, layout.size.x, layout.size.y);
        self.layout = lay;
        let text_layout = make_layout(
            lay.position.x + BUTTON_FRAME_WIDTH,
            lay.position.y + BUTTON_FRAME_WIDTH,
            lay.size.x - 2 * BUTTON_FRAME_WIDTH,
            lay.size.y - 2 * BUTTON_FRAME_WIDTH,
        );
        self.text.set_layout(text_layout);
    }
}

} // verus!
