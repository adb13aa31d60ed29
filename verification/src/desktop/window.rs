//! The window: chrome (title bar and background) around one hosted
//! application, with drag-to-move.
//!
//! The title bar and the application body are always recomputed from the
//! window's one outer rectangle, never stored independently. Dragging is
//! anchored at the pointer: each update tick translates the window by the
//! pointer's movement since the anchor and re-anchors, so movement
//! accumulates without loss or double counting.

use vstd::prelude::*;

use crate::component::make_layout;
use crate::component::COORD_LIMIT;
use crate::component::spec_make_layout;
use crate::component::Component;
use crate::component::Color;
use crate::component::Layout;
use crate::component::Vec2;
use crate::custom_event::UiEvent;
use crate::desktop::application::Application;
use crate::desktop::window_manager::WindowId;
use crate::global::Global;
use crate::utils::plane::Plane;
use crate::utils::raw_text::FontMetrics;
use crate::utils::text::spec_text_after_layout;
use crate::utils::text::Text;

verus! {

/// Height of the title bar strip, in logical units.
pub const TITLE_HEIGHT: i64 = 16;

/// Inset of the chrome inside the window's rectangle.
pub const FRAME_WIDTH: i64 = 5;

/// A window's outer rectangle as stored: clamped into the coordinate band.
pub open spec fn spec_clamp_layout(outer: Layout) -> Layout {
    spec_make_layout(
        outer.position.x as int,
        outer.position.y as int,
        outer.size.x as int,
        outer.size.y as int,
    )
}

/// The title bar: a strip of the title height at the top, inset by the
/// frame width on both sides.
pub open spec fn spec_title_layout(outer: Layout) -> Layout {
    spec_make_layout(
        outer.position.x + FRAME_WIDTH,
        outer.position.y + FRAME_WIDTH,
        outer.size.x - 2 * FRAME_WIDTH,
        TITLE_HEIGHT as int,
    )
}

/// The application body: the remaining area below the title bar, inset by
/// the frame width.
pub open spec fn spec_app_layout(outer: Layout) -> Layout {
    spec_make_layout(
        outer.position.x + FRAME_WIDTH,
        outer.position.y + TITLE_HEIGHT + 2 * FRAME_WIDTH,
        outer.size.x - 2 * FRAME_WIDTH,
        outer.size.y - TITLE_HEIGHT - 3 * FRAME_WIDTH,
    )
}

/// Window layout is deterministic in the outer rectangle and idempotent:
/// reassigning a stored (clamped) rectangle changes nothing, so the
/// title-bar and body sub-rectangles come out identical.
pub proof fn lemma_window_layout_idempotent(outer: Layout)
    ensures
        spec_clamp_layout(spec_clamp_layout(outer)) == spec_clamp_layout(outer),
        spec_title_layout(spec_clamp_layout(spec_clamp_layout(outer))) == spec_title_layout(
            spec_clamp_layout(outer),
        ),
        spec_app_layout(spec_clamp_layout(spec_clamp_layout(outer))) == spec_app_layout(
            spec_clamp_layout(outer),
        ),
{
}

/// One drag tick along one axis: the position moves by the pointer's
/// offset from the anchor, and the pointer becomes the new anchor.
pub open spec fn spec_drag_positions(init: int, anchor: int, ps: Seq<int>) -> int
    decreases ps.len(),
{
    if ps.len() == 0 {
        init
    } else {
        spec_drag_positions(init + (ps[0] - anchor), ps[0], ps.drop_first())
    }
}

/// The drag invariant: after any run of pointer positions, incremental
/// anchoring lands the window at its initial position plus the total
/// pointer movement — the sum of the per-tick deltas telescopes to the
/// last pointer position minus the first anchor, regardless of how many
/// ticks delivered it.
pub proof fn lemma_drag_accumulates(init: int, anchor: int, ps: Seq<int>)
    requires
        ps.len() > 0,
    ensures
        spec_drag_positions(init, anchor, ps) == init + (ps.last() - anchor),
    decreases ps.len(),
{
    reveal_with_fuel(spec_drag_positions, 3);
    if ps.len() == 1 {
    } else {
        lemma_drag_accumulates(init + (ps[0] - anchor), ps[0], ps.drop_first());
        assert(ps.drop_first().last() == ps.last());
    }
}

/// A run of drag ticks over a window's rectangle and anchor: each tick is
/// exactly the layout-and-anchor step of the update transition — the
/// rectangle translates by the pointer's offset from the anchor (clamped
/// into the coordinate band) and the pointer becomes the new anchor.
pub open spec fn spec_drag_run(layout: Layout, anchor: Vec2, ps: Seq<Vec2>) -> (Layout, Vec2)
    decreases ps.len(),
{
    if ps.len() == 0 {
        (layout, anchor)
    } else {
        let moved = spec_clamp_layout(
            Layout {
                position: Vec2 {
                    x: (layout.position.x + (ps[0].x - anchor.x)) as i64,
                    y: (layout.position.y + (ps[0].y - anchor.y)) as i64,
                },
                size: layout.size,
            },
        );
        spec_drag_run(moved, ps[0], ps.drop_first())
    }
}

/// The drag invariant over whole runs: for any number of ticks and any
/// split of the motion into ticks, as long as every intermediate position
/// stays inside the coordinate band (so clamping is exact), the window
/// lands at its initial position plus the total pointer movement, and the
/// anchor at the last pointer position.
pub proof fn lemma_drag_run_accumulates(layout: Layout, anchor: Vec2, ps: Seq<Vec2>)
    requires
        layout.wf(),
        ps.len() > 0,
        forall|j: int| 0 <= j < ps.len() ==> (#[trigger] ps[j]).wf(),
        forall|j: int|
            0 <= j < ps.len() ==> {
                let p = #[trigger] ps[j];
                &&& -COORD_LIMIT <= layout.position.x + (p.x - anchor.x) <= COORD_LIMIT
                &&& -COORD_LIMIT <= layout.position.y + (p.y - anchor.y) <= COORD_LIMIT
            },
        anchor.wf(),
    ensures
        ({
            let (done, last_anchor) = spec_drag_run(layout, anchor, ps);
            &&& done.position.x == layout.position.x + (ps.last().x - anchor.x)
            &&& done.position.y == layout.position.y + (ps.last().y - anchor.y)
            &&& done.size == layout.size
            &&& last_anchor == ps.last()
        }),
    decreases ps.len(),
{
    reveal_with_fuel(spec_drag_run, 3);
    let moved = spec_clamp_layout(
        Layout {
            position: Vec2 {
                x: (layout.position.x + (ps[0].x - anchor.x)) as i64,
                y: (layout.position.y + (ps[0].y - anchor.y)) as i64,
            },
            size: layout.size,
        },
    );
    assert(moved.position.x == layout.position.x + (ps[0].x - anchor.x));
    assert(moved.position.y == layout.position.y + (ps[0].y - anchor.y));
    if ps.len() == 1 {
    } else {
        assert(forall|j: int|
            0 <= j < ps.drop_first().len() ==> (#[trigger] ps.drop_first()[j]) == ps[j + 1]);
        lemma_drag_run_accumulates(moved, ps[0], ps.drop_first());
        assert(ps.drop_first().last() == ps.last());
    }
}

/// The window: its identity, the hosted application, the title label, the
/// background panel, the outer rectangle, and the drag anchor (the pointer
/// position while a drag is active).
pub struct Window<A: Application> {
    pub id: WindowId,
    pub app: A,
    pub title_text: Text,
    pub background: Plane,
    pub layout: Layout,
    /// The body rectangle most recently pushed to the hosted application.
    pub app_layout: Layout,
    pub dragging_state: Option<Vec2>,
}

/// How one event transforms a window: the drag state machine advances
/// (press inside the title bar anchors at the pointer, any release ends
/// the drag), the chrome is untouched, and the hosted application advances
/// by its own event transition — the event provably reaches it.
pub open spec fn spec_window_after_event<A: Application>(
    w0: Window<A>,
    w1: Window<A>,
    event: UiEvent,
    cursor: Vec2,
) -> bool {
    &&& w0.app.spec_after_event(w1.app, event, cursor)
    &&& w1.id == w0.id
    &&& w1.layout == w0.layout
    &&& w1.title_text == w0.title_text
    &&& w1.background == w0.background
    &&& w1.app_layout == w0.app_layout
    &&& w1.dragging_state == match event {
        UiEvent::PointerPressed => {
            if w0.title_text.layout.spec_contains(cursor) {
                Some(cursor)
            } else {
                w0.dragging_state
            }
        },
        UiEvent::PointerReleased => None::<Vec2>,
        _ => w0.dragging_state,
    }
}

/// Whether an event makes a window signal a redraw: only through its
/// hosted application — the window's own event handling never does.
pub open spec fn spec_window_wants_redraw<A: Application>(
    w0: Window<A>,
    event: UiEvent,
    cursor: Vec2,
) -> bool {
    w0.app.spec_wants_redraw(event, cursor)
}

/// Whether an update tick makes a window signal a redraw: an active drag
/// always does; otherwise its chrome's dirty flags or the application do.
pub open spec fn spec_window_update_wants_redraw<A: Application>(w0: Window<A>) -> bool {
    ||| w0.dragging_state is Some
    ||| w0.background.should_redraw
    ||| w0.title_text.inner_edited
    ||| w0.app.spec_update_wants_redraw()
}

/// How one update tick transforms a window: while a drag is anchored, the
/// window translates by the pointer's movement since the anchor and
/// re-anchors at the pointer; otherwise its geometry stands still.
pub open spec fn spec_window_after_update<A: Application>(
    w0: Window<A>,
    w1: Window<A>,
    cursor: Vec2,
    font: FontMetrics,
) -> bool {
    &&& w1.id == w0.id
    &&& w1.title_text.inner.content == w0.title_text.inner.content
    &&& !w1.title_text.inner_edited
    &&& !w1.background.should_redraw
    &&& match w0.dragging_state {
        Some(anchor) => {
            &&& w1.layout == spec_clamp_layout(
                Layout {
                    position: Vec2 {
                        x: (w0.layout.position.x + (cursor.x - anchor.x)) as i64,
                        y: (w0.layout.position.y + (cursor.y - anchor.y)) as i64,
                    },
                    size: w0.layout.size,
                },
            )
            &&& w1.dragging_state == Some(cursor)
            &&& w1.title_text.layout == spec_title_layout(w1.layout)
            &&& w1.background.layout == w1.layout
            &&& w1.app_layout == spec_app_layout(w1.layout)
            &&& exists|mid: A|
                #[trigger] w0.app.spec_after_layout(mid, spec_app_layout(w1.layout))
                    && mid.spec_after_update(w1.app, cursor, font)
        },
        None => {
            &&& w1.layout == w0.layout
            &&& w1.dragging_state is None
            &&& w1.title_text.layout == w0.title_text.layout
            &&& w1.app_layout == w0.app_layout
            &&& w0.app.spec_after_update(w1.app, cursor, font)
        },
    }
}

/// How a layout assignment transforms a window: the outer rectangle is
/// stored clamped into the coordinate band, the background receives it
/// whole, the title label receives the title strip (binding its wrapping
/// to the strip's width), and the hosted application receives the body
/// rectangle — by its own layout transition, so the rectangle provably
/// reaches it.
pub open spec fn spec_window_after_layout<A: Application>(
    w0: Window<A>,
    w1: Window<A>,
    layout: Layout,
) -> bool {
    let lay = spec_clamp_layout(layout);
    &&& w1.id == w0.id
    &&& w1.layout == lay
    &&& w1.background == (Plane { layout: lay, ..w0.background })
    &&& spec_text_after_layout(w0.title_text, w1.title_text, spec_title_layout(lay))
    &&& w1.app_layout == spec_app_layout(lay)
    &&& w0.app.spec_after_layout(w1.app, spec_app_layout(lay))
    &&& w1.dragging_state == w0.dragging_state
}

fn copy_chars(src: &Vec<char>) -> (r: Vec<char>)
    ensures
        r@ == src@,
{
    let mut r: Vec<char> = Vec::new();
    let mut i: usize = 0;
    while i < src.len()
        invariant
            0 <= i <= src@.len(),
            r@ == src@.take(i as int),
        decreases src@.len() - i,
    {
        r.push(src[i]);
        proof {
            assert(src@.take(i as int).push(src@[i as int]) =~= src@.take(i as int + 1));
        }
        i = i + 1;
    }
    proof {
        assert(src@.take(src@.len() as int) =~= src@);
    }
    r
}

impl<A: Application> Window<A> {
    /// Build a window around an application: the title label carries the
    /// application's title at the title-bar height, and the window starts
    /// at its default rectangle.
    pub fn new(id: WindowId, app: A, global: &Global) -> (r: Window<A>)
        requires
            app.wf(),
            global.wf(),
        ensures
            r.wf(),
            r.id == id,
            r.title_text.inner.content@ == app.title_spec(),
            r.layout == spec_clamp_layout(
                Layout { position: Vec2 { x: 50i64, y: 50i64 }, size: Vec2 { x: 200i64, y: 480i64 } },
            ),
            r.title_text.layout == spec_title_layout(r.layout),
            r.background.layout == r.layout,
            r.app_layout == spec_app_layout(r.layout),
            app.spec_after_layout(r.app, spec_app_layout(r.layout)),
            r.dragging_state is None,
    {
        let title = copy_chars(app.get_app_info().title.borrow());
        let mut title_text = Text::new(global);
        title_text.set_font_size(TITLE_HEIGHT);
        title_text.color = Color { r: 102, g: 178, b: 229, a: 255 };
        title_text.set_content(title);

        let mut background = Plane::new(global);
        background.color = Color { r: 51, g: 51, b: 51, a: 255 };
        background.round_radius = 3;

        let mut window = Window {
            id,
            app,
            title_text,
            background,
            layout: Layout::default(),
            app_layout: Layout::default(),
            dragging_state: None,
        };
        window.set_layout(
            Layout { position: Vec2 { x: 50, y: 50 }, size: Vec2 { x: 200, y: 480 } },
        );
        window
    }
}

impl<A: Application> Component for Window<A> {
    /// A window is well-formed when its chrome and application are, its
    /// stored rectangle sits in the coordinate band, and any drag anchor
    /// does too.
    open spec fn wf(&self) -> bool {
        &&& self.title_text.wf()
        &&& self.app.wf()
        &&& self.layout.wf()
        &&& match self.dragging_state {
            Some(p) => p.wf(),
            None => true,
        }
    }

    open spec fn spec_after_event(self, post: Self, event: UiEvent, cursor: Vec2) -> bool {
        spec_window_after_event(self, post, event, cursor)
    }

    open spec fn spec_wants_redraw(self, event: UiEvent, cursor: Vec2) -> bool {
        spec_window_wants_redraw(self, event, cursor)
    }

    open spec fn spec_after_update(self, post: Self, cursor: Vec2, font: FontMetrics) -> bool {
        spec_window_after_update(self, post, cursor, font)
    }

    open spec fn spec_update_wants_redraw(self) -> bool {
        spec_window_update_wants_redraw(self)
    }

    open spec fn spec_after_layout(self, post: Self, layout: Layout) -> bool {
        spec_window_after_layout(self, post, layout)
    }

    /// The drag state machine: a press inside the title bar anchors a drag
    /// at the pointer; any release ends the drag unconditionally, even
    /// outside the window. The event is then forwarded to the chrome and
    /// the application.
    fn handle_event(&mut self, event: &UiEvent, global: &mut Global) {
        match event {
            UiEvent::PointerPressed => {
                let cursor_position = global.cursor_position();
                if self.title_text.layout.contains(&cursor_position) {
                    self.dragging_state = Some(cursor_position);
                }
            },
            UiEvent::PointerReleased => {
                self.dragging_state = None;
            },
            _ => {},
        }
        self.background.handle_event(event, global);
        self.title_text.handle_event(event, global);
        self.app.handle_event(event, global);
    }

    /// While a drag is active, translate the window by the pointer's
    /// movement since the anchor, re-anchor at the pointer, re-run layout
    /// propagation and raise a redraw; then update the chrome and the
    /// application.
    fn update(&mut self, global: &mut Global) {
        let ghost was_dragging = self.dragging_state is Some;
        let ghost mut app_mid = self.app;
        match self.dragging_state {
            Some(anchor) => {
                let new_position = global.cursor_position();
                let dx = new_position.x - anchor.x;
                let dy = new_position.y - anchor.y;
                self.dragging_state = Some(new_position);
                let layout = Layout {
                    position: Vec2 {
                        x: self.layout.position.x + dx,
                        y: self.layout.position.y + dy,
                    },
                    size: self.layout.size,
                };
                self.set_layout(layout);
                proof {
                    app_mid = self.app;
                }
                global.request_redraw();
            },
            None => {},
        }
        self.background.update(global);
        self.title_text.update(global);
        self.app.update(global);
        proof {
            if was_dragging {
                assert(old(self).app.spec_after_layout(app_mid, spec_app_layout(self.layout)));
                assert(exists|mid: A|
                    #[trigger] old(self).app.spec_after_layout(
                        mid,
                        spec_app_layout(self.layout),
                    ) && mid.spec_after_update(
                        self.app,
                        old(global).spec_cursor_position(),
                        old(global).font,
                    ));
            }
        }
    }

    /// Store the outer rectangle (clamped into the coordinate band) and
    /// push the derived rectangles down: the whole rectangle to the
    /// background, the title strip to the title label, the remaining body
    /// to the application.
    fn set_layout(&mut self, layout: Layout) {
        let lay = make_layout(layout.position.x, layout.position.y, layout.size.x, layout.size.y);
        self.layout = lay;
        let title_text_layout = make_layout(
            lay.position.x + FRAME_WIDTH,
            lay.position.y + FRAME_WIDTH,
            lay.size.x - 2 * FRAME_WIDTH,
            TITLE_HEIGHT,
        );
        let app_layout = make_layout(
            lay.position.x + FRAME_WIDTH,
            lay.position.y + TITLE_HEIGHT + 2 * FRAME_WIDTH,
            lay.size.x - 2 * FRAME_WIDTH,
            lay.size.y - TITLE_HEIGHT - 3 * FRAME_WIDTH,
        );
        self.app_layout = app_layout;
        self.background.set_layout(lay);
        self.title_text.set_layout(title_text_layout);
        self.app.set_layout(app_layout);
    }
}

} // verus!
