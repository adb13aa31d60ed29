//! Logical geometry and the component protocol.
//!
//! All geometry is expressed in integer logical (DPI-independent) units.
//! Coordinates are kept inside a generous band (`COORD_LIMIT`) so that every
//! derived-layout computation in the tree stays free of overflow without
//! pushing preconditions onto callers: layouts handed in from outside are
//! clamped into the band, which never bites for on-screen geometry.

use vstd::prelude::*;

use crate::custom_event::UiEvent;
use crate::global::Global;
use crate::utils::raw_text::FontMetrics;

verus! {

/// Half-width of the coordinate band that layouts are kept inside.
pub const COORD_LIMIT: i64 = 0x100_0000_0000;

/// A 2D point or extent in integer logical units.
#[derive(Clone, Copy, PartialEq, Eq, Structural, Debug)]
pub struct Vec2 {
    pub x: i64,
    pub y: i64,
}

impl Vec2 {
    /// The point is inside the coordinate band.
    pub open spec fn wf(self) -> bool {
        -COORD_LIMIT <= self.x <= COORD_LIMIT && -COORD_LIMIT <= self.y <= COORD_LIMIT
    }

    pub fn new(x: i64, y: i64) -> (r: Vec2)
        ensures
            r == (Vec2 { x, y }),
    {
        Vec2 { x, y }
    }
}

impl Default for Vec2 {
    fn default() -> (r: Vec2)
        ensures
            r == (Vec2 { x: 0i64, y: 0i64 }),
    {
        Vec2 { x: 0, y: 0 }
    }
}

/// Clamp an unbounded coordinate into the coordinate band.
pub open spec fn spec_clamp_coord(x: int) -> int {
    if x < -COORD_LIMIT {
        -COORD_LIMIT as int
    } else if x > COORD_LIMIT {
        COORD_LIMIT as int
    } else {
        x
    }
}

/// Clamp a non-negative extent into the coordinate band; negative extents
/// collapse to zero, keeping the size-invariant of `Layout`.
pub open spec fn spec_clamp_extent(x: int) -> int {
    if x < 0 {
        0
    } else if x > COORD_LIMIT {
        COORD_LIMIT as int
    } else {
        x
    }
}

fn clamp_coord(x: i64) -> (r: i64)
    ensures
        r as int == spec_clamp_coord(x as int),
{
    if x < -COORD_LIMIT {
        -COORD_LIMIT
    } else if x > COORD_LIMIT {
        COORD_LIMIT
    } else {
        x
    }
}

fn clamp_extent(x: i64) -> (r: i64)
    ensures
        r as int == spec_clamp_extent(x as int),
{
    if x < 0 {
        0
    } else if x > COORD_LIMIT {
        COORD_LIMIT
    } else {
        x
    }
}

/// An RGBA color with 8-bit channels.
#[derive(Clone, Copy, PartialEq, Eq, Structural, Debug)]
pub struct Color {
    pub r: u8,
    pub g: u8,
    pub b: u8,
    pub a: u8,
}

impl Color {
    pub fn new(r: u8, g: u8, b: u8, a: u8) -> (c: Color)
        ensures
            c == (Color { r, g, b, a }),
    {
        Color { r, g, b, a }
    }
}

/// Logical component layout: an axis-aligned rectangle, assigned top-down by
/// a parent. Invariant: both size components are non-negative.
#[derive(Clone, Copy, PartialEq, Eq, Structural, Debug)]
pub struct Layout {
    pub position: Vec2,
    pub size: Vec2,
}

impl Layout {
    /// Position inside the coordinate band, sizes non-negative and bounded.
    pub open spec fn wf(self) -> bool {
        self.position.wf() && self.size.wf() && self.size.x >= 0 && self.size.y >= 0
    }

    /// The closed rectangle contains the point: boundary-inclusive on all
    /// four sides.
    pub open spec fn spec_contains(self, p: Vec2) -> bool {
        &&& self.position.x <= p.x <= self.position.x + self.size.x
        &&& self.position.y <= p.y <= self.position.y + self.size.y
    }

    /// Boundary-inclusive point test; total for every rectangle and point.
    pub fn contains(&self, p: &Vec2) -> (r: bool)
        ensures
            r == self.spec_contains(*p),
    {
        let px = p.x as i128;
        let py = p.y as i128;
        let x0 = self.position.x as i128;
        let y0 = self.position.y as i128;
        let x1 = x0 + self.size.x as i128;
        let y1 = y0 + self.size.y as i128;
        x0 <= px && px <= x1 && y0 <= py && py <= y1
    }

    pub fn new(position: Vec2, size: Vec2) -> (r: Layout)
        ensures
            r == (Layout { position, size }),
    {
        Layout { position, size }
    }
}

impl Default for Layout {
    fn default() -> (r: Layout)
        ensures
            r == (Layout { position: Vec2 { x: 0i64, y: 0i64 }, size: Vec2 { x: 0i64, y: 0i64 } }),
    {
        Layout { position: Vec2 { x: 0, y: 0 }, size: Vec2 { x: 0, y: 0 } }
    }
}

/// What `make_layout` returns for unbounded inputs: the rectangle clamped
/// into the coordinate band, sizes kept non-negative.
pub open spec fn spec_make_layout(px: int, py: int, sx: int, sy: int) -> Layout {
    Layout {
        position: Vec2 { x: spec_clamp_coord(px) as i64, y: spec_clamp_coord(py) as i64 },
        size: Vec2 { x: spec_clamp_extent(sx) as i64, y: spec_clamp_extent(sy) as i64 },
    }
}

/// Build a well-formed layout from raw coordinates. For geometry inside the
/// coordinate band (every on-screen rectangle) the result is exact.
pub fn make_layout(px: i64, py: i64, sx: i64, sy: i64) -> (r: Layout)
    ensures
        r == spec_make_layout(px as int, py as int, sx as int, sy as int),
        r.wf(),
{
    Layout {
        position: Vec2 { x: clamp_coord(px), y: clamp_coord(py) },
        size: Vec2 { x: clamp_extent(sx), y: clamp_extent(sy) },
    }
}

/// What `clamp_point` returns: the point clamped into the coordinate band.
pub open spec fn spec_clamp_point(p: Vec2) -> Vec2 {
    Vec2 { x: spec_clamp_coord(p.x as int) as i64, y: spec_clamp_coord(p.y as int) as i64 }
}

/// Clamp a point into the coordinate band; exact for in-band points.
pub fn clamp_point(p: Vec2) -> (r: Vec2)
    ensures
        r == spec_clamp_point(p),
        r.wf(),
{
    Vec2 { x: clamp_coord(p.x), y: clamp_coord(p.y) }
}

/// The component protocol: the operations every node of the visual tree
/// offers. `handle_event` reacts to one platform event, `update` lazily
/// rebuilds derived draw data, and `set_layout` assigns geometry top-down.
/// None may block; drawing consumes the rebuilt data outside this protocol
/// and mutates nothing.
///
/// Each implementor declares its own transition specification: what one
/// event, one update tick and one layout assignment do to it, and when it
/// signals a redraw. The operations' contracts hold every implementor to
/// its declared transitions, preserve well-formedness and the environment,
/// and account for the redraw flag exactly; so a parent that forwards an
/// operation to its children is provably held to forwarding it.
pub trait Component: Sized {
    /// The component's own well-formedness.
    spec fn wf(&self) -> bool;

    /// How one platform event transforms this component, given the pointer
    /// position it is delivered with.
    spec fn spec_after_event(self, post: Self, event: UiEvent, cursor: Vec2) -> bool;

    /// Whether the event makes this component signal a redraw.
    spec fn spec_wants_redraw(self, event: UiEvent, cursor: Vec2) -> bool;

    /// How one update tick transforms this component, given the pointer
    /// position and the typeface it runs against.
    spec fn spec_after_update(self, post: Self, cursor: Vec2, font: FontMetrics) -> bool;

    /// Whether an update tick makes this component signal a redraw.
    spec fn spec_update_wants_redraw(self) -> bool;

    /// How a layout assignment transforms this component.
    spec fn spec_after_layout(self, post: Self, layout: Layout) -> bool;

    fn handle_event(&mut self, event: &UiEvent, global: &mut Global)
        requires
            old(self).wf(),
            old(global).wf(),
        ensures
            final(self).wf(),
            crate::global::spec_env_preserved(old(global), final(global)),
            old(self).spec_after_event(
                *final(self),
                *event,
                old(global).spec_cursor_position(),
            ),
            final(global).spec_redraw_requested() == (old(global).spec_redraw_requested()
                || old(self).spec_wants_redraw(*event, old(global).spec_cursor_position())),
    ;

    fn update(&mut self, global: &mut Global)
        requires
            old(self).wf(),
            old(global).wf(),
        ensures
            final(self).wf(),
            crate::global::spec_env_preserved(old(global), final(global)),
            old(self).spec_after_update(
                *final(self),
                old(global).spec_cursor_position(),
                old(global).font,
            ),
            final(global).spec_redraw_requested() == (old(global).spec_redraw_requested()
                || old(self).spec_update_wants_redraw()),
    ;

    fn set_layout(&mut self, layout: Layout)
        requires
            old(self).wf(),
        ensures
            final(self).wf(),
            old(self).spec_after_layout(*final(self), layout),
    ;
}

} // verus!
