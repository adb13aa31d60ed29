//! The ambient environment handed to every component operation.
//!
//! One explicitly passed value carries what the platform reports (the
//! current pointer position, already converted to logical units) together
//! with what components report back (a coalesced redraw request and posted
//! user events). Only the platform-event-ingestion step moves the pointer;
//! everything else reads it.

use vstd::prelude::*;

use crate::component::spec_clamp_point;
use crate::component::clamp_point;
use crate::component::Vec2;
use crate::custom_event::CustomEvent;
use crate::custom_event::UiEvent;
use crate::utils::raw_text::FontMetrics;

verus! {

/// What a component operation may not change about the environment: the
/// typeface, the pointer, the posted events, and well-formedness. Only the
/// redraw flag is a component's to raise.
pub open spec fn spec_env_preserved(a: &Global, b: &Global) -> bool {
    &&& b.font == a.font
    &&& b.surface_size == a.surface_size
    &&& b.spec_cursor_position() == a.spec_cursor_position()
    &&& b.spec_sent_events() == a.spec_sent_events()
    &&& b.wf() == a.wf()
}

/// The shared environment: the typeface metrics, the pointer, and the
/// outward channels (redraw flag, posted events).
pub struct Global {
    /// Metrics of the typeface components shape text with.
    pub font: FontMetrics,
    /// The drawing surface's extent, in logical units.
    pub surface_size: Vec2,
    /// The current pointer position, in logical units.
    pub cursor_position: Vec2,
    /// Whether a redraw was requested since the flag was last taken.
    pub redraw_requested: bool,
    /// Events posted since they were last taken, in posting order.
    pub sent_events: Vec<CustomEvent>,
}

impl Global {
    /// The current pointer position, in logical units.
    pub open spec fn spec_cursor_position(&self) -> Vec2 {
        self.cursor_position
    }

    /// Whether a redraw was requested since the flag was last taken.
    pub open spec fn spec_redraw_requested(&self) -> bool {
        self.redraw_requested
    }

    /// Events posted since they were last taken, in posting order.
    pub open spec fn spec_sent_events(&self) -> Seq<CustomEvent> {
        self.sent_events@
    }

    /// Well-formed typeface metrics and a pointer inside the coordinate
    /// band.
    pub open spec fn wf(&self) -> bool {
        self.font.wf() && self.surface_size.wf() && self.cursor_position.wf()
    }

    pub fn new(font: FontMetrics, surface_size: Vec2) -> (r: Global)
        requires
            font.wf(),
        ensures
            r.wf(),
            r.font == font,
            r.surface_size == spec_clamp_point(surface_size),
            r.spec_cursor_position() == (Vec2 { x: 0i64, y: 0i64 }),
            !r.spec_redraw_requested(),
            r.spec_sent_events() == Seq::<CustomEvent>::empty(),
    {
        Global {
            font,
            surface_size: clamp_point(surface_size),
            cursor_position: Vec2 { x: 0, y: 0 },
            redraw_requested: false,
            sent_events: Vec::new(),
        }
    }

    /// Ingest one platform event: pointer motion moves the pointer (clamped
    /// into the coordinate band); every other event leaves the environment
    /// unchanged.
    pub fn handle_event(&mut self, event: &UiEvent)
        requires
            old(self).wf(),
        ensures
            final(self).wf(),
            final(self).spec_cursor_position() == match *event {
                UiEvent::PointerMoved(p) => spec_clamp_point(p),
                _ => old(self).spec_cursor_position(),
            },
            final(self).font == old(self).font,
            final(self).surface_size == old(self).surface_size,
            final(self).spec_redraw_requested() == old(self).spec_redraw_requested(),
            final(self).spec_sent_events() == old(self).spec_sent_events(),
    {
        match event {
            UiEvent::PointerMoved(p) => {
                self.cursor_position = clamp_point(*p);
            },
            _ => {},
        }
    }

    /// Post a user event for the driving loop; never fails.
    pub fn send_event(&mut self, event: CustomEvent)
        ensures
            final(self).spec_sent_events() == old(self).spec_sent_events().push(event),
            final(self).spec_cursor_position() == old(self).spec_cursor_position(),
            final(self).spec_redraw_requested() == old(self).spec_redraw_requested(),
            final(self).font == old(self).font,
            final(self).surface_size == old(self).surface_size,
            final(self).wf() == old(self).wf(),
    {
        self.sent_events.push(event);
    }

    /// The current pointer position, in logical units.
    pub fn cursor_position(&self) -> (r: Vec2)
        ensures
            r == self.spec_cursor_position(),
    {
        self.cursor_position
    }

    /// Flag that a frame is needed; requests coalesce into one flag.
    pub fn request_redraw(&mut self)
        ensures
            final(self).spec_redraw_requested(),
            final(self).spec_cursor_position() == old(self).spec_cursor_position(),
            final(self).spec_sent_events() == old(self).spec_sent_events(),
            final(self).font == old(self).font,
            final(self).surface_size == old(self).surface_size,
            final(self).wf() == old(self).wf(),
    {
        self.redraw_requested = true;
    }

    /// Report and clear the coalesced redraw request.
    pub fn take_redraw_request(&mut self) -> (r: bool)
        ensures
            r == old(self).spec_redraw_requested(),
            !final(self).spec_redraw_requested(),
            final(self).spec_cursor_position() == old(self).spec_cursor_position(),
            final(self).spec_sent_events() == old(self).spec_sent_events(),
            final(self).font == old(self).font,
            final(self).surface_size == old(self).surface_size,
            final(self).wf() == old(self).wf(),
    {
        let r = self.redraw_requested;
        self.redraw_requested = false;
        r
    }

    /// Take the posted user events, in posting order, leaving the channel
    /// empty.
    pub fn take_sent_events(&mut self) -> (r: Vec<CustomEvent>)
        ensures
            r@ == old(self).spec_sent_events(),
            final(self).spec_sent_events() == Seq::<CustomEvent>::empty(),
            final(self).spec_cursor_position() == old(self).spec_cursor_position(),
            final(self).spec_redraw_requested() == old(self).spec_redraw_requested(),
            final(self).font == old(self).font,
            final(self).surface_size == old(self).surface_size,
            final(self).wf() == old(self).wf(),
    {
        let mut taken: Vec<CustomEvent> = Vec::new();
        core::mem::swap(&mut taken, &mut self.sent_events);
        taken
    }
}

} // verus!
