//! Window identities and the window manager.
//!
//! The manager owns the windows in spawn order and broadcasts the
//! component operations to all of them. Ids are handed out monotonically
//! and never reused, so a spawned window can always be found again by the
//! id `spawn` returned.

use vstd::prelude::*;

use crate::component::Component;
use crate::custom_event::UiEvent;
use crate::desktop::application::Application;
use crate::component::Layout;
use crate::component::Vec2;
use crate::desktop::window::spec_window_after_event;
use crate::desktop::window::spec_window_after_update;
use crate::desktop::window::spec_window_update_wants_redraw;
use crate::desktop::window::spec_window_wants_redraw;
use crate::desktop::window::Window;
use crate::utils::raw_text::FontMetrics;
use crate::global::spec_env_preserved;
use crate::global::Global;

verus! {

/// Identifies a window for the process lifetime: assigned monotonically at
/// spawn time, never reused.
pub type WindowId = usize;

/// First window carrying `id`, if any.
pub open spec fn spec_find_window<A: Application>(ws: Seq<Window<A>>, id: WindowId) -> Option<
    Window<A>,
>
    decreases ws.len(),
{
    if ws.len() == 0 {
        None
    } else if ws[0].id == id {
        Some(ws[0])
    } else {
        spec_find_window(ws.drop_first(), id)
    }
}

/// Appending a window whose id no present window carries makes it the one
/// found under that id: the spawn/look-up round trip.
pub proof fn lemma_spawn_round_trip<A: Application>(ws: Seq<Window<A>>, w: Window<A>)
    requires
        forall|i: int| 0 <= i < ws.len() ==> (#[trigger] ws[i]).id != w.id,
    ensures
        spec_find_window(ws.push(w), w.id) == Some(w),
    decreases ws.len(),
{
    reveal_with_fuel(spec_find_window, 3);
    if ws.len() == 0 {
        assert(ws.push(w)[0] == w);
    } else {
        assert(ws.push(w)[0] == ws[0]);
        assert(ws.push(w).drop_first() =~= ws.drop_first().push(w));
        assert(forall|i: int|
            0 <= i < ws.drop_first().len() ==> (#[trigger] ws.drop_first()[i]) == ws[i + 1]);
        lemma_spawn_round_trip(ws.drop_first(), w);
    }
}

/// How one event transforms the manager: every window advances by its own
/// event transition against the same pointer position; the counter stands.
pub open spec fn spec_manager_after_event<A: Application>(
    m0: WindowManager<A>,
    m1: WindowManager<A>,
    event: UiEvent,
    cursor: Vec2,
) -> bool {
    &&& m1.window_id_counter == m0.window_id_counter
    &&& m1.windows@.len() == m0.windows@.len()
    &&& forall|i: int|
        0 <= i < m1.windows@.len() ==> spec_window_after_event(
            m0.windows@[i],
            #[trigger] m1.windows@[i],
            event,
            cursor,
        )
}

/// How one update tick transforms the manager: every window advances by
/// its own update transition; the counter stands.
pub open spec fn spec_manager_after_update<A: Application>(
    m0: WindowManager<A>,
    m1: WindowManager<A>,
    cursor: Vec2,
    font: FontMetrics,
) -> bool {
    &&& m1.window_id_counter == m0.window_id_counter
    &&& m1.windows@.len() == m0.windows@.len()
    &&& forall|i: int|
        0 <= i < m1.windows@.len() ==> spec_window_after_update(
            m0.windows@[i],
            #[trigger] m1.windows@[i],
            cursor,
            font,
        )
}

/// Whether any window of a run signals a redraw for an event.
pub open spec fn spec_any_wants_redraw<A: Application>(
    ws: Seq<Window<A>>,
    event: UiEvent,
    cursor: Vec2,
) -> bool
    decreases ws.len(),
{
    if ws.len() == 0 {
        false
    } else {
        spec_window_wants_redraw(ws[0], event, cursor) || spec_any_wants_redraw(
            ws.drop_first(),
            event,
            cursor,
        )
    }
}

/// Whether any window of a run signals a redraw for an update tick.
pub open spec fn spec_any_update_wants_redraw<A: Application>(ws: Seq<Window<A>>) -> bool
    decreases ws.len(),
{
    if ws.len() == 0 {
        false
    } else {
        spec_window_update_wants_redraw(ws[0]) || spec_any_update_wants_redraw(ws.drop_first())
    }
}

proof fn lemma_any_wants_push<A: Application>(
    ws: Seq<Window<A>>,
    w: Window<A>,
    event: UiEvent,
    cursor: Vec2,
)
    ensures
        spec_any_wants_redraw(ws.push(w), event, cursor) == (spec_any_wants_redraw(
            ws,
            event,
            cursor,
        ) || spec_window_wants_redraw(w, event, cursor)),
    decreases ws.len(),
{
    reveal_with_fuel(spec_any_wants_redraw, 3);
    if ws.len() == 0 {
        assert(ws.push(w)[0] == w);
        assert(ws.push(w).drop_first() =~= Seq::<Window<A>>::empty());
    } else {
        assert(ws.push(w)[0] == ws[0]);
        assert(ws.push(w).drop_first() =~= ws.drop_first().push(w));
        lemma_any_wants_push(ws.drop_first(), w, event, cursor);
    }
}

proof fn lemma_any_update_wants_push<A: Application>(ws: Seq<Window<A>>, w: Window<A>)
    ensures
        spec_any_update_wants_redraw(ws.push(w)) == (spec_any_update_wants_redraw(ws)
            || spec_window_update_wants_redraw(w)),
    decreases ws.len(),
{
    reveal_with_fuel(spec_any_update_wants_redraw, 3);
    if ws.len() == 0 {
        assert(ws.push(w)[0] == w);
        assert(ws.push(w).drop_first() =~= Seq::<Window<A>>::empty());
    } else {
        assert(ws.push(w)[0] == ws[0]);
        assert(ws.push(w).drop_first() =~= ws.drop_first().push(w));
        lemma_any_update_wants_push(ws.drop_first(), w);
    }
}

/// The window manager: a monotone id counter and the windows in spawn
/// order.
pub struct WindowManager<A: Application> {
    pub window_id_counter: WindowId,
    pub windows: Vec<Window<A>>,
}

fn window_at_mut<A: Application>(v: &mut Vec<Window<A>>, i: usize) -> (w: &mut Window<A>)
    requires
        i < old(v)@.len(),
    ensures
        *w == old(v)@[i as int],
        final(v)@ == old(v)@.update(i as int, *final(w)),
{
    &mut v[i]
}

impl<A: Application> WindowManager<A> {
    /// An empty manager whose next id is zero.
    pub fn new() -> (r: WindowManager<A>)
        ensures
            r.wf(),
            r.window_id_counter == 0usize,
            r.windows@ == Seq::<Window<A>>::empty(),
    {
        WindowManager { window_id_counter: 0, windows: Vec::new() }
    }

    /// Allocate a fresh id, wrap the application in a window under it, and
    /// keep the window; never fails. Returns the id, under which the
    /// window can be found again.
    pub fn spawn(&mut self, app: A, global: &Global) -> (id: WindowId)
        requires
            old(self).wf(),
            app.wf(),
            global.wf(),
            old(self).window_id_counter < usize::MAX,
        ensures
            final(self).wf(),
            id == old(self).window_id_counter,
            final(self).window_id_counter == old(self).window_id_counter + 1,
            final(self).windows@.len() == old(self).windows@.len() + 1,
            final(self).windows@ == old(self).windows@.push(final(self).windows@.last()),
            final(self).windows@.last().id == id,
            final(self).windows@.last().title_text.inner.content@ == app.title_spec(),
            spec_find_window(final(self).windows@, id) == Some(final(self).windows@.last()),
    {
        let id = self.window_id_counter;
        let window = Window::new(id, app, global);
        proof {
            lemma_spawn_round_trip(self.windows@, window);
        }
        self.windows.push(window);
        self.window_id_counter = self.window_id_counter + 1;
        id
    }

    /// The window spawned under `id`, if it is still kept.
    pub fn get(&self, id: WindowId) -> (r: Option<&Window<A>>)
        ensures
            r matches Some(w) ==> spec_find_window(self.windows@, id) == Some(*w),
            r is None ==> spec_find_window(self.windows@, id) is None,
    {
        let mut i: usize = 0;
        proof {
            assert(self.windows@.skip(0) =~= self.windows@);
        }
        while i < self.windows.len()
            invariant
                0 <= i <= self.windows@.len(),
                spec_find_window(self.windows@, id) == spec_find_window(
                    self.windows@.skip(i as int),
                    id,
                ),
            decreases self.windows@.len() - i,
        {
            proof {
                assert(self.windows@.skip(i as int).drop_first() =~= self.windows@.skip(
                    i as int + 1,
                ));
                assert(self.windows@.skip(i as int)[0] == self.windows@[i as int]);
            }
            if self.windows[i].id == id {
                return Some(&self.windows[i]);
            }
            i = i + 1;
        }
        proof {
            assert(self.windows@.skip(i as int) =~= Seq::<Window<A>>::empty());
        }
        None
    }
}

impl<A: Application> Component for WindowManager<A> {
    /// Every window well-formed, every id below the counter, and ids
    /// strictly increasing in spawn order (so never reused).
    open spec fn wf(&self) -> bool {
        &&& forall|i: int| 0 <= i < self.windows@.len() ==> (#[trigger] self.windows@[i]).wf()
        &&& forall|i: int|
            0 <= i < self.windows@.len() ==> (#[trigger] self.windows@[i]).id
                < self.window_id_counter
        &&& forall|i: int, j: int|
            0 <= i < j < self.windows@.len() ==> (#[trigger] self.windows@[i]).id < (
            #[trigger] self.windows@[j]).id
    }

    open spec fn spec_after_event(self, post: Self, event: UiEvent, cursor: Vec2) -> bool {
        spec_manager_after_event(self, post, event, cursor)
    }

    open spec fn spec_wants_redraw(self, event: UiEvent, cursor: Vec2) -> bool {
        spec_any_wants_redraw(self.windows@, event, cursor)
    }

    open spec fn spec_after_update(self, post: Self, cursor: Vec2, font: FontMetrics) -> bool {
        spec_manager_after_update(self, post, cursor, font)
    }

    open spec fn spec_update_wants_redraw(self) -> bool {
        spec_any_update_wants_redraw(self.windows@)
    }

    /// The manager has no geometry of its own.
    open spec fn spec_after_layout(self, post: Self, layout: Layout) -> bool {
        post == self
    }

    /// Broadcast the event to every window, in spawn order: each advances
    /// by its own event transition against the same pointer position.
    fn handle_event(&mut self, event: &UiEvent, global: &mut Global) {
        let ghost w0 = self.windows@;
        let ghost cursor = old(global).spec_cursor_position();
        let n = self.windows.len();
        let mut i: usize = 0;
        proof {
            assert(w0.take(0) =~= Seq::<Window<A>>::empty());
        }
        while i < n
            invariant
                0 <= i <= n,
                n == self.windows@.len(),
                w0.len() == n,
                global.wf(),
                spec_env_preserved(old(global), global),
                cursor == old(global).spec_cursor_position(),
                global.spec_redraw_requested() == (old(global).spec_redraw_requested()
                    || spec_any_wants_redraw(w0.take(i as int), *event, cursor)),
                self.window_id_counter == old(self).window_id_counter,
                forall|j: int| 0 <= j < n ==> (#[trigger] self.windows@[j]).wf(),
                forall|j: int| i <= j < n ==> (#[trigger] self.windows@[j]) == w0[j],
                forall|j: int|
                    0 <= j < i ==> spec_window_after_event(
                        w0[j],
                        #[trigger] self.windows@[j],
                        *event,
                        cursor,
                    ),
                forall|j: int|
                    0 <= j < n ==> (#[trigger] self.windows@[j]).id == w0[j].id,
                forall|j: int, k: int|
                    0 <= j < k < n ==> (#[trigger] self.windows@[j]).id < (
                    #[trigger] self.windows@[k]).id,
            decreases n - i,
        {
            let w = window_at_mut(&mut self.windows, i);
            w.handle_event(event, global);
            proof {
                lemma_any_wants_push(w0.take(i as int), w0[i as int], *event, cursor);
                assert(w0.take(i as int).push(w0[i as int]) =~= w0.take(i as int + 1));
            }
            i = i + 1;
        }
        proof {
            assert(w0.take(n as int) =~= w0);
        }
    }

    /// Broadcast an update tick to every window, in spawn order: each
    /// advances by its own update transition against the same pointer
    /// position and typeface.
    fn update(&mut self, global: &mut Global) {
        let ghost w0 = self.windows@;
        let ghost cursor = old(global).spec_cursor_position();
        let ghost font = old(global).font;
        let n = self.windows.len();
        let mut i: usize = 0;
        proof {
            assert(w0.take(0) =~= Seq::<Window<A>>::empty());
        }
        while i < n
            invariant
                0 <= i <= n,
                n == self.windows@.len(),
                w0.len() == n,
                global.wf(),
                spec_env_preserved(old(global), global),
                cursor == old(global).spec_cursor_position(),
                font == old(global).font,
                global.spec_redraw_requested() == (old(global).spec_redraw_requested()
                    || spec_any_update_wants_redraw(w0.take(i as int))),
                self.window_id_counter == old(self).window_id_counter,
                forall|j: int| 0 <= j < n ==> (#[trigger] self.windows@[j]).wf(),
                forall|j: int| i <= j < n ==> (#[trigger] self.windows@[j]) == w0[j],
                forall|j: int|
                    0 <= j < i ==> spec_window_after_update(
                        w0[j],
                        #[trigger] self.windows@[j],
                        cursor,
                        font,
                    ),
                forall|j: int|
                    0 <= j < n ==> (#[trigger] self.windows@[j]).id == w0[j].id,
                forall|j: int, k: int|
                    0 <= j < k < n ==> (#[trigger] self.windows@[j]).id < (
                    #[trigger] self.windows@[k]).id,
            decreases n - i,
        {
            let w = window_at_mut(&mut self.windows, i);
            w.update(global);
            proof {
                lemma_any_update_wants_push(w0.take(i as int), w0[i as int]);
                assert(w0.take(i as int).push(w0[i as int]) =~= w0.take(i as int + 1));
            }
            i = i + 1;
        }
        proof {
            assert(w0.take(n as int) =~= w0);
        }
    }

    /// The manager has no geometry of its own.
    fn set_layout(&mut self, _layout: Layout) {
    }
}

} // verus!
