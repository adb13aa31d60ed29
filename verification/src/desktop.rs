//! The desktop: a window manager hosting application windows.

use vstd::prelude::*;

use crate::component::Component;
use crate::component::Layout;
use crate::component::Vec2;
use crate::desktop::window_manager::spec_any_update_wants_redraw;
use crate::desktop::window_manager::spec_any_wants_redraw;
use crate::desktop::window_manager::spec_manager_after_event;
use crate::desktop::window_manager::spec_manager_after_update;
use crate::utils::raw_text::FontMetrics;
use crate::custom_event::UiEvent;
use crate::desktop::sample::Sample;
use crate::desktop::window_manager::WindowManager;
use crate::global::Global;

pub mod application;
pub mod sample;
pub mod window;
pub mod window_manager;

verus! {

/// The root component: a window manager that starts out hosting one
/// sample application window.
pub struct Desktop {
    pub window_manager: WindowManager<Sample>,
}

impl Desktop {
    /// A desktop with the sample application spawned in its first window.
    pub fn new(global: &Global) -> (r: Desktop)
        requires
            global.wf(),
        ensures
            r.wf(),
            r.window_manager.windows@.len() == 1,
            r.window_manager.windows@[0].id == 0usize,
            r.window_manager.windows@[0].title_text.inner.content@ == seq!['A', 'p', 'p'],
    {
        let mut window_manager: WindowManager<Sample> = WindowManager::new();
        let sample = Sample::new(global);
        window_manager.spawn(sample, global);
        Desktop { window_manager }
    }
}

impl Component for Desktop {
    /// The desktop is well-formed when its window manager is.
    open spec fn wf(&self) -> bool {
        self.window_manager.wf()
    }

    /// The desktop forwards to its window manager.
    open spec fn spec_after_event(self, post: Self, event: UiEvent, cursor: Vec2) -> bool {
        spec_manager_after_event(self.window_manager, post.window_manager, event, cursor)
    }

    open spec fn spec_wants_redraw(self, event: UiEvent, cursor: Vec2) -> bool {
        spec_any_wants_redraw(self.window_manager.windows@, event, cursor)
    }

    open spec fn spec_after_update(self, post: Self, cursor: Vec2, font: FontMetrics) -> bool {
        spec_manager_after_update(self.window_manager, post.window_manager, cursor, font)
    }

    open spec fn spec_update_wants_redraw(self) -> bool {
        spec_any_update_wants_redraw(self.window_manager.windows@)
    }

    /// The desktop has no geometry of its own.
    open spec fn spec_after_layout(self, post: Self, layout: Layout) -> bool {
        post == self
    }

    /// Hand the event to the window manager.
    fn handle_event(&mut self, event: &UiEvent, global: &mut Global) {
        self.window_manager.handle_event(event, global);
    }

    /// Hand the update tick to the window manager.
    fn update(&mut self, global: &mut Global) {
        self.window_manager.update(global);
    }

    /// The desktop has no geometry of its own.
    fn set_layout(&mut self, _layout: Layout) {
    }
}

} // verus!
