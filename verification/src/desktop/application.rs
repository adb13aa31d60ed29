//! The application capability: a component that can be hosted inside a
//! window, exposing its title and preferred layout.

use vstd::prelude::*;

use crate::component::Component;
use crate::component::Layout;
use crate::rw_cell::Rw;
use crate::utils::raw_text::TEXT_LIMIT;

verus! {

/// What a window needs to know about the application it hosts.
pub struct AppInfo {
    /// The title, in a shared-observation cell so the application can
    /// retitle itself and the chrome can notice.
    pub title: Rw<Vec<char>>,
    /// The rectangle most recently assigned to the application.
    pub layout: Layout,
}

impl AppInfo {
    /// The title stays within the supported text length.
    pub open spec fn wf(&self) -> bool {
        self.title.val()@.len() <= TEXT_LIMIT
    }
}

/// A component that can be hosted inside a window: it reports its title
/// (and assigned layout) through `AppInfo`.
pub trait Application: Component {
    /// The application's current title.
    spec fn title_spec(&self) -> Seq<char>;

    fn get_app_info(&self) -> (r: &AppInfo)
        requires
            self.wf(),
        ensures
            r.title.val()@ == self.title_spec(),
            r.wf(),
    ;
}

} // verus!
