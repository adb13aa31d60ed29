//! A sample application: a text field over a push button, hosted in a
//! window.

use vstd::prelude::*;

use crate::component::make_layout;
use crate::component::spec_make_layout;
use crate::component::Component;
use crate::component::Color;
use crate::component::Layout;
use crate::component::Vec2;
use crate::custom_event::UiEvent;
use crate::desktop::application::AppInfo;
use crate::desktop::application::Application;
use crate::global::Global;
use crate::rw_cell::Rw;
use crate::utils::button::spec_button_after_event;
use crate::utils::button::spec_button_after_update;
use crate::utils::button::spec_button_wants_redraw;
use crate::utils::button::Button;
use crate::utils::button::spec_button_after_layout;
use crate::utils::input::spec_input_after_event;
use crate::utils::input::spec_input_after_layout;
use crate::utils::input::spec_input_after_update;
use crate::utils::input::spec_input_wants_redraw;
use crate::utils::input::Input;
use crate::utils::raw_text::FontMetrics;

verus! {

/// How one event transforms the screen: the field and the button each
/// advance by their own transition; the `AppInfo` stands.
pub open spec fn spec_sample_after_event(s0: Sample, s1: Sample, event: UiEvent, cursor: Vec2) -> bool {
    &&& s1.app_info == s0.app_info
    &&& spec_input_after_event(s0.input, s1.input, event, cursor)
    &&& spec_button_after_event(s0.button, s1.button, event, cursor)
}

/// How one update tick transforms the screen.
pub open spec fn spec_sample_after_update(s0: Sample, s1: Sample, font: FontMetrics) -> bool {
    &&& s1.app_info == s0.app_info
    &&& spec_input_after_update(s0.input, s1.input, font)
    &&& spec_button_after_update(s0.button, s1.button, font)
}

/// How a layout assignment transforms the screen: the rectangle is
/// recorded, the field takes the top nine tenths, the button the strip
/// below.
pub open spec fn spec_sample_after_layout(s0: Sample, s1: Sample, layout: Layout) -> bool {
    let lay = spec_make_layout(
        layout.position.x as int,
        layout.position.y as int,
        layout.size.x as int,
        layout.size.y as int,
    );
    let input_height = lay.size.y * 9 / 10;
    &&& s1.app_info == (AppInfo { layout, ..s0.app_info })
    &&& spec_input_after_layout(
        s0.input,
        s1.input,
        Layout { position: lay.position, size: Vec2 { x: lay.size.x, y: input_height as i64 } },
    )
    &&& spec_button_after_layout(
        s0.button,
        s1.button,
        spec_make_layout(
            lay.position.x as int,
            lay.position.y + input_height,
            lay.size.x as int,
            lay.size.y - input_height,
        ),
    )
}

/// The sample screen: its `AppInfo`, a text field, and a button.
pub struct Sample {
    pub app_info: AppInfo,
    pub input: Input,
    pub button: Button,
}

impl Sample {
    /// Build the screen: an empty white input at font size 16 over a
    /// teal-labelled button.
    pub fn new(global: &Global) -> (r: Sample)
        requires
            global.wf(),
        ensures
            r.wf(),
            r.title_spec() == seq!['A', 'p', 'p'],
            r.input.text.inner.content@ == Seq::<char>::empty(),
            !r.input.focus,
            r.button.clicks == 0u64,
    {
        let title: Vec<char> = vec!['A', 'p', 'p'];
        proof {
            assert(title@ =~= seq!['A', 'p', 'p']);
        }
        let app_info = AppInfo { title: Rw::new(title), layout: Layout::default() };

        let mut input = Input::new(global);
        input.text.set_font_size(16);
        input.text.color = Color { r: 25, g: 25, b: 25, a: 255 };
        input.background.color = Color { r: 255, g: 255, b: 255, a: 255 };
        input.background.round_radius = 2;

        let mut button = Button::new(global);
        button.set_font_size(16);
        button.text.color = Color { r: 0, g: 102, b: 102, a: 255 };
        let label: Vec<char> = vec![
            'p', 'u', 's', 'h', '!', '!', '!', '!', '!', '!', '!', '!', '!', '!', '!', '!', '!',
            '!', '!', '!',
        ];
        button.text.set_content(label);
        button.round_radius = 2;

        Sample { app_info, input, button }
    }
}

impl Component for Sample {
    /// The screen is well-formed when its parts and its `AppInfo` are.
    open spec fn wf(&self) -> bool {
        self.input.wf() && self.button.wf() && self.app_info.wf()
    }

    open spec fn spec_after_event(self, post: Self, event: UiEvent, cursor: Vec2) -> bool {
        spec_sample_after_event(self, post, event, cursor)
    }

    open spec fn spec_wants_redraw(self, event: UiEvent, cursor: Vec2) -> bool {
        spec_input_wants_redraw(self.input, event, cursor) || spec_button_wants_redraw(
            self.button,
            event,
            cursor,
        )
    }

    open spec fn spec_after_update(self, post: Self, cursor: Vec2, font: FontMetrics) -> bool {
        spec_sample_after_update(self, post, font)
    }

    open spec fn spec_update_wants_redraw(self) -> bool {
        self.input.background.should_redraw || self.input.text.inner_edited
            || self.button.text.inner_edited
    }

    open spec fn spec_after_layout(self, post: Self, layout: Layout) -> bool {
        spec_sample_after_layout(self, post, layout)
    }

    /// Forward the event to the field and the button.
    fn handle_event(&mut self, event: &UiEvent, global: &mut Global) {
        self.input.handle_event(event, global);
        self.button.handle_event(event, global);
    }

    /// Update the field and the button: each consumes its dirty flags and
    /// rebuilds its draw data.
    fn update(&mut self, global: &mut Global) {
        self.input.update(global);
        self.button.update(global);
    }

    /// Record the assigned rectangle and split it between field and button.
    fn set_layout(&mut self, layout: Layout) {
        self.app_info.layout = layout;
        let lay = make_layout(layout.position.x, layout.position.y, layout.size.x, layout.size.y);
        let input_height = lay.size.y * 9 / 10;
        let input_layout = Layout {
            position: lay.position,
            size: Vec2 { x: lay.size.x, y: input_height },
        };
        let button_layout = make_layout(
            lay.position.x,
            lay.position.y + input_height,
            lay.size.x,
            lay.size.y - input_height,
        );
        self.input.set_layout(input_layout);
        self.button.set_layout(button_layout);
    }
}

impl Application for Sample {
    /// The sample's title.
    open spec fn title_spec(&self) -> Seq<char> {
        self.app_info.title.val()@
    }

    fn get_app_info(&self) -> (r: &AppInfo) {
        &self.app_info
    }
}

} // verus!
