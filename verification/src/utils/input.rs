//! The text field component: a background panel, an editable text with a
//! caret, and a focus flag deciding whether typed characters reach it.
//!
//! Focus changes only on pointer presses: a press inside the field focuses
//! it, a press outside unfocuses it, and a press that matches the current
//! state changes nothing and raises no redraw.

use vstd::prelude::*;

use crate::component::Component;
use crate::component::Color;
use crate::component::Layout;
use crate::component::Vec2;
use crate::custom_event::UiEvent;
use crate::global::Global;
use crate::utils::cursor::Cursor;
use crate::utils::plane::spec_plane_after_update;
use crate::utils::plane::Plane;
use crate::utils::raw_text::FontMetrics;
use crate::utils::raw_text::RawText;
use crate::utils::raw_text::TEXT_LIMIT;
use crate::utils::text::spec_fresh_text;
use crate::utils::text::spec_text_after_layout;
use crate::utils::text::spec_text_after_update;
use crate::utils::text::Text;

verus! {

/// A code point that deletes the last character instead of being appended:
/// backspace or delete.
pub open spec fn spec_is_delete(c: char) -> bool {
    c == '\u{8}' || c == '\u{7f}'
}

fn is_delete(c: char) -> (r: bool)
    ensures
        r == spec_is_delete(c),
{
    c == '\u{8}' || c == '\u{7f}'
}

/// What a character event leaves in the text buffer: a delete-class code
/// point removes the last character (a no-op on empty content); any other
/// is appended verbatim (full content left unchanged).
pub open spec fn spec_after_char(content: Seq<char>, c: char) -> Seq<char> {
    if spec_is_delete(c) {
        if content.len() > 0 {
            content.drop_last()
        } else {
            content
        }
    } else {
        if content.len() < TEXT_LIMIT {
            content.push(c)
        } else {
            content
        }
    }
}

/// How one event transforms a text field: on a press the focus becomes
/// "pointer inside the panel" (a press matching the current state changes
/// nothing at all); while focused, a character event edits the buffer;
/// everything else is ignored.
pub open spec fn spec_input_after_event(i0: Input, i1: Input, event: UiEvent, cursor: Vec2) -> bool {
    match event {
        UiEvent::PointerPressed => {
            let hovering = i0.background.layout.spec_contains(cursor);
            &&& i1.focus == hovering
            &&& i1.text.inner.content == i0.text.inner.content
            &&& i1.text.inner_edited == i0.text.inner_edited
            &&& i1.background == i0.background
            &&& (hovering == i0.focus ==> i1 == i0)
            &&& (hovering != i0.focus ==> {
                &&& (i0.text.inner.cursor is Some <==> i1.text.inner.cursor is Some)
                &&& (i1.text.inner.cursor matches Some(c) ==> (i0.text.inner.cursor
                    matches Some(c0) && c == (Cursor { visibility: i1.focus, ..c0 })))
                &&& i1.text.inner == (RawText {
                    cursor: i1.text.inner.cursor,
                    ..i0.text.inner
                })
                &&& i1.text == (Text { inner: i1.text.inner, ..i0.text })
            })
        },
        UiEvent::CharacterInput(c) => {
            &&& i1.focus == i0.focus
            &&& i1.text.inner.content@ == if i0.focus {
                spec_after_char(i0.text.inner.content@, c)
            } else {
                i0.text.inner.content@
            }
            &&& (i0.focus ==> i1.text.inner_edited)
            &&& (!i0.focus ==> i1 == i0)
            &&& i1.background == i0.background
        },
        _ => i1 == i0,
    }
}

/// Whether an event makes the field signal a redraw: exactly a press that
/// changes its focus.
pub open spec fn spec_input_wants_redraw(i0: Input, event: UiEvent, cursor: Vec2) -> bool {
    event is PointerPressed && i0.background.layout.spec_contains(cursor) != i0.focus
}

/// How one update tick transforms a text field: the panel and the label
/// each advance by their own update transition, and the focus stands.
pub open spec fn spec_input_after_update(i0: Input, i1: Input, font: FontMetrics) -> bool {
    &&& spec_plane_after_update(i0.background, i1.background)
    &&& spec_text_after_update(i0.text, i1.text, font)
    &&& i1.focus == i0.focus
}

/// How a layout assignment transforms a text field: the panel and the
/// label both receive the field's whole rectangle; the focus stands.
pub open spec fn spec_input_after_layout(i0: Input, i1: Input, layout: Layout) -> bool {
    &&& i1.background == (Plane { layout, ..i0.background })
    &&& spec_text_after_layout(i0.text, i1.text, layout)
    &&& i1.focus == i0.focus
}

/// The text field: an editable cursored text over a panel, plus the focus
/// flag.
pub struct Input {
    pub text: Text,
    pub background: Plane,
    pub focus: bool,
}

impl Input {
    /// A fresh unfocused field: empty cursored text over a bright panel,
    /// both marked for rebuild so the first update pass builds their draw
    /// data.
    pub fn new(global: &Global) -> (r: Input)
        requires
            global.wf(),
        ensures
            r.wf(),
            spec_fresh_text(r.text, *global),
            r.text.inner.cursor is Some,
            r.text.inner_edited,
            r.text.layout == (Layout {
                position: Vec2 { x: 0i64, y: 0i64 },
                size: Vec2 { x: 0i64, y: 0i64 },
            }),
            r.background.layout == r.text.layout,
            r.background.color == (Color { r: 102u8, g: 230u8, b: 204u8, a: 255u8 }),
            r.background.spec_should_redraw(),
            !r.focus,
    {
        let mut text = Text::new_cursored(global);
        text.request_redraw();
        let mut background = Plane::new(global);
        background.color = Color { r: 102, g: 230, b: 204, a: 255 };
        background.request_redraw();
        Input { text, background, focus: false }
    }

    /// Whether the pointer is over the field's panel.
    fn is_cursor_hovering(&self, global: &Global) -> (r: bool)
        ensures
            r == self.background.layout.spec_contains(global.spec_cursor_position()),
    {
        self.background.layout.contains(&global.cursor_position())
    }
}

impl Component for Input {
    /// A field is well-formed when its text is.
    open spec fn wf(&self) -> bool {
        self.text.wf()
    }

    /// The focus state machine and the character editor.
    open spec fn spec_after_event(self, post: Self, event: UiEvent, cursor: Vec2) -> bool {
        spec_input_after_event(self, post, event, cursor)
    }

    /// Exactly a press that changes the focus signals a redraw.
    open spec fn spec_wants_redraw(self, event: UiEvent, cursor: Vec2) -> bool {
        spec_input_wants_redraw(self, event, cursor)
    }

    open spec fn spec_after_update(self, post: Self, cursor: Vec2, font: FontMetrics) -> bool {
        spec_input_after_update(self, post, font)
    }

    open spec fn spec_update_wants_redraw(self) -> bool {
        self.background.should_redraw || self.text.inner_edited
    }

    open spec fn spec_after_layout(self, post: Self, layout: Layout) -> bool {
        spec_input_after_layout(self, post, layout)
    }

    /// On a press the focus becomes "pointer inside", flipping the caret
    /// and raising a redraw exactly when it changes; while focused,
    /// character events edit the buffer.
    fn handle_event(&mut self, event: &UiEvent, global: &mut Global) {
        match event {
            UiEvent::PointerPressed => {
                let hovering = self.is_cursor_hovering(global);
                if hovering && !self.focus {
                    self.focus = true;
                    self.text.set_cursor_visibility(true);
                    global.request_redraw();
                } else if !hovering && self.focus {
                    self.focus = false;
                    self.text.set_cursor_visibility(false);
                    global.request_redraw();
                }
            },
            UiEvent::CharacterInput(c) => {
                if self.focus {
                    if is_delete(*c) {
                        self.text.pop_char();
                    } else {
                        self.text.push_char(*c);
                    }
                }
            },
            _ => {},
        }
    }

    /// Update the panel and the text in turn.
    fn update(&mut self, global: &mut Global) {
        self.background.update(global);
        self.text.update(global);
    }

    /// Panel and text share the field's whole rectangle.
    fn set_layout(&mut self, layout: Layout) {
        self.background.set_layout(layout);
        self.text.set_layout(layout);
    }
}

} // verus!
