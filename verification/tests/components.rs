use wm::component::Component;
use wm::component::Layout;
use wm::component::Vec2;
use wm::custom_event::UiEvent;
use wm::desktop::application::Application;
use wm::desktop::sample::Sample;
use wm::desktop::window::Window;
use wm::desktop::window_manager::WindowManager;
use wm::desktop::Desktop;
use wm::utils::cursor::Cursor;
use wm::utils::input::Input;
use wm::utils::button::Button;
use wm::utils::plane::Plane;
use wm::utils::raw_text::FontMetrics;
use wm::utils::raw_text::GlyphMetrics;
use wm::Global;

fn mono_font(advance: i64, size: i64) -> FontMetrics {
    FontMetrics {
        ascent: size,
        descent: 0,
        line_gap: 0,
        glyphs: Vec::new(),
        kerning: Vec::new(),
        default_glyph: GlyphMetrics {
            id: 1,
            advance,
            has_bb: true,
            bb_min_x: 0,
            bb_min_y: -size,
            bb_max_x: advance,
            bb_max_y: 0,
        },
    }
}

fn test_global() -> Global {
    Global::new(mono_font(10, 16), Vec2 { x: 960, y: 720 })
}

fn move_pointer(global: &mut Global, x: i64, y: i64) {
    global.handle_event(&UiEvent::PointerMoved(Vec2 { x, y }));
}

#[test]
fn plane_rebuilds_only_on_request() {
    let global = test_global();
    let mut plane = Plane::new(&global);
    plane.set_layout(Layout {
        position: Vec2 { x: 5, y: 5 },
        size: Vec2 { x: 40, y: 30 },
    });
    assert!(plane.update_vbo());
    let quad = plane.vbo().clone().unwrap();
    assert_eq!(quad, vec![
        Vec2 { x: 0, y: 0 },
        Vec2 { x: 40, y: 0 },
        Vec2 { x: 40, y: 30 },
        Vec2 { x: 0, y: 30 },
    ]);

    // without a new request the quad is not rebuilt
    plane.set_layout(Layout {
        position: Vec2 { x: 5, y: 5 },
        size: Vec2 { x: 77, y: 88 },
    });
    assert!(!plane.update_vbo());
    assert_eq!(plane.vbo().clone().unwrap()[2], Vec2 { x: 40, y: 30 });

    plane.request_redraw();
    assert!(plane.update_vbo());
    assert_eq!(plane.vbo().clone().unwrap()[2], Vec2 { x: 77, y: 88 });
}

#[test]
fn cursor_quad_follows_the_font_size() {
    let global = test_global();
    let mut cursor = Cursor::new(&global);
    assert!(cursor.vbo().is_none());
    cursor.set_font_size(16);
    assert_eq!(cursor.font_size, 16);
    let quad = cursor.vbo().clone().unwrap();
    assert_eq!(quad, vec![
        Vec2 { x: 0, y: 0 },
        Vec2 { x: 12, y: 0 },
        Vec2 { x: 12, y: 16 },
        Vec2 { x: 0, y: 16 },
    ]);
}

#[test]
fn input_focus_changes_only_on_state_changing_presses() {
    let mut global = test_global();
    let mut input = Input::new(&global);
    input.set_layout(Layout {
        position: Vec2 { x: 0, y: 0 },
        size: Vec2 { x: 100, y: 50 },
    });
    assert!(!input.focus);

    // press inside: gains focus and asks for a redraw
    move_pointer(&mut global, 10, 10);
    input.handle_event(&UiEvent::PointerPressed, &mut global);
    assert!(input.focus);
    assert!(global.take_redraw_request());

    // press inside while already focused: no change, no redraw signal
    input.handle_event(&UiEvent::PointerPressed, &mut global);
    assert!(input.focus);
    assert!(!global.take_redraw_request());

    // a focus gain shows the caret
    assert!(input.text.inner.cursor.as_ref().unwrap().visibility);

    // press outside: loses focus, hides the caret and asks for a redraw
    move_pointer(&mut global, 500, 500);
    input.handle_event(&UiEvent::PointerPressed, &mut global);
    assert!(!input.focus);
    assert!(!input.text.inner.cursor.as_ref().unwrap().visibility);
    assert!(global.take_redraw_request());

    // press outside while already unfocused: no change, no redraw signal
    input.handle_event(&UiEvent::PointerPressed, &mut global);
    assert!(!input.focus);
    assert!(!global.take_redraw_request());
}

#[test]
fn input_appends_and_deletes_characters() {
    let mut global = test_global();
    let mut input = Input::new(&global);
    input.set_layout(Layout {
        position: Vec2 { x: 0, y: 0 },
        size: Vec2 { x: 100, y: 50 },
    });

    // characters are ignored while unfocused
    input.handle_event(&UiEvent::CharacterInput('z'), &mut global);
    assert!(input.text.content().is_empty());

    move_pointer(&mut global, 5, 5);
    input.handle_event(&UiEvent::PointerPressed, &mut global);
    assert!(input.focus);

    input.handle_event(&UiEvent::CharacterInput('a'), &mut global);
    input.handle_event(&UiEvent::CharacterInput('b'), &mut global);
    input.handle_event(&UiEvent::CharacterInput('c'), &mut global);
    input.handle_event(&UiEvent::CharacterInput('\u{8}'), &mut global);
    assert_eq!(input.text.content().clone(), vec!['a', 'b']);

    // delete down to empty, then once more: a no-op, no underflow
    input.handle_event(&UiEvent::CharacterInput('\u{7f}'), &mut global);
    input.handle_event(&UiEvent::CharacterInput('\u{7f}'), &mut global);
    input.handle_event(&UiEvent::CharacterInput('\u{7f}'), &mut global);
    assert!(input.text.content().is_empty());
}

#[test]
fn button_counts_one_click_per_hovering_press() {
    let mut global = test_global();
    let mut button = Button::new(&global);
    button.set_layout(Layout {
        position: Vec2 { x: 0, y: 0 },
        size: Vec2 { x: 60, y: 20 },
    });

    move_pointer(&mut global, 10, 10);
    button.handle_event(&UiEvent::PointerPressed, &mut global);
    assert!(button.pressed);
    assert_eq!(button.clicks, 1);
    assert!(global.take_redraw_request());

    button.handle_event(&UiEvent::PointerReleased, &mut global);
    assert!(!button.pressed);
    assert_eq!(button.clicks, 1);
    assert!(global.take_redraw_request());

    // a press outside does nothing
    move_pointer(&mut global, 500, 500);
    button.handle_event(&UiEvent::PointerPressed, &mut global);
    assert!(!button.pressed);
    assert_eq!(button.clicks, 1);
    assert!(!global.take_redraw_request());
}

#[test]
fn button_rebuilds_its_quad_only_on_request() {
    let mut global = test_global();
    let mut button = Button::new(&global);
    button.set_layout(Layout {
        position: Vec2 { x: 0, y: 0 },
        size: Vec2 { x: 60, y: 20 },
    });
    button.update(&mut global);
    assert_eq!(button.vbo.as_ref().unwrap()[2], Vec2 { x: 60, y: 20 });

    // the rebuild request was consumed: a later layout change alone does
    // not rebuild the quad
    button.set_layout(Layout {
        position: Vec2 { x: 0, y: 0 },
        size: Vec2 { x: 99, y: 11 },
    });
    button.update(&mut global);
    assert_eq!(button.vbo.as_ref().unwrap()[2], Vec2 { x: 60, y: 20 });
}

#[test]
fn window_layout_is_idempotent() {
    let global = test_global();
    let sample = Sample::new(&global);
    let mut window = Window::new(0, sample, &global);
    let outer = Layout {
        position: Vec2 { x: 100, y: 120 },
        size: Vec2 { x: 300, y: 200 },
    };
    window.set_layout(outer);
    let title_once = window.title_text.layout;
    let body_once = window.app.get_app_info().layout;
    window.set_layout(outer);
    assert_eq!(window.title_text.layout, title_once);
    assert_eq!(window.app.get_app_info().layout, body_once);

    // the title bar is a strip of the title height, inset by the frame
    assert_eq!(title_once.position, Vec2 { x: 105, y: 125 });
    assert_eq!(title_once.size, Vec2 { x: 290, y: 16 });
    assert_eq!(body_once.position, Vec2 { x: 105, y: 146 });
    assert_eq!(body_once.size, Vec2 { x: 290, y: 169 });
    // the window records the body rectangle it pushed to its application
    assert_eq!(window.app_layout, body_once);
}

#[test]
fn dragging_accumulates_pointer_movement() {
    let mut global = test_global();
    let sample = Sample::new(&global);
    let mut window = Window::new(0, sample, &global);
    // the default window sits at (50, 50); its title bar starts at (55, 55)
    assert_eq!(window.layout.position, Vec2 { x: 50, y: 50 });

    move_pointer(&mut global, 60, 60);
    window.handle_event(&UiEvent::PointerPressed, &mut global);
    assert!(window.dragging_state.is_some());

    // three move ticks with deltas (10, 5), (20, 35), (-15, 0)
    move_pointer(&mut global, 70, 65);
    window.update(&mut global);
    move_pointer(&mut global, 90, 100);
    window.update(&mut global);
    move_pointer(&mut global, 75, 100);
    window.update(&mut global);

    // final position = initial + total pointer movement (75-60, 100-60)
    assert_eq!(window.layout.position, Vec2 { x: 65, y: 90 });
    assert!(global.take_redraw_request());

    // release outside any window still ends the drag
    move_pointer(&mut global, 5000, 5000);
    window.handle_event(&UiEvent::PointerReleased, &mut global);
    assert!(window.dragging_state.is_none());

    // further updates no longer move the window
    move_pointer(&mut global, 0, 0);
    window.update(&mut global);
    assert_eq!(window.layout.position, Vec2 { x: 65, y: 90 });
}

#[test]
fn press_outside_the_title_bar_does_not_drag() {
    let mut global = test_global();
    let sample = Sample::new(&global);
    let mut window = Window::new(0, sample, &global);
    move_pointer(&mut global, 60, 400);
    window.handle_event(&UiEvent::PointerPressed, &mut global);
    assert!(window.dragging_state.is_none());
}

#[test]
fn spawn_then_get_round_trips_the_title() {
    let global = test_global();
    let mut manager: WindowManager<Sample> = WindowManager::new();
    let id = manager.spawn(Sample::new(&global), &global);
    assert_eq!(id, 0);
    let id2 = manager.spawn(Sample::new(&global), &global);
    assert_eq!(id2, 1);

    let window = manager.get(id).expect("spawned window must be found");
    assert_eq!(window.id, id);
    assert_eq!(window.title_text.content().clone(), vec!['A', 'p', 'p']);
    assert!(manager.get(7).is_none());
}

#[test]
fn desktop_hosts_the_sample_window() {
    let mut global = test_global();
    let mut desktop = Desktop::new(&global);
    assert_eq!(desktop.window_manager.windows.len(), 1);
    let window = desktop.window_manager.get(0).unwrap();
    assert_eq!(window.title_text.content().clone(), vec!['A', 'p', 'p']);

    desktop.handle_event(&UiEvent::PointerPressed, &mut global);
    desktop.update(&mut global);
    assert_eq!(desktop.window_manager.windows.len(), 1);
}

#[test]
fn dragging_works_through_the_desktop_broadcast() {
    let mut global = test_global();
    let mut desktop = Desktop::new(&global);
    assert_eq!(desktop.window_manager.get(0).unwrap().layout.position, Vec2 { x: 50, y: 50 });

    move_pointer(&mut global, 60, 60);
    desktop.handle_event(&UiEvent::PointerPressed, &mut global);
    move_pointer(&mut global, 100, 80);
    desktop.update(&mut global);
    desktop.handle_event(&UiEvent::PointerReleased, &mut global);
    desktop.update(&mut global);

    let window = desktop.window_manager.get(0).unwrap();
    assert_eq!(window.layout.position, Vec2 { x: 90, y: 70 });
    assert!(window.dragging_state.is_none());
}

#[test]
fn close_request_changes_no_component_state() {
    let mut global = test_global();
    let mut input = Input::new(&global);
    let mut button = Button::new(&global);
    input.handle_event(&UiEvent::CloseRequested, &mut global);
    button.handle_event(&UiEvent::CloseRequested, &mut global);
    assert!(!input.focus);
    assert!(input.text.content().is_empty());
    assert_eq!(button.clicks, 0);
    assert!(!button.pressed);
    assert!(!global.take_redraw_request());
}

#[test]
fn text_update_builds_vertices_and_hands_out_uploads() {
    let mut global = test_global();
    let mut text = wm::utils::text::Text::new(&global);
    text.set_content(vec!['o', 'k']);
    text.update(&mut global);
    assert_eq!(text.vbo.as_ref().unwrap().len(), 12);
    // the frame was flagged because the label was edited
    assert!(global.take_redraw_request());

    // both characters share the stub's fallback glyph: one upload
    let uploads = text.take_uploads();
    assert_eq!(uploads.len(), 1);
    assert!(text.take_uploads().is_empty());

    // a second update without edits rebuilds nothing
    text.update(&mut global);
    assert!(!global.take_redraw_request());
}

#[test]
fn end_to_end_input_shapes_hello() {
    // an input with wrap bound 200 and font size 16 over a monospace stub
    let mut global = test_global();
    let mut input = Input::new(&global);
    input.text.set_font_size(16);
    input.set_layout(Layout {
        position: Vec2 { x: 0, y: 0 },
        size: Vec2 { x: 200, y: 100 },
    });

    move_pointer(&mut global, 10, 10);
    input.handle_event(&UiEvent::PointerPressed, &mut global);
    for c in ['h', 'e', 'l', 'l', 'o'] {
        input.handle_event(&UiEvent::CharacterInput(c), &mut global);
    }
    input.update(&mut global);

    // five glyphs, six vertices per glyph quad
    let render_info = input.text.vbo.as_ref().expect("update must build the vertex list");
    assert_eq!(render_info.len(), 5 * 6);

    // the caret sits after the cumulative advance width of "hello"
    let cursor = input.text.inner.cursor.as_ref().expect("input text carries a caret");
    assert_eq!(cursor.local_position.x, 50);
    assert_eq!(cursor.local_position.y, 0);
    assert!(cursor.visibility);
}
