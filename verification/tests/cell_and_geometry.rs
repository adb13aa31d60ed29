use wm::component::make_layout;
use wm::component::Layout;
use wm::component::Vec2;
use wm::component::COORD_LIMIT;
use wm::custom_event::CustomEvent;
use wm::custom_event::UiEvent;
use wm::custom_event::WindowEvent;
use wm::rw_cell::R;
use wm::rw_cell::Rw;
use wm::utils::raw_text::FontMetrics;
use wm::utils::raw_text::GlyphMetrics;
use wm::Global;

fn mono_font(advance: i64, size: i64) -> FontMetrics {
    FontMetrics {
        ascent: size,
        descent: 0,
        line_gap: 0,
        glyphs: Vec::new(),
        kerning: Vec::new(),
        default_glyph: GlyphMetrics {
            id: 1,
            advance,
            has_bb: true,
            bb_min_x: 0,
            bb_min_y: -size,
            bb_max_x: advance,
            bb_max_y: 0,
        },
    }
}

#[test]
fn rw_cell_holds_and_flags() {
    let mut cell: Rw<u64> = Rw::new(5);
    assert_eq!(*cell.borrow(), 5);
    // a fresh cell counts as modified, and the flag is consumed
    assert!(cell.is_modified());
    assert!(!cell.is_modified());

    *cell.borrow_mut() = 9;
    assert_eq!(*cell.borrow(), 9);
    assert!(cell.is_modified());

    cell.dry_modify();
    assert!(cell.is_modified());
    assert!(!cell.is_modified());

    assert_eq!(*cell.try_borrow().unwrap(), 9);
    match cell.try_borrow_mut() {
        Ok(v) => *v = 11,
        Err(_) => panic!("exclusive cell must always lend"),
    }
    assert_eq!(cell.into_inner().ok(), Some(11));
}

#[test]
fn r_cell_reads_and_flags() {
    let mut cell: R<i32> = R::new(-3);
    assert_eq!(*cell.borrow(), -3);
    assert!(cell.is_modified());
    assert!(!cell.is_modified());

    match cell.get_mut() {
        Some(v) => *v = 4,
        None => panic!("sole owner must get mutable access"),
    }
    assert_eq!(*cell.borrow(), 4);
    assert!(cell.is_modified());

    cell.dry_modify();
    assert!(cell.is_modified());
    assert_eq!(*cell.try_borrow().unwrap(), 4);
    assert_eq!(cell.into_inner().ok(), Some(4));
}

#[test]
fn contains_is_boundary_inclusive() {
    let r = Layout {
        position: Vec2 { x: 10, y: 10 },
        size: Vec2 { x: 20, y: 20 },
    };
    // all four corners are inside (closed rectangle)
    assert!(r.contains(&Vec2 { x: 10, y: 10 }));
    assert!(r.contains(&Vec2 { x: 30, y: 10 }));
    assert!(r.contains(&Vec2 { x: 10, y: 30 }));
    assert!(r.contains(&Vec2 { x: 30, y: 30 }));
    assert!(r.contains(&Vec2 { x: 20, y: 20 }));
    // one past each edge is outside
    assert!(!r.contains(&Vec2 { x: 9, y: 20 }));
    assert!(!r.contains(&Vec2 { x: 31, y: 20 }));
    assert!(!r.contains(&Vec2 { x: 20, y: 9 }));
    assert!(!r.contains(&Vec2 { x: 20, y: 31 }));
}

#[test]
fn contains_handles_extreme_coordinates() {
    let r = Layout {
        position: Vec2 { x: i64::MIN, y: i64::MIN },
        size: Vec2 { x: i64::MAX, y: i64::MAX },
    };
    assert!(r.contains(&Vec2 { x: i64::MIN, y: i64::MIN }));
    assert!(r.contains(&Vec2 { x: -1, y: -1 }));
    assert!(!r.contains(&Vec2 { x: 0, y: 0 }));
}

#[test]
fn make_layout_clamps() {
    let l = make_layout(i64::MAX, i64::MIN, -5, 7);
    assert_eq!(l.position.x, COORD_LIMIT);
    assert_eq!(l.position.y, -COORD_LIMIT);
    assert_eq!(l.size.x, 0);
    assert_eq!(l.size.y, 7);

    let exact = make_layout(50, 50, 200, 480);
    assert_eq!(exact.position, Vec2 { x: 50, y: 50 });
    assert_eq!(exact.size, Vec2 { x: 200, y: 480 });
}

#[test]
fn global_tracks_pointer_and_channels() {
    let mut global = Global::new(mono_font(10, 16), Vec2 { x: 960, y: 720 });
    assert_eq!(global.cursor_position(), Vec2 { x: 0, y: 0 });

    global.handle_event(&UiEvent::PointerMoved(Vec2 { x: 33, y: 44 }));
    assert_eq!(global.cursor_position(), Vec2 { x: 33, y: 44 });

    // other events leave the pointer alone
    global.handle_event(&UiEvent::PointerPressed);
    global.handle_event(&UiEvent::CharacterInput('x'));
    global.handle_event(&UiEvent::CloseRequested);
    assert_eq!(global.cursor_position(), Vec2 { x: 33, y: 44 });

    // out-of-band positions are clamped into the coordinate band
    global.handle_event(&UiEvent::PointerMoved(Vec2 { x: i64::MAX, y: i64::MIN }));
    assert_eq!(global.cursor_position(), Vec2 { x: COORD_LIMIT, y: -COORD_LIMIT });

    assert!(!global.take_redraw_request());
    global.request_redraw();
    global.request_redraw();
    assert!(global.take_redraw_request());
    assert!(!global.take_redraw_request());

    global.send_event(CustomEvent::WindowEvent(WindowEvent::Close(3)));
    global.send_event(CustomEvent::WindowEvent(WindowEvent::Show(4)));
    let sent = global.take_sent_events();
    assert_eq!(sent.len(), 2);
    assert_eq!(sent[0], CustomEvent::WindowEvent(WindowEvent::Close(3)));
    assert_eq!(sent[1], CustomEvent::WindowEvent(WindowEvent::Show(4)));
    assert!(global.take_sent_events().is_empty());
}
