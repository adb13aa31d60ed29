use wm::component::Vec2;
use wm::utils::glyph_cache::AtlasRect;
use wm::utils::glyph_cache::GlyphCache;
use wm::utils::glyph_cache::GlyphKey;
use wm::utils::raw_text::shape_text;
use wm::utils::raw_text::FontMetrics;
use wm::utils::raw_text::GlyphMetrics;
use wm::utils::raw_text::RawText;

fn mono_glyph(id: u32, advance: i64, size: i64) -> GlyphMetrics {
    GlyphMetrics {
        id,
        advance,
        has_bb: true,
        bb_min_x: 0,
        bb_min_y: -size,
        bb_max_x: advance,
        bb_max_y: 0,
    }
}

fn mono_font(advance: i64, size: i64) -> FontMetrics {
    FontMetrics {
        ascent: size,
        descent: 0,
        line_gap: 0,
        glyphs: Vec::new(),
        kerning: Vec::new(),
        default_glyph: mono_glyph(1, advance, size),
    }
}

#[test]
fn shaping_advances_the_caret() {
    let font = mono_font(10, 16);
    let cs: Vec<char> = vec!['h', 'e', 'l', 'l', 'o'];
    let (glyphs, caret_x, caret_y) = shape_text(&font, 1000, &cs);
    assert_eq!(glyphs.len(), 5);
    for (i, g) in glyphs.iter().enumerate() {
        assert_eq!(g.x, 10 * i as i64);
        assert_eq!(g.y, 16);
    }
    assert_eq!(caret_x, 50);
    assert_eq!(caret_y, 16);
}

#[test]
fn wrap_boundary_starts_a_fresh_line_without_kerning() {
    // glyph 2 would span pixels 20..30, past the wrap bound 25: it must
    // open line 1 at x = 0 while glyphs 0 and 1 stay on line 0
    let font = mono_font(10, 16);
    let cs: Vec<char> = vec!['a', 'b', 'c'];
    let (glyphs, caret_x, caret_y) = shape_text(&font, 25, &cs);
    assert_eq!(glyphs.len(), 3);
    assert_eq!((glyphs[0].x, glyphs[0].y), (0, 16));
    assert_eq!((glyphs[1].x, glyphs[1].y), (10, 16));
    assert_eq!((glyphs[2].x, glyphs[2].y), (0, 32));
    assert_eq!(caret_x, 10);
    assert_eq!(caret_y, 32);
}

#[test]
fn kerning_applies_between_known_pairs_but_not_across_a_wrap() {
    let mut font = mono_font(10, 16);
    font.glyphs = vec![('A', mono_glyph(2, 10, 16)), ('V', mono_glyph(3, 10, 16))];
    font.kerning = vec![(2, 3, -2)];

    let (glyphs, caret_x, _) = shape_text(&font, 1000, &vec!['A', 'V']);
    assert_eq!(glyphs[0].x, 0);
    assert_eq!(glyphs[1].x, 8);
    assert_eq!(caret_x, 18);

    // with a wrap bound that breaks before 'V', the pair memory is cleared
    let (wrapped, _, _) = shape_text(&font, 15, &vec!['A', 'V']);
    assert_eq!(wrapped[1].x, 0);
    assert_eq!(wrapped[1].y, 32);
}

#[test]
fn carriage_return_advances_lines_and_line_feed_does_not() {
    let font = mono_font(10, 16);
    let (with_cr, _, _) = shape_text(&font, 1000, &vec!['a', '\r', 'b']);
    assert_eq!(with_cr.len(), 2);
    assert_eq!((with_cr[1].x, with_cr[1].y), (0, 32));

    let (with_lf, _, _) = shape_text(&font, 1000, &vec!['a', '\n', 'b']);
    assert_eq!(with_lf.len(), 2);
    assert_eq!((with_lf[1].x, with_lf[1].y), (10, 16));
}

#[test]
fn atlas_packs_shelves_and_never_evicts() {
    let mut cache = GlyphCache::new(100, 50);
    assert_eq!(cache.width(), 100);
    assert_eq!(cache.height(), 50);
    let k1 = GlyphKey { glyph_id: 1, font_size_px: 16 };
    let k2 = GlyphKey { glyph_id: 2, font_size_px: 16 };
    let k3 = GlyphKey { glyph_id: 3, font_size_px: 16 };
    cache.queue_glyph(k1, 30, 20);
    cache.queue_glyph(k2, 30, 20);
    cache.queue_glyph(k3, 50, 20);
    let placed = cache.cache_queued();
    assert_eq!(placed.len(), 3);
    assert_eq!(placed[0].1, AtlasRect { x: 0, y: 0, w: 30, h: 20 });
    assert_eq!(placed[1].1, AtlasRect { x: 30, y: 0, w: 30, h: 20 });
    // the third block does not fit the first row and opens a new shelf
    assert_eq!(placed[2].1, AtlasRect { x: 0, y: 20, w: 50, h: 20 });

    // re-requesting a resident key changes nothing: the atlas never evicts
    cache.queue_glyph(k1, 99, 30);
    let replaced = cache.cache_queued();
    assert!(replaced.is_empty());
    assert_eq!(cache.rect_for(&k1), Some(AtlasRect { x: 0, y: 0, w: 30, h: 20 }));

    // a block that cannot fit at all is skipped, not an error
    let big = GlyphKey { glyph_id: 9, font_size_px: 16 };
    cache.queue_glyph(big, 200, 10);
    let skipped = cache.cache_queued();
    assert!(skipped.is_empty());
    assert_eq!(cache.rect_for(&big), None);
}

#[test]
fn atlas_clamps_degenerate_requests() {
    let mut cache = GlyphCache::new(-5, 64);
    assert_eq!(cache.width(), 0);
    let k = GlyphKey { glyph_id: 1, font_size_px: 16 };
    cache.queue_glyph(k, -3, 10);
    let placed = cache.cache_queued();
    assert!(placed.is_empty());
    assert_eq!(cache.rect_for(&k), None);
}

#[test]
fn update_cache_normalizes_composed_characters() {
    // 'e' followed by a combining acute accent composes to one code point
    // under NFC, so exactly one glyph is placed
    let font = mono_font(10, 16);
    let mut text = RawText::from_internal(1000, 1000);
    text.push_char('e');
    text.push_char('\u{301}');
    let _ = text.update_cache(&font);
    assert_eq!(text.glyphs.len(), 1);
    assert_eq!(text.glyphs[0].ch, '\u{e9}');
}

#[test]
fn update_cache_places_shapes_and_moves_the_caret() {
    let font = mono_font(10, 16);
    let mut text = RawText::from_internal(1000, 1000);
    let mut with_cursor = text.with_cursor(&wm::Global::new(mono_font(10, 16), Vec2 {
        x: 1000,
        y: 1000,
    }));
    with_cursor.set_content(vec!['h', 'i']);
    let uploads = with_cursor.update_cache(&font);
    assert_eq!(with_cursor.glyphs.len(), 2);
    // both characters use the fallback glyph, so one atlas block suffices
    assert_eq!(uploads.len(), 1);
    let cursor = with_cursor.cursor.as_ref().unwrap();
    assert_eq!(cursor.local_position, Vec2 { x: 20, y: 0 });

    // the renderable output carries six vertices per placed glyph
    let render_info = with_cursor.to_font_render_info();
    assert_eq!(render_info.len(), 12);
    assert_eq!(render_info[0].a_position, Vec2 { x: 0, y: 0 });

    text = RawText::from_internal(1000, 1000);
    text.push_char('x');
    let up2 = text.update_cache(&font);
    assert_eq!(up2.len(), 1);
}

#[test]
fn pop_char_is_a_no_op_on_empty_content() {
    let mut text = RawText::from_internal(100, 100);
    assert_eq!(text.pop_char(), None);
    text.push_char('a');
    assert_eq!(text.pop_char(), Some('a'));
    assert_eq!(text.pop_char(), None);
    assert!(text.content.is_empty());
}
