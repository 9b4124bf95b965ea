use chip_maximator::anim::Anim;
use chip_maximator::icon::{Icon, IconKind};
use chip_maximator::math::{Cell, Color, Flip, Point, ONE};
use chip_maximator::painter::{BatchFlag, Painter, Texture};
use chip_maximator::sprite::Sprite;
use chip_maximator::text::{CharWidth, Font, FontLookup, Text, MAX_CHARS};

fn painter() -> Painter {
    Painter::new(Texture(1), Texture(2), Point::from_px(700, 700))
}

#[test]
fn full_frame_sprite_uses_whole_texture() {
    let s = Sprite::new(Texture(9), Point::from_px(32, 32));
    assert_eq!(s.uv_corners(), [(0, ONE), (ONE, ONE), (ONE, 0), (0, 0)]);
}

#[test]
fn sprite_frame_in_grid() {
    let s = Sprite::new(Texture(9), Point::from_px(32, 32))
        .with_frames_count(Cell::new(4, 2))
        .with_frame(Cell::new(1, 0));
    // frame x = 1 of 4 spans u in [1/4, 2/4]; frame y = 0 of 2 is the upper half
    assert_eq!(
        s.uv_corners(),
        [(ONE / 4, ONE), (ONE / 2, ONE), (ONE / 2, ONE / 2), (ONE / 4, ONE / 2)]
    );
}

#[test]
fn sprite_flip_mirrors_uv() {
    let s = Sprite::new(Texture(9), Point::from_px(32, 32)).with_flip(Flip { x: true, y: false });
    assert_eq!(s.uv_corners(), [(ONE, ONE), (0, ONE), (0, 0), (ONE, 0)]);
    let s = Sprite::new(Texture(9), Point::from_px(32, 32)).with_flip(Flip { x: false, y: true });
    assert_eq!(s.uv_corners(), [(0, 0), (ONE, 0), (ONE, ONE), (0, ONE)]);
}

#[test]
fn sprite_crop_shrinks_quad() {
    let mut p = painter();
    let c = p
        .context
        .new_canvas(10, Texture(3), Point::from_px(100, 100), Color::black());
    let s = Sprite::new(Texture(9), Point::from_px(40, 20))
        .with_pos(Point::from_px(10, 10))
        .with_crop(Point::new(ONE / 2, ONE / 4));
    s.draw(&mut p, c);
    let v = &p.batch_vertices;
    // cropped right-to-left by half, bottom-to-top to a quarter
    assert_eq!((v[0].x, v[0].y), (10 * ONE, 25 * ONE));
    assert_eq!((v[2].x, v[2].y), (30 * ONE, 30 * ONE));
    assert_eq!((v[2].u, v[2].v), (ONE / 2, 0));
    assert_eq!((v[0].u, v[0].v), (0, ONE / 4));
    assert_eq!(p.batch_textures, Some((Texture(9), Texture(1))));
    assert_eq!(p.batch_uniforms.flags, BatchFlag::Sprite);
    assert!(p.canvas(c).damaged);
}

#[test]
fn sprite_with_lookup_texture_fills_target() {
    let mut p = painter();
    let c = p
        .context
        .new_canvas(10, Texture(3), Point::from_px(64, 48), Color::black());
    let s = Sprite::new(Texture(9), Point::from_px(40, 20))
        .with_pos(Point::from_px(10, 10))
        .with_uv(Texture(30));
    s.draw(&mut p, c);
    let v = &p.batch_vertices;
    assert_eq!((v[0].x, v[0].y), (0, 0));
    assert_eq!((v[2].x, v[2].y), (64 * ONE, 48 * ONE));
    assert_eq!(p.batch_textures, Some((Texture(9), Texture(30))));
}

#[test]
fn sprite_scale_and_anim_frame() {
    let mut anim = Anim::new(10, 2..5);
    anim.play(false);
    let s = Sprite::new(Texture(9), Point::from_px(40, 20))
        .with_scale(ONE / 2)
        .with_anim(&anim);
    assert_eq!(s.size, Point::from_px(20, 10));
    assert_eq!(s.frame.x, 2);
    let s = s.with_opacity(ONE / 4).with_fg(Color::gray(128)).with_bg(Color::white());
    assert_eq!(s.opacity, ONE / 4);
    assert_eq!(s.foreground, Color::new(128, 128, 128));
    assert_eq!(s.background, Color::white());
}

fn ascii_font() -> Font {
    Font {
        texture: Texture(40),
        size: Point::from_px(8, 8),
        count: 256,
        lookup: FontLookup::Ascii,
    }
}

#[test]
fn text_advances_pen_and_skips_zero() {
    let font = ascii_font();
    let mut p = painter();
    let c = p
        .context
        .new_canvas(10, Texture(3), Point::from_px(100, 100), Color::black());
    let mut t = Text::new(&font).with_pos(Point::from_px(5, 7));
    t.draw_chars(&mut p, c, &[b'A', 0, b'B']);
    assert_eq!(p.quads(), 2);
    assert_eq!(t.char_offset_px, 16 * ONE);
    let v = &p.batch_vertices;
    assert_eq!((v[4].x, v[4].y), (13 * ONE, 7 * ONE));
    // glyphs 65 and 66 of 256
    assert_eq!((v[0].u, v[1].u), (65 * ONE / 256, 66 * ONE / 256));
    assert_eq!((v[4].u, v[5].u), (66 * ONE / 256, 67 * ONE / 256));
    assert_eq!(p.batch_textures, Some((Texture(40), Texture(1))));
    assert_eq!(p.batch_uniforms.flags, BatchFlag::Text);
}

#[test]
fn text_new_line_resets_pen() {
    let font = ascii_font();
    let mut p = painter();
    let c = p
        .context
        .new_canvas(10, Texture(3), Point::from_px(100, 100), Color::black());
    let mut t = Text::new(&font).with_font_size(2 * ONE);
    t.draw_str(&mut p, c, "ab\nc");
    assert_eq!(p.quads(), 3);
    assert_eq!(t.line_offset, 1);
    assert_eq!(t.char_offset_px, 16 * ONE);
    let v = &p.batch_vertices;
    assert_eq!((v[8].x, v[8].y), (0, 16 * ONE));
    assert_eq!((v[10].x, v[10].y), (16 * ONE, 32 * ONE));

    t.draw_line(&mut p, c, b"d");
    assert_eq!(t.line_offset, 2);
    assert_eq!(t.char_offset_px, 0);
}

#[test]
fn custom_font_uses_table_and_widths() {
    let mut table = [0u8; MAX_CHARS];
    let mut widths = [CharWidth::Normal; MAX_CHARS];
    table[b'i' as usize] = 3;
    widths[b'i' as usize] = CharWidth::Half;
    let font = Font {
        texture: Texture(41),
        size: Point::from_px(16, 16),
        count: 8,
        lookup: FontLookup::Custom(table, widths),
    };
    let mut p = painter();
    let c = p
        .context
        .new_canvas(10, Texture(3), Point::from_px(100, 100), Color::black());
    let mut t = Text::new(&font);
    t.draw_chars(&mut p, c, b"ii");
    assert_eq!(t.char_offset_px, 16 * ONE);
    let v = &p.batch_vertices;
    assert_eq!((v[4].x, v[5].x), (8 * ONE, 16 * ONE));
    // half a cell centred in cell 3 of 8: u from 3.25 / 8 to 3.75 / 8
    assert_eq!(v[0].u, (3 * ONE + ONE / 4) / 8);
    assert_eq!(v[1].u, (3 * ONE + 3 * ONE / 4) / 8);
    assert_eq!(CharWidth::ThreeQuarters.quarters(), 3);
}

#[test]
fn icon_is_centred_and_animated() {
    let mut p = painter();
    let c = p
        .context
        .new_canvas(10, Texture(3), Point::from_px(100, 100), Color::black());
    let icons = Sprite::new(Texture(50), Point::from_px(32, 32)).with_frames_count(Cell::new(4, 4));
    let mut icon = Icon::new(icons, IconKind::Pointer).with_pos(Point::from_px(50, 50));
    assert_eq!(icon.inner.frame.x, 1);
    icon.draw(&mut p, c, 2);
    assert_eq!(icon.inner.pos, Point::from_px(34, 34));
    assert_eq!(icon.inner.frame, Cell::new(1, 2));
    assert_eq!(p.quads(), 1);
    assert_eq!((p.batch_vertices[0].x, p.batch_vertices[0].y), (34 * ONE, 34 * ONE));
}
