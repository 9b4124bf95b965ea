use chip_maximator::math::{Color, Point, ONE};
use chip_maximator::merge::Merge;
use chip_maximator::painter::{
    quad_uv_corners, BatchFlag, BatchUniforms, BlendMode, CanvasId, Command, Painter, Texture,
    BATCH_MAX_QUADS,
};

fn painter_with_canvases() -> (Painter, CanvasId, CanvasId) {
    let mut p = Painter::new(Texture(1), Texture(2), Point::from_px(700, 700));
    let a = p
        .context
        .new_canvas(10, Texture(3), Point::from_px(100, 100), Color::hex(0x102030));
    let b = p
        .context
        .new_canvas_no_clear(11, Texture(4), Point::from_px(50, 50), Color::black());
    (p, a, b)
}

fn unit_quad(p: &mut Painter, i: i16) {
    p.push_quad(Point::from_px(i, 0), Point::from_px(1, 1), quad_uv_corners(), ONE);
}

#[test]
fn quads_write_four_vertices_and_six_indices() {
    let (mut p, a, _) = painter_with_canvases();
    p.set_uniforms(Some(a), None, BatchUniforms::new());
    for i in 0..5 {
        unit_quad(&mut p, i);
    }
    assert_eq!(p.quads(), 5);
    assert_eq!(p.batch_vertices.len(), 20);
    assert_eq!(p.batch_indices.len(), 30);
    for q in 0..5u32 {
        let idx = &p.batch_indices[(q as usize) * 6..(q as usize) * 6 + 6];
        assert_eq!(idx, &[4 * q, 4 * q + 1, 4 * q + 2, 4 * q + 2, 4 * q + 3, 4 * q]);
    }
    let v = p.batch_vertices[4 * 3 + 2];
    assert_eq!((v.x, v.y, v.u, v.v, v.opacity), (4 * ONE, ONE, ONE, ONE, ONE));
}

#[test]
fn same_state_keeps_batch() {
    let (mut p, a, _) = painter_with_canvases();
    p.set_uniforms(Some(a), Some((Texture(5), Texture(6))), BatchUniforms::new());
    unit_quad(&mut p, 0);
    unit_quad(&mut p, 1);
    p.set_uniforms(Some(a), Some((Texture(5), Texture(6))), BatchUniforms::new());
    assert_eq!(p.quads(), 2);
    assert_eq!(p.draw_calls_issued(), 0);
}

#[test]
fn changed_state_flushes_batch() {
    let (mut p, a, b) = painter_with_canvases();
    p.set_uniforms(Some(a), None, BatchUniforms::new());
    unit_quad(&mut p, 0);
    p.set_uniforms(Some(b), None, BatchUniforms::new());
    assert_eq!(p.quads(), 0);
    assert_eq!(p.draw_calls_issued(), 1);

    unit_quad(&mut p, 0);
    p.set_uniforms(Some(b), Some((Texture(5), Texture(6))), BatchUniforms::new());
    assert_eq!(p.quads(), 0);
    assert_eq!(p.draw_calls_issued(), 2);

    unit_quad(&mut p, 0);
    let mut text = BatchUniforms::new();
    text.flags = BatchFlag::Text;
    p.set_uniforms(Some(b), Some((Texture(5), Texture(6))), text);
    assert_eq!(p.quads(), 0);
    assert_eq!(p.draw_calls_issued(), 3);

    // an empty batch is not drawn
    p.set_uniforms(None, None, BatchUniforms::new());
    assert_eq!(p.draw_calls_issued(), 3);
}

#[test]
fn draw_call_carries_batch() {
    let (mut p, a, _) = painter_with_canvases();
    let mut u = BatchUniforms::new();
    u.blend_mode = BlendMode::Screen;
    p.set_uniforms(Some(a), Some((Texture(7), Texture(8))), u);
    unit_quad(&mut p, 0);
    unit_quad(&mut p, 1);
    p.draw();
    let cmds = p.take_commands();
    assert_eq!(cmds.len(), 1);
    match &cmds[0] {
        Command::Draw(d) => {
            assert_eq!(d.target, Some(a));
            assert!(d.bind_target);
            assert!(d.clear_target);
            assert_eq!(d.clear_color, Color::hex(0x102030));
            assert_eq!(d.view_size, Point::from_px(100, 100));
            assert_eq!(d.textures, Some((Texture(7), Texture(8))));
            assert_eq!(d.uniforms.blend_mode, BlendMode::Screen);
            assert_eq!(d.vertices.len(), 8);
            assert_eq!(d.indices.len(), 12);
        }
        Command::Clear { .. } => panic!("expected a draw call"),
    }
    // the uniforms are back to default and the target stays bound
    assert_eq!(p.batch_uniforms, BatchUniforms::new());
    unit_quad(&mut p, 0);
    p.draw();
    match &p.take_commands()[0] {
        Command::Draw(d) => assert!(!d.bind_target && !d.clear_target),
        Command::Clear { .. } => panic!("expected a draw call"),
    }
}

#[test]
fn full_batch_flushes_before_next_quad() {
    let (mut p, a, _) = painter_with_canvases();
    p.set_uniforms(Some(a), None, BatchUniforms::new());
    for i in 0..BATCH_MAX_QUADS {
        unit_quad(&mut p, (i % 100) as i16);
    }
    assert_eq!(p.quads(), BATCH_MAX_QUADS);
    assert_eq!(p.draw_calls_issued(), 0);
    unit_quad(&mut p, 0);
    assert_eq!(p.quads(), 1);
    assert_eq!(p.draw_calls_issued(), 1);
}

#[test]
fn two_hundred_and_one_quads_make_two_draw_calls() {
    let (mut p, a, _) = painter_with_canvases();
    p.begin_frame();
    p.set_uniforms(Some(a), None, BatchUniforms::new());
    for i in 0..201 {
        unit_quad(&mut p, (i % 100) as i16);
    }
    p.commit_frame();
    assert_eq!(p.draw_calls_issued(), 2);
    let sizes: Vec<usize> = p
        .take_commands()
        .iter()
        .filter_map(|c| match c {
            Command::Draw(d) => Some(d.indices.len() / 6),
            Command::Clear { .. } => None,
        })
        .collect();
    assert_eq!(sizes, vec![200, 1]);
}

#[test]
fn commit_frame_clears_idle_canvases() {
    let mut p = Painter::new(Texture(1), Texture(2), Point::from_px(700, 700));
    let idle = p
        .context
        .new_canvas(10, Texture(3), Point::from_px(8, 8), Color::hex(0xff0000));
    let drawn = p
        .context
        .new_canvas(11, Texture(4), Point::from_px(8, 8), Color::black());
    let kept = p
        .context
        .new_canvas_no_clear(12, Texture(5), Point::from_px(8, 8), Color::black());
    p.begin_frame();
    p.set_uniforms(Some(drawn), None, BatchUniforms::new());
    unit_quad(&mut p, 0);
    assert!(p.canvas(drawn).damaged);
    assert!(!p.canvas(idle).damaged);
    p.commit_frame();
    let cmds = p.take_commands();
    assert_eq!(cmds.len(), 2);
    assert!(matches!(cmds[0], Command::Draw(_)));
    match cmds[1] {
        Command::Clear { target, color, size } => {
            assert_eq!(target, Some(idle));
            assert_eq!(color, Color::hex(0xff0000));
            assert_eq!(size, Point::from_px(8, 8));
        }
        Command::Draw(_) => panic!("expected a clear"),
    }
    assert!(!cmds.iter().any(|c| matches!(c, Command::Clear { target, .. } if *target == Some(kept))));

    // next frame nothing is drawn: both clearing canvases are cleared
    p.begin_frame();
    p.commit_frame();
    let cmds = p.take_commands();
    assert_eq!(cmds.len(), 2);
    assert!(matches!(cmds[0], Command::Clear { target: Some(t), .. } if t == idle));
    assert!(matches!(cmds[1], Command::Clear { target: Some(t), .. } if t == drawn));
}

#[test]
fn screen_target_is_its_own_state() {
    let (mut p, a, _) = painter_with_canvases();
    p.set_uniforms(None, None, BatchUniforms::new());
    unit_quad(&mut p, 0);
    let data = p.canvas_data(None);
    assert_eq!(data.size, Point::from_px(700, 700));
    assert_eq!(data.color, Color::black());
    assert!(data.clear);
    p.set_uniforms(Some(a), None, BatchUniforms::new());
    assert_eq!(p.draw_calls_issued(), 1);
}

#[test]
fn merge_draws_one_canvas_sized_quad() {
    let (mut p, a, _) = painter_with_canvases();
    let m = Merge::new(Texture(20), Texture(21), BlendMode::Add).with_factor(ONE / 2);
    m.draw(&mut p, a);
    assert_eq!(p.quads(), 1);
    assert_eq!(p.batch_textures, Some((Texture(20), Texture(21))));
    assert_eq!(p.batch_uniforms.flags, BatchFlag::Merge);
    assert_eq!(p.batch_uniforms.blend_mode, BlendMode::Add);
    assert_eq!(p.batch_uniforms.factor, ONE / 2);
    let v = p.batch_vertices[2];
    assert_eq!((v.x, v.y, v.u, v.v), (100 * ONE, 100 * ONE, ONE, ONE));
    assert!(p.canvas(a).damaged);
}

#[test]
fn blend_mode_and_flag_codes() {
    assert_eq!(BlendMode::Normal.code(), 0);
    assert_eq!(BlendMode::Screen.code(), 1);
    assert_eq!(BlendMode::Add.code(), 2);
    assert_eq!(BlendMode::Overlay.code(), 3);
    assert_eq!(BatchFlag::Sprite.bits(), 1);
    assert_eq!(BatchFlag::Text.bits(), 2);
    assert_eq!(BatchFlag::Merge.bits(), 4);
}
