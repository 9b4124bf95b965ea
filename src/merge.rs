use vstd::prelude::*;

use crate::math::{Point, ONE};
use crate::painter::{
    BatchFlag, BatchUniforms, BlendMode, CanvasId, Painter, Texture, damage, default_uniforms,
    quad_fits, quad_uv, quad_uv_corners, quad_vertices,
};

verus! {

/// Merges two textures together using a blend mode
#[derive(Debug, Clone, Copy)]
pub struct Merge {
    pub background: Texture,
    pub foreground: Texture,
    pub blend_mode: BlendMode,
    /// Blend factor in fixed point
    pub factor: i32,
    pub pos: Point,
}

impl Merge {
    pub fn new(background: Texture, foreground: Texture, blend_mode: BlendMode) -> (r: Merge)
        ensures
            r == (Merge { background, foreground, blend_mode, factor: ONE, pos: Point { x: 0, y: 0 } }),
    {
        Merge { background, foreground, blend_mode, factor: ONE, pos: Point::new(0, 0) }
    }

    pub fn with_factor(self, factor: i32) -> (r: Merge)
        ensures
            r == (Merge { factor, ..self }),
    {
        Merge { factor, ..self }
    }

    pub fn with_pos(self, pos: Point) -> (r: Merge)
        ensures
            r == (Merge { pos, ..self }),
    {
        Merge { pos, ..self }
    }

    /// Uniforms of the merge's batch
    pub open spec fn uniforms(&self) -> BatchUniforms {
        BatchUniforms {
            flags: BatchFlag::Merge,
            blend_mode: self.blend_mode,
            factor: self.factor,
            ..default_uniforms()
        }
    }

    /// Draws one quad the size of `canvas` that blends both textures into it
    pub fn draw(&self, painter: &mut Painter, canvas: CanvasId)
        requires
            old(painter).wf(),
            canvas.0 < old(painter).context.canvases@.len(),
            quad_fits(self.pos, old(painter).context.canvases@[canvas.0 as int].data.size),
        ensures
            final(painter).wf(),
            final(painter).has_state(
                Some(canvas),
                Some((self.background, self.foreground)),
                self.uniforms(),
            ),
            final(painter).pushed@ == old(painter).pushed@.push(
                quad_vertices(
                    self.pos,
                    old(painter).context.canvases@[canvas.0 as int].data.size,
                    quad_uv(),
                    ONE,
                ),
            ),
            final(painter).context.canvases@ == damage(
                old(painter).context.canvases@,
                Some(canvas),
            ),
            old(painter).commands@.is_prefix_of(final(painter).commands@),
            final(painter).screen_size == old(painter).screen_size,
            final(painter).empty_texture == old(painter).empty_texture,
            final(painter).white_texture == old(painter).white_texture,
    {
        let size = painter.canvas(canvas).size();
        let uniforms = BatchUniforms {
            flags: BatchFlag::Merge,
            blend_mode: self.blend_mode,
            factor: self.factor,
            ..BatchUniforms::new()
        };
        painter.set_uniforms(Some(canvas), Some((self.background, self.foreground)), uniforms);
        let ghost mid = *painter;
        painter.push_quad(self.pos, size, quad_uv_corners(), ONE);
        proof {
            crate::painter::lemma_prefix_trans(old(painter).commands@, mid.commands@, painter.commands@);
        }
    }
}

} // verus!
