use vstd::prelude::*;

use crate::anim::Anim;
use crate::math::{Cell, Color, Flip, Point, Rect, ONE, fx_mul, in_coord_range, opaque_color, transparent_color};
use crate::painter::{
    BatchFlag, BatchUniforms, BlendMode, Canvas, CanvasId, Painter, Texture, default_uniforms,
    ends_with_quad, quad_fits, quad_flipped_uv, quad_vertices, valid_target, damage,
};

verus! {

/// One texture coordinate of a frame in a grid of `frames` frames: the corner
/// `b` (0 or 1) of frame `offset`, mirrored by `flip`, scaled by `crop`
pub open spec fn uv_coord(b: int, flip: bool, offset: int, frames: int, crop: int) -> int {
    let bb = if flip {
        1 - b
    } else {
        b
    };
    fx_mul(((bb + offset) * ONE) / frames, crop)
}

/// Corner `i` of the top-down quad, in whole units
pub open spec fn base_corner(i: int) -> (int, int) {
    if i == 0 {
        (0, 1)
    } else if i == 1 {
        (1, 1)
    } else if i == 2 {
        (1, 0)
    } else {
        (0, 0)
    }
}

/// Draw sprite descriptor
#[derive(Debug, Clone, Copy)]
pub struct Sprite {
    pub texture: Texture,
    pub uv_texture: Option<Texture>,
    pub pos: Point,
    pub size: Point,
    /// Number of frames on the X and Y axis
    pub frames_count: Cell,
    /// Current frame index on each axis
    pub frame: Cell,
    pub flip: Flip,
    /// Crop of the sprite in `0..=ONE`; the sprite is cropped bottom-to-top, right-to-left
    pub crop: Point,
    pub opacity: i32,
    pub foreground: Color,
    pub background: Color,
}

impl Sprite {
    /// Whether the frame lies in the grid and the geometry is in range
    pub open spec fn valid(&self) -> bool {
        &&& self.frames_count.x >= 1
        &&& self.frames_count.y >= 1
        &&& 0 <= self.frame.x < self.frames_count.x
        &&& 0 <= self.frame.y < self.frames_count.y
        &&& 0 <= self.crop.x <= ONE
        &&& 0 <= self.crop.y <= ONE
        &&& self.pos.in_range()
        &&& self.size.in_range()
    }

    /// Texture coordinates of the four corners of the quad
    pub open spec fn uv(&self) -> Seq<(i32, i32)> {
        Seq::new(
            4,
            |i: int|
                (
                    uv_coord(
                        base_corner(i).0,
                        self.flip.x,
                        self.frame.x as int,
                        self.frames_count.x as int,
                        self.crop.x as int,
                    ) as i32,
                    uv_coord(
                        base_corner(i).1,
                        self.flip.y,
                        self.frames_count.y - 1 - self.frame.y,
                        self.frames_count.y as int,
                        self.crop.y as int,
                    ) as i32,
                ),
        )
    }

    /// The part of the size that the crop removes
    pub open spec fn cropped_off(&self) -> Point {
        Point {
            x: fx_mul(self.size.x as int, ONE - self.crop.x) as i32,
            y: fx_mul(self.size.y as int, ONE - self.crop.y) as i32,
        }
    }

    /// Position of the drawn quad on a target of size `target_size`
    pub open spec fn quad_pos(&self, target_size: Point) -> Point {
        let base = if self.uv_texture is Some {
            Point { x: 0, y: 0 }
        } else {
            self.pos
        };
        Point { x: base.x, y: (base.y + self.cropped_off().y) as i32 }
    }

    /// Size of the drawn quad on a target of size `target_size`
    pub open spec fn quad_size(&self, target_size: Point) -> Point {
        let base = if self.uv_texture is Some {
            target_size
        } else {
            self.size
        };
        Point {
            x: (base.x - self.cropped_off().x) as i32,
            y: (base.y - self.cropped_off().y) as i32,
        }
    }

    /// Uniforms of the sprite's batch
    pub open spec fn uniforms(&self) -> BatchUniforms {
        BatchUniforms {
            flags: BatchFlag::Sprite,
            foreground: self.foreground,
            background: self.background,
            ..default_uniforms()
        }
    }

    pub fn new(texture: Texture, size: Point) -> (r: Sprite)
        ensures
            r.texture == texture,
            r.uv_texture == None::<Texture>,
            r.pos == (Point { x: 0, y: 0 }),
            r.size == size,
            r.frames_count == (Cell { x: 1, y: 1 }),
            r.frame == (Cell { x: 0, y: 0 }),
            r.flip == (Flip { x: false, y: false }),
            r.crop == (Point { x: ONE, y: ONE }),
            r.opacity == ONE,
            r.foreground == opaque_color(255, 255, 255),
            r.background == transparent_color(),
    {
        Sprite {
            texture,
            uv_texture: None,
            pos: Point::new(0, 0),
            size,
            frames_count: Cell::new(1, 1),
            frame: Cell::new(0, 0),
            flip: Flip { x: false, y: false },
            crop: Point::new(ONE, ONE),
            opacity: ONE,
            foreground: Color::white(),
            background: Color::transparent(),
        }
    }

    /// Sprite of a whole canvas
    pub fn from_canvas(canvas: &Canvas) -> (r: Sprite)
        ensures
            r == Sprite::new_spec(canvas.texture, canvas.data.size),
    {
        Sprite::new(canvas.texture, canvas.data.size)
    }

    pub open spec fn new_spec(texture: Texture, size: Point) -> Sprite {
        Sprite {
            texture,
            uv_texture: None,
            pos: Point { x: 0, y: 0 },
            size,
            frames_count: Cell { x: 1, y: 1 },
            frame: Cell { x: 0, y: 0 },
            flip: Flip { x: false, y: false },
            crop: Point { x: ONE, y: ONE },
            opacity: ONE,
            foreground: opaque_color(255, 255, 255),
            background: transparent_color(),
        }
    }

    pub fn with_pos(self, pos: Point) -> (r: Sprite)
        ensures
            r == (Sprite { pos, ..self }),
    {
        Sprite { pos, ..self }
    }

    pub fn with_size(self, size: Point) -> (r: Sprite)
        ensures
            r == (Sprite { size, ..self }),
    {
        Sprite { size, ..self }
    }

    /// Scales the size by a fixed-point factor
    pub fn with_scale(self, scale: i32) -> (r: Sprite)
        requires
            self.size.in_range(),
            0 <= scale,
            in_coord_range(fx_mul(self.size.x as int, scale as int)),
            in_coord_range(fx_mul(self.size.y as int, scale as int)),
        ensures
            r == (Sprite {
                size: Point {
                    x: fx_mul(self.size.x as int, scale as int) as i32,
                    y: fx_mul(self.size.y as int, scale as int) as i32,
                },
                ..self
            }),
    {
        let x = fx_scale(self.size.x, scale);
        let y = fx_scale(self.size.y, scale);
        Sprite { size: Point::new(x, y), ..self }
    }

    pub fn with_frame(self, frame: Cell) -> (r: Sprite)
        ensures
            r == (Sprite { frame, ..self }),
    {
        Sprite { frame, ..self }
    }

    pub fn with_frames_count(self, frames: Cell) -> (r: Sprite)
        ensures
            r == (Sprite { frames_count: frames, ..self }),
    {
        Sprite { frames_count: frames, ..self }
    }

    /// Samples a per-pixel lookup texture and stretches over the whole target;
    /// `frame` and `frames_count` then apply to that texture only
    pub fn with_uv(self, texture: Texture) -> (r: Sprite)
        ensures
            r == (Sprite { uv_texture: Some(texture), ..self }),
    {
        Sprite { uv_texture: Some(texture), ..self }
    }

    pub fn with_crop(self, crop: Point) -> (r: Sprite)
        ensures
            r == (Sprite { crop, ..self }),
    {
        Sprite { crop, ..self }
    }

    pub fn with_opacity(self, opacity: i32) -> (r: Sprite)
        ensures
            r == (Sprite { opacity, ..self }),
    {
        Sprite { opacity, ..self }
    }

    pub fn with_flip(self, flip: Flip) -> (r: Sprite)
        ensures
            r == (Sprite { flip, ..self }),
    {
        Sprite { flip, ..self }
    }

    /// The rectangle the sprite covers
    pub fn rect(&self) -> (r: Rect)
        ensures
            r == (Rect { pos: self.pos, size: self.size }),
    {
        Rect::new(self.pos, self.size)
    }

    /// Shows the animation's current frame
    pub fn with_anim(self, anim: &Anim) -> (r: Sprite)
        ensures
            r == (Sprite { frame: Cell { x: anim.frame, ..self.frame }, ..self }),
    {
        Sprite { frame: Cell { x: anim.frame, y: self.frame.y }, ..self }
    }

    pub fn with_fg(self, color: Color) -> (r: Sprite)
        ensures
            r == (Sprite { foreground: color, ..self }),
    {
        Sprite { foreground: color, ..self }
    }

    pub fn with_bg(self, color: Color) -> (r: Sprite)
        ensures
            r == (Sprite { background: color, ..self }),
    {
        Sprite { background: color, ..self }
    }
}

fn uv_coord_exec(b: i64, flip: bool, offset: i64, frames: i64, crop: i64) -> (r: i32)
    requires
        0 <= b <= 1,
        0 <= offset,
        offset + 1 <= frames <= i32::MAX,
        0 <= crop <= ONE,
    ensures
        r == uv_coord(b as int, flip, offset as int, frames as int, crop as int),
        0 <= r <= ONE,
{
    let bb: i64 = if flip {
        1 - b
    } else {
        b
    };
    proof {
        let x = (bb + offset) as int;
        assert(0 <= x * 0x10000 <= 0x10000 * frames) by (nonlinear_arith)
            requires
                0 <= x <= frames,
        ;
        assert(0 <= (x * 0x10000) / (frames as int) <= 0x10000) by (nonlinear_arith)
            requires
                0 <= x <= frames,
                frames >= 1,
        ;
    }
    let t = (bb + offset) * (ONE as i64) / frames;
    proof {
        assert(0 <= (t as int) * (crop as int) <= 0x10000 * 0x10000) by (nonlinear_arith)
            requires
                0 <= t <= 0x10000,
                0 <= crop <= 0x10000,
        ;
        assert((t as int) * (crop as int) / 0x10000 <= 0x10000) by (nonlinear_arith)
            requires
                0 <= (t as int) * (crop as int) <= 0x10000 * 0x10000,
        ;
    }
    let r = t * crop / (ONE as i64);
    r as i32
}

impl Sprite {
    /// Texture coordinates of the four corners of the quad
    pub fn uv_corners(&self) -> (r: [(i32, i32); 4])
        requires
            self.valid(),
        ensures
            r@ == self.uv(),
    {
        let fx = self.frames_count.x as i64;
        let fy = self.frames_count.y as i64;
        let ox = self.frame.x as i64;
        let oy = (self.frames_count.y - 1 - self.frame.y) as i64;
        let cx = self.crop.x as i64;
        let cy = self.crop.y as i64;
        let r: [(i32, i32); 4] = [
            (
                uv_coord_exec(0, self.flip.x, ox, fx, cx),
                uv_coord_exec(1, self.flip.y, oy, fy, cy),
            ),
            (
                uv_coord_exec(1, self.flip.x, ox, fx, cx),
                uv_coord_exec(1, self.flip.y, oy, fy, cy),
            ),
            (
                uv_coord_exec(1, self.flip.x, ox, fx, cx),
                uv_coord_exec(0, self.flip.y, oy, fy, cy),
            ),
            (
                uv_coord_exec(0, self.flip.x, ox, fx, cx),
                uv_coord_exec(0, self.flip.y, oy, fy, cy),
            ),
        ];
        assert(r@ =~= self.uv());
        r
    }

    fn impl_draw(&self, painter: &mut Painter, canvas: Option<CanvasId>)
        requires
            old(painter).wf(),
            self.valid(),
            valid_target(canvas, old(painter).context.canvases@.len()),
            self.uv_texture is Some ==> old(painter).target_data(canvas).size.in_range(),
        ensures
            final(painter).wf(),
            final(painter).has_state(
                canvas,
                Some((self.texture, self.lookup_texture(old(painter).empty_texture))),
                self.uniforms(),
            ),
            ends_with_quad(
                final(painter).batch_vertices@,
                quad_vertices(
                    self.quad_pos(old(painter).target_data(canvas).size),
                    self.quad_size(old(painter).target_data(canvas).size),
                    self.uv(),
                    self.opacity,
                ),
            ),
            final(painter).context.canvases@ == damage(old(painter).context.canvases@, canvas),
            final(painter).pushed@ == old(painter).pushed@.push(
                quad_vertices(
                    self.quad_pos(old(painter).target_data(canvas).size),
                    self.quad_size(old(painter).target_data(canvas).size),
                    self.uv(),
                    self.opacity,
                ),
            ),
            old(painter).commands@.is_prefix_of(final(painter).commands@),
            final(painter).screen_size == old(painter).screen_size,
            final(painter).empty_texture == old(painter).empty_texture,
            final(painter).white_texture == old(painter).white_texture,
    {
        let uv = self.uv_corners();
        let minus_x = fx_mul_exec(self.size.x, ONE - self.crop.x);
        let minus_y = fx_mul_exec(self.size.y, ONE - self.crop.y);
        let mut pos = self.pos;
        let mut size = self.size;
        if self.uv_texture.is_some() {
            // stretch over the whole target when sampling a lookup texture
            pos = Point::new(0, 0);
            size = painter.canvas_data(canvas).size;
        }
        pos.y = pos.y + minus_y;
        let quad_size = Point::new(size.x - minus_x, size.y - minus_y);
        let uv_texture = match self.uv_texture {
            Some(t) => t,
            None => painter.empty_texture,
        };
        let uniforms = BatchUniforms {
            flags: BatchFlag::Sprite,
            foreground: self.foreground,
            background: self.background,
            ..BatchUniforms::new()
        };
        painter.set_uniforms(canvas, Some((self.texture, uv_texture)), uniforms);
        let ghost mid = *painter;
        painter.push_quad(pos, quad_size, uv, self.opacity);
        proof {
            crate::painter::lemma_prefix_trans(old(painter).commands@, mid.commands@, painter.commands@);
        }
    }

    /// The texture sampled as second texture: the lookup texture, or `empty`
    pub open spec fn lookup_texture(&self, empty: Texture) -> Texture {
        match self.uv_texture {
            Some(t) => t,
            None => empty,
        }
    }

    /// Draws the sprite onto a canvas
    pub fn draw(&self, painter: &mut Painter, canvas: CanvasId)
        requires
            old(painter).wf(),
            self.valid(),
            canvas.0 < old(painter).context.canvases@.len(),
            self.uv_texture is Some ==> old(painter).target_data(Some(canvas)).size.in_range(),
        ensures
            final(painter).wf(),
            final(painter).has_state(
                Some(canvas),
                Some((self.texture, self.lookup_texture(old(painter).empty_texture))),
                self.uniforms(),
            ),
            ends_with_quad(
                final(painter).batch_vertices@,
                quad_vertices(
                    self.quad_pos(old(painter).target_data(Some(canvas)).size),
                    self.quad_size(old(painter).target_data(Some(canvas)).size),
                    self.uv(),
                    self.opacity,
                ),
            ),
            final(painter).context.canvases@ == damage(
                old(painter).context.canvases@,
                Some(canvas),
            ),
            final(painter).pushed@ == old(painter).pushed@.push(
                quad_vertices(
                    self.quad_pos(old(painter).target_data(Some(canvas)).size),
                    self.quad_size(old(painter).target_data(Some(canvas)).size),
                    self.uv(),
                    self.opacity,
                ),
            ),
            old(painter).commands@.is_prefix_of(final(painter).commands@),
            final(painter).screen_size == old(painter).screen_size,
            final(painter).empty_texture == old(painter).empty_texture,
            final(painter).white_texture == old(painter).white_texture,
    {
        self.impl_draw(painter, Some(canvas));
    }

    /// Draws the sprite right onto the screen
    pub fn draw_screen(&self, painter: &mut Painter)
        requires
            old(painter).wf(),
            self.valid(),
            self.uv_texture is Some ==> old(painter).screen_size.in_range(),
        ensures
            final(painter).wf(),
            final(painter).has_state(
                None,
                Some((self.texture, self.lookup_texture(old(painter).empty_texture))),
                self.uniforms(),
            ),
            ends_with_quad(
                final(painter).batch_vertices@,
                quad_vertices(
                    self.quad_pos(old(painter).screen_size),
                    self.quad_size(old(painter).screen_size),
                    self.uv(),
                    self.opacity,
                ),
            ),
            final(painter).context.canvases@ == old(painter).context.canvases@,
            final(painter).pushed@ == old(painter).pushed@.push(
                quad_vertices(
                    self.quad_pos(old(painter).screen_size),
                    self.quad_size(old(painter).screen_size),
                    self.uv(),
                    self.opacity,
                ),
            ),
            old(painter).commands@.is_prefix_of(final(painter).commands@),
            final(painter).screen_size == old(painter).screen_size,
    {
        self.impl_draw(painter, None);
    }
}

/// A sprite showing frame `(0, 0)` of a one-frame grid, neither flipped nor
/// cropped, samples the whole texture: its corners are those of a direct
/// full-texture quad.
pub proof fn lemma_full_frame_uv(s: Sprite)
    requires
        s.frame == (Cell { x: 0, y: 0 }),
        s.frames_count == (Cell { x: 1, y: 1 }),
        s.flip == (Flip { x: false, y: false }),
        s.crop == (Point { x: ONE, y: ONE }),
    ensures
        s.uv() == quad_flipped_uv(),
{
    assert(s.uv() =~= quad_flipped_uv());
}

/// Fixed-point product of a coordinate and a non-negative factor
pub fn fx_scale(a: i32, f: i32) -> (r: i32)
    requires
        in_coord_range(a as int),
        0 <= f,
        in_coord_range(fx_mul(a as int, f as int)),
    ensures
        r == fx_mul(a as int, f as int),
{
    proof {
        assert(-0x2000_0000 * 0x7fff_ffff <= (a as int) * (f as int) <= 0x2000_0000 * 0x7fff_ffff)
            by (nonlinear_arith)
            requires
                -0x2000_0000 <= a <= 0x2000_0000,
                0 <= f <= 0x7fff_ffff,
        ;
    }
    let p = (a as i64) * (f as i64);
    if p >= 0 {
        (p / (ONE as i64)) as i32
    } else {
        (-((-p) / (ONE as i64))) as i32
    }
}

/// Fixed-point product of a coordinate and a factor in `0..=ONE`
pub fn fx_mul_exec(a: i32, f: i32) -> (r: i32)
    requires
        in_coord_range(a as int),
        0 <= f <= ONE,
    ensures
        r == fx_mul(a as int, f as int),
        in_coord_range(r as int),
        a >= 0 ==> 0 <= r <= a,
        a < 0 ==> a <= r <= 0,
{
    proof {
        lemma_fx_mul_bounds(a as int, f as int);
        assert(-0x1_0000_0000_0000 <= (a as int) * (f as int) <= 0x1_0000_0000_0000)
            by (nonlinear_arith)
            requires
                -0x2000_0000 <= a <= 0x2000_0000,
                0 <= f <= 0x10000,
        ;
    }
    let p = (a as i64) * (f as i64);
    if p >= 0 {
        (p / (ONE as i64)) as i32
    } else {
        (-((-p) / (ONE as i64))) as i32
    }
}

proof fn lemma_fx_mul_bounds(a: int, f: int)
    requires
        0 <= f <= ONE,
    ensures
        a >= 0 ==> 0 <= fx_mul(a, f) <= a,
        a < 0 ==> a <= fx_mul(a, f) <= 0,
{
    let one = ONE as int;
    if a >= 0 {
        assert(a * f >= 0 && (a * f) / one <= a) by (nonlinear_arith)
            requires
                a >= 0,
                0 <= f <= one,
                one > 0,
        ;
    } else {
        assert(-(a * f) >= 0 && (-(a * f)) / one <= -a) by (nonlinear_arith)
            requires
                a < 0,
                0 <= f <= one,
                one > 0,
        ;
    }
}

} // verus!
