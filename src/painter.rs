use vstd::prelude::*;

use crate::math::{Color, Point, ONE, opaque_color, transparent_color};

verus! {

/// Number of quads that one batch holds
pub const BATCH_MAX_QUADS: usize = 200;

/// Number of vertices that one batch holds (4 per quad)
pub const BATCH_MAX_VERTICES: usize = 800;

/// Number of indices that one batch holds (6 per quad)
pub const BATCH_MAX_INDICES: usize = 1200;

/// Number of bytes of pixel data for a texture of `width * height` pixels
pub open spec fn texture_data_len(width: int, height: int, alpha: bool) -> int {
    width * height * if alpha {
        4int
    } else {
        3int
    }
}

/// Whether `len` bytes are exactly the pixel data of a `width * height`
/// texture, four channels with alpha and three without
pub fn texture_data_fits(width: i32, height: i32, alpha: bool, len: usize) -> (r: bool)
    ensures
        r == (texture_data_len(width as int, height as int, alpha) == len as int),
{
    let channels: i128 = if alpha {
        4
    } else {
        3
    };
    proof {
        assert(-0x4000_0000_0000_0000 <= (width as int) * (height as int) <= 0x4000_0000_0000_0000)
            by (nonlinear_arith)
            requires
                i32::MIN <= width <= i32::MAX,
                i32::MIN <= height <= i32::MAX,
        ;
    }
    let pixels = (width as i128) * (height as i128);
    pixels * channels == len as i128
}

/// Texture coordinates of a full quad, rows bottom-up
pub open spec fn quad_uv() -> Seq<(i32, i32)> {
    seq![(0, 0), (ONE, 0), (ONE, ONE), (0, ONE)]
}

/// Texture coordinates of a full quad, rows top-down
pub open spec fn quad_flipped_uv() -> Seq<(i32, i32)> {
    seq![(0, ONE), (ONE, ONE), (ONE, 0), (0, 0)]
}

pub fn quad_uv_corners() -> (r: [(i32, i32); 4])
    ensures
        r@ == quad_uv(),
{
    let r: [(i32, i32); 4] = [(0, 0), (ONE, 0), (ONE, ONE), (0, ONE)];
    assert(r@ =~= quad_uv());
    r
}

pub fn quad_flipped_uv_corners() -> (r: [(i32, i32); 4])
    ensures
        r@ == quad_flipped_uv(),
{
    let r: [(i32, i32); 4] = [(0, ONE), (ONE, ONE), (ONE, 0), (0, 0)];
    assert(r@ =~= quad_flipped_uv());
    r
}

/// RGBA8 texture object id
#[derive(Debug, Clone, Copy, PartialEq, Eq, Structural)]
pub struct Texture(pub u32);

/// Canvas id: index into the registry's list of canvases
#[derive(Debug, Clone, Copy, PartialEq, Eq, Structural)]
pub struct CanvasId(pub usize);

/// Canvas data
#[derive(Debug, Clone, Copy, PartialEq, Eq, Structural)]
pub struct CanvasData {
    /// Background color
    pub color: Color,
    pub size: Point,
    /// Whether to clear the canvas on every frame it stays idle
    pub clear: bool,
}

/// Canvas: a render target made of a texture and a framebuffer
#[derive(Debug, Clone, Copy, PartialEq, Eq, Structural)]
pub struct Canvas {
    pub framebuffer: u32,
    pub texture: Texture,
    /// Whether something was drawn onto the canvas during the current frame
    pub damaged: bool,
    pub data: CanvasData,
}

impl Canvas {
    pub fn size(&self) -> (r: Point)
        ensures
            r == self.data.size,
    {
        self.data.size
    }
}

/// Blend mode of a merge
#[derive(Debug, Clone, Copy, PartialEq, Eq, Structural)]
pub enum BlendMode {
    Normal,
    Screen,
    Add,
    Overlay,
}

pub open spec fn blend_code(mode: BlendMode) -> i32 {
    match mode {
        BlendMode::Normal => 0,
        BlendMode::Screen => 1,
        BlendMode::Add => 2,
        BlendMode::Overlay => 3,
    }
}

impl BlendMode {
    /// Value of the mode in the shader
    pub fn code(self) -> (r: i32)
        ensures
            r == blend_code(self),
    {
        match self {
            BlendMode::Normal => 0,
            BlendMode::Screen => 1,
            BlendMode::Add => 2,
            BlendMode::Overlay => 3,
        }
    }
}

/// Draw mode of a batch
#[derive(Debug, Clone, Copy, PartialEq, Eq, Structural)]
pub enum BatchFlag {
    Sprite,
    Text,
    Merge,
}

pub open spec fn flag_bits(flag: BatchFlag) -> i32 {
    match flag {
        BatchFlag::Sprite => 1,
        BatchFlag::Text => 2,
        BatchFlag::Merge => 4,
    }
}

impl BatchFlag {
    /// Bit of the mode in the shader's flags
    pub fn bits(self) -> (r: i32)
        ensures
            r == flag_bits(self),
    {
        match self {
            BatchFlag::Sprite => 1,
            BatchFlag::Text => 2,
            BatchFlag::Merge => 4,
        }
    }
}

/// Uniforms shared by every quad of a batch
#[derive(Debug, Clone, Copy, PartialEq, Eq, Structural)]
pub struct BatchUniforms {
    pub flags: BatchFlag,
    /// Foreground tint color
    pub foreground: Color,
    /// Background color
    pub background: Color,
    pub blend_mode: BlendMode,
    /// Blend factor in fixed point
    pub factor: i32,
}

pub open spec fn default_uniforms() -> BatchUniforms {
    BatchUniforms {
        flags: BatchFlag::Sprite,
        foreground: opaque_color(255, 255, 255),
        background: transparent_color(),
        blend_mode: BlendMode::Normal,
        factor: ONE,
    }
}

impl BatchUniforms {
    pub fn new() -> (r: BatchUniforms)
        ensures
            r == default_uniforms(),
    {
        BatchUniforms {
            flags: BatchFlag::Sprite,
            foreground: Color::white(),
            background: Color::transparent(),
            blend_mode: BlendMode::Normal,
            factor: ONE,
        }
    }
}

impl Default for BatchUniforms {
    fn default() -> (r: BatchUniforms)
        ensures
            r == default_uniforms(),
    {
        BatchUniforms::new()
    }
}

/// One vertex of a quad: position, texture coordinates and opacity, in fixed point
#[derive(Debug, Clone, Copy, PartialEq, Eq, Structural)]
pub struct Vertex {
    pub x: i32,
    pub y: i32,
    pub u: i32,
    pub v: i32,
    pub opacity: i32,
}

/// One draw call of a batch, for the host to perform
#[derive(Debug)]
pub struct DrawCall {
    pub target: Option<CanvasId>,
    /// Whether the target framebuffer, viewport and scissor must be bound first
    pub bind_target: bool,
    /// Whether the target must be cleared after binding it
    pub clear_target: bool,
    pub clear_color: Color,
    pub view_size: Point,
    pub textures: Option<(Texture, Texture)>,
    pub uniforms: BatchUniforms,
    pub vertices: Vec<Vertex>,
    pub indices: Vec<u32>,
}

/// Work for the host, in order
#[derive(Debug)]
pub enum Command {
    /// Clear a whole render target with a color
    Clear { target: Option<CanvasId>, color: Color, size: Point },
    /// Draw a batch
    Draw(DrawCall),
}

pub open spec fn is_draw(c: Command) -> bool {
    c is Draw
}

/// Number of draw calls in a sequence of commands
pub open spec fn count_draws(s: Seq<Command>) -> nat
    decreases s.len(),
{
    if s.len() == 0 {
        0
    } else {
        count_draws(s.drop_last()) + if is_draw(s.last()) {
            1nat
        } else {
            0nat
        }
    }
}

/// Appending a command adds one draw call exactly when it is one
pub proof fn lemma_count_draws_push(s: Seq<Command>, c: Command)
    ensures
        count_draws(s.push(c)) == count_draws(s) + if is_draw(c) {
            1nat
        } else {
            0nat
        },
{
    assert(s.push(c).drop_last() =~= s);
}

/// Index of corner `k` (0..6) of a quad in the fixed triangle winding 0-1-2, 2-3-0
pub open spec fn winding(k: int) -> int {
    if k == 0 {
        0
    } else if k == 1 {
        1
    } else if k == 2 {
        2
    } else if k == 3 {
        2
    } else if k == 4 {
        3
    } else {
        0
    }
}

/// The indices of `n` quads laid out one after another
pub open spec fn quad_indices(n: nat) -> Seq<u32> {
    Seq::new(6 * n, |i: int| (4 * (i / 6) + winding(i % 6)) as u32)
}

/// The four vertices of one quad
pub open spec fn quad_vertices(pos: Point, size: Point, uv: Seq<(i32, i32)>, opacity: i32) -> Seq<
    Vertex,
> {
    let x0 = pos.x;
    let y0 = pos.y;
    let x1 = (pos.x + size.x) as i32;
    let y1 = (pos.y + size.y) as i32;
    seq![
        Vertex { x: x0, y: y0, u: uv[0].0, v: uv[0].1, opacity },
        Vertex { x: x1, y: y0, u: uv[1].0, v: uv[1].1, opacity },
        Vertex { x: x1, y: y1, u: uv[2].0, v: uv[2].1, opacity },
        Vertex { x: x0, y: y1, u: uv[3].0, v: uv[3].1, opacity },
    ]
}

/// The canvases after a quad was drawn onto `target`
pub open spec fn damage(canvases: Seq<Canvas>, target: Option<CanvasId>) -> Seq<Canvas> {
    match target {
        Some(id) => canvases.update(id.0 as int, Canvas { damaged: true, ..canvases[id.0 as int] }),
        None => canvases,
    }
}

/// A prefix of a prefix is a prefix
pub proof fn lemma_prefix_trans(a: Seq<Command>, b: Seq<Command>, c: Seq<Command>)
    requires
        a.is_prefix_of(b),
        b.is_prefix_of(c),
    ensures
        a.is_prefix_of(c),
{
    assert forall|i: int| 0 <= i < a.len() implies a[i] == c[i] by {
        assert(a[i] == b.subrange(0, a.len() as int)[i]);
        assert(b[i] == c.subrange(0, b.len() as int)[i]);
    }
    assert(a =~= c.subrange(0, a.len() as int));
}

/// Whether the last four vertices of `vs` are `quad`
pub open spec fn ends_with_quad(vs: Seq<Vertex>, quad: Seq<Vertex>) -> bool {
    &&& vs.len() >= 4
    &&& vs.subrange(vs.len() - 4, vs.len() as int) == quad
}

/// The canvases at the start of a frame: none damaged
pub open spec fn undamaged(canvases: Seq<Canvas>) -> Seq<Canvas> {
    Seq::new(canvases.len(), |i: int| Canvas { damaged: false, ..canvases[i] })
}

/// Whether an idle canvas is cleared at the end of a frame
pub open spec fn needs_clear(c: Canvas) -> bool {
    !c.damaged && c.data.clear
}

/// The command that clears canvas `i`
pub open spec fn clear_of(canvases: Seq<Canvas>, i: int) -> Command {
    Command::Clear {
        target: Some(CanvasId(i as usize)),
        color: canvases[i].data.color,
        size: canvases[i].data.size,
    }
}

/// The clears of the first `n` canvases that stayed idle, in order
pub open spec fn idle_clears(canvases: Seq<Canvas>, n: nat) -> Seq<Command>
    decreases n,
{
    if n == 0 {
        seq![]
    } else {
        idle_clears(canvases, (n - 1) as nat) + if needs_clear(canvases[n - 1]) {
            seq![clear_of(canvases, n - 1)]
        } else {
            seq![]
        }
    }
}

pub open spec fn quad_fits(pos: Point, size: Point) -> bool {
    &&& i32::MIN <= pos.x + size.x <= i32::MAX
    &&& i32::MIN <= pos.y + size.y <= i32::MAX
}

pub open spec fn valid_target(id: Option<CanvasId>, n: nat) -> bool {
    match id {
        Some(c) => c.0 < n,
        None => true,
    }
}

/// Rendering context: the registry of canvases
pub struct PainterContext {
    pub canvases: Vec<Canvas>,
}

impl PainterContext {
    pub fn new() -> (r: PainterContext)
        ensures
            r.canvases@.len() == 0,
    {
        PainterContext { canvases: Vec::new() }
    }

    /// Registers a canvas made of `framebuffer` with `texture` attached,
    /// cleared on every idle frame
    pub fn new_canvas(&mut self, framebuffer: u32, texture: Texture, size: Point, color: Color) -> (r:
        CanvasId)
        ensures
            r.0 == old(self).canvases@.len(),
            final(self).canvases@ == old(self).canvases@.push(
                Canvas {
                    framebuffer,
                    texture,
                    damaged: false,
                    data: CanvasData { color, size, clear: true },
                },
            ),
    {
        self.impl_new_canvas(framebuffer, texture, size, color, true)
    }

    /// Registers a canvas made of `framebuffer` with `texture` attached,
    /// which keeps its contents when idle
    pub fn new_canvas_no_clear(
        &mut self,
        framebuffer: u32,
        texture: Texture,
        size: Point,
        color: Color,
    ) -> (r: CanvasId)
        ensures
            r.0 == old(self).canvases@.len(),
            final(self).canvases@ == old(self).canvases@.push(
                Canvas {
                    framebuffer,
                    texture,
                    damaged: false,
                    data: CanvasData { color, size, clear: false },
                },
            ),
    {
        self.impl_new_canvas(framebuffer, texture, size, color, false)
    }

    fn impl_new_canvas(
        &mut self,
        framebuffer: u32,
        texture: Texture,
        size: Point,
        color: Color,
        clear: bool,
    ) -> (r: CanvasId)
        ensures
            r.0 == old(self).canvases@.len(),
            final(self).canvases@ == old(self).canvases@.push(
                Canvas { framebuffer, texture, damaged: false, data: CanvasData { color, size, clear } },
            ),
    {
        let id = CanvasId(self.canvases.len());
        self.canvases.push(
            Canvas { framebuffer, texture, damaged: false, data: CanvasData { color, size, clear } },
        );
        id
    }
}


/// Painter: accumulates quads into batches and turns them into draw calls
pub struct Painter {
    pub context: PainterContext,
    /// Size of the screen, the target when no canvas is named
    pub screen_size: Point,
    pub empty_texture: Texture,
    pub white_texture: Texture,
    /// Current batch canvas
    pub batch_canvas: Option<CanvasId>,
    /// Whether the target must be bound again before the next draw call
    pub batch_canvas_changed: bool,
    /// Current batch textures
    pub batch_textures: Option<(Texture, Texture)>,
    /// Current batch uniforms; any change affects the entire current batch
    pub batch_uniforms: BatchUniforms,
    /// Number of quads in the current batch
    pub batch_quads: usize,
    pub batch_vertices: Vec<Vertex>,
    pub batch_indices: Vec<u32>,
    /// Work issued so far and not yet taken by the host
    pub commands: Vec<Command>,
    /// Every quad pushed so far, in order
    pub pushed: Ghost<Seq<Seq<Vertex>>>,
}

fn same_textures(a: Option<(Texture, Texture)>, b: Option<(Texture, Texture)>) -> (r: bool)
    ensures
        r == (a == b),
{
    match (a, b) {
        (Some(x), Some(y)) => x.0 == y.0 && x.1 == y.1,
        (None, None) => true,
        _ => false,
    }
}

fn same_canvas(a: Option<CanvasId>, b: Option<CanvasId>) -> (r: bool)
    ensures
        r == (a == b),
{
    match (a, b) {
        (Some(x), Some(y)) => x.0 == y.0,
        (None, None) => true,
        _ => false,
    }
}

impl Painter {
    /// Well-formedness: the buffered geometry matches the quad count
    pub open spec fn wf(&self) -> bool {
        &&& self.batch_quads <= BATCH_MAX_QUADS
        &&& self.batch_vertices@.len() == 4 * self.batch_quads
        &&& self.batch_indices@ == quad_indices(self.batch_quads as nat)
        &&& valid_target(self.batch_canvas, self.context.canvases@.len())
        &&& self.context.canvases@.len() <= usize::MAX
    }

    /// What the target `id` is cleared with, and its size
    pub open spec fn target_data(&self, id: Option<CanvasId>) -> CanvasData {
        match id {
            Some(c) => self.context.canvases@[c.0 as int].data,
            None => CanvasData { color: opaque_color(0, 0, 0), size: self.screen_size, clear: true },
        }
    }

    /// Whether the batch state is `(canvas, textures, uniforms)`
    pub open spec fn has_state(
        &self,
        canvas: Option<CanvasId>,
        textures: Option<(Texture, Texture)>,
        uniforms: BatchUniforms,
    ) -> bool {
        &&& self.batch_canvas == canvas
        &&& self.batch_textures == textures
        &&& self.batch_uniforms == uniforms
    }

    /// Whether `c` is the draw call of the current batch
    pub open spec fn is_draw_of(&self, c: Command) -> bool {
        match c {
            Command::Draw(d) => {
                let data = self.target_data(self.batch_canvas);
                &&& d.target == self.batch_canvas
                &&& d.bind_target == self.batch_canvas_changed
                &&& d.clear_target == (self.batch_canvas_changed && data.clear)
                &&& d.clear_color == data.color
                &&& d.view_size == data.size
                &&& d.textures == self.batch_textures
                &&& d.uniforms == self.batch_uniforms
                &&& d.vertices@ == self.batch_vertices@
                &&& d.indices@ == self.batch_indices@
            },
            _ => false,
        }
    }

    /// Whether `n` is this painter after issuing the current batch: one draw call
    /// appended, nothing buffered, the target bound, everything else kept
    pub open spec fn flushes_to(&self, n: Painter) -> bool {
        &&& n.commands@.len() == self.commands@.len() + 1
        &&& n.commands@.drop_last() == self.commands@
        &&& self.is_draw_of(n.commands@.last())
        &&& n.batch_quads == 0
        &&& n.batch_vertices@.len() == 0
        &&& !n.batch_canvas_changed
        &&& n.batch_canvas == self.batch_canvas
        &&& n.batch_textures == self.batch_textures
        &&& n.context == self.context
        &&& n.screen_size == self.screen_size
        &&& n.empty_texture == self.empty_texture
        &&& n.white_texture == self.white_texture
        &&& n.pushed == self.pushed
    }

    /// Number of draw calls issued and not yet taken
    pub open spec fn draw_calls(&self) -> nat {
        count_draws(self.commands@)
    }

    pub fn new(empty_texture: Texture, white_texture: Texture, screen_size: Point) -> (r: Painter)
        ensures
            r.wf(),
            r.context.canvases@.len() == 0,
            r.commands@.len() == 0,
            r.batch_quads == 0,
            r.batch_canvas == None::<CanvasId>,
            r.batch_canvas_changed,
            r.batch_textures == None::<(Texture, Texture)>,
            r.batch_uniforms == default_uniforms(),
            r.screen_size == screen_size,
            r.empty_texture == empty_texture,
            r.white_texture == white_texture,
            r.pushed@.len() == 0,
    {
        let r = Painter {
            context: PainterContext::new(),
            screen_size,
            empty_texture,
            white_texture,
            batch_canvas: None,
            batch_canvas_changed: true,
            batch_textures: None,
            batch_uniforms: BatchUniforms::new(),
            batch_quads: 0,
            batch_vertices: Vec::new(),
            batch_indices: Vec::new(),
            commands: Vec::new(),
            pushed: Ghost(Seq::empty()),
        };
        assert(r.batch_indices@ =~= quad_indices(0));
        r
    }

    /// Returns the canvas with id `id`
    pub fn canvas(&self, id: CanvasId) -> (r: &Canvas)
        requires
            id.0 < self.context.canvases@.len(),
        ensures
            *r == self.context.canvases@[id.0 as int],
    {
        &self.context.canvases[id.0]
    }

    /// Returns what the target `id` is cleared with, and its size
    pub fn canvas_data(&self, id: Option<CanvasId>) -> (r: CanvasData)
        requires
            valid_target(id, self.context.canvases@.len()),
        ensures
            r == self.target_data(id),
    {
        match id {
            Some(c) => self.context.canvases[c.0].data,
            None => CanvasData { color: Color::black(), size: self.screen_size, clear: true },
        }
    }

    /// Number of quads in the current batch
    pub fn quads(&self) -> (r: usize)
        ensures
            r == self.batch_quads,
    {
        self.batch_quads
    }

    /// Issues the current batch, keeping its configuration
    fn flush(&mut self)
        requires
            old(self).wf(),
            old(self).batch_quads > 0,
        ensures
            final(self).wf(),
            old(self).flushes_to(*final(self)),
            final(self).batch_uniforms == old(self).batch_uniforms,
    {
        let data = self.canvas_data(self.batch_canvas);
        let bind_target = self.batch_canvas_changed;
        let mut vertices: Vec<Vertex> = Vec::new();
        let mut indices: Vec<u32> = Vec::new();
        std::mem::swap(&mut vertices, &mut self.batch_vertices);
        std::mem::swap(&mut indices, &mut self.batch_indices);
        let call = DrawCall {
            target: self.batch_canvas,
            bind_target,
            clear_target: bind_target && data.clear,
            clear_color: data.color,
            view_size: data.size,
            textures: self.batch_textures,
            uniforms: self.batch_uniforms,
            vertices,
            indices,
        };
        self.commands.push(Command::Draw(call));
        self.batch_canvas_changed = false;
        self.batch_quads = 0;
        assert(self.batch_indices@ =~= quad_indices(0));
        assert(self.commands@.drop_last() =~= old(self).commands@);
    }

    /// Draws the current batch and starts a new one with default uniforms;
    /// does nothing when the batch is empty
    pub fn draw(&mut self)
        requires
            old(self).wf(),
        ensures
            final(self).wf(),
            old(self).batch_quads == 0 ==> *final(self) == *old(self),
            old(self).batch_quads > 0 ==> old(self).flushes_to(*final(self))
                && final(self).batch_uniforms == default_uniforms(),
    {
        if self.batch_quads == 0 {
            return ;
        }
        self.flush();
        self.reset();
    }

    /// Resets the current batch
    pub fn reset(&mut self)
        requires
            old(self).wf(),
        ensures
            final(self).wf(),
            final(self).batch_quads == 0,
            final(self).batch_uniforms == default_uniforms(),
            final(self).batch_canvas == old(self).batch_canvas,
            final(self).batch_canvas_changed == old(self).batch_canvas_changed,
            final(self).batch_textures == old(self).batch_textures,
            final(self).commands == old(self).commands,
            final(self).context == old(self).context,
            final(self).screen_size == old(self).screen_size,
            final(self).empty_texture == old(self).empty_texture,
            final(self).white_texture == old(self).white_texture,
            final(self).pushed == old(self).pushed,
    {
        self.batch_quads = 0;
        self.batch_vertices.clear();
        self.batch_indices.clear();
        self.batch_uniforms = BatchUniforms::new();
        assert(self.batch_indices@ =~= quad_indices(0));
    }

    /// Sets the configuration of the current batch; when it differs from the
    /// active one, the buffered quads are drawn first
    pub fn set_uniforms(
        &mut self,
        canvas: Option<CanvasId>,
        textures: Option<(Texture, Texture)>,
        uniforms: BatchUniforms,
    )
        requires
            old(self).wf(),
            valid_target(canvas, old(self).context.canvases@.len()),
        ensures
            final(self).wf(),
            final(self).has_state(canvas, textures, uniforms),
            final(self).pushed == old(self).pushed,
            final(self).context == old(self).context,
            final(self).screen_size == old(self).screen_size,
            final(self).empty_texture == old(self).empty_texture,
            final(self).white_texture == old(self).white_texture,
            old(self).has_state(canvas, textures, uniforms) ==> {
                &&& final(self).batch_quads == old(self).batch_quads
                &&& final(self).batch_vertices@ == old(self).batch_vertices@
                &&& final(self).commands@ == old(self).commands@
                &&& final(self).batch_canvas_changed == old(self).batch_canvas_changed
            },
            !old(self).has_state(canvas, textures, uniforms) ==> {
                &&& final(self).batch_quads == 0
                &&& old(self).batch_quads == 0 ==> final(self).commands@ == old(self).commands@
                &&& old(self).batch_quads > 0 ==> final(self).commands@ == old(
                    self,
                ).commands@.push(final(self).commands@.last())
                &&& old(self).batch_quads > 0 ==> old(self).is_draw_of(final(self).commands@.last())
                &&& final(self).draw_calls() == old(self).draw_calls() + if old(self).batch_quads
                    > 0 {
                    1nat
                } else {
                    0nat
                }
                &&& final(self).batch_canvas_changed == (old(self).batch_canvas != canvas || (
                old(self).batch_canvas_changed && old(self).batch_quads == 0))
            },
    {
        let canvas_changed = !same_canvas(self.batch_canvas, canvas);
        if canvas_changed || !same_textures(self.batch_textures, textures) || self.batch_uniforms
            != uniforms {
            self.draw();
            proof {
                if old(self).batch_quads > 0 {
                    lemma_count_draws_push(old(self).commands@, self.commands@.last());
                    assert(self.commands@ == old(self).commands@.push(self.commands@.last()));
                }
            }
        }
        if canvas_changed {
            self.batch_canvas_changed = true;
        }
        self.batch_canvas = canvas;
        self.batch_textures = textures;
        self.batch_uniforms = uniforms;
    }

    /// Starts a frame: no canvas is damaged
    pub fn begin_frame(&mut self)
        requires
            old(self).wf(),
        ensures
            final(self).wf(),
            final(self).context.canvases@ == undamaged(old(self).context.canvases@),
            final(self).batch_canvas == old(self).batch_canvas,
            final(self).batch_canvas_changed == old(self).batch_canvas_changed,
            final(self).batch_textures == old(self).batch_textures,
            final(self).batch_uniforms == old(self).batch_uniforms,
            final(self).batch_quads == old(self).batch_quads,
            final(self).batch_vertices == old(self).batch_vertices,
            final(self).commands == old(self).commands,
            final(self).screen_size == old(self).screen_size,
            final(self).pushed == old(self).pushed,
    {
        let n = self.context.canvases.len();
        let mut i: usize = 0;
        while i < n
            invariant
                self.wf(),
                n == self.context.canvases@.len(),
                n == old(self).context.canvases@.len(),
                i <= n,
                forall|j: int|
                    0 <= j < n ==> #[trigger] self.context.canvases@[j] == if j < i {
                        Canvas { damaged: false, ..old(self).context.canvases@[j] }
                    } else {
                        old(self).context.canvases@[j]
                    },
                self.batch_canvas == old(self).batch_canvas,
                self.batch_canvas_changed == old(self).batch_canvas_changed,
                self.batch_textures == old(self).batch_textures,
                self.batch_uniforms == old(self).batch_uniforms,
                self.batch_quads == old(self).batch_quads,
                self.batch_vertices == old(self).batch_vertices,
                self.batch_indices == old(self).batch_indices,
                self.commands == old(self).commands,
                self.screen_size == old(self).screen_size,
                self.pushed == old(self).pushed,
            decreases n - i,
        {
            let mut c = self.context.canvases[i];
            c.damaged = false;
            self.context.canvases.set(i, c);
            i += 1;
        }
        assert(self.context.canvases@ =~= undamaged(old(self).context.canvases@));
    }

    /// Clears a whole target with its background color, after drawing the current batch
    pub fn clear(&mut self, canvas: Option<CanvasId>)
        requires
            old(self).wf(),
            valid_target(canvas, old(self).context.canvases@.len()),
        ensures
            final(self).wf(),
            final(self).batch_quads == 0,
            final(self).pushed == old(self).pushed,
            final(self).batch_canvas_changed,
            final(self).batch_canvas == old(self).batch_canvas,
            final(self).batch_textures == old(self).batch_textures,
            final(self).context == old(self).context,
            final(self).screen_size == old(self).screen_size,
            final(self).empty_texture == old(self).empty_texture,
            final(self).white_texture == old(self).white_texture,
            final(self).commands@.last() == (Command::Clear {
                target: canvas,
                color: old(self).target_data(canvas).color,
                size: old(self).target_data(canvas).size,
            }),
            old(self).batch_quads == 0 ==> final(self).commands@ == old(self).commands@.push(
                final(self).commands@.last(),
            ),
            old(self).batch_quads > 0 ==> {
                &&& final(self).commands@.len() == old(self).commands@.len() + 2
                &&& old(self).commands@.is_prefix_of(final(self).commands@)
                &&& old(self).is_draw_of(final(self).commands@[old(self).commands@.len() as int])
            },
    {
        let data = self.canvas_data(canvas);
        self.draw();
        let ghost mid = self.commands@;
        self.commands.push(Command::Clear { target: canvas, color: data.color, size: data.size });
        // the host leaves the screen bound after a clear
        self.batch_canvas_changed = true;
        proof {
            if old(self).batch_quads > 0 {
                assert(self.commands@.subrange(0, old(self).commands@.len() as int)
                    =~= old(self).commands@);
                assert(self.commands@[old(self).commands@.len() as int] == mid.last());
            }
        }
    }

    /// Ends a frame: draws the current batch, then clears every canvas that
    /// nothing was drawn onto and whose policy is to clear
    pub fn commit_frame(&mut self)
        requires
            old(self).wf(),
        ensures
            final(self).wf(),
            final(self).batch_quads == 0,
            final(self).pushed == old(self).pushed,
            final(self).context == old(self).context,
            final(self).screen_size == old(self).screen_size,
            old(self).batch_quads == 0 ==> final(self).commands@ == old(self).commands@
                + idle_clears(old(self).context.canvases@, old(self).context.canvases@.len()),
            old(self).batch_quads > 0 ==> {
                let k = old(self).commands@.len() as int;
                &&& final(self).commands@.subrange(0, k) == old(self).commands@
                &&& old(self).is_draw_of(final(self).commands@[k])
                &&& final(self).commands@.subrange(k + 1, final(self).commands@.len() as int)
                    == idle_clears(old(self).context.canvases@, old(self).context.canvases@.len())
            },
    {
        self.draw();
        let ghost start = self.commands@;
        let ghost cs = self.context.canvases@;
        let n = self.context.canvases.len();
        let mut i: usize = 0;
        while i < n
            invariant
                self.wf(),
                self.batch_quads == 0,
                self.pushed == old(self).pushed,
                self.context == old(self).context,
                cs == old(self).context.canvases@,
                n == cs.len(),
                self.screen_size == old(self).screen_size,
                i <= n,
                self.commands@ == start + idle_clears(cs, i as nat),
            decreases n - i,
        {
            let c = self.context.canvases[i];
            if !c.damaged && c.data.clear {
                self.clear(Some(CanvasId(i)));
                assert(self.commands@ =~= start + idle_clears(cs, (i + 1) as nat));
            } else {
                assert(self.commands@ =~= start + idle_clears(cs, (i + 1) as nat));
            }
            i += 1;
        }
        proof {
            if old(self).batch_quads > 0 {
                let k = old(self).commands@.len() as int;
                assert(start.drop_last() == old(self).commands@);
                assert(self.commands@.subrange(0, k) =~= old(self).commands@);
                assert(self.commands@[k] == start.last());
                assert(self.commands@.subrange(k + 1, self.commands@.len() as int) =~= idle_clears(
                    cs,
                    n as nat,
                ));
            }
        }
    }

    /// Hands the issued commands to the host, in order
    pub fn take_commands(&mut self) -> (r: Vec<Command>)
        requires
            old(self).wf(),
        ensures
            final(self).wf(),
            r@ == old(self).commands@,
            final(self).commands@.len() == 0,
            final(self).pushed == old(self).pushed,
            final(self).batch_canvas == old(self).batch_canvas,
            final(self).batch_canvas_changed == old(self).batch_canvas_changed,
            final(self).batch_textures == old(self).batch_textures,
            final(self).batch_uniforms == old(self).batch_uniforms,
            final(self).batch_quads == old(self).batch_quads,
            final(self).batch_vertices == old(self).batch_vertices,
            final(self).context == old(self).context,
            final(self).screen_size == old(self).screen_size,
    {
        let mut r: Vec<Command> = Vec::new();
        std::mem::swap(&mut r, &mut self.commands);
        r
    }

    /// Number of draw calls among the issued commands
    pub fn draw_calls_issued(&self) -> (r: usize)
        ensures
            r == self.draw_calls(),
    {
        let mut count: usize = 0;
        let mut i: usize = 0;
        while i < self.commands.len()
            invariant
                i <= self.commands@.len(),
                count == count_draws(self.commands@.subrange(0, i as int)),
                count <= i,
            decreases self.commands@.len() - i,
        {
            let ghost prefix = self.commands@.subrange(0, i as int);
            proof {
                assert(self.commands@.subrange(0, i + 1).drop_last() =~= prefix);
            }
            match &self.commands[i] {
                Command::Draw(_) => {
                    count += 1;
                },
                Command::Clear { .. } => {},
            }
            i += 1;
        }
        assert(self.commands@.subrange(0, self.commands@.len() as int) =~= self.commands@);
        count
    }

    /// Marks the current batch canvas as damaged
    fn damage_target(&mut self)
        requires
            valid_target(old(self).batch_canvas, old(self).context.canvases@.len()),
        ensures
            final(self).context.canvases@ == damage(
                old(self).context.canvases@,
                old(self).batch_canvas,
            ),
            final(self).batch_canvas == old(self).batch_canvas,
            final(self).batch_canvas_changed == old(self).batch_canvas_changed,
            final(self).batch_textures == old(self).batch_textures,
            final(self).batch_uniforms == old(self).batch_uniforms,
            final(self).batch_quads == old(self).batch_quads,
            final(self).batch_vertices == old(self).batch_vertices,
            final(self).batch_indices == old(self).batch_indices,
            final(self).commands == old(self).commands,
            final(self).screen_size == old(self).screen_size,
            final(self).empty_texture == old(self).empty_texture,
            final(self).white_texture == old(self).white_texture,
            final(self).pushed == old(self).pushed,
    {
        if let Some(id) = self.batch_canvas {
            let mut c = self.context.canvases[id.0];
            c.damaged = true;
            self.context.canvases.set(id.0, c);
        }
    }

    /// Appends one quad to the current batch (corners top-left, top-right,
    /// bottom-right, bottom-left); a full batch is drawn first, and the new quad
    /// starts the next batch with the same configuration
    pub fn push_quad(&mut self, pos: Point, size: Point, uv: [(i32, i32); 4], opacity: i32)
        requires
            old(self).wf(),
            quad_fits(pos, size),
        ensures
            final(self).wf(),
            final(self).batch_canvas == old(self).batch_canvas,
            final(self).batch_textures == old(self).batch_textures,
            final(self).batch_uniforms == old(self).batch_uniforms,
            final(self).screen_size == old(self).screen_size,
            final(self).empty_texture == old(self).empty_texture,
            final(self).white_texture == old(self).white_texture,
            final(self).context.canvases@ == damage(
                old(self).context.canvases@,
                old(self).batch_canvas,
            ),
            old(self).batch_quads < BATCH_MAX_QUADS ==> {
                &&& final(self).batch_quads == old(self).batch_quads + 1
                &&& final(self).batch_vertices@ == old(self).batch_vertices@ + quad_vertices(
                    pos,
                    size,
                    uv@,
                    opacity,
                )
                &&& final(self).commands@ == old(self).commands@
                &&& final(self).batch_canvas_changed == old(self).batch_canvas_changed
            },
            final(self).batch_quads >= 1,
            final(self).pushed@ == old(self).pushed@.push(quad_vertices(pos, size, uv@, opacity)),
            ends_with_quad(final(self).batch_vertices@, quad_vertices(pos, size, uv@, opacity)),
            old(self).commands@.is_prefix_of(final(self).commands@),
            old(self).batch_quads == BATCH_MAX_QUADS ==> {
                &&& final(self).batch_quads == 1
                &&& final(self).batch_vertices@ == quad_vertices(pos, size, uv@, opacity)
                &&& final(self).commands@ == old(self).commands@.push(final(self).commands@.last())
                &&& old(self).is_draw_of(final(self).commands@.last())
                &&& !final(self).batch_canvas_changed
            },
    {
        if self.batch_quads >= BATCH_MAX_QUADS {
            self.flush();
        }
        let ghost before = *self;
        let q = self.batch_quads;
        let x1 = pos.x + size.x;
        let y1 = pos.y + size.y;
        self.batch_vertices.push(Vertex { x: pos.x, y: pos.y, u: uv[0].0, v: uv[0].1, opacity });
        self.batch_vertices.push(Vertex { x: x1, y: pos.y, u: uv[1].0, v: uv[1].1, opacity });
        self.batch_vertices.push(Vertex { x: x1, y: y1, u: uv[2].0, v: uv[2].1, opacity });
        self.batch_vertices.push(Vertex { x: pos.x, y: y1, u: uv[3].0, v: uv[3].1, opacity });
        let base = (q * 4) as u32;
        self.batch_indices.push(base);
        self.batch_indices.push(base + 1);
        self.batch_indices.push(base + 2);
        self.batch_indices.push(base + 2);
        self.batch_indices.push(base + 3);
        self.batch_indices.push(base);
        self.batch_quads = q + 1;
        proof {
            let n = q as int;
            assert forall|k: int| 0 <= k < 6 implies #[trigger] ((6 * n + k) / 6) == n && (6 * n + k)
                % 6 == k by {
                assert((6 * n + k) / 6 == n && (6 * n + k) % 6 == k) by (nonlinear_arith)
                    requires
                        0 <= k < 6,
                        n >= 0,
                ;
            }
            assert(self.batch_indices@ =~= quad_indices((n + 1) as nat));
            assert(self.batch_vertices@ =~= before.batch_vertices@ + quad_vertices(
                pos,
                size,
                uv@,
                opacity,
            ));
        }
        self.pushed = Ghost(self.pushed@.push(quad_vertices(pos, size, uv@, opacity)));
        proof {
            if old(self).batch_quads == BATCH_MAX_QUADS {
                lemma_count_draws_push(old(self).commands@, self.commands@.last());
                assert(self.commands@ == old(self).commands@.push(self.commands@.last()));
            }
        }
        let ghost vs = self.batch_vertices@;
        assert(vs.subrange(vs.len() - 4, vs.len() as int) =~= quad_vertices(pos, size, uv@, opacity));
        self.damage_target();
        assert(old(self).commands@ =~= self.commands@.subrange(0, old(self).commands@.len() as int));
    }
}


/// Every reachable batch holds four vertices and six indices per quad, and the
/// indices of quad `i` refer only to its own vertices `4 * i ..= 4 * i + 3`.
pub proof fn lemma_batch_layout(p: Painter)
    requires
        p.wf(),
    ensures
        p.batch_vertices@.len() == 4 * p.batch_quads,
        p.batch_indices@.len() == 6 * p.batch_quads,
        forall|i: int|
            0 <= i < 6 * p.batch_quads ==> 4 * (i / 6) <= #[trigger] p.batch_indices@[i] <= 4 * (i
                / 6) + 3,
{
    assert forall|i: int| 0 <= i < 6 * p.batch_quads implies 4 * (i / 6) <= #[trigger] p.batch_indices@[i]
        <= 4 * (i / 6) + 3 by {
        assert(i / 6 < p.batch_quads) by (nonlinear_arith)
            requires
                0 <= i < 6 * p.batch_quads,
        ;
        assert(4 * (i / 6) + 3 <= 4 * BATCH_MAX_QUADS);
    }
}

proof fn lemma_clear_of_injective(cs: Seq<Canvas>, a: int, b: int)
    requires
        0 <= a < cs.len(),
        0 <= b < cs.len(),
        cs.len() <= usize::MAX,
        clear_of(cs, a) == clear_of(cs, b),
    ensures
        a == b,
{
    assert(a as usize == b as usize);
}

proof fn lemma_idle_clears_upto(cs: Seq<Canvas>, n: nat, i: int)
    requires
        n <= cs.len(),
        cs.len() <= usize::MAX,
        0 <= i < cs.len(),
    ensures
        idle_clears(cs, n).contains(clear_of(cs, i)) <==> (i < n && needs_clear(cs[i])),
    decreases n,
{
    if n > 0 {
        let prev = idle_clears(cs, (n - 1) as nat);
        let extra = if needs_clear(cs[n - 1]) {
            seq![clear_of(cs, n - 1)]
        } else {
            seq![]
        };
        let all = idle_clears(cs, n);
        lemma_idle_clears_upto(cs, (n - 1) as nat, i);
        assert(all == prev + extra);
        if all.contains(clear_of(cs, i)) {
            let k = choose|k: int| 0 <= k < all.len() && all[k] == clear_of(cs, i);
            if k >= prev.len() {
                assert(extra[k - prev.len()] == clear_of(cs, i));
                lemma_clear_of_injective(cs, n - 1, i);
            } else {
                assert(prev[k] == clear_of(cs, i));
            }
        }
        if i < n && needs_clear(cs[i]) {
            if i == n - 1 {
                assert(all[prev.len() as int] == clear_of(cs, i));
            } else {
                let k = choose|k: int| 0 <= k < prev.len() && prev[k] == clear_of(cs, i);
                assert(all[k] == clear_of(cs, i));
            }
        }
    }
}

/// At the end of a frame a canvas is cleared exactly when nothing was drawn
/// onto it during the frame and its policy is to clear; damaged canvases and
/// canvases that retain their contents are left untouched.
pub proof fn lemma_commit_frame_clears(p: Painter, i: int)
    requires
        p.wf(),
        0 <= i < p.context.canvases@.len(),
    ensures
        idle_clears(p.context.canvases@, p.context.canvases@.len()).contains(
            clear_of(p.context.canvases@, i),
        ) <==> (!p.context.canvases@[i].damaged && p.context.canvases@[i].data.clear),
{
    lemma_idle_clears_upto(p.context.canvases@, p.context.canvases@.len(), i);
}

} // verus!
