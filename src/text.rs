use vstd::prelude::*;
use vstd::string::StringSliceAdditionalSpecFns;

use crate::math::{Color, Point, MAX_COORD, ONE, fx_mul, fx_mul_nonneg, opaque_color};
use crate::painter::{
    BatchFlag, BatchUniforms, CanvasId, Painter, Texture, Vertex, default_uniforms, quad_vertices,
    valid_target,
};
use crate::sprite::base_corner;

verus! {

/// Number of byte values a font can map
pub const MAX_CHARS: usize = 256;

/// Width of a glyph relative to the font's cell width
#[derive(Debug, Clone, Copy, PartialEq, Eq, Structural)]
pub enum CharWidth {
    Normal,
    Half,
    ThreeQuarters,
}

pub open spec fn width_quarters(w: CharWidth) -> int {
    match w {
        CharWidth::Normal => 4,
        CharWidth::Half => 2,
        CharWidth::ThreeQuarters => 3,
    }
}

impl CharWidth {
    /// The width in quarters of a cell
    pub fn quarters(self) -> (r: i32)
        ensures
            r == width_quarters(self),
    {
        match self {
            CharWidth::Normal => 4,
            CharWidth::Half => 2,
            CharWidth::ThreeQuarters => 3,
        }
    }
}

/// Font chars lookup table
#[derive(Debug)]
pub enum FontLookup {
    /// Byte `b` is glyph `b`, all of full width
    Ascii,
    /// Glyph index and width of each byte
    Custom([u8; MAX_CHARS], [CharWidth; MAX_CHARS]),
}

/// Text font: a strip of equally sized glyph cells in one texture
#[derive(Debug)]
pub struct Font {
    pub texture: Texture,
    /// Size of each glyph cell in the texture
    pub size: Point,
    /// Number of glyphs in the font
    pub count: i32,
    pub lookup: FontLookup,
}

impl Font {
    pub open spec fn valid(&self) -> bool {
        &&& 0 <= self.size.x <= MAX_COORD
        &&& 0 <= self.size.y <= MAX_COORD
        &&& self.count >= 1
    }

    /// Glyph cell of `byte`
    pub open spec fn glyph_index(&self, byte: u8) -> int {
        match self.lookup {
            FontLookup::Ascii => byte as int,
            FontLookup::Custom(table, _) => table@[byte as int] as int,
        }
    }

    /// Width of `byte` in quarters of a cell
    pub open spec fn glyph_quarters(&self, byte: u8) -> int {
        match self.lookup {
            FontLookup::Ascii => 4,
            FontLookup::Custom(_, widths) => width_quarters(widths@[byte as int]),
        }
    }

    fn glyph(&self, byte: u8) -> (r: (i32, i32))
        ensures
            r.0 == self.glyph_index(byte),
            r.1 == self.glyph_quarters(byte),
            0 <= r.0 <= 255,
            2 <= r.1 <= 4,
    {
        match &self.lookup {
            FontLookup::Ascii => (byte as i32, 4),
            FontLookup::Custom(table, widths) => {
                let w = widths[byte as usize].quarters();
                (table[byte as usize] as i32, w)
            },
        }
    }
}

/// Glyph cell of byte `b` in the serif font: a blank cell, then `A-Z`, `a-z`,
/// `0-9` and `.,-!?`; any other byte shows the blank cell
pub open spec fn serif_glyph(b: int) -> int {
    if 65 <= b <= 90 {
        b - 65 + 1
    } else if 97 <= b <= 122 {
        b - 97 + 27
    } else if 48 <= b <= 57 {
        b - 48 + 53
    } else if b == 46 {
        63
    } else if b == 44 {
        64
    } else if b == 45 {
        65
    } else if b == 33 {
        66
    } else if b == 63 {
        67
    } else {
        0
    }
}

/// Width of byte `b` in the serif font: half for ` iljft-,.!?`,
/// three quarters for `IJsrpeao1`, full otherwise
pub open spec fn serif_width(b: int) -> CharWidth {
    if b == 32 || b == 105 || b == 108 || b == 106 || b == 102 || b == 116 || b == 45 || b == 44
        || b == 46 || b == 33 || b == 63 {
        CharWidth::Half
    } else if b == 73 || b == 74 || b == 115 || b == 114 || b == 112 || b == 101 || b == 97 || b
        == 111 || b == 49 {
        CharWidth::ThreeQuarters
    } else {
        CharWidth::Normal
    }
}

fn serif_glyph_of(b: u8) -> (r: u8)
    ensures
        r == serif_glyph(b as int),
{
    if 65 <= b && b <= 90 {
        b - 65 + 1
    } else if 97 <= b && b <= 122 {
        b - 97 + 27
    } else if 48 <= b && b <= 57 {
        b - 48 + 53
    } else if b == 46 {
        63
    } else if b == 44 {
        64
    } else if b == 45 {
        65
    } else if b == 33 {
        66
    } else if b == 63 {
        67
    } else {
        0
    }
}

fn serif_width_of(b: u8) -> (r: CharWidth)
    ensures
        r == serif_width(b as int),
{
    if b == 32 || b == 105 || b == 108 || b == 106 || b == 102 || b == 116 || b == 45 || b == 44
        || b == 46 || b == 33 || b == 63 {
        CharWidth::Half
    } else if b == 73 || b == 74 || b == 115 || b == 114 || b == 112 || b == 101 || b == 97 || b
        == 111 || b == 49 {
        CharWidth::ThreeQuarters
    } else {
        CharWidth::Normal
    }
}

/// Lookup table of the serif font
pub fn serif_font_lookup() -> (r: FontLookup)
    ensures
        r matches FontLookup::Custom(table, widths) && table@ == Seq::new(
            MAX_CHARS as nat,
            |i: int| serif_glyph(i) as u8,
        ) && widths@ == Seq::new(MAX_CHARS as nat, |i: int| serif_width(i)),
{
    let mut table: [u8; MAX_CHARS] = [0; MAX_CHARS];
    let mut widths: [CharWidth; MAX_CHARS] = [CharWidth::Normal; MAX_CHARS];
    let mut i: usize = 0;
    while i < MAX_CHARS
        invariant
            i <= MAX_CHARS,
            table@.len() == MAX_CHARS,
            widths@.len() == MAX_CHARS,
            forall|j: int| 0 <= j < i ==> #[trigger] table@[j] == serif_glyph(j) as u8,
            forall|j: int| 0 <= j < i ==> #[trigger] widths@[j] == serif_width(j),
        decreases MAX_CHARS - i,
    {
        table[i] = serif_glyph_of(i as u8);
        widths[i] = serif_width_of(i as u8);
        i += 1;
    }
    assert(table@ =~= Seq::new(MAX_CHARS as nat, |i: int| serif_glyph(i) as u8));
    assert(widths@ =~= Seq::new(MAX_CHARS as nat, |i: int| serif_width(i)));
    FontLookup::Custom(table, widths)
}

/// Horizontal texture coordinate of corner `b` (0 or 1) of glyph cell `index`,
/// narrowed to `q` quarters around the cell's center
pub open spec fn glyph_u(b: int, q: int, index: int, count: int) -> int {
    (b * q * (ONE / 4) + index * ONE + (4 - q) * (ONE / 8)) / count
}

/// Line feed
pub const NEW_LINE: u8 = 10;

/// Draw text descriptor
#[derive(Debug, Clone, Copy)]
pub struct Text<'a> {
    pub font: &'a Font,
    pub pos: Point,
    /// Scale of each char, fixed point
    pub font_size: i32,
    pub foreground: Color,
    pub background: Color,
    /// Pen offset from the line start, fixed point
    pub char_offset_px: i32,
    /// Current line, counted from the first
    pub line_offset: i32,
}

impl<'a> Text<'a> {
    /// Size of each char on screen
    pub open spec fn cell_size(&self) -> Point {
        Point {
            x: fx_mul(self.font.size.x as int, self.font_size as int) as i32,
            y: fx_mul(self.font.size.y as int, self.font_size as int) as i32,
        }
    }

    /// Pen advance of `byte`
    pub open spec fn kerning(&self, byte: u8) -> int {
        (self.cell_size().x * self.font.glyph_quarters(byte)) / 4
    }

    /// Whether `byte` is drawn as a glyph
    pub open spec fn draws(byte: u8, newlines: bool) -> bool {
        byte != 0 && !(newlines && byte == NEW_LINE)
    }

    /// The text after `byte`; with `newlines`, a line feed starts a new line
    pub open spec fn step(self, byte: u8, newlines: bool) -> Text<'a> {
        if newlines && byte == NEW_LINE {
            Text { line_offset: (self.line_offset + 1) as i32, char_offset_px: 0, ..self }
        } else if byte == 0 {
            self
        } else {
            Text { char_offset_px: (self.char_offset_px + self.kerning(byte)) as i32, ..self }
        }
    }

    /// The quad of glyph `byte` at the current pen position
    pub open spec fn glyph_quad(&self, byte: u8) -> Seq<Vertex> {
        let size = self.cell_size();
        let q = self.font.glyph_quarters(byte);
        let index = self.font.glyph_index(byte);
        let count = self.font.count as int;
        quad_vertices(
            Point {
                x: (self.pos.x + self.char_offset_px) as i32,
                y: (self.pos.y + self.line_offset * size.y) as i32,
            },
            Point { x: self.kerning(byte) as i32, y: size.y },
            Seq::new(
                4,
                |i: int|
                    (glyph_u(base_corner(i).0, q, index, count) as i32, (base_corner(i).1
                        * ONE) as i32),
            ),
            ONE,
        )
    }

    /// The text after all of `bytes`
    pub open spec fn after(self, bytes: Seq<u8>, newlines: bool) -> Text<'a>
        decreases bytes.len(),
    {
        if bytes.len() == 0 {
            self
        } else {
            self.after(bytes.drop_last(), newlines).step(bytes.last(), newlines)
        }
    }

    /// The quads of all of `bytes`, in order
    pub open spec fn quads(self, bytes: Seq<u8>, newlines: bool) -> Seq<Seq<Vertex>>
        decreases bytes.len(),
    {
        if bytes.len() == 0 {
            seq![]
        } else {
            let before = self.after(bytes.drop_last(), newlines);
            self.quads(bytes.drop_last(), newlines) + if Self::draws(bytes.last(), newlines) {
                seq![before.glyph_quad(bytes.last())]
            } else {
                seq![]
            }
        }
    }

    /// Whether `n` more bytes keep every coordinate in range
    pub open spec fn fits(&self, n: int) -> bool {
        &&& self.font.valid()
        &&& self.pos.in_range()
        &&& 0 <= self.font_size
        &&& fx_mul(self.font.size.x as int, self.font_size as int) <= MAX_COORD
        &&& fx_mul(self.font.size.y as int, self.font_size as int) <= MAX_COORD
        &&& 0 <= self.char_offset_px
        &&& 0 <= self.line_offset
        &&& self.line_offset + n <= MAX_COORD
        &&& self.char_offset_px + n * self.cell_size().x <= MAX_COORD
        &&& (self.line_offset + n + 1) * self.cell_size().y <= MAX_COORD
    }

    /// Uniforms of the text's batch
    pub open spec fn uniforms(&self) -> BatchUniforms {
        BatchUniforms {
            flags: BatchFlag::Text,
            foreground: self.foreground,
            background: self.background,
            ..default_uniforms()
        }
    }
}


/// A step keeps the room needed by the remaining bytes
proof fn lemma_step_fits<'a>(t: Text<'a>, byte: u8, newlines: bool, m: int)
    requires
        m >= 1,
        t.fits(m),
    ensures
        t.step(byte, newlines).fits(m - 1),
        0 <= t.kerning(byte) <= t.cell_size().x,
        t.line_offset * t.cell_size().y <= MAX_COORD,
{
    let sx = t.cell_size().x as int;
    let sy = t.cell_size().y as int;
    let q = t.font.glyph_quarters(byte);
    let c = t.char_offset_px as int;
    let l = t.line_offset as int;
    assert(0 <= sx && 0 <= sy);
    assert(2 <= q <= 4) by {
        match t.font.lookup {
            FontLookup::Ascii => {},
            FontLookup::Custom(_, widths) => {
                let w = widths@[byte as int];
                assert(2 <= width_quarters(w) <= 4);
            },
        }
    }
    assert(0 <= (sx * q) / 4 <= sx) by (nonlinear_arith)
        requires
            0 <= sx,
            2 <= q <= 4,
    ;
    assert(m * sx == (m - 1) * sx + sx) by (nonlinear_arith);
    assert((l + m + 1) * sy == (l + 1 + (m - 1) + 1) * sy);
    assert(0 <= (m - 1) * sx) by (nonlinear_arith)
        requires
            m >= 1,
            sx >= 0,
    ;
    assert(l * sy <= (l + m + 1) * sy) by (nonlinear_arith)
        requires
            m >= 1,
            sy >= 0,
            l >= 0,
    ;
    assert((l + m) * sy <= (l + m + 1) * sy) by (nonlinear_arith)
        requires
            sy >= 0,
    ;
}

/// Room for `m` bytes is room for fewer
proof fn lemma_fits_fewer<'a>(t: Text<'a>, m: int, k: int)
    requires
        t.fits(m),
        0 <= k <= m,
    ensures
        t.fits(k),
{
    let sx = t.cell_size().x as int;
    let sy = t.cell_size().y as int;
    let l = t.line_offset as int;
    assert(k * sx <= m * sx) by (nonlinear_arith)
        requires
            0 <= k <= m,
            sx >= 0,
    ;
    assert((l + k + 1) * sy <= (l + m + 1) * sy) by (nonlinear_arith)
        requires
            0 <= k <= m,
            sy >= 0,
    ;
}

proof fn lemma_damage_twice(cs: Seq<crate::painter::Canvas>, t: Option<CanvasId>)
    requires
        valid_target(t, cs.len()),
    ensures
        crate::painter::damage(crate::painter::damage(cs, t), t) == crate::painter::damage(cs, t),
{
    assert(crate::painter::damage(crate::painter::damage(cs, t), t) =~= crate::painter::damage(
        cs,
        t,
    ));
}

impl<'a> Text<'a> {
    pub fn new(font: &'a Font) -> (r: Text<'a>)
        ensures
            r.font == font,
            r.pos == (Point { x: 0, y: 0 }),
            r.font_size == ONE,
            r.foreground == opaque_color(255, 255, 255),
            r.background == opaque_color(0, 0, 0),
            r.char_offset_px == 0,
            r.line_offset == 0,
    {
        Text {
            font,
            pos: Point::new(0, 0),
            font_size: ONE,
            foreground: Color::white(),
            background: Color::black(),
            char_offset_px: 0,
            line_offset: 0,
        }
    }

    pub fn with_pos(self, pos: Point) -> (r: Text<'a>)
        ensures
            r == (Text { pos, ..self }),
    {
        Text { pos, ..self }
    }

    pub fn with_font_size(self, size: i32) -> (r: Text<'a>)
        ensures
            r == (Text { font_size: size, ..self }),
    {
        Text { font_size: size, ..self }
    }

    pub fn with_fg(self, color: Color) -> (r: Text<'a>)
        ensures
            r == (Text { foreground: color, ..self }),
    {
        Text { foreground: color, ..self }
    }

    pub fn with_bg(self, color: Color) -> (r: Text<'a>)
        ensures
            r == (Text { background: color, ..self }),
    {
        Text { background: color, ..self }
    }

    /// Size of each char on screen
    pub fn char_size(&self) -> (r: Point)
        requires
            self.font.valid(),
            0 <= self.font_size,
            fx_mul(self.font.size.x as int, self.font_size as int) <= MAX_COORD,
            fx_mul(self.font.size.y as int, self.font_size as int) <= MAX_COORD,
        ensures
            r == self.cell_size(),
    {
        Point::new(
            fx_mul_nonneg(self.font.size.x, self.font_size),
            fx_mul_nonneg(self.font.size.y, self.font_size),
        )
    }

    /// Moves the pen to the start of the next line
    pub fn new_line(&mut self)
        requires
            old(self).line_offset < i32::MAX,
        ensures
            *final(self) == old(self).step(NEW_LINE, true),
    {
        self.line_offset = self.line_offset + 1;
        self.char_offset_px = 0;
    }

    fn begin_draw(&self, painter: &mut Painter, canvas: CanvasId)
        requires
            old(painter).wf(),
            canvas.0 < old(painter).context.canvases@.len(),
        ensures
            final(painter).wf(),
            final(painter).has_state(
                Some(canvas),
                Some((self.font.texture, old(painter).empty_texture)),
                self.uniforms(),
            ),
            final(painter).pushed == old(painter).pushed,
            final(painter).context == old(painter).context,
            old(painter).commands@.is_prefix_of(final(painter).commands@),
            final(painter).screen_size == old(painter).screen_size,
            final(painter).empty_texture == old(painter).empty_texture,
            final(painter).white_texture == old(painter).white_texture,
    {
        let uniforms = BatchUniforms {
            flags: BatchFlag::Text,
            foreground: self.foreground,
            background: self.background,
            ..BatchUniforms::new()
        };
        let empty = painter.empty_texture;
        painter.set_uniforms(Some(canvas), Some((self.font.texture, empty)), uniforms);
        assert(old(painter).commands@ =~= painter.commands@.subrange(
            0,
            old(painter).commands@.len() as int,
        ));
    }

    fn draw_char(&mut self, painter: &mut Painter, byte: u8)
        requires
            old(painter).wf(),
            old(self).fits(1),
            byte != 0,
        ensures
            final(painter).wf(),
            *final(self) == old(self).step(byte, false),
            final(painter).pushed@ == old(painter).pushed@.push(old(self).glyph_quad(byte)),
            final(painter).batch_canvas == old(painter).batch_canvas,
            final(painter).batch_textures == old(painter).batch_textures,
            final(painter).batch_uniforms == old(painter).batch_uniforms,
            final(painter).context.canvases@ == crate::painter::damage(
                old(painter).context.canvases@,
                old(painter).batch_canvas,
            ),
            old(painter).commands@.is_prefix_of(final(painter).commands@),
            final(painter).screen_size == old(painter).screen_size,
            final(painter).empty_texture == old(painter).empty_texture,
            final(painter).white_texture == old(painter).white_texture,
    {
        proof {
            lemma_step_fits(*self, byte, false, 1);
        }
        let size = self.char_size();
        let (index, q) = self.font.glyph(byte);
        let kerning = (size.x * q) / 4;
        let count = self.font.count;
        proof {
            let x0 = index * ONE + (4 - q) * (ONE / 8);
            let x1 = q * (ONE / 4) + index * ONE + (4 - q) * (ONE / 8);
            assert(0 <= x0 / (count as int) <= x0) by (nonlinear_arith)
                requires
                    x0 >= 0,
                    count >= 1,
            ;
            assert(0 <= x1 / (count as int) <= x1) by (nonlinear_arith)
                requires
                    x1 >= 0,
                    count >= 1,
            ;
            assert(glyph_u(0, q as int, index as int, count as int) == x0 / (count as int));
            assert(glyph_u(1, q as int, index as int, count as int) == x1 / (count as int));
        }
        let c0 = (index * ONE + (4 - q) * (ONE / 8)) / count;
        let c1 = (q * (ONE / 4) + index * ONE + (4 - q) * (ONE / 8)) / count;
        let uv: [(i32, i32); 4] = [(c0, ONE), (c1, ONE), (c1, 0), (c0, 0)];
        let pos = Point::new(
            self.pos.x + self.char_offset_px,
            self.pos.y + self.line_offset * size.y,
        );
        proof {
            assert(uv@ =~= Seq::new(
                4,
                |i: int|
                    (glyph_u(base_corner(i).0, q as int, index as int, count as int) as i32, (
                    base_corner(i).1 * ONE) as i32),
            ));
        }
        painter.push_quad(pos, Point::new(kerning, size.y), uv, ONE);
        self.char_offset_px = self.char_offset_px + kerning;
    }

    fn draw_bytes(&mut self, painter: &mut Painter, bytes: &[u8], newlines: bool)
        requires
            old(painter).wf(),
            old(self).fits(bytes@.len() as int),
        ensures
            final(painter).wf(),
            *final(self) == old(self).after(bytes@, newlines),
            final(painter).pushed@ == old(painter).pushed@ + old(self).quads(bytes@, newlines),
            final(painter).batch_canvas == old(painter).batch_canvas,
            final(painter).batch_textures == old(painter).batch_textures,
            final(painter).batch_uniforms == old(painter).batch_uniforms,
            final(painter).context.canvases@ == if old(self).quads(bytes@, newlines).len() > 0 {
                crate::painter::damage(old(painter).context.canvases@, old(painter).batch_canvas)
            } else {
                old(painter).context.canvases@
            },
            old(painter).commands@.is_prefix_of(final(painter).commands@),
            final(painter).screen_size == old(painter).screen_size,
            final(painter).empty_texture == old(painter).empty_texture,
            final(painter).white_texture == old(painter).white_texture,
    {
        let n = bytes.len();
        let mut i: usize = 0;
        let ghost start = *self;
        while i < n
            invariant
                painter.wf(),
                n == bytes@.len(),
                0 <= i <= n,
                self.fits(n - i),
                *self == start.after(bytes@.subrange(0, i as int), newlines),
                painter.pushed@ == old(painter).pushed@ + start.quads(
                    bytes@.subrange(0, i as int),
                    newlines,
                ),
                painter.batch_canvas == old(painter).batch_canvas,
                painter.batch_textures == old(painter).batch_textures,
                painter.batch_uniforms == old(painter).batch_uniforms,
                painter.context.canvases@ == if start.quads(
                    bytes@.subrange(0, i as int),
                    newlines,
                ).len() > 0 {
                    crate::painter::damage(
                        old(painter).context.canvases@,
                        old(painter).batch_canvas,
                    )
                } else {
                    old(painter).context.canvases@
                },
                old(painter).commands@.is_prefix_of(painter.commands@),
                painter.screen_size == old(painter).screen_size,
                painter.empty_texture == old(painter).empty_texture,
                painter.white_texture == old(painter).white_texture,
                valid_target(old(painter).batch_canvas, old(painter).context.canvases@.len()),
            decreases n - i,
        {
            let byte = bytes[i];
            let ghost prefix = bytes@.subrange(0, i as int);
            let ghost next = bytes@.subrange(0, i + 1);
            let ghost cmds = painter.commands@;
            proof {
                assert(next.drop_last() =~= prefix);
                assert(next.last() == byte);
                lemma_step_fits(*self, byte, newlines, n - i);
                lemma_damage_twice(old(painter).context.canvases@, old(painter).batch_canvas);
                lemma_fits_fewer(*self, n - i, 1);
            }
            if newlines && byte == NEW_LINE {
                self.new_line();
            } else if byte != 0 {
                self.draw_char(painter, byte);
                proof {
                    assert(start.quads(next, newlines) == start.quads(prefix, newlines) + seq![
                        start.after(prefix, newlines).glyph_quad(byte)]);
                    assert(painter.pushed@ =~= old(painter).pushed@ + start.quads(next, newlines));
                    crate::painter::lemma_prefix_trans(old(painter).commands@, cmds, painter.commands@);
                }
            }
            i += 1;
        }
        assert(bytes@.subrange(0, n as int) =~= bytes@);
    }

    /// Draws the bytes as glyphs onto a canvas, line feeds included; zero bytes
    /// are skipped
    pub fn draw_chars(&mut self, painter: &mut Painter, canvas: CanvasId, bytes: &[u8])
        requires
            old(painter).wf(),
            canvas.0 < old(painter).context.canvases@.len(),
            old(self).fits(bytes@.len() as int),
        ensures
            final(painter).wf(),
            *final(self) == old(self).after(bytes@, false),
            final(painter).has_state(
                Some(canvas),
                Some((old(self).font.texture, old(painter).empty_texture)),
                old(self).uniforms(),
            ),
            final(painter).pushed@ == old(painter).pushed@ + old(self).quads(bytes@, false),
            final(painter).context.canvases@ == if old(self).quads(bytes@, false).len() > 0 {
                crate::painter::damage(old(painter).context.canvases@, Some(canvas))
            } else {
                old(painter).context.canvases@
            },
            old(painter).commands@.is_prefix_of(final(painter).commands@),
            final(painter).screen_size == old(painter).screen_size,
            final(painter).empty_texture == old(painter).empty_texture,
    {
        self.begin_draw(painter, canvas);
        let ghost mid = painter.commands@;
        self.draw_bytes(painter, bytes, false);
        proof {
            crate::painter::lemma_prefix_trans(old(painter).commands@, mid, painter.commands@);
        }
    }

    /// Draws the bytes, then moves to the next line
    pub fn draw_line(&mut self, painter: &mut Painter, canvas: CanvasId, bytes: &[u8])
        requires
            old(painter).wf(),
            canvas.0 < old(painter).context.canvases@.len(),
            old(self).fits(bytes@.len() as int + 1),
        ensures
            final(painter).wf(),
            *final(self) == old(self).after(bytes@, false).step(NEW_LINE, true),
            final(painter).context.canvases@ == if old(self).quads(bytes@, false).len() > 0 {
                crate::painter::damage(old(painter).context.canvases@, Some(canvas))
            } else {
                old(painter).context.canvases@
            },
            final(painter).has_state(
                Some(canvas),
                Some((old(self).font.texture, old(painter).empty_texture)),
                old(self).uniforms(),
            ),
            final(painter).pushed@ == old(painter).pushed@ + old(self).quads(bytes@, false),
            old(painter).commands@.is_prefix_of(final(painter).commands@),
            final(painter).screen_size == old(painter).screen_size,
            final(painter).empty_texture == old(painter).empty_texture,
    {
        proof {
            let m = bytes@.len() as int + 1;
            let sx = self.cell_size().x as int;
            let sy = self.cell_size().y as int;
            assert(m * sx >= (m - 1) * sx) by (nonlinear_arith)
                requires
                    sx >= 0,
            ;
            assert((self.line_offset + m + 1) * sy >= (self.line_offset + (m - 1) + 1) * sy)
                by (nonlinear_arith)
                requires
                    sy >= 0,
            ;
        }
        self.draw_chars(painter, canvas, bytes);
        proof {
            lemma_after_lines(*old(self), bytes@, false);
        }
        self.new_line();
    }

    /// Draws a string onto a canvas; a line feed starts a new line
    pub fn draw_str(&mut self, painter: &mut Painter, canvas: CanvasId, s: &str)
        requires
            old(painter).wf(),
            canvas.0 < old(painter).context.canvases@.len(),
            old(self).fits(s.spec_bytes().len() as int),
        ensures
            final(painter).wf(),
            *final(self) == old(self).after(s.spec_bytes(), true),
            final(painter).has_state(
                Some(canvas),
                Some((old(self).font.texture, old(painter).empty_texture)),
                old(self).uniforms(),
            ),
            final(painter).pushed@ == old(painter).pushed@ + old(self).quads(s.spec_bytes(), true),
            final(painter).context.canvases@ == if old(self).quads(s.spec_bytes(), true).len() > 0 {
                crate::painter::damage(old(painter).context.canvases@, Some(canvas))
            } else {
                old(painter).context.canvases@
            },
            old(painter).commands@.is_prefix_of(final(painter).commands@),
            final(painter).screen_size == old(painter).screen_size,
            final(painter).empty_texture == old(painter).empty_texture,
    {
        self.begin_draw(painter, canvas);
        let ghost mid = painter.commands@;
        self.draw_bytes(painter, s.as_bytes(), true);
        proof {
            crate::painter::lemma_prefix_trans(old(painter).commands@, mid, painter.commands@);
        }
    }
}

/// Without line feeds, the line does not change
proof fn lemma_after_lines<'a>(t: Text<'a>, bytes: Seq<u8>, newlines: bool)
    requires
        !newlines,
    ensures
        t.after(bytes, newlines).line_offset == t.line_offset,
        t.after(bytes, newlines).font == t.font,
    decreases bytes.len(),
{
    if bytes.len() > 0 {
        lemma_after_lines(t, bytes.drop_last(), newlines);
    }
}

} // verus!
