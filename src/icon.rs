use vstd::prelude::*;

use crate::math::{Cell, Flip, Point};
use crate::painter::{CanvasId, Painter};
use crate::sprite::Sprite;

verus! {

/// Icon kind
#[derive(Debug, Clone, Copy, PartialEq, Eq, Structural)]
pub enum IconKind {
    Flip,
    Pointer,
}

pub open spec fn icon_column(kind: IconKind) -> i32 {
    match kind {
        IconKind::Flip => 0,
        IconKind::Pointer => 1,
    }
}

impl IconKind {
    /// Column of the icon in the icons texture
    pub fn into_frame(self) -> (r: i32)
        ensures
            r == icon_column(self),
    {
        match self {
            IconKind::Flip => 0,
            IconKind::Pointer => 1,
        }
    }
}

/// Animated icon, centred on its position
pub struct Icon {
    pub inner: Sprite,
}

impl Icon {
    /// Icon `kind` of the icons sprite sheet
    pub fn new(icons: Sprite, kind: IconKind) -> (r: Icon)
        ensures
            r.inner == (Sprite { frame: Cell { x: icon_column(kind), ..icons.frame }, ..icons }),
    {
        let frame = Cell::new(kind.into_frame(), icons.frame.y);
        Icon { inner: icons.with_frame(frame) }
    }

    pub fn with_pos(self, pos: Point) -> (r: Icon)
        ensures
            r.inner == (Sprite { pos, ..self.inner }),
    {
        Icon { inner: self.inner.with_pos(pos) }
    }

    pub fn with_flip(self, flip: Flip) -> (r: Icon)
        ensures
            r.inner == (Sprite { flip, ..self.inner }),
    {
        Icon { inner: self.inner.with_flip(flip) }
    }

    /// The sprite drawn for animation frame `anim_frame`: centred on the
    /// icon's position, showing that frame's row
    pub open spec fn frame_sprite(&self, anim_frame: i32) -> Sprite {
        Sprite {
            pos: Point {
                x: (self.inner.pos.x - self.inner.size.x / 2) as i32,
                y: (self.inner.pos.y - self.inner.size.y / 2) as i32,
            },
            frame: Cell { y: anim_frame, ..self.inner.frame },
            ..self.inner
        }
    }

    /// Draws the icon centred on its position at animation frame `anim_frame`
    pub fn draw(&mut self, painter: &mut Painter, canvas: CanvasId, anim_frame: i32)
        requires
            old(painter).wf(),
            canvas.0 < old(painter).context.canvases@.len(),
            old(self).frame_sprite(anim_frame).valid(),
            old(self).inner.pos.in_range(),
            old(self).inner.size.in_range(),
            0 <= old(self).inner.size.x && 0 <= old(self).inner.size.y,
            old(self).inner.uv_texture is None,
        ensures
            *final(self) == (Icon { inner: old(self).frame_sprite(anim_frame) }),
            final(painter).wf(),
            final(painter).has_state(
                Some(canvas),
                Some(
                    (
                        old(self).inner.texture,
                        old(self).frame_sprite(anim_frame).lookup_texture(
                            old(painter).empty_texture,
                        ),
                    ),
                ),
                old(self).frame_sprite(anim_frame).uniforms(),
            ),
            final(painter).pushed@.len() == old(painter).pushed@.len() + 1,
            old(painter).commands@.is_prefix_of(final(painter).commands@),
    {
        self.inner.pos.x = self.inner.pos.x - self.inner.size.x / 2;
        self.inner.pos.y = self.inner.pos.y - self.inner.size.y / 2;
        self.inner.frame.y = anim_frame;
        self.inner.draw(painter, canvas);
    }
}

} // verus!
