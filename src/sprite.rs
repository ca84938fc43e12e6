//! Sprite-sheet data that the body's hitbox and animations are read from,
//! and the offset of the hitbox from the sprite's centre.
use crate::contact::{Vector, UNIT};
use vstd::prelude::*;

verus! {

/// A rectangle of pixels: top-left corner `(x, y)`, `w` wide and `h` high,
/// with `y` growing downward.
#[derive(Clone, Copy, Debug, PartialEq, Eq, Structural)]
pub struct Rect {
    pub x: i32,
    pub y: i32,
    pub w: i32,
    pub h: i32,
}

/// A size in pixels.
#[derive(Clone, Copy, Debug, PartialEq, Eq, Structural)]
pub struct Size {
    pub w: i32,
    pub h: i32,
}

/// One frame of a sprite sheet: where it lies in the sheet, and how long it
/// shows, in milliseconds.
#[derive(Debug, PartialEq, Eq)]
pub struct Frame {
    pub filename: String,
    pub frame: Rect,
    pub rotated: bool,
    pub trimmed: bool,
    pub sprite_source_size: Rect,
    pub source_size: Size,
    pub duration: u32,
}

/// A named run of frames, `from` to `to` inclusive.
#[derive(Debug, PartialEq, Eq)]
pub struct FrameTag {
    pub name: String,
    pub from: usize,
    pub to: usize,
    pub direction: String,
    pub color: String,
}

/// Where a named slice of the sprite lies on one frame.
#[derive(Clone, Copy, Debug, PartialEq, Eq, Structural)]
pub struct SliceKey {
    pub frame: usize,
    pub bounds: Rect,
}

/// A body's collider, measured from a sprite: its extent and the offset of
/// its centre from the sprite's centre, in sub-units.
#[derive(Clone, Copy, Debug, PartialEq, Eq, Structural)]
pub struct Hitbox {
    pub width: i64,
    pub height: i64,
    pub offset: Vector,
}

/// The offset of the centre of `bounds` from the centre of a sprite
/// `sprite_width` by `sprite_height` pixels, in sub-units, with `y` growing
/// upward; mirrored left to right when `flip_x`.
pub open spec fn sprite_offset(bounds: Rect, sprite_width: int, sprite_height: int, flip_x: bool) -> Vector {
    let dx = (2 * bounds.x + bounds.w - sprite_width) * (UNIT / 2);
    let dy = (sprite_height - 2 * bounds.y - bounds.h) * (UNIT / 2);
    Vector { x: (if flip_x { -dx } else { dx }) as i64, y: dy as i64 }
}

/// The frame indices of a run `from ..= to` in a sheet of `count` frames.
pub open spec fn tag_indices(from: int, to: int, count: int) -> Seq<usize> {
    let hi = if to + 1 < count { to + 1 } else { count };
    let lo = if from < hi { from } else { hi };
    Seq::new((hi - lo) as nat, |i: int| (lo + i) as usize)
}

/// The offset of the centre of `bounds` from the centre of the sprite, in
/// sub-units, `y` upward; mirrored when `flip_x`.
pub fn calculate_sprite_offset(bounds: &Rect, sprite_width: i32, sprite_height: i32, flip_x: bool) -> (r: Vector)
    ensures
        r == sprite_offset(*bounds, sprite_width as int, sprite_height as int, flip_x),
{
    let dx: i64 = (2 * bounds.x as i64 + bounds.w as i64 - sprite_width as i64) * (UNIT / 2);
    let dy: i64 = (sprite_height as i64 - 2 * bounds.y as i64 - bounds.h as i64) * (UNIT / 2);
    Vector { x: if flip_x { -dx } else { dx }, y: dy }
}

/// The collider that `bounds` marks on an unmirrored sprite.
pub fn hitbox_from_bounds(bounds: &Rect, sprite_width: i32, sprite_height: i32) -> (r: Hitbox)
    ensures
        r.width == bounds.w * UNIT,
        r.height == bounds.h * UNIT,
        r.offset == sprite_offset(*bounds, sprite_width as int, sprite_height as int, false),
{
    Hitbox {
        width: bounds.w as i64 * UNIT,
        height: bounds.h as i64 * UNIT,
        offset: calculate_sprite_offset(bounds, sprite_width, sprite_height, false),
    }
}

/// The offset from the sprite's centre of the slice on frame `frame`: the
/// first key of that frame decides; none when no key is for that frame.
pub fn slice_offset_on_frame(
    keys: &Vec<SliceKey>,
    frame: usize,
    sprite_width: i32,
    sprite_height: i32,
    flip_x: bool,
) -> (r: Option<Vector>)
    ensures
        r.is_none() <==> forall|i: int| 0 <= i < keys@.len() ==> (#[trigger] keys@[i]).frame != frame,
        r.is_some() ==> exists|i: int|
            0 <= i < keys@.len() && (#[trigger] keys@[i]).frame == frame && r.unwrap() == sprite_offset(
                keys@[i].bounds,
                sprite_width as int,
                sprite_height as int,
                flip_x,
            ) && forall|j: int| 0 <= j < i ==> (#[trigger] keys@[j]).frame != frame,
{
    let mut i: usize = 0;
    while i < keys.len()
        invariant
            i <= keys@.len(),
            forall|j: int| 0 <= j < i ==> (#[trigger] keys@[j]).frame != frame,
        decreases keys@.len() - i,
    {
        if keys[i].frame == frame {
            let offset = calculate_sprite_offset(&keys[i].bounds, sprite_width, sprite_height, flip_x);
            assert(keys@[i as int].frame == frame);
            return Some(offset);
        }
        i = i + 1;
    }
    None
}

impl Frame {
    /// How long the frame shows, in microseconds.
    pub fn duration_micros(&self) -> (r: u64)
        ensures
            r == self.duration * 1000,
    {
        self.duration as u64 * 1000
    }
}

impl FrameTag {
    /// The indices of the tag's frames in a sheet of `frame_count` frames,
    /// in order: `from` to `to` inclusive, past the end left out.
    pub fn frame_indices(&self, frame_count: usize) -> (r: Vec<usize>)
        ensures
            r@ == tag_indices(self.from as int, self.to as int, frame_count as int),
    {
        let hi: usize = if self.to < frame_count {
            self.to + 1
        } else {
            frame_count
        };
        let lo: usize = if self.from < hi {
            self.from
        } else {
            hi
        };
        let mut out: Vec<usize> = Vec::new();
        let mut i: usize = lo;
        while i < hi
            invariant
                lo <= i <= hi,
                out@ == Seq::new((i - lo) as nat, |k: int| (lo + k) as usize),
            decreases hi - i,
        {
            out.push(i);
            i = i + 1;
            assert(out@ =~= Seq::new((i - lo) as nat, |k: int| (lo + k) as usize));
        }
        out
    }
}

} // verus!
