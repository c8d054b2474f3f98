//! Sizes of the decorations and the layout of the four shadow edges.
use vstd::prelude::*;

verus! {

/// Height of the header bar, in logical pixels.
pub const HEADER_SIZE: u32 = 50;

/// Thickness of each shadow edge, in logical pixels.
pub const BORDER_SIZE: u32 = 10;

/// Thickness of the visible border drawn against the window content.
pub const VISIBLE_BORDER_SIZE: u32 = 1;

/// Distance from an edge within which the pointer resizes, in logical pixels.
pub const EDGE_MARGIN: u32 = 5;

/// One of the four shadow edges around the window.
#[derive(Clone, Copy, Debug, PartialEq, Eq, Structural)]
pub enum ShadowPart {
    Top,
    Left,
    Right,
    Bottom,
}

impl ShadowPart {
    pub open spec fn spec_index(self) -> int {
        match self {
            ShadowPart::Top => 0,
            ShadowPart::Left => 1,
            ShadowPart::Right => 2,
            ShadowPart::Bottom => 3,
        }
    }

    /// The slot of this edge among the four shadow surfaces.
    pub fn index(self) -> (r: usize)
        ensures
            r as int == self.spec_index(),
    {
        match self {
            ShadowPart::Top => 0,
            ShadowPart::Left => 1,
            ShadowPart::Right => 2,
            ShadowPart::Bottom => 3,
        }
    }

    /// The edge stored in a slot.
    pub fn from_index(index: usize) -> (r: ShadowPart)
        requires
            index < 4,
        ensures
            r.spec_index() == index as int,
    {
        if index == 0 {
            ShadowPart::Top
        } else if index == 1 {
            ShadowPart::Left
        } else if index == 2 {
            ShadowPart::Right
        } else {
            ShadowPart::Bottom
        }
    }
}

/// Position and size of a decoration surface, relative to the top-left
/// corner of the window content, in logical pixels.
#[derive(Clone, Copy, Debug, PartialEq, Eq, Structural)]
pub struct ShadowRect {
    pub x: i32,
    pub y: i32,
    pub width: u32,
    pub height: u32,
}

/// The rectangle of a shadow edge around content of the given size.
pub open spec fn shadow_rect_for(part: ShadowPart, width: int, height: int) -> (int, int, int, int) {
    match part {
        ShadowPart::Top => (-10, -60, width + 20, 10),
        ShadowPart::Left => (-10, -50, 10, height + 50),
        ShadowPart::Right => (width, -50, 10, height + 50),
        ShadowPart::Bottom => (-10, height, width + 20, 10),
    }
}

pub open spec fn rect_is(r: ShadowRect, v: (int, int, int, int)) -> bool {
    r.x as int == v.0 && r.y as int == v.1 && r.width as int == v.2 && r.height as int == v.3
}

/// Every slot holds its edge's rectangle for content of the given size.
pub open spec fn shadow_layout(rects: [ShadowRect; 4], width: int, height: int) -> bool {
    &&& rect_is(rects[0], shadow_rect_for(ShadowPart::Top, width, height))
    &&& rect_is(rects[1], shadow_rect_for(ShadowPart::Left, width, height))
    &&& rect_is(rects[2], shadow_rect_for(ShadowPart::Right, width, height))
    &&& rect_is(rects[3], shadow_rect_for(ShadowPart::Bottom, width, height))
}

/// The offsets and thicknesses of the edges, which do not depend on the content size.
pub open spec fn shadow_fixed_parts(rects: [ShadowRect; 4]) -> bool {
    &&& rects[0].x == -10 && rects[0].y == -60 && rects[0].height == 10
    &&& rects[1].x == -10 && rects[1].y == -50 && rects[1].width == 10
    &&& rects[2].y == -50 && rects[2].width == 10
    &&& rects[3].x == -10 && rects[3].height == 10
}

/// Sets the parts of the shadow rectangles that do not depend on the
/// content size: each edge's offset along the axis it does not span, and
/// its thickness.
pub fn init_shadow_surfaces_pos(shadow_surfaces: &mut [ShadowRect; 4])
    ensures
        final(shadow_surfaces)[0] == (ShadowRect { x: -10i32, y: -60i32, height: 10u32, ..old(shadow_surfaces)[0] }),
        final(shadow_surfaces)[1] == (ShadowRect { x: -10i32, y: -50i32, width: 10u32, ..old(shadow_surfaces)[1] }),
        final(shadow_surfaces)[2] == (ShadowRect { y: -50i32, width: 10u32, ..old(shadow_surfaces)[2] }),
        final(shadow_surfaces)[3] == (ShadowRect { x: -10i32, height: 10u32, ..old(shadow_surfaces)[3] }),
{
    let top = shadow_surfaces[0];
    shadow_surfaces[0] = ShadowRect {
        x: -(BORDER_SIZE as i32),
        y: -(HEADER_SIZE as i32 + BORDER_SIZE as i32),
        height: BORDER_SIZE,
        ..top
    };
    let left = shadow_surfaces[1];
    shadow_surfaces[1] = ShadowRect {
        x: -(BORDER_SIZE as i32),
        y: -(HEADER_SIZE as i32),
        width: BORDER_SIZE,
        ..left
    };
    let right = shadow_surfaces[2];
    shadow_surfaces[2] = ShadowRect { y: -(HEADER_SIZE as i32), width: BORDER_SIZE, ..right };
    let bottom = shadow_surfaces[3];
    shadow_surfaces[3] = ShadowRect { x: -(BORDER_SIZE as i32), height: BORDER_SIZE, ..bottom };
}

/// The shadow rectangles before the content size is known.
pub fn initial_shadow_rects() -> (r: [ShadowRect; 4])
    ensures
        shadow_fixed_parts(r),
        r[0].width == 0 && r[1].height == 0 && r[2].x == 0 && r[2].height == 0,
        r[3].y == 0 && r[3].width == 0,
{
    let zero = ShadowRect { x: 0, y: 0, width: 0, height: 0 };
    let mut rects = [zero, zero, zero, zero];
    init_shadow_surfaces_pos(&mut rects);
    rects
}

/// Places the shadow edges around content of the given size.
pub fn layout_shadow(shadow_surfaces: &mut [ShadowRect; 4], width: u32, height: u32)
    requires
        shadow_fixed_parts(*old(shadow_surfaces)),
        width <= i32::MAX,
        height <= i32::MAX,
    ensures
        shadow_layout(*final(shadow_surfaces), width as int, height as int),
{
    let top = shadow_surfaces[0];
    shadow_surfaces[0] = ShadowRect { width: width + 2 * BORDER_SIZE, ..top };
    let bottom = shadow_surfaces[3];
    shadow_surfaces[3] = ShadowRect { width: width + 2 * BORDER_SIZE, y: height as i32, ..bottom };
    let left = shadow_surfaces[1];
    shadow_surfaces[1] = ShadowRect { height: height + HEADER_SIZE, ..left };
    let right = shadow_surfaces[2];
    shadow_surfaces[2] = ShadowRect { height: height + HEADER_SIZE, x: width as i32, ..right };
}

} // verus!
