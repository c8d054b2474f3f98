//! Hit-testing: which semantic region of the decorations a pointer
//! position falls in.
//!
//! Coordinates are fixed point (see `pointer`); the edge margin is in
//! logical pixels and does not depend on the scale factor.
use vstd::prelude::*;

use crate::geometry::{ShadowPart, EDGE_MARGIN};
use crate::pointer::FIXED_ONE;
use crate::pointer::{ButtonKind, Location};

verus! {

/// The decoration surface that a pointer event arrived on.
#[derive(Clone, Copy, Debug, PartialEq, Eq, Structural)]
pub enum CursorArea {
    /// The header bar.
    Frame,
    TopShadow,
    BottomShadow,
    LeftShadow,
    RightShadow,
    /// Anything else, such as the window content.
    Window,
}

impl CursorArea {
    /// The area of a surface, from whether it is the header bar surface and
    /// which shadow slot, if any, holds it.
    pub fn from_surface(is_header: bool, shadow_index: Option<usize>) -> (r: CursorArea)
        requires
            shadow_index is Some ==> shadow_index.unwrap() < 4,
        ensures
            r == (if is_header {
                CursorArea::Frame
            } else {
                match shadow_index {
                    None => CursorArea::Window,
                    Some(i) => if i == 0 {
                        CursorArea::TopShadow
                    } else if i == 1 {
                        CursorArea::LeftShadow
                    } else if i == 2 {
                        CursorArea::RightShadow
                    } else {
                        CursorArea::BottomShadow
                    },
                }
            }),
    {
        if is_header {
            return CursorArea::Frame;
        }
        match shadow_index {
            None => CursorArea::Window,
            Some(index) => {
                if index == ShadowPart::Top.index() {
                    CursorArea::TopShadow
                } else if index == ShadowPart::Left.index() {
                    CursorArea::LeftShadow
                } else if index == ShadowPart::Right.index() {
                    CursorArea::RightShadow
                } else {
                    CursorArea::BottomShadow
                }
            },
        }
    }
}

/// A button of the header bar and the rectangle it was last drawn in,
/// in logical pixels relative to the header bar surface.
#[derive(Clone, Copy, Debug, PartialEq, Eq, Structural)]
pub struct ButtonState {
    pub x: i32,
    pub y: i32,
    pub width: u32,
    pub height: u32,
    pub button_kind: ButtonKind,
}

/// The fixed-point position `(px, py)` lies in the button's rectangle, borders included.
pub open spec fn button_contains(b: ButtonState, px: int, py: int) -> bool {
    &&& b.x * 256 <= px <= (b.x + b.width) * 256
    &&& b.y * 256 <= py <= (b.y + b.height) * 256
}

/// Over the header bar away from its top edge: the first button, in
/// configured order, that holds the position, else the header itself.
pub open spec fn button_or_head(buttons: Seq<ButtonState>, px: int, py: int) -> Location
    decreases buttons.len(),
{
    if buttons.len() == 0 {
        Location::Head
    } else if button_contains(buttons[0], px, py) {
        Location::Button(buttons[0].button_kind)
    } else {
        button_or_head(buttons.drop_first(), px, py)
    }
}

/// The region under the fixed-point position `(px, py)` on `area`, for
/// content of `width` by `height` logical pixels.
pub open spec fn classify(
    area: CursorArea,
    px: int,
    py: int,
    width: int,
    height: int,
    buttons: Seq<ButtonState>,
) -> Location {
    let near = 5 * 256;
    let far_x = (width - 5) * 256;
    let far_y = (height - 5) * 256;
    match area {
        CursorArea::Frame => {
            if px <= near && py <= near {
                Location::TopLeft
            } else if px >= far_x && py <= near {
                Location::TopRight
            } else if near < px < far_x && py < near {
                Location::Top
            } else {
                button_or_head(buttons, px, py)
            }
        },
        CursorArea::TopShadow => {
            if px <= near {
                Location::TopLeft
            } else if px >= far_x {
                Location::TopRight
            } else {
                Location::Top
            }
        },
        CursorArea::BottomShadow => {
            if px <= near {
                Location::BottomLeft
            } else if px >= far_x {
                Location::BottomRight
            } else {
                Location::Bottom
            }
        },
        CursorArea::LeftShadow => {
            if py <= near {
                Location::TopLeft
            } else if py >= far_y {
                Location::BottomLeft
            } else {
                Location::Left
            }
        },
        CursorArea::RightShadow => {
            if py <= near {
                Location::TopRight
            } else if py >= far_y {
                Location::BottomRight
            } else {
                Location::Right
            }
        },
        CursorArea::Window => Location::Outside,
    }
}

/// Whether the fixed-point position lies in the button's rectangle.
pub fn in_button(cursor_pos: (i32, i32), state: &ButtonState) -> (r: bool)
    ensures
        r == button_contains(*state, cursor_pos.0 as int, cursor_pos.1 as int),
{
    let x = cursor_pos.0 as i64;
    let y = cursor_pos.1 as i64;
    let one = FIXED_ONE as i64;
    let left = state.x as i64 * one;
    let right = (state.x as i64 + state.width as i64) * one;
    let top = state.y as i64 * one;
    let bottom = (state.y as i64 + state.height as i64) * one;
    x >= left && x <= right && y >= top && y <= bottom
}

/// The region of the decorations under the fixed-point position `(x, y)`.
pub fn mouse_location(
    x: i32,
    y: i32,
    width: u32,
    height: u32,
    cursor_area: CursorArea,
    buttons: &Vec<ButtonState>,
) -> (r: Location)
    ensures
        r == classify(cursor_area, x as int, y as int, width as int, height as int, buttons@),
{
    let px = x as i64;
    let py = y as i64;
    let one = FIXED_ONE as i64;
    let margin = EDGE_MARGIN as i64;
    let near: i64 = margin * one;
    let far_x = (width as i64 - margin) * one;
    let far_y = (height as i64 - margin) * one;
    match cursor_area {
        CursorArea::Frame => {
            if px <= near && py <= near {
                Location::TopLeft
            } else if px >= far_x && py <= near {
                Location::TopRight
            } else if px > near && px < far_x && py < near {
                Location::Top
            } else {
                let mut i: usize = 0;
                assert(buttons@.subrange(0, buttons@.len() as int) =~= buttons@);
                while i < buttons.len()
                    invariant
                        i <= buttons@.len(),
                        classify(cursor_area, x as int, y as int, width as int, height as int, buttons@)
                            == button_or_head(buttons@, x as int, y as int),
                        button_or_head(buttons@, x as int, y as int) == button_or_head(
                            buttons@.subrange(i as int, buttons@.len() as int),
                            x as int,
                            y as int,
                        ),
                    decreases buttons.len() - i,
                {
                    assert(buttons@.subrange(i as int, buttons@.len() as int).drop_first()
                        =~= buttons@.subrange(i + 1, buttons@.len() as int));
                    assert(buttons@.subrange(i as int, buttons@.len() as int)[0] == buttons@[i as int]);
                    if in_button((x, y), &buttons[i]) {
                        assert(button_or_head(
                            buttons@.subrange(i as int, buttons@.len() as int),
                            x as int,
                            y as int,
                        ) == Location::Button(buttons@[i as int].button_kind));
                        return Location::Button(buttons[i].button_kind);
                    }
                    i += 1;
                }
                Location::Head
            }
        },
        CursorArea::TopShadow => {
            if px <= near {
                Location::TopLeft
            } else if px >= far_x {
                Location::TopRight
            } else {
                Location::Top
            }
        },
        CursorArea::BottomShadow => {
            if px <= near {
                Location::BottomLeft
            } else if px >= far_x {
                Location::BottomRight
            } else {
                Location::Bottom
            }
        },
        CursorArea::LeftShadow => {
            if py <= near {
                Location::TopLeft
            } else if py >= far_y {
                Location::BottomLeft
            } else {
                Location::Left
            }
        },
        CursorArea::RightShadow => {
            if py <= near {
                Location::TopRight
            } else if py >= far_y {
                Location::BottomRight
            } else {
                Location::Right
            }
        },
        CursorArea::Window => Location::Outside,
    }
}

/// Over the header away from its top edge, the first button holding the
/// position is the answer.
proof fn lemma_first_button_wins(buttons: Seq<ButtonState>, px: int, py: int, i: int)
    requires
        0 <= i < buttons.len(),
        button_contains(buttons[i], px, py),
        forall|j: int| 0 <= j < i ==> !button_contains(#[trigger] buttons[j], px, py),
    ensures
        button_or_head(buttons, px, py) == Location::Button(buttons[i].button_kind),
    decreases i,
{
    if i > 0 {
        assert(!button_contains(buttons[0], px, py));
        let rest = buttons.drop_first();
        assert forall|j: int| 0 <= j < i - 1 implies !button_contains(#[trigger] rest[j], px, py) by {
            assert(rest[j] == buttons[j + 1]);
        }
        lemma_first_button_wins(rest, px, py, i - 1);
    }
}

/// On the header bar, a position inside a button's rectangle and below the
/// top resize strip is that button, not the header, when no button before
/// it in the configured order holds the position too.
pub proof fn lemma_button_over_head(
    px: int,
    py: int,
    width: int,
    height: int,
    buttons: Seq<ButtonState>,
    i: int,
)
    requires
        0 <= i < buttons.len(),
        button_contains(buttons[i], px, py),
        forall|j: int| 0 <= j < i ==> !button_contains(#[trigger] buttons[j], px, py),
        py > 5 * 256,
    ensures
        classify(CursorArea::Frame, px, py, width, height, buttons) == Location::Button(
            buttons[i].button_kind,
        ),
{
    lemma_first_button_wins(buttons, px, py, i);
}

/// Within the edge margin of two sides at once, every surface that reaches
/// that corner reports the corner.
pub proof fn lemma_corners(px: int, py: int, width: int, height: int, buttons: Seq<ButtonState>)
    ensures
        px < 5 * 256 && py < 5 * 256 ==> classify(CursorArea::Frame, px, py, width, height, buttons)
            == Location::TopLeft,
        5 * 256 < px && px > (width - 5) * 256 && py < 5 * 256 ==> classify(
            CursorArea::Frame,
            px,
            py,
            width,
            height,
            buttons,
        ) == Location::TopRight,
        px < 5 * 256 ==> classify(CursorArea::TopShadow, px, py, width, height, buttons)
            == Location::TopLeft,
        5 * 256 < px && px > (width - 5) * 256 ==> classify(
            CursorArea::TopShadow,
            px,
            py,
            width,
            height,
            buttons,
        ) == Location::TopRight,
        px < 5 * 256 ==> classify(CursorArea::BottomShadow, px, py, width, height, buttons)
            == Location::BottomLeft,
        5 * 256 < px && px > (width - 5) * 256 ==> classify(
            CursorArea::BottomShadow,
            px,
            py,
            width,
            height,
            buttons,
        ) == Location::BottomRight,
        py < 5 * 256 ==> classify(CursorArea::LeftShadow, px, py, width, height, buttons)
            == Location::TopLeft,
        5 * 256 < py && py > (height - 5) * 256 ==> classify(
            CursorArea::LeftShadow,
            px,
            py,
            width,
            height,
            buttons,
        ) == Location::BottomLeft,
        py < 5 * 256 ==> classify(CursorArea::RightShadow, px, py, width, height, buttons)
            == Location::TopRight,
        5 * 256 < py && py > (height - 5) * 256 ==> classify(
            CursorArea::RightShadow,
            px,
            py,
            width,
            height,
            buttons,
        ) == Location::BottomRight,
{
}

} // verus!
