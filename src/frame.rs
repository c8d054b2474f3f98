//! The frame controller: owns the decoration state of one window and
//! drives hit-testing and the pointer state machine on each event.
use vstd::prelude::*;

use crate::flags::{WindowManagerCapabilities, WindowState};
use crate::geometry::{
    initial_shadow_rects, layout_shadow, shadow_fixed_parts, shadow_layout, ShadowPart,
    ShadowRect, BORDER_SIZE, HEADER_SIZE, VISIBLE_BORDER_SIZE,
};
use crate::hit::{button_contains, classify, in_button, mouse_location, ButtonState, CursorArea};
use crate::pointer::{
    alternate_click_spec, click_spec, resize_cursor_of, is_frame_location, ButtonKind, CursorIcon, FrameAction,
    Location, MouseState,
};

verus! {

/// The kind of a click on the decorations.
#[derive(Clone, Copy, Debug, PartialEq, Eq, Structural)]
pub enum FrameClick {
    /// The primary button.
    Normal,
    /// The secondary button.
    Alternate,
    /// Any other button; it produces no action.
    Other,
}

/// What the header bar draw is to do, decided at its start.
#[derive(Clone, Copy, Debug, PartialEq, Eq, Structural)]
pub enum HeadBarDraw {
    /// Nothing is drawn; `sync` says whether the shadow edges are committed synchronized.
    Skip { sync: bool },
    /// Draw a buffer of `width` by `height` pixels, synchronized with the window if `sync`.
    Draw { width: u64, height: u64, sync: bool },
}

/// A rectangle in the pixels of a decoration buffer.
#[derive(Clone, Copy, Debug, PartialEq, Eq, Structural)]
pub struct PixelRect {
    pub x: u64,
    pub y: u64,
    pub width: u64,
    pub height: u64,
}

/// A size of at most `u32::MAX` logical pixels, scaled by at most 64, fits in 64 bits.
proof fn lemma_scaled_fits(a: int, s: int)
    requires
        0 <= a <= u32::MAX,
        0 <= s <= 64,
    ensures
        0 <= a * s <= u32::MAX * 64,
{
    assert(0 <= a * s <= u32::MAX * 64) by (nonlinear_arith)
        requires
            0 <= a <= u32::MAX,
            0 <= s <= 64,
    ;
}

/// The pointer is over the header bar at a position inside some button.
pub open spec fn hovers_button(m: MouseState, buttons: Seq<ButtonState>) -> bool {
    &&& is_frame_location(m.location)
    &&& m.cursor_pos is Some
    &&& exists|i: int|
        0 <= i < buttons.len() && button_contains(
            #[trigger] buttons[i],
            m.cursor_pos.unwrap().0 as int,
            m.cursor_pos.unwrap().1 as int,
        )
}

/// The state flags whose change alters the look of the decorations.
pub const REDRAW_STATES: u16 = 0x00fb;

/// The decoration state of one window.
pub struct FrameState {
    /// Decorations are not shown.
    pub hidden: bool,
    /// The decorations must be drawn again.
    pub dirty: bool,
    /// The next draw is committed in sync with the window surface.
    pub should_sync: bool,
    /// Integer scale of the decoration buffers.
    pub scale_factor: u32,
    pub resizable: bool,
    /// Size of the window content, once known.
    pub width: Option<u32>,
    pub height: Option<u32>,
    /// Buttons sit at the end of the header bar rather than its start.
    pub buttons_at_end: bool,
    pub buttons: Vec<ButtonState>,
    pub state: WindowState,
    pub wm_capabilities: WindowManagerCapabilities,
    pub mouse: MouseState,
    pub title: String,
    /// The shadow edges, indexed by `ShadowPart::index`.
    pub shadow_rects: [ShadowRect; 4],
}

impl FrameState {
    pub open spec fn wf(&self) -> bool {
        &&& 1 <= self.scale_factor <= 64
        &&& (self.width is Some <==> self.height is Some)
        &&& match (self.width, self.height) {
            (Some(w), Some(h)) => 0 < w <= i32::MAX && 0 < h <= i32::MAX && shadow_layout(
                self.shadow_rects,
                w as int,
                h as int,
            ),
            _ => shadow_fixed_parts(self.shadow_rects),
        }
    }

    /// The frame after hiding or showing the decorations.
    pub open spec fn with_hidden(self, hidden: bool) -> FrameState {
        if hidden {
            FrameState { hidden: true, dirty: false, ..self }
        } else {
            FrameState { hidden: false, dirty: true, should_sync: true, ..self }
        }
    }

    /// Decorations take no space: hidden, or the window is fullscreen.
    pub open spec fn undecorated(&self) -> bool {
        self.hidden || self.state.is_fullscreen()
    }

    /// A frame with the given button layout, before the content size is known.
    pub fn new(buttons_at_end: bool, kinds: Vec<ButtonKind>) -> (r: FrameState)
        ensures
            r.wf(),
            !r.hidden && r.dirty && r.should_sync && r.resizable,
            r.scale_factor == 1,
            r.width is None && r.height is None,
            r.buttons_at_end == buttons_at_end,
            r.buttons@.len() == kinds@.len(),
            forall|i: int|
                0 <= i < kinds@.len() ==> #[trigger] r.buttons@[i] == (ButtonState {
                    x: 0,
                    y: 0,
                    width: 0,
                    height: 0,
                    button_kind: kinds@[i],
                }),
            r.state.bits == 0,
            r.wm_capabilities.bits == WindowManagerCapabilities::ALL,
            r.mouse == MouseState::initial(),
            r.title@.len() == 0,
    {
        let mut buttons: Vec<ButtonState> = Vec::new();
        let mut i: usize = 0;
        while i < kinds.len()
            invariant
                i <= kinds@.len(),
                buttons@.len() == i,
                forall|j: int|
                    0 <= j < i ==> #[trigger] buttons@[j] == (ButtonState {
                        x: 0,
                        y: 0,
                        width: 0,
                        height: 0,
                        button_kind: kinds@[j],
                    }),
            decreases kinds.len() - i,
        {
            buttons.push(ButtonState { x: 0, y: 0, width: 0, height: 0, button_kind: kinds[i] });
            i += 1;
        }
        FrameState {
            hidden: false,
            dirty: true,
            should_sync: true,
            scale_factor: 1,
            resizable: true,
            width: None,
            height: None,
            buttons_at_end,
            buttons,
            state: WindowState::empty(),
            wm_capabilities: WindowManagerCapabilities::all(),
            mouse: MouseState {
                location: Location::Outside,
                cursor_pos: None,
                button_pressed: false,
                last_normal_click: None,
            },
            title: String::new(),
            shadow_rects: initial_shadow_rects(),
        }
    }

    /// A click on the decorations; returns the action the window should take.
    pub fn on_click(&mut self, timestamp: u64, click: FrameClick, pressed: bool) -> (r: Option<
        FrameAction,
    >)
        requires
            old(self).wf(),
        ensures
            final(self).wf(),
            ({
                let m = match click {
                    FrameClick::Normal => click_spec(
                        old(self).mouse,
                        timestamp,
                        pressed,
                        old(self).resizable,
                        old(self).state,
                        old(self).wm_capabilities,
                    ).0,
                    FrameClick::Alternate => MouseState {
                        last_normal_click: None,
                        ..old(self).mouse
                    },
                    FrameClick::Other => old(self).mouse,
                };
                *final(self) == (FrameState {
                    mouse: m,
                    dirty: old(self).dirty || hovers_button(m, old(self).buttons@),
                    ..*old(self)
                })
            }),
            r == match click {
                FrameClick::Normal => click_spec(
                    old(self).mouse,
                    timestamp,
                    pressed,
                    old(self).resizable,
                    old(self).state,
                    old(self).wm_capabilities,
                ).1,
                FrameClick::Alternate => alternate_click_spec(
                    old(self).mouse,
                    pressed,
                    old(self).wm_capabilities,
                ),
                FrameClick::Other => None,
            },
    {
        let action = match click {
            FrameClick::Normal => self.mouse.click(
                timestamp,
                pressed,
                self.resizable,
                &self.state,
                &self.wm_capabilities,
            ),
            FrameClick::Alternate => self.mouse.alternate_click(pressed, &self.wm_capabilities),
            FrameClick::Other => None,
        };
        self.update_dirty_by_button_cursor_pos();
        action
    }

    /// The pointer moved to the fixed-point position `(x, y)` on the
    /// decoration surface `cursor_area`. Returns the cursor to show, or
    /// `None` where the decorations have nothing to say.
    pub fn click_point_moved(&mut self, cursor_area: CursorArea, x: i32, y: i32) -> (r: Option<
        CursorIcon,
    >)
        requires
            old(self).wf(),
        ensures
            final(self).wf(),
            match (old(self).width, old(self).height) {
                (Some(w), Some(h)) => {
                    let loc = classify(
                        cursor_area,
                        x as int,
                        y as int,
                        w as int,
                        h as int,
                        old(self).buttons@,
                    );
                    let m = MouseState { location: loc, cursor_pos: Some((x, y)), ..old(self).mouse };
                    &&& *final(self) == (FrameState {
                        mouse: m,
                        dirty: old(self).dirty || hovers_button(m, old(self).buttons@),
                        ..*old(self)
                    })
                    &&& r == if loc == Location::Outside {
                        None
                    } else if !old(self).resizable || old(self).state.has_any(
                        WindowState::MAXIMIZED,
                    ) {
                        Some(CursorIcon::Default)
                    } else {
                        Some(resize_cursor_of(loc))
                    }
                },
                _ => *final(self) == *old(self) && r == Some(CursorIcon::Default),
            },
    {
        let (width, height) = match (self.width, self.height) {
            (Some(width), Some(height)) => (width, height),
            _ => return Some(CursorIcon::Default),
        };
        let location = mouse_location(x, y, width, height, cursor_area, &self.buttons);
        let cursor_icon = self.mouse.moved(location, x, y, self.resizable, self.state);
        self.update_dirty_by_button_cursor_pos();
        if location == Location::Outside {
            return None;
        }
        Some(cursor_icon)
    }

    /// The pointer left the decorations.
    pub fn click_point_left(&mut self)
        requires
            old(self).wf(),
        ensures
            final(self).wf(),
            *final(self) == (FrameState {
                mouse: MouseState { location: Location::Outside, ..old(self).mouse },
                ..*old(self)
            }),
    {
        self.mouse.left();
    }

    /// A new window state; the frame is dirty when a flag that alters its look changed.
    pub fn update_state(&mut self, state: WindowState)
        requires
            old(self).wf(),
        ensures
            final(self).wf(),
            *final(self) == (FrameState {
                state,
                dirty: old(self).dirty || (old(self).state.bits ^ state.bits) & REDRAW_STATES != 0,
                ..*old(self)
            }),
    {
        let difference = self.state.symmetric_difference(state);
        self.state = state;
        self.dirty = self.dirty || difference.intersects(REDRAW_STATES);
    }

    /// New window manager capabilities; the frame is dirty when they changed.
    pub fn update_wm_capabilities(&mut self, wm_capabilities: WindowManagerCapabilities)
        requires
            old(self).wf(),
        ensures
            final(self).wf(),
            *final(self) == (FrameState {
                wm_capabilities,
                dirty: old(self).dirty || old(self).wm_capabilities != wm_capabilities,
                ..*old(self)
            }),
    {
        self.dirty = self.dirty || self.wm_capabilities.bits != wm_capabilities.bits;
        self.wm_capabilities = wm_capabilities;
    }

    /// The window content now has the given size; the shadow edges follow it.
    pub fn resize(&mut self, width: u32, height: u32)
        requires
            old(self).wf(),
            0 < width <= i32::MAX,
            0 < height <= i32::MAX,
        ensures
            final(self).wf(),
            shadow_layout(final(self).shadow_rects, width as int, height as int),
            *final(self) == (FrameState {
                width: Some(width),
                height: Some(height),
                shadow_rects: final(self).shadow_rects,
                ..*old(self)
            }),
    {
        self.width = Some(width);
        self.height = Some(height);
        layout_shadow(&mut self.shadow_rects, width, height);
    }

    /// A new scale, already rounded up to a whole number; it is kept within 1 to 64.
    pub fn set_scaling_factor(&mut self, scale_factor: u32)
        requires
            old(self).wf(),
        ensures
            final(self).wf(),
            *final(self) == (FrameState {
                scale_factor: if scale_factor < 1 {
                    1
                } else if scale_factor > 64 {
                    64
                } else {
                    scale_factor
                },
                dirty: true,
                should_sync: true,
                ..*old(self)
            }),
    {
        self.scale_factor = if scale_factor < 1 {
            1
        } else if scale_factor > 64 {
            64
        } else {
            scale_factor
        };
        self.dirty = true;
        self.should_sync = true;
    }

    /// Offset of the decorated window's origin from the content's.
    pub fn location(&self) -> (r: (i32, i32))
        ensures
            r == if self.undecorated() {
                (0i32, 0i32)
            } else {
                (0i32, -50i32)
            },
    {
        if self.hidden || self.state.contains(WindowState::FULLSCREEN) {
            (0, 0)
        } else {
            (0, -(HEADER_SIZE as i32))
        }
    }

    /// The content size left of a decorated window of the given size.
    pub fn subtract_borders(&self, width: u32, height: u32) -> (r: (Option<u32>, Option<u32>))
        requires
            width > 0,
            height > 0,
        ensures
            r == if self.undecorated() {
                (Some(width), Some(height))
            } else {
                (Some(width), if height > 50 {
                    Some((height - 50) as u32)
                } else {
                    None
                })
            },
    {
        if self.hidden || self.state.contains(WindowState::FULLSCREEN) {
            (Some(width), Some(height))
        } else {
            let rest = height.saturating_sub(HEADER_SIZE);
            (Some(width), if rest == 0 {
                None
            } else {
                Some(rest)
            })
        }
    }

    /// The size of the decorated window around content of the given size.
    pub fn add_borders(&self, width: u32, height: u32) -> (r: (u32, u32))
        requires
            self.undecorated() || height <= u32::MAX - 50,
        ensures
            r == if self.undecorated() {
                (width, height)
            } else {
                (width, (height + 50) as u32)
            },
    {
        if self.hidden || self.state.contains(WindowState::FULLSCREEN) {
            (width, height)
        } else {
            (width, height + HEADER_SIZE)
        }
    }

    pub fn is_dirty(&self) -> (r: bool)
        ensures
            r == self.dirty,
    {
        self.dirty
    }

    /// Hides or shows the decorations. Hidden decorations need no drawing;
    /// shown again, they are drawn at the next commit of the window.
    pub fn set_hidden(&mut self, hidden: bool)
        requires
            old(self).wf(),
        ensures
            final(self).wf(),
            *final(self) == old(self).with_hidden(hidden),
    {
        self.hidden = hidden;
        if hidden {
            self.dirty = false;
        } else {
            self.dirty = true;
            self.should_sync = true;
        }
    }

    pub fn is_hidden(&self) -> (r: bool)
        ensures
            r == self.hidden,
    {
        self.hidden
    }

    pub fn set_resizable(&mut self, resizable: bool)
        requires
            old(self).wf(),
        ensures
            final(self).wf(),
            *final(self) == (FrameState { resizable, ..*old(self) }),
    {
        self.resizable = resizable;
    }

    pub fn set_title(&mut self, title: String)
        requires
            old(self).wf(),
        ensures
            final(self).wf(),
            *final(self) == (FrameState { title, dirty: true, ..*old(self) }),
    {
        self.title = title;
        self.dirty = true;
    }

    /// Starts a draw: the frame is no longer dirty and the sync request is
    /// consumed. Says what the header bar draw is to do.
    pub fn start_head_bar_draw(&mut self) -> (r: HeadBarDraw)
        requires
            old(self).wf(),
        ensures
            final(self).wf(),
            *final(self) == (FrameState { dirty: false, should_sync: false, ..*old(self) }),
            r == if old(self).state.is_fullscreen() {
                HeadBarDraw::Skip { sync: true }
            } else {
                match old(self).width {
                    None => HeadBarDraw::Skip { sync: false },
                    Some(w) => HeadBarDraw::Draw {
                        width: (w * old(self).scale_factor) as u64,
                        height: (50 * old(self).scale_factor) as u64,
                        sync: old(self).should_sync,
                    },
                }
            },
    {
        self.dirty = false;
        let should_sync = self.should_sync;
        self.should_sync = false;
        if self.state.contains(WindowState::FULLSCREEN) {
            return HeadBarDraw::Skip { sync: true };
        }
        match self.width {
            None => HeadBarDraw::Skip { sync: false },
            Some(width) => {
                proof {
                    lemma_scaled_fits(width as int, self.scale_factor as int);
                }
                HeadBarDraw::Draw {
                width: width as u64 * self.scale_factor as u64,
                height: HEADER_SIZE as u64 * self.scale_factor as u64,
                sync: should_sync,
                }
            },
        }
    }

    /// The buffer size, in pixels, of a shadow edge.
    pub fn shadow_buffer_size(&self, part: ShadowPart) -> (r: (u64, u64))
        requires
            self.wf(),
        ensures
            r.0 == self.shadow_rects[part.spec_index()].width * self.scale_factor,
            r.1 == self.shadow_rects[part.spec_index()].height * self.scale_factor,
    {
        let rect = self.shadow_rects[part.index()];
        proof {
            lemma_scaled_fits(rect.width as int, self.scale_factor as int);
            lemma_scaled_fits(rect.height as int, self.scale_factor as int);
        }
        (rect.width as u64 * self.scale_factor as u64, rect.height as u64 * self.scale_factor as u64)
    }

    /// The shadow is drawn unless the window is tiled.
    pub fn draws_shadow(&self) -> (r: bool)
        ensures
            r == !self.state.is_tiled(),
    {
        !self.state.intersects(WindowState::TILED)
    }

    pub fn is_activated(&self) -> (r: bool)
        ensures
            r == self.state.has_all(WindowState::ACTIVATED),
    {
        self.state.contains(WindowState::ACTIVATED)
    }

    /// Where, in the pixels of a shadow edge's buffer, the visible border is
    /// drawn: a line of one logical pixel flush against the content, on the
    /// left, right and bottom edges. There is none on the top edge, none
    /// while the window is tiled, and none before the content size is known.
    pub fn visible_border(&self, part: ShadowPart) -> (r: Option<PixelRect>)
        requires
            self.wf(),
        ensures
            r == if self.state.is_tiled() || self.width is None {
                None
            } else {
                let s = self.scale_factor as int;
                let w = self.width.unwrap() as int;
                let h = self.height.unwrap() as int;
                match part {
                    ShadowPart::Top => None,
                    ShadowPart::Left => Some(
                        PixelRect {
                            x: (9 * s) as u64,
                            y: (50 * s) as u64,
                            width: s as u64,
                            height: (h * s) as u64,
                        },
                    ),
                    ShadowPart::Right => Some(
                        PixelRect { x: 0, y: (50 * s) as u64, width: s as u64, height: (h * s) as u64 },
                    ),
                    ShadowPart::Bottom => Some(
                        PixelRect {
                            x: (9 * s) as u64,
                            y: 0,
                            width: ((w + 2) * s) as u64,
                            height: s as u64,
                        },
                    ),
                }
            },
    {
        if self.state.intersects(WindowState::TILED) {
            return None;
        }
        let (width, height) = match (self.width, self.height) {
            (Some(w), Some(h)) => (w as u64, h as u64),
            _ => return None,
        };
        let scale = self.scale_factor as u64;
        let border = VISIBLE_BORDER_SIZE as u64 * scale;
        let side = BORDER_SIZE as u64 * scale;
        let header = HEADER_SIZE as u64 * scale;
        proof {
            lemma_scaled_fits(width as int, scale as int);
            lemma_scaled_fits(height as int, scale as int);
        }
        assert(width * scale + 2 * border == (width + 2) * scale) by (nonlinear_arith)
            requires
                border == scale,
        ;
        match part {
            ShadowPart::Top => None,
            ShadowPart::Left => Some(
                PixelRect { x: side - border, y: header, width: border, height: height * scale },
            ),
            ShadowPart::Right => Some(
                PixelRect { x: 0, y: header, width: border, height: height * scale },
            ),
            ShadowPart::Bottom => Some(
                PixelRect {
                    x: side - border,
                    y: 0,
                    width: width * scale + 2 * border,
                    height: border,
                },
            ),
        }
    }

    /// Records the rectangle a button was last drawn in.
    pub fn set_button_allocation(&mut self, index: usize, x: i32, y: i32, width: u32, height: u32)
        requires
            old(self).wf(),
            index < old(self).buttons@.len(),
        ensures
            final(self).wf(),
            *final(self) == (FrameState {
                buttons: final(self).buttons,
                ..*old(self)
            }),
            final(self).buttons@ == old(self).buttons@.update(
                index as int,
                ButtonState {
                    x,
                    y,
                    width,
                    height,
                    button_kind: old(self).buttons@[index as int].button_kind,
                },
            ),
    {
        let kind = self.buttons[index].button_kind;
        self.buttons[index] = ButtonState { x, y, width, height, button_kind: kind };
    }

    /// Whether the pointer was last seen inside a button; the button is then drawn highlighted.
    pub fn button_hovered(&self, index: usize) -> (r: bool)
        requires
            index < self.buttons@.len(),
        ensures
            r == match self.mouse.cursor_pos {
                Some(pos) => button_contains(self.buttons@[index as int], pos.0 as int, pos.1 as int),
                None => false,
            },
    {
        match self.mouse.cursor_pos {
            Some(pos) => in_button(pos, &self.buttons[index]),
            None => false,
        }
    }

    /// Marks the frame dirty when the pointer is over the header bar inside a button.
    fn update_dirty_by_button_cursor_pos(&mut self)
        ensures
            *final(self) == (FrameState {
                dirty: old(self).dirty || hovers_button(old(self).mouse, old(self).buttons@),
                ..*old(self)
            }),
    {
        if !self.mouse.in_frame() {
            return;
        }
        match self.mouse.cursor_pos {
            None => {},
            Some(cursor_pos) => {
                let mut i: usize = 0;
                while i < self.buttons.len()
                    invariant
                        i <= self.buttons@.len(),
                        *self == *old(self),
                        self.mouse.cursor_pos == Some(cursor_pos),
                        is_frame_location(self.mouse.location),
                        forall|j: int|
                            0 <= j < i ==> !button_contains(
                                #[trigger] self.buttons@[j],
                                cursor_pos.0 as int,
                                cursor_pos.1 as int,
                            ),
                    decreases self.buttons.len() - i,
                {
                    if in_button(cursor_pos, &self.buttons[i]) {
                        assert(hovers_button(self.mouse, self.buttons@));
                        self.dirty = true;
                        return;
                    }
                    i += 1;
                }
            },
        }
    }
}

/// Hiding the decorations leaves nothing to draw; showing them again asks
/// for a draw committed in sync with the window.
pub proof fn lemma_hide_then_show(f: FrameState)
    ensures
        !f.with_hidden(true).dirty,
        f.with_hidden(true).hidden,
        f.with_hidden(true).with_hidden(false).dirty,
        f.with_hidden(true).with_hidden(false).should_sync,
        !f.with_hidden(true).with_hidden(false).hidden,
{
}

} // verus!
