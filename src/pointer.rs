//! The pointer state machine of the decorations.
//!
//! Surface-local pointer coordinates are fixed-point numbers with 8
//! fractional bits (256 units per logical pixel), as the compositor protocol
//! delivers them. Timestamps are in milliseconds.
use vstd::prelude::*;

use crate::flags::{WindowManagerCapabilities, WindowState};

verus! {

/// Units of a fixed-point coordinate per logical pixel.
pub const FIXED_ONE: i32 = 256;

/// Time, in milliseconds, within which a second click counts as a double click.
pub const DOUBLE_CLICK_MILLIS: u64 = 400;

#[derive(Clone, Copy, Debug, PartialEq, Eq, Structural)]
pub enum ButtonKind {
    Close,
    Maximize,
    Minimize,
}

/// The semantic region of the decorations under the pointer.
#[derive(Clone, Copy, Debug, PartialEq, Eq, Structural)]
pub enum Location {
    /// Not over any decoration region.
    Outside,
    Head,
    Top,
    TopRight,
    Right,
    BottomRight,
    Bottom,
    BottomLeft,
    Left,
    TopLeft,
    Button(ButtonKind),
}

impl Default for Location {
    fn default() -> (r: Location)
        ensures
            r == Location::Outside,
    {
        Location::Outside
    }
}

/// The edge or corner from which an interactive resize starts.
#[derive(Clone, Copy, Debug, PartialEq, Eq, Structural)]
pub enum ResizeEdge {
    Top,
    Bottom,
    Left,
    TopLeft,
    BottomLeft,
    Right,
    TopRight,
    BottomRight,
}

/// What the window should do in response to input on its decorations.
#[derive(Clone, Copy, Debug, PartialEq, Eq, Structural)]
pub enum FrameAction {
    Minimize,
    Maximize,
    UnMaximize,
    Close,
    Move,
    Resize(ResizeEdge),
    /// Show the window menu at the given surface-local position.
    ShowMenu(i32, i32),
}

/// The cursor shape to show over the decorations.
#[derive(Clone, Copy, Debug, PartialEq, Eq, Structural)]
pub enum CursorIcon {
    Default,
    NResize,
    NeResize,
    EResize,
    SeResize,
    SResize,
    SwResize,
    WResize,
    NwResize,
}

/// The resize edge that a location stands for, if it is an edge or a corner.
pub open spec fn resize_edge_of(location: Location) -> Option<ResizeEdge> {
    match location {
        Location::Top => Some(ResizeEdge::Top),
        Location::TopLeft => Some(ResizeEdge::TopLeft),
        Location::Left => Some(ResizeEdge::Left),
        Location::BottomLeft => Some(ResizeEdge::BottomLeft),
        Location::Bottom => Some(ResizeEdge::Bottom),
        Location::BottomRight => Some(ResizeEdge::BottomRight),
        Location::Right => Some(ResizeEdge::Right),
        Location::TopRight => Some(ResizeEdge::TopRight),
        _ => None,
    }
}

/// The directional cursor of an edge or corner location; the default cursor elsewhere.
pub open spec fn resize_cursor_of(location: Location) -> CursorIcon {
    match location {
        Location::Top => CursorIcon::NResize,
        Location::TopRight => CursorIcon::NeResize,
        Location::Right => CursorIcon::EResize,
        Location::BottomRight => CursorIcon::SeResize,
        Location::Bottom => CursorIcon::SResize,
        Location::BottomLeft => CursorIcon::SwResize,
        Location::Left => CursorIcon::WResize,
        Location::TopLeft => CursorIcon::NwResize,
        _ => CursorIcon::Default,
    }
}

/// Locations over which hovering may change the look of the header bar.
pub open spec fn is_frame_location(location: Location) -> bool {
    match location {
        Location::Head | Location::TopLeft | Location::TopRight | Location::Top | Location::Button(
            _,
        ) => true,
        _ => false,
    }
}

/// A fixed-point coordinate truncated toward zero to whole logical pixels.
pub open spec fn truncate_fixed(v: int) -> int {
    if v >= 0 {
        v / 256
    } else {
        -((-v) / 256)
    }
}

/// Whether a click at `now` follows the one at `last` closely enough to be a double click.
pub open spec fn within_double_click(last: u64, now: u64) -> bool {
    let gap: int = if now >= last { now - last } else { 0 };
    gap < DOUBLE_CLICK_MILLIS
}

/// The action of the toggle-maximize gesture.
pub open spec fn toggle_maximize(state: WindowState) -> FrameAction {
    if state.is_maximized() {
        FrameAction::UnMaximize
    } else {
        FrameAction::Maximize
    }
}

/// The state of the mouse input inside the decorations.
#[derive(Clone, Copy, Debug)]
pub struct MouseState {
    pub location: Location,
    /// The last position of the pointer on a decoration surface, in fixed point.
    pub cursor_pos: Option<(i32, i32)>,
    pub button_pressed: bool,
    /// When the last normal click on the header was made.
    pub last_normal_click: Option<u64>,
}

impl Default for MouseState {
    fn default() -> (r: MouseState)
        ensures
            r == MouseState::initial(),
    {
        MouseState {
            location: Location::Outside,
            cursor_pos: None,
            button_pressed: false,
            last_normal_click: None,
        }
    }
}

/// What a normal click does: the state after it and the action it produces.
///
/// A button acts when released; a press on the header starts a move, or
/// toggles maximization when it closely follows the previous press; a press
/// on an edge or corner of a resizable window starts a resize.
pub open spec fn click_spec(
    m: MouseState,
    timestamp: u64,
    pressed: bool,
    resizable: bool,
    state: WindowState,
    caps: WindowManagerCapabilities,
) -> (MouseState, Option<FrameAction>) {
    match m.location {
        Location::Button(kind) => {
            let m2 = MouseState { button_pressed: pressed, ..m };
            let action = if pressed {
                None
            } else {
                match kind {
                    ButtonKind::Close => Some(FrameAction::Close),
                    ButtonKind::Maximize => Some(toggle_maximize(state)),
                    ButtonKind::Minimize => Some(FrameAction::Minimize),
                }
            };
            (m2, action)
        },
        Location::Head => {
            if pressed && caps.can_maximize() {
                let m2 = MouseState { last_normal_click: Some(timestamp), ..m };
                let action = match m.last_normal_click {
                    Some(last) if within_double_click(last, timestamp) => toggle_maximize(state),
                    _ => FrameAction::Move,
                };
                (m2, Some(action))
            } else if pressed {
                (m, Some(FrameAction::Move))
            } else {
                (m, None)
            }
        },
        _ => {
            if resizable && pressed && resize_edge_of(m.location).is_some() {
                (m, Some(FrameAction::Resize(resize_edge_of(m.location).unwrap())))
            } else {
                (m, None)
            }
        },
    }
}

/// The state after an alternate click: no earlier click counts toward a double click.
pub open spec fn forget_normal_click(m: MouseState) -> MouseState {
    MouseState { last_normal_click: None, ..m }
}

/// The action of an alternate click: the window menu at the pointer, when
/// pressed over the header or a button and the window manager offers a menu.
pub open spec fn alternate_click_spec(
    m: MouseState,
    pressed: bool,
    caps: WindowManagerCapabilities,
) -> Option<FrameAction> {
    if pressed && caps.can_show_menu() && (m.location == Location::Head || m.location is Button)
        && m.cursor_pos is Some {
        Some(
            FrameAction::ShowMenu(
                truncate_fixed(m.cursor_pos.unwrap().0 as int) as i32,
                truncate_fixed(m.cursor_pos.unwrap().1 as int) as i32,
            ),
        )
    } else {
        None
    }
}

impl MouseState {
    pub open spec fn initial() -> MouseState {
        MouseState {
            location: Location::Outside,
            cursor_pos: None,
            button_pressed: false,
            last_normal_click: None,
        }
    }

    /// A normal (primary button) click on the decorations.
    pub fn click(
        &mut self,
        timestamp: u64,
        pressed: bool,
        resizable: bool,
        state: &WindowState,
        wm_capabilities: &WindowManagerCapabilities,
    ) -> (r: Option<FrameAction>)
        ensures
            *final(self) == click_spec(
                *old(self),
                timestamp,
                pressed,
                resizable,
                *state,
                *wm_capabilities,
            ).0,
            r == click_spec(*old(self), timestamp, pressed, resizable, *state, *wm_capabilities).1,
    {
        let maximized = state.contains(WindowState::MAXIMIZED);
        let toggle = if maximized {
            FrameAction::UnMaximize
        } else {
            FrameAction::Maximize
        };
        let location = self.location;
        match location {
            Location::Button(kind) => {
                self.button_pressed = pressed;
                if pressed {
                    None
                } else {
                    match kind {
                        ButtonKind::Close => Some(FrameAction::Close),
                        ButtonKind::Maximize => Some(toggle),
                        ButtonKind::Minimize => Some(FrameAction::Minimize),
                    }
                }
            },
            Location::Head => {
                if pressed && wm_capabilities.contains(WindowManagerCapabilities::MAXIMIZE) {
                    let previous = self.last_normal_click;
                    self.last_normal_click = Some(timestamp);
                    match previous {
                        Some(last) if timestamp.saturating_sub(last) < DOUBLE_CLICK_MILLIS => {
                            Some(toggle)
                        },
                        _ => Some(FrameAction::Move),
                    }
                } else if pressed {
                    Some(FrameAction::Move)
                } else {
                    None
                }
            },
            _ => {
                if resizable && pressed {
                    match resize_edge(location) {
                        Some(edge) => Some(FrameAction::Resize(edge)),
                        None => None,
                    }
                } else {
                    None
                }
            },
        }
    }

    /// An alternate (secondary button) click on the decorations.
    ///
    /// It never counts toward a double click, and opens the window menu when
    /// pressed over the header or a button.
    pub fn alternate_click(
        &mut self,
        pressed: bool,
        wm_capabilities: &WindowManagerCapabilities,
    ) -> (r: Option<FrameAction>)
        ensures
            *final(self) == forget_normal_click(*old(self)),
            r == alternate_click_spec(*old(self), pressed, *wm_capabilities),
    {
        self.last_normal_click = None;
        let over_frame = match self.location {
            Location::Head | Location::Button(_) => true,
            _ => false,
        };
        if pressed && over_frame && wm_capabilities.contains(WindowManagerCapabilities::WINDOW_MENU) {
            match self.cursor_pos {
                Some(pos) => Some(FrameAction::ShowMenu(truncate_to_pixels(pos.0), truncate_to_pixels(pos.1))),
                None => None,
            }
        } else {
            None
        }
    }

    /// The pointer moved over the decorations, to `location` at `(x, y)`.
    pub fn moved(
        &mut self,
        location: Location,
        x: i32,
        y: i32,
        resizable: bool,
        window_state: WindowState,
    ) -> (r: CursorIcon)
        ensures
            *final(self) == (MouseState { location, cursor_pos: Some((x, y)), ..*old(self) }),
            r == (if !resizable || window_state.has_any(WindowState::MAXIMIZED) {
                CursorIcon::Default
            } else {
                resize_cursor_of(location)
            }),
    {
        self.location = location;
        self.cursor_pos = Some((x, y));
        if !resizable || window_state.intersects(WindowState::MAXIMIZED) {
            return CursorIcon::Default;
        }
        match location {
            Location::Top => CursorIcon::NResize,
            Location::TopRight => CursorIcon::NeResize,
            Location::Right => CursorIcon::EResize,
            Location::BottomRight => CursorIcon::SeResize,
            Location::Bottom => CursorIcon::SResize,
            Location::BottomLeft => CursorIcon::SwResize,
            Location::Left => CursorIcon::WResize,
            Location::TopLeft => CursorIcon::NwResize,
            _ => CursorIcon::Default,
        }
    }

    /// The pointer left the decorations: only the location is reset.
    pub fn left(&mut self)
        ensures
            *final(self) == (MouseState { location: Location::Outside, ..*old(self) }),
    {
        self.location = Location::Outside;
    }

    /// Whether the pointer is over the header bar part of the decorations.
    pub fn in_frame(&self) -> (r: bool)
        ensures
            r == is_frame_location(self.location),
    {
        match self.location {
            Location::Head | Location::TopLeft | Location::TopRight | Location::Top
            | Location::Button(_) => true,
            _ => false,
        }
    }
}

/// The resize edge that a location stands for, if any.
pub fn resize_edge(location: Location) -> (r: Option<ResizeEdge>)
    ensures
        r == resize_edge_of(location),
{
    match location {
        Location::Top => Some(ResizeEdge::Top),
        Location::TopLeft => Some(ResizeEdge::TopLeft),
        Location::Left => Some(ResizeEdge::Left),
        Location::BottomLeft => Some(ResizeEdge::BottomLeft),
        Location::Bottom => Some(ResizeEdge::Bottom),
        Location::BottomRight => Some(ResizeEdge::BottomRight),
        Location::Right => Some(ResizeEdge::Right),
        Location::TopRight => Some(ResizeEdge::TopRight),
        _ => None,
    }
}

/// A fixed-point coordinate truncated toward zero to whole logical pixels.
pub fn truncate_to_pixels(v: i32) -> (r: i32)
    ensures
        r as int == truncate_fixed(v as int),
{
    let w = v as i64;
    let one = FIXED_ONE as i64;
    if w >= 0 {
        (w / one) as i32
    } else {
        (-((-w) / one)) as i32
    }
}

/// Two presses on the header, at `t1` and then at `t2`, where the window
/// manager can maximize: the second toggles maximization when it comes
/// less than the double-click time after the first, and starts a move
/// otherwise.
pub proof fn lemma_double_click_on_header(
    m: MouseState,
    t1: u64,
    t2: u64,
    resizable: bool,
    state: WindowState,
    caps: WindowManagerCapabilities,
)
    requires
        m.location == Location::Head,
        caps.can_maximize(),
        t1 <= t2,
    ensures
        ({
            let m1 = click_spec(m, t1, true, resizable, state, caps).0;
            let second = click_spec(m1, t2, true, resizable, state, caps).1;
            &&& t2 - t1 < DOUBLE_CLICK_MILLIS ==> second == Some(toggle_maximize(state))
            &&& t2 - t1 >= DOUBLE_CLICK_MILLIS ==> second == Some(FrameAction::Move)
        }),
{
}

/// An alternate click between two presses on the header breaks the double
/// click: the second press starts a move, however soon it comes.
pub proof fn lemma_alternate_click_breaks_double_click(
    m: MouseState,
    t1: u64,
    t2: u64,
    resizable: bool,
    state: WindowState,
    caps: WindowManagerCapabilities,
)
    requires
        m.location == Location::Head,
    ensures
        ({
            let m1 = click_spec(m, t1, true, resizable, state, caps).0;
            let m2 = forget_normal_click(m1);
            click_spec(m2, t2, true, resizable, state, caps).1 == Some(FrameAction::Move)
        }),
{
}

} // verus!
