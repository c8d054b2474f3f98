//! Window-state and window-manager-capability flag sets.
//!
//! The bit values are those of the compositor protocol layer, so a set read
//! from there converts by its raw bits.
use vstd::prelude::*;

verus! {

/// Flag set describing the current state of a toplevel window.
#[derive(Clone, Copy, Debug, PartialEq, Eq, Structural)]
pub struct WindowState {
    pub bits: u16,
}

impl WindowState {
    pub const MAXIMIZED: u16 = 0x0001;
    pub const FULLSCREEN: u16 = 0x0002;
    pub const RESIZING: u16 = 0x0004;
    pub const ACTIVATED: u16 = 0x0008;
    pub const TILED_LEFT: u16 = 0x0010;
    pub const TILED_RIGHT: u16 = 0x0020;
    pub const TILED_TOP: u16 = 0x0040;
    pub const TILED_BOTTOM: u16 = 0x0080;
    /// Tiled on any side.
    pub const TILED: u16 = 0x00f0;
    pub const SUSPENDED: u16 = 0x0100;

    /// Every flag of `flags` is set.
    pub open spec fn has_all(self, flags: u16) -> bool {
        self.bits & flags == flags
    }

    /// At least one flag of `flags` is set.
    pub open spec fn has_any(self, flags: u16) -> bool {
        self.bits & flags != 0
    }

    pub open spec fn is_maximized(self) -> bool {
        self.has_all(Self::MAXIMIZED)
    }

    pub open spec fn is_fullscreen(self) -> bool {
        self.has_all(Self::FULLSCREEN)
    }

    pub open spec fn is_tiled(self) -> bool {
        self.has_any(Self::TILED)
    }

    pub fn empty() -> (r: WindowState)
        ensures
            r.bits == 0,
    {
        WindowState { bits: 0 }
    }

    pub fn from_bits(bits: u16) -> (r: WindowState)
        ensures
            r.bits == bits,
    {
        WindowState { bits }
    }

    pub fn contains(&self, flags: u16) -> (r: bool)
        ensures
            r == self.has_all(flags),
    {
        self.bits & flags == flags
    }

    pub fn intersects(&self, flags: u16) -> (r: bool)
        ensures
            r == self.has_any(flags),
    {
        self.bits & flags != 0
    }

    /// The flags set in exactly one of the two sets.
    pub fn symmetric_difference(&self, other: WindowState) -> (r: WindowState)
        ensures
            r.bits == self.bits ^ other.bits,
    {
        WindowState { bits: self.bits ^ other.bits }
    }
}

/// Flag set of the actions that the window manager supports.
#[derive(Clone, Copy, Debug, PartialEq, Eq, Structural)]
pub struct WindowManagerCapabilities {
    pub bits: u16,
}

impl WindowManagerCapabilities {
    pub const WINDOW_MENU: u16 = 0x0001;
    pub const MAXIMIZE: u16 = 0x0002;
    pub const FULLSCREEN: u16 = 0x0004;
    pub const MINIMIZE: u16 = 0x0008;
    /// Every capability above.
    pub const ALL: u16 = 0x000f;

    pub open spec fn has_all(self, flags: u16) -> bool {
        self.bits & flags == flags
    }

    pub open spec fn can_maximize(self) -> bool {
        self.has_all(Self::MAXIMIZE)
    }

    pub open spec fn can_show_menu(self) -> bool {
        self.has_all(Self::WINDOW_MENU)
    }

    pub fn all() -> (r: WindowManagerCapabilities)
        ensures
            r.bits == Self::ALL,
    {
        WindowManagerCapabilities { bits: Self::ALL }
    }

    pub fn from_bits(bits: u16) -> (r: WindowManagerCapabilities)
        ensures
            r.bits == bits,
    {
        WindowManagerCapabilities { bits }
    }

    pub fn contains(&self, flags: u16) -> (r: bool)
        ensures
            r == self.has_all(flags),
    {
        self.bits & flags == flags
    }
}

} // verus!
