//! Placement of an overlay surface: anchor edges, keyboard interactivity, exclusive zone and
//! stacking layer.
use vstd::prelude::*;

verus! {

/// An anchor for a layer surface: one edge or one corner.
#[derive(Clone, Copy, Debug, PartialEq, Eq, Hash, Structural)]
pub enum Anchor {
    Top,
    Bottom,
    Left,
    Right,
    TopLeft,
    TopRight,
    BottomLeft,
    BottomRight,
}

/// The set of screen edges a surface is anchored to.
#[derive(Clone, Copy, Debug, PartialEq, Eq, Hash, Structural)]
pub struct Edges {
    pub top: bool,
    pub bottom: bool,
    pub left: bool,
    pub right: bool,
}

/// The edges an anchor names; no anchor names none.
pub open spec fn edges_of(anchor: Option<Anchor>) -> Edges {
    let e = Edges { top: false, bottom: false, left: false, right: false };
    match anchor {
        None => e,
        Some(Anchor::Top) => Edges { top: true, ..e },
        Some(Anchor::Bottom) => Edges { bottom: true, ..e },
        Some(Anchor::Left) => Edges { left: true, ..e },
        Some(Anchor::Right) => Edges { right: true, ..e },
        Some(Anchor::TopLeft) => Edges { top: true, left: true, ..e },
        Some(Anchor::TopRight) => Edges { top: true, right: true, ..e },
        Some(Anchor::BottomLeft) => Edges { bottom: true, left: true, ..e },
        Some(Anchor::BottomRight) => Edges { bottom: true, right: true, ..e },
    }
}

/// The layer-shell protocol's values for the four edges.
pub const ANCHOR_TOP: u32 = 1;

pub const ANCHOR_BOTTOM: u32 = 2;

pub const ANCHOR_LEFT: u32 = 4;

pub const ANCHOR_RIGHT: u32 = 8;

/// The protocol's bit set for a set of edges.
pub open spec fn edge_bits(e: Edges) -> u32 {
    ((if e.top {
        ANCHOR_TOP
    } else {
        0u32
    }) + (if e.bottom {
        ANCHOR_BOTTOM
    } else {
        0u32
    }) + (if e.left {
        ANCHOR_LEFT
    } else {
        0u32
    }) + (if e.right {
        ANCHOR_RIGHT
    } else {
        0u32
    })) as u32
}

impl Edges {
    /// The edges that `anchor` names.
    pub fn from_anchor(anchor: Option<Anchor>) -> (r: Edges)
        ensures
            r == edges_of(anchor),
    {
        let e = Edges { top: false, bottom: false, left: false, right: false };
        match anchor {
            None => e,
            Some(Anchor::Top) => Edges { top: true, ..e },
            Some(Anchor::Bottom) => Edges { bottom: true, ..e },
            Some(Anchor::Left) => Edges { left: true, ..e },
            Some(Anchor::Right) => Edges { right: true, ..e },
            Some(Anchor::TopLeft) => Edges { top: true, left: true, ..e },
            Some(Anchor::TopRight) => Edges { top: true, right: true, ..e },
            Some(Anchor::BottomLeft) => Edges { bottom: true, left: true, ..e },
            Some(Anchor::BottomRight) => Edges { bottom: true, right: true, ..e },
        }
    }

    /// The edges as the protocol's bit set.
    pub fn bits(&self) -> (r: u32)
        ensures
            r == edge_bits(*self),
            r < 16,
    {
        let mut r: u32 = 0;
        if self.top {
            r = r + ANCHOR_TOP;
        }
        if self.bottom {
            r = r + ANCHOR_BOTTOM;
        }
        if self.left {
            r = r + ANCHOR_LEFT;
        }
        if self.right {
            r = r + ANCHOR_RIGHT;
        }
        r
    }
}

/// Layer surface keyboard interactivity.
#[derive(Clone, Copy, Debug, PartialEq, Eq, Hash, Structural)]
pub enum KeyboardInteractivity {
    /// This layer surface cannot get keyboard focus.
    NoFocus,
    /// This layer surface can get keyboard focus through the compositor's implementation.
    OnDemand,
    /// This layer surface takes exclusive keyboard focus.
    Exclusive,
}

/// Layer surface behavior for exclusive zones.
#[derive(Clone, Copy, Debug, PartialEq, Eq, Hash, Structural)]
pub enum ExclusiveZone {
    /// This layer surface requests an exclusive zone of the given size; a size of 0 reserves
    /// nothing and is placed as `Respect` is.
    Exclusive(u32),
    /// The layer surface does not request an exclusive zone but wants to be positioned
    /// respecting any active exclusive zones.
    Respect,
    /// The layer surface does not request an exclusive zone and wants to be positioned
    /// ignoring any active exclusive zones.
    Ignore,
}

/// The protocol's value for an exclusive zone: its size, 0 to respect others, -1 to ignore
/// them. A size beyond the protocol's signed range is held at `i32::MAX`.
pub open spec fn zone_value(z: ExclusiveZone) -> i32 {
    match z {
        ExclusiveZone::Exclusive(size) => if size > i32::MAX as u32 {
            i32::MAX
        } else {
            size as i32
        },
        ExclusiveZone::Respect => 0i32,
        ExclusiveZone::Ignore => -1i32,
    }
}

impl From<ExclusiveZone> for i32 {
    fn from(value: ExclusiveZone) -> (r: i32) {
        match value {
            ExclusiveZone::Exclusive(size) => if size > i32::MAX as u32 {
                i32::MAX
            } else {
                size as i32
            },
            ExclusiveZone::Respect => 0,
            ExclusiveZone::Ignore => -1,
        }
    }
}

impl vstd::std_specs::convert::FromSpecImpl<ExclusiveZone> for i32 {
    open spec fn obeys_from_spec() -> bool {
        true
    }

    open spec fn from_spec(v: ExclusiveZone) -> i32 {
        zone_value(v)
    }
}

/// The layer on which a layer surface is drawn.
#[derive(Clone, Copy, Debug, PartialEq, Eq, Hash, Structural)]
pub enum ZLayer {
    Background,
    Bottom,
    Top,
    Overlay,
}

/// Where and how a new overlay surface is placed.
#[derive(Clone, Copy, Debug, PartialEq, Eq, Structural)]
pub struct Placement {
    pub width: u32,
    pub height: u32,
    pub anchor: Edges,
    pub keyboard_interactivity: KeyboardInteractivity,
    pub exclusive_zone: i32,
    pub layer: ZLayer,
}

} // verus!
