//! Screen orientations: the value each one writes to the memory access
//! control register, and whether it lays the panel on its side.

use vstd::prelude::*;

verus! {

/// Row address order: flips the panel top to bottom.
pub const MADCTL_MY: u8 = 0x80;

/// Column address order: flips the panel left to right.
pub const MADCTL_MX: u8 = 0x40;

/// Row/column exchange: turns the panel on its side.
pub const MADCTL_MV: u8 = 0x20;

/// Colour order of the panel: blue, green, red.
pub const MADCTL_BGR: u8 = 0x08;

/// What the driver needs to know of an orientation.
///
/// Boards differ in how the panel is mounted, so the register values that
/// give an upright picture differ too. [`Orientation`] fits most boards; a
/// board that needs other values implements this trait for a type of its
/// own.
pub trait Mode {
    /// The value written to the memory access control register.
    spec fn register(&self) -> u8;

    /// Whether the long side of the panel is horizontal.
    spec fn landscape(&self) -> bool;

    /// The value written to the memory access control register.
    fn mode(&self) -> (r: u8)
        ensures
            r == self.register(),
    ;

    /// Whether the long side of the panel is horizontal.
    fn is_landscape(&self) -> (r: bool)
        ensures
            r == self.landscape(),
    ;
}

/// The four orientations of the panel as it is mounted on most boards.
#[derive(Clone, Copy, Debug, PartialEq, Eq, Structural)]
pub enum Orientation {
    Portrait,
    PortraitFlipped,
    Landscape,
    LandscapeFlipped,
}

impl Mode for Orientation {
    open spec fn register(&self) -> u8 {
        match self {
            Orientation::Portrait => 0x48,
            Orientation::Landscape => 0x28,
            Orientation::PortraitFlipped => 0x88,
            Orientation::LandscapeFlipped => 0xe8,
        }
    }

    open spec fn landscape(&self) -> bool {
        match self {
            Orientation::Landscape | Orientation::LandscapeFlipped => true,
            Orientation::Portrait | Orientation::PortraitFlipped => false,
        }
    }

    fn mode(&self) -> (r: u8) {
        assert(MADCTL_MX | MADCTL_BGR == 0x48) by (bit_vector);
        assert(MADCTL_MV | MADCTL_BGR == 0x28) by (bit_vector);
        assert(MADCTL_MY | MADCTL_BGR == 0x88) by (bit_vector);
        assert(MADCTL_MX | MADCTL_MY | MADCTL_MV | MADCTL_BGR == 0xe8) by (bit_vector);
        match self {
            Orientation::Portrait => MADCTL_MX | MADCTL_BGR,
            Orientation::Landscape => MADCTL_MV | MADCTL_BGR,
            Orientation::PortraitFlipped => MADCTL_MY | MADCTL_BGR,
            Orientation::LandscapeFlipped => MADCTL_MX | MADCTL_MY | MADCTL_MV | MADCTL_BGR,
        }
    }

    fn is_landscape(&self) -> (r: bool) {
        match self {
            Orientation::Landscape | Orientation::LandscapeFlipped => true,
            Orientation::Portrait | Orientation::PortraitFlipped => false,
        }
    }
}

/// Every orientation keeps the panel's colour order, and the landscape
/// orientations are those that exchange rows and columns.
pub proof fn lemma_orientation_bits(o: Orientation)
    ensures
        o.register() & MADCTL_BGR == MADCTL_BGR,
        o.landscape() <==> o.register() & MADCTL_MV == MADCTL_MV,
{
    assert(0x48u8 & 0x08 == 0x08 && 0x48u8 & 0x20 == 0) by (bit_vector);
    assert(0x28u8 & 0x08 == 0x08 && 0x28u8 & 0x20 == 0x20) by (bit_vector);
    assert(0x88u8 & 0x08 == 0x08 && 0x88u8 & 0x20 == 0) by (bit_vector);
    assert(0xe8u8 & 0x08 == 0x08 && 0xe8u8 & 0x20 == 0x20) by (bit_vector);
}

} // verus!
