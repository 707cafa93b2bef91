//! Items, item filters, machine status codes and the integer quantities
//! (volume in microliters, mass in grams) in which storage is measured.

use vstd::prelude::*;

verus! {

/// An amount of space, counted in microliters.
#[derive(Debug, Clone, Copy, PartialEq, Eq, Structural, Hash, Default)]
pub struct Volume(pub u64);

impl Volume {
    /// A volume of `l` liters.
    pub fn liters(l: u64) -> (v: Volume)
        requires
            l * 1_000_000 <= u64::MAX,
        ensures
            v.0 == l * 1_000_000,
    {
        Volume(l * 1_000_000)
    }

    /// A volume of `ul` microliters.
    pub fn microliters(ul: u64) -> (v: Volume)
        ensures
            v.0 == ul,
    {
        Volume(ul)
    }

    /// The empty volume.
    pub fn zero() -> (v: Volume)
        ensures
            v.0 == 0,
    {
        Volume(0)
    }
}

/// An amount of mass, counted in grams.
#[derive(Debug, Clone, Copy, PartialEq, Eq, Structural, Hash, Default)]
pub struct Mass(pub u64);

impl Mass {
    /// A mass of `g` grams.
    pub fn grams(g: u64) -> (m: Mass)
        ensures
            m.0 == g,
    {
        Mass(g)
    }

    /// No mass at all.
    pub fn zero() -> (m: Mass)
        ensures
            m.0 == 0,
    {
        Mass(0)
    }

    /// Returns true if this is no mass at all.
    pub fn is_zero(&self) -> (b: bool)
        ensures
            b == (self.0 == 0),
    {
        self.0 == 0
    }
}

/// A kind of thing that can be stored in an inventory slot.
#[derive(Debug, Clone, Copy, PartialEq, Eq, Structural, Hash)]
pub enum Item {
    Iron,
    Copper,
    Magnesium,
    Ice,
    H2,
    Bread,
    Rotor,
    TitaniumLattice,
}

/// The space one unit of an item takes up, in microliters.
pub open spec fn item_volume(item: Item) -> nat {
    match item {
        Item::Iron => 127,
        Item::Copper => 112,
        Item::Magnesium => 575,
        Item::Ice => 1_091,
        Item::H2 => 13_890,
        Item::Bread => 1_500_000,
        Item::Rotor => 30_000_000,
        Item::TitaniumLattice => 25_000_000,
    }
}

/// The mass of one unit of an item, in grams.
pub open spec fn item_mass(item: Item) -> nat {
    match item {
        Item::Iron => 1,
        Item::Copper => 1,
        Item::Magnesium => 1,
        Item::Ice => 1,
        Item::H2 => 1,
        Item::Bread => 200,
        Item::Rotor => 8_300,
        Item::TitaniumLattice => 13_300,
    }
}

impl Item {
    /// The space one unit of this item takes up.
    pub fn volume_per_unit(&self) -> (v: Volume)
        ensures
            v.0 == item_volume(*self),
            v.0 > 0,
    {
        match self {
            Item::Iron => Volume(127),
            Item::Copper => Volume(112),
            Item::Magnesium => Volume(575),
            Item::Ice => Volume(1_091),
            Item::H2 => Volume(13_890),
            Item::Bread => Volume(1_500_000),
            Item::Rotor => Volume(30_000_000),
            Item::TitaniumLattice => Volume(25_000_000),
        }
    }

    /// The mass of one unit of this item.
    pub fn mass_per_unit(&self) -> (m: Mass)
        ensures
            m.0 == item_mass(*self),
            m.0 > 0,
    {
        match self {
            Item::Iron => Mass(1),
            Item::Copper => Mass(1),
            Item::Magnesium => Mass(1),
            Item::Ice => Mass(1),
            Item::H2 => Mass(1),
            Item::Bread => Mass(200),
            Item::Rotor => Mass(8_300),
            Item::TitaniumLattice => Mass(13_300),
        }
    }
}

/// Which items a slot accepts.
#[derive(Debug, Clone, Copy, PartialEq, Eq, Structural, Hash)]
pub enum ItemFilter {
    /// Any item is accepted.
    Any,
    /// Only the given item is accepted.
    Only(Item),
}

/// Whether `filter` lets `item` through.
pub open spec fn filter_passes(filter: ItemFilter, item: Item) -> bool {
    match filter {
        ItemFilter::Any => true,
        ItemFilter::Only(i) => i == item,
    }
}

impl ItemFilter {
    /// Returns true if this filter accepts the given item.
    pub fn passes(&self, item: Item) -> (b: bool)
        ensures
            b == filter_passes(*self, item),
    {
        match self {
            ItemFilter::Any => true,
            ItemFilter::Only(i) => *i == item,
        }
    }
}

/// The state of a machine, or the reason why a transfer of items failed.
#[derive(Debug, Clone, Copy, PartialEq, Eq, Structural, Hash)]
pub enum MachineStatus {
    Running,
    Starved,
    NoRoom,
    BadFilter,
}

} // verus!
