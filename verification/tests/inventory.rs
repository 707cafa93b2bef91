use bary::grid::PartCoord;
use bary::inventory::{atomic_transfer, InvSlot, Inventory};
use bary::items::{Item, ItemFilter, MachineStatus, Mass, Volume};

#[test]
fn store_single() {
    let mut inv = Inventory::single(Item::Iron, Volume::liters(4000));

    assert!(inv.can_store(Item::Iron, 4000));
    assert!(inv.can_store(Item::Iron, 400));
    assert!(inv.can_store(Item::Iron, 2300));
    assert!(inv.can_store(Item::Iron, 0));

    assert!(!inv.can_store(Item::Iron, 5000000000000));
    assert!(!inv.can_store(Item::Copper, 0));
    assert!(!inv.can_store(Item::Magnesium, 5000000000000));

    assert!(inv.store(Item::Iron, 1000));
    assert!(inv.store(Item::Iron, 500));

    assert!(inv.can_store(Item::Iron, 10000));
    assert!(!inv.can_store(Item::Iron, 400000000000));

    assert_eq!(inv.mass(), Mass::grams(1500));
    assert_eq!(inv.occupied_volume(), Volume::microliters(190500));

    println!("{:?}", inv);
}

#[test]
fn multiple_slots() {
    let loc = (PartCoord::zero(), PartCoord::zero());

    let mut inv = Inventory::from_slots(vec![
        InvSlot::new(Volume::liters(1000), ItemFilter::Any, false, loc).with_item(Item::Bread),
        InvSlot::new(Volume::liters(2000), ItemFilter::Any, false, loc).with_item(Item::Magnesium),
        InvSlot::new(Volume::liters(1500), ItemFilter::Any, false, loc).with_item(Item::Magnesium),
        InvSlot::new(Volume::liters(300), ItemFilter::Any, false, loc).with_item(Item::Ice),
    ]);

    assert_eq!(inv.capacity(), Volume::liters(4800));
    assert_eq!(inv.occupied_volume(), Volume::zero());
    assert_eq!(inv.available_volume(), Volume::liters(4800));

    assert_eq!(inv.available_volume_of(Item::Bread), Volume::liters(1000));
    assert_eq!(inv.available_volume_of(Item::Magnesium), Volume::liters(3500));
    assert_eq!(inv.available_volume_of(Item::Ice), Volume::liters(300));

    assert_eq!(inv.mass(), Mass::zero());
    assert_eq!(inv.mass_of(Item::Bread), Mass::zero());
    assert_eq!(inv.mass_of(Item::Magnesium), Mass::zero());
    assert_eq!(inv.mass_of(Item::Ice), Mass::zero());

    assert!(inv.store(Item::Bread, 100));
    assert!(inv.store(Item::Magnesium, 1500));

    assert_eq!(inv.capacity(), Volume::liters(4800));
    assert_eq!(inv.occupied_volume(), Volume::microliters(150862500));
    assert_eq!(inv.available_volume(), Volume::microliters(4649137500));

    assert_eq!(inv.mass(), Mass::grams(21500));
    assert_eq!(inv.mass_of(Item::Bread), Mass::grams(20000));
    assert_eq!(inv.mass_of(Item::Magnesium), Mass::grams(1500));
    assert_eq!(inv.mass_of(Item::Ice), Mass::zero());

    println!("{:?}", inv);
}

#[test]
fn big_items() {
    let loc = (PartCoord::zero(), PartCoord::zero());

    let mut inv = Inventory::from_slots(vec![
        InvSlot::new(Volume::liters(100), ItemFilter::Any, false, loc).with_item(Item::Rotor),
        InvSlot::new(Volume::liters(100), ItemFilter::Any, false, loc)
            .with_item(Item::TitaniumLattice),
        InvSlot::new(Volume::liters(100), ItemFilter::Any, false, loc).with_item(Item::H2),
    ]);

    while inv.store(Item::Rotor, 1) {}
    while inv.store(Item::TitaniumLattice, 1) {}
    while inv.store(Item::H2, 1) {}

    assert_eq!(inv.mass_of(Item::Rotor), Mass::grams(24900));
    assert_eq!(inv.mass_of(Item::TitaniumLattice), Mass::grams(53200));
    assert_eq!(inv.mass_of(Item::H2), Mass::grams(7199));

    println!("{:?}", inv);
}
