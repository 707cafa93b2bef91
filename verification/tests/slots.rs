use bary::grid::{IVec2, PartCoord};
use bary::inventory::{atomic_transfer, InvSlot, Inventory};
use bary::items::{Item, ItemFilter, MachineStatus, Mass, Volume};

fn pc(x: i32, y: i32) -> PartCoord {
    PartCoord::new(IVec2::new(x, y))
}

fn slot(liters: u64, item: Option<Item>) -> InvSlot {
    let s = InvSlot::new(Volume::liters(liters), ItemFilter::Any, false, (pc(0, 0), pc(1, 1)));
    match item {
        Some(i) => s.with_item(i),
        None => s,
    }
}

#[test]
fn slot_store_and_take() {
    // 950 liters hold 633 loaves of 1.5 liters
    let mut s = slot(950, Some(Item::Bread));
    assert_eq!(s.count(), 0);
    assert!(s.has(Item::Bread));
    assert!(!s.is_empty());
    assert_eq!(s.store(Item::Bread, 600), Ok(()));
    assert_eq!(s.store(Item::Bread, 34), Err(MachineStatus::NoRoom));
    assert_eq!(s.store(Item::Iron, 1), Err(MachineStatus::NoRoom));
    assert_eq!(s.store(Item::Bread, 33), Ok(()));
    assert_eq!(s.count(), 633);
    assert!(s.is_full());
    assert_eq!(s.occupied_volume(), Volume::microliters(949_500_000));
    assert_eq!(s.available_volume(), Volume::microliters(500_000));
    assert_eq!(s.mass(), Mass::grams(633 * 200));

    assert!(!s.take(Item::Bread, 634));
    assert!(!s.take(Item::Iron, 1));
    assert!(s.take(Item::Bread, 600));
    assert_eq!(s.contents(), Some((Item::Bread, 33)));
    assert!(s.take(Item::Bread, 33));
    // taking the last unit empties the slot
    assert_eq!(s.contents(), None);
    assert!(s.is_empty());
    assert!(!s.is_full());
}

#[test]
fn slot_filter_rejects_other_items() {
    let mut s = InvSlot::new(Volume::liters(10), ItemFilter::Only(Item::Ice), true, (pc(0, 0), pc(1, 1)));
    assert!(s.is_fluid());
    assert_eq!(s.can_store(Item::Iron, 1), Err(MachineStatus::BadFilter));
    assert_eq!(s.store(Item::Ice, 5), Ok(()));
    assert_eq!(s.item(), Some(Item::Ice));
    assert_eq!(*s.filter(), ItemFilter::Only(Item::Ice));
}

#[test]
fn slot_fill_and_partial_store() {
    let mut s = slot(100, Some(Item::Rotor));
    assert_eq!(s.fill(), 3);
    assert_eq!(s.count(), 3);
    assert_eq!(s.fill(), 0);

    let mut e = slot(100, None);
    assert_eq!(e.fill(), 0);
    assert_eq!(e.contents(), None);
    e.fill_with(Item::TitaniumLattice);
    assert_eq!(e.contents(), Some((Item::TitaniumLattice, 4)));
    e.empty();
    assert!(e.is_empty());

    let mut p = slot(100, None);
    p.store_partial(Item::Rotor, 10);
    assert_eq!(p.contents(), Some((Item::Rotor, 3)));
    let mut q = slot(100, Some(Item::Rotor));
    q.store_partial(Item::Rotor, 2);
    q.store_partial(Item::Rotor, 2);
    assert_eq!(q.count(), 3);
}

#[test]
fn slot_name_and_location() {
    let mut s = slot(1, None);
    assert_eq!(s.name(), None);
    s.set_name(Some("fuel".to_string()));
    assert_eq!(s.name(), Some(&"fuel".to_string()));
    assert_eq!(s.location(), (pc(0, 0), pc(1, 1)));
    assert_eq!(s.capacity(), Volume::liters(1));
}

#[test]
fn empty_slot_refuses_more_than_fits() {
    // a rotor takes 30 liters, so one liter holds none
    let mut s = slot(1, None);
    assert_eq!(s.store(Item::Rotor, 5), Err(MachineStatus::NoRoom));
    assert_eq!(s.count(), 0);
    let mut s = slot(100, None);
    assert_eq!(s.store(Item::Rotor, 3), Ok(()));
    assert_eq!(s.count(), 3);
}

#[test]
fn inventory_take_fill_clear() {
    let loc = (pc(0, 0), pc(0, 0));
    let mut inv = Inventory::from_slots(vec![
        InvSlot::new(Volume::liters(1), ItemFilter::Any, false, loc).with_item(Item::Iron),
        InvSlot::new(Volume::liters(1), ItemFilter::Any, false, loc).with_item(Item::Iron),
    ]);
    assert_eq!(inv.slot_count(), 2);
    assert!(inv.store(Item::Iron, 10));
    assert!(inv.can_take(Item::Iron, 10));
    assert!(!inv.can_take(Item::Iron, 11));
    assert!(!inv.take(Item::Iron, 11));
    assert!(inv.take(Item::Iron, 4));
    assert_eq!(inv.get_slot(0).unwrap().count(), 6);
    assert!(inv.get_slot(2).is_none());
    inv.fill();
    assert_eq!(inv.get_slot(0).unwrap().count(), 1_000_000 / 127);
    assert_eq!(inv.get_slot(1).unwrap().count(), 1_000_000 / 127);
    assert_eq!(inv.occupied_volume_of(Item::Iron), Volume::microliters(2 * (1_000_000 / 127) * 127));
    inv.clear();
    assert!(inv.iter().iter().all(|s| s.is_empty()));
    assert_eq!(inv.slots().len(), 2);
    if let Some(s) = inv.get_slot_mut(1) {
        s.fill_with(Item::Copper);
    }
    assert_eq!(inv.slots_mut()[1].item(), Some(Item::Copper));
    assert_eq!(Inventory::zero_slots().slot_count(), 0);
}

#[test]
fn inventory_slot_at_cell() {
    let mut a = InvSlot::new(Volume::liters(1), ItemFilter::Any, false, (pc(0, 0), pc(2, 2)));
    a.set_name(None);
    let b = InvSlot::new(Volume::liters(1), ItemFilter::Any, false, (pc(2, 0), pc(4, 1)));
    let inv = Inventory::from_slots(vec![a, b]);
    assert_eq!(inv.get_slot_at(pc(0, 0)), Some(0));
    assert_eq!(inv.get_slot_at(pc(1, 1)), Some(0));
    assert_eq!(inv.get_slot_at(pc(2, 0)), Some(1));
    assert_eq!(inv.get_slot_at(pc(3, 0)), Some(1));
    assert_eq!(inv.get_slot_at(pc(3, 1)), None);
    assert_eq!(inv.get_slot_at(pc(-1, 0)), None);
}

#[test]
fn transfer_moves_rounded_units() {
    let mut src = slot(100, Some(Item::Bread));
    assert_eq!(src.store(Item::Bread, 10), Ok(()));
    let mut dst = slot(100, None);
    // 500 grams of bread is 2.5 loaves, rounded to 3
    assert_eq!(atomic_transfer(&mut src, &mut dst, Mass::grams(500)), MachineStatus::Running);
    assert_eq!(src.count(), 7);
    assert_eq!(dst.contents(), Some((Item::Bread, 3)));
    // less than half a loaf still moves one
    assert_eq!(atomic_transfer(&mut src, &mut dst, Mass::grams(1)), MachineStatus::Running);
    assert_eq!(src.count() + dst.count(), 10);
    assert_eq!(dst.count(), 4);
    // zero mass does nothing
    assert_eq!(atomic_transfer(&mut src, &mut dst, Mass::zero()), MachineStatus::Running);
    assert_eq!(dst.count(), 4);
}

#[test]
fn transfer_refusals() {
    let mut empty = slot(100, None);
    let mut dst = slot(100, None);
    assert_eq!(atomic_transfer(&mut empty, &mut dst, Mass::grams(5)), MachineStatus::Starved);

    let mut src = slot(100, Some(Item::Iron));
    assert_eq!(src.store(Item::Iron, 5), Ok(()));
    let mut other = slot(100, Some(Item::Copper));
    assert_eq!(atomic_transfer(&mut src, &mut other, Mass::grams(5)), MachineStatus::NoRoom);
    assert_eq!(src.count(), 5);

    let mut picky = InvSlot::new(Volume::liters(1), ItemFilter::Only(Item::Ice), false, (pc(0, 0), pc(1, 1)));
    assert_eq!(atomic_transfer(&mut src, &mut picky, Mass::grams(5)), MachineStatus::BadFilter);
    assert_eq!(src.count(), 5);
    assert!(picky.is_empty());

    // the destination takes no more than fits
    let mut small = InvSlot::new(Volume::liters(100), ItemFilter::Any, false, (pc(0, 0), pc(1, 1)));
    let mut rotors = slot(1000, Some(Item::Rotor));
    assert_eq!(rotors.store(Item::Rotor, 10), Ok(()));
    assert_eq!(atomic_transfer(&mut rotors, &mut small, Mass::grams(83_000)), MachineStatus::Running);
    assert_eq!(small.count(), 3);
    assert_eq!(rotors.count(), 7);
}

#[test]
fn empty_slot_respects_capacity() {
    let loc = (PartCoord::zero(), PartCoord::zero());
    let mut s = InvSlot::new(Volume::microliters(127), ItemFilter::Any, false, loc);
    assert_eq!(s.can_store(Item::Iron, 2), Err(MachineStatus::NoRoom));
    assert_eq!(s.store(Item::Iron, 2), Err(MachineStatus::NoRoom));
    assert_eq!(s.count(), 0);
    assert_eq!(s.store(Item::Iron, 1), Ok(()));
    assert_eq!(s.count(), 1);
}

#[test]
fn over_capacity_slot_is_full() {
    // A partial store counts units against the stored item's own volume, so
    // a slot of rotors topped up by iron's measure holds more than fits.
    let mut s = slot(100, Some(Item::Rotor));
    s.store_partial(Item::Iron, 10);
    assert_eq!(s.contents(), Some((Item::Rotor, 10)));
    assert!(s.is_full());
}
