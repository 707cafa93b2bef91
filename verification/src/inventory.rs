//! Inventory slots and inventories: storing, taking and moving items while
//! keeping counts, volumes and masses exact.

use vstd::prelude::*;
use crate::grid::{IVec2, PartCoord};
use crate::items::{
    filter_passes, item_mass, item_volume, Item, ItemFilter, MachineStatus, Mass, Volume,
};

verus! {

/// What a slot holds, as seen by contracts.
pub struct SlotModel {
    pub capacity: Volume,
    pub filter: ItemFilter,
    pub contents: Option<(Item, u64)>,
    pub is_fluid: bool,
    pub location: (PartCoord, PartCoord),
}

/// How many whole units of `item` fit in `capacity`.
pub open spec fn units_capacity(capacity: Volume, item: Item) -> nat {
    (capacity.0 as nat) / item_volume(item)
}

/// The number of units stored in a slot; 0 if it is empty.
pub open spec fn slot_count(s: SlotModel) -> nat {
    match s.contents {
        Some((_, c)) => c as nat,
        None => 0,
    }
}

/// Whether the slot is assigned `item` (possibly with a count of 0).
pub open spec fn slot_has(s: SlotModel, item: Item) -> bool {
    match s.contents {
        Some((i, _)) => i == item,
        None => false,
    }
}

/// The number of units of `item` held by the slot.
pub open spec fn slot_units_of(s: SlotModel, item: Item) -> nat {
    if slot_has(s, item) {
        slot_count(s)
    } else {
        0
    }
}

/// Whether the slot holds at least `count` units of `item`.
pub open spec fn slot_can_take(s: SlotModel, item: Item, count: u64) -> bool {
    match s.contents {
        Some((i, c)) => i == item && c >= count,
        None => false,
    }
}

/// The slot after `count` units of `item` were taken from it; the slot
/// becomes empty when its count reaches 0.
pub open spec fn slot_after_take(s: SlotModel, count: u64) -> SlotModel {
    match s.contents {
        Some((i, c)) => if c - count == 0 {
            SlotModel { contents: None, ..s }
        } else {
            SlotModel { contents: Some((i, (c - count) as u64)), ..s }
        },
        None => s,
    }
}

/// Whether `count` units of `item` can be stored in the slot, and if not, why.
pub open spec fn slot_can_store(s: SlotModel, item: Item, count: u64) -> Result<(), MachineStatus> {
    if !filter_passes(s.filter, item) {
        Err(MachineStatus::BadFilter)
    } else {
        match s.contents {
            Some((i, c)) => if i == item && c + count <= units_capacity(s.capacity, item) {
                Ok(())
            } else {
                Err(MachineStatus::NoRoom)
            },
            None => if count <= units_capacity(s.capacity, item) {
                Ok(())
            } else {
                Err(MachineStatus::NoRoom)
            },
        }
    }
}

/// The slot after `count` units of `item` were stored in it.
pub open spec fn slot_after_store(s: SlotModel, item: Item, count: u64) -> SlotModel {
    match s.contents {
        Some((i, c)) => SlotModel { contents: Some((i, (c + count) as u64)), ..s },
        None => SlotModel { contents: Some((item, count)), ..s },
    }
}

/// The volume taken up by the units stored in a slot.
pub open spec fn slot_occupied(s: SlotModel) -> nat {
    match s.contents {
        Some((i, c)) => (c as nat) * item_volume(i),
        None => 0,
    }
}

/// The mass of the units stored in a slot.
pub open spec fn slot_mass(s: SlotModel) -> nat {
    match s.contents {
        Some((i, c)) => item_mass(i) * (c as nat),
        None => 0,
    }
}

/// The free volume of a slot; negative if it holds more than its capacity.
pub open spec fn slot_available(s: SlotModel) -> int {
    s.capacity.0 - slot_occupied(s)
}

/// The slot holds no more than its capacity allows.
pub open spec fn slot_within_capacity(s: SlotModel) -> bool {
    slot_occupied(s) <= s.capacity.0
}

/// A single inventory slot. Can store 0 or more of a single [Item].
/// Has a capacity expressed as a [Volume] which bounds the number
/// of items it can store: a slot of 950 liters can store up to 9 of an
/// item that requires 100 liters of storage per unit.
///
/// Slots can be filtered with an [ItemFilter] to express what items
/// they are capable of storing. Slots also have a location, an
/// axis-aligned box of [PartCoord]s within their part.
#[derive(Debug, Clone)]
pub struct InvSlot {
    name: Option<String>,
    capacity: Volume,
    filter: ItemFilter,
    contents: Option<(Item, u64)>,
    is_fluid: bool,
    location_min: PartCoord,
    location_max: PartCoord,
}

impl View for InvSlot {
    type V = SlotModel;

    closed spec fn view(&self) -> SlotModel {
        SlotModel {
            capacity: self.capacity,
            filter: self.filter,
            contents: self.contents,
            is_fluid: self.is_fluid,
            location: (self.location_min, self.location_max),
        }
    }
}

impl InvSlot {
    /// The name of this slot, if any, as a sequence of characters.
    pub closed spec fn spec_name(&self) -> Option<Seq<char>> {
        match self.name {
            Some(n) => Some(n@),
            None => None,
        }
    }

    /// Constructs a new, empty, unnamed slot with the given capacity,
    /// filter settings, and location within its parent part.
    pub fn new(
        capacity: Volume,
        filter: ItemFilter,
        is_fluid: bool,
        location: (PartCoord, PartCoord),
    ) -> (s: Self)
        ensures
            s@ == (SlotModel { capacity, filter, contents: None, is_fluid, location }),
            s.spec_name() is None,
    {
        InvSlot {
            name: None,
            capacity,
            filter,
            contents: None,
            is_fluid,
            location_min: location.0,
            location_max: location.1,
        }
    }

    /// The location of this slot within its parent part.
    pub fn location(&self) -> (l: (PartCoord, PartCoord))
        ensures
            l == self@.location,
    {
        (self.location_min, self.location_max)
    }

    /// Sets the name of this slot, if any.
    pub fn set_name(&mut self, name: Option<String>)
        ensures
            final(self)@ == old(self)@,
            final(self).spec_name() == match name {
                Some(n) => Some(n@),
                None => None::<Seq<char>>,
            },
    {
        self.name = name;
    }

    /// Gets the name of this slot, if any.
    pub fn name(&self) -> (n: Option<&String>)
        ensures
            match n {
                Some(s) => self.spec_name() == Some(s@),
                None => self.spec_name() is None,
            },
    {
        match &self.name {
            Some(s) => Some(s),
            None => None,
        }
    }

    /// Assigns a zero-quantity item to this slot; used for chain
    /// initializing a new slot.
    pub fn with_item(self, item: Item) -> (s: Self)
        ensures
            s@ == (SlotModel { contents: Some((item, 0u64)), ..self@ }),
            s.spec_name() == self.spec_name(),
    {
        let mut s = self;
        s.contents = Some((item, 0));
        s
    }

    /// Gets the capacity of this slot.
    pub fn capacity(&self) -> (c: Volume)
        ensures
            c == self@.capacity,
    {
        self.capacity
    }

    /// Gets the quantity of item stored in this slot; 0 if the slot is empty.
    pub fn count(&self) -> (c: u64)
        ensures
            c == slot_count(self@),
    {
        match self.contents {
            Some((_, c)) => c,
            None => 0,
        }
    }

    /// Gets the filter of this slot.
    pub fn filter(&self) -> (f: &ItemFilter)
        ensures
            *f == self@.filter,
    {
        &self.filter
    }

    /// Gets the contents of this slot, if any.
    pub fn contents(&self) -> (c: Option<(Item, u64)>)
        ensures
            c == self@.contents,
    {
        self.contents
    }

    /// Checks if this slot contains any of the given item, including 0 of it.
    pub fn has(&self, item: Item) -> (b: bool)
        ensures
            b == slot_has(self@, item),
    {
        match self.contents {
            Some((i, _)) => i == item,
            None => false,
        }
    }

    /// Empties this slot so that it contains nothing.
    pub fn empty(&mut self)
        ensures
            final(self)@ == (SlotModel { contents: None, ..old(self)@ }),
            final(self).spec_name() == old(self).spec_name(),
    {
        self.contents = None;
    }

    /// Returns true if this slot contains no items.
    pub fn is_empty(&self) -> (b: bool)
        ensures
            b == self@.contents is None,
    {
        self.contents.is_none()
    }

    /// Fills this slot with the slot's set item, up to its capacity.
    /// Returns the amount that was added.
    pub fn fill(&mut self) -> (added: u64)
        requires
            match old(self)@.contents {
                Some((i, c)) => c <= units_capacity(old(self)@.capacity, i),
                None => true,
            },
        ensures
            final(self).spec_name() == old(self).spec_name(),
            match old(self)@.contents {
                Some((i, c)) => {
                    &&& final(self)@ == (SlotModel {
                        contents: Some((i, units_capacity(old(self)@.capacity, i) as u64)),
                        ..old(self)@
                    })
                    &&& added == units_capacity(old(self)@.capacity, i) - c
                },
                None => final(self)@ == old(self)@ && added == 0,
            },
    {
        match self.contents {
            Some((item, count)) => {
                let units = self.capacity.0 / item.volume_per_unit().0;
                let added = units - count;
                self.contents = Some((item, units));
                added
            },
            None => 0,
        }
    }

    /// Fills this slot to its capacity with the given item.
    pub fn fill_with(&mut self, item: Item)
        ensures
            final(self).spec_name() == old(self).spec_name(),
            final(self)@ == (SlotModel {
                contents: Some((item, units_capacity(old(self)@.capacity, item) as u64)),
                ..old(self)@
            }),
    {
        let units = self.capacity.0 / item.volume_per_unit().0;
        self.contents = Some((item, units));
    }

    /// Returns true if the slot contains at least `count` of `item`.
    pub fn can_take(&self, item: Item, count: u64) -> (b: bool)
        ensures
            b == slot_can_take(self@, item, count),
    {
        match self.contents {
            Some((i, c)) => i == item && c >= count,
            None => false,
        }
    }

    /// Takes the given quantity of item from this slot, if possible.
    /// Returns true if successful; the slot is emptied when its count
    /// reaches 0. On failure, this slot is not modified.
    pub fn take(&mut self, item: Item, count: u64) -> (ok: bool)
        ensures
            final(self).spec_name() == old(self).spec_name(),
            ok == slot_can_take(old(self)@, item, count),
            ok ==> final(self)@ == slot_after_take(old(self)@, count),
            !ok ==> *final(self) == *old(self),
    {
        if !self.can_take(item, count) {
            return false;
        }
        match self.contents {
            Some((i, c)) => {
                let left = c - count;
                if left == 0 {
                    self.contents = None;
                } else {
                    self.contents = Some((i, left));
                }
            },
            None => {},
        }
        true
    }

    /// Returns [Ok] if the given quantity of item can be stored in this slot:
    /// its filter accepts the item, the slot is empty or holds the same item,
    /// and its count plus `count` is within the capacity.
    /// Otherwise says why the item cannot be stored.
    pub fn can_store(&self, item: Item, count: u64) -> (r: Result<(), MachineStatus>)
        ensures
            r == slot_can_store(self@, item, count),
    {
        if !self.filter.passes(item) {
            return Err(MachineStatus::BadFilter);
        }
        let units: u64 = self.capacity.0 / item.volume_per_unit().0;
        match self.contents {
            Some((i, c)) => {
                let ok = i == item && c <= units && count <= units - c;
                if ok {
                    Ok(())
                } else {
                    Err(MachineStatus::NoRoom)
                }
            },
            None => {
                if count <= units {
                    Ok(())
                } else {
                    Err(MachineStatus::NoRoom)
                }
            },
        }
    }

    /// Stores the given quantity of item, if possible. On failure, returns
    /// the reason why the item couldn't be stored and leaves the slot as it
    /// was. The count must fit the capacity, whether or not the slot is
    /// empty.
    pub fn store(&mut self, item: Item, count: u64) -> (r: Result<(), MachineStatus>)
        ensures
            final(self).spec_name() == old(self).spec_name(),
            r == slot_can_store(old(self)@, item, count),
            r is Ok ==> final(self)@ == slot_after_store(old(self)@, item, count),
            r is Err ==> *final(self) == *old(self),
    {
        let r = self.can_store(item, count);
        if r.is_err() {
            return r;
        }
        match self.contents {
            Some((i, c)) => {
                self.contents = Some((i, c + count));
            },
            None => {
                self.contents = Some((item, count));
            },
        }
        Ok(())
    }

    /// Stores as much of the quantity of item as possible, up to and
    /// including filling this slot to its capacity. A slot holding another
    /// item keeps that item and takes the new count.
    pub fn store_partial(&mut self, item: Item, count: u64)
        ensures
            final(self).spec_name() == old(self).spec_name(),
            final(self)@ == (SlotModel {
                contents: Some(match old(self)@.contents {
                    Some((i, c)) => (i, if c + count <= units_capacity(old(self)@.capacity, item) {
                        (c + count) as u64
                    } else {
                        units_capacity(old(self)@.capacity, item) as u64
                    }),
                    None => (item, if count <= units_capacity(old(self)@.capacity, item) {
                        count
                    } else {
                        units_capacity(old(self)@.capacity, item) as u64
                    }),
                }),
                ..old(self)@
            }),
    {
        let units: u64 = self.capacity.0 / item.volume_per_unit().0;
        match self.contents {
            Some((i, c)) => {
                let n = if c <= units && count <= units - c {
                    c + count
                } else {
                    units
                };
                self.contents = Some((i, n));
            },
            None => {
                let n = if count <= units {
                    count
                } else {
                    units
                };
                self.contents = Some((item, n));
            },
        }
    }

    /// Gets the volume of the items stored by this slot.
    pub fn occupied_volume(&self) -> (v: Volume)
        requires
            slot_occupied(self@) <= u64::MAX,
        ensures
            v.0 == slot_occupied(self@),
    {
        match self.contents {
            Some((item, count)) => Volume(count * item.volume_per_unit().0),
            None => Volume(0),
        }
    }

    /// Gets the total volume available for storage.
    pub fn available_volume(&self) -> (v: Volume)
        requires
            slot_within_capacity(self@),
        ensures
            v.0 == slot_available(self@),
    {
        let occ = self.occupied_volume();
        Volume(self.capacity.0 - occ.0)
    }

    /// Returns true if this slot is full: it holds an item and has not
    /// enough remaining space for one more unit of it (a slot holding more
    /// than its capacity is full). An empty slot is never full.
    pub fn is_full(&self) -> (b: bool)
        ensures
            b == match self@.contents {
                Some((i, _)) => item_volume(i) > slot_available(self@),
                None => false,
            },
    {
        match self.contents {
            Some((item, c)) => {
                let vol = item.volume_per_unit().0;
                assert((c as u128) * (vol as u128) <= u64::MAX as u128 * u64::MAX as u128) by (nonlinear_arith)
                    requires
                        c <= u64::MAX,
                        vol <= u64::MAX,
                ;
                let occ: u128 = (c as u128) * (vol as u128);
                let cap: u128 = self.capacity.0 as u128;
                if occ > cap {
                    true
                } else {
                    vol as u128 > cap - occ
                }
            },
            None => false,
        }
    }

    /// Gets the item stored by this slot, if any.
    pub fn item(&self) -> (i: Option<Item>)
        ensures
            i == match self@.contents {
                Some((it, _)) => Some(it),
                None => None::<Item>,
            },
    {
        match self.contents {
            Some((i, _)) => Some(i),
            None => None,
        }
    }

    /// Gets the mass of the items stored by this slot: the unit mass of the
    /// item times the quantity stored.
    pub fn mass(&self) -> (m: Mass)
        requires
            slot_mass(self@) <= u64::MAX,
        ensures
            m.0 == slot_mass(self@),
    {
        match self.contents {
            Some((item, count)) => Mass(item.mass_per_unit().0 * count),
            None => Mass(0),
        }
    }

    /// Returns true if this slot stores fluids.
    pub fn is_fluid(&self) -> (b: bool)
        ensures
            b == self@.is_fluid,
    {
        self.is_fluid
    }
}


/// Taking back what was just stored leaves every item's count in the slot
/// as it was.
pub proof fn lemma_take_undoes_store(s: SlotModel, item: Item, count: u64, it: Item)
    requires
        slot_can_store(s, item, count) is Ok,
    ensures
        slot_can_take(slot_after_store(s, item, count), item, count),
        slot_units_of(slot_after_take(slot_after_store(s, item, count), count), it) == slot_units_of(s, it),
{
}

/// A store that succeeds grows the count by exactly the units stored, and
/// leaves no more units than fit, so the slot stays within its capacity.
pub proof fn lemma_store_adds_units(s: SlotModel, item: Item, count: u64)
    requires
        slot_can_store(s, item, count) is Ok,
    ensures
        slot_units_of(slot_after_store(s, item, count), item) == slot_units_of(s, item) + count,
        slot_count(slot_after_store(s, item, count)) <= units_capacity(s.capacity, item),
        slot_within_capacity(slot_after_store(s, item, count)),
{
    let n = slot_count(slot_after_store(s, item, count));
    let v = item_volume(item);
    let cap = s.capacity.0 as nat;
    assert(slot_after_store(s, item, count).contents == Some((item, n as u64)));
    assert(n * v <= cap) by (nonlinear_arith)
        requires
            v > 0,
            n <= cap / v,
    ;
}

/// Sums `f` over the slots of `s`.
pub open spec fn slots_sum(s: Seq<SlotModel>, f: spec_fn(SlotModel) -> nat) -> nat
    decreases s.len(),
{
    if s.len() == 0 {
        0
    } else {
        slots_sum(s.drop_last(), f) + f(s.last())
    }
}

/// The capacity of a slot.
pub open spec fn capacity_fn() -> spec_fn(SlotModel) -> nat {
    |m: SlotModel| m.capacity.0 as nat
}

/// The occupied volume of a slot.
pub open spec fn occupied_fn() -> spec_fn(SlotModel) -> nat {
    |m: SlotModel| slot_occupied(m)
}

/// The mass held by a slot.
pub open spec fn mass_fn() -> spec_fn(SlotModel) -> nat {
    |m: SlotModel| slot_mass(m)
}

/// The mass held by a slot if it is assigned `item`, else 0.
pub open spec fn mass_of_fn(item: Item) -> spec_fn(SlotModel) -> nat {
    |m: SlotModel| if slot_has(m, item) { slot_mass(m) } else { 0 }
}

/// The occupied volume of a slot if it is assigned `item`, else 0.
pub open spec fn occupied_of_fn(item: Item) -> spec_fn(SlotModel) -> nat {
    |m: SlotModel| if slot_has(m, item) { slot_occupied(m) } else { 0 }
}

/// The free volume of a slot if it is assigned `item`, else 0.
pub open spec fn available_of_fn(item: Item) -> spec_fn(SlotModel) -> nat {
    |m: SlotModel| if slot_has(m, item) { slot_available(m) as nat } else { 0 }
}

/// Adding one more slot to a prefix adds that slot's term to the sum.
pub proof fn lemma_slots_sum_step(s: Seq<SlotModel>, f: spec_fn(SlotModel) -> nat, i: int)
    requires
        0 <= i < s.len(),
    ensures
        slots_sum(s.take(i + 1), f) == slots_sum(s.take(i), f) + f(s[i]),
{
    assert(s.take(i + 1).drop_last() =~= s.take(i));
}

/// A prefix sums to no more than the whole sequence.
pub proof fn lemma_slots_sum_prefix_le(s: Seq<SlotModel>, f: spec_fn(SlotModel) -> nat, i: int)
    requires
        0 <= i <= s.len(),
    ensures
        slots_sum(s.take(i), f) <= slots_sum(s, f),
    decreases s.len() - i,
{
    if i < s.len() {
        lemma_slots_sum_step(s, f, i);
        lemma_slots_sum_prefix_le(s, f, i + 1);
    } else {
        assert(s.take(i) =~= s);
    }
}

/// Replacing one slot changes the sum by the difference of its terms.
pub proof fn lemma_slots_sum_update(s: Seq<SlotModel>, f: spec_fn(SlotModel) -> nat, k: int, m: SlotModel)
    requires
        0 <= k < s.len(),
    ensures
        slots_sum(s.update(k, m), f) + f(s[k]) == slots_sum(s, f) + f(m),
    decreases s.len(),
{
    if k == s.len() - 1 {
        assert(s.update(k, m).drop_last() =~= s.drop_last());
    } else {
        lemma_slots_sum_update(s.drop_last(), f, k, m);
        assert(s.update(k, m).drop_last() =~= s.drop_last().update(k, m));
    }
}

/// Whether the cell `p` lies within the location box of a slot.
pub open spec fn slot_contains_cell(m: SlotModel, p: PartCoord) -> bool {
    &&& m.location.0.0.x <= p.0.x < m.location.1.0.x
    &&& m.location.0.0.y <= p.0.y < m.location.1.0.y
}

/// The slots keep their names.
pub open spec fn same_names(a: Seq<InvSlot>, b: Seq<InvSlot>) -> bool {
    &&& a.len() == b.len()
    &&& forall|i: int| 0 <= i < a.len() ==> #[trigger] a[i].spec_name() == b[i].spec_name()
}

/// An ordered list of 0 or more inventory slots. See [InvSlot]
/// for more information about semantics.
#[derive(Debug, Clone)]
pub struct Inventory(Vec<InvSlot>);

impl View for Inventory {
    type V = Seq<SlotModel>;

    closed spec fn view(&self) -> Seq<SlotModel> {
        self.0@.map_values(|s: InvSlot| s@)
    }
}

impl Inventory {
    /// The slots themselves, names included.
    pub closed spec fn spec_slots(&self) -> Seq<InvSlot> {
        self.0@
    }

    /// The slot models are the views of the slots.
    pub proof fn lemma_view_is_slot_views(&self)
        ensures
            self@.len() == self.spec_slots().len(),
            forall|i: int| 0 <= i < self@.len() ==> #[trigger] self@[i] == self.spec_slots()[i]@,
    {
    }

    /// An inventory containing zero slots, which can store nothing.
    pub fn zero_slots() -> (inv: Self)
        ensures
            inv@ == Seq::<SlotModel>::empty(),
    {
        let inv = Inventory(Vec::new());
        assert(inv@ =~= Seq::<SlotModel>::empty());
        inv
    }

    /// Constructs a new Inventory with the given slots.
    pub fn from_slots(slots: Vec<InvSlot>) -> (inv: Self)
        ensures
            inv.spec_slots() == slots@,
            inv@ == slots@.map_values(|s: InvSlot| s@),
    {
        Inventory(slots)
    }

    /// Constructs a new Inventory with a single, unfiltered, non-fluid slot
    /// at the origin, holding none of the given item and the given capacity.
    pub fn single(item: Item, capacity: Volume) -> (inv: Self)
        ensures
            inv@ == seq![SlotModel {
                capacity,
                filter: ItemFilter::Any,
                contents: Some((item, 0u64)),
                is_fluid: false,
                location: (PartCoord(IVec2 { x: 0, y: 0 }), PartCoord(IVec2 { x: 0, y: 0 })),
            }],
            inv.spec_slots().len() == 1,
            inv.spec_slots()[0].spec_name() is None,
    {
        let slot = InvSlot::new(
            capacity,
            ItemFilter::Any,
            false,
            (PartCoord::zero(), PartCoord::zero()),
        ).with_item(item);
        let mut v = Vec::new();
        v.push(slot);
        let inv = Inventory(v);
        assert(inv@ =~= seq![slot@]);
        inv
    }

    /// Clear the contents of all slots.
    pub fn clear(&mut self)
        ensures
            final(self)@.len() == old(self)@.len(),
            forall|i: int| 0 <= i < old(self)@.len() ==> #[trigger] final(self)@[i] == (SlotModel {
                contents: None,
                ..old(self)@[i]
            }),
            same_names(old(self).spec_slots(), final(self).spec_slots()),
    {
        let n = self.0.len();
        let mut i: usize = 0;
        while i < n
            invariant
                n == self.0.len() == old(self).0.len(),
                i <= n,
                forall|j: int| 0 <= j < i ==> #[trigger] self.0@[j]@ == (SlotModel {
                    contents: None,
                    ..old(self).0@[j]@
                }),
                forall|j: int| i <= j < n ==> #[trigger] self.0@[j] == old(self).0@[j],
                forall|j: int| 0 <= j < n ==> #[trigger] self.0@[j].spec_name() == old(self).0@[j].spec_name(),
            decreases n - i,
        {
            self.0[i].empty();
            i = i + 1;
        }
    }

    /// Gets a reference to the slot at the given index, if it exists.
    pub fn get_slot(&self, idx: usize) -> (r: Option<&InvSlot>)
        ensures
            idx < self@.len() ==> r == Some(&self.spec_slots()[idx as int]),
            idx >= self@.len() ==> r is None,
    {
        if idx < self.0.len() {
            Some(&self.0[idx])
        } else {
            None
        }
    }

    /// Get a mutable reference to the slot at the given index, if it exists.
    pub fn get_slot_mut(&mut self, idx: usize) -> (r: Option<&mut InvSlot>)
        ensures
            idx < old(self)@.len() ==> {
                &&& r is Some
                &&& *r.unwrap() == old(self).spec_slots()[idx as int]
                &&& final(self).spec_slots() == old(self).spec_slots().update(
                    idx as int,
                    *final(r.unwrap()),
                )
            },
            idx >= old(self)@.len() ==> r is None && final(self).spec_slots() == old(self).spec_slots(),
    {
        if idx < self.0.len() {
            Some(&mut self.0[idx])
        } else {
            None
        }
    }

    /// The slots of this inventory, in order.
    pub fn iter(&self) -> (s: &[InvSlot])
        ensures
            s@ == self.spec_slots(),
    {
        self.0.as_slice()
    }

    /// Get the index of the first slot whose location box holds the cell `p`.
    pub fn get_slot_at(&self, p: PartCoord) -> (r: Option<usize>)
        ensures
            match r {
                Some(i) => i < self@.len() && slot_contains_cell(self@[i as int], p) && forall|j: int|
                    0 <= j < i ==> !slot_contains_cell(#[trigger] self@[j], p),
                None => forall|j: int| 0 <= j < self@.len() ==> !slot_contains_cell(#[trigger] self@[j], p),
            },
    {
        let n = self.0.len();
        let mut i: usize = 0;
        while i < n
            invariant
                n == self@.len(),
                i <= n,
                forall|j: int| 0 <= j < i ==> !slot_contains_cell(#[trigger] self@[j], p),
            decreases n - i,
        {
            let (lo, hi) = self.0[i].location();
            let ox = p.0.x as i64 - lo.0.x as i64;
            let oy = p.0.y as i64 - lo.0.y as i64;
            let mx = hi.0.x as i64 - lo.0.x as i64;
            let my = hi.0.y as i64 - lo.0.y as i64;
            if ox < mx && oy < my && ox >= 0 && oy >= 0 {
                return Some(i);
            }
            i = i + 1;
        }
        None
    }

    /// Returns true if any individual slot can store the given item and
    /// quantity.
    pub fn can_store(&self, item: Item, count: u64) -> (b: bool)
        ensures
            b == exists|k: int| 0 <= k < self@.len() && (#[trigger] slot_can_store(self@[k], item, count)) is Ok,
    {
        let n = self.0.len();
        let mut i: usize = 0;
        while i < n
            invariant
                n == self@.len(),
                i <= n,
                forall|j: int| 0 <= j < i ==> (#[trigger] slot_can_store(self@[j], item, count)) is Err,
            decreases n - i,
        {
            if self.0[i].can_store(item, count).is_ok() {
                assert(slot_can_store(self@[i as int], item, count) is Ok);
                return true;
            }
            i = i + 1;
        }
        false
    }

    /// Stores the given item and quantity in the first slot that can take
    /// it, if any. Returns true if successful. If not successful, the
    /// inventory is not modified.
    pub fn store(&mut self, item: Item, count: u64) -> (ok: bool)
        ensures
            same_names(old(self).spec_slots(), final(self).spec_slots()),
            ok == exists|k: int| 0 <= k < old(self)@.len() && (#[trigger] slot_can_store(old(self)@[k], item, count)) is Ok,
            ok ==> exists|k: int| {
                &&& 0 <= k < old(self)@.len()
                &&& (#[trigger] slot_can_store(old(self)@[k], item, count)) is Ok
                &&& forall|j: int| 0 <= j < k ==> (#[trigger] slot_can_store(old(self)@[j], item, count)) is Err
                &&& final(self)@ == old(self)@.update(k, slot_after_store(old(self)@[k], item, count))
            },
            !ok ==> final(self)@ == old(self)@,
    {
        let n = self.0.len();
        let mut i: usize = 0;
        while i < n
            invariant
                n == self.0.len() == old(self).0.len(),
                i <= n,
                self.0@ == old(self).0@,
                forall|j: int| 0 <= j < i ==> (#[trigger] slot_can_store(old(self)@[j], item, count)) is Err,
            decreases n - i,
        {
            let r = self.0[i].store(item, count);
            if r.is_ok() {
                assert(slot_can_store(old(self)@[i as int], item, count) is Ok);
                assert(self@ =~= old(self)@.update(i as int, slot_after_store(old(self)@[i as int], item, count)));
                return true;
            }
            assert(self.0@ =~= old(self).0@);
            i = i + 1;
        }
        false
    }

    /// Fills all slots with whatever item the slot is set to. A slot
    /// without an item (even if it's empty) is left alone.
    pub fn fill(&mut self)
        requires
            forall|k: int| 0 <= k < old(self)@.len() ==> match (#[trigger] old(self)@[k]).contents {
                Some((i, c)) => c <= units_capacity(old(self)@[k].capacity, i),
                None => true,
            },
        ensures
            same_names(old(self).spec_slots(), final(self).spec_slots()),
            final(self)@.len() == old(self)@.len(),
            forall|k: int| 0 <= k < old(self)@.len() ==> #[trigger] final(self)@[k] == match old(self)@[k].contents {
                Some((i, _)) => SlotModel {
                    contents: Some((i, units_capacity(old(self)@[k].capacity, i) as u64)),
                    ..old(self)@[k]
                },
                None => old(self)@[k],
            },
    {
        let n = self.0.len();
        let mut i: usize = 0;
        while i < n
            invariant
                n == self.0.len() == old(self).0.len(),
                i <= n,
                forall|k: int| 0 <= k < old(self)@.len() ==> match (#[trigger] old(self)@[k]).contents {
                    Some((it, c)) => c <= units_capacity(old(self)@[k].capacity, it),
                    None => true,
                },
                forall|j: int| 0 <= j < i ==> #[trigger] self.0@[j]@ == match old(self).0@[j]@.contents {
                    Some((it, _)) => SlotModel {
                        contents: Some((it, units_capacity(old(self).0@[j]@.capacity, it) as u64)),
                        ..old(self).0@[j]@
                    },
                    None => old(self).0@[j]@,
                },
                forall|j: int| i <= j < n ==> #[trigger] self.0@[j] == old(self).0@[j],
                forall|j: int| 0 <= j < n ==> #[trigger] self.0@[j].spec_name() == old(self).0@[j].spec_name(),
            decreases n - i,
        {
            assert(self.0@[i as int] == old(self).0@[i as int]);
            assert(old(self)@[i as int] == old(self).0@[i as int]@);
            self.0[i].fill();
            i = i + 1;
        }
    }

    /// Checks whether a single slot can provide the given item and quantity.
    pub fn can_take(&self, item: Item, count: u64) -> (b: bool)
        ensures
            b == exists|k: int| 0 <= k < self@.len() && #[trigger] slot_can_take(self@[k], item, count),
    {
        let n = self.0.len();
        let mut i: usize = 0;
        while i < n
            invariant
                n == self@.len(),
                i <= n,
                forall|j: int| 0 <= j < i ==> !#[trigger] slot_can_take(self@[j], item, count),
            decreases n - i,
        {
            if self.0[i].can_take(item, count) {
                assert(slot_can_take(self@[i as int], item, count));
                return true;
            }
            i = i + 1;
        }
        false
    }

    /// Removes the given quantity of item from the first slot that holds
    /// enough of it, if any. Returns true if successful. If not successful,
    /// this inventory is not modified.
    pub fn take(&mut self, item: Item, count: u64) -> (ok: bool)
        ensures
            same_names(old(self).spec_slots(), final(self).spec_slots()),
            ok == exists|k: int| 0 <= k < old(self)@.len() && #[trigger] slot_can_take(old(self)@[k], item, count),
            ok ==> exists|k: int| {
                &&& 0 <= k < old(self)@.len()
                &&& #[trigger] slot_can_take(old(self)@[k], item, count)
                &&& forall|j: int| 0 <= j < k ==> !#[trigger] slot_can_take(old(self)@[j], item, count)
                &&& final(self)@ == old(self)@.update(k, slot_after_take(old(self)@[k], count))
            },
            !ok ==> final(self)@ == old(self)@,
    {
        let n = self.0.len();
        let mut i: usize = 0;
        while i < n
            invariant
                n == self.0.len() == old(self).0.len(),
                i <= n,
                self.0@ == old(self).0@,
                forall|j: int| 0 <= j < i ==> !#[trigger] slot_can_take(old(self)@[j], item, count),
            decreases n - i,
        {
            if self.0[i].take(item, count) {
                assert(slot_can_take(old(self)@[i as int], item, count));
                assert(self@ =~= old(self)@.update(i as int, slot_after_take(old(self)@[i as int], count)));
                return true;
            }
            assert(self.0@ =~= old(self).0@);
            i = i + 1;
        }
        false
    }

    /// Gets the number of slots in this inventory.
    pub fn slot_count(&self) -> (n: usize)
        ensures
            n == self@.len(),
    {
        self.0.len()
    }

    /// The slots of this inventory, in order.
    pub fn slots(&self) -> (s: &[InvSlot])
        ensures
            s@ == self.spec_slots(),
    {
        self.0.as_slice()
    }

    /// The slots of this inventory, in order, for modification in place.
    pub fn slots_mut(&mut self) -> (s: &mut [InvSlot])
        ensures
            s@ == old(self).spec_slots(),
            final(self).spec_slots() == final(s)@,
    {
        self.0.as_mut_slice()
    }

    /// Sum up the mass of items in this inventory.
    pub fn mass(&self) -> (m: Mass)
        requires
            slots_sum(self@, mass_fn()) <= u64::MAX,
        ensures
            m.0 == slots_sum(self@, mass_fn()),
    {
        let n = self.0.len();
        let mut acc: u64 = 0;
        let mut i: usize = 0;
        while i < n
            invariant
                n == self@.len(),
                i <= n,
                slots_sum(self@, mass_fn()) <= u64::MAX,
                acc == slots_sum(self@.take(i as int), mass_fn()),
            decreases n - i,
        {
            proof {
                lemma_slots_sum_step(self@, mass_fn(), i as int);
                lemma_slots_sum_prefix_le(self@, mass_fn(), i + 1);
            }
            acc = acc + self.0[i].mass().0;
            i = i + 1;
        }
        assert(self@.take(n as int) =~= self@);
        Mass(acc)
    }

    /// Sums the mass of all slots which are assigned the given item.
    pub fn mass_of(&self, item: Item) -> (m: Mass)
        requires
            slots_sum(self@, mass_of_fn(item)) <= u64::MAX,
        ensures
            m.0 == slots_sum(self@, mass_of_fn(item)),
    {
        let n = self.0.len();
        let mut acc: u64 = 0;
        let mut i: usize = 0;
        while i < n
            invariant
                n == self@.len(),
                i <= n,
                slots_sum(self@, mass_of_fn(item)) <= u64::MAX,
                acc == slots_sum(self@.take(i as int), mass_of_fn(item)),
            decreases n - i,
        {
            proof {
                lemma_slots_sum_step(self@, mass_of_fn(item), i as int);
                lemma_slots_sum_prefix_le(self@, mass_of_fn(item), i + 1);
            }
            if self.0[i].has(item) {
                acc = acc + self.0[i].mass().0;
            }
            i = i + 1;
        }
        assert(self@.take(n as int) =~= self@);
        Mass(acc)
    }

    /// Gets the total capacity of the inventory over all slots.
    pub fn capacity(&self) -> (v: Volume)
        requires
            slots_sum(self@, capacity_fn()) <= u64::MAX,
        ensures
            v.0 == slots_sum(self@, capacity_fn()),
    {
        let n = self.0.len();
        let mut acc: u64 = 0;
        let mut i: usize = 0;
        while i < n
            invariant
                n == self@.len(),
                i <= n,
                slots_sum(self@, capacity_fn()) <= u64::MAX,
                acc == slots_sum(self@.take(i as int), capacity_fn()),
            decreases n - i,
        {
            proof {
                lemma_slots_sum_step(self@, capacity_fn(), i as int);
                lemma_slots_sum_prefix_le(self@, capacity_fn(), i + 1);
            }
            acc = acc + self.0[i].capacity().0;
            i = i + 1;
        }
        assert(self@.take(n as int) =~= self@);
        Volume(acc)
    }

    /// Gets the sum of occupied volume over all slots.
    pub fn occupied_volume(&self) -> (v: Volume)
        requires
            slots_sum(self@, occupied_fn()) <= u64::MAX,
        ensures
            v.0 == slots_sum(self@, occupied_fn()),
    {
        let n = self.0.len();
        let mut acc: u64 = 0;
        let mut i: usize = 0;
        while i < n
            invariant
                n == self@.len(),
                i <= n,
                slots_sum(self@, occupied_fn()) <= u64::MAX,
                acc == slots_sum(self@.take(i as int), occupied_fn()),
            decreases n - i,
        {
            proof {
                lemma_slots_sum_step(self@, occupied_fn(), i as int);
                lemma_slots_sum_prefix_le(self@, occupied_fn(), i + 1);
            }
            acc = acc + self.0[i].occupied_volume().0;
            i = i + 1;
        }
        assert(self@.take(n as int) =~= self@);
        Volume(acc)
    }

    /// Gets the total available volume over all slots: the capacity minus
    /// the occupied volume.
    pub fn available_volume(&self) -> (v: Volume)
        requires
            slots_sum(self@, capacity_fn()) <= u64::MAX,
            slots_sum(self@, occupied_fn()) <= slots_sum(self@, capacity_fn()),
        ensures
            v.0 == slots_sum(self@, capacity_fn()) - slots_sum(self@, occupied_fn()),
    {
        let c = self.capacity();
        let o = self.occupied_volume();
        Volume(c.0 - o.0)
    }

    /// Gets the total volume which is occupied by the given item.
    pub fn occupied_volume_of(&self, item: Item) -> (v: Volume)
        requires
            slots_sum(self@, occupied_of_fn(item)) <= u64::MAX,
        ensures
            v.0 == slots_sum(self@, occupied_of_fn(item)),
    {
        let n = self.0.len();
        let mut acc: u64 = 0;
        let mut i: usize = 0;
        while i < n
            invariant
                n == self@.len(),
                i <= n,
                slots_sum(self@, occupied_of_fn(item)) <= u64::MAX,
                acc == slots_sum(self@.take(i as int), occupied_of_fn(item)),
            decreases n - i,
        {
            proof {
                lemma_slots_sum_step(self@, occupied_of_fn(item), i as int);
                lemma_slots_sum_prefix_le(self@, occupied_of_fn(item), i + 1);
            }
            if self.0[i].has(item) {
                acc = acc + self.0[i].occupied_volume().0;
            }
            i = i + 1;
        }
        assert(self@.take(n as int) =~= self@);
        Volume(acc)
    }

    /// Gets the total free volume in all slots which are assigned the given
    /// item. Slots which are not (even if they're empty) are not included.
    pub fn available_volume_of(&self, item: Item) -> (v: Volume)
        requires
            forall|k: int| 0 <= k < self@.len() && slot_has(self@[k], item) ==> slot_within_capacity(#[trigger] self@[k]),
            slots_sum(self@, available_of_fn(item)) <= u64::MAX,
        ensures
            v.0 == slots_sum(self@, available_of_fn(item)),
    {
        let n = self.0.len();
        let mut acc: u64 = 0;
        let mut i: usize = 0;
        while i < n
            invariant
                n == self@.len(),
                i <= n,
                forall|k: int| 0 <= k < self@.len() && slot_has(self@[k], item) ==> slot_within_capacity(#[trigger] self@[k]),
                slots_sum(self@, available_of_fn(item)) <= u64::MAX,
                acc == slots_sum(self@.take(i as int), available_of_fn(item)),
            decreases n - i,
        {
            proof {
                lemma_slots_sum_step(self@, available_of_fn(item), i as int);
                lemma_slots_sum_prefix_le(self@, available_of_fn(item), i + 1);
            }
            if self.0[i].has(item) {
                assert(slot_within_capacity(self@[i as int]));
                acc = acc + self.0[i].available_volume().0;
            }
            i = i + 1;
        }
        assert(self@.take(n as int) =~= self@);
        Volume(acc)
    }
}

/// `a / b` rounded to the nearest integer, halves rounded up.
pub open spec fn round_div(a: nat, b: nat) -> nat {
    (2 * a + b) / (2 * b)
}

/// The whole units of `item` that fit in the free volume of a slot; none
/// when the slot holds more than its capacity.
pub open spec fn free_units(dst: SlotModel, item: Item) -> nat {
    if slot_occupied(dst) <= dst.capacity.0 {
        ((dst.capacity.0 - slot_occupied(dst)) as nat) / item_volume(item)
    } else {
        0
    }
}

/// The number of units of `item` a transfer of `mass` moves from `src` to
/// `dst`: the mass in units, rounded and at least one, but no more than
/// `src` holds nor than fits in the free volume of `dst`.
pub open spec fn transfer_count(src: SlotModel, dst: SlotModel, item: Item, mass: Mass) -> nat {
    let wanted = round_div(mass.0 as nat, item_mass(item));
    let wanted = if wanted < 1 { 1 } else { wanted };
    let dst_units = free_units(dst, item);
    let limit = if slot_count(src) < dst_units { slot_count(src) } else { dst_units };
    if wanted < limit { wanted } else { limit }
}

/// The status and the two slots after a transfer of `mass` from `src` to `dst`.
pub open spec fn transfer_outcome(src: SlotModel, dst: SlotModel, mass: Mass) -> (MachineStatus, SlotModel, SlotModel) {
    if mass.0 == 0 {
        (MachineStatus::Running, src, dst)
    } else {
        match src.contents {
            None => (MachineStatus::Starved, src, dst),
            Some((item, _)) => {
                if dst.contents matches Some((d, _)) && d != item {
                    (MachineStatus::NoRoom, src, dst)
                } else {
                    let count = transfer_count(src, dst, item, mass) as u64;
                    if !slot_can_take(src, item, count) {
                        (MachineStatus::Starved, src, dst)
                    } else {
                        match slot_can_store(dst, item, count) {
                            Err(st) => (st, src, dst),
                            Ok(()) => (
                                MachineStatus::Running,
                                slot_after_take(src, count),
                                slot_after_store(dst, item, count),
                            ),
                        }
                    }
                }
            },
        }
    }
}

/// The whole units of `item` a mass stands for: rounded to the nearest unit,
/// and never less than one.
pub open spec fn units_in_mass(mass: Mass, item: Item) -> nat {
    let r = (2 * (mass.0 as nat) + item_mass(item)) / (2 * item_mass(item));
    if r == 0 { 1 } else { r }
}

/// The whole units of `item` that fit in the volume a slot has left.
pub open spec fn room_for(dst: SlotModel, item: Item) -> nat {
    ((dst.capacity.0 - slot_occupied(dst)) as nat) / item_volume(item)
}

/// A transfer of a non-zero mass from a source holding `c` units of `item`
/// to a destination that accepts `item`, is empty or already holds `item`,
/// and is within its capacity, runs and moves `n` units, `n` being the least
/// of the units the mass stands for, the units the source holds, and the
/// units that fit in the destination: the source loses exactly `n` units and
/// the destination gains them. A request that covers all the source holds,
/// when it all fits, empties the source.
pub proof fn lemma_transfer_moves_least(src: SlotModel, dst: SlotModel, mass: Mass, item: Item, c: u64, n: nat)
    requires
        mass.0 > 0,
        src.contents == Some((item, c)),
        dst.contents is None || dst.contents == Some((item, slot_count(dst) as u64)),
        filter_passes(dst.filter, item),
        slot_occupied(dst) <= dst.capacity.0,
        n <= units_in_mass(mass, item),
        n <= c,
        n <= room_for(dst, item),
        n == units_in_mass(mass, item) || n == c || n == room_for(dst, item),
    ensures
        transfer_outcome(src, dst, mass).0 == MachineStatus::Running,
        slot_units_of(transfer_outcome(src, dst, mass).1, item) + n == c,
        slot_units_of(transfer_outcome(src, dst, mass).2, item) == slot_units_of(dst, item) + n,
        c <= units_in_mass(mass, item) && c <= room_for(dst, item) ==> transfer_outcome(src, dst, mass).1.contents is None,
{
    let v = item_volume(item);
    let d = slot_count(dst);
    let cap = dst.capacity.0 as nat;
    assert(v > 0);
    assert(slot_occupied(dst) == d * v) by {
        if dst.contents is None {
            assert(d == 0);
            assert(d * v == 0) by (nonlinear_arith)
                requires
                    d == 0,
            ;
        }
    }
    assert(free_units(dst, item) == room_for(dst, item));
    assert(units_in_mass(mass, item) == (if round_div(mass.0 as nat, item_mass(item)) < 1 { 1 } else { round_div(mass.0 as nat, item_mass(item)) }));
    assert(transfer_count(src, dst, item, mass) == n);
    assert(d + n <= units_capacity(dst.capacity, item)) by (nonlinear_arith)
        requires
            v > 0,
            d * v <= cap,
            n <= (cap - d * v) / (v as int),
            units_capacity(dst.capacity, item) == cap / v,
    {
        assert(n * v <= cap - d * v);
        assert((d + n) * v <= cap);
    }
    assert(slot_can_take(src, item, n as u64));
    assert(slot_can_store(dst, item, n as u64) == Ok::<(), MachineStatus>(()));
}

/// A transfer of no mass runs and changes nothing; from an empty source it
/// starves; into a slot holding another item it finds no room; into a slot
/// whose filter rejects the item it is refused for the filter. Whenever a
/// transfer does not run, neither slot changes.
pub proof fn lemma_transfer_refusals(src: SlotModel, dst: SlotModel, mass: Mass)
    ensures
        mass.0 == 0 ==> transfer_outcome(src, dst, mass) == (MachineStatus::Running, src, dst),
        mass.0 > 0 && src.contents is None ==> transfer_outcome(src, dst, mass) == (MachineStatus::Starved, src, dst),
        (mass.0 > 0 && src.contents is Some && dst.contents is Some && (src.contents->0).0 != (dst.contents->0).0)
            ==> transfer_outcome(src, dst, mass) == (MachineStatus::NoRoom, src, dst),
        (mass.0 > 0 && src.contents is Some && !filter_passes(dst.filter, (src.contents->0).0)
            && (dst.contents is None || (dst.contents->0).0 == (src.contents->0).0))
            ==> transfer_outcome(src, dst, mass) == (MachineStatus::BadFilter, src, dst),
        transfer_outcome(src, dst, mass).0 != MachineStatus::Running ==> transfer_outcome(src, dst, mass).1 == src
            && transfer_outcome(src, dst, mass).2 == dst,
{
    match src.contents {
        Some((i, c)) => {
            assert(transfer_count(src, dst, i, mass) <= c);
        },
        None => {},
    }
}

/// Moves an amount of item, given by mass, from one slot to another without
/// leaving either slot in a state which would destroy or duplicate items:
/// for every item, the units held by the two slots together are the same
/// before and after.
pub fn atomic_transfer(src: &mut InvSlot, dst: &mut InvSlot, mass: Mass) -> (st: MachineStatus)
    ensures
        (st, final(src)@, final(dst)@) == transfer_outcome(old(src)@, old(dst)@, mass),
        final(src).spec_name() == old(src).spec_name(),
        final(dst).spec_name() == old(dst).spec_name(),
        forall|it: Item| #[trigger] slot_units_of(final(src)@, it) + slot_units_of(final(dst)@, it)
            == slot_units_of(old(src)@, it) + slot_units_of(old(dst)@, it),
{
    if mass.is_zero() {
        return MachineStatus::Running;
    }
    let item = match src.item() {
        Some(i) => i,
        None => {
            return MachineStatus::Starved;
        },
    };
    match dst.item() {
        Some(d) => {
            if d != item {
                return MachineStatus::NoRoom;
            }
        },
        None => {},
    }
    let src_count = src.count();
    let vol = item.volume_per_unit().0;
    let dc = dst.count();
    assert((dc as u128) * (vol as u128) <= u64::MAX as u128 * u64::MAX as u128) by (nonlinear_arith)
        requires
            dc <= u64::MAX,
            vol <= u64::MAX,
    ;
    let occupied: u128 = (dc as u128) * (vol as u128);
    assert(occupied == slot_occupied(old(dst)@)) by {
        match old(dst)@.contents {
            Some((i, c)) => {
                assert(i == item && c == dc);
                assert(vol == item_volume(item));
                assert((c as nat) * item_volume(i) == (dc as int) * (vol as int));
            },
            None => {
                assert(dc == 0);
                assert((dc as int) * (vol as int) == 0) by (nonlinear_arith)
                    requires
                        dc == 0,
                ;
            },
        }
    }
    let cap = dst.capacity().0;
    let dst_available: u64 = if occupied <= cap as u128 {
        let free: u128 = (cap as u128 - occupied) / (vol as u128);
        assert(free <= cap) by (nonlinear_arith)
            requires
                vol >= 1,
                free == (cap - occupied) / (vol as int),
                occupied <= cap,
        ;
        free as u64
    } else {
        0
    };
    assert(dst_available == free_units(old(dst)@, item));
    let mpu = item.mass_per_unit().0;
    let wanted: u128 = (2 * (mass.0 as u128) + (mpu as u128)) / (2 * (mpu as u128));
    let wanted: u128 = if wanted < 1 { 1 } else { wanted };
    let limit: u64 = if src_count < dst_available { src_count } else { dst_available };
    let count: u64 = if wanted < limit as u128 { wanted as u64 } else { limit };
    assert(count == transfer_count(old(src)@, old(dst)@, item, mass));
    if !src.can_take(item, count) {
        return MachineStatus::Starved;
    }
    match dst.can_store(item, count) {
        Ok(()) => {},
        Err(status) => {
            return status;
        },
    }
    src.take(item, count);
    let _ = dst.store(item, count);
    MachineStatus::Running
}

} // verus!
