//! The player's pack: items in the order they were picked up, each with a
//! letter that is never reused.
use vstd::prelude::*;
use crate::ids::EntityId;

verus! {

/// An inventory letter, `a` to `z`.
#[derive(Debug, Clone, Copy, PartialEq, Eq, Hash, Structural)]
pub struct InventoryLetter(pub char);

/// An item in the pack and its letter.
#[derive(Debug, Clone, Copy, PartialEq, Eq, Hash, Structural)]
pub struct InventoryEntry {
    pub item: EntityId,
    pub letter: InventoryLetter,
}

/// The pack: entries in pick-up order, the wielded weapon, and the index of
/// the next letter to hand out.
#[derive(Debug, Clone, PartialEq, Eq)]
pub struct Inventory {
    pub owner: EntityId,
    pub entries: Vec<InventoryEntry>,
    pub equipped_melee: Option<EntityId>,
    pub next_letter_index: u8,
}

/// The `i`-th letter of the alphabet (from 0).
pub open spec fn nth_letter(i: int) -> char {
    ((97 + i) as u8) as char
}

/// Whether some entry holds `item`.
pub open spec fn holds(entries: Seq<InventoryEntry>, item: EntityId) -> bool {
    exists|i: int| 0 <= i < entries.len() && #[trigger] entries[i].item == item
}

/// The position of the first entry holding `item` (meaningful when one
/// does).
pub open spec fn first_entry(entries: Seq<InventoryEntry>, item: EntityId) -> int {
    choose|i: int| 0 <= i < entries.len() && #[trigger] entries[i].item == item
        && forall|j: int| 0 <= j < i ==> entries[j].item != item
}

impl Inventory {
    /// An empty pack of `owner`.
    pub fn new(owner: EntityId) -> (r: Self)
        ensures
            r.owner == owner,
            r.entries@.len() == 0,
            r.equipped_melee is None,
            r.next_letter_index == 0,
    {
        Inventory { owner, entries: Vec::new(), equipped_melee: None, next_letter_index: 0 }
    }

    /// Adds `item` under the next letter and returns the letter; `None`,
    /// and no change, once all 26 letters are used.
    pub fn add_existing_with_next_letter(&mut self, item: EntityId) -> (r: Option<InventoryLetter>)
        ensures
            old(self).next_letter_index >= 26 ==> r is None && *final(self) == *old(self),
            old(self).next_letter_index < 26 ==> r == Some(InventoryLetter(nth_letter(old(self).next_letter_index as int)))
                && final(self).entries@ == old(self).entries@.push(InventoryEntry { item, letter: r->0 })
                && final(self).next_letter_index == old(self).next_letter_index + 1
                && final(self).owner == old(self).owner
                && final(self).equipped_melee == old(self).equipped_melee,
    {
        let letter = match self.next_letter() {
            Some(l) => l,
            None => return None,
        };
        self.entries.push(InventoryEntry { item, letter });
        self.next_letter_index = self.next_letter_index + 1;
        Some(letter)
    }

    /// Takes the first entry holding `item` out of the pack (unwielding it
    /// if it was wielded) and returns it; `None`, and no change, when the
    /// pack does not hold it.
    pub fn remove(&mut self, item: EntityId) -> (r: Option<InventoryEntry>)
        ensures
            !holds(old(self).entries@, item) ==> r is None && *final(self) == *old(self),
            holds(old(self).entries@, item) ==> ({
                let i = first_entry(old(self).entries@, item);
                &&& r == Some(old(self).entries@[i])
                &&& final(self).entries@ == old(self).entries@.remove(i)
                &&& final(self).equipped_melee == (if old(self).equipped_melee == Some(item) { None }
                    else { old(self).equipped_melee })
                &&& final(self).owner == old(self).owner
                &&& final(self).next_letter_index == old(self).next_letter_index
            }),
    {
        let n = self.entries.len();
        let mut k: usize = 0;
        while k < n && self.entries[k].item != item
            invariant
                k <= n,
                n == self.entries@.len(),
                forall|j: int| 0 <= j < k ==> self.entries@[j].item != item,
            decreases n - k,
        {
            k = k + 1;
        }
        if k == n {
            return None;
        }
        proof {
            let i = first_entry(self.entries@, item);
            assert(self.entries@[k as int].item == item);
            if i < k {
            } else if i > k {
                assert(self.entries@[k as int].item == item);
            }
        }
        if self.equipped_melee == Some(item) {
            self.equipped_melee = None;
        }
        Some(self.entries.remove(k))
    }

    /// Whether the pack holds `item`.
    pub fn contains(&self, item: EntityId) -> (r: bool)
        ensures
            r == holds(self.entries@, item),
    {
        let n = self.entries.len();
        let mut k: usize = 0;
        while k < n
            invariant
                k <= n,
                n == self.entries@.len(),
                forall|j: int| 0 <= j < k ==> #[trigger] self.entries@[j].item != item,
            decreases n - k,
        {
            if self.entries[k].item == item {
                return true;
            }
            k = k + 1;
        }
        false
    }

    /// The letter of the first entry holding `item`, if any.
    pub fn letter_for(&self, item: EntityId) -> (r: Option<InventoryLetter>)
        ensures
            holds(self.entries@, item) ==> r == Some(self.entries@[first_entry(self.entries@, item)].letter),
            !holds(self.entries@, item) ==> r is None,
    {
        let n = self.entries.len();
        let mut k: usize = 0;
        while k < n
            invariant
                k <= n,
                n == self.entries@.len(),
                forall|j: int| 0 <= j < k ==> #[trigger] self.entries@[j].item != item,
            decreases n - k,
        {
            if self.entries[k].item == item {
                proof {
                    let i = first_entry(self.entries@, item);
                    assert(self.entries@[k as int].item == item);
                    if i > k {
                        assert(self.entries@[k as int].item == item);
                    }
                }
                return Some(self.entries[k].letter);
            }
            k = k + 1;
        }
        None
    }

    /// Wields `item`.
    pub fn equip_melee(&mut self, item: EntityId)
        ensures
            *final(self) == (Inventory { equipped_melee: Some(item), ..*old(self) }),
    {
        self.equipped_melee = Some(item);
    }

    fn next_letter(&self) -> (r: Option<InventoryLetter>)
        ensures
            self.next_letter_index >= 26 ==> r is None,
            self.next_letter_index < 26 ==> r == Some(InventoryLetter(nth_letter(self.next_letter_index as int))),
    {
        if self.next_letter_index >= 26 {
            return None;
        }
        Some(InventoryLetter((97u8 + self.next_letter_index) as char))
    }
}

/// Letters are handed out in order and never twice: after adding items to
/// an empty pack one by one, the `k`-th entry has the `k`-th letter.
pub proof fn letters_follow_pick_up_order(inv: Inventory, item: EntityId, next: Inventory, letter: Option<InventoryLetter>)
    requires
        forall|k: int| 0 <= k < inv.entries@.len() ==> #[trigger] inv.entries@[k].letter == InventoryLetter(nth_letter(k)),
        inv.entries@.len() == inv.next_letter_index,
        inv.next_letter_index < 26 ==> letter == Some(InventoryLetter(nth_letter(inv.next_letter_index as int)))
            && next.entries@ == inv.entries@.push(InventoryEntry { item, letter: letter->0 })
            && next.next_letter_index == inv.next_letter_index + 1,
        inv.next_letter_index >= 26 ==> letter is None && next == inv,
    ensures
        forall|k: int| 0 <= k < next.entries@.len() ==> #[trigger] next.entries@[k].letter == InventoryLetter(nth_letter(k)),
        next.entries@.len() == next.next_letter_index,
{
}

/// Taking out an item that was just picked up gives back its entry, with the
/// letter it was given, and leaves the pack as it was, except that the
/// letter stays used.
pub proof fn removing_a_new_item_undoes_the_pick_up(
    before: Inventory,
    item: EntityId,
    letter: Option<InventoryLetter>,
    mid: Inventory,
    taken: Option<InventoryEntry>,
    after: Inventory,
)
    requires
        !holds(before.entries@, item),
        before.next_letter_index < 26,
        letter == Some(InventoryLetter(nth_letter(before.next_letter_index as int))),
        mid.entries@ == before.entries@.push(InventoryEntry { item, letter: letter->0 }),
        mid.next_letter_index == before.next_letter_index + 1,
        mid.equipped_melee == before.equipped_melee,
        mid.owner == before.owner,
        holds(mid.entries@, item) ==> ({
            let i = first_entry(mid.entries@, item);
            &&& taken == Some(mid.entries@[i])
            &&& after.entries@ == mid.entries@.remove(i)
            &&& after.equipped_melee == (if mid.equipped_melee == Some(item) { None } else { mid.equipped_melee })
            &&& after.owner == mid.owner
            &&& after.next_letter_index == mid.next_letter_index
        }),
        !holds(mid.entries@, item) ==> taken is None && after == mid,
    ensures
        taken == Some(InventoryEntry { item, letter: letter->0 }),
        after.entries@ == before.entries@,
        after.owner == before.owner,
        after.next_letter_index == before.next_letter_index + 1,
        before.equipped_melee != Some(item) ==> after.equipped_melee == before.equipped_melee,
{
    let n = before.entries@.len() as int;
    assert(mid.entries@[n].item == item);
    assert(holds(mid.entries@, item));
    let i = first_entry(mid.entries@, item);
    assert(0 <= n < mid.entries@.len() && mid.entries@[n].item == item
        && forall|j: int| 0 <= j < n ==> mid.entries@[j].item != item) by {
        assert forall|j: int| 0 <= j < n implies mid.entries@[j].item != item by {
            assert(mid.entries@[j] == before.entries@[j]);
            if before.entries@[j].item == item {
                assert(holds(before.entries@, item));
            }
        }
    }
    if i < n {
        assert(mid.entries@[i] == before.entries@[i]);
        assert(holds(before.entries@, item));
    }
    assert(i == n);
    assert(after.entries@ =~= before.entries@);
}

} // verus!
