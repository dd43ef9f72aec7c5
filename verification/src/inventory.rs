use vstd::prelude::*;

use crate::block::BlockType;

use crate::menu::KeyCode;

verus! {

pub const HOTBAR_SLOTS: usize = 9;
pub const MAIN_INVENTORY_SLOTS: usize = 27;
pub const MAX_STACK_SIZE: u32 = 64;

/// The display name of a block kind.
pub open spec fn spec_block_name(block: BlockType) -> Seq<char> {
    match block {
        BlockType::Air => "Air"@,
        BlockType::Grass => "Grass"@,
        BlockType::Dirt => "Dirt"@,
        BlockType::Stone => "Stone"@,
        BlockType::Cobblestone => "Cobblestone"@,
        BlockType::Wood => "Wood"@,
        BlockType::Planks => "Planks"@,
        BlockType::Leaves => "Leaves"@,
        BlockType::Glass => "Glass"@,
        BlockType::Sand => "Sand"@,
        BlockType::Sandstone => "Sandstone"@,
        BlockType::Gravel => "Gravel"@,
        BlockType::Water => "Water"@,
        BlockType::Ice => "Ice"@,
        BlockType::Snow => "Snow"@,
        BlockType::Cactus => "Cactus"@,
        BlockType::CoalOre => "Coal Ore"@,
        BlockType::IronOre => "Iron Ore"@,
        BlockType::GoldOre => "Gold Ore"@,
        BlockType::DiamondOre => "Diamond Ore"@,
        BlockType::Bedrock => "Bedrock"@,
    }
}

/// The display name of a block kind.
pub fn block_name(block: BlockType) -> (r: &'static str)
    ensures
        r@ == spec_block_name(block),
{
    match block {
        BlockType::Air => "Air",
        BlockType::Grass => "Grass",
        BlockType::Dirt => "Dirt",
        BlockType::Stone => "Stone",
        BlockType::Cobblestone => "Cobblestone",
        BlockType::Wood => "Wood",
        BlockType::Planks => "Planks",
        BlockType::Leaves => "Leaves",
        BlockType::Glass => "Glass",
        BlockType::Sand => "Sand",
        BlockType::Sandstone => "Sandstone",
        BlockType::Gravel => "Gravel",
        BlockType::Water => "Water",
        BlockType::Ice => "Ice",
        BlockType::Snow => "Snow",
        BlockType::Cactus => "Cactus",
        BlockType::CoalOre => "Coal Ore",
        BlockType::IronOre => "Iron Ore",
        BlockType::GoldOre => "Gold Ore",
        BlockType::DiamondOre => "Diamond Ore",
        BlockType::Bedrock => "Bedrock",
    }
}

/// A stack of blocks of one kind with a quantity.
#[derive(Clone, Copy, Debug, PartialEq, Eq, Structural)]
pub struct ItemStack {
    pub block_type: BlockType,
    pub count: u32,
}

impl ItemStack {
    /// A stack of `count` blocks, capped at the maximum stack size.
    pub fn new(block_type: BlockType, count: u32) -> (r: ItemStack)
        ensures
            r.block_type == block_type,
            r.count == if count < 64 { count } else { 64 },
    {
        ItemStack { block_type, count: if count < MAX_STACK_SIZE { count } else { MAX_STACK_SIZE } }
    }
}

/// Player inventory: nine hotbar slots, twenty-seven main slots and a selected hotbar slot.
#[derive(Debug, Clone, Copy)]
pub struct Inventory {
    pub hotbar: [Option<ItemStack>; 9],
    pub main: [Option<ItemStack>; 27],
    pub selected_slot: usize,
    pub is_open: bool,
}

// ---------------------------------------------------------------------------
// The model of adding items.

/// Adding up to `a` blocks of `block` to one slot that already holds a non-full stack of it.
pub open spec fn merge_one(slot: Option<ItemStack>, block: BlockType, a: nat) -> (Option<ItemStack>, nat) {
    match slot {
        Some(st) => if st.block_type == block && st.count < 64 {
            let space = (64 - st.count) as nat;
            let add = if a < space { a } else { space };
            (Some(ItemStack { block_type: st.block_type, count: (st.count + add) as u32 }), (a - add) as nat)
        } else {
            (slot, a)
        },
        None => (slot, a),
    }
}

/// Putting a new stack of up to 64 of the remaining `a` blocks into an empty slot.
pub open spec fn fill_one(slot: Option<ItemStack>, block: BlockType, a: nat) -> (Option<ItemStack>, nat) {
    if slot is None && a > 0 {
        let add = if a < 64 { a } else { 64 };
        (Some(ItemStack { block_type: block, count: add as u32 }), (a - add) as nat)
    } else {
        (slot, a)
    }
}

/// The slots and remaining amount after merging into the first `n` slots in order.
pub open spec fn merge_prefix(slots: Seq<Option<ItemStack>>, block: BlockType, a: nat, n: int) -> (Seq<Option<ItemStack>>, nat)
    decreases n,
{
    if n <= 0 {
        (slots, a)
    } else {
        let (s, r) = merge_prefix(slots, block, a, n - 1);
        let (slot, r2) = merge_one(s[n - 1], block, r);
        (s.update(n - 1, slot), r2)
    }
}

/// The slots and remaining amount after filling empty slots among the first `n` in order.
pub open spec fn fill_prefix(slots: Seq<Option<ItemStack>>, block: BlockType, a: nat, n: int) -> (Seq<Option<ItemStack>>, nat)
    decreases n,
{
    if n <= 0 {
        (slots, a)
    } else {
        let (s, r) = fill_prefix(slots, block, a, n - 1);
        let (slot, r2) = fill_one(s[n - 1], block, r);
        (s.update(n - 1, slot), r2)
    }
}

/// All 36 slots, hotbar first.
pub open spec fn all_slots(inv: Inventory) -> Seq<Option<ItemStack>> {
    inv.hotbar@ + inv.main@
}

/// The slots and leftover amount that adding `amount` of `block` produces: first topping
/// up matching stacks (hotbar, then main), then filling empty slots (hotbar, then main).
pub open spec fn add_item_result(slots: Seq<Option<ItemStack>>, block: BlockType, amount: nat) -> (Seq<Option<ItemStack>>, nat) {
    if block == BlockType::Air || amount == 0 {
        (slots, amount)
    } else {
        let (m, a1) = merge_prefix(slots, block, amount, slots.len() as int);
        fill_prefix(m, block, a1, slots.len() as int)
    }
}

/// Number of blocks of a kind held in a sequence of slots.
pub open spec fn total_of(slots: Seq<Option<ItemStack>>, block: BlockType) -> nat
    decreases slots.len(),
{
    if slots.len() == 0 {
        0
    } else {
        total_of(slots.drop_last(), block) + match slots.last() {
            Some(st) => if st.block_type == block { st.count as nat } else { 0 },
            None => 0,
        }
    }
}

/// Every stack holds at most 64 blocks.
pub open spec fn stacks_bounded(slots: Seq<Option<ItemStack>>) -> bool {
    forall|i: int| 0 <= i < slots.len() ==> (#[trigger] slots[i] matches Some(st) ==> st.count <= 64)
}

impl Inventory {
    /// The slot model respects the hotbar bound on the selected slot.
    pub open spec fn wf(&self) -> bool {
        self.selected_slot < 9
    }

    /// The stack in the selected hotbar slot, if any.
    pub fn selected_item(&self) -> (r: Option<ItemStack>)
        requires
            self.wf(),
        ensures
            r == self.hotbar@[self.selected_slot as int],
    {
        self.hotbar[self.selected_slot]
    }

    /// The block kind in the selected hotbar slot, or air when it is empty.
    pub fn selected_block(&self) -> (r: BlockType)
        requires
            self.wf(),
        ensures
            r == match self.hotbar@[self.selected_slot as int] {
                Some(st) => st.block_type,
                None => BlockType::Air,
            },
    {
        match self.hotbar[self.selected_slot] {
            Some(st) => st.block_type,
            None => BlockType::Air,
        }
    }

    /// Takes `amount` blocks from the selected hotbar slot, emptying it when it holds no
    /// more than that; returns whether the slot held a stack.
    pub fn consume_selected(&mut self, amount: u32) -> (r: bool)
        requires
            old(self).wf(),
        ensures
            final(self).wf(),
            r == (old(self).hotbar@[old(self).selected_slot as int] is Some),
            final(self).main == old(self).main,
            final(self).selected_slot == old(self).selected_slot,
            final(self).is_open == old(self).is_open,
            final(self).hotbar@ == old(self).hotbar@.update(
                old(self).selected_slot as int,
                match old(self).hotbar@[old(self).selected_slot as int] {
                    Some(st) => if st.count > amount {
                        Some(ItemStack { block_type: st.block_type, count: (st.count - amount) as u32 })
                    } else {
                        None
                    },
                    None => None,
                },
            ),
    {
        let slot = self.selected_slot;
        match self.hotbar[slot] {
            Some(stack) => {
                if stack.count > amount {
                    self.hotbar[slot] = Some(ItemStack { block_type: stack.block_type, count: stack.count - amount });
                } else {
                    self.hotbar[slot] = None;
                }
                true
            },
            None => false,
        }
    }

    /// Swaps the main-inventory slot `main_idx` with the selected hotbar slot; does nothing
    /// when either index is out of range.
    pub fn swap_main_with_active_hotbar(&mut self, main_idx: usize)
        ensures
            final(self).selected_slot == old(self).selected_slot,
            final(self).is_open == old(self).is_open,
            if main_idx < 27 && old(self).selected_slot < 9 {
                (final(self).hotbar@, final(self).main@) == swap_slots(
                    old(self).hotbar@,
                    old(self).main@,
                    old(self).selected_slot as int,
                    main_idx as int,
                )
            } else {
                final(self).main == old(self).main && final(self).hotbar == old(self).hotbar
            },
    {
        if main_idx < MAIN_INVENTORY_SLOTS && self.selected_slot < HOTBAR_SLOTS {
            let slot = self.selected_slot;
            let from_main = self.main[main_idx];
            let from_hotbar = self.hotbar[slot];
            self.main[main_idx] = from_hotbar;
            self.hotbar[slot] = from_main;
        }
    }
}

/// The hotbar and main slots after exchanging hotbar slot `sel` with main slot `idx`.
pub open spec fn swap_slots(
    hotbar: Seq<Option<ItemStack>>,
    main: Seq<Option<ItemStack>>,
    sel: int,
    idx: int,
) -> (Seq<Option<ItemStack>>, Seq<Option<ItemStack>>) {
    (hotbar.update(sel, main[idx]), main.update(idx, hotbar[sel]))
}

/// Exchanging the same hotbar and main slots twice puts every item back.
pub proof fn lemma_swap_twice(hotbar: Seq<Option<ItemStack>>, main: Seq<Option<ItemStack>>, sel: int, idx: int)
    requires
        0 <= sel < hotbar.len(),
        0 <= idx < main.len(),
    ensures
        ({
            let (h1, m1) = swap_slots(hotbar, main, sel, idx);
            swap_slots(h1, m1, sel, idx) == (hotbar, main)
        }),
{
    let (h1, m1) = swap_slots(hotbar, main, sel, idx);
    assert(h1.update(sel, m1[idx]) == hotbar);
    assert(m1.update(idx, h1[sel]) == main);
}

impl Default for Inventory {
    fn default() -> (r: Inventory)
        ensures
            forall|i: int| 0 <= i < 9 ==> #[trigger] r.hotbar@[i] is None,
            forall|i: int| 0 <= i < 27 ==> #[trigger] r.main@[i] is None,
            r.selected_slot == 0,
            !r.is_open,
    {
        Inventory { hotbar: [None; 9], main: [None; 27], selected_slot: 0, is_open: false }
    }
}

/// Once nothing is left to add, further merge steps change nothing.
proof fn lemma_merge_done(slots: Seq<Option<ItemStack>>, block: BlockType, a: nat, k: int, n: int)
    requires
        0 <= k <= n <= slots.len(),
        merge_prefix(slots, block, a, k).1 == 0,
    ensures
        merge_prefix(slots, block, a, n) == merge_prefix(slots, block, a, k),
    decreases n - k,
{
    if n > k {
        lemma_merge_done(slots, block, a, k, n - 1);
        let (s, r) = merge_prefix(slots, block, a, n - 1);
        lemma_merge_len(slots, block, a, n - 1);
        assert(s.update(n - 1, s[n - 1]) == s);
    }
}

proof fn lemma_merge_len(slots: Seq<Option<ItemStack>>, block: BlockType, a: nat, n: int)
    requires
        0 <= n <= slots.len(),
    ensures
        merge_prefix(slots, block, a, n).0.len() == slots.len(),
        merge_prefix(slots, block, a, n).1 <= a,
    decreases n,
{
    if n > 0 {
        lemma_merge_len(slots, block, a, n - 1);
    }
}

proof fn lemma_fill_len(slots: Seq<Option<ItemStack>>, block: BlockType, a: nat, n: int)
    requires
        0 <= n <= slots.len(),
    ensures
        fill_prefix(slots, block, a, n).0.len() == slots.len(),
        fill_prefix(slots, block, a, n).1 <= a,
    decreases n,
{
    if n > 0 {
        lemma_fill_len(slots, block, a, n - 1);
    }
}

/// Once nothing is left to add, further fill steps change nothing.
proof fn lemma_fill_done(slots: Seq<Option<ItemStack>>, block: BlockType, a: nat, k: int, n: int)
    requires
        0 <= k <= n <= slots.len(),
        fill_prefix(slots, block, a, k).1 == 0,
    ensures
        fill_prefix(slots, block, a, n) == fill_prefix(slots, block, a, k),
    decreases n - k,
{
    if n > k {
        lemma_fill_done(slots, block, a, k, n - 1);
        let (s, r) = fill_prefix(slots, block, a, n - 1);
        lemma_fill_len(slots, block, a, n - 1);
        assert(s.update(n - 1, s[n - 1]) == s);
    }
}

/// Filling with nothing to add changes nothing.
proof fn lemma_fill_zero(slots: Seq<Option<ItemStack>>, block: BlockType, n: int)
    requires
        0 <= n <= slots.len(),
    ensures
        fill_prefix(slots, block, 0, n) == (slots, 0nat),
    decreases n,
{
    if n > 0 {
        lemma_fill_zero(slots, block, n - 1);
        assert(slots.update(n - 1, slots[n - 1]) == slots);
    }
}

impl Inventory {
    /// Adds items of a block kind: first tops up non-full stacks of that kind (hotbar, then
    /// main), then fills empty slots (hotbar, then main). Returns the amount that did not
    /// fit; air and a zero amount change nothing.
    pub fn add_item(&mut self, block: BlockType, amount: u32) -> (r: u32)
        ensures
            final(self).selected_slot == old(self).selected_slot,
            final(self).is_open == old(self).is_open,
            all_slots(*final(self)) == add_item_result(all_slots(*old(self)), block, amount as nat).0,
            r == add_item_result(all_slots(*old(self)), block, amount as nat).1,
    {
        let ghost orig = all_slots(*self);
        if block == BlockType::Air || amount == 0 {
            return amount;
        }
        let mut remaining = amount;
        let ghost a0 = amount as nat;
        proof {
            lemma_merge_len(orig, block, a0, 36);
        }
        // 1. Merge into existing matching stacks in the hotbar.
        let mut i: usize = 0;
        while i < HOTBAR_SLOTS && remaining > 0
            invariant
                i <= 9,
                orig.len() == 36,
                (all_slots(*self), remaining as nat) == merge_prefix(orig, block, a0, i as int),
                self.selected_slot == old(self).selected_slot,
                self.is_open == old(self).is_open,
            decreases 9 - i,
        {
            let ghost before = all_slots(*self);
            if let Some(st) = self.hotbar[i] {
                if st.block_type == block && st.count < MAX_STACK_SIZE {
                    let space = MAX_STACK_SIZE - st.count;
                    let to_add = if remaining < space { remaining } else { space };
                    self.hotbar[i] = Some(ItemStack { block_type: st.block_type, count: st.count + to_add });
                    remaining -= to_add;
                }
            }
            proof {
                assert(all_slots(*self) == before.update(i as int, self.hotbar@[i as int]));
            }
            i += 1;
        }
        // 2. Merge into existing matching stacks in the main inventory.
        let mut j: usize = 0;
        if remaining > 0 {
            while j < MAIN_INVENTORY_SLOTS && remaining > 0
                invariant
                    j <= 27,
                    i == 9,
                    orig.len() == 36,
                    (all_slots(*self), remaining as nat) == merge_prefix(orig, block, a0, 9 + j),
                    self.selected_slot == old(self).selected_slot,
                    self.is_open == old(self).is_open,
                decreases 27 - j,
            {
                let ghost before = all_slots(*self);
                if let Some(st) = self.main[j] {
                    if st.block_type == block && st.count < MAX_STACK_SIZE {
                        let space = MAX_STACK_SIZE - st.count;
                        let to_add = if remaining < space { remaining } else { space };
                        self.main[j] = Some(ItemStack { block_type: st.block_type, count: st.count + to_add });
                        remaining -= to_add;
                    }
                }
                proof {
                    assert(all_slots(*self) == before.update(9 + j, self.main@[j as int]));
                }
                j += 1;
            }
        }
        let ghost merged = all_slots(*self);
        let ghost a1 = remaining as nat;
        proof {
            let k = if remaining > 0 { 36 } else if j > 0 { 9 + j } else { i as int };
            assert((merged, a1) == merge_prefix(orig, block, a0, k));
            if remaining == 0 {
                lemma_merge_done(orig, block, a0, k, 36);
            }
            assert((merged, a1) == merge_prefix(orig, block, a0, 36));
            lemma_fill_len(merged, block, a1, 36);
        }
        // 3. Place into the first empty hotbar slots.
        let mut i: usize = 0;
        while i < HOTBAR_SLOTS && remaining > 0
            invariant
                i <= 9,
                merged.len() == 36,
                (all_slots(*self), remaining as nat) == fill_prefix(merged, block, a1, i as int),
                self.selected_slot == old(self).selected_slot,
                self.is_open == old(self).is_open,
            decreases 9 - i,
        {
            let ghost before = all_slots(*self);
            if self.hotbar[i].is_none() {
                let to_add = if remaining < MAX_STACK_SIZE { remaining } else { MAX_STACK_SIZE };
                self.hotbar[i] = Some(ItemStack::new(block, to_add));
                remaining -= to_add;
            }
            proof {
                assert(all_slots(*self) == before.update(i as int, self.hotbar@[i as int]));
            }
            i += 1;
        }
        // 4. Place into the first empty main-inventory slots.
        let mut j: usize = 0;
        if remaining > 0 {
            while j < MAIN_INVENTORY_SLOTS && remaining > 0
                invariant
                    j <= 27,
                    i == 9,
                    merged.len() == 36,
                    (all_slots(*self), remaining as nat) == fill_prefix(merged, block, a1, 9 + j),
                    self.selected_slot == old(self).selected_slot,
                    self.is_open == old(self).is_open,
                decreases 27 - j,
            {
                let ghost before = all_slots(*self);
                if self.main[j].is_none() {
                    let to_add = if remaining < MAX_STACK_SIZE { remaining } else { MAX_STACK_SIZE };
                    self.main[j] = Some(ItemStack::new(block, to_add));
                    remaining -= to_add;
                }
                proof {
                    assert(all_slots(*self) == before.update(9 + j, self.main@[j as int]));
                }
                j += 1;
            }
        }
        proof {
            let k = if remaining > 0 { 36 } else if j > 0 { 9 + j } else { i as int };
            assert((all_slots(*self), remaining as nat) == fill_prefix(merged, block, a1, k));
            if remaining == 0 {
                lemma_fill_done(merged, block, a1, k, 36);
            }
        }
        remaining
    }
}

/// The number of blocks of a kind that one slot holds.
pub open spec fn slot_count(slot: Option<ItemStack>, block: BlockType) -> nat {
    match slot {
        Some(st) => if st.block_type == block { st.count as nat } else { 0 },
        None => 0,
    }
}

proof fn lemma_total_update(s: Seq<Option<ItemStack>>, i: int, x: Option<ItemStack>, b: BlockType)
    requires
        0 <= i < s.len(),
    ensures
        total_of(s.update(i, x), b) + slot_count(s[i], b) == total_of(s, b) + slot_count(x, b),
    decreases s.len(),
{
    let t = s.update(i, x);
    if i == s.len() - 1 {
        assert(t.drop_last() == s.drop_last());
    } else {
        lemma_total_update(s.drop_last(), i, x, b);
        assert(t.drop_last() == s.drop_last().update(i, x));
    }
}

proof fn lemma_merge_conserves(slots: Seq<Option<ItemStack>>, block: BlockType, a: nat, n: int, b: BlockType)
    requires
        0 <= n <= slots.len(),
    ensures
        merge_prefix(slots, block, a, n).0.len() == slots.len(),
        b == block ==> total_of(merge_prefix(slots, block, a, n).0, b) + merge_prefix(slots, block, a, n).1
            == total_of(slots, b) + a,
        b != block ==> total_of(merge_prefix(slots, block, a, n).0, b) == total_of(slots, b),
    decreases n,
{
    if n > 0 {
        lemma_merge_conserves(slots, block, a, n - 1, b);
        let (s0, r0) = merge_prefix(slots, block, a, n - 1);
        let (slot, r1) = merge_one(s0[n - 1], block, r0);
        lemma_total_update(s0, n - 1, slot, b);
    }
}

proof fn lemma_fill_conserves(slots: Seq<Option<ItemStack>>, block: BlockType, a: nat, n: int, b: BlockType)
    requires
        0 <= n <= slots.len(),
    ensures
        fill_prefix(slots, block, a, n).0.len() == slots.len(),
        b == block ==> total_of(fill_prefix(slots, block, a, n).0, b) + fill_prefix(slots, block, a, n).1
            == total_of(slots, b) + a,
        b != block ==> total_of(fill_prefix(slots, block, a, n).0, b) == total_of(slots, b),
    decreases n,
{
    if n > 0 {
        lemma_fill_conserves(slots, block, a, n - 1, b);
        let (s0, r0) = fill_prefix(slots, block, a, n - 1);
        let (slot, r1) = fill_one(s0[n - 1], block, r0);
        lemma_total_update(s0, n - 1, slot, b);
    }
}

proof fn lemma_merge_bounded(slots: Seq<Option<ItemStack>>, block: BlockType, a: nat, n: int)
    requires
        0 <= n <= slots.len(),
        stacks_bounded(slots),
    ensures
        stacks_bounded(merge_prefix(slots, block, a, n).0),
        merge_prefix(slots, block, a, n).1 > 0 ==> forall|k: int| 0 <= k < n ==> !(#[trigger] merge_prefix(slots, block, a, n).0[k] matches Some(st) && st.block_type == block && st.count < 64),
        forall|k: int| 0 <= k < slots.len() ==> (#[trigger] merge_prefix(slots, block, a, n).0[k] is None <==> slots[k] is None),
    decreases n,
{
    if n > 0 {
        lemma_merge_bounded(slots, block, a, n - 1);
        lemma_merge_len(slots, block, a, n - 1);
        lemma_merge_len(slots, block, a, n);
    }
}

proof fn lemma_fill_bounded(slots: Seq<Option<ItemStack>>, block: BlockType, a: nat, n: int)
    requires
        0 <= n <= slots.len(),
        stacks_bounded(slots),
    ensures
        stacks_bounded(fill_prefix(slots, block, a, n).0),
        fill_prefix(slots, block, a, n).1 > 0 ==> forall|k: int| 0 <= k < n ==> #[trigger] fill_prefix(slots, block, a, n).0[k] is Some,
        forall|k: int| 0 <= k < slots.len() && #[trigger] slots[k] is Some ==> fill_prefix(slots, block, a, n).0[k] == slots[k],
        fill_prefix(slots, block, a, n).1 > 0 ==> forall|k: int| 0 <= k < slots.len() && slots[k] is None ==> (#[trigger] fill_prefix(slots, block, a, n).0[k] matches Some(st) ==> st.block_type == block && st.count == 64),
    decreases n,
{
    if n > 0 {
        lemma_fill_bounded(slots, block, a, n - 1);
        lemma_fill_len(slots, block, a, n - 1);
        lemma_fill_len(slots, block, a, n);
    }
}

/// Adding items conserves blocks: what the inventory gains of the added kind plus what is
/// left over equals the amount added, and no other kind changes.
pub proof fn lemma_add_item_conserves(slots: Seq<Option<ItemStack>>, block: BlockType, amount: nat, b: BlockType)
    ensures
        add_item_result(slots, block, amount).0.len() == slots.len(),
        add_item_result(slots, block, amount).1 <= amount,
        b == block ==> total_of(add_item_result(slots, block, amount).0, b) + add_item_result(slots, block, amount).1
            == total_of(slots, b) + amount,
        b != block ==> total_of(add_item_result(slots, block, amount).0, b) == total_of(slots, b),
{
    if !(block == BlockType::Air || amount == 0) {
        let n = slots.len() as int;
        lemma_merge_conserves(slots, block, amount, n, b);
        lemma_merge_len(slots, block, amount, n);
        let (m, a1) = merge_prefix(slots, block, amount, n);
        lemma_fill_conserves(m, block, a1, n, b);
        lemma_fill_len(m, block, a1, n);
    }
}

/// Adding items never makes a stack larger than 64, and something is left over only when
/// every slot is taken and every stack of the added kind is full.
pub proof fn lemma_add_item_capacity(slots: Seq<Option<ItemStack>>, block: BlockType, amount: nat)
    requires
        stacks_bounded(slots),
    ensures
        stacks_bounded(add_item_result(slots, block, amount).0),
        add_item_result(slots, block, amount).1 > 0 && block != BlockType::Air ==> forall|k: int|
            0 <= k < slots.len() ==> (#[trigger] add_item_result(slots, block, amount).0[k] matches Some(st)
                && (st.block_type == block ==> st.count == 64)),
{
    if !(block == BlockType::Air || amount == 0) {
        let n = slots.len() as int;
        lemma_merge_bounded(slots, block, amount, n);
        lemma_merge_len(slots, block, amount, n);
        let (m, a1) = merge_prefix(slots, block, amount, n);
        lemma_fill_bounded(m, block, a1, n);
        lemma_fill_len(m, block, a1, n);
        let (f, a2) = fill_prefix(m, block, a1, n);
        if a2 > 0 {
            lemma_fill_len(m, block, a1, n);
            assert(a1 >= a2);
            assert forall|k: int| 0 <= k < slots.len() implies (#[trigger] add_item_result(slots, block, amount).0[k] matches Some(st)
                && (st.block_type == block ==> st.count == 64)) by {
                assert(f[k] is Some);
                if m[k] is Some {
                    assert(f[k] == m[k]);
                    assert(!(m[k] matches Some(st) && st.block_type == block && st.count < 64));
                }
            }
        }
    }
}

/// A slot of the inventory screen.
#[derive(Clone, Copy, Debug, PartialEq, Eq, Structural)]
pub enum SlotLocation {
    Hotbar(usize),
    Main(usize),
}

/// Which way the mouse wheel turned this frame.
#[derive(Clone, Copy, Debug, PartialEq, Eq, Structural)]
pub enum Scroll {
    Still,
    /// Toward the player: the next hotbar slot.
    Down,
    /// Away from the player: the previous hotbar slot.
    Up,
}

/// The first empty main slot.
pub open spec fn first_empty(main: Seq<Option<ItemStack>>, n: int) -> Option<int>
    decreases n,
{
    if n <= 0 {
        None
    } else {
        match first_empty(main, n - 1) {
            Some(i) => Some(i),
            None => if main[n - 1] is None { Some(n - 1) } else { None },
        }
    }
}

/// The contents of an inventory: hotbar, main slots, selected slot and whether the
/// inventory screen is open.
pub open spec fn inv_state(inv: Inventory) -> (Seq<Option<ItemStack>>, Seq<Option<ItemStack>>, usize, bool) {
    (inv.hotbar@, inv.main@, inv.selected_slot, inv.is_open)
}

/// Clicking a slot of the inventory screen: clicking the selected hotbar slot moves its
/// stack to the first empty main slot (if any), clicking another hotbar slot selects it,
/// and clicking a main slot swaps it with the selected hotbar slot.
pub open spec fn spec_click_slot(inv: Inventory, slot: SlotLocation) -> (Seq<Option<ItemStack>>, Seq<Option<ItemStack>>, usize, bool) {
    match slot {
        SlotLocation::Hotbar(idx) => if inv.selected_slot == idx {
            match inv.hotbar@[idx as int] {
                Some(stack) => match first_empty(inv.main@, 27) {
                    Some(m) => (inv.hotbar@.update(idx as int, None), inv.main@.update(m, Some(stack)), inv.selected_slot, inv.is_open),
                    None => inv_state(inv),
                },
                None => inv_state(inv),
            }
        } else {
            (inv.hotbar@, inv.main@, idx, inv.is_open)
        },
        SlotLocation::Main(idx) => if idx < 27 && inv.selected_slot < 9 {
            (
                inv.hotbar@.update(inv.selected_slot as int, inv.main@[idx as int]),
                inv.main@.update(idx as int, inv.hotbar@[inv.selected_slot as int]),
                inv.selected_slot,
                inv.is_open,
            )
        } else {
            inv_state(inv)
        },
    }
}

/// The lowest number key among those pressed, as a hotbar slot.
pub open spec fn digit_slot(keys: Seq<KeyCode>) -> Option<usize> {
    if keys.contains(KeyCode::Digit1) { Some(0) }
    else if keys.contains(KeyCode::Digit2) { Some(1) }
    else if keys.contains(KeyCode::Digit3) { Some(2) }
    else if keys.contains(KeyCode::Digit4) { Some(3) }
    else if keys.contains(KeyCode::Digit5) { Some(4) }
    else if keys.contains(KeyCode::Digit6) { Some(5) }
    else if keys.contains(KeyCode::Digit7) { Some(6) }
    else if keys.contains(KeyCode::Digit8) { Some(7) }
    else if keys.contains(KeyCode::Digit9) { Some(8) }
    else { None }
}

/// The inventory after this frame's keys and wheel, and the cursor change it calls for
/// (`Some(true)`: capture the cursor, `Some(false)`: free it). Nothing happens while a
/// menu is open. E opens or closes the screen, Escape closes it; with the screen closed a
/// number key selects a hotbar slot and the wheel steps through them.
pub open spec fn spec_handle_input(inv: Inventory, menu_open: bool, keys: Seq<KeyCode>, scroll: Scroll) -> (Inventory, Option<bool>) {
    if menu_open {
        (inv, None)
    } else {
        let (i1, c1) = if keys.contains(KeyCode::KeyE) {
            (Inventory { is_open: !inv.is_open, ..inv }, Some(inv.is_open))
        } else {
            (inv, None)
        };
        let (i2, c2) = if keys.contains(KeyCode::Escape) && i1.is_open {
            (Inventory { is_open: false, ..i1 }, Some(true))
        } else {
            (i1, c1)
        };
        if i2.is_open {
            (i2, c2)
        } else {
            let s1 = match digit_slot(keys) {
                Some(d) => d,
                None => i2.selected_slot,
            };
            let s2 = match scroll {
                Scroll::Down => ((s1 + 1) % 9) as usize,
                Scroll::Up => ((s1 + 8) % 9) as usize,
                Scroll::Still => s1,
            };
            (Inventory { selected_slot: s2, ..i2 }, c2)
        }
    }
}

fn key_pressed(keys: &Vec<KeyCode>, key: KeyCode) -> (r: bool)
    ensures
        r == keys@.contains(key),
{
    let mut i: usize = 0;
    while i < keys.len()
        invariant
            i <= keys@.len(),
            forall|j: int| 0 <= j < i ==> keys@[j] != key,
        decreases keys@.len() - i,
    {
        if keys[i] == key {
            return true;
        }
        i += 1;
    }
    false
}

impl Inventory {
    /// Handles a click on a slot of the inventory screen.
    pub fn click_slot(&mut self, slot: SlotLocation)
        requires
            old(self).selected_slot < 9,
            slot matches SlotLocation::Hotbar(idx) ==> idx < 9,
        ensures
            inv_state(*final(self)) == spec_click_slot(*old(self), slot),
    {
        match slot {
            SlotLocation::Hotbar(idx) => {
                if self.selected_slot == idx {
                    if let Some(stack) = self.hotbar[idx] {
                        let mut m: usize = 0;
                        while m < 27
                            invariant
                                m <= 27,
                                *self == *old(self),
                                first_empty(self.main@, m as int) is None,
                                self.hotbar@[idx as int] == Some(stack),
                                self.selected_slot == idx,
                                slot == SlotLocation::Hotbar(idx),
                                idx < 9,
                            decreases 27 - m,
                        {
                            if self.main[m].is_none() {
                                proof {
                                    assert(first_empty(self.main@, m + 1) == Some(m as int));
                                    lemma_first_empty_stable(self.main@, m + 1, 27);
                                }
                                self.main[m] = Some(stack);
                                self.hotbar[idx] = None;
                                proof {
                                    assert(self.hotbar@ =~= old(self).hotbar@.update(idx as int, None));
                                    assert(self.main@ =~= old(self).main@.update(m as int, Some(stack)));
                                }
                                return;
                            }
                            m += 1;
                        }
                    }
                } else {
                    self.selected_slot = idx;
                }
            },
            SlotLocation::Main(idx) => {
                self.swap_main_with_active_hotbar(idx);
            },
        }
    }

    /// Handles this frame's keys and mouse wheel; returns the cursor change to make, if any.
    pub fn handle_input(&mut self, menu_open: bool, keys: &Vec<KeyCode>, scroll: Scroll) -> (r: Option<bool>)
        requires
            old(self).selected_slot < 9,
        ensures
            (*final(self), r) == spec_handle_input(*old(self), menu_open, keys@, scroll),
            final(self).selected_slot < 9,
    {
        if menu_open {
            return None;
        }
        let mut cursor: Option<bool> = None;
        if key_pressed(keys, KeyCode::KeyE) {
            self.is_open = !self.is_open;
            cursor = Some(!self.is_open);
        }
        if key_pressed(keys, KeyCode::Escape) && self.is_open {
            self.is_open = false;
            cursor = Some(true);
        }
        if !self.is_open {
            if key_pressed(keys, KeyCode::Digit1) {
                self.selected_slot = 0;
            } else if key_pressed(keys, KeyCode::Digit2) {
                self.selected_slot = 1;
            } else if key_pressed(keys, KeyCode::Digit3) {
                self.selected_slot = 2;
            } else if key_pressed(keys, KeyCode::Digit4) {
                self.selected_slot = 3;
            } else if key_pressed(keys, KeyCode::Digit5) {
                self.selected_slot = 4;
            } else if key_pressed(keys, KeyCode::Digit6) {
                self.selected_slot = 5;
            } else if key_pressed(keys, KeyCode::Digit7) {
                self.selected_slot = 6;
            } else if key_pressed(keys, KeyCode::Digit8) {
                self.selected_slot = 7;
            } else if key_pressed(keys, KeyCode::Digit9) {
                self.selected_slot = 8;
            }
            match scroll {
                Scroll::Down => {
                    self.selected_slot = (self.selected_slot + 1) % HOTBAR_SLOTS;
                },
                Scroll::Up => {
                    self.selected_slot = (self.selected_slot + HOTBAR_SLOTS - 1) % HOTBAR_SLOTS;
                },
                Scroll::Still => {},
            }
        }
        cursor
    }
}

proof fn lemma_first_empty_stable(main: Seq<Option<ItemStack>>, k: int, n: int)
    requires
        0 <= k <= n,
        first_empty(main, k) is Some,
    ensures
        first_empty(main, n) == first_empty(main, k),
    decreases n - k,
{
    if n > k {
        lemma_first_empty_stable(main, k, n - 1);
    }
}

} // verus!
