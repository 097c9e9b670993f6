//! Item crafting with durability: item definitions, recipes that burn
//! ingredients and mint an item with pseudo-randomly rolled stats, and
//! player inventories kept dense (slots `0..size`).
use vstd::prelude::*;
use std::collections::HashMap;
use crate::common::Address;

verus! {

broadcast use vstd::std_specs::hash::group_hash_axioms;

pub const MAX_INVENTORY: u32 = 100;
pub const LCG_MUL: u64 = 6364136223846793005;
pub const LCG_INC: u64 = 1442695040888963407;

#[derive(Clone, Copy, Debug, PartialEq, Eq, Structural)]
pub enum Error {
    AlreadyInitialized,
    Paused,
    Unauthorized,
    ItemDefNotFound,
    RecipeNotFound,
    MissingIngredient,
    InventoryFull,
    SlotEmpty,
    ItemBroken,
    NotInitialized,
    EmptyRecipe,
    EmptyName,
}

#[derive(Clone, Copy, Debug, PartialEq, Eq, Structural)]
pub enum ItemCategory {
    Weapon,
    Armour,
    Consumable,
    Accessory,
    Material,
}

/// Blueprint of a class of items.
#[derive(Debug)]
pub struct ItemDef {
    pub id: u32,
    pub name: String,
    pub category: ItemCategory,
    pub max_durability: u32,
    pub base_attack: u32,
    pub base_defence: u32,
    pub base_speed: u32,
    pub base_magic: u32,
    /// Each rolled stat lies in `[base, base + stat_range]`.
    pub stat_range: u32,
}

/// Burns one item of each ingredient definition, produces the output.
#[derive(Debug)]
pub struct Recipe {
    pub id: u32,
    pub ingredients: Vec<u32>,
    pub output_item_def_id: u32,
}

#[derive(Clone, Copy, Debug, PartialEq, Eq, Structural)]
pub struct ItemInstance {
    pub item_def_id: u32,
    pub durability: u32,
    pub attack: u32,
    pub defence: u32,
    pub speed: u32,
    pub magic: u32,
}

// ── Pseudo-random rolls ─────────────────────────────────────────────────────

/// The seed: ledger sequence ^ timestamp ^ address payload ^ (item id << 32)
/// ^ recipe id.
pub open spec fn spec_derive_seed(sequence: u32, timestamp: u64, address: u64, item_def_id: u32, recipe_id: u32) -> u64 {
    (sequence as u64) ^ timestamp ^ address ^ ((item_def_id as u64) << 32u64) ^ (recipe_id as u64)
}

pub fn derive_seed(sequence: u32, timestamp: u64, address: u64, item_def_id: u32, recipe_id: u32) -> (s: u64)
    ensures
        s == spec_derive_seed(sequence, timestamp, address, item_def_id, recipe_id),
{
    (sequence as u64) ^ timestamp ^ address ^ (item_def_id as u64).wrapping_shl(32) ^ (recipe_id as u64)
}

/// One step of Knuth's 64-bit linear congruential generator.
pub open spec fn lcg_next(seed: u64) -> u64 {
    vstd::wrapping::u64_specs::wrapping_add(vstd::wrapping::u64_specs::wrapping_mul(seed, LCG_MUL), LCG_INC)
}

/// The value drawn from an advanced seed: the top 31 bits modulo
/// `range + 1`, or 0 for a zero range.
pub open spec fn roll_value(next_seed: u64, range: u32) -> u32 {
    if range == 0 {
        0
    } else {
        (((next_seed >> 33u64) as u32) % (range + 1) as u32) as u32
    }
}

/// Advance the seed and draw a value in `[0, range]`.
pub fn roll(seed: &mut u64, range: u32) -> (r: u32)
    requires
        range < u32::MAX,
    ensures
        *final(seed) == lcg_next(*old(seed)),
        r == roll_value(*final(seed), range),
        r <= range,
{
    *seed = seed.wrapping_mul(LCG_MUL).wrapping_add(LCG_INC);
    if range == 0 {
        return 0;
    }
    let top = *seed >> 33;
    assert(top < 0x8000_0000) by (bit_vector)
        requires top == *seed >> 33u64;
    ((top as u32) % (range + 1))
}

/// The stats of an item of definition `def` rolled from `seed`: attack,
/// defence, speed and magic in that order, each from the next seed.
pub open spec fn rolled_item(def: &ItemDef, seed: u64) -> ItemInstance {
    let s1 = lcg_next(seed);
    let s2 = lcg_next(s1);
    let s3 = lcg_next(s2);
    let s4 = lcg_next(s3);
    ItemInstance {
        item_def_id: def.id,
        durability: def.max_durability,
        attack: (def.base_attack + roll_value(s1, def.stat_range)) as u32,
        defence: (def.base_defence + roll_value(s2, def.stat_range)) as u32,
        speed: (def.base_speed + roll_value(s3, def.stat_range)) as u32,
        magic: (def.base_magic + roll_value(s4, def.stat_range)) as u32,
    }
}

/// Rolling stats neither overflows a stat nor the range.
pub open spec fn stats_fit(def: &ItemDef) -> bool {
    &&& def.stat_range < u32::MAX
    &&& def.base_attack + def.stat_range <= u32::MAX
    &&& def.base_defence + def.stat_range <= u32::MAX
    &&& def.base_speed + def.stat_range <= u32::MAX
    &&& def.base_magic + def.stat_range <= u32::MAX
}

fn roll_item(def: &ItemDef, seed: u64) -> (item: ItemInstance)
    requires
        stats_fit(def),
    ensures
        item == rolled_item(def, seed),
{
    let mut s = seed;
    let attack = def.base_attack + roll(&mut s, def.stat_range);
    let defence = def.base_defence + roll(&mut s, def.stat_range);
    let speed = def.base_speed + roll(&mut s, def.stat_range);
    let magic = def.base_magic + roll(&mut s, def.stat_range);
    ItemInstance { item_def_id: def.id, durability: def.max_durability, attack, defence, speed, magic }
}

// ── Ingredient consumption ──────────────────────────────────────────────────

/// `j` is the first slot holding an item of definition `d`.
pub open spec fn is_first_of(inv: Seq<ItemInstance>, d: u32, j: int) -> bool {
    &&& 0 <= j < inv.len()
    &&& inv[j].item_def_id == d
    &&& forall|k: int| 0 <= k < j ==> inv[k].item_def_id != d
}

pub open spec fn has_def(inv: Seq<ItemInstance>, d: u32) -> bool {
    exists|j: int| 0 <= j < inv.len() && inv[j].item_def_id == d
}

pub open spec fn first_of(inv: Seq<ItemInstance>, d: u32) -> int {
    choose|j: int| is_first_of(inv, d, j)
}

proof fn lemma_first_of(inv: Seq<ItemInstance>, d: u32, j: int)
    requires
        is_first_of(inv, d, j),
    ensures
        first_of(inv, d) == j,
{
    let c = first_of(inv, d);
    assert(is_first_of(inv, d, c));
    if c < j {
        assert(inv[c].item_def_id != d);
    } else if j < c {
        assert(inv[j].item_def_id != d);
    }
}

/// The inventory after burning, for each ingredient in order, the first
/// remaining item of that definition; `None` when one is missing.
pub open spec fn consume(inv: Seq<ItemInstance>, ingredients: Seq<u32>) -> Option<Seq<ItemInstance>>
    decreases ingredients.len(),
{
    if ingredients.len() == 0 {
        Some(inv)
    } else if !has_def(inv, ingredients[0]) {
        None
    } else {
        consume(inv.remove(first_of(inv, ingredients[0])), ingredients.drop_first())
    }
}

proof fn lemma_consume_len(inv: Seq<ItemInstance>, ingredients: Seq<u32>)
    requires
        consume(inv, ingredients) is Some,
    ensures
        consume(inv, ingredients).unwrap().len() + ingredients.len() == inv.len(),
    decreases ingredients.len(),
{
    if ingredients.len() > 0 {
        let j = first_of(inv, ingredients[0]);
        let w = choose|w: int| 0 <= w < inv.len() && inv[w].item_def_id == ingredients[0];
        assert(exists|j: int| is_first_of(inv, ingredients[0], j)) by {
            lemma_first_exists(inv, ingredients[0], w);
        }
        lemma_consume_len(inv.remove(j), ingredients.drop_first());
    }
}

proof fn lemma_first_exists(inv: Seq<ItemInstance>, d: u32, w: int)
    requires
        0 <= w < inv.len(),
        inv[w].item_def_id == d,
    ensures
        exists|j: int| is_first_of(inv, d, j),
    decreases w,
{
    if exists|k: int| 0 <= k < w && inv[k].item_def_id == d {
        let k = choose|k: int| 0 <= k < w && inv[k].item_def_id == d;
        lemma_first_exists(inv, d, k);
    } else {
        assert(is_first_of(inv, d, w));
    }
}

fn copy_items(v: &Vec<ItemInstance>) -> (c: Vec<ItemInstance>)
    ensures
        c@ == v@,
{
    let mut c: Vec<ItemInstance> = Vec::new();
    let mut i: usize = 0;
    while i < v.len()
        invariant
            0 <= i <= v@.len(),
            c@ == v@.subrange(0, i as int),
        decreases v@.len() - i,
    {
        c.push(v[i]);
        i = i + 1;
    }
    assert(v@.subrange(0, v@.len() as int) == v@);
    c
}

fn consume_ingredients(inv: &mut Vec<ItemInstance>, ingredients: &Vec<u32>) -> (ok: bool)
    ensures
        ok == (consume(old(inv)@, ingredients@) is Some),
        ok ==> final(inv)@ == consume(old(inv)@, ingredients@).unwrap(),
{
    let mut i: usize = 0;
    assert(ingredients@.skip(0) == ingredients@);
    while i < ingredients.len()
        invariant
            0 <= i <= ingredients@.len(),
            consume(old(inv)@, ingredients@) == consume(inv@, ingredients@.skip(i as int)),
        decreases ingredients@.len() - i,
    {
        let needed = ingredients[i];
        let ghost cur = inv@;
        assert(ingredients@.skip(i as int)[0] == needed);
        assert(ingredients@.skip(i as int).drop_first() == ingredients@.skip(i + 1));
        let mut j: usize = 0;
        let mut found = false;
        while j < inv.len()
            invariant_except_break
                !found,
            invariant
                inv@ == cur,
                0 <= j <= inv@.len(),
                forall|k: int| 0 <= k < j ==> inv@[k].item_def_id != needed,
            ensures
                found ==> j < inv@.len() && inv@[j as int].item_def_id == needed,
                !found ==> j == inv@.len(),
            decreases inv@.len() - j,
        {
            if inv[j].item_def_id == needed {
                found = true;
                break;
            }
            j = j + 1;
        }
        if !found {
            proof {
                assert(!has_def(cur, needed));
            }
            return false;
        }
        proof {
            assert(is_first_of(cur, needed, j as int));
            lemma_first_of(cur, needed, j as int);
        }
        inv.remove(j);
        i = i + 1;
    }
    proof {
        assert(ingredients@.skip(i as int).len() == 0);
    }
    true
}

// ── Contract ────────────────────────────────────────────────────────────────

/// The persistent storage of the crafting contract.
pub struct GamingCrafting {
    pub admin: Option<Address>,
    pub paused: bool,
    /// Definition `id` is stored at index `id`.
    pub item_defs: Vec<ItemDef>,
    /// Recipe `id` is stored at index `id`.
    pub recipes: Vec<Recipe>,
    pub inventories: HashMap<Address, Vec<ItemInstance>>,
}

impl GamingCrafting {
    pub open spec fn wf(&self) -> bool {
        &&& self.item_defs@.len() <= u32::MAX
        &&& self.recipes@.len() <= u32::MAX
        &&& forall|i: int| 0 <= i < self.item_defs@.len() ==> #[trigger] self.item_defs@[i].id == i
        &&& forall|i: int| 0 <= i < self.recipes@.len() ==> #[trigger] self.recipes@[i].id == i
        &&& forall|p: Address| #[trigger] self.inventories@.contains_key(p) ==> self.inventories@[p]@.len() <= MAX_INVENTORY
    }

    pub open spec fn initialized(&self) -> bool {
        self.admin is Some
    }

    /// A player's items in slot order.
    pub open spec fn inventory(&self, p: Address) -> Seq<ItemInstance> {
        if self.inventories@.contains_key(p) {
            self.inventories@[p]@
        } else {
            Seq::empty()
        }
    }

    /// The storage apart from the inventories is unchanged.
    pub open spec fn same_catalogue(&self, other: &Self) -> bool {
        &&& self.admin == other.admin
        &&& self.paused == other.paused
        &&& self.item_defs@ == other.item_defs@
        &&& self.recipes@ == other.recipes@
    }

    /// Inventories are unchanged except possibly the player's.
    pub open spec fn others_unchanged(&self, other: &Self, p: Address) -> bool {
        forall|q: Address| q != p ==> #[trigger] self.inventory(q) == other.inventory(q)
    }

    /// Empty storage.
    pub fn new() -> (s: Self)
        ensures
            s.wf(),
            !s.initialized(),
            !s.paused,
            s.item_defs@.len() == 0,
            s.recipes@.len() == 0,
            forall|p: Address| s.inventory(p).len() == 0,
    {
        GamingCrafting { admin: None, paused: false, item_defs: Vec::new(), recipes: Vec::new(), inventories: HashMap::new() }
    }

    fn take_inventory(&mut self, p: Address) -> (inv: Vec<ItemInstance>)
        requires
            old(self).wf(),
        ensures
            inv@ == old(self).inventory(p),
            inv@.len() <= MAX_INVENTORY,
            final(self).same_catalogue(old(self)),
            final(self).others_unchanged(old(self), p),
            final(self).wf(),
    {
        match self.inventories.remove(&p) {
            Some(v) => v,
            None => Vec::new(),
        }
    }

    fn put_inventory(&mut self, p: Address, inv: Vec<ItemInstance>)
        requires
            old(self).wf(),
            inv@.len() <= MAX_INVENTORY,
        ensures
            final(self).inventory(p) == inv@,
            final(self).same_catalogue(old(self)),
            final(self).others_unchanged(old(self), p),
            final(self).wf(),
    {
        self.inventories.insert(p, inv);
    }

    fn check_admin(&self, caller: Address) -> (r: Result<(), Error>)
        requires
            self.initialized(),
        ensures
            self.admin == Some(caller) <==> r is Ok,
            r is Err ==> r == Err::<(), Error>(Error::Unauthorized),
    {
        match self.admin {
            Some(a) => if a != caller {
                Err(Error::Unauthorized)
            } else {
                Ok(())
            },
            None => Err(Error::Unauthorized),
        }
    }

    /// Set the admin once.
    pub fn initialize(&mut self, admin: Address) -> (r: Result<(), Error>)
        ensures
            old(self).initialized() ==> r == Err::<(), Error>(Error::AlreadyInitialized) && *final(self) == *old(self),
            !old(self).initialized() ==> r is Ok && *final(self) == (GamingCrafting { admin: Some(admin), ..*old(self) }),
    {
        if self.admin.is_some() {
            return Err(Error::AlreadyInitialized);
        }
        self.admin = Some(admin);
        Ok(())
    }

    /// The admin pauses or resumes.
    pub fn set_paused(&mut self, admin: Address, paused: bool) -> (r: Result<(), Error>)
        ensures
            !old(self).initialized() ==> r == Err::<(), Error>(Error::NotInitialized) && *final(self) == *old(self),
            old(self).initialized() && old(self).admin != Some(admin) ==> r == Err::<(), Error>(Error::Unauthorized)
                && *final(self) == *old(self),
            old(self).admin == Some(admin) ==> r is Ok && *final(self) == (GamingCrafting { paused, ..*old(self) }),
    {
        if self.admin.is_none() {
            return Err(Error::NotInitialized);
        }
        self.check_admin(admin)?;
        self.paused = paused;
        Ok(())
    }

    /// Why an admin action fails, if it does: not initialised, paused, or
    /// not the admin.
    pub open spec fn admin_action_error(&self, admin: Address) -> Option<Error> {
        if !self.initialized() {
            Some(Error::NotInitialized)
        } else if self.paused {
            Some(Error::Paused)
        } else if self.admin != Some(admin) {
            Some(Error::Unauthorized)
        } else {
            None
        }
    }

    /// The admin registers an item definition; returns its id.
    pub fn add_item_def(
        &mut self,
        admin: Address,
        name: String,
        category: ItemCategory,
        max_durability: u32,
        base_attack: u32,
        base_defence: u32,
        base_speed: u32,
        base_magic: u32,
        stat_range: u32,
    ) -> (r: Result<u32, Error>)
        requires
            old(self).wf(),
            old(self).admin_action_error(admin) is None ==> old(self).item_defs@.len() < u32::MAX,
        ensures
            final(self).wf(),
            match old(self).admin_action_error(admin) {
                Some(e) => r == Err::<u32, Error>(e) && *final(self) == *old(self),
                None => {
                    let id = old(self).item_defs@.len() as u32;
                    let d = final(self).item_defs@.last();
                    &&& r == Ok::<u32, Error>(id)
                    &&& final(self).item_defs@.len() == id + 1
                    &&& final(self).item_defs@.drop_last() == old(self).item_defs@
                    &&& d.id == id && d.name@ == name@ && d.category == category && d.max_durability == max_durability
                    &&& d.base_attack == base_attack && d.base_defence == base_defence && d.base_speed == base_speed
                    &&& d.base_magic == base_magic && d.stat_range == stat_range
                    &&& final(self).recipes@ == old(self).recipes@
                    &&& final(self).inventories@ == old(self).inventories@
                    &&& final(self).admin == old(self).admin
                    &&& final(self).paused == old(self).paused
                },
            },
    {
        if self.admin.is_none() {
            return Err(Error::NotInitialized);
        }
        if self.paused {
            return Err(Error::Paused);
        }
        self.check_admin(admin)?;
        let id = self.item_defs.len() as u32;
        self.item_defs.push(ItemDef {
            id,
            name,
            category,
            max_durability,
            base_attack,
            base_defence,
            base_speed,
            base_magic,
            stat_range,
        });
        proof {
            assert(self.item_defs@.drop_last() == old(self).item_defs@);
            assert forall|i: int| 0 <= i < self.item_defs@.len() implies #[trigger] self.item_defs@[i].id == i by {
                if i < old(self).item_defs@.len() {
                    assert(self.item_defs@[i] == old(self).item_defs@[i]);
                }
            }
        }
        Ok(id)
    }

    pub fn get_item_def(&self, item_def_id: u32) -> (r: Result<&ItemDef, Error>)
        ensures
            item_def_id < self.item_defs@.len() ==> r is Ok && *r->Ok_0 == self.item_defs@[item_def_id as int],
            item_def_id >= self.item_defs@.len() ==> r is Err && r->Err_0 == Error::ItemDefNotFound,
    {
        if (item_def_id as usize) < self.item_defs.len() {
            Ok(&self.item_defs[item_def_id as usize])
        } else {
            Err(Error::ItemDefNotFound)
        }
    }

    pub fn item_def_count(&self) -> (n: u32)
        requires
            self.wf(),
        ensures
            n == self.item_defs@.len(),
    {
        self.item_defs.len() as u32
    }

    /// Why `add_recipe` fails, if it does.
    pub open spec fn add_recipe_error(&self, admin: Address, ingredients: Seq<u32>, output_item_def_id: u32) -> Option<Error> {
        match self.admin_action_error(admin) {
            Some(e) => Some(e),
            None => if ingredients.len() == 0 {
                Some(Error::EmptyRecipe)
            } else if output_item_def_id >= self.item_defs@.len() || exists|i: int|
                0 <= i < ingredients.len() && ingredients[i] >= self.item_defs@.len() {
                Some(Error::ItemDefNotFound)
            } else {
                None
            },
        }
    }

    /// The admin registers a recipe whose ingredients and output are known
    /// definitions; returns its id.
    pub fn add_recipe(&mut self, admin: Address, ingredients: Vec<u32>, output_item_def_id: u32) -> (r: Result<u32, Error>)
        requires
            old(self).wf(),
            old(self).add_recipe_error(admin, ingredients@, output_item_def_id) is None ==> old(self).recipes@.len() < u32::MAX,
        ensures
            final(self).wf(),
            match old(self).add_recipe_error(admin, ingredients@, output_item_def_id) {
                Some(e) => r == Err::<u32, Error>(e) && *final(self) == *old(self),
                None => {
                    let id = old(self).recipes@.len() as u32;
                    let rc = final(self).recipes@.last();
                    &&& r == Ok::<u32, Error>(id)
                    &&& final(self).recipes@.len() == id + 1
                    &&& final(self).recipes@.drop_last() == old(self).recipes@
                    &&& rc.id == id && rc.ingredients@ == ingredients@ && rc.output_item_def_id == output_item_def_id
                    &&& final(self).item_defs@ == old(self).item_defs@
                    &&& final(self).inventories@ == old(self).inventories@
                    &&& final(self).admin == old(self).admin
                    &&& final(self).paused == old(self).paused
                },
            },
    {
        if self.admin.is_none() {
            return Err(Error::NotInitialized);
        }
        if self.paused {
            return Err(Error::Paused);
        }
        self.check_admin(admin)?;
        if ingredients.len() == 0 {
            return Err(Error::EmptyRecipe);
        }
        if output_item_def_id as usize >= self.item_defs.len() {
            return Err(Error::ItemDefNotFound);
        }
        let n_defs = self.item_defs.len();
        let mut i: usize = 0;
        let mut all_known = true;
        while i < ingredients.len()
            invariant_except_break
                all_known,
            invariant
                0 <= i <= ingredients@.len(),
                forall|k: int| 0 <= k < i ==> ingredients@[k] < n_defs,
            ensures
                all_known ==> forall|k: int| 0 <= k < ingredients@.len() ==> ingredients@[k] < n_defs,
                !all_known ==> i < ingredients@.len() && ingredients@[i as int] >= n_defs,
            decreases ingredients@.len() - i,
        {
            if ingredients[i] as usize >= n_defs {
                all_known = false;
                break;
            }
            i = i + 1;
        }
        if !all_known {
            return Err(Error::ItemDefNotFound);
        }
        let id = self.recipes.len() as u32;
        self.recipes.push(Recipe { id, ingredients, output_item_def_id });
        proof {
            assert(self.recipes@.drop_last() == old(self).recipes@);
            assert forall|i: int| 0 <= i < self.recipes@.len() implies #[trigger] self.recipes@[i].id == i by {
                if i < old(self).recipes@.len() {
                    assert(self.recipes@[i] == old(self).recipes@[i]);
                }
            }
        }
        Ok(id)
    }

    pub fn get_recipe(&self, recipe_id: u32) -> (r: Result<&Recipe, Error>)
        ensures
            recipe_id < self.recipes@.len() ==> r is Ok && *r->Ok_0 == self.recipes@[recipe_id as int],
            recipe_id >= self.recipes@.len() ==> r is Err && r->Err_0 == Error::RecipeNotFound,
    {
        if (recipe_id as usize) < self.recipes.len() {
            Ok(&self.recipes[recipe_id as usize])
        } else {
            Err(Error::RecipeNotFound)
        }
    }

    pub fn recipe_count(&self) -> (n: u32)
        requires
            self.wf(),
        ensures
            n == self.recipes@.len(),
    {
        self.recipes.len() as u32
    }

    /// Why `craft` fails, if it does.
    pub open spec fn craft_error(&self, player: Address, recipe_id: u32) -> Option<Error> {
        if !self.initialized() {
            Some(Error::NotInitialized)
        } else if self.paused {
            Some(Error::Paused)
        } else if recipe_id >= self.recipes@.len() {
            Some(Error::RecipeNotFound)
        } else if self.recipes@[recipe_id as int].output_item_def_id >= self.item_defs@.len() {
            Some(Error::ItemDefNotFound)
        } else if self.inventory(player).len() >= MAX_INVENTORY {
            Some(Error::InventoryFull)
        } else if consume(self.inventory(player), self.recipes@[recipe_id as int].ingredients@) is None {
            Some(Error::MissingIngredient)
        } else {
            None
        }
    }

    /// Craft with a recipe: burn, for each ingredient in order, the first
    /// matching item in the player's inventory, keep the rest in order, and
    /// append the output item with stats rolled from the seed of the ledger
    /// `sequence` and `timestamp`.  Returns the new item's slot.
    pub fn craft(&mut self, sequence: u32, timestamp: u64, player: Address, recipe_id: u32) -> (r: Result<u32, Error>)
        requires
            old(self).wf(),
            old(self).craft_error(player, recipe_id) is None ==> stats_fit(
                &old(self).item_defs@[old(self).recipes@[recipe_id as int].output_item_def_id as int],
            ),
        ensures
            final(self).wf(),
            match old(self).craft_error(player, recipe_id) {
                Some(e) => r == Err::<u32, Error>(e) && final(self).same_catalogue(old(self))
                    && forall|q: Address| #[trigger] final(self).inventory(q) == old(self).inventory(q),
                None => {
                    let rc = old(self).recipes@[recipe_id as int];
                    let def = old(self).item_defs@[rc.output_item_def_id as int];
                    let rest = consume(old(self).inventory(player), rc.ingredients@).unwrap();
                    let seed = spec_derive_seed(sequence, timestamp, player, def.id, recipe_id);
                    &&& r == Ok::<u32, Error>(rest.len() as u32)
                    &&& final(self).inventory(player) == rest.push(rolled_item(&def, seed))
                    &&& final(self).same_catalogue(old(self))
                    &&& final(self).others_unchanged(old(self), player)
                },
            },
    {
        if self.admin.is_none() {
            return Err(Error::NotInitialized);
        }
        if self.paused {
            return Err(Error::Paused);
        }
        if recipe_id as usize >= self.recipes.len() {
            return Err(Error::RecipeNotFound);
        }
        let out_id = self.recipes[recipe_id as usize].output_item_def_id;
        if out_id as usize >= self.item_defs.len() {
            return Err(Error::ItemDefNotFound);
        }
        let mut inv = self.take_inventory(player);
        if inv.len() >= MAX_INVENTORY as usize {
            self.put_inventory(player, inv);
            return Err(Error::InventoryFull);
        }
        let mut work = copy_items(&inv);
        let ok = consume_ingredients(&mut work, &self.recipes[recipe_id as usize].ingredients);
        if !ok {
            self.put_inventory(player, inv);
            return Err(Error::MissingIngredient);
        }
        proof {
            lemma_consume_len(inv@, self.recipes@[recipe_id as int].ingredients@);
        }
        let mut inv = work;
        let seed = derive_seed(sequence, timestamp, player, self.item_defs[out_id as usize].id, recipe_id);
        let crafted = roll_item(&self.item_defs[out_id as usize], seed);
        let slot = inv.len() as u32;
        inv.push(crafted);
        self.put_inventory(player, inv);
        Ok(slot)
    }

    /// Why `use_item` fails, if it does.
    pub open spec fn use_item_error(&self, player: Address, slot: u32) -> Option<Error> {
        if !self.initialized() {
            Some(Error::NotInitialized)
        } else if self.paused {
            Some(Error::Paused)
        } else if slot >= self.inventory(player).len() {
            Some(Error::SlotEmpty)
        } else if self.inventory(player)[slot as int].durability == 0 {
            Some(Error::ItemBroken)
        } else {
            None
        }
    }

    /// Durability left after `uses` uses (at least one).
    pub open spec fn remaining_durability(durability: u32, uses: u32) -> int {
        let n = if uses >= 1 {
            uses as int
        } else {
            1
        };
        if durability > n {
            durability - n
        } else {
            0
        }
    }

    /// Use the item in `slot`, costing `max(uses, 1)` durability; an item
    /// worn down to zero is destroyed and the later slots move down by one.
    /// Returns the remaining durability.
    pub fn use_item(&mut self, player: Address, slot: u32, uses: u32) -> (r: Result<u32, Error>)
        requires
            old(self).wf(),
        ensures
            final(self).wf(),
            final(self).same_catalogue(old(self)),
            match old(self).use_item_error(player, slot) {
                Some(e) => r == Err::<u32, Error>(e) && forall|q: Address| #[trigger] final(self).inventory(q) == old(self).inventory(q),
                None => {
                    let inv = old(self).inventory(player);
                    let item = inv[slot as int];
                    let rem = Self::remaining_durability(item.durability, uses);
                    &&& r == Ok::<u32, Error>(rem as u32)
                    &&& final(self).inventory(player) == if rem == 0 {
                        inv.remove(slot as int)
                    } else {
                        inv.update(slot as int, ItemInstance { durability: rem as u32, ..item })
                    }
                    &&& final(self).others_unchanged(old(self), player)
                },
            },
    {
        if self.admin.is_none() {
            return Err(Error::NotInitialized);
        }
        if self.paused {
            return Err(Error::Paused);
        }
        let mut inv = self.take_inventory(player);
        if slot as usize >= inv.len() {
            self.put_inventory(player, inv);
            return Err(Error::SlotEmpty);
        }
        let mut item = inv[slot as usize];
        if item.durability == 0 {
            self.put_inventory(player, inv);
            return Err(Error::ItemBroken);
        }
        let actual_uses = if uses >= 1 {
            uses
        } else {
            1
        };
        let remaining = if item.durability > actual_uses {
            item.durability - actual_uses
        } else {
            0
        };
        if remaining == 0 {
            inv.remove(slot as usize);
            self.put_inventory(player, inv);
            return Ok(0);
        }
        item.durability = remaining;
        inv.set(slot as usize, item);
        self.put_inventory(player, inv);
        Ok(remaining)
    }

    pub fn inventory_size(&self, player: Address) -> (n: u32)
        requires
            self.wf(),
        ensures
            n == self.inventory(player).len(),
    {
        match self.inventories.get(&player) {
            Some(v) => v.len() as u32,
            None => 0,
        }
    }

    pub fn get_item(&self, player: Address, slot: u32) -> (r: Result<ItemInstance, Error>)
        ensures
            slot < self.inventory(player).len() ==> r == Ok::<ItemInstance, Error>(self.inventory(player)[slot as int]),
            slot >= self.inventory(player).len() ==> r == Err::<ItemInstance, Error>(Error::SlotEmpty),
    {
        match self.inventories.get(&player) {
            Some(v) => if (slot as usize) < v.len() {
                Ok(v[slot as usize])
            } else {
                Err(Error::SlotEmpty)
            },
            None => Err(Error::SlotEmpty),
        }
    }

    /// Why `grant_item` fails, if it does.
    pub open spec fn grant_item_error(&self, admin: Address, player: Address, item_def_id: u32) -> Option<Error> {
        match self.admin_action_error(admin) {
            Some(e) => Some(e),
            None => if item_def_id >= self.item_defs@.len() {
                Some(Error::ItemDefNotFound)
            } else if self.inventory(player).len() >= MAX_INVENTORY {
                Some(Error::InventoryFull)
            } else {
                None
            },
        }
    }

    /// The admin gives a player a freshly rolled item (the seed uses
    /// `u32::MAX` as recipe id); returns its slot.
    pub fn grant_item(&mut self, sequence: u32, timestamp: u64, admin: Address, player: Address, item_def_id: u32) -> (r: Result<u32, Error>)
        requires
            old(self).wf(),
            old(self).grant_item_error(admin, player, item_def_id) is None ==> stats_fit(&old(self).item_defs@[item_def_id as int]),
        ensures
            final(self).wf(),
            final(self).same_catalogue(old(self)),
            match old(self).grant_item_error(admin, player, item_def_id) {
                Some(e) => r == Err::<u32, Error>(e) && forall|q: Address| #[trigger] final(self).inventory(q) == old(self).inventory(q),
                None => {
                    let def = old(self).item_defs@[item_def_id as int];
                    let seed = spec_derive_seed(sequence, timestamp, player, def.id, u32::MAX);
                    &&& r == Ok::<u32, Error>(old(self).inventory(player).len() as u32)
                    &&& final(self).inventory(player) == old(self).inventory(player).push(rolled_item(&def, seed))
                    &&& final(self).others_unchanged(old(self), player)
                },
            },
    {
        if self.admin.is_none() {
            return Err(Error::NotInitialized);
        }
        if self.paused {
            return Err(Error::Paused);
        }
        self.check_admin(admin)?;
        if item_def_id as usize >= self.item_defs.len() {
            return Err(Error::ItemDefNotFound);
        }
        let mut inv = self.take_inventory(player);
        if inv.len() >= MAX_INVENTORY as usize {
            self.put_inventory(player, inv);
            return Err(Error::InventoryFull);
        }
        let seed = derive_seed(sequence, timestamp, player, self.item_defs[item_def_id as usize].id, u32::MAX);
        let item = roll_item(&self.item_defs[item_def_id as usize], seed);
        let slot = inv.len() as u32;
        inv.push(item);
        self.put_inventory(player, inv);
        Ok(slot)
    }
}

} // verus!
