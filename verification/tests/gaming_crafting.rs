use soroban_playground::gaming_crafting::{derive_seed, roll, Error, GamingCrafting, ItemCategory, LCG_INC};

const ADMIN: u64 = 1;
const PLAYER: u64 = 5;

#[test]
fn roll_advances_the_generator_and_stays_in_range() {
    let mut seed = 0u64;
    let r = roll(&mut seed, 9);
    assert_eq!(seed, LCG_INC);
    assert_eq!(r, 7);
    let mut seed = 42u64;
    assert_eq!(roll(&mut seed, 100), 100);
    assert_eq!(seed, 10_481_999_410_520_546_993);
    let mut seed = 42u64;
    assert_eq!(roll(&mut seed, 0), 0);
    assert_eq!(seed, 10_481_999_410_520_546_993);
}

#[test]
fn seed_mixes_ledger_player_and_ids() {
    assert_eq!(derive_seed(7, 1000, 5, 3, 2), 12_884_902_888);
    assert_eq!(derive_seed(0, 0, 0, 0, 0), 0);
}

fn world() -> (GamingCrafting, u32, u32) {
    let mut g = GamingCrafting::new();
    g.initialize(ADMIN).unwrap();
    let ore = g.add_item_def(ADMIN, "Ore".to_string(), ItemCategory::Material, 1, 0, 0, 0, 0, 0).unwrap();
    let sword = g.add_item_def(ADMIN, "Sword".to_string(), ItemCategory::Weapon, 10, 5, 1, 2, 0, 3).unwrap();
    (g, ore, sword)
}

#[test]
fn crafting_burns_ingredients_and_rolls_the_output() {
    let (mut g, ore, sword) = world();
    let recipe = g.add_recipe(ADMIN, vec![ore, ore], sword).unwrap();
    g.grant_item(1, 100, ADMIN, PLAYER, ore).unwrap();
    assert_eq!(g.craft(1, 100, PLAYER, recipe), Err(Error::MissingIngredient));
    g.grant_item(2, 100, ADMIN, PLAYER, ore).unwrap();
    assert_eq!(g.inventory_size(PLAYER), 2);
    let slot = g.craft(3, 100, PLAYER, recipe).unwrap();
    assert_eq!(slot, 0);
    assert_eq!(g.inventory_size(PLAYER), 1);
    let item = g.get_item(PLAYER, slot).unwrap();
    assert_eq!(item.item_def_id, sword);
    assert_eq!(item.durability, 10);
    assert!((5..=8).contains(&item.attack));
    assert!((1..=4).contains(&item.defence));
    assert!((2..=5).contains(&item.speed));
    assert!(item.magic <= 3);
}

#[test]
fn using_an_item_wears_it_out() {
    let (mut g, _, sword) = world();
    let slot = g.grant_item(1, 100, ADMIN, PLAYER, sword).unwrap();
    assert_eq!(g.use_item(PLAYER, slot, 4), Ok(6));
    // zero uses count as one
    assert_eq!(g.use_item(PLAYER, slot, 0), Ok(5));
    // worn out: the item is destroyed and the inventory closes up
    assert_eq!(g.use_item(PLAYER, slot, 9), Ok(0));
    assert_eq!(g.inventory_size(PLAYER), 0);
    assert_eq!(g.use_item(PLAYER, slot, 1), Err(Error::SlotEmpty));
}

#[test]
fn admin_only_and_pause() {
    let (mut g, ore, _) = world();
    assert_eq!(g.add_recipe(PLAYER, vec![ore], ore), Err(Error::Unauthorized));
    assert_eq!(g.add_recipe(ADMIN, vec![], ore), Err(Error::EmptyRecipe));
    g.set_paused(ADMIN, true).unwrap();
    assert_eq!(g.grant_item(1, 1, ADMIN, PLAYER, ore), Err(Error::Paused));
    assert_eq!(g.initialize(ADMIN), Err(Error::AlreadyInitialized));
}
