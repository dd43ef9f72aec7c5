use minerust::block::BlockType;
use minerust::inventory::{
    block_name, Inventory, ItemStack, Scroll, SlotLocation, HOTBAR_SLOTS, MAIN_INVENTORY_SLOTS,
};
use minerust::menu::KeyCode;

#[test]
fn test_inventory_starts_completely_empty() {
    let inv = Inventory::default();
    for slot in &inv.hotbar {
        assert!(slot.is_none(), "Hotbar slot must be None at start");
    }
    for slot in &inv.main {
        assert!(slot.is_none(), "Main inventory slot must be None at start");
    }
    assert_eq!(inv.selected_slot, 0);
    assert!(!inv.is_open);
    assert_eq!(inv.selected_block(), BlockType::Air);
    assert!(inv.selected_item().is_none());
}

#[test]
fn test_inventory_add_item_fills_hotbar_then_main() {
    let mut inv = Inventory::default();

    let leftover = inv.add_item(BlockType::Wood, 1);
    assert_eq!(leftover, 0);
    assert_eq!(inv.hotbar[0], Some(ItemStack::new(BlockType::Wood, 1)));

    let leftover = inv.add_item(BlockType::Dirt, 10);
    assert_eq!(leftover, 0);
    assert_eq!(inv.hotbar[1], Some(ItemStack::new(BlockType::Dirt, 10)));
}

#[test]
fn test_inventory_add_item_merges_matching_stacks() {
    let mut inv = Inventory::default();

    inv.add_item(BlockType::Dirt, 50);
    assert_eq!(inv.hotbar[0], Some(ItemStack::new(BlockType::Dirt, 50)));

    let leftover = inv.add_item(BlockType::Dirt, 20);
    assert_eq!(leftover, 0);
    assert_eq!(inv.hotbar[0], Some(ItemStack::new(BlockType::Dirt, 64)));
    assert_eq!(inv.hotbar[1], Some(ItemStack::new(BlockType::Dirt, 6)));
}

#[test]
fn test_inventory_consume_selected() {
    let mut inv = Inventory::default();
    inv.hotbar[0] = Some(ItemStack::new(BlockType::Cobblestone, 2));

    assert!(inv.consume_selected(1));
    assert_eq!(inv.hotbar[0], Some(ItemStack::new(BlockType::Cobblestone, 1)));

    assert!(inv.consume_selected(1));
    assert_eq!(inv.hotbar[0], None);

    assert!(!inv.consume_selected(1));
}

#[test]
fn test_inventory_swap_main_with_hotbar() {
    let mut inv = Inventory::default();
    inv.hotbar[0] = Some(ItemStack::new(BlockType::Wood, 5));
    inv.main[3] = Some(ItemStack::new(BlockType::DiamondOre, 12));

    inv.selected_slot = 0;
    inv.swap_main_with_active_hotbar(3);

    assert_eq!(inv.hotbar[0], Some(ItemStack::new(BlockType::DiamondOre, 12)));
    assert_eq!(inv.main[3], Some(ItemStack::new(BlockType::Wood, 5)));
}

#[test]
fn swapping_twice_puts_items_back() {
    let mut inv = Inventory::default();
    inv.hotbar[2] = Some(ItemStack::new(BlockType::Sand, 7));
    inv.main[20] = Some(ItemStack::new(BlockType::Glass, 1));
    inv.selected_slot = 2;
    inv.swap_main_with_active_hotbar(20);
    inv.swap_main_with_active_hotbar(20);
    assert_eq!(inv.hotbar[2], Some(ItemStack::new(BlockType::Sand, 7)));
    assert_eq!(inv.main[20], Some(ItemStack::new(BlockType::Glass, 1)));
    inv.swap_main_with_active_hotbar(27);
    assert_eq!(inv.hotbar[2], Some(ItemStack::new(BlockType::Sand, 7)));
}

#[test]
fn inventory_full_returns_leftover() {
    let mut inv = Inventory::default();
    let capacity = ((HOTBAR_SLOTS + MAIN_INVENTORY_SLOTS) * 64) as u32;
    let leftover = inv.add_item(BlockType::Stone, capacity + 10);
    assert_eq!(leftover, 10);
    for slot in inv.hotbar.iter().chain(inv.main.iter()) {
        assert_eq!(*slot, Some(ItemStack::new(BlockType::Stone, 64)));
    }
    assert_eq!(inv.add_item(BlockType::Dirt, 3), 3);
}

#[test]
fn inventory_add_item_keeps_total_count() {
    let mut inv = Inventory::default();
    inv.hotbar[2] = Some(ItemStack::new(BlockType::Sand, 60));
    let leftover = inv.add_item(BlockType::Sand, 100);
    let total: u32 = inv
        .hotbar
        .iter()
        .chain(inv.main.iter())
        .flatten()
        .filter(|s| s.block_type == BlockType::Sand)
        .map(|s| s.count)
        .sum();
    assert_eq!(total + leftover, 160);
    assert_eq!(inv.hotbar[2], Some(ItemStack::new(BlockType::Sand, 64)));
    assert_eq!(inv.hotbar[0], Some(ItemStack::new(BlockType::Sand, 64)));
    assert_eq!(inv.hotbar[1], Some(ItemStack::new(BlockType::Sand, 32)));
}

#[test]
fn inventory_item_stack_caps_at_max() {
    assert_eq!(ItemStack::new(BlockType::Dirt, 100).count, 64);
    assert_eq!(block_name(BlockType::DiamondOre), "Diamond Ore");
}

#[test]
fn inventory_add_air_or_nothing_is_noop() {
    let mut inv = Inventory::default();
    assert_eq!(inv.add_item(BlockType::Air, 5), 5);
    assert_eq!(inv.add_item(BlockType::Dirt, 0), 0);
    assert!(inv.hotbar.iter().all(|s| s.is_none()));
}

#[test]
fn inventory_clicks() {
    let mut inv = Inventory::default();
    inv.hotbar[0] = Some(ItemStack::new(BlockType::Wood, 5));
    inv.main[0] = Some(ItemStack::new(BlockType::Dirt, 1));
    inv.click_slot(SlotLocation::Hotbar(3));
    assert_eq!(inv.selected_slot, 3);
    inv.click_slot(SlotLocation::Hotbar(0));
    assert_eq!(inv.selected_slot, 0);
    // Clicking the selected slot moves its stack to the first empty main slot.
    inv.click_slot(SlotLocation::Hotbar(0));
    assert_eq!(inv.hotbar[0], None);
    assert_eq!(inv.main[1], Some(ItemStack::new(BlockType::Wood, 5)));
    inv.click_slot(SlotLocation::Main(1));
    assert_eq!(inv.hotbar[0], Some(ItemStack::new(BlockType::Wood, 5)));
    assert_eq!(inv.main[1], None);
}

#[test]
fn inventory_keys_and_wheel() {
    let mut inv = Inventory::default();
    assert_eq!(inv.handle_input(false, &vec![KeyCode::Digit5, KeyCode::Digit3], Scroll::Still), None);
    assert_eq!(inv.selected_slot, 2);
    inv.handle_input(false, &vec![], Scroll::Up);
    assert_eq!(inv.selected_slot, 1);
    inv.selected_slot = 8;
    inv.handle_input(false, &vec![], Scroll::Down);
    assert_eq!(inv.selected_slot, 0);
    assert_eq!(inv.handle_input(false, &vec![KeyCode::KeyE], Scroll::Down), Some(false));
    assert!(inv.is_open);
    assert_eq!(inv.selected_slot, 0);
    assert_eq!(inv.handle_input(false, &vec![KeyCode::Escape], Scroll::Still), Some(true));
    assert!(!inv.is_open);
    assert_eq!(inv.handle_input(true, &vec![KeyCode::KeyE], Scroll::Down), None);
    assert!(!inv.is_open);
}
