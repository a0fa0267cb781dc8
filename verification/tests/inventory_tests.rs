use voxelworld::inventory::{Inventory, ItemStack};

fn stack(id: &str, count: u16) -> ItemStack {
    ItemStack { id: id.to_string(), count }
}

#[test]
fn new_inventory_is_empty() {
    let inv = Inventory::new(9);
    assert_eq!(inv.size, 9);
    assert_eq!(inv.slots.len(), 9);
    assert_eq!(inv.first_empty(), Some(0));
}

#[test]
fn add_takes_first_empty_slot() {
    let mut inv = Inventory::new(3);
    assert!(inv.add_item(stack("stone", 5)).is_ok());
    let s = inv.slots[0].as_ref().unwrap();
    assert_eq!(s.id, "stone");
    assert_eq!(s.count, 5);
    assert_eq!(inv.first_empty(), Some(1));
}

#[test]
fn add_merges_same_item() {
    let mut inv = Inventory::new(3);
    inv.add_item(stack("stone", 5)).unwrap();
    inv.add_item(stack("dirt", 2)).unwrap();
    inv.add_item(stack("stone", 7)).unwrap();
    let s = inv.slots[0].as_ref().unwrap();
    assert_eq!(s.count, 12);
    let d = inv.slots[1].as_ref().unwrap();
    assert_eq!(d.count, 2);
    assert_eq!(inv.first_empty(), Some(2));
}

#[test]
fn merge_saturates() {
    let mut inv = Inventory::new(2);
    inv.add_item(stack("stone", u16::MAX - 1)).unwrap();
    inv.add_item(stack("stone", 10)).unwrap();
    let s = inv.slots[0].as_ref().unwrap();
    assert_eq!(s.count, u16::MAX);
    assert!(inv.slots[1].is_none());
}

#[test]
fn full_stack_is_not_merged_into() {
    let mut inv = Inventory::new(2);
    inv.add_item(stack("stone", u16::MAX)).unwrap();
    inv.add_item(stack("stone", 3)).unwrap();
    let second = inv.slots[1].as_ref().unwrap();
    assert_eq!(second.count, 3);
}

#[test]
fn full_inventory_rejects() {
    let mut inv = Inventory::new(1);
    inv.add_item(stack("stone", 1)).unwrap();
    let rejected = inv.add_item(stack("dirt", 4));
    match rejected {
        Err(item) => {
            assert_eq!(item.id, "dirt");
            assert_eq!(item.count, 4);
        },
        Ok(()) => panic!("a full inventory must hand the item back"),
    }
}

#[test]
fn remove_whole_stack() {
    let mut inv = Inventory::new(2);
    inv.add_item(stack("stone", 5)).unwrap();
    let taken = inv.remove_at(0, 5).unwrap();
    assert_eq!(taken.id, "stone");
    assert_eq!(taken.count, 5);
    assert!(inv.slots[0].is_none());
}

#[test]
fn remove_splits_stack() {
    let mut inv = Inventory::new(2);
    inv.add_item(stack("stone", 10)).unwrap();
    let taken = inv.remove_at(0, 4).unwrap();
    assert_eq!(taken.count, 4);
    let left = inv.slots[0].as_ref().unwrap();
    assert_eq!(left.count, 6);
}

#[test]
fn remove_from_bad_slot() {
    let mut inv = Inventory::new(2);
    assert!(inv.remove_at(0, 1).is_none());
    assert!(inv.remove_at(5, 1).is_none());
}
