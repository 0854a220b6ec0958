use pholidota::draw_flags::DrawFlags;
use pholidota::draw_objects::{quad_indices, DrawCall, DrawEntry, DrawKind, DrawObjects, RegistryError};

fn ids(entries: &Vec<DrawEntry>) -> Vec<u64> {
    entries.iter().map(|e| e.id).collect()
}

fn call_ids(calls: &Vec<DrawCall>) -> Vec<u64> {
    calls.iter().map(|c| c.id).collect()
}

#[test]
fn new_registry_is_empty() {
    let registry = DrawObjects::new();
    assert_eq!(registry.len(), 0);
    assert_eq!(registry.next_id(), 0);
    assert!(registry.z_order().is_empty());
    assert!(registry.draw_list().is_empty());
    assert!(registry.flush_list().is_empty());
}

#[test]
fn created_entity_is_used_visible_and_held_once() {
    let mut registry = DrawObjects::new();
    let id = registry.create(DrawKind::Sprite, 7, 64, 32).unwrap();
    assert_eq!(id, 0);
    assert_eq!(registry.next_id(), 1);
    let entry = registry.get(id).unwrap();
    assert_eq!(
        entry,
        DrawEntry {
            id: 0,
            kind: DrawKind::Sprite,
            z_index: 7,
            draw_flags: DrawFlags { used: true, visible: true },
            handles: 1,
            image_width: 64,
            image_height: 32,
        }
    );
}

#[test]
fn entities_are_listed_by_z_index_then_creation() {
    let mut registry = DrawObjects::new();
    let a = registry.create(DrawKind::Sprite, 2, 1, 1).unwrap();
    let b = registry.create(DrawKind::Primitive, 1, 0, 0).unwrap();
    let c = registry.create(DrawKind::Sprite, 3, 1, 1).unwrap();
    let d = registry.create(DrawKind::Sprite, 1, 1, 1).unwrap();
    let e = registry.create(DrawKind::Sprite, 2, 1, 1).unwrap();
    assert_eq!(ids(&registry.z_order()), vec![b, d, a, e, c]);
    assert_eq!(call_ids(&registry.draw_list()), vec![b, d, a, e, c]);
    assert_eq!(registry.flush_list(), vec![b, d, a, e, c]);
}

#[test]
fn every_creation_order_of_three_gives_ascending_z() {
    let orders: [[u8; 3]; 6] =
        [[1, 2, 3], [1, 3, 2], [2, 1, 3], [2, 3, 1], [3, 1, 2], [3, 2, 1]];
    for order in orders.iter() {
        let mut registry = DrawObjects::new();
        for z in order.iter() {
            registry.create(DrawKind::Sprite, *z, 1, 1).unwrap();
        }
        let zs: Vec<u8> = registry.z_order().iter().map(|e| e.z_index).collect();
        assert_eq!(zs, vec![1, 2, 3]);
    }
}

#[test]
fn equal_z_indices_keep_creation_order() {
    let mut registry = DrawObjects::new();
    let first = registry.create(DrawKind::Sprite, 4, 1, 1).unwrap();
    let second = registry.create(DrawKind::Sprite, 4, 1, 1).unwrap();
    let third = registry.create(DrawKind::Sprite, 4, 1, 1).unwrap();
    assert_eq!(ids(&registry.z_order()), vec![first, second, third]);
}

#[test]
fn extreme_z_indices_go_to_the_ends() {
    let mut registry = DrawObjects::new();
    let mid = registry.create(DrawKind::Sprite, 100, 1, 1).unwrap();
    let top = registry.create(DrawKind::Sprite, 255, 1, 1).unwrap();
    let bottom = registry.create(DrawKind::Sprite, 0, 1, 1).unwrap();
    assert_eq!(ids(&registry.z_order()), vec![bottom, mid, top]);
}

#[test]
fn draw_list_names_the_kind_of_each_entity() {
    let mut registry = DrawObjects::new();
    let s = registry.create(DrawKind::Sprite, 1, 8, 8).unwrap();
    let p = registry.create(DrawKind::Primitive, 0, 0, 0).unwrap();
    assert_eq!(
        registry.draw_list(),
        vec![
            DrawCall { id: p, kind: DrawKind::Primitive },
            DrawCall { id: s, kind: DrawKind::Sprite },
        ]
    );
}

#[test]
fn dropping_the_last_handle_removes_nothing_at_once() {
    let mut registry = DrawObjects::new();
    let keep = registry.create(DrawKind::Sprite, 0, 1, 1).unwrap();
    let gone = registry.create(DrawKind::Sprite, 1, 1, 1).unwrap();
    assert!(registry.drop_handle(gone));
    assert_eq!(registry.len(), 2);
    let entry = registry.get(gone).unwrap();
    assert!(!entry.draw_flags.used);
    assert!(entry.draw_flags.visible);
    assert_eq!(entry.handles, 0);
    assert_eq!(ids(&registry.z_order()), vec![keep, gone]);
    assert_eq!(call_ids(&registry.draw_list()), vec![keep]);
    assert_eq!(registry.flush_list(), vec![keep]);
}

#[test]
fn one_reclaim_removes_the_dropped_entity() {
    let mut registry = DrawObjects::new();
    let keep = registry.create(DrawKind::Sprite, 0, 1, 1).unwrap();
    let gone = registry.create(DrawKind::Sprite, 1, 1, 1).unwrap();
    registry.drop_handle(gone);
    let removed = registry.reclaim();
    assert_eq!(removed, vec![gone]);
    assert_eq!(registry.len(), 1);
    assert!(registry.get(gone).is_none());
    assert_eq!(ids(&registry.z_order()), vec![keep]);
    assert_eq!(call_ids(&registry.draw_list()), vec![keep]);
    assert!(registry.reclaim().is_empty());
}

#[test]
fn reclaim_keeps_the_order_of_the_living() {
    let mut registry = DrawObjects::new();
    let a = registry.create(DrawKind::Sprite, 3, 1, 1).unwrap();
    let b = registry.create(DrawKind::Sprite, 1, 1, 1).unwrap();
    let c = registry.create(DrawKind::Sprite, 2, 1, 1).unwrap();
    let d = registry.create(DrawKind::Sprite, 1, 1, 1).unwrap();
    registry.set_dead(c);
    registry.set_dead(b);
    assert_eq!(registry.reclaim(), vec![b, c]);
    assert_eq!(ids(&registry.z_order()), vec![d, a]);
}

#[test]
fn hidden_entity_is_not_drawn_but_stays() {
    let mut registry = DrawObjects::new();
    let shown = registry.create(DrawKind::Sprite, 0, 1, 1).unwrap();
    let hidden = registry.create(DrawKind::Sprite, 1, 1, 1).unwrap();
    assert!(registry.set_visible(hidden, false));
    assert_eq!(call_ids(&registry.draw_list()), vec![shown]);
    assert_eq!(ids(&registry.z_order()), vec![shown, hidden]);
    assert_eq!(registry.flush_list(), vec![shown, hidden]);
    assert!(registry.reclaim().is_empty());
    assert_eq!(ids(&registry.z_order()), vec![shown, hidden]);
    let entry = registry.get(hidden).unwrap();
    assert!(entry.draw_flags.used);
    assert!(!entry.draw_flags.visible);
    assert!(registry.set_visible(hidden, true));
    assert_eq!(call_ids(&registry.draw_list()), vec![shown, hidden]);
}

#[test]
fn dead_entity_is_never_drawn_even_if_visible() {
    let mut registry = DrawObjects::new();
    let id = registry.create(DrawKind::Sprite, 0, 1, 1).unwrap();
    registry.set_dead(id);
    registry.set_visible(id, true);
    assert!(registry.draw_list().is_empty());
    assert!(registry.flush_list().is_empty());
}

#[test]
fn entity_dropped_before_any_frame_is_reclaimed_cleanly() {
    let mut registry = DrawObjects::new();
    let id = registry.create(DrawKind::Sprite, 9, 16, 16).unwrap();
    assert!(registry.drop_handle(id));
    assert!(registry.drop_handle(id));
    assert_eq!(registry.get(id).unwrap().handles, 0);
    assert_eq!(registry.reclaim(), vec![id]);
    assert_eq!(registry.len(), 0);
    assert!(!registry.drop_handle(id));
    assert!(!registry.set_dead(id));
    assert!(!registry.set_visible(id, false));
}

#[test]
fn entity_lives_until_its_last_handle_is_dropped() {
    let mut registry = DrawObjects::new();
    let id = registry.create(DrawKind::Sprite, 0, 1, 1).unwrap();
    assert_eq!(registry.clone_handle(id), Ok(()));
    assert_eq!(registry.get(id).unwrap().handles, 2);
    registry.drop_handle(id);
    assert!(registry.get(id).unwrap().draw_flags.used);
    assert_eq!(registry.get(id).unwrap().handles, 1);
    assert!(registry.reclaim().is_empty());
    registry.drop_handle(id);
    assert!(!registry.get(id).unwrap().draw_flags.used);
    assert_eq!(registry.reclaim(), vec![id]);
}

#[test]
fn clone_handle_of_unknown_entity_fails() {
    let mut registry = DrawObjects::new();
    assert_eq!(registry.clone_handle(3), Err(RegistryError::UnknownEntity));
}

#[test]
fn clone_handle_of_dead_entity_fails() {
    let mut registry = DrawObjects::new();
    let id = registry.create(DrawKind::Sprite, 0, 1, 1).unwrap();
    registry.set_dead(id);
    assert_eq!(registry.clone_handle(id), Err(RegistryError::DeadEntity));
    assert_eq!(registry.get(id).unwrap().handles, 1);
}

#[test]
fn creation_fails_when_ids_run_out() {
    let mut registry = DrawObjects::restore(Vec::new(), u64::MAX - 1).unwrap();
    assert_eq!(registry.create(DrawKind::Sprite, 0, 1, 1), Ok(u64::MAX - 1));
    assert_eq!(registry.create(DrawKind::Sprite, 0, 1, 1), Err(RegistryError::IdsExhausted));
    assert_eq!(registry.len(), 1);
    assert_eq!(registry.next_id(), u64::MAX);
}

#[test]
fn ids_are_not_reused_after_reclaim() {
    let mut registry = DrawObjects::new();
    let a = registry.create(DrawKind::Sprite, 0, 1, 1).unwrap();
    registry.drop_handle(a);
    registry.reclaim();
    let b = registry.create(DrawKind::Sprite, 0, 1, 1).unwrap();
    assert_ne!(a, b);
    assert_eq!(b, 1);
}

#[test]
fn quad_is_two_triangles_over_four_corners() {
    assert_eq!(quad_indices(), [0, 1, 2, 2, 3, 0]);
}

#[test]
fn flags_and_z_index_are_read_by_id() {
    let mut registry = DrawObjects::new();
    let id = registry.create(DrawKind::Primitive, 42, 0, 0).unwrap();
    assert_eq!(registry.get_z_index(id), Some(42));
    assert_eq!(registry.read_flags(id), Some(DrawFlags::all()));
    registry.set_visible(id, false);
    assert_eq!(registry.read_flags(id), Some(DrawFlags::USED()));
    registry.set_dead(id);
    assert_eq!(registry.read_flags(id), Some(DrawFlags::empty()));
    assert_eq!(registry.get_z_index(id + 1), None);
    assert_eq!(registry.read_flags(id + 1), None);
}

fn entry(id: u64, z_index: u8, used: bool, handles: u64) -> DrawEntry {
    DrawEntry {
        id,
        kind: DrawKind::Sprite,
        z_index,
        draw_flags: DrawFlags { used, visible: true },
        handles,
        image_width: 1,
        image_height: 1,
    }
}

#[test]
fn clone_handle_fails_when_the_count_is_full() {
    let mut registry = DrawObjects::restore(vec![entry(0, 0, true, u64::MAX)], 1).unwrap();
    assert_eq!(registry.clone_handle(0), Err(RegistryError::TooManyHandles));
    assert_eq!(registry.get(0).unwrap().handles, u64::MAX);
    assert!(registry.drop_handle(0));
    assert_eq!(registry.get(0).unwrap().handles, u64::MAX - 1);
    assert_eq!(registry.clone_handle(0), Ok(()));
}

#[test]
fn restore_takes_a_valid_state() {
    let entries = vec![entry(4, 0, true, 1), entry(1, 2, false, 0), entry(3, 2, true, 2)];
    let mut registry = DrawObjects::restore(entries.clone(), 5).unwrap();
    assert_eq!(registry.z_order(), entries);
    assert_eq!(registry.next_id(), 5);
    assert_eq!(registry.create(DrawKind::Sprite, 1, 1, 1), Ok(5));
    assert_eq!(ids(&registry.z_order()), vec![4, 5, 1, 3]);
}

#[test]
fn restore_refuses_entries_out_of_draw_order() {
    assert!(DrawObjects::restore(vec![entry(0, 2, true, 1), entry(1, 1, true, 1)], 2).is_none());
    assert!(DrawObjects::restore(vec![entry(1, 1, true, 1), entry(0, 1, true, 1)], 2).is_none());
}

#[test]
fn restore_refuses_an_id_twice() {
    assert!(DrawObjects::restore(vec![entry(0, 1, true, 1), entry(0, 2, true, 1)], 2).is_none());
    assert!(DrawObjects::restore(vec![entry(0, 1, true, 1), entry(0, 1, true, 1)], 2).is_none());
}

#[test]
fn restore_refuses_an_id_not_yet_handed_out() {
    assert!(DrawObjects::restore(vec![entry(2, 1, true, 1)], 2).is_none());
    assert!(DrawObjects::restore(vec![entry(2, 1, true, 1)], 3).is_some());
}

#[test]
fn restore_refuses_a_live_entity_without_handles() {
    assert!(DrawObjects::restore(vec![entry(0, 1, true, 0)], 1).is_none());
    assert!(DrawObjects::restore(vec![entry(0, 1, false, 0)], 1).is_some());
}
