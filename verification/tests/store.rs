use moonwalk::objects::store::ObjectStore;
use moonwalk::objects::{ObjectId, ObjectType};
use moonwalk::vector::{Vec2Bits, Vec4Bits};

fn v2(x: f32, y: f32) -> Vec2Bits {
    Vec2Bits::new(x.to_bits(), y.to_bits())
}

fn v4(x: f32, y: f32, z: f32, w: f32) -> Vec4Bits {
    Vec4Bits::new(x.to_bits(), y.to_bits(), z.to_bits(), w.to_bits())
}

fn columns_agree(store: &ObjectStore) -> bool {
    let n = store.positions.len();
    store.sizes.len() == n
        && store.colors.len() == n
        && store.rotations.len() == n
        && store.z_indices.len() == n
        && store.rect_radii.len() == n
        && store.rect_ids.iter().all(|id| id.index() < n)
}

#[test]
fn fresh_store_is_empty_and_clean() {
    let store = ObjectStore::new();
    assert_eq!(store.len(), 0);
    assert!(store.positions.is_empty());
    assert!(store.rect_ids.is_empty());
    assert!(!store.dirty);
    assert!(!store.z_dirty);
    assert!(store.has_room());
    assert!(!store.contains(ObjectId::new(ObjectType::Rect, 0)));
    assert!(columns_agree(&store));
}

#[test]
fn new_rect_then_set_position() {
    let mut store = ObjectStore::new();
    let id = store.new_rect();
    assert_eq!(id.index(), 0);
    store.config_position(id, v2(10.0, 20.0));
    assert_eq!(store.positions[0], v2(10.0, 20.0));
    assert!(store.dirty);
    // The new rectangle itself has set the depth flag; a position does not.
    assert!(store.z_dirty);
    store.mark_synced();
    store.config_position(id, v2(10.0, 20.0));
    assert!(store.dirty);
    assert!(!store.z_dirty);
}

#[test]
fn new_rect_appends_one_row_of_defaults() {
    let mut store = ObjectStore::new();
    let first = store.new_rect();
    let second = store.new_rect();
    assert_eq!(store.len(), 2);
    assert_eq!(store.rect_ids, vec![first, second]);
    assert_eq!(second, ObjectId::new(ObjectType::Rect, 1));
    for i in 0..2 {
        assert_eq!(store.positions[i], v2(0.0, 0.0));
        assert_eq!(store.sizes[i], v2(100.0, 100.0));
        assert_eq!(store.colors[i], v4(1.0, 1.0, 1.0, 1.0));
        assert_eq!(store.rotations[i], 0.0f32.to_bits());
        assert_eq!(store.z_indices[i], 0.0f32.to_bits());
        assert_eq!(store.rect_radii[i], v4(0.0, 0.0, 0.0, 0.0));
    }
    assert!(store.dirty);
    assert!(store.z_dirty);
    assert!(store.contains(first));
    assert!(store.contains(second));
    assert!(columns_agree(&store));
}

#[test]
fn each_setter_writes_its_own_column_only() {
    let mut store = ObjectStore::new();
    let a = store.new_rect();
    let b = store.new_rect();
    store.config_position(b, v2(1.0, 2.0));
    store.config_size(b, v2(3.0, 4.0));
    store.config_color(b, v4(0.1, 0.2, 0.3, 0.4));
    store.config_rotation(b, 0.5f32.to_bits());
    store.config_z_index(b, 7.0f32.to_bits());
    store.set_rounded(b, v4(1.0, 2.0, 3.0, 4.0));
    assert_eq!(store.positions[1], v2(1.0, 2.0));
    assert_eq!(store.sizes[1], v2(3.0, 4.0));
    assert_eq!(store.colors[1], v4(0.1, 0.2, 0.3, 0.4));
    assert_eq!(store.rotations[1], 0.5f32.to_bits());
    assert_eq!(store.z_indices[1], 7.0f32.to_bits());
    assert_eq!(store.rect_radii[1], v4(1.0, 2.0, 3.0, 4.0));
    // the other row keeps its defaults
    assert_eq!(store.positions[a.index()], v2(0.0, 0.0));
    assert_eq!(store.sizes[a.index()], v2(100.0, 100.0));
    assert_eq!(store.colors[a.index()], v4(1.0, 1.0, 1.0, 1.0));
    assert_eq!(store.rotations[a.index()], 0);
    assert_eq!(store.z_indices[a.index()], 0);
    assert_eq!(store.rect_radii[a.index()], v4(0.0, 0.0, 0.0, 0.0));
    assert_eq!(store.rect_ids, vec![a, b]);
    assert!(columns_agree(&store));
}

#[test]
fn only_depth_and_new_rows_set_the_depth_flag() {
    let mut store = ObjectStore::new();
    let id = store.new_rect();
    store.mark_synced();
    assert!(!store.dirty && !store.z_dirty);

    store.config_position(id, v2(1.0, 1.0));
    assert!(store.dirty && !store.z_dirty);
    store.mark_synced();
    store.config_size(id, v2(1.0, 1.0));
    assert!(store.dirty && !store.z_dirty);
    store.mark_synced();
    store.config_color(id, v4(0.0, 0.0, 0.0, 1.0));
    assert!(store.dirty && !store.z_dirty);
    store.mark_synced();
    store.config_rotation(id, 1.0f32.to_bits());
    assert!(store.dirty && !store.z_dirty);
    store.mark_synced();
    store.set_rounded(id, v4(2.0, 2.0, 2.0, 2.0));
    assert!(store.dirty && !store.z_dirty);
    store.mark_synced();
    store.config_z_index(id, 1.0f32.to_bits());
    assert!(store.dirty && store.z_dirty);
    store.mark_synced();
    store.new_rect();
    assert!(store.dirty && store.z_dirty);
}

#[test]
fn flags_after_a_sequence_of_setters() {
    let mut store = ObjectStore::new();
    let a = store.new_rect();
    let b = store.new_rect();
    store.mark_synced();
    // empty sequence
    assert!(!store.dirty && !store.z_dirty);
    // a sequence without a depth
    store.config_position(a, v2(5.0, 5.0));
    store.config_color(b, v4(1.0, 0.0, 0.0, 1.0));
    store.config_rotation(a, 3.0f32.to_bits());
    assert!(store.dirty && !store.z_dirty);
    // a depth anywhere in the sequence sets the depth flag for good
    store.config_z_index(b, 2.0f32.to_bits());
    store.config_size(a, v2(9.0, 9.0));
    assert!(store.dirty && store.z_dirty);
}

#[test]
fn set_rounded_ignores_an_id_out_of_range() {
    let mut store = ObjectStore::new();
    store.set_rounded(ObjectId::new(ObjectType::Rect, 0), v4(1.0, 1.0, 1.0, 1.0));
    assert_eq!(store.len(), 0);
    assert!(!store.dirty);
    assert!(!store.z_dirty);
    let id = store.new_rect();
    store.mark_synced();
    store.set_rounded(ObjectId::new(ObjectType::Rect, 1), v4(1.0, 1.0, 1.0, 1.0));
    assert_eq!(store.rect_radii[id.index()], v4(0.0, 0.0, 0.0, 0.0));
    assert!(!store.dirty);
    assert!(columns_agree(&store));
}

#[test]
fn setting_twice_is_setting_once() {
    let mut once = ObjectStore::new();
    let mut twice = ObjectStore::new();
    let id = once.new_rect();
    twice.new_rect();
    once.mark_synced();
    twice.mark_synced();

    once.config_position(id, v2(3.0, 4.0));
    twice.config_position(id, v2(3.0, 4.0));
    twice.config_position(id, v2(3.0, 4.0));
    once.config_size(id, v2(30.0, 40.0));
    twice.config_size(id, v2(30.0, 40.0));
    twice.config_size(id, v2(30.0, 40.0));
    once.config_color(id, v4(0.5, 0.5, 0.5, 1.0));
    twice.config_color(id, v4(0.5, 0.5, 0.5, 1.0));
    twice.config_color(id, v4(0.5, 0.5, 0.5, 1.0));
    once.config_rotation(id, 0.25f32.to_bits());
    twice.config_rotation(id, 0.25f32.to_bits());
    twice.config_rotation(id, 0.25f32.to_bits());
    once.config_z_index(id, 2.0f32.to_bits());
    twice.config_z_index(id, 2.0f32.to_bits());
    twice.config_z_index(id, 2.0f32.to_bits());
    once.set_rounded(id, v4(1.0, 2.0, 3.0, 4.0));
    twice.set_rounded(id, v4(1.0, 2.0, 3.0, 4.0));
    twice.set_rounded(id, v4(1.0, 2.0, 3.0, 4.0));

    assert_eq!(once.positions, twice.positions);
    assert_eq!(once.sizes, twice.sizes);
    assert_eq!(once.colors, twice.colors);
    assert_eq!(once.rotations, twice.rotations);
    assert_eq!(once.z_indices, twice.z_indices);
    assert_eq!(once.rect_radii, twice.rect_radii);
    assert_eq!(once.rect_ids, twice.rect_ids);
    assert_eq!(once.dirty, twice.dirty);
    assert_eq!(once.z_dirty, twice.z_dirty);
    assert!(twice.dirty);
}

#[test]
fn setters_use_only_the_index_of_an_id() {
    let mut store = ObjectStore::new();
    let id = store.new_rect();
    // an id with another tag and the same index names the same row
    store.config_position(ObjectId(id.index()), v2(8.0, 9.0));
    assert_eq!(store.positions[0], v2(8.0, 9.0));
}

#[test]
fn columns_stay_aligned_over_many_calls() {
    let mut store = ObjectStore::new();
    let mut ids = Vec::new();
    for k in 0..50u32 {
        let id = store.new_rect();
        ids.push(id);
        store.config_z_index(id, (k as f32).to_bits());
        if k % 3 == 0 {
            store.config_position(ids[(k / 3) as usize], v2(k as f32, 0.0));
        }
        assert!(columns_agree(&store));
        assert!(!store.z_dirty || store.dirty);
    }
    assert_eq!(store.rect_ids, ids);
    for (k, id) in store.rect_ids.iter().enumerate() {
        assert_eq!(id.index(), k);
        assert_eq!(id.get_type(), Some(ObjectType::Rect));
    }
}

#[test]
fn vectors_of_patterns() {
    assert_eq!(Vec2Bits::zero(), v2(0.0, 0.0));
    assert_eq!(Vec2Bits::hundred(), v2(100.0, 100.0));
    assert_eq!(Vec4Bits::zero(), v4(0.0, 0.0, 0.0, 0.0));
    assert_eq!(Vec4Bits::one(), v4(1.0, 1.0, 1.0, 1.0));
    assert_eq!(
        v4(1.0, 2.0, 3.0, 4.0).to_array(),
        [1.0f32.to_bits(), 2.0f32.to_bits(), 3.0f32.to_bits(), 4.0f32.to_bits()]
    );
    assert_eq!(moonwalk::binary32::TENTH, 0.1f32.to_bits());
    assert_eq!(moonwalk::binary32::HUNDRED, 100.0f32.to_bits());
    assert_eq!(moonwalk::binary32::ONE, 1.0f32.to_bits());
    assert_eq!(moonwalk::binary32::NEG_ZERO, (-0.0f32).to_bits());
}

#[test]
fn stores_changed_through_their_methods_are_well_formed() {
    let mut store = ObjectStore::new();
    assert!(store.is_well_formed());
    let a = store.new_rect();
    let b = store.new_rect();
    store.config_z_index(a, 1.0f32.to_bits());
    store.set_rounded(b, v4(1.0, 1.0, 1.0, 1.0));
    assert!(store.is_well_formed());
    store.mark_synced();
    assert!(store.is_well_formed());
}

#[test]
fn stores_written_to_directly_can_be_ill_formed() {
    let mut short_column = ObjectStore::new();
    short_column.new_rect();
    short_column.sizes.pop();
    assert!(!short_column.is_well_formed());

    let mut wrong_id = ObjectStore::new();
    wrong_id.new_rect();
    wrong_id.new_rect();
    wrong_id.rect_ids[1] = ObjectId::new(ObjectType::Rect, 0);
    assert!(!wrong_id.is_well_formed());

    let mut untagged_id = ObjectStore::new();
    untagged_id.new_rect();
    untagged_id.rect_ids[0] = ObjectId(0);
    assert!(!untagged_id.is_well_formed());

    let mut missing_id = ObjectStore::new();
    missing_id.new_rect();
    missing_id.rect_ids.clear();
    assert!(!missing_id.is_well_formed());

    let mut depth_flag_alone = ObjectStore::new();
    depth_flag_alone.z_dirty = true;
    assert!(!depth_flag_alone.is_well_formed());
}
