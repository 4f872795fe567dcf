use bevy::asset::HandleId;
use bevy::ecs::entity::Entity;
use bevy::math::{Mat4, Quat, Vec3};
use bevy::transform::components::{GlobalTransform, Transform};
use bevy::utils::Uuid;
use bevy_polyline::extract::{extract_polylines, PolylineSource};

fn handle(id: u64) -> HandleId {
    HandleId::Id(Uuid::from_u128(0xc76af88a_8afe_405c_9a64_0a7d845d2546), id)
}

fn source(index: u32, visible: bool) -> PolylineSource {
    PolylineSource {
        entity: Entity::from_raw(index),
        visible,
        transform: GlobalTransform::from_xyz(index as f32, 2.0, 3.0),
        handle: handle(index as u64 + 100),
    }
}

#[test]
fn extracts_the_visible_in_order() {
    let query = vec![source(1, true), source(2, false), source(3, true), source(4, true)];
    let mut previous_len: usize = 0;
    let values = extract_polylines(&query, &mut previous_len);
    assert_eq!(values.len(), 3);
    assert_eq!(previous_len, 3);
    assert_eq!(values[0].entity, Entity::from_raw(1));
    assert_eq!(values[1].entity, Entity::from_raw(3));
    assert_eq!(values[2].entity, Entity::from_raw(4));
    assert_eq!(values[0].handle, handle(101));
    assert_eq!(values[1].handle, handle(103));
    assert_eq!(values[2].handle, handle(104));
}

#[test]
fn uniform_is_the_matrix_of_the_transform() {
    let transform = GlobalTransform::from(
        Transform::from_xyz(1.0, 2.0, 3.0)
            .with_rotation(Quat::from_rotation_z(0.5))
            .with_scale(Vec3::new(2.0, 3.0, 4.0)),
    );
    let query = vec![PolylineSource {
        entity: Entity::from_raw(9),
        visible: true,
        transform,
        handle: handle(1),
    }];
    let mut previous_len: usize = 0;
    let values = extract_polylines(&query, &mut previous_len);
    assert_eq!(values[0].uniform.transform, transform.compute_matrix());
    assert_ne!(values[0].uniform.transform, Mat4::IDENTITY);
    let cols = values[0].uniform.transform.to_cols_array();
    assert_eq!(cols[12], 1.0);
    assert_eq!(cols[13], 2.0);
    assert_eq!(cols[14], 3.0);
    assert_eq!(cols[15], 1.0);
    assert_eq!(cols[3], 0.0);
}

#[test]
fn translation_matrix_has_exact_values() {
    let query = vec![source(5, true)];
    let mut previous_len: usize = 0;
    let values = extract_polylines(&query, &mut previous_len);
    assert_eq!(
        values[0].uniform.transform.to_cols_array(),
        [1.0, 0.0, 0.0, 0.0, 0.0, 1.0, 0.0, 0.0, 0.0, 0.0, 1.0, 0.0, 5.0, 2.0, 3.0, 1.0]
    );
}

#[test]
fn hidden_entities_are_not_extracted() {
    let query = vec![source(1, false), source(2, false)];
    let mut previous_len: usize = 17;
    let values = extract_polylines(&query, &mut previous_len);
    assert!(values.is_empty());
    assert_eq!(previous_len, 0);
}

#[test]
fn empty_query_extracts_nothing() {
    let query: Vec<PolylineSource> = Vec::new();
    let mut previous_len: usize = 3;
    let values = extract_polylines(&query, &mut previous_len);
    assert!(values.is_empty());
    assert_eq!(previous_len, 0);
}

#[test]
fn entity_hidden_in_this_frame_is_gone_though_it_was_there_before() {
    let mut previous_len: usize = 0;
    let frame_one = vec![source(1, true), source(2, true)];
    let first = extract_polylines(&frame_one, &mut previous_len);
    assert_eq!(first.len(), 2);
    assert_eq!(previous_len, 2);
    let frame_two = vec![source(1, false), source(2, true)];
    let second = extract_polylines(&frame_two, &mut previous_len);
    assert_eq!(second.len(), 1);
    assert_eq!(previous_len, 1);
    assert_eq!(second[0].entity, Entity::from_raw(2));
    assert!(second.iter().all(|value| value.entity != Entity::from_raw(1)));
}

#[test]
fn extraction_is_a_function_of_the_query() {
    let query = vec![source(1, true), source(2, false), source(3, true)];
    let mut hint_a: usize = 0;
    let mut hint_b: usize = 1000;
    let a = extract_polylines(&query, &mut hint_a);
    let b = extract_polylines(&query, &mut hint_b);
    assert_eq!(a.len(), b.len());
    assert_eq!(hint_a, hint_b);
    for i in 0..a.len() {
        assert_eq!(a[i].entity, b[i].entity);
        assert_eq!(a[i].handle, b[i].handle);
        assert_eq!(
            a[i].uniform.transform.to_cols_array().map(f32::to_bits),
            b[i].uniform.transform.to_cols_array().map(f32::to_bits)
        );
    }
}

#[test]
fn one_uniform_for_each_visible_entity() {
    let query = vec![source(1, true), source(2, true), source(3, false), source(4, true)];
    let mut previous_len: usize = 0;
    let values = extract_polylines(&query, &mut previous_len);
    for s in query.iter() {
        let hits = values.iter().filter(|value| value.entity == s.entity).count();
        assert_eq!(hits, if s.visible { 1 } else { 0 });
    }
}
