use bevy::ecs::entity::Entity;
use bevy_polyline::bind_group::{
    queue_polyline_bind_group, queue_polyline_view_bind_groups, BindGroupDescriptor,
    BindGroupEntry, BindGroupUpdate, PipelineLayout, PolylineBindGroup, PolylineViewBindGroup,
};

#[test]
fn polyline_bind_group_is_replaced_where_there_is_a_binding() {
    let binding: u32 = 77;
    assert_eq!(
        queue_polyline_bind_group(Some(&binding)),
        BindGroupUpdate::Replace(BindGroupDescriptor {
            label: "polyline_bind_group",
            layout: PipelineLayout::Polyline,
            entry: BindGroupEntry { binding: 0, resource: &77 },
        })
    );
}

#[test]
fn polyline_bind_group_is_discarded_where_there_is_no_binding() {
    assert_eq!(queue_polyline_bind_group::<u32>(None), BindGroupUpdate::Discard);
}

#[test]
fn queueing_twice_asks_for_the_same() {
    let binding: u32 = 5;
    assert_eq!(queue_polyline_bind_group(Some(&binding)), queue_polyline_bind_group(Some(&binding)));
    assert_eq!(queue_polyline_bind_group::<u32>(None), queue_polyline_bind_group::<u32>(None));
}

#[test]
fn one_view_bind_group_for_each_view() {
    let views = vec![Entity::from_raw(3), Entity::from_raw(8), Entity::from_raw(5)];
    let binding: u32 = 42;
    let requests = queue_polyline_view_bind_groups(Some(&binding), &views);
    assert_eq!(requests.len(), 3);
    for i in 0..3 {
        assert_eq!(requests[i].view, views[i]);
        assert_eq!(
            requests[i].update,
            BindGroupUpdate::Replace(BindGroupDescriptor {
                label: "polyline_view_bind_group",
                layout: PipelineLayout::View,
                entry: BindGroupEntry { binding: 0, resource: &42 },
            })
        );
    }
}

#[test]
fn view_bind_groups_are_discarded_where_there_is_no_binding() {
    let views = vec![Entity::from_raw(3), Entity::from_raw(8)];
    let requests = queue_polyline_view_bind_groups::<u32>(None, &views);
    assert_eq!(requests.len(), 2);
    for i in 0..2 {
        assert_eq!(requests[i].view, views[i]);
        assert_eq!(requests[i].update, BindGroupUpdate::Discard);
    }
}

#[test]
fn no_view_bind_group_without_views() {
    let views: Vec<Entity> = Vec::new();
    let binding: u32 = 42;
    assert!(queue_polyline_view_bind_groups(Some(&binding), &views).is_empty());
    assert!(queue_polyline_view_bind_groups::<u32>(None, &views).is_empty());
}

#[test]
fn bind_group_holders_hold_the_host_value() {
    let polyline = PolylineBindGroup { value: 5u8 };
    let view = PolylineViewBindGroup { value: 6u8 };
    assert_eq!(polyline.value, 5);
    assert_eq!(view.value, 6);
}
