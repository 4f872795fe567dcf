//! The per-frame bind groups: one for the polyline uniforms of the frame, and
//! one for each view.
//!
//! A bind group can only be made of a uniform buffer that has a binding. With
//! nothing extracted, or before the host has written the view uniforms, there
//! is none: then the bind group of the frame before is discarded and none
//! takes its place, which is no error. No bind group outlives its frame.

use bevy::ecs::entity::Entity;
use vstd::prelude::*;

verus! {

/// A layout of the polyline pipeline, by its field.
#[derive(Clone, Copy, Debug, PartialEq, Eq)]
pub enum PipelineLayout {
    View,
    Polyline,
}

/// One entry of a bind group: `resource` at `binding`. `R` is the host's
/// binding of a uniform buffer.
#[derive(Debug, PartialEq, Eq)]
pub struct BindGroupEntry<'a, R> {
    pub binding: u32,
    pub resource: &'a R,
}

/// The description of a bind group with one entry.
#[derive(Debug, PartialEq, Eq)]
pub struct BindGroupDescriptor<'a, R> {
    pub label: &'static str,
    pub layout: PipelineLayout,
    pub entry: BindGroupEntry<'a, R>,
}

/// What becomes of a bind group in this frame.
#[derive(Debug, PartialEq, Eq)]
pub enum BindGroupUpdate<'a, R> {
    /// The bind group of the frame before gives way to a new one, made as described.
    Replace(BindGroupDescriptor<'a, R>),
    /// The bind group of the frame before is removed, and none takes its place.
    Discard,
}

/// The bind group of the frame's polyline uniforms. `G` is the host's bind group.
pub struct PolylineBindGroup<G> {
    pub value: G,
}

/// The bind group of one view's uniform. `G` is the host's bind group.
pub struct PolylineViewBindGroup<G> {
    pub value: G,
}

/// What becomes of the bind group of one view.
#[derive(Debug)]
pub struct ViewBindGroupRequest<'a, R> {
    /// The view's entity, to which the bind group is attached.
    pub view: Entity,
    pub update: BindGroupUpdate<'a, R>,
}

pub struct BindGroupDescriptorView<R> {
    pub label: Seq<char>,
    pub layout: PipelineLayout,
    pub binding: u32,
    pub resource: R,
}

impl<'a, R> View for BindGroupDescriptor<'a, R> {
    type V = BindGroupDescriptorView<R>;

    open spec fn view(&self) -> BindGroupDescriptorView<R> {
        BindGroupDescriptorView {
            label: self.label@,
            layout: self.layout,
            binding: self.entry.binding,
            resource: *self.entry.resource,
        }
    }
}

pub enum BindGroupUpdateView<R> {
    Replace(BindGroupDescriptorView<R>),
    Discard,
}

impl<'a, R> View for BindGroupUpdate<'a, R> {
    type V = BindGroupUpdateView<R>;

    open spec fn view(&self) -> BindGroupUpdateView<R> {
        match self {
            BindGroupUpdate::Replace(descriptor) => BindGroupUpdateView::Replace(descriptor@),
            BindGroupUpdate::Discard => BindGroupUpdateView::Discard,
        }
    }
}

/// The polyline bind group: the binding of the polyline uniforms at binding 0
/// of the polyline layout.
pub open spec fn polyline_bind_group_spec<R>(uniform_binding: R) -> BindGroupDescriptorView<R> {
    BindGroupDescriptorView {
        label: "polyline_bind_group"@,
        layout: PipelineLayout::Polyline,
        binding: 0,
        resource: uniform_binding,
    }
}

/// A view's bind group: the binding of the view uniforms at binding 0 of the
/// view layout.
pub open spec fn view_bind_group_spec<R>(view_binding: R) -> BindGroupDescriptorView<R> {
    BindGroupDescriptorView {
        label: "polyline_view_bind_group"@,
        layout: PipelineLayout::View,
        binding: 0,
        resource: view_binding,
    }
}

/// What becomes of the polyline bind group: a new one where the polyline
/// uniforms have a binding, none where they have not.
pub open spec fn polyline_update_spec<R>(uniform_binding: Option<R>) -> BindGroupUpdateView<R> {
    match uniform_binding {
        Some(binding) => BindGroupUpdateView::Replace(polyline_bind_group_spec(binding)),
        None => BindGroupUpdateView::Discard,
    }
}

/// What becomes of a view's bind group: a new one where the view uniforms
/// have a binding, none where they have not.
pub open spec fn view_update_spec<R>(view_binding: Option<R>) -> BindGroupUpdateView<R> {
    match view_binding {
        Some(binding) => BindGroupUpdateView::Replace(view_bind_group_spec(binding)),
        None => BindGroupUpdateView::Discard,
    }
}

/// What becomes of the views' bind groups: the same for each view, in order,
/// each on its own view.
pub open spec fn view_requests_spec<R>(view_binding: Option<R>, views: Seq<Entity>) -> Seq<
    (Entity, BindGroupUpdateView<R>),
> {
    views.map_values(|view: Entity| (view, view_update_spec(view_binding)))
}

/// The requests as pairs of view and update.
pub open spec fn requests_view<'a, R>(requests: Seq<ViewBindGroupRequest<'a, R>>) -> Seq<
    (Entity, BindGroupUpdateView<R>),
> {
    requests.map_values(|request: ViewBindGroupRequest<'a, R>| (request.view, request.update@))
}

/// The binding behind the reference, if there is one.
pub open spec fn binding_of<R>(binding: Option<&R>) -> Option<R> {
    match binding {
        Some(binding) => Some(*binding),
        None => None,
    }
}

/// Decides what becomes of the frame's polyline bind group: it is replaced
/// where the polyline uniforms have a binding, and discarded where they have
/// none.
pub fn queue_polyline_bind_group<'a, R>(uniform_binding: Option<&'a R>) -> (update: BindGroupUpdate<
    'a,
    R,
>)
    ensures
        update@ == polyline_update_spec(binding_of(uniform_binding)),
{
    match uniform_binding {
        Some(binding) => BindGroupUpdate::Replace(
            BindGroupDescriptor {
                label: "polyline_bind_group",
                layout: PipelineLayout::Polyline,
                entry: BindGroupEntry { binding: 0, resource: binding },
            },
        ),
        None => BindGroupUpdate::Discard,
    }
}

/// Decides what becomes of the bind group of each view, each on its own
/// view: it is replaced where the view uniforms have a binding, and discarded
/// where they have none.
pub fn queue_polyline_view_bind_groups<'a, R>(view_binding: Option<&'a R>, views: &[Entity]) -> (requests:
    Vec<ViewBindGroupRequest<'a, R>>)
    ensures
        requests_view(requests@) == view_requests_spec(binding_of(view_binding), views@),
{
    let mut requests: Vec<ViewBindGroupRequest<'a, R>> = Vec::new();
    let mut i: usize = 0;
    while i < views.len()
        invariant
            i <= views.len(),
            requests@.len() == i,
            forall|k: int|
                0 <= k < i ==> (#[trigger] requests@[k]).view == views@[k] && requests@[k].update@
                    == view_update_spec(binding_of(view_binding)),
        decreases views.len() - i,
    {
        let update = match view_binding {
            Some(binding) => BindGroupUpdate::Replace(
                BindGroupDescriptor {
                    label: "polyline_view_bind_group",
                    layout: PipelineLayout::View,
                    entry: BindGroupEntry { binding: 0, resource: binding },
                },
            ),
            None => BindGroupUpdate::Discard,
        };
        requests.push(ViewBindGroupRequest { view: views[i], update });
        i = i + 1;
    }
    assert(requests_view(requests@) =~= view_requests_spec(binding_of(view_binding), views@));
    requests
}

} // verus!
