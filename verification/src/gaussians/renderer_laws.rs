//! What holds of the pipelines that all renderers and draw data share, and of what they draw.
use vstd::prelude::*;

use crate::gaussians::model::Gaussians;
use crate::gaussians::renderer::{
    completes, draws, is_draw_data_of, pipelines, Buffers, DrawInstruction, DrawPhase,
    DrawableCollector, Gaussians3DDrawData, Gaussians3DRenderer, GpuTypes, LoadOp, MsaaMode, PipelineMakers, Pipelines, RenderStep,
    ResourceMakers, StoreOp, ViewTargetSetup,
};

verus! {

/// A pipeline is made once, by its own maker: needing the pipelines leaves all of them made, takes away
/// none, and changes nothing if they had all been made.
pub proof fn law_pipelines_are_made_once<T, MakeP, MakeS, MakeG>(
    before: Pipelines<T>,
    makers: PipelineMakers<MakeP, MakeS, MakeG>,
    after: Pipelines<T>,
) where
    T: GpuTypes,
    MakeP: Fn() -> T::Preprocessor,
    MakeS: Fn() -> T::RadixSorter,
    MakeG: Fn() -> T::Renderer,

    requires
        completes(before, makers, after),
    ensures
        after.is_complete(),
        before.stays_in(after),
        before.is_complete() ==> after == before,
        after.preprocessor is Some && after.radix_sorter is Some && after.renderer is Some,
        before.preprocessor is Some ==> after.preprocessor == before.preprocessor,
        before.radix_sorter is Some ==> after.radix_sorter == before.radix_sorter,
        before.renderer is Some ==> after.renderer == before.renderer,
        before.preprocessor is None ==> makers.preprocessor.ensures((), after.preprocessor->0),
        before.radix_sorter is None ==> makers.radix_sorter.ensures((), after.radix_sorter->0),
        before.renderer is None ==> makers.renderer.ensures((), after.renderer->0),
{
}

/// The renderers and the draw data of a process share their pipelines: any two renderers hold the
/// same ones, and the resources of any draw data were made for these very pipelines, whichever of
/// them was created first. The shared pipelines go through `states`, losing none on the way; the two
/// renderers and the draw data were created in the steps that led to states `i`, `j` and `k`.
pub proof fn law_renderers_and_draw_data_share_pipelines<T, Create, BindP, BindS, BindG>(
    states: Seq<Pipelines<T>>,
    i: int,
    j: int,
    k: int,
    one: Gaussians3DRenderer<T>,
    other: Gaussians3DRenderer<T>,
    draw_data: Gaussians3DDrawData<T>,
    gaussians: Gaussians,
    resources: ResourceMakers<Create, BindP, BindS, BindG>,
) where
    T: GpuTypes,
    Create: Fn(&Gaussians, u32, u32) -> Buffers<T>,
    BindP: Fn(
        T::Preprocessor,
        &T::CameraBuffer,
        &T::ModelTransformBuffer,
        &T::GaussianTransformBuffer,
        &T::GaussiansBuffer,
        &T::IndirectArgsBuffer,
        &T::RadixSortIndirectArgsBuffer,
        &T::IndirectIndicesBuffer,
        &T::GaussiansDepthBuffer,
    ) -> T::PreprocessorBindGroup,
    BindS: Fn(
        T::RadixSorter,
        &T::GaussiansDepthBuffer,
        &T::IndirectIndicesBuffer,
    ) -> T::RadixSorterBindGroups,
    BindG: Fn(
        T::Renderer,
        &T::CameraBuffer,
        &T::ModelTransformBuffer,
        &T::GaussianTransformBuffer,
        &T::GaussiansBuffer,
        &T::IndirectIndicesBuffer,
    ) -> T::RendererBindGroup,

    requires
        forall|n: int|
            0 <= n < states.len() - 1 ==> (#[trigger] states[n]).stays_in(states[n + 1]),
        0 <= i < states.len() && states[i].is_complete(),
        0 <= j < states.len() && states[j].is_complete(),
        0 <= k < states.len() && states[k].is_complete(),
        one.all() == states[i].all(),
        other.all() == states[j].all(),
        is_draw_data_of(draw_data, states[k].all(), gaussians, resources),
    ensures
        one == other,
        is_draw_data_of(draw_data, one.all(), gaussians, resources),
{
    complete_pipelines_agree(states, i, j);
    complete_pipelines_agree(states, i, k);
}

/// Two states in which all pipelines have been made have the same ones.
proof fn complete_pipelines_agree<T: GpuTypes>(states: Seq<Pipelines<T>>, i: int, j: int)
    requires
        forall|n: int|
            0 <= n < states.len() - 1 ==> (#[trigger] states[n]).stays_in(states[n + 1]),
        0 <= i < states.len() && states[i].is_complete(),
        0 <= j < states.len() && states[j].is_complete(),
    ensures
        states[i].all() == states[j].all(),
{
    if i <= j {
        pipelines_stay(states, i, j);
    } else {
        pipelines_stay(states, j, i);
    }
}

/// What has been made stays for good.
proof fn pipelines_stay<T: GpuTypes>(states: Seq<Pipelines<T>>, i: int, j: int)
    requires
        forall|n: int|
            0 <= n < states.len() - 1 ==> (#[trigger] states[n]).stays_in(states[n + 1]),
        0 <= i <= j < states.len(),
    ensures
        states[i].stays_in(states[j]),
    decreases j - i,
{
    if i < j {
        pipelines_stay(states, i, j - 1);
        assert(states[j - 1].stays_in(states[j - 1 + 1]));
    }
}

/// The stages of a frame work on the same buffers: the camera that is written is the one that the
/// projection and the drawing use, the depths that are projected are the ones that are sorted by, the
/// indices that are sorted are the ones that are drawn, and the arguments by which sorting and drawing
/// go are the ones that the projection has. Each stage's binding was made for the renderer's pipeline,
/// and the projection is of all the Gaussians, counted in 32 bits.
pub proof fn law_stages_of_a_frame_share_buffers<M, V, T, Create, BindP, BindS, BindG>(
    steps: Seq<RenderStep<M, V, T>>,
    instruction: DrawInstruction<T>,
    msaa_mode: MsaaMode,
    setup: ViewTargetSetup<M, V>,
    renderer: Gaussians3DRenderer<T>,
    gaussians: Gaussians,
    resources: ResourceMakers<Create, BindP, BindS, BindG>,
) where
    T: GpuTypes,
    Create: Fn(&Gaussians, u32, u32) -> Buffers<T>,
    BindP: Fn(
        T::Preprocessor,
        &T::CameraBuffer,
        &T::ModelTransformBuffer,
        &T::GaussianTransformBuffer,
        &T::GaussiansBuffer,
        &T::IndirectArgsBuffer,
        &T::RadixSortIndirectArgsBuffer,
        &T::IndirectIndicesBuffer,
        &T::GaussiansDepthBuffer,
    ) -> T::PreprocessorBindGroup,
    BindS: Fn(
        T::RadixSorter,
        &T::GaussiansDepthBuffer,
        &T::IndirectIndicesBuffer,
    ) -> T::RadixSorterBindGroups,
    BindG: Fn(
        T::Renderer,
        &T::CameraBuffer,
        &T::ModelTransformBuffer,
        &T::GaussianTransformBuffer,
        &T::GaussiansBuffer,
        &T::IndirectIndicesBuffer,
    ) -> T::RendererBindGroup,

    requires
        is_draw_data_of(*instruction.draw_data, renderer.all(), gaussians, resources),
        draws(steps, instruction, msaa_mode, setup),
    ensures
        ({
            let buffers = instruction.draw_data.buffers;
            let count = gaussians.gaussians@.len();
            &&& exists|entries: u32|
                (count - entries) % 0x1_0000_0000 == 0 && #[trigger] resources.buffers.ensures(
                    (&gaussians, entries, entries),
                    buffers,
                )
            &&& steps.len() == 4
            &&& steps[0] matches RenderStep::UpdateCamera { camera, .. } && camera == buffers.camera
            &&& steps[1] matches RenderStep::Preprocess { preprocessor_bind_group, gaussian_count } && {
                &&& count <= u32::MAX ==> gaussian_count == count
                &&& (count - gaussian_count) % 0x1_0000_0000 == 0
                &&& resources.preprocessor_bind_group.ensures(
                    (
                        renderer.preprocessor,
                        &buffers.camera,
                        &buffers.model_transform,
                        &buffers.gaussian_transform,
                        &buffers.gaussians,
                        &buffers.indirect_args,
                        &buffers.radix_sort_indirect_args,
                        &buffers.indirect_indices,
                        &buffers.gaussians_depth_buffer,
                    ),
                    *preprocessor_bind_group,
                )
            }
            &&& steps[2] matches RenderStep::Sort {
                radix_sorter_bind_group,
                radix_sort_indirect_args,
            } && {
                &&& radix_sort_indirect_args == buffers.radix_sort_indirect_args
                &&& resources.radix_sorter_bind_group.ensures(
                    (
                        renderer.radix_sorter,
                        &buffers.gaussians_depth_buffer,
                        &buffers.indirect_indices,
                    ),
                    *radix_sorter_bind_group,
                )
            }
            &&& steps[3] matches RenderStep::Render { renderer_bind_group, indirect_args, .. } && {
                &&& indirect_args == buffers.indirect_args
                &&& resources.renderer_bind_group.ensures(
                    (
                        renderer.renderer,
                        &buffers.camera,
                        &buffers.model_transform,
                        &buffers.gaussian_transform,
                        &buffers.gaussians,
                        &buffers.indirect_indices,
                    ),
                    *renderer_bind_group,
                )
            }
        }),
{
    let _ = law_buffers_have_room_for_every_gaussian(
        *instruction.draw_data,
        renderer.all(),
        gaussians,
        resources,
    );
}

/// Draw data is made for all its Gaussians: it counts every one of them, and its index and depth
/// buffers are asked for with exactly as many entries, counted in 32 bits.
pub proof fn law_buffers_have_room_for_every_gaussian<T, Create, BindP, BindS, BindG>(
    draw_data: Gaussians3DDrawData<T>,
    pipelines: (T::Preprocessor, T::RadixSorter, T::Renderer),
    gaussians: Gaussians,
    resources: ResourceMakers<Create, BindP, BindS, BindG>,
) -> (entries: u32) where
    T: GpuTypes,
    Create: Fn(&Gaussians, u32, u32) -> Buffers<T>,
    BindP: Fn(
        T::Preprocessor,
        &T::CameraBuffer,
        &T::ModelTransformBuffer,
        &T::GaussianTransformBuffer,
        &T::GaussiansBuffer,
        &T::IndirectArgsBuffer,
        &T::RadixSortIndirectArgsBuffer,
        &T::IndirectIndicesBuffer,
        &T::GaussiansDepthBuffer,
    ) -> T::PreprocessorBindGroup,
    BindS: Fn(
        T::RadixSorter,
        &T::GaussiansDepthBuffer,
        &T::IndirectIndicesBuffer,
    ) -> T::RadixSorterBindGroups,
    BindG: Fn(
        T::Renderer,
        &T::CameraBuffer,
        &T::ModelTransformBuffer,
        &T::GaussianTransformBuffer,
        &T::GaussiansBuffer,
        &T::IndirectIndicesBuffer,
    ) -> T::RendererBindGroup,

    requires
        is_draw_data_of(draw_data, pipelines, gaussians, resources),
    ensures
        draw_data.gaussian_count == gaussians.gaussians@.len(),
        resources.buffers.ensures((&gaussians, entries, entries), draw_data.buffers),
        gaussians.gaussians@.len() <= u32::MAX ==> entries == gaussians.gaussians@.len(),
        (gaussians.gaussians@.len() - entries) % 0x1_0000_0000 == 0,
{
    let count = gaussians.gaussians@.len();
    assert(gaussians@.len() == count);
    (count as int % 0x1_0000_0000) as u32
}

/// A frame shows the Gaussians of the first instruction, and only those, as the view has it: from its
/// camera, on top of what its targets show, behind what is nearer, without leaving a depth. Several
/// samples per pixel are resolved, single ones are not. Without an instruction nothing is encoded.
pub proof fn law_a_frame_adds_gaussians_to_the_view<'a, M, V, T: GpuTypes>(
    renderer: Gaussians3DRenderer<T>,
    msaa_mode: MsaaMode,
    setup: ViewTargetSetup<M, V>,
    draw_instructions: Vec<DrawInstruction<'a, T>>,
    steps: Vec<RenderStep<'a, M, V, T>>,
)
    requires
        Gaussians3DRenderer::<T>::cleanup::<M, V>.ensures(
            (&renderer, msaa_mode, &setup, &draw_instructions),
            steps,
        ),
    ensures
        draw_instructions@.len() == 0 ==> steps@.len() == 0,
        draw_instructions@.len() > 0 ==> {
            let draw_data = draw_instructions@[0].draw_data;
            &&& steps@.len() == 4
            &&& steps@[0] matches RenderStep::UpdateCamera { camera, projection, view, resolution } && {
                &&& camera == draw_data.buffers.camera
                &&& projection == setup.projection_from_view
                &&& view == setup.view_from_world
                &&& resolution@[0] == setup.resolution_in_pixel@[0]
                &&& resolution@[1] == setup.resolution_in_pixel@[1]
            }
            &&& steps@[1] matches RenderStep::Preprocess { preprocessor_bind_group, gaussian_count } && {
                &&& preprocessor_bind_group == draw_data.preprocessor_bind_group
                &&& draw_data.gaussian_count <= u32::MAX ==> gaussian_count
                    == draw_data.gaussian_count
                &&& (draw_data.gaussian_count - gaussian_count) % 0x1_0000_0000 == 0
            }
            &&& steps@[2] matches RenderStep::Sort {
                radix_sorter_bind_group,
                radix_sort_indirect_args,
            } && {
                &&& radix_sorter_bind_group == draw_data.radix_sorter_bind_group
                &&& radix_sort_indirect_args == draw_data.buffers.radix_sort_indirect_args
            }
            &&& steps@[3] matches RenderStep::Render { renderer_bind_group, indirect_args, pass } && {
                &&& renderer_bind_group == draw_data.renderer_bind_group
                &&& indirect_args == draw_data.buffers.indirect_args
                &&& pass.label@.take(setup.name@.len() as int) == setup.name@
                &&& pass.label@.skip(setup.name@.len() as int) == " - main gaussians pass"@
                &&& pass.color.view == setup.main_target_msaa
                &&& pass.color.load == LoadOp::Load && pass.color.store == StoreOp::Store
                &&& msaa_mode == MsaaMode::Off <==> pass.color.resolve_target is None
                &&& pass.color.resolve_target matches Some(target) ==> target
                    == setup.main_target_resolved
                &&& pass.depth.view == setup.depth_buffer
                &&& pass.depth.resolve_target is None
                &&& pass.depth.load == LoadOp::Load && pass.depth.store == StoreOp::Discard
            }
        },
{
    if draw_instructions@.len() > 0 {
        if let RenderStep::Render { pass, .. } = steps@[3] {
            assert(pass.label@.take(setup.name@.len() as int) =~= setup.name@);
            assert(pass.label@.skip(setup.name@.len() as int) =~= " - main gaussians pass"@);
        }
    }
}

/// A pass that others draw in as well gets nothing.
pub proof fn law_shared_passes_get_nothing<'a, M, V, T: GpuTypes>(
    renderer: Gaussians3DRenderer<T>,
    phase: DrawPhase,
    draw_instructions: Vec<DrawInstruction<'a, T>>,
    steps: Vec<RenderStep<'a, M, V, T>>,
)
    requires
        Gaussians3DRenderer::<T>::draw::<M, V>.ensures((&renderer, phase, &draw_instructions), steps),
    ensures
        steps@.len() == 0,
{
}

/// Whoever needs the pipelines gets the shared ones, once those that are missing have been made.
pub proof fn law_the_pipelines_are_handed_out<T, MakeP, MakeS, MakeG>(
    made: &mut Pipelines<T>,
    makers: PipelineMakers<MakeP, MakeS, MakeG>,
    r: (T::Preprocessor, T::RadixSorter, T::Renderer),
) where
    T: GpuTypes,
    MakeP: Fn() -> T::Preprocessor,
    MakeS: Fn() -> T::RadixSorter,
    MakeG: Fn() -> T::Renderer,

    requires
        pipelines::<T, MakeP, MakeS, MakeG>.ensures((made, &makers), r),
    ensures
        completes(*old(made), makers, *final(made)),
        final(made).preprocessor == Some(r.0),
        final(made).radix_sorter == Some(r.1),
        final(made).renderer == Some(r.2),
{
}

/// A renderer has the shared pipelines.
pub proof fn law_a_renderer_has_the_shared_pipelines<T, MakeP, MakeS, MakeG>(
    made: &mut Pipelines<T>,
    makers: PipelineMakers<MakeP, MakeS, MakeG>,
    r: Gaussians3DRenderer<T>,
) where
    T: GpuTypes,
    MakeP: Fn() -> T::Preprocessor,
    MakeS: Fn() -> T::RadixSorter,
    MakeG: Fn() -> T::Renderer,

    requires
        Gaussians3DRenderer::<T>::create_renderer::<MakeP, MakeS, MakeG>.ensures((made, &makers), r),
    ensures
        completes(*old(made), makers, *final(made)),
        final(made).preprocessor == Some(r.preprocessor),
        final(made).radix_sorter == Some(r.radix_sorter),
        final(made).renderer == Some(r.renderer),
{
}

/// Putting Gaussians on the GPU makes draw data of those Gaussians for the shared pipelines.
pub proof fn law_draw_data_is_for_the_shared_pipelines<
    T,
    MakeP,
    MakeS,
    MakeG,
    Create,
    BindP,
    BindS,
    BindG,
>(
    made: &mut Pipelines<T>,
    makers: PipelineMakers<MakeP, MakeS, MakeG>,
    gaussians: Gaussians,
    resources: ResourceMakers<Create, BindP, BindS, BindG>,
    r: Gaussians3DDrawData<T>,
) where
    T: GpuTypes,
    MakeP: Fn() -> T::Preprocessor,
    MakeS: Fn() -> T::RadixSorter,
    MakeG: Fn() -> T::Renderer,
    Create: Fn(&Gaussians, u32, u32) -> Buffers<T>,
    BindP: Fn(
        T::Preprocessor,
        &T::CameraBuffer,
        &T::ModelTransformBuffer,
        &T::GaussianTransformBuffer,
        &T::GaussiansBuffer,
        &T::IndirectArgsBuffer,
        &T::RadixSortIndirectArgsBuffer,
        &T::IndirectIndicesBuffer,
        &T::GaussiansDepthBuffer,
    ) -> T::PreprocessorBindGroup,
    BindS: Fn(
        T::RadixSorter,
        &T::GaussiansDepthBuffer,
        &T::IndirectIndicesBuffer,
    ) -> T::RadixSorterBindGroups,
    BindG: Fn(
        T::Renderer,
        &T::CameraBuffer,
        &T::ModelTransformBuffer,
        &T::GaussianTransformBuffer,
        &T::GaussiansBuffer,
        &T::IndirectIndicesBuffer,
    ) -> T::RendererBindGroup,

    requires
        Gaussians3DDrawData::<T>::new::<MakeP, MakeS, MakeG, Create, BindP, BindS, BindG>.ensures(
            (made, &makers, &gaussians, &resources),
            r,
        ),
    ensures
        completes(*old(made), makers, *final(made)),
        is_draw_data_of(
            r,
            (
                final(made).preprocessor->0,
                final(made).radix_sorter->0,
                final(made).renderer->0,
            ),
            gaussians,
            resources,
        ),
{
}

/// Each entity is one thing to draw among what is transparent, behind whatever there is to draw already.
pub proof fn law_an_entity_is_one_drawable<T: GpuTypes>(
    draw_data: Gaussians3DDrawData<T>,
    collector: &mut DrawableCollector,
)
    requires
        Gaussians3DDrawData::<T>::collect_drawables.ensures((&draw_data, collector), ()),
    ensures
        final(collector).drawables@.len() == old(collector).drawables@.len() + 1,
        final(collector).drawables@.drop_last() == old(collector).drawables@,
        final(collector).drawables@.last().0 == DrawPhase::Transparent,
        final(collector).drawables@.last().1.distance_sort_key.bits == 0,
        final(collector).drawables@.last().1.draw_data_payload == 0,
{
    assert(final(collector).drawables@.drop_last() =~= old(collector).drawables@);
}

} // verus!
