//! What is drawn of the Gaussians, and how.
use vstd::prelude::*;
use vstd::string::*;

use crate::gaussians::model::Gaussians;
use crate::math::Float32;

verus! {

/// The types that a GPU library works with: its pipelines, its buffers, and what binds buffers to a
/// pipeline.
pub trait GpuTypes: Sized {
    /// A pipeline that culls and projects Gaussians.
    type Preprocessor: Copy;

    /// A pipeline that sorts the projected Gaussians.
    type RadixSorter: Copy;

    /// A pipeline that draws the sorted Gaussians.
    type Renderer: Copy;

    type CameraBuffer;

    type ModelTransformBuffer;

    type GaussianTransformBuffer;

    type GaussiansBuffer;

    type IndirectArgsBuffer;

    type RadixSortIndirectArgsBuffer;

    type IndirectIndicesBuffer;

    type GaussiansDepthBuffer;

    type PreprocessorBindGroup;

    type RadixSorterBindGroups;

    type RendererBindGroup;
}

/// The pipelines made so far. Each is made once, for whoever needs it first.
pub struct Pipelines<T: GpuTypes> {
    pub preprocessor: Option<T::Preprocessor>,
    pub radix_sorter: Option<T::RadixSorter>,
    pub renderer: Option<T::Renderer>,
}

/// How each pipeline is made.
pub struct PipelineMakers<MakeP, MakeS, MakeG> {
    pub preprocessor: MakeP,
    pub radix_sorter: MakeS,
    pub renderer: MakeG,
}

impl<T: GpuTypes> Pipelines<T> {
    /// Whether every pipeline has been made.
    pub open spec fn is_complete(self) -> bool {
        self.preprocessor is Some && self.radix_sorter is Some && self.renderer is Some
    }

    /// The pipelines, once they have been made.
    pub open spec fn all(self) -> (T::Preprocessor, T::RadixSorter, T::Renderer) {
        (self.preprocessor->0, self.radix_sorter->0, self.renderer->0)
    }

    /// Whether every pipeline that has been made is still there in `later`.
    pub open spec fn stays_in(self, later: Pipelines<T>) -> bool {
        &&& self.preprocessor is Some ==> later.preprocessor == self.preprocessor
        &&& self.radix_sorter is Some ==> later.radix_sorter == self.radix_sorter
        &&& self.renderer is Some ==> later.renderer == self.renderer
    }
}

/// Whether a slot becomes `after` when it is needed: it keeps what it holds, or else gets what `make`
/// makes.
pub open spec fn fills<A, F: Fn() -> A>(before: Option<A>, make: F, after: Option<A>) -> bool {
    match before {
        Some(_) => after == before,
        None => after matches Some(made) && make.ensures((), made),
    }
}

/// Whether some pipelines become `after` when they are needed: those that were made stay, and only
/// the others are made.
pub open spec fn completes<T, MakeP, MakeS, MakeG>(
    before: Pipelines<T>,
    makers: PipelineMakers<MakeP, MakeS, MakeG>,
    after: Pipelines<T>,
) -> bool where
    T: GpuTypes,
    MakeP: Fn() -> T::Preprocessor,
    MakeS: Fn() -> T::RadixSorter,
    MakeG: Fn() -> T::Renderer,
 {
    &&& fills(before.preprocessor, makers.preprocessor, after.preprocessor)
    &&& fills(before.radix_sorter, makers.radix_sorter, after.radix_sorter)
    &&& fills(before.renderer, makers.renderer, after.renderer)
}

/// Whether every pipeline that is still to be made can be made.
pub open spec fn can_complete<T, MakeP, MakeS, MakeG>(
    before: Pipelines<T>,
    makers: PipelineMakers<MakeP, MakeS, MakeG>,
) -> bool where
    T: GpuTypes,
    MakeP: Fn() -> T::Preprocessor,
    MakeS: Fn() -> T::RadixSorter,
    MakeG: Fn() -> T::Renderer,
 {
    &&& before.preprocessor is None ==> makers.preprocessor.requires(())
    &&& before.radix_sorter is None ==> makers.radix_sorter.requires(())
    &&& before.renderer is None ==> makers.renderer.requires(())
}

/// What a slot holds, after filling it if it is empty.
fn get_or_init<A: Copy, F: Fn() -> A>(slot: &mut Option<A>, make: &F) -> (r: A)
    requires
        *old(slot) is None ==> make.requires(()),
    ensures
        fills(*old(slot), *make, *final(slot)),
        *final(slot) == Some(r),
{
    match *slot {
        Some(made) => made,
        None => {
            let made = make();
            *slot = Some(made);
            made
        },
    }
}

/// The pipelines. Those that were made before are handed out again, only the others are made.
pub fn pipelines<T, MakeP, MakeS, MakeG>(
    made: &mut Pipelines<T>,
    makers: &PipelineMakers<MakeP, MakeS, MakeG>,
) -> (r: (T::Preprocessor, T::RadixSorter, T::Renderer)) where
    T: GpuTypes,
    MakeP: Fn() -> T::Preprocessor,
    MakeS: Fn() -> T::RadixSorter,
    MakeG: Fn() -> T::Renderer,

    requires
        can_complete(*old(made), *makers),
    ensures
        completes(*old(made), *makers, *final(made)),
        r == final(made).all(),
{
    let preprocessor = get_or_init(&mut made.preprocessor, &makers.preprocessor);
    let radix_sorter = get_or_init(&mut made.radix_sorter, &makers.radix_sorter);
    let renderer = get_or_init(&mut made.renderer, &makers.renderer);
    (preprocessor, radix_sorter, renderer)
}

/// The buffers of one entity.
pub struct Buffers<T: GpuTypes> {
    pub camera: T::CameraBuffer,
    pub model_transform: T::ModelTransformBuffer,
    pub gaussian_transform: T::GaussianTransformBuffer,
    pub gaussians: T::GaussiansBuffer,
    pub indirect_args: T::IndirectArgsBuffer,
    pub radix_sort_indirect_args: T::RadixSortIndirectArgsBuffer,
    pub indirect_indices: T::IndirectIndicesBuffer,
    pub gaussians_depth_buffer: T::GaussiansDepthBuffer,
}

/// How the resources of an entity are made: its buffers, from the Gaussians and the numbers of
/// entries of the index and the depth buffer, and what binds some of the buffers to each pipeline.
pub struct ResourceMakers<Create, BindP, BindS, BindG> {
    pub buffers: Create,
    pub preprocessor_bind_group: BindP,
    pub radix_sorter_bind_group: BindS,
    pub renderer_bind_group: BindG,
}

/// The Gaussians of one entity on the GPU.
pub struct Gaussians3DDrawData<T: GpuTypes> {
    /// How many Gaussians are in the Gaussians buffer.
    pub gaussian_count: usize,
    pub buffers: Buffers<T>,
    pub preprocessor_bind_group: T::PreprocessorBindGroup,
    pub radix_sorter_bind_group: T::RadixSorterBindGroups,
    pub renderer_bind_group: T::RendererBindGroup,
}

/// The number of entries that index and depth buffers have for a number of Gaussians: they are
/// counted in 32 bits.
pub open spec fn entries_for(count: nat) -> u32 {
    (count as int % 0x1_0000_0000) as u32
}

/// Whether what binds buffers to the pipelines is made from the right ones: the pipeline that projects
/// works on all of them, the one that sorts on the depths and the indices, and the one that draws
/// reads these same indices, the Gaussians, and where they and the camera are.
pub open spec fn is_bound<T, Create, BindP, BindS, BindG>(
    draw_data: Gaussians3DDrawData<T>,
    pipelines: (T::Preprocessor, T::RadixSorter, T::Renderer),
    resources: ResourceMakers<Create, BindP, BindS, BindG>,
) -> bool where
    T: GpuTypes,
    BindP: Fn(
        T::Preprocessor,
        &T::CameraBuffer,
        &T::ModelTransformBuffer,
        &T::GaussianTransformBuffer,
        &T::GaussiansBuffer,
        &T::IndirectArgsBuffer,
        &T::RadixSortIndirectArgsBuffer,
        &T::IndirectIndicesBuffer,
        &T::GaussiansDepthBuffer,
    ) -> T::PreprocessorBindGroup,
    BindS: Fn(
        T::RadixSorter,
        &T::GaussiansDepthBuffer,
        &T::IndirectIndicesBuffer,
    ) -> T::RadixSorterBindGroups,
    BindG: Fn(
        T::Renderer,
        &T::CameraBuffer,
        &T::ModelTransformBuffer,
        &T::GaussianTransformBuffer,
        &T::GaussiansBuffer,
        &T::IndirectIndicesBuffer,
    ) -> T::RendererBindGroup,
 {
    let buffers = draw_data.buffers;
    &&& resources.preprocessor_bind_group.ensures(
        (
            pipelines.0,
            &buffers.camera,
            &buffers.model_transform,
            &buffers.gaussian_transform,
            &buffers.gaussians,
            &buffers.indirect_args,
            &buffers.radix_sort_indirect_args,
            &buffers.indirect_indices,
            &buffers.gaussians_depth_buffer,
        ),
        draw_data.preprocessor_bind_group,
    )
    &&& resources.radix_sorter_bind_group.ensures(
        (pipelines.1, &buffers.gaussians_depth_buffer, &buffers.indirect_indices),
        draw_data.radix_sorter_bind_group,
    )
    &&& resources.renderer_bind_group.ensures(
        (
            pipelines.2,
            &buffers.camera,
            &buffers.model_transform,
            &buffers.gaussian_transform,
            &buffers.gaussians,
            &buffers.indirect_indices,
        ),
        draw_data.renderer_bind_group,
    )
}

/// Whether some buffers can be bound to the pipelines.
pub open spec fn can_bind<T, Create, BindP, BindS, BindG>(
    buffers: Buffers<T>,
    pipelines: (T::Preprocessor, T::RadixSorter, T::Renderer),
    resources: ResourceMakers<Create, BindP, BindS, BindG>,
) -> bool where
    T: GpuTypes,
    BindP: Fn(
        T::Preprocessor,
        &T::CameraBuffer,
        &T::ModelTransformBuffer,
        &T::GaussianTransformBuffer,
        &T::GaussiansBuffer,
        &T::IndirectArgsBuffer,
        &T::RadixSortIndirectArgsBuffer,
        &T::IndirectIndicesBuffer,
        &T::GaussiansDepthBuffer,
    ) -> T::PreprocessorBindGroup,
    BindS: Fn(
        T::RadixSorter,
        &T::GaussiansDepthBuffer,
        &T::IndirectIndicesBuffer,
    ) -> T::RadixSorterBindGroups,
    BindG: Fn(
        T::Renderer,
        &T::CameraBuffer,
        &T::ModelTransformBuffer,
        &T::GaussianTransformBuffer,
        &T::GaussiansBuffer,
        &T::IndirectIndicesBuffer,
    ) -> T::RendererBindGroup,
 {
    &&& resources.preprocessor_bind_group.requires(
        (
            pipelines.0,
            &buffers.camera,
            &buffers.model_transform,
            &buffers.gaussian_transform,
            &buffers.gaussians,
            &buffers.indirect_args,
            &buffers.radix_sort_indirect_args,
            &buffers.indirect_indices,
            &buffers.gaussians_depth_buffer,
        ),
    )
    &&& resources.radix_sorter_bind_group.requires(
        (pipelines.1, &buffers.gaussians_depth_buffer, &buffers.indirect_indices),
    )
    &&& resources.renderer_bind_group.requires(
        (
            pipelines.2,
            &buffers.camera,
            &buffers.model_transform,
            &buffers.gaussian_transform,
            &buffers.gaussians,
            &buffers.indirect_indices,
        ),
    )
}

/// Whether draw data is for the given Gaussians and pipelines: its buffers were made for the
/// Gaussians, and bound to the pipelines.
pub open spec fn is_draw_data_of<T, Create, BindP, BindS, BindG>(
    draw_data: Gaussians3DDrawData<T>,
    pipelines: (T::Preprocessor, T::RadixSorter, T::Renderer),
    gaussians: Gaussians,
    resources: ResourceMakers<Create, BindP, BindS, BindG>,
) -> bool where
    T: GpuTypes,
    Create: Fn(&Gaussians, u32, u32) -> Buffers<T>,
    BindP: Fn(
        T::Preprocessor,
        &T::CameraBuffer,
        &T::ModelTransformBuffer,
        &T::GaussianTransformBuffer,
        &T::GaussiansBuffer,
        &T::IndirectArgsBuffer,
        &T::RadixSortIndirectArgsBuffer,
        &T::IndirectIndicesBuffer,
        &T::GaussiansDepthBuffer,
    ) -> T::PreprocessorBindGroup,
    BindS: Fn(
        T::RadixSorter,
        &T::GaussiansDepthBuffer,
        &T::IndirectIndicesBuffer,
    ) -> T::RadixSorterBindGroups,
    BindG: Fn(
        T::Renderer,
        &T::CameraBuffer,
        &T::ModelTransformBuffer,
        &T::GaussianTransformBuffer,
        &T::GaussiansBuffer,
        &T::IndirectIndicesBuffer,
    ) -> T::RendererBindGroup,
 {
    let entries = entries_for(gaussians@.len());
    &&& draw_data.gaussian_count == gaussians@.len()
    &&& resources.buffers.ensures((&gaussians, entries, entries), draw_data.buffers)
    &&& is_bound(draw_data, pipelines, resources)
}

/// Whether draw data can be made for some Gaussians: the missing pipelines can be made, so can the
/// buffers, and whatever buffers come out can be bound to whatever pipelines do.
pub open spec fn can_make_draw_data<T, MakeP, MakeS, MakeG, Create, BindP, BindS, BindG>(
    before: Pipelines<T>,
    makers: PipelineMakers<MakeP, MakeS, MakeG>,
    gaussians: Gaussians,
    resources: ResourceMakers<Create, BindP, BindS, BindG>,
) -> bool where
    T: GpuTypes,
    MakeP: Fn() -> T::Preprocessor,
    MakeS: Fn() -> T::RadixSorter,
    MakeG: Fn() -> T::Renderer,
    Create: Fn(&Gaussians, u32, u32) -> Buffers<T>,
    BindP: Fn(
        T::Preprocessor,
        &T::CameraBuffer,
        &T::ModelTransformBuffer,
        &T::GaussianTransformBuffer,
        &T::GaussiansBuffer,
        &T::IndirectArgsBuffer,
        &T::RadixSortIndirectArgsBuffer,
        &T::IndirectIndicesBuffer,
        &T::GaussiansDepthBuffer,
    ) -> T::PreprocessorBindGroup,
    BindS: Fn(
        T::RadixSorter,
        &T::GaussiansDepthBuffer,
        &T::IndirectIndicesBuffer,
    ) -> T::RadixSorterBindGroups,
    BindG: Fn(
        T::Renderer,
        &T::CameraBuffer,
        &T::ModelTransformBuffer,
        &T::GaussianTransformBuffer,
        &T::GaussiansBuffer,
        &T::IndirectIndicesBuffer,
    ) -> T::RendererBindGroup,
 {
    let entries = entries_for(gaussians@.len());
    &&& can_complete(before, makers)
    &&& resources.buffers.requires((&gaussians, entries, entries))
    &&& forall|after: Pipelines<T>, buffers: Buffers<T>|
        completes(before, makers, after) && resources.buffers.ensures(
            (&gaussians, entries, entries),
            buffers,
        ) ==> #[trigger] can_bind(buffers, after.all(), resources)
}

impl<T: GpuTypes> Gaussians3DDrawData<T> {
    /// Puts the Gaussians of an entity on the GPU, for use by the shared pipelines.
    pub fn new<MakeP, MakeS, MakeG, Create, BindP, BindS, BindG>(
        made: &mut Pipelines<T>,
        makers: &PipelineMakers<MakeP, MakeS, MakeG>,
        gaussians: &Gaussians,
        resources: &ResourceMakers<Create, BindP, BindS, BindG>,
    ) -> (r: Self) where
        MakeP: Fn() -> T::Preprocessor,
        MakeS: Fn() -> T::RadixSorter,
        MakeG: Fn() -> T::Renderer,
        Create: Fn(&Gaussians, u32, u32) -> Buffers<T>,
        BindP: Fn(
            T::Preprocessor,
            &T::CameraBuffer,
            &T::ModelTransformBuffer,
            &T::GaussianTransformBuffer,
            &T::GaussiansBuffer,
            &T::IndirectArgsBuffer,
            &T::RadixSortIndirectArgsBuffer,
            &T::IndirectIndicesBuffer,
            &T::GaussiansDepthBuffer,
        ) -> T::PreprocessorBindGroup,
        BindS: Fn(
            T::RadixSorter,
            &T::GaussiansDepthBuffer,
            &T::IndirectIndicesBuffer,
        ) -> T::RadixSorterBindGroups,
        BindG: Fn(
            T::Renderer,
            &T::CameraBuffer,
            &T::ModelTransformBuffer,
            &T::GaussianTransformBuffer,
            &T::GaussiansBuffer,
            &T::IndirectIndicesBuffer,
        ) -> T::RendererBindGroup,

        requires
            can_make_draw_data(*old(made), *makers, *gaussians, *resources),
        ensures
            completes(*old(made), *makers, *final(made)),
            is_draw_data_of(r, final(made).all(), *gaussians, *resources),
    {
        let count: usize = gaussians.gaussians.len();
        let entries: u32 = (count as u64 % 0x1_0000_0000) as u32;
        assert(entries == entries_for(gaussians@.len()));
        let create = &resources.buffers;
        let buffers = create(gaussians, entries, entries);
        let (preprocessor, radix_sorter, renderer) = pipelines(made, makers);
        assert(can_bind(buffers, made.all(), *resources));
        let bind_preprocessor = &resources.preprocessor_bind_group;
        let preprocessor_bind_group = bind_preprocessor(
            preprocessor,
            &buffers.camera,
            &buffers.model_transform,
            &buffers.gaussian_transform,
            &buffers.gaussians,
            &buffers.indirect_args,
            &buffers.radix_sort_indirect_args,
            &buffers.indirect_indices,
            &buffers.gaussians_depth_buffer,
        );
        let bind_radix_sorter = &resources.radix_sorter_bind_group;
        let radix_sorter_bind_group = bind_radix_sorter(
            radix_sorter,
            &buffers.gaussians_depth_buffer,
            &buffers.indirect_indices,
        );
        let bind_renderer = &resources.renderer_bind_group;
        let renderer_bind_group = bind_renderer(
            renderer,
            &buffers.camera,
            &buffers.model_transform,
            &buffers.gaussian_transform,
            &buffers.gaussians,
            &buffers.indirect_indices,
        );
        Gaussians3DDrawData {
            gaussian_count: count,
            buffers,
            preprocessor_bind_group,
            radix_sorter_bind_group,
            renderer_bind_group,
        }
    }

    /// Registers the Gaussians of an entity as one thing to draw.
    pub fn collect_drawables(&self, collector: &mut DrawableCollector)
        ensures
            final(collector).drawables@ == old(collector).drawables@.push(
                (
                    DrawPhase::Transparent,
                    DrawDataDrawable { distance_sort_key: Float32::zero(), draw_data_payload: 0 },
                ),
            ),
    {
        collector.add_drawable_for_phase(
            DrawPhase::Transparent,
            DrawDataDrawable { distance_sort_key: Float32::zero(), draw_data_payload: 0 },
        );
    }
}

/// When during a frame something is drawn.
#[derive(Debug, Clone, Copy, PartialEq, Eq, Structural)]
pub enum DrawPhase {
    /// After everything opaque, blended with what is there.
    Transparent,
}

/// One thing to draw.
#[derive(Debug, Clone, Copy)]
pub struct DrawDataDrawable {
    /// Orders what is drawn in the same phase.
    pub distance_sort_key: Float32,
    /// Tells the drawables of the same draw data apart.
    pub draw_data_payload: u32,
}

/// Everything there is to draw, with its phase.
pub struct DrawableCollector {
    pub drawables: Vec<(DrawPhase, DrawDataDrawable)>,
}

impl DrawableCollector {
    /// A collector with nothing to draw.
    pub fn new() -> (r: DrawableCollector)
        ensures
            r.drawables@ == Seq::<(DrawPhase, DrawDataDrawable)>::empty(),
    {
        DrawableCollector { drawables: Vec::new() }
    }

    /// Adds something to draw.
    pub fn add_drawable_for_phase(&mut self, phase: DrawPhase, drawable: DrawDataDrawable)
        ensures
            final(self).drawables@ == old(self).drawables@.push((phase, drawable)),
    {
        self.drawables.push((phase, drawable));
    }
}

/// Whether edges are smoothed by drawing several samples per pixel.
#[derive(Debug, Clone, Copy, PartialEq, Eq, Structural)]
pub enum MsaaMode {
    /// Four samples per pixel.
    Msaa4x,
    /// One sample per pixel.
    Off,
}

/// The view that is drawn into: its matrices are of type `M`, its render targets of type `V`.
pub struct ViewTargetSetup<M, V> {
    pub name: String,
    pub projection_from_view: M,
    pub view_from_world: M,
    pub resolution_in_pixel: [u32; 2],
    pub main_target_msaa: V,
    pub main_target_resolved: V,
    pub depth_buffer: V,
}

/// Draw data that is to be drawn.
pub struct DrawInstruction<'a, T: GpuTypes> {
    pub draw_data: &'a Gaussians3DDrawData<T>,
}

/// What a render target holds at the start of a pass.
#[derive(Debug, Clone, Copy, PartialEq, Eq, Structural)]
pub enum LoadOp {
    /// Whatever it held before.
    Load,
    /// A single value everywhere.
    Clear,
}

/// What becomes of a render target at the end of a pass.
#[derive(Debug, Clone, Copy, PartialEq, Eq, Structural)]
pub enum StoreOp {
    /// It keeps what was drawn.
    Store,
    /// What it holds is not needed any more.
    Discard,
}

/// A render target and its treatment by a pass.
pub struct Attachment<'a, V> {
    pub view: &'a V,
    pub resolve_target: Option<&'a V>,
    pub load: LoadOp,
    pub store: StoreOp,
}

/// The pass that draws the Gaussians.
pub struct GaussiansPass<'a, V> {
    pub label: String,
    pub color: Attachment<'a, V>,
    pub depth: Attachment<'a, V>,
}

/// Something to be encoded for the GPU.
pub enum RenderStep<'a, M, V, T: GpuTypes> {
    /// Write the camera to its buffer.
    UpdateCamera {
        camera: &'a T::CameraBuffer,
        projection: &'a M,
        view: &'a M,
        resolution: [u32; 2],
    },
    /// Cull and project the Gaussians.
    Preprocess {
        preprocessor_bind_group: &'a T::PreprocessorBindGroup,
        gaussian_count: u32,
    },
    /// Sort the projected Gaussians by depth.
    Sort {
        radix_sorter_bind_group: &'a T::RadixSorterBindGroups,
        radix_sort_indirect_args: &'a T::RadixSortIndirectArgsBuffer,
    },
    /// Draw the sorted Gaussians.
    Render {
        renderer_bind_group: &'a T::RendererBindGroup,
        indirect_args: &'a T::IndirectArgsBuffer,
        pass: GaussiansPass<'a, V>,
    },
}

/// Whether a pass adds to what the view already shows, behind what is nearer, and leaves no depth of
/// its own. The result is resolved to single samples if there are several per pixel.
pub open spec fn is_gaussians_pass<M, V>(
    pass: GaussiansPass<V>,
    msaa_mode: MsaaMode,
    setup: ViewTargetSetup<M, V>,
) -> bool {
    &&& pass.label@ == setup.name@ + " - main gaussians pass"@
    &&& pass.color == Attachment {
        view: &setup.main_target_msaa,
        resolve_target: if msaa_mode == MsaaMode::Off {
            None
        } else {
            Some(&setup.main_target_resolved)
        },
        load: LoadOp::Load,
        store: StoreOp::Store,
    }
    &&& pass.depth == Attachment {
        view: &setup.depth_buffer,
        resolve_target: None,
        load: LoadOp::Load,
        store: StoreOp::Discard,
    }
}

/// Whether some steps draw one set of Gaussians: the camera is set, the Gaussians are projected,
/// then sorted, then drawn.
pub open spec fn draws<M, V, T: GpuTypes>(
    steps: Seq<RenderStep<M, V, T>>,
    instruction: DrawInstruction<T>,
    msaa_mode: MsaaMode,
    setup: ViewTargetSetup<M, V>,
) -> bool {
    let draw_data = instruction.draw_data;
    &&& steps.len() == 4
    &&& steps[0] matches RenderStep::UpdateCamera { camera, projection, view, resolution } && {
        &&& camera == draw_data.buffers.camera
        &&& projection == setup.projection_from_view
        &&& view == setup.view_from_world
        &&& resolution == setup.resolution_in_pixel
    }
    &&& steps[1] matches RenderStep::Preprocess { preprocessor_bind_group, gaussian_count } && {
        &&& preprocessor_bind_group == draw_data.preprocessor_bind_group
        &&& gaussian_count == entries_for(draw_data.gaussian_count as nat)
    }
    &&& steps[2] matches RenderStep::Sort { radix_sorter_bind_group, radix_sort_indirect_args } && {
        &&& radix_sorter_bind_group == draw_data.radix_sorter_bind_group
        &&& radix_sort_indirect_args == draw_data.buffers.radix_sort_indirect_args
    }
    &&& steps[3] matches RenderStep::Render { renderer_bind_group, indirect_args, pass } && {
        &&& renderer_bind_group == draw_data.renderer_bind_group
        &&& indirect_args == draw_data.buffers.indirect_args
        &&& is_gaussians_pass(pass, msaa_mode, setup)
    }
}

/// The renderer of Gaussians.
pub struct Gaussians3DRenderer<T: GpuTypes> {
    pub preprocessor: T::Preprocessor,
    pub radix_sorter: T::RadixSorter,
    pub renderer: T::Renderer,
}

impl<T: GpuTypes> Gaussians3DRenderer<T> {
    /// The pipelines that the renderer uses.
    pub open spec fn all(self) -> (T::Preprocessor, T::RadixSorter, T::Renderer) {
        (self.preprocessor, self.radix_sorter, self.renderer)
    }

    /// The renderer that uses the shared pipelines.
    pub fn create_renderer<MakeP, MakeS, MakeG>(
        made: &mut Pipelines<T>,
        makers: &PipelineMakers<MakeP, MakeS, MakeG>,
    ) -> (r: Self) where
        MakeP: Fn() -> T::Preprocessor,
        MakeS: Fn() -> T::RadixSorter,
        MakeG: Fn() -> T::Renderer,

        requires
            can_complete(*old(made), *makers),
        ensures
            completes(*old(made), *makers, *final(made)),
            r.all() == final(made).all(),
    {
        let (preprocessor, radix_sorter, renderer) = pipelines(made, makers);
        Gaussians3DRenderer { preprocessor, radix_sorter, renderer }
    }

    /// What is encoded once the passes of a view are over: the Gaussians of the first instruction
    /// are drawn on top, if there is one.
    pub fn cleanup<'a, M, V>(
        &self,
        msaa_mode: MsaaMode,
        setup: &'a ViewTargetSetup<M, V>,
        draw_instructions: &Vec<DrawInstruction<'a, T>>,
    ) -> (r: Vec<RenderStep<'a, M, V, T>>)
        ensures
            draw_instructions@.len() == 0 ==> r@.len() == 0,
            draw_instructions@.len() > 0 ==> draws(
                r@,
                draw_instructions@[0],
                msaa_mode,
                *setup,
            ),
    {
        let mut steps: Vec<RenderStep<'a, M, V, T>> = Vec::new();
        if draw_instructions.len() == 0 {
            return steps;
        }
        let draw_data = draw_instructions[0].draw_data;
        steps.push(
            RenderStep::UpdateCamera {
                camera: &draw_data.buffers.camera,
                projection: &setup.projection_from_view,
                view: &setup.view_from_world,
                resolution: setup.resolution_in_pixel,
            },
        );
        let gaussian_count: u32 = (draw_data.gaussian_count as u64 % 0x1_0000_0000) as u32;
        steps.push(
            RenderStep::Preprocess {
                preprocessor_bind_group: &draw_data.preprocessor_bind_group,
                gaussian_count,
            },
        );
        steps.push(
            RenderStep::Sort {
                radix_sorter_bind_group: &draw_data.radix_sorter_bind_group,
                radix_sort_indirect_args: &draw_data.buffers.radix_sort_indirect_args,
            },
        );
        let needs_msaa_resolve = msaa_mode != MsaaMode::Off;
        let mut label = setup.name.clone();
        label.append(" - main gaussians pass");
        steps.push(
            RenderStep::Render {
                renderer_bind_group: &draw_data.renderer_bind_group,
                indirect_args: &draw_data.buffers.indirect_args,
                pass: GaussiansPass {
                    label,
                    color: Attachment {
                        view: &setup.main_target_msaa,
                        resolve_target: if needs_msaa_resolve {
                            Some(&setup.main_target_resolved)
                        } else {
                            None
                        },
                        load: LoadOp::Load,
                        store: StoreOp::Store,
                    },
                    depth: Attachment {
                        view: &setup.depth_buffer,
                        resolve_target: None,
                        load: LoadOp::Load,
                        store: StoreOp::Discard,
                    },
                },
            },
        );
        steps
    }

    /// What is encoded in a pass that others draw in as well: nothing.
    pub fn draw<'a, M, V>(
        &self,
        _phase: DrawPhase,
        _draw_instructions: &Vec<DrawInstruction<'a, T>>,
    ) -> (r: Vec<RenderStep<'a, M, V, T>>)
        ensures
            r@.len() == 0,
    {
        Vec::new()
    }
}

} // verus!
