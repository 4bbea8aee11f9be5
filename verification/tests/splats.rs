use splat_interact::gaussians::model::{Gaussian, Gaussians};
use splat_interact::gaussians::renderer::{
    pipelines, Buffers, DrawInstruction, DrawPhase, DrawableCollector, Gaussians3DDrawData,
    Gaussians3DRenderer, GpuTypes, LoadOp, MsaaMode, PipelineMakers, Pipelines, RenderStep,
    ResourceMakers, StoreOp, ViewTargetSetup,
};
use splat_interact::gaussians::visualizer::{DataResult, Gaussians3DVisualizer};
use splat_interact::math::{Float32, Quat, Vec3};

fn f(x: f32) -> Float32 {
    Float32::from_bits(x.to_bits())
}

fn v(x: f32) -> Vec3 {
    Vec3::new(f(x), f(x + 0.25), f(x + 0.5))
}

fn q(x: f32) -> Quat {
    Quat::new(f(x), f(0.0), f(0.0), f(1.0))
}

fn harmonics(start: f32) -> [Float32; 45] {
    let mut sh = [f(0.0); 45];
    for (i, value) in sh.iter_mut().enumerate() {
        *value = f(start + i as f32);
    }
    sh
}

/// A result with one row of the given number of instances, told apart by `mark`.
fn result(path: &str, count: usize, mark: f32) -> DataResult {
    DataResult {
        entity_path: path.to_string(),
        rots: vec![vec![q(mark); count]],
        poss: vec![vec![v(mark); count]],
        colors: vec![vec![0x0102_0304; count]],
        shs: vec![],
        scales: vec![vec![v(mark); count]],
    }
}

/// A GPU whose pipelines and buffers are names, and whose bindings list what they were made from.
struct Named;

impl GpuTypes for Named {
    type Preprocessor = &'static str;
    type RadixSorter = &'static str;
    type Renderer = &'static str;
    type CameraBuffer = &'static str;
    type ModelTransformBuffer = &'static str;
    type GaussianTransformBuffer = &'static str;
    type GaussiansBuffer = String;
    type IndirectArgsBuffer = &'static str;
    type RadixSortIndirectArgsBuffer = &'static str;
    type IndirectIndicesBuffer = String;
    type GaussiansDepthBuffer = String;
    type PreprocessorBindGroup = String;
    type RadixSorterBindGroups = String;
    type RendererBindGroup = String;
}

fn none_made() -> Pipelines<Named> {
    Pipelines { preprocessor: None, radix_sorter: None, renderer: None }
}

fn project() -> &'static str {
    "project"
}

fn sort() -> &'static str {
    "sort"
}

fn draw() -> &'static str {
    "draw"
}

fn buffers(gaussians: &Gaussians, indices: u32, depths: u32) -> Buffers<Named> {
    Buffers {
        camera: "camera",
        model_transform: "model",
        gaussian_transform: "gaussian",
        gaussians: format!("gaussians[{}]", gaussians.gaussians.len()),
        indirect_args: "args",
        radix_sort_indirect_args: "sort args",
        indirect_indices: format!("indices[{indices}]"),
        gaussians_depth_buffer: format!("depths[{depths}]"),
    }
}

fn bind_preprocessor(
    pipeline: &'static str,
    camera: &&'static str,
    model_transform: &&'static str,
    gaussian_transform: &&'static str,
    gaussians: &String,
    indirect_args: &&'static str,
    radix_sort_indirect_args: &&'static str,
    indirect_indices: &String,
    gaussians_depth: &String,
) -> String {
    format!(
        "{pipeline}: {camera}, {model_transform}, {gaussian_transform}, {gaussians}, \
         {indirect_args}, {radix_sort_indirect_args}, {indirect_indices}, {gaussians_depth}"
    )
}

fn bind_radix_sorter(
    pipeline: &'static str,
    gaussians_depth: &String,
    indirect_indices: &String,
) -> String {
    format!("{pipeline}: {gaussians_depth}, {indirect_indices}")
}

fn bind_renderer(
    pipeline: &'static str,
    camera: &&'static str,
    model_transform: &&'static str,
    gaussian_transform: &&'static str,
    gaussians: &String,
    indirect_indices: &String,
) -> String {
    format!(
        "{pipeline}: {camera}, {model_transform}, {gaussian_transform}, {gaussians}, \
         {indirect_indices}"
    )
}

/// Executes with the given pipelines.
fn execute_with(
    made: &mut Pipelines<Named>,
    visualizer: &mut Gaussians3DVisualizer,
    results: Vec<DataResult>,
) -> Vec<Gaussians3DDrawData<Named>> {
    let makers = PipelineMakers { preprocessor: project, radix_sorter: sort, renderer: draw };
    let resources = ResourceMakers {
        buffers,
        preprocessor_bind_group: bind_preprocessor,
        radix_sorter_bind_group: bind_radix_sorter,
        renderer_bind_group: bind_renderer,
    };
    visualizer.execute(made, &makers, &results, &resources)
}

/// Executes with pipelines of its own.
fn execute(
    visualizer: &mut Gaussians3DVisualizer,
    results: Vec<DataResult>,
) -> Vec<Gaussians3DDrawData<Named>> {
    execute_with(&mut none_made(), visualizer, results)
}

fn renderer() -> Gaussians3DRenderer<Named> {
    let makers = PipelineMakers { preprocessor: project, radix_sorter: sort, renderer: draw };
    Gaussians3DRenderer::create_renderer(&mut none_made(), &makers)
}

fn marks(visualizer: &Gaussians3DVisualizer) -> Vec<(String, usize, u32)> {
    visualizer
        .gaussians
        .iter()
        .map(|(path, g)| (path.clone(), g.gaussians.len(), g.gaussians[0].pos.x.bits))
        .collect()
}

#[test]
fn a_gaussian_is_put_together() {
    let g = Gaussian::assemble(q(1.0), v(2.0), 0x1122_33ff, &harmonics(10.0), v(3.0));
    assert_eq!(g.rot, q(1.0));
    assert_eq!(g.pos, v(2.0));
    assert_eq!(g.color, [0x11, 0x22, 0x33, 0xff]);
    assert_eq!(g.scale, v(3.0));
    assert_eq!(g.sh.len(), 15);
    assert_eq!(g.sh[0], Vec3::new(f(10.0), f(11.0), f(12.0)));
    assert_eq!(g.sh[7], Vec3::new(f(31.0), f(32.0), f(33.0)));
    assert_eq!(g.sh[14], Vec3::new(f(52.0), f(53.0), f(54.0)));
}

#[test]
fn instances_are_as_many_as_the_shortest_required_component() {
    let mut r = result("/a", 4, 1.0);
    r.colors[0].pop();
    r.scales[0].truncate(2);
    r.shs = vec![vec![harmonics(1.0)]];
    let g = r.gaussians();
    assert_eq!(g.gaussians.len(), 2);
    assert_eq!(g.gaussians[0].sh[0], Vec3::new(f(1.0), f(2.0), f(3.0)));
    // The second instance has no harmonics of its own.
    for coefficient in g.gaussians[1].sh.iter() {
        assert_eq!(*coefficient, Vec3::new(f(0.0), f(0.0), f(0.0)));
    }
}

#[test]
fn harmonics_are_optional() {
    let g = result("/a", 3, 1.0).gaussians();
    assert_eq!(g.gaussians.len(), 3);
    for gaussian in g.gaussians.iter() {
        for coefficient in gaussian.sh.iter() {
            assert_eq!(*coefficient, Vec3::new(f(0.0), f(0.0), f(0.0)));
        }
    }
}

#[test]
fn rows_are_joined_in_order() {
    let mut r = result("/a", 1, 1.0);
    r.rots.push(vec![q(2.0), q(3.0)]);
    r.poss.push(vec![v(2.0), v(3.0)]);
    r.colors.push(vec![0, u32::MAX]);
    r.scales.push(vec![v(2.0), v(3.0)]);
    let g = r.gaussians();
    assert_eq!(g.gaussians.len(), 3);
    assert_eq!(g.gaussians[0].rot, q(1.0));
    assert_eq!(g.gaussians[1].rot, q(2.0));
    assert_eq!(g.gaussians[2].rot, q(3.0));
    assert_eq!(g.gaussians[2].color, [255; 4]);

    // Logged harmonics limit the rows, though not the instances.
    r.shs = vec![vec![]];
    assert_eq!(r.gaussians().gaussians.len(), 1);
    r.shs = vec![vec![], vec![harmonics(5.0)]];
    let g = r.gaussians();
    assert_eq!(g.gaussians.len(), 3);
    assert_eq!(g.gaussians[0].sh[0], Vec3::new(f(0.0), f(0.0), f(0.0)));
    assert_eq!(g.gaussians[1].sh[0], Vec3::new(f(5.0), f(6.0), f(7.0)));
    assert_eq!(g.gaussians[2].sh[0], Vec3::new(f(0.0), f(0.0), f(0.0)));

    r.poss.pop();
    assert_eq!(r.gaussians().gaussians.len(), 1);
    r.rots.clear();
    assert_eq!(r.gaussians().gaussians.len(), 0);
}

#[test]
fn entities_get_their_latest_gaussians_in_place() {
    let mut visualizer = Gaussians3DVisualizer::default();
    let results = || {
        vec![
            result("/a", 1, 1.0),
            result("/b", 2, 2.0),
            result("/empty", 0, 3.0),
            result("/a", 3, 4.0),
            result("/a", 0, 5.0),
        ]
    };
    let drawn = execute(&mut visualizer, results());
    let expected = vec![
        ("/a".to_string(), 3, 4.0f32.to_bits()),
        ("/b".to_string(), 2, 2.0f32.to_bits()),
    ];
    assert_eq!(marks(&visualizer), expected);
    assert_eq!(drawn.len(), 2);
    assert_eq!(drawn[0].gaussian_count, 3);
    assert_eq!(drawn[0].buffers.gaussians, "gaussians[3]");
    assert_eq!(drawn[0].radix_sorter_bind_group, "sort: depths[3], indices[3]");
    assert_eq!(drawn[1].gaussian_count, 2);
    assert_eq!(drawn[1].buffers.gaussians, "gaussians[2]");
    assert_eq!(drawn[1].buffers.indirect_indices, "indices[2]");
    assert_eq!(drawn[1].buffers.gaussians_depth_buffer, "depths[2]");

    // The same results once more change nothing.
    let again = execute(&mut visualizer, results());
    assert_eq!(marks(&visualizer), expected);
    assert_eq!(again.len(), 2);

    // An entity without a result keeps what it has.
    let more = execute(&mut visualizer, vec![result("/c", 1, 6.0), result("/b", 1, 7.0)]);
    assert_eq!(more.len(), 3);
    assert_eq!(
        marks(&visualizer),
        vec![
            ("/a".to_string(), 3, 4.0f32.to_bits()),
            ("/b".to_string(), 1, 7.0f32.to_bits()),
            ("/c".to_string(), 1, 6.0f32.to_bits()),
        ]
    );
}

#[test]
fn nothing_visible_leaves_nothing_to_draw() {
    let mut visualizer = Gaussians3DVisualizer::default();
    assert_eq!(execute(&mut visualizer, vec![]).len(), 0);
    let mut made = none_made();
    let drawn = execute_with(&mut made, &mut visualizer, vec![result("/a", 0, 1.0)]);
    assert_eq!(drawn.len(), 0);
    assert!(visualizer.gaussians.is_empty());
    assert!(made.preprocessor.is_none() && made.radix_sorter.is_none() && made.renderer.is_none());
}

#[test]
fn new_entities_come_in_the_order_of_their_first_gaussians() {
    let mut visualizer = Gaussians3DVisualizer::default();
    execute(
        &mut visualizer,
        vec![
            result("/late", 0, 1.0),
            result("/b", 1, 2.0),
            result("/a", 1, 3.0),
            result("/b", 1, 4.0),
            result("/late", 1, 5.0),
        ],
    );
    let paths: Vec<&str> = visualizer.gaussians.iter().map(|(path, _)| path.as_str()).collect();
    assert_eq!(paths, vec!["/b", "/a", "/late"]);
    for (_, gaussians) in visualizer.gaussians.iter() {
        assert!(!gaussians.gaussians.is_empty());
    }
}

#[test]
fn an_entity_is_empty_without_a_complete_instance() {
    assert!(result("/a", 1, 1.0).has_instance());
    assert!(!result("/a", 0, 1.0).has_instance());
    let mut r = result("/a", 0, 1.0);
    r.rots.push(vec![q(1.0)]);
    r.poss.push(vec![v(1.0)]);
    r.colors.push(vec![0]);
    r.scales.push(vec![v(1.0)]);
    assert!(r.has_instance());
    r.shs.push(vec![harmonics(0.0)]);
    assert!(!r.has_instance());
    assert_eq!(r.gaussians().gaussians.len(), 0);
}

#[test]
fn the_visualizer_has_its_name() {
    assert_eq!(Gaussians3DVisualizer::identifier(), "Gaussians3D");
}

fn setup() -> ViewTargetSetup<f32, &'static str> {
    ViewTargetSetup {
        name: "3D view".to_string(),
        projection_from_view: 1.5,
        view_from_world: 2.5,
        resolution_in_pixel: [640, 480],
        main_target_msaa: "msaa",
        main_target_resolved: "resolved",
        depth_buffer: "depth",
    }
}

fn draw_data(count: usize, name: &'static str) -> Gaussians3DDrawData<Named> {
    Gaussians3DDrawData {
        gaussian_count: count,
        buffers: Buffers {
            camera: name,
            model_transform: "model",
            gaussian_transform: "gaussian",
            gaussians: format!("{name} gaussians"),
            indirect_args: "args",
            radix_sort_indirect_args: "sort args",
            indirect_indices: format!("{name} indices"),
            gaussians_depth_buffer: format!("{name} depths"),
        },
        preprocessor_bind_group: format!("{name} projected"),
        radix_sorter_bind_group: format!("{name} sorted"),
        renderer_bind_group: format!("{name} drawn"),
    }
}

#[test]
fn the_first_gaussians_are_drawn_on_top() {
    let renderer = renderer();
    assert_eq!(renderer.preprocessor, "project");
    assert_eq!(renderer.radix_sorter, "sort");
    assert_eq!(renderer.renderer, "draw");
    let setup = setup();
    let first = draw_data(7, "first");
    let second = draw_data(9, "second");
    let instructions =
        vec![DrawInstruction { draw_data: &first }, DrawInstruction { draw_data: &second }];
    let steps = renderer.cleanup(MsaaMode::Msaa4x, &setup, &instructions);
    assert_eq!(steps.len(), 4);
    match &steps[0] {
        RenderStep::UpdateCamera { camera, projection, view, resolution } => {
            assert_eq!(**camera, "first");
            assert_eq!(**projection, 1.5);
            assert_eq!(**view, 2.5);
            assert_eq!(*resolution, [640, 480]);
        }
        _ => panic!("the camera comes first"),
    }
    match &steps[1] {
        RenderStep::Preprocess { preprocessor_bind_group, gaussian_count } => {
            assert_eq!(*preprocessor_bind_group, "first projected");
            assert_eq!(*gaussian_count, 7);
        }
        _ => panic!("projection comes second"),
    }
    match &steps[2] {
        RenderStep::Sort { radix_sorter_bind_group, radix_sort_indirect_args } => {
            assert_eq!(*radix_sorter_bind_group, "first sorted");
            assert_eq!(**radix_sort_indirect_args, "sort args");
        }
        _ => panic!("sorting comes third"),
    }
    match &steps[3] {
        RenderStep::Render { renderer_bind_group, indirect_args, pass } => {
            assert_eq!(*renderer_bind_group, "first drawn");
            assert_eq!(**indirect_args, "args");
            assert_eq!(pass.label, "3D view - main gaussians pass");
            assert_eq!(*pass.color.view, "msaa");
            assert_eq!(pass.color.resolve_target, Some(&"resolved"));
            assert_eq!(pass.color.load, LoadOp::Load);
            assert_eq!(pass.color.store, StoreOp::Store);
            assert_eq!(*pass.depth.view, "depth");
            assert_eq!(pass.depth.resolve_target, None);
            assert_eq!(pass.depth.load, LoadOp::Load);
            assert_eq!(pass.depth.store, StoreOp::Discard);
        }
        _ => panic!("drawing comes last"),
    }
}

#[test]
fn single_samples_are_not_resolved() {
    let renderer = renderer();
    let setup = setup();
    let data = draw_data(1, "only");
    let steps = renderer.cleanup(MsaaMode::Off, &setup, &vec![DrawInstruction { draw_data: &data }]);
    match &steps[3] {
        RenderStep::Render { pass, .. } => assert_eq!(pass.color.resolve_target, None),
        _ => panic!("drawing comes last"),
    }
}

#[test]
fn without_instructions_nothing_is_encoded() {
    let renderer = renderer();
    let setup = setup();
    let none: Vec<DrawInstruction<'_, Named>> = vec![];
    assert!(renderer.cleanup(MsaaMode::Msaa4x, &setup, &none).is_empty());
    let data = draw_data(1, "only");
    let steps: Vec<RenderStep<'_, f32, &str, Named>> =
        renderer.draw(DrawPhase::Transparent, &vec![DrawInstruction { draw_data: &data }]);
    assert!(steps.is_empty());
}

#[test]
fn an_entity_is_one_transparent_drawable() {
    let mut collector = DrawableCollector::new();
    draw_data(3, "a").collect_drawables(&mut collector);
    draw_data(5, "b").collect_drawables(&mut collector);
    assert_eq!(collector.drawables.len(), 2);
    for (phase, drawable) in collector.drawables.iter() {
        assert_eq!(*phase, DrawPhase::Transparent);
        assert_eq!(drawable.distance_sort_key, f(0.0));
        assert_eq!(drawable.draw_data_payload, 0);
    }
}

#[test]
fn pipelines_are_made_once() {
    let mut made: Pipelines<Named> =
        Pipelines { preprocessor: None, radix_sorter: Some("older"), renderer: None };
    let makers = PipelineMakers { preprocessor: project, radix_sorter: sort, renderer: draw };
    assert_eq!(pipelines(&mut made, &makers), ("project", "older", "draw"));
    let others =
        PipelineMakers { preprocessor: || "other", radix_sorter: || "other", renderer: || "other" };
    assert_eq!(pipelines(&mut made, &others), ("project", "older", "draw"));
}

#[test]
fn renderers_and_draw_data_share_their_pipelines() {
    let mut made = none_made();
    let makers = PipelineMakers { preprocessor: project, radix_sorter: sort, renderer: draw };
    let others =
        PipelineMakers { preprocessor: || "other", radix_sorter: || "other", renderer: || "other" };
    let resources = ResourceMakers {
        buffers,
        preprocessor_bind_group: bind_preprocessor,
        radix_sorter_bind_group: bind_radix_sorter,
        renderer_bind_group: bind_renderer,
    };
    let gaussians = result("/a", 5, 1.0).gaussians();
    let early = Gaussians3DDrawData::new(&mut made, &makers, &gaussians, &resources);
    let one = Gaussians3DRenderer::create_renderer(&mut made, &others);
    let other = Gaussians3DRenderer::create_renderer(&mut made, &makers);
    let late = Gaussians3DDrawData::new(&mut made, &others, &gaussians, &resources);
    assert_eq!((one.preprocessor, one.radix_sorter, one.renderer), ("project", "sort", "draw"));
    assert_eq!(
        (other.preprocessor, other.radix_sorter, other.renderer),
        ("project", "sort", "draw")
    );
    assert_eq!(early.radix_sorter_bind_group, "sort: depths[5], indices[5]");
    assert_eq!(late.preprocessor_bind_group, early.preprocessor_bind_group);
    assert_eq!(late.radix_sorter_bind_group, early.radix_sorter_bind_group);
    assert_eq!(late.renderer_bind_group, early.renderer_bind_group);
}

#[test]
fn the_stages_of_a_frame_share_buffers() {
    let mut visualizer = Gaussians3DVisualizer::default();
    let drawn = execute(&mut visualizer, vec![result("/a", 4, 1.0)]);
    assert_eq!(drawn.len(), 1);
    let setup = setup();
    let instructions = vec![DrawInstruction { draw_data: &drawn[0] }];
    let steps = renderer().cleanup(MsaaMode::Off, &setup, &instructions);
    assert!(matches!(&steps[0], RenderStep::UpdateCamera { camera: &"camera", .. }));
    match (&steps[1], &steps[2], &steps[3]) {
        (
            RenderStep::Preprocess { preprocessor_bind_group, gaussian_count },
            RenderStep::Sort { radix_sorter_bind_group, radix_sort_indirect_args },
            RenderStep::Render { renderer_bind_group, indirect_args, .. },
        ) => {
            assert_eq!(
                *preprocessor_bind_group,
                "project: camera, model, gaussian, gaussians[4], args, sort args, indices[4], \
                 depths[4]"
            );
            assert_eq!(*gaussian_count, 4);
            assert_eq!(*radix_sorter_bind_group, "sort: depths[4], indices[4]");
            assert_eq!(**radix_sort_indirect_args, "sort args");
            assert_eq!(
                *renderer_bind_group,
                "draw: camera, model, gaussian, gaussians[4], indices[4]"
            );
            assert_eq!(**indirect_args, "args");
        }
        _ => panic!("projection, sorting and drawing follow each other"),
    }
}
