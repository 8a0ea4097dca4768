use pixel_art_shader::capture::{
    dual_camera_rig, sync_pixel_art_camera, CameraTarget, CameraTransform, ImageHandle,
    OffscreenTarget, FULL_RES_LAYER, PIXEL_ART_LAYER,
};
use pixel_art_shader::color::Color;
use pixel_art_shader::compositor::{ColorImage, DepthImage};
use pixel_art_shader::fixed::FP_ONE;
use pixel_art_shader::pipeline::{
    extract_compositor, find_extracted, BindingKind, CompositorKey, CompositorLabel,
    CompositorNode, CompositorNodeInputs, CompositorPipeline, CompositorPipelineId,
    CompositorUniform, ExtractedCompositor, LowResPixelArtCamera, OutputFormat,
    PixelArtCompositor, PixelArtCompositorPlugin, SpecializedCompositorPipelines,
    prepare_compositor_pipelines,
};
use pixel_art_shader::schedule::{
    AppModel, MaterialPluginKind, RenderAppModel, RenderGraph, RenderGraphLabel, RenderSystem,
    ShaderAsset,
};
use pixel_art_shader::shading::PixelArtShaderPlugin;

fn rgb(r: u32, g: u32, b: u32) -> Color {
    Color { r, g, b, a: FP_ONE }
}

fn handle(id: u32) -> ImageHandle {
    ImageHandle { id }
}

fn one_pixel_color(c: Color) -> ColorImage {
    ColorImage { width: 1, height: 1, texels: vec![c] }
}

fn one_pixel_depth(d: u32) -> DepthImage {
    DepthImage { width: 1, height: 1, texels: vec![d] }
}

fn default_graph() -> RenderGraph {
    RenderGraph {
        nodes: vec![
            RenderGraphLabel::MainPass,
            RenderGraphLabel::Tonemapping,
            RenderGraphLabel::PostProcessing,
            RenderGraphLabel::Fxaa,
            RenderGraphLabel::Upscaling,
        ],
    }
}

fn ready_inputs() -> CompositorNodeInputs {
    CompositorNodeInputs {
        view_target: one_pixel_color(rgb(100, 100, 100)),
        fullres_depth: Some(one_pixel_depth(2048)),
        extracted: Some(ExtractedCompositor { lowres_image: handle(7) }),
        pipeline: Some(CompositorPipelineId(0)),
        uniform: Some(CompositorUniform { depth_bias: 0 }),
        lowres_depth: Some(one_pixel_depth(1000)),
        images: vec![(handle(7), one_pixel_color(rgb(4000, 0, 0)))],
    }
}

#[test]
fn extract_unsupported_platform_is_empty() {
    let compositors = vec![(1u32, PixelArtCompositor { lowres_image: handle(7), depth_bias: 3 })];
    let cameras = vec![(2u32, LowResPixelArtCamera {}), (9, LowResPixelArtCamera {})];
    let frame = extract_compositor(false, &compositors, &cameras);
    assert_eq!(frame.compositors.len(), 0);
    assert_eq!(frame.lowres_cameras.len(), 0);
}

#[test]
fn extract_copies_components_and_markers() {
    let compositors = vec![
        (1u32, PixelArtCompositor { lowres_image: handle(7), depth_bias: 3 }),
        (5u32, PixelArtCompositor { lowres_image: handle(9), depth_bias: 80 }),
    ];
    let cameras = vec![(2u32, LowResPixelArtCamera {}), (9, LowResPixelArtCamera {})];
    let frame = extract_compositor(true, &compositors, &cameras);
    assert_eq!(frame.compositors.len(), 2);
    assert_eq!(frame.compositors[0].0, 1);
    assert_eq!(frame.compositors[0].1, ExtractedCompositor { lowres_image: handle(7) });
    assert_eq!(frame.compositors[0].2, CompositorUniform { depth_bias: 3 });
    assert_eq!(frame.compositors[1].0, 5);
    assert_eq!(frame.compositors[1].1, ExtractedCompositor { lowres_image: handle(9) });
    assert_eq!(frame.compositors[1].2, CompositorUniform { depth_bias: 80 });
    assert_eq!(frame.lowres_cameras, vec![2, 9]);
}

#[test]
fn find_extracted_by_entity() {
    let compositors = vec![(4u32, PixelArtCompositor { lowres_image: handle(7), depth_bias: 3 })];
    let frame = extract_compositor(true, &compositors, &vec![]);
    let found = find_extracted(&frame, 4);
    assert_eq!(found, Some((ExtractedCompositor { lowres_image: handle(7) }, CompositorUniform {
        depth_bias: 3,
    })));
    assert_eq!(find_extracted(&frame, 5), None);
}

#[test]
fn node_composites_when_every_resource_is_present() {
    let node = CompositorNode::new();
    let r = node.run(ready_inputs());
    assert!(r.composited);
    assert_eq!(r.texture_reads, 4);
    assert_eq!(r.draw_calls, 1);
    // The low-res surface is in front and opaque: its color wins.
    assert_eq!(r.output.texels, vec![rgb(4000, 0, 0)]);
}

#[test]
fn node_skips_without_extracted_component() {
    let node = CompositorNode::new();
    let mut inp = ready_inputs();
    inp.extracted = None;
    let view = inp.view_target.texels.clone();
    let r = node.run(inp);
    assert!(!r.composited);
    assert_eq!(r.texture_reads, 0);
    assert_eq!(r.draw_calls, 0);
    assert_eq!(r.output.texels, view);
}

#[test]
fn node_skips_without_pipeline() {
    let node = CompositorNode::new();
    let mut inp = ready_inputs();
    inp.pipeline = None;
    let r = node.run(inp);
    assert!(!r.composited);
    assert_eq!((r.texture_reads, r.draw_calls), (0, 0));
}

#[test]
fn node_skips_without_uniform() {
    let node = CompositorNode::new();
    let mut inp = ready_inputs();
    inp.uniform = None;
    let r = node.run(inp);
    assert!(!r.composited);
    assert_eq!((r.texture_reads, r.draw_calls), (0, 0));
}

#[test]
fn node_skips_without_fullres_depth() {
    let node = CompositorNode::new();
    let mut inp = ready_inputs();
    inp.fullres_depth = None;
    let r = node.run(inp);
    assert!(!r.composited);
}

#[test]
fn node_skips_without_lowres_camera_depth() {
    let node = CompositorNode::new();
    let mut inp = ready_inputs();
    inp.lowres_depth = None;
    let r = node.run(inp);
    assert!(!r.composited);
}

#[test]
fn node_skips_without_lowres_image_asset() {
    let node = CompositorNode::new();
    let mut inp = ready_inputs();
    inp.images = vec![];
    let r = node.run(inp);
    assert!(!r.composited);
}

#[test]
fn node_skips_on_size_mismatch() {
    let node = CompositorNode::new();
    let mut inp = ready_inputs();
    // The low-res depth no longer matches the low-res image's size.
    inp.lowres_depth = Some(DepthImage { width: 2, height: 1, texels: vec![0, 0] });
    let r = node.run(inp);
    assert!(!r.composited);
}

#[test]
fn unsupported_session_does_zero_work() {
    // The capability flag is false: extraction leaves the snapshot empty,
    // the view finds no extracted component, and the node reads and draws
    // nothing for the whole session.
    let compositors = vec![(1u32, PixelArtCompositor { lowres_image: handle(7), depth_bias: 3 })];
    let frame = extract_compositor(false, &compositors, &vec![(4u32, LowResPixelArtCamera {})]);
    assert_eq!(find_extracted(&frame, 1), None);
    let node = CompositorNode::new();
    let mut inp = ready_inputs();
    inp.extracted = None;
    let view = inp.view_target.texels.clone();
    let r = node.run(inp);
    assert!(!r.composited);
    assert_eq!(r.texture_reads, 0);
    assert_eq!(r.draw_calls, 0);
    assert_eq!(r.output.texels, view);
}

#[test]
fn pipeline_layout_binds_six_slots_in_order() {
    let p = CompositorPipeline::new();
    assert_eq!(
        p.layout,
        vec![
            BindingKind::ColorTexture,
            BindingKind::DepthTexture,
            BindingKind::ColorTexture,
            BindingKind::DepthTexture,
            BindingKind::NearestSampler,
            BindingKind::UniformBuffer,
        ]
    );
    assert!(p.nearest_sampler);
    assert_eq!(p.shader, ShaderAsset::CompositorFragment);
}

#[test]
fn specialize_selects_format_from_hdr_key() {
    let p = CompositorPipeline::new();
    let hdr = p.specialize(CompositorKey { hdr: true });
    assert_eq!(hdr.format, OutputFormat::Hdr);
    let sdr = p.specialize(CompositorKey { hdr: false });
    assert_eq!(sdr.format, OutputFormat::Standard);
    assert!(!hdr.blend_enabled);
    assert_eq!(hdr.layout, p.layout);
}

#[test]
fn specialization_cache_memoizes_by_key() {
    let pipeline = CompositorPipeline::new();
    let mut cache = SpecializedCompositorPipelines::new();
    let a = cache.specialize(&pipeline, CompositorKey { hdr: false });
    let b = cache.specialize(&pipeline, CompositorKey { hdr: false });
    let c = cache.specialize(&pipeline, CompositorKey { hdr: true });
    let d = cache.specialize(&pipeline, CompositorKey { hdr: true });
    assert_eq!(a, b);
    assert_eq!(c, d);
    assert_ne!(a.0, c.0);
    assert_eq!(cache.entries.len(), 2);
}

#[test]
fn prepare_resolves_each_view() {
    let pipeline = CompositorPipeline::new();
    let mut cache = SpecializedCompositorPipelines::new();
    let views = vec![(1u32, false), (2u32, true), (3u32, false)];
    let ids = prepare_compositor_pipelines(&views, &pipeline, &mut cache);
    assert_eq!(ids.len(), 3);
    assert_eq!(ids[0].0, 1);
    assert_eq!(ids[1].0, 2);
    assert_eq!(ids[2].0, 3);
    // The two standard-range views share one cached pipeline.
    assert_eq!(ids[0].1, ids[2].1);
    assert_ne!(ids[0].1.0, ids[1].1.0);
}

#[test]
fn plugin_inserts_node_between_post_processing_and_antialiasing() {
    let plugin = PixelArtCompositorPlugin {};
    let mut app = AppModel { shaders: vec![], material_plugins: vec![] };
    let mut render_app = RenderAppModel {
        graph: default_graph(),
        extract_systems: vec![],
        prepare_systems: vec![],
    };
    let ok = plugin.build(&mut app, &mut render_app);
    assert!(ok);
    assert_eq!(app.shaders, vec![ShaderAsset::CompositorFragment]);
    assert_eq!(render_app.extract_systems, vec![RenderSystem::ExtractCompositor]);
    assert_eq!(render_app.prepare_systems, vec![RenderSystem::PrepareCompositorPipelines]);
    let nodes = &render_app.graph.nodes;
    let pos = |l: RenderGraphLabel| nodes.iter().position(|n| *n == l).unwrap();
    let post = pos(RenderGraphLabel::PostProcessing);
    let comp = pos(RenderGraphLabel::PixelArtCompositor);
    let fxaa = pos(RenderGraphLabel::Fxaa);
    assert!(post < comp && comp < fxaa);
    // The finish step builds the pipeline resources.
    let pipeline = plugin.finish();
    assert_eq!(pipeline.shader, ShaderAsset::CompositorFragment);
}

#[test]
fn plugin_build_fails_when_already_inserted() {
    let plugin = PixelArtCompositorPlugin {};
    let mut app = AppModel { shaders: vec![], material_plugins: vec![] };
    let mut render_app = RenderAppModel {
        graph: default_graph(),
        extract_systems: vec![],
        prepare_systems: vec![],
    };
    assert!(plugin.build(&mut app, &mut render_app));
    let nodes_before = render_app.graph.nodes.clone();
    assert!(!plugin.build(&mut app, &mut render_app));
    assert_eq!(render_app.graph.nodes, nodes_before);
}

#[test]
fn compositor_label_names_the_node() {
    let label = CompositorLabel {};
    assert_eq!(label.as_graph_label(), RenderGraphLabel::PixelArtCompositor);
}

#[test]
fn shader_plugin_registers_stages_and_materials() {
    let plugin = PixelArtShaderPlugin {};
    let mut app = AppModel { shaders: vec![], material_plugins: vec![] };
    plugin.build(&mut app);
    assert_eq!(
        app.shaders,
        vec![
            ShaderAsset::PixelArtFragment,
            ShaderAsset::PixelArtPrepassFragment,
            ShaderAsset::HoldoutFragment,
            ShaderAsset::HoldoutPrepassFragment,
        ]
    );
    assert_eq!(
        app.material_plugins,
        vec![MaterialPluginKind::PixelArt, MaterialPluginKind::Holdout]
    );
}

#[test]
fn compositor_attaches_only_with_depth_prepass() {
    let pose = CameraTransform { tx: 0, ty: 0, tz: 0, yaw: 0, pitch: 0, roll: 0 };
    let target = OffscreenTarget::new(handle(7), 320, 180).unwrap();
    let (full_res, _pixel_art) = dual_camera_rig(&target, &pose);
    let attached = PixelArtCompositor::attach(&full_res, handle(7), 40);
    assert_eq!(attached, Some(PixelArtCompositor { lowres_image: handle(7), depth_bias: 40 }));
    let mut no_prepass = full_res;
    no_prepass.depth_prepass = false;
    assert_eq!(PixelArtCompositor::attach(&no_prepass, handle(7), 40), None);
}

#[test]
fn dual_camera_rig_partitions_layers() {
    let pose = CameraTransform { tx: 10, ty: 20, tz: 30, yaw: 1, pitch: 2, roll: 3 };
    let target = OffscreenTarget::new(handle(5), 320, 180).unwrap();
    let (full_res, pixel_art) = dual_camera_rig(&target, &pose);
    assert_eq!(full_res.order, 0);
    assert_eq!(full_res.layer, FULL_RES_LAYER);
    assert_eq!(full_res.target, CameraTarget::Display);
    assert!(full_res.depth_prepass);
    assert_eq!(pixel_art.order, -1);
    assert_eq!(pixel_art.layer, PIXEL_ART_LAYER);
    assert_eq!(pixel_art.target, CameraTarget::Offscreen(handle(5)));
    assert_eq!(pixel_art.clear_color.a, 0);
    assert!(pixel_art.depth_prepass);
    assert_eq!(full_res.transform, pose);
    assert_eq!(pixel_art.transform, pose);
}

#[test]
fn offscreen_target_needs_area() {
    assert!(OffscreenTarget::new(handle(1), 0, 180).is_none());
    assert!(OffscreenTarget::new(handle(1), 320, 0).is_none());
    let t = OffscreenTarget::new(handle(1), 320, 180).unwrap();
    assert!(t.nearest_filter);
    assert_eq!((t.width, t.height), (320, 180));
}

#[test]
fn camera_sync_copies_pose_only() {
    let pose = CameraTransform { tx: 10, ty: 20, tz: 30, yaw: 1, pitch: 2, roll: 3 };
    let target = OffscreenTarget::new(handle(5), 320, 180).unwrap();
    let (mut full_res, mut pixel_art) = dual_camera_rig(&target, &pose);
    full_res.transform = CameraTransform { tx: 99, ty: 98, tz: 97, yaw: 9, pitch: 8, roll: 7 };
    sync_pixel_art_camera(&full_res, &mut pixel_art);
    assert_eq!(pixel_art.transform, full_res.transform);
    assert_eq!(pixel_art.order, -1);
    assert_eq!(pixel_art.layer, PIXEL_ART_LAYER);
}

#[test]
fn uniform_extraction_and_layout() {
    let comp = PixelArtCompositor { lowres_image: handle(7), depth_bias: 123 };
    let u = CompositorUniform::extract_component(&comp).unwrap();
    assert_eq!(u.depth_bias, 123);
    assert_eq!(u.to_gpu_words(), vec![123]);
}
