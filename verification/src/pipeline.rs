//! The compositor's place in the frame.
//!
//! Each frame proceeds in phases: the simulation state is *extracted* into
//! a read-only snapshot, the per-view pipeline is *prepared* from a keyed
//! specialization cache, and the node then *runs* over the snapshot and the
//! GPU surfaces alone.  Every early-out of the node — an unsupported
//! platform, a view without a compositor, a missing depth attachment, a
//! low-res camera or image that is not ready yet, a missing uniform — skips
//! compositing for that frame and passes the full-res view through
//! untouched.

use vstd::prelude::*;
use crate::capture::{ImageHandle, CameraConfig};
use crate::compositor::{
    ColorImage,
    DepthImage,
    spec_composited_texel,
    composite_frames,
};
use crate::fixed::is_unit;
use crate::schedule::{
    AppModel,
    RenderAppModel,
    RenderGraphLabel,
    ShaderAsset,
    RenderSystem,
};

verus! {

/// Marker for the low-res pixel-art camera, synced into the render-side
/// snapshot so the node can find that camera's prepass textures.
#[derive(Clone, Copy, Debug, PartialEq, Eq, Structural)]
pub struct LowResPixelArtCamera {}

/// Attached to the full-res camera to enable depth-aware compositing.
#[derive(Clone, Copy, Debug, PartialEq, Eq, Structural)]
pub struct PixelArtCompositor {
    /// The low-res camera's offscreen color target.
    pub lowres_image: ImageHandle,
    /// Slack for the low-res versus full-res depth comparison; absorbs the
    /// precision mismatch between the two depth buffers.
    pub depth_bias: u32,
}

impl PixelArtCompositor {
    /// Attach a compositor to a camera.  A compositor needs the camera's
    /// depth readable, so the attachment exists exactly when the camera
    /// runs a depth prepass — the construction-time check that replaces a
    /// runtime failure path.
    pub fn attach(camera: &CameraConfig, lowres_image: ImageHandle, depth_bias: u32) -> (r:
        Option<PixelArtCompositor>)
        requires
            is_unit(depth_bias),
        ensures
            r.is_some() <==> camera.depth_prepass,
            r.is_some() ==> r.unwrap() == (PixelArtCompositor { lowres_image, depth_bias }),
    {
        if camera.depth_prepass {
            Some(PixelArtCompositor { lowres_image, depth_bias })
        } else {
            None
        }
    }
}

/// The single-word uniform the compositor's fragment stage reads.
#[derive(Clone, Copy, Debug, PartialEq, Eq, Structural)]
pub struct CompositorUniform {
    pub depth_bias: u32,
}

impl CompositorUniform {
    /// Extract the uniform from a camera's compositor component.
    pub fn extract_component(compositor: &PixelArtCompositor) -> (u: Option<CompositorUniform>)
        ensures
            u == Some(CompositorUniform { depth_bias: compositor.depth_bias }),
    {
        Some(CompositorUniform { depth_bias: compositor.depth_bias })
    }

    /// The uniform's fixed GPU layout: one word.
    pub fn to_gpu_words(&self) -> (words: Vec<u32>)
        ensures
            words@ =~= seq![self.depth_bias],
    {
        let mut words: Vec<u32> = Vec::new();
        words.push(self.depth_bias);
        words
    }
}

/// The render-side copy of a camera's compositor component, snapshotted
/// each frame.
#[derive(Clone, Copy, Debug, PartialEq, Eq, Structural)]
pub struct ExtractedCompositor {
    pub lowres_image: ImageHandle,
}

/// The per-frame snapshot the render side works from: each
/// compositor-enabled camera with its extracted component and uniform, and
/// the entities whose [`LowResPixelArtCamera`] marker was carried over.
pub struct ExtractedFrame {
    pub compositors: Vec<(u32, ExtractedCompositor, CompositorUniform)>,
    pub lowres_cameras: Vec<u32>,
}

/// Snapshot the compositor state out of the simulation world.  On a
/// platform that cannot sample depth textures the snapshot stays empty, so
/// the whole compositor is disabled for the session at no per-frame cost;
/// otherwise every camera's component is copied and every low-res camera
/// marker is carried over.
pub fn extract_compositor(
    supported: bool,
    compositors: &Vec<(u32, PixelArtCompositor)>,
    lowres_cameras: &Vec<(u32, LowResPixelArtCamera)>,
) -> (ex: ExtractedFrame)
    ensures
        !supported ==> ex.compositors@.len() == 0 && ex.lowres_cameras@.len() == 0,
        supported ==> ex.compositors@.len() == compositors@.len(),
        supported ==> forall|i: int|
            0 <= i < compositors@.len() ==> (#[trigger] ex.compositors@[i]) == (
            compositors@[i].0,
            ExtractedCompositor { lowres_image: compositors@[i].1.lowres_image },
            CompositorUniform { depth_bias: compositors@[i].1.depth_bias },
            ),
        supported ==> ex.lowres_cameras@.len() == lowres_cameras@.len(),
        supported ==> forall|i: int|
            0 <= i < lowres_cameras@.len() ==> #[trigger] ex.lowres_cameras@[i]
                == lowres_cameras@[i].0,
{
    if !supported {
        // Detected once per session: degrade to plain full-res rendering.
        return ExtractedFrame { compositors: Vec::new(), lowres_cameras: Vec::new() };
    }
    let mut out: Vec<(u32, ExtractedCompositor, CompositorUniform)> = Vec::new();
    let mut i: usize = 0;
    while i < compositors.len()
        invariant
            i <= compositors@.len(),
            out@.len() == i,
            forall|j: int|
                0 <= j < i ==> (#[trigger] out@[j]) == (
                compositors@[j].0,
                ExtractedCompositor { lowres_image: compositors@[j].1.lowres_image },
                CompositorUniform { depth_bias: compositors@[j].1.depth_bias },
                ),
        decreases compositors@.len() - i,
    {
        let entity: u32 = compositors[i].0;
        let comp: PixelArtCompositor = compositors[i].1;
        out.push(
            (
                entity,
                ExtractedCompositor { lowres_image: comp.lowres_image },
                CompositorUniform { depth_bias: comp.depth_bias },
            ),
        );
        i = i + 1;
    }
    let mut cams: Vec<u32> = Vec::new();
    let mut k: usize = 0;
    while k < lowres_cameras.len()
        invariant
            k <= lowres_cameras@.len(),
            cams@.len() == k,
            forall|j: int| 0 <= j < k ==> #[trigger] cams@[j] == lowres_cameras@[j].0,
        decreases lowres_cameras@.len() - k,
    {
        cams.push(lowres_cameras[k].0);
        k = k + 1;
    }
    ExtractedFrame { compositors: out, lowres_cameras: cams }
}

/// Find the extracted compositor of one view entity in the snapshot.
pub fn find_extracted(frame: &ExtractedFrame, entity: u32) -> (r: Option<
    (ExtractedCompositor, CompositorUniform),
>)
    ensures
        match r {
            Some(found) => exists|i: int|
                0 <= i < frame.compositors@.len() && #[trigger] frame.compositors@[i] == (
                entity,
                found.0,
                found.1,
                ) && forall|j: int|
                    0 <= j < i ==> (#[trigger] frame.compositors@[j]).0 != entity,
            None => forall|i: int|
                0 <= i < frame.compositors@.len() ==> (#[trigger] frame.compositors@[i]).0
                    != entity,
        },
{
    let mut i: usize = 0;
    while i < frame.compositors.len()
        invariant
            i <= frame.compositors@.len(),
            forall|j: int|
                0 <= j < i ==> (#[trigger] frame.compositors@[j]).0 != entity,
        decreases frame.compositors@.len() - i,
    {
        let entry = frame.compositors[i];
        if entry.0 == entity {
            return Some((entry.1, entry.2));
        }
        i = i + 1;
    }
    None
}

/// The bind-group slots of the compositor pass, in order.
#[derive(Clone, Copy, Debug, PartialEq, Eq, Structural)]
pub enum BindingKind {
    ColorTexture,
    DepthTexture,
    NearestSampler,
    UniformBuffer,
}

/// The fixed slot order of the compositor's bind group: full-res color,
/// full-res depth, low-res color, low-res depth, the nearest sampler, and
/// the uniform.
pub open spec fn spec_compositor_layout() -> Seq<BindingKind> {
    seq![
        BindingKind::ColorTexture,
        BindingKind::DepthTexture,
        BindingKind::ColorTexture,
        BindingKind::DepthTexture,
        BindingKind::NearestSampler,
        BindingKind::UniformBuffer,
    ]
}

/// The compositor's fixed pipeline resources: its fragment stage, its
/// bind-group layout and its nearest-neighbor sampler.
pub struct CompositorPipeline {
    pub shader: ShaderAsset,
    pub layout: Vec<BindingKind>,
    pub nearest_sampler: bool,
}

impl CompositorPipeline {
    /// The resources are the compositor's own: its shader, the six-slot
    /// layout, and nearest-neighbor sampling.
    pub open spec fn is_valid(self) -> bool {
        &&& self.shader == ShaderAsset::CompositorFragment
        &&& self.layout@ == spec_compositor_layout()
        &&& self.nearest_sampler
    }

    /// Build the fixed pipeline resources once, when the host's GPU device
    /// exists.
    pub fn new() -> (p: CompositorPipeline)
        ensures
            p.is_valid(),
    {
        let mut layout: Vec<BindingKind> = Vec::new();
        layout.push(BindingKind::ColorTexture);
        layout.push(BindingKind::DepthTexture);
        layout.push(BindingKind::ColorTexture);
        layout.push(BindingKind::DepthTexture);
        layout.push(BindingKind::NearestSampler);
        layout.push(BindingKind::UniformBuffer);
        proof {
            assert(layout@ =~= spec_compositor_layout());
        }
        CompositorPipeline { shader: ShaderAsset::CompositorFragment, layout, nearest_sampler: true }
    }

    /// Specialize the pipeline for one view: the only key is the view's
    /// dynamic range, which selects the output format; everything else is
    /// fixed, and the pass blends nothing — it writes its result directly.
    pub fn specialize(&self, key: CompositorKey) -> (d: CompositorPipelineDescriptor)
        requires
            self.is_valid(),
        ensures
            d.format == (if key.hdr {
                OutputFormat::Hdr
            } else {
                OutputFormat::Standard
            }),
            d.shader == ShaderAsset::CompositorFragment,
            d.layout@ == spec_compositor_layout(),
            !d.blend_enabled,
    {
        let format = if key.hdr {
            OutputFormat::Hdr
        } else {
            OutputFormat::Standard
        };
        let mut layout: Vec<BindingKind> = Vec::new();
        layout.push(BindingKind::ColorTexture);
        layout.push(BindingKind::DepthTexture);
        layout.push(BindingKind::ColorTexture);
        layout.push(BindingKind::DepthTexture);
        layout.push(BindingKind::NearestSampler);
        layout.push(BindingKind::UniformBuffer);
        proof {
            assert(layout@ =~= spec_compositor_layout());
        }
        CompositorPipelineDescriptor {
            shader: ShaderAsset::CompositorFragment,
            format,
            layout,
            blend_enabled: false,
        }
    }
}

/// The per-view specialization key: whether the view renders to a
/// high-dynamic-range target.
#[derive(Clone, Copy, Debug, PartialEq, Eq, Structural, Hash)]
pub struct CompositorKey {
    pub hdr: bool,
}

/// A view's output texture format.
#[derive(Clone, Copy, Debug, PartialEq, Eq, Structural)]
pub enum OutputFormat {
    Hdr,
    Standard,
}

/// What one specialization compiles to.
pub struct CompositorPipelineDescriptor {
    pub shader: ShaderAsset,
    pub format: OutputFormat,
    pub layout: Vec<BindingKind>,
    pub blend_enabled: bool,
}

/// A cached pipeline's identifier.
#[derive(Clone, Copy, Debug, PartialEq, Eq, Structural)]
pub struct CompositorPipelineId(pub u32);

/// The keyed specialization cache: each key compiles at most once; later
/// frames with the same key reuse the cached pipeline, and a view whose key
/// changes resolves a different entry rather than reusing a stale one.
pub struct SpecializedCompositorPipelines {
    pub entries: Vec<(CompositorKey, u32)>,
    pub compiled: Vec<CompositorPipelineDescriptor>,
}

impl SpecializedCompositorPipelines {
    /// Each key has at most one entry (with one boolean key, at most two);
    /// every entry's identifier indexes its compiled descriptor, whose
    /// format was chosen by the entry's key.
    pub open spec fn is_valid(self) -> bool {
        &&& self.entries@.len() <= 2
        &&& self.compiled@.len() == self.entries@.len()
        &&& forall|i: int, j: int|
            0 <= i < j < self.entries@.len() ==> (#[trigger] self.entries@[i]).0 != (
            #[trigger] self.entries@[j]).0
        &&& forall|i: int|
            0 <= i < self.entries@.len() ==> (#[trigger] self.entries@[i]).1 == i
                && self.compiled@[i].format == (if self.entries@[i].0.hdr {
                OutputFormat::Hdr
            } else {
                OutputFormat::Standard
            })
    }

    /// An empty cache.
    pub fn new() -> (c: SpecializedCompositorPipelines)
        ensures
            c.entries@.len() == 0,
            c.is_valid(),
    {
        SpecializedCompositorPipelines { entries: Vec::new(), compiled: Vec::new() }
    }

    /// Get the pipeline for a key, compiling it on first use: either the
    /// key was cached and the cache is unchanged, or a fresh entry for the
    /// key is appended.
    pub fn specialize(&mut self, pipeline: &CompositorPipeline, key: CompositorKey) -> (id:
        CompositorPipelineId)
        requires
            old(self).is_valid(),
            pipeline.is_valid(),
        ensures
            final(self).is_valid(),
            exists|i: int|
                0 <= i < final(self).entries@.len() && #[trigger] final(self).entries@[i] == (
                key,
                id.0,
                ),
            (final(self).entries@ == old(self).entries@ && exists|i: int|
                0 <= i < old(self).entries@.len() && #[trigger] old(self).entries@[i] == (
                key,
                id.0,
                )) || (final(self).entries@ == old(self).entries@.push((key, id.0)) && forall|
                i: int,
            |
                0 <= i < old(self).entries@.len() ==> (#[trigger] old(self).entries@[i]).0 != key),
            final(self).compiled@[id.0 as int].format == (if key.hdr {
                OutputFormat::Hdr
            } else {
                OutputFormat::Standard
            }),
    {
        let mut i: usize = 0;
        while i < self.entries.len()
            invariant
                i <= self.entries@.len(),
                self.entries@ == old(self).entries@,
                self.compiled@ == old(self).compiled@,
                old(self).is_valid(),
                forall|j: int| 0 <= j < i ==> (#[trigger] self.entries@[j]).0 != key,
            decreases self.entries@.len() - i,
        {
            let entry = self.entries[i];
            if entry.0 == key {
                return CompositorPipelineId(entry.1);
            }
            i = i + 1;
        }
        proof {
            if self.entries@.len() == 2 {
                assert(self.entries@[0].0 != self.entries@[1].0);
                assert(self.entries@[0].0 != key);
                assert(self.entries@[1].0 != key);
                assert(key.hdr == self.entries@[0].0.hdr || key.hdr == self.entries@[1].0.hdr);
                assert(false);
            }
        }
        let fresh: u32 = self.entries.len() as u32;
        self.entries.push((key, fresh));
        self.compiled.push(pipeline.specialize(key));
        proof {
            let n = self.entries@.len() as int;
            assert(self.entries@[n - 1] == (key, fresh));
        }
        CompositorPipelineId(fresh)
    }
}

/// Two cache entries with the same key carry the same pipeline: resolving
/// a key twice yields the same pipeline as long as the key is unchanged.
pub proof fn lemma_cache_key_deterministic(
    cache: SpecializedCompositorPipelines,
    i: int,
    j: int,
)
    requires
        cache.is_valid(),
        0 <= i < cache.entries@.len(),
        0 <= j < cache.entries@.len(),
        cache.entries@[i].0 == cache.entries@[j].0,
    ensures
        cache.entries@[i] == cache.entries@[j],
{
    if i < j {
        assert(cache.entries@[i].0 != cache.entries@[j].0);
    } else if j < i {
        assert(cache.entries@[j].0 != cache.entries@[i].0);
    }
}

/// Whether the cache holds the given pipeline for the given key.
pub open spec fn spec_cache_maps(entries: Seq<(CompositorKey, u32)>, hdr: bool, id: u32) -> bool {
    exists|k: int| 0 <= k < entries.len() && #[trigger] entries[k] == (CompositorKey { hdr }, id)
}

/// Resolve each compositor-enabled view's pipeline for this frame from its
/// current dynamic-range setting.
pub fn prepare_compositor_pipelines(
    views: &Vec<(u32, bool)>,
    compositor_pipeline: &CompositorPipeline,
    pipelines: &mut SpecializedCompositorPipelines,
) -> (ids: Vec<(u32, CompositorPipelineId)>)
    requires
        compositor_pipeline.is_valid(),
        old(pipelines).is_valid(),
    ensures
        final(pipelines).is_valid(),
        ids@.len() == views@.len(),
        old(pipelines).entries@.len() <= final(pipelines).entries@.len(),
        forall|k: int|
            0 <= k < old(pipelines).entries@.len() ==> #[trigger] final(pipelines).entries@[k]
                == old(pipelines).entries@[k],
        forall|i: int| 0 <= i < views@.len() ==> (#[trigger] ids@[i]).0 == views@[i].0,
        forall|i: int|
            0 <= i < views@.len() ==> #[trigger] spec_cache_maps(
                final(pipelines).entries@,
                views@[i].1,
                ids@[i].1.0,
            ),
{
    let mut ids: Vec<(u32, CompositorPipelineId)> = Vec::new();
    let mut i: usize = 0;
    while i < views.len()
        invariant
            i <= views@.len(),
            ids@.len() == i,
            pipelines.is_valid(),
            compositor_pipeline.is_valid(),
            old(pipelines).entries@.len() <= pipelines.entries@.len(),
            forall|k: int|
                0 <= k < old(pipelines).entries@.len()
                    ==> #[trigger] pipelines.entries@[k] == old(pipelines).entries@[k],
            forall|j: int| 0 <= j < i ==> (#[trigger] ids@[j]).0 == views@[j].0,
            forall|j: int|
                0 <= j < i ==> #[trigger] spec_cache_maps(
                    pipelines.entries@,
                    views@[j].1,
                    ids@[j].1.0,
                ),
        decreases views@.len() - i,
    {
        let entity: u32 = views[i].0;
        let hdr: bool = views[i].1;
        let ghost pre = pipelines.entries@;
        let id = pipelines.specialize(compositor_pipeline, CompositorKey { hdr });
        proof {
            assert(spec_cache_maps(pipelines.entries@, hdr, id.0));
            assert forall|j: int|
                0 <= j < i implies #[trigger] spec_cache_maps(
                pipelines.entries@,
                views@[j].1,
                ids@[j].1.0,
            ) by {
                assert(spec_cache_maps(pre, views@[j].1, ids@[j].1.0));
                let k0 = choose|k: int|
                    0 <= k < pre.len() && #[trigger] pre[k] == (
                    CompositorKey { hdr: views@[j].1 },
                    ids@[j].1.0,
                    );
                assert(pipelines.entries@[k0] == pre[k0]);
            }
        }
        ids.push((entity, id));
        i = i + 1;
    }
    ids
}

/// The render-graph label under which the compositor node is registered.
#[derive(Clone, Copy, Debug, PartialEq, Eq, Structural, Hash)]
pub struct CompositorLabel {}

impl CompositorLabel {
    /// The stage-list entry this label stands for.
    pub fn as_graph_label(&self) -> (l: RenderGraphLabel)
        ensures
            l == RenderGraphLabel::PixelArtCompositor,
    {
        RenderGraphLabel::PixelArtCompositor
    }
}

/// Whether some image in the asset store carries the handle.
pub open spec fn spec_has_image(images: Seq<(ImageHandle, ColorImage)>, h: ImageHandle) -> bool {
    exists|i: int| 0 <= i < images.len() && (#[trigger] images[i]).0 == h
}

/// The image the handle refers to; well defined when handles are unique.
pub open spec fn spec_image_for(images: Seq<(ImageHandle, ColorImage)>, h: ImageHandle) -> ColorImage {
    images[choose|i: int| 0 <= i < images.len() && (#[trigger] images[i]).0 == h].1
}

/// Find the index of the image a handle refers to.
fn find_image_index(images: &Vec<(ImageHandle, ColorImage)>, h: ImageHandle) -> (r: Option<usize>)
    ensures
        match r {
            Some(i) => i < images@.len() && images@[i as int].0 == h,
            None => !spec_has_image(images@, h),
        },
{
    let mut i: usize = 0;
    while i < images.len()
        invariant
            i <= images@.len(),
            forall|j: int| 0 <= j < i ==> (#[trigger] images@[j]).0 != h,
        decreases images@.len() - i,
    {
        if images[i].0 == h {
            return Some(i);
        }
        i = i + 1;
    }
    None
}

/// Everything the compositor node may touch for one view: the view's own
/// color output, the optional attachments and snapshot components, and the
/// asset store holding offscreen images.
pub struct CompositorNodeInputs {
    /// The view's post-lighting color buffer.
    pub view_target: ColorImage,
    /// The view's depth prepass output, if present.
    pub fullres_depth: Option<DepthImage>,
    /// The view's extracted compositor component, if the snapshot has one.
    pub extracted: Option<ExtractedCompositor>,
    /// The view's resolved pipeline, if preparation compiled one.
    pub pipeline: Option<CompositorPipelineId>,
    /// The view's uniform binding, if uploaded.
    pub uniform: Option<CompositorUniform>,
    /// The low-res camera's depth prepass output, if that camera exists
    /// and has rendered.
    pub lowres_depth: Option<DepthImage>,
    /// The GPU image assets, keyed by handle.
    pub images: Vec<(ImageHandle, ColorImage)>,
}

impl CompositorNodeInputs {
    /// Input sanity: present surfaces are well formed, the uniform's bias
    /// is a unit-interval value, and asset handles are unique.
    pub open spec fn is_valid(self) -> bool {
        &&& self.view_target.is_valid()
        &&& (self.fullres_depth.is_some() ==> self.fullres_depth.unwrap().is_valid())
        &&& (self.lowres_depth.is_some() ==> self.lowres_depth.unwrap().is_valid())
        &&& (self.uniform.is_some() ==> is_unit(self.uniform.unwrap().depth_bias))
        &&& forall|i: int|
            0 <= i < self.images@.len() ==> (#[trigger] self.images@[i]).1.is_valid()
        &&& forall|i: int, j: int|
            0 <= i < j < self.images@.len() ==> (#[trigger] self.images@[i]).0 != (
            #[trigger] self.images@[j]).0
    }
}

/// When the node composites: every resource of the pass is present and the
/// surfaces agree — the view has an extracted compositor, a compiled
/// pipeline, a uniform, its own depth, a low-res depth, and the offscreen
/// image exists, matches the low-res depth's size and has area; the
/// full-res depth matches the view's size.
pub open spec fn spec_node_ready(inp: CompositorNodeInputs) -> bool {
    &&& inp.extracted.is_some()
    &&& inp.pipeline.is_some()
    &&& inp.uniform.is_some()
    &&& inp.fullres_depth.is_some()
    &&& inp.lowres_depth.is_some()
    &&& spec_has_image(inp.images@, inp.extracted.unwrap().lowres_image)
    &&& {
        let low = spec_image_for(inp.images@, inp.extracted.unwrap().lowres_image);
        &&& inp.fullres_depth.unwrap().width == inp.view_target.width
        &&& inp.fullres_depth.unwrap().height == inp.view_target.height
        &&& inp.lowres_depth.unwrap().width == low.width
        &&& inp.lowres_depth.unwrap().height == low.height
        &&& low.width >= 1
        &&& low.height >= 1
    }
}

/// What one node invocation did: the view's output buffer after the pass,
/// and the work it performed.
pub struct CompositorRunResult {
    /// The view's color buffer after the pass.
    pub output: ColorImage,
    /// Whether the pass composited this frame.
    pub composited: bool,
    /// How many textures the pass read.
    pub texture_reads: u32,
    /// How many draw calls the pass issued.
    pub draw_calls: u32,
}

/// The compositor's render-graph node.
pub struct CompositorNode {}

impl CompositorNode {
    /// Create the node.
    pub fn new() -> (n: CompositorNode) {
        CompositorNode {}
    }

    /// Run the compositor for one view.  If any resource of the pass is
    /// missing or mismatched the frame's composite is skipped silently —
    /// no texture is read, nothing is drawn, and the view's buffer passes
    /// through untouched, to be retried next frame.  Otherwise the pass
    /// reads the four bound textures once each, issues its single
    /// full-screen draw, and every output texel obeys the per-pixel
    /// compositing rule.
    pub fn run(&self, inp: CompositorNodeInputs) -> (r: CompositorRunResult)
        requires
            inp.is_valid(),
        ensures
            r.composited == spec_node_ready(inp),
            !r.composited ==> r.output == inp.view_target && r.texture_reads == 0
                && r.draw_calls == 0,
            r.composited ==> r.texture_reads == 4 && r.draw_calls == 1,
            r.composited ==> r.output.width == inp.view_target.width && r.output.height
                == inp.view_target.height && r.output.is_valid(),
            r.composited ==> forall|x: int, y: int|
                0 <= x < inp.view_target.width && 0 <= y < inp.view_target.height
                    ==> r.output.spec_texel(x, y) == #[trigger] spec_composited_texel(
                    inp.view_target,
                    inp.fullres_depth.unwrap(),
                    spec_image_for(inp.images@, inp.extracted.unwrap().lowres_image),
                    inp.lowres_depth.unwrap(),
                    inp.uniform.unwrap().depth_bias as int,
                    x,
                    y,
                ),
    {
        let ready: bool = check_ready(&inp);
        if !ready {
            return CompositorRunResult {
                output: inp.view_target,
                composited: false,
                texture_reads: 0,
                draw_calls: 0,
            };
        }
        match (inp.fullres_depth, inp.lowres_depth, inp.extracted, inp.uniform) {
            (Some(full_depth), Some(lowres_depth), Some(extracted), Some(uniform)) => {
                let idx: usize = match find_image_index(&inp.images, extracted.lowres_image) {
                    Some(i) => i,
                    None => {
                        proof {
                            assert(false);
                        }
                        0
                    },
                };
                proof {
                    let w = choose|k: int|
                        0 <= k < inp.images@.len() && (#[trigger] inp.images@[k]).0
                            == extracted.lowres_image;
                    assert(inp.images@[idx as int].0 == inp.images@[w].0);
                    if idx as int != w {
                        assert(false);
                    }
                }
                let lowres_image: &ColorImage = &inp.images[idx].1;
                let output: ColorImage = composite_frames(
                    &inp.view_target,
                    &full_depth,
                    lowres_image,
                    &lowres_depth,
                    uniform.depth_bias,
                );
                CompositorRunResult { output, composited: true, texture_reads: 4, draw_calls: 1 }
            },
            _ => {
                proof {
                    assert(false);
                }
                CompositorRunResult {
                    output: inp.view_target,
                    composited: false,
                    texture_reads: 0,
                    draw_calls: 0,
                }
            },
        }
    }
}

/// Test every readiness condition of the pass.
fn check_ready(inp: &CompositorNodeInputs) -> (b: bool)
    requires
        inp.is_valid(),
    ensures
        b == spec_node_ready(*inp),
{
    let extracted = match &inp.extracted {
        Some(e) => e,
        None => {
            return false;
        },
    };
    if inp.pipeline.is_none() {
        return false;
    }
    let uniform = match &inp.uniform {
        Some(u) => u,
        None => {
            return false;
        },
    };
    let full_depth = match &inp.fullres_depth {
        Some(d) => d,
        None => {
            return false;
        },
    };
    let lowres_depth = match &inp.lowres_depth {
        Some(d) => d,
        None => {
            return false;
        },
    };
    let idx: usize = match find_image_index(&inp.images, extracted.lowres_image) {
        Some(i) => i,
        None => {
            return false;
        },
    };
    proof {
        let w = choose|k: int|
            0 <= k < inp.images@.len() && (#[trigger] inp.images@[k]).0 == extracted.lowres_image;
        assert(inp.images@[idx as int].0 == inp.images@[w].0);
        if idx as int != w {
            assert(false);
        }
    }
    let low: &ColorImage = &inp.images[idx].1;
    full_depth.width == inp.view_target.width && full_depth.height == inp.view_target.height
        && lowres_depth.width == low.width && lowres_depth.height == low.height && low.width >= 1
        && low.height >= 1
}

/// On a platform that cannot sample depth textures, extraction leaves the
/// snapshot empty, so no view carries an extracted compositor and the
/// node's readiness test fails: by the node's contract the stage performs
/// zero texture reads and zero draw calls for the whole session, and every
/// view's buffer passes through untouched.
pub proof fn lemma_unsupported_platform_idle(ex: ExtractedFrame, inp: CompositorNodeInputs)
    requires
        ex.compositors@.len() == 0,
        inp.extracted.is_none(),
    ensures
        !spec_node_ready(inp),
{
}

/// The plugin that wires the compositor into the host.
pub struct PixelArtCompositorPlugin {}

impl PixelArtCompositorPlugin {
    /// Register the compositor: embed its shader stage, schedule the
    /// extraction and preparation systems, and insert the node into the
    /// frame's stage list between post-processing and antialiasing.
    pub fn build(&self, app: &mut AppModel, render_app: &mut RenderAppModel) -> (ok: bool)
        requires
            old(render_app).graph.is_valid(),
        ensures
            final(app).shaders@ == old(app).shaders@.push(ShaderAsset::CompositorFragment),
            final(app).material_plugins@ == old(app).material_plugins@,
            final(render_app).extract_systems@ == old(render_app).extract_systems@.push(
                RenderSystem::ExtractCompositor,
            ),
            final(render_app).prepare_systems@ == old(render_app).prepare_systems@.push(
                RenderSystem::PrepareCompositorPipelines,
            ),
            ok <==> (old(render_app).graph.spec_ordered(
                RenderGraphLabel::PostProcessing,
                RenderGraphLabel::Fxaa,
            ) && !old(render_app).graph.spec_contains(RenderGraphLabel::PixelArtCompositor)),
            ok ==> final(render_app).graph.spec_ordered(
                RenderGraphLabel::PostProcessing,
                RenderGraphLabel::PixelArtCompositor,
            ),
            ok ==> final(render_app).graph.spec_ordered(
                RenderGraphLabel::PixelArtCompositor,
                RenderGraphLabel::Fxaa,
            ),
            ok ==> final(render_app).graph.is_valid(),
            !ok ==> final(render_app).graph.nodes@ == old(render_app).graph.nodes@,
    {
        app.shaders.push(ShaderAsset::CompositorFragment);
        render_app.extract_systems.push(RenderSystem::ExtractCompositor);
        render_app.prepare_systems.push(RenderSystem::PrepareCompositorPipelines);
        render_app.graph.add_node_between(
            RenderGraphLabel::PixelArtCompositor,
            RenderGraphLabel::PostProcessing,
            RenderGraphLabel::Fxaa,
        )
    }

    /// The finish step: once the host's GPU device exists, create the
    /// compositor's fixed pipeline resources.
    pub fn finish(&self) -> (p: CompositorPipeline)
        ensures
            p.is_valid(),
    {
        CompositorPipeline::new()
    }
}

} // verus!
