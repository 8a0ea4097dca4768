//! The per-frame stage list.
//!
//! The host's render graph is modeled as an explicit ordered list of
//! labeled stages; scheduling the compositor means inserting its label
//! between the post-processing stage and antialiasing.  The model also
//! carries the registrations a plugin performs against the host
//! application: embedded shader stages, material kinds and render systems.

use vstd::prelude::*;

verus! {

/// The labels of the per-frame rendering stages this crate cares about.
#[derive(Clone, Copy, Debug, PartialEq, Eq, Structural)]
pub enum RenderGraphLabel {
    /// The base 3-D pass drawing the scene.
    MainPass,
    /// Tone mapping of the lit scene.
    Tonemapping,
    /// The built-in post-processing stage the compositor runs after.
    PostProcessing,
    /// The depth-aware pixel-art compositor of this crate.
    PixelArtCompositor,
    /// Antialiasing; the compositor must run before it.
    Fxaa,
    /// The final upscale to the window.
    Upscaling,
}

/// The ordered list of rendering stages of one frame.
pub struct RenderGraph {
    pub nodes: Vec<RenderGraphLabel>,
}

impl RenderGraph {
    /// Each stage appears at most once.
    pub open spec fn is_valid(self) -> bool {
        forall|i: int, j: int|
            0 <= i < j < self.nodes@.len() ==> #[trigger] self.nodes@[i] != #[trigger] self.nodes@[j]
    }

    /// Whether a stage is in the list.
    pub open spec fn spec_contains(self, label: RenderGraphLabel) -> bool {
        exists|i: int| 0 <= i < self.nodes@.len() && self.nodes@[i] == label
    }

    /// Whether `first` stands somewhere before `second`.
    pub open spec fn spec_ordered(
        self,
        first: RenderGraphLabel,
        second: RenderGraphLabel,
    ) -> bool {
        exists|i: int, j: int|
            0 <= i < j < self.nodes@.len() && self.nodes@[i] == first && self.nodes@[j] == second
    }

    /// Find a stage's position.
    fn find(&self, label: RenderGraphLabel) -> (r: Option<usize>)
        ensures
            match r {
                Some(i) => i < self.nodes@.len() && self.nodes@[i as int] == label,
                None => !self.spec_contains(label),
            },
    {
        let mut i: usize = 0;
        while i < self.nodes.len()
            invariant
                i <= self.nodes@.len(),
                forall|j: int| 0 <= j < i ==> self.nodes@[j] != label,
            decreases self.nodes@.len() - i,
        {
            if self.nodes[i] == label {
                return Some(i);
            }
            i = i + 1;
        }
        None
    }

    /// Insert a new stage immediately after `before`, provided `before` is
    /// present, `after` follows it, and the new stage is not yet listed.
    /// On success the new stage stands strictly between the two anchors;
    /// on failure the list is unchanged.
    pub fn add_node_between(
        &mut self,
        node: RenderGraphLabel,
        before: RenderGraphLabel,
        after: RenderGraphLabel,
    ) -> (ok: bool)
        requires
            old(self).is_valid(),
        ensures
            ok <==> (old(self).spec_ordered(before, after) && !old(self).spec_contains(node)),
            !ok ==> final(self).nodes@ == old(self).nodes@,
            ok ==> exists|i: int|
                0 <= i < old(self).nodes@.len() && old(self).nodes@[i] == before
                    && final(self).nodes@ == old(self).nodes@.insert(i + 1, node),
            ok ==> final(self).spec_ordered(before, node),
            ok ==> final(self).spec_ordered(node, after),
            ok ==> final(self).is_valid(),
    {
        if let Some(ib) = self.find(before) {
            if let Some(ia) = self.find(after) {
                if ia > ib {
                    if let Some(_existing) = self.find(node) {
                        proof {
                            assert(!(old(self).spec_ordered(before, after) && !old(
                                self,
                            ).spec_contains(node)));
                        }
                        return false;
                    }
                    let ghost pre = self.nodes@;
                    self.nodes.insert(ib + 1, node);
                    proof {
                        let n = pre.len() as int;
                        assert(pre[ib as int] == before);
                        assert(pre[ia as int] == after);
                        assert(self.nodes@ == pre.insert(ib + 1, node));
                        assert(self.nodes@[ib as int] == before);
                        assert(self.nodes@[ib + 1] == node);
                        assert(self.nodes@[ia + 1] == after);
                        assert(final(self).spec_ordered(before, node));
                        assert(final(self).spec_ordered(node, after));
                        let p = ib + 1;
                        assert forall|i: int, j: int|
                            0 <= i < j < self.nodes@.len() implies #[trigger] self.nodes@[i]
                            != #[trigger] self.nodes@[j] by {
                            if i == p {
                                assert(self.nodes@[i] == node);
                                assert(self.nodes@[j] == pre[j - 1]);
                            } else if j == p {
                                assert(self.nodes@[i] == pre[i]);
                                assert(self.nodes@[j] == node);
                            } else {
                                if i < p {
                                    assert(self.nodes@[i] == pre[i]);
                                } else {
                                    assert(self.nodes@[i] == pre[i - 1]);
                                }
                                if j < p {
                                    assert(self.nodes@[j] == pre[j]);
                                } else {
                                    assert(self.nodes@[j] == pre[j - 1]);
                                }
                            }
                        }
                    }
                    return true;
                }
            }
        }
        proof {
            if old(self).spec_ordered(before, after) {
                let (i, j) = choose|i: int, j: int|
                    0 <= i < j < old(self).nodes@.len() && old(self).nodes@[i] == before && old(
                        self,
                    ).nodes@[j] == after;
                assert(old(self).spec_contains(before));
                assert(old(self).spec_contains(after));
            }
        }
        false
    }
}

/// The shader stages this crate registers with the host.
#[derive(Clone, Copy, Debug, PartialEq, Eq, Structural)]
pub enum ShaderAsset {
    /// The pixel-art main-pass fragment stage.
    PixelArtFragment,
    /// The pixel-art prepass fragment stage.
    PixelArtPrepassFragment,
    /// The holdout main-pass fragment stage.
    HoldoutFragment,
    /// The holdout prepass fragment stage.
    HoldoutPrepassFragment,
    /// The compositor's full-screen fragment stage.
    CompositorFragment,
}

/// The material kinds this crate registers.
#[derive(Clone, Copy, Debug, PartialEq, Eq, Structural)]
pub enum MaterialPluginKind {
    PixelArt,
    Holdout,
}

/// The render-side systems this crate schedules.
#[derive(Clone, Copy, Debug, PartialEq, Eq, Structural)]
pub enum RenderSystem {
    /// Snapshot compositor configuration out of the simulation world.
    ExtractCompositor,
    /// Resolve each view's specialized compositor pipeline.
    PrepareCompositorPipelines,
}

/// What a plugin registers against the host application.
pub struct AppModel {
    pub shaders: Vec<ShaderAsset>,
    pub material_plugins: Vec<MaterialPluginKind>,
}

/// What a plugin registers against the host's render side: systems for the
/// extraction and preparation phases, and the frame's stage list.
pub struct RenderAppModel {
    pub graph: RenderGraph,
    pub extract_systems: Vec<RenderSystem>,
    pub prepare_systems: Vec<RenderSystem>,
}

} // verus!
