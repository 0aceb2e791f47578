//! The pass scheduler: which full-screen passes a frame runs, in what order,
//! and which textures each of them reads and writes.

use vstd::prelude::*;

use crate::pipeline::{
    cross_hatch_sampler, point_clamp_sampler, DoGPipelineKeys, FDoGPipelineKeys, PipelineVariant,
    SamplerDescriptor, ShaderId, TFMPipelineKeys,
};
use crate::settings::PassesSettings;
use crate::textures::{CachedTexture, DoGTextures};

verus! {

/// One of the seven same-sized intermediate render targets of a view.
#[derive(Clone, Copy, Debug, PartialEq, Eq, Hash, Structural)]
pub enum ScratchSlot {
    Lab,
    FlowEigen,
    FlowH,
    FlowV,
    FilterPass1,
    FilterPass2,
    Antialiased,
}

/// A texture that a pass can read or write.
#[derive(Clone, Copy, Debug, PartialEq, Eq, Structural)]
pub enum TextureSlot {
    /// The color frame that the view hands to the effect.
    Source,
    /// An intermediate target owned by the view.
    Scratch(ScratchSlot),
    /// The bundled tileable hatch pattern.
    Hatch,
    /// The presentable color target of the view.
    Destination,
}

/// The filtering stages of the effect.
#[derive(Clone, Copy, Debug, PartialEq, Eq, Structural)]
pub enum PassKind {
    ColorTransform,
    FlowEigen,
    FlowSmoothH,
    FlowSmoothV,
    FlowGuidedDoG1,
    FlowGuidedDoG2,
    PlainDoG1,
    PlainDoG2,
    AntiAlias,
    ThresholdHatchBlend,
}

/// The per-view bind group that a pass binds beside its own input.
#[derive(Clone, Copy, Debug, PartialEq, Eq, Structural)]
pub enum ExtraBindGroup {
    /// The pass reads its own input only.
    Unbound,
    /// The smoothed flow map.
    Tfm,
    /// The raw second filter output and the hatch pattern.
    Blend,
    /// The anti-aliased filter output and the hatch pattern.
    AaBlend,
}

/// The vertices that a pass draws: one triangle that covers the screen.
pub const FULLSCREEN_VERTICES: u32 = 3;

/// The instances that a pass draws.
pub const FULLSCREEN_INSTANCES: u32 = 1;

/// One full-screen filtering step.
#[derive(Clone, Copy, Debug, PartialEq, Eq, Structural)]
pub struct RenderPass {
    pub kind: PassKind,
    /// The texture bound in the pass's own bind group.
    pub input: TextureSlot,
    pub extra: ExtraBindGroup,
    /// The render target that the pass fills.
    pub output: TextureSlot,
}

impl ExtraBindGroup {
    /// The textures that the bind group holds, in binding order.
    pub open spec fn textures(self) -> Seq<TextureSlot> {
        match self {
            ExtraBindGroup::Unbound => seq![],
            ExtraBindGroup::Tfm => seq![TextureSlot::Scratch(ScratchSlot::FlowV)],
            ExtraBindGroup::Blend => seq![
                TextureSlot::Scratch(ScratchSlot::FilterPass2),
                TextureSlot::Hatch,
            ],
            ExtraBindGroup::AaBlend => seq![
                TextureSlot::Scratch(ScratchSlot::Antialiased),
                TextureSlot::Hatch,
            ],
        }
    }
}

impl RenderPass {
    /// Every texture that the pass samples: its own input, then those of its
    /// extra bind group.
    pub open spec fn reads(self) -> Seq<TextureSlot> {
        seq![self.input] + self.extra.textures()
    }

    /// The textures that the pass samples, as `reads` lists them.
    pub fn inputs(&self) -> (slots: Vec<TextureSlot>)
        ensures
            slots@ == self.reads(),
    {
        let mut slots: Vec<TextureSlot> = Vec::new();
        slots.push(self.input);
        match self.extra {
            ExtraBindGroup::Unbound => {},
            ExtraBindGroup::Tfm => {
                slots.push(TextureSlot::Scratch(ScratchSlot::FlowV));
            },
            ExtraBindGroup::Blend => {
                slots.push(TextureSlot::Scratch(ScratchSlot::FilterPass2));
                slots.push(TextureSlot::Hatch);
            },
            ExtraBindGroup::AaBlend => {
                slots.push(TextureSlot::Scratch(ScratchSlot::Antialiased));
                slots.push(TextureSlot::Hatch);
            },
        }
        assert(slots@ =~= self.reads());
        slots
    }
}

/// The color transform: source frame into `Lab`.
pub open spec fn color_transform_pass() -> RenderPass {
    RenderPass {
        kind: PassKind::ColorTransform,
        input: TextureSlot::Source,
        extra: ExtraBindGroup::Unbound,
        output: TextureSlot::Scratch(ScratchSlot::Lab),
    }
}

/// The three passes that build the flow map: eigenvector extraction, then
/// smoothing along one axis, then along the other.
pub open spec fn flow_passes() -> Seq<RenderPass> {
    seq![
        RenderPass {
            kind: PassKind::FlowEigen,
            input: TextureSlot::Scratch(ScratchSlot::Lab),
            extra: ExtraBindGroup::Unbound,
            output: TextureSlot::Scratch(ScratchSlot::FlowEigen),
        },
        RenderPass {
            kind: PassKind::FlowSmoothH,
            input: TextureSlot::Scratch(ScratchSlot::FlowEigen),
            extra: ExtraBindGroup::Unbound,
            output: TextureSlot::Scratch(ScratchSlot::FlowH),
        },
        RenderPass {
            kind: PassKind::FlowSmoothV,
            input: TextureSlot::Scratch(ScratchSlot::FlowH),
            extra: ExtraBindGroup::Unbound,
            output: TextureSlot::Scratch(ScratchSlot::FlowV),
        },
    ]
}

/// The two difference-of-Gaussians passes. The flow-guided pair binds the
/// flow map exactly when the frame has computed one.
pub open spec fn filter_passes(flow_guided: bool, antialias: bool) -> Seq<RenderPass> {
    let extra = if flow_guided && antialias {
        ExtraBindGroup::Tfm
    } else {
        ExtraBindGroup::Unbound
    };
    seq![
        RenderPass {
            kind: if flow_guided {
                PassKind::FlowGuidedDoG1
            } else {
                PassKind::PlainDoG1
            },
            input: TextureSlot::Scratch(ScratchSlot::Lab),
            extra: extra,
            output: TextureSlot::Scratch(ScratchSlot::FilterPass1),
        },
        RenderPass {
            kind: if flow_guided {
                PassKind::FlowGuidedDoG2
            } else {
                PassKind::PlainDoG2
            },
            input: TextureSlot::Scratch(ScratchSlot::FilterPass1),
            extra: extra,
            output: TextureSlot::Scratch(ScratchSlot::FilterPass2),
        },
    ]
}

/// The anti-aliasing pass over the second filter output.
pub open spec fn antialias_pass(flow_guided: bool) -> RenderPass {
    RenderPass {
        kind: PassKind::AntiAlias,
        input: TextureSlot::Scratch(ScratchSlot::FilterPass2),
        extra: if flow_guided {
            ExtraBindGroup::Tfm
        } else {
            ExtraBindGroup::Unbound
        },
        output: TextureSlot::Scratch(ScratchSlot::Antialiased),
    }
}

/// The final compositing pass, which takes the anti-aliased filter output
/// when the frame has one and the raw second filter output otherwise.
pub open spec fn blend_pass(antialias: bool) -> RenderPass {
    RenderPass {
        kind: PassKind::ThresholdHatchBlend,
        input: TextureSlot::Source,
        extra: if antialias {
            ExtraBindGroup::AaBlend
        } else {
            ExtraBindGroup::Blend
        },
        output: TextureSlot::Destination,
    }
}

/// The passes of one frame, in execution order, for a pair of toggles.
pub open spec fn frame_passes(flow_guided: bool, antialias: bool) -> Seq<RenderPass> {
    seq![color_transform_pass()] + (if flow_guided && antialias {
        flow_passes()
    } else {
        seq![]
    }) + filter_passes(flow_guided, antialias) + (if antialias {
        seq![antialias_pass(flow_guided)]
    } else {
        seq![]
    }) + seq![blend_pass(antialias)]
}

/// Computes the pass sequence of one frame from the toggles.
pub fn schedule(passes_settings: &PassesSettings) -> (passes: Vec<RenderPass>)
    ensures
        passes@ == frame_passes(passes_settings.flow_guided(), passes_settings.antialias()),
{
    let tfm = passes_settings.use_flow_guided();
    let aa = passes_settings.use_antialias();
    let flow_map = if tfm && aa {
        ExtraBindGroup::Tfm
    } else {
        ExtraBindGroup::Unbound
    };
    let mut passes: Vec<RenderPass> = Vec::new();
    passes.push(
        RenderPass {
            kind: PassKind::ColorTransform,
            input: TextureSlot::Source,
            extra: ExtraBindGroup::Unbound,
            output: TextureSlot::Scratch(ScratchSlot::Lab),
        },
    );
    if aa && tfm {
        passes.push(
            RenderPass {
                kind: PassKind::FlowEigen,
                input: TextureSlot::Scratch(ScratchSlot::Lab),
                extra: ExtraBindGroup::Unbound,
                output: TextureSlot::Scratch(ScratchSlot::FlowEigen),
            },
        );
        passes.push(
            RenderPass {
                kind: PassKind::FlowSmoothH,
                input: TextureSlot::Scratch(ScratchSlot::FlowEigen),
                extra: ExtraBindGroup::Unbound,
                output: TextureSlot::Scratch(ScratchSlot::FlowH),
            },
        );
        passes.push(
            RenderPass {
                kind: PassKind::FlowSmoothV,
                input: TextureSlot::Scratch(ScratchSlot::FlowH),
                extra: ExtraBindGroup::Unbound,
                output: TextureSlot::Scratch(ScratchSlot::FlowV),
            },
        );
    }
    if tfm {
        passes.push(
            RenderPass {
                kind: PassKind::FlowGuidedDoG1,
                input: TextureSlot::Scratch(ScratchSlot::Lab),
                extra: flow_map,
                output: TextureSlot::Scratch(ScratchSlot::FilterPass1),
            },
        );
        passes.push(
            RenderPass {
                kind: PassKind::FlowGuidedDoG2,
                input: TextureSlot::Scratch(ScratchSlot::FilterPass1),
                extra: flow_map,
                output: TextureSlot::Scratch(ScratchSlot::FilterPass2),
            },
        );
    } else {
        passes.push(
            RenderPass {
                kind: PassKind::PlainDoG1,
                input: TextureSlot::Scratch(ScratchSlot::Lab),
                extra: ExtraBindGroup::Unbound,
                output: TextureSlot::Scratch(ScratchSlot::FilterPass1),
            },
        );
        passes.push(
            RenderPass {
                kind: PassKind::PlainDoG2,
                input: TextureSlot::Scratch(ScratchSlot::FilterPass1),
                extra: ExtraBindGroup::Unbound,
                output: TextureSlot::Scratch(ScratchSlot::FilterPass2),
            },
        );
    }
    if aa {
        passes.push(
            RenderPass {
                kind: PassKind::AntiAlias,
                input: TextureSlot::Scratch(ScratchSlot::FilterPass2),
                extra: flow_map,
                output: TextureSlot::Scratch(ScratchSlot::Antialiased),
            },
        );
    }
    passes.push(
        RenderPass {
            kind: PassKind::ThresholdHatchBlend,
            input: TextureSlot::Source,
            extra: if aa {
                ExtraBindGroup::AaBlend
            } else {
                ExtraBindGroup::Blend
            },
            output: TextureSlot::Destination,
        },
    );
    assert(passes@ =~= frame_passes(passes_settings.flow_guided(), passes_settings.antialias()));
    passes
}

/// The shader that a pass runs.
pub open spec fn pass_shader(kind: PassKind) -> ShaderId {
    match kind {
        PassKind::ColorTransform => ShaderId::Rgb2Lab,
        PassKind::FlowEigen => ShaderId::Tfm,
        PassKind::FlowSmoothH => ShaderId::Tfm,
        PassKind::FlowSmoothV => ShaderId::Tfm,
        PassKind::FlowGuidedDoG1 => ShaderId::FDoG,
        PassKind::FlowGuidedDoG2 => ShaderId::FDoG,
        PassKind::PlainDoG1 => ShaderId::DoG,
        PassKind::PlainDoG2 => ShaderId::DoG,
        PassKind::AntiAlias => ShaderId::Aa,
        PassKind::ThresholdHatchBlend => ShaderId::Blend,
    }
}

/// The variant of its shader that a pass runs, for the shaders that have
/// variants.
pub open spec fn pass_variant(kind: PassKind) -> Option<PipelineVariant> {
    match kind {
        PassKind::FlowEigen => Some(PipelineVariant::Tfm(TFMPipelineKeys::Eigenvector)),
        PassKind::FlowSmoothH => Some(PipelineVariant::Tfm(TFMPipelineKeys::Horizontal)),
        PassKind::FlowSmoothV => Some(PipelineVariant::Tfm(TFMPipelineKeys::Vertical)),
        PassKind::FlowGuidedDoG1 => Some(PipelineVariant::FDoG(FDoGPipelineKeys { first: true })),
        PassKind::FlowGuidedDoG2 => Some(PipelineVariant::FDoG(FDoGPipelineKeys { first: false })),
        PassKind::PlainDoG1 => Some(PipelineVariant::DoG(DoGPipelineKeys { first: true })),
        PassKind::PlainDoG2 => Some(PipelineVariant::DoG(DoGPipelineKeys { first: false })),
        _ => None,
    }
}

/// The label under which a pass is recorded. The first smoothing pass
/// shares the label of the eigenvector pass.
pub open spec fn pass_label(kind: PassKind) -> Seq<char> {
    match kind {
        PassKind::ColorTransform => "rgb2lab_pass"@,
        PassKind::FlowEigen => "eigenvector_pass"@,
        PassKind::FlowSmoothH => "eigenvector_pass"@,
        PassKind::FlowSmoothV => "vertical_pass"@,
        PassKind::FlowGuidedDoG1 => "first fdog pass"@,
        PassKind::FlowGuidedDoG2 => "second fdog pass"@,
        PassKind::PlainDoG1 => "first dog pass"@,
        PassKind::PlainDoG2 => "second dog pass"@,
        PassKind::AntiAlias => "aa pass"@,
        PassKind::ThresholdHatchBlend => "blend_pass"@,
    }
}

impl PassKind {
    /// The shader that the pass runs.
    pub fn shader(&self) -> (shader: ShaderId)
        ensures
            shader == pass_shader(*self),
    {
        match self {
            PassKind::ColorTransform => ShaderId::Rgb2Lab,
            PassKind::FlowEigen | PassKind::FlowSmoothH | PassKind::FlowSmoothV => ShaderId::Tfm,
            PassKind::FlowGuidedDoG1 | PassKind::FlowGuidedDoG2 => ShaderId::FDoG,
            PassKind::PlainDoG1 | PassKind::PlainDoG2 => ShaderId::DoG,
            PassKind::AntiAlias => ShaderId::Aa,
            PassKind::ThresholdHatchBlend => ShaderId::Blend,
        }
    }

    /// The variant of its shader that the pass runs, if the shader has
    /// variants.
    pub fn variant(&self) -> (variant: Option<PipelineVariant>)
        ensures
            variant == pass_variant(*self),
    {
        match self {
            PassKind::FlowEigen => Some(PipelineVariant::Tfm(TFMPipelineKeys::Eigenvector)),
            PassKind::FlowSmoothH => Some(PipelineVariant::Tfm(TFMPipelineKeys::Horizontal)),
            PassKind::FlowSmoothV => Some(PipelineVariant::Tfm(TFMPipelineKeys::Vertical)),
            PassKind::FlowGuidedDoG1 => Some(
                PipelineVariant::FDoG(FDoGPipelineKeys { first: true }),
            ),
            PassKind::FlowGuidedDoG2 => Some(
                PipelineVariant::FDoG(FDoGPipelineKeys { first: false }),
            ),
            PassKind::PlainDoG1 => Some(PipelineVariant::DoG(DoGPipelineKeys { first: true })),
            PassKind::PlainDoG2 => Some(PipelineVariant::DoG(DoGPipelineKeys { first: false })),
            PassKind::ColorTransform => None,
            PassKind::AntiAlias => None,
            PassKind::ThresholdHatchBlend => None,
        }
    }

    /// The label under which the pass is recorded.
    pub fn label(&self) -> (label: &'static str)
        ensures
            label@ == pass_label(*self),
    {
        match self {
            PassKind::ColorTransform => "rgb2lab_pass",
            PassKind::FlowEigen => "eigenvector_pass",
            PassKind::FlowSmoothH => "eigenvector_pass",
            PassKind::FlowSmoothV => "vertical_pass",
            PassKind::FlowGuidedDoG1 => "first fdog pass",
            PassKind::FlowGuidedDoG2 => "second fdog pass",
            PassKind::PlainDoG1 => "first dog pass",
            PassKind::PlainDoG2 => "second dog pass",
            PassKind::AntiAlias => "aa pass",
            PassKind::ThresholdHatchBlend => "blend_pass",
        }
    }
}

/// What the pass executor reports ready for a view before a frame: each
/// of the ten pipelines, and the bindings of the two uniform blocks.
#[derive(Clone, Copy, Debug, PartialEq, Eq, Structural)]
pub struct FrameResources {
    pub rgb2lab_pipeline: bool,
    pub eigenvector_pipeline: bool,
    pub vertical_pipeline: bool,
    pub horizontal_pipeline: bool,
    pub first_fdog_pipeline: bool,
    pub second_fdog_pipeline: bool,
    pub first_dog_pipeline: bool,
    pub second_dog_pipeline: bool,
    pub aa_pipeline: bool,
    pub blend_pipeline: bool,
    pub view_uniforms: bool,
    pub settings_binding: bool,
}

/// Why a view is skipped for a frame.
#[derive(Clone, Copy, Debug, PartialEq, Eq, Structural)]
pub enum NotReady {
    /// One of the ten pipelines is not compiled yet.
    Pipelines,
    /// The view's uniform block has no binding yet.
    ViewUniforms,
    /// The settings block has no binding yet.
    SettingsBinding,
}

impl FrameResources {
    /// Whether all ten pipelines are compiled, those that the frame's
    /// toggles leave unused among them.
    pub open spec fn pipelines_ready(self) -> bool {
        &&& self.rgb2lab_pipeline
        &&& self.eigenvector_pipeline
        &&& self.vertical_pipeline
        &&& self.horizontal_pipeline
        &&& self.first_fdog_pipeline
        &&& self.second_fdog_pipeline
        &&& self.first_dog_pipeline
        &&& self.second_dog_pipeline
        &&& self.aa_pipeline
        &&& self.blend_pipeline
    }

    /// What keeps the view from running, if anything does: the pipelines
    /// are looked at first, then the view's block, then the settings block.
    pub open spec fn missing(self) -> Option<NotReady> {
        if !self.pipelines_ready() {
            Some(NotReady::Pipelines)
        } else if !self.view_uniforms {
            Some(NotReady::ViewUniforms)
        } else if !self.settings_binding {
            Some(NotReady::SettingsBinding)
        } else {
            None
        }
    }

    /// The resources of a view for which everything is ready.
    pub fn all_ready() -> (resources: FrameResources)
        ensures
            resources.missing() is None,
    {
        FrameResources {
            rgb2lab_pipeline: true,
            eigenvector_pipeline: true,
            vertical_pipeline: true,
            horizontal_pipeline: true,
            first_fdog_pipeline: true,
            second_fdog_pipeline: true,
            first_dog_pipeline: true,
            second_dog_pipeline: true,
            aa_pipeline: true,
            blend_pipeline: true,
            view_uniforms: true,
            settings_binding: true,
        }
    }
}

/// The render-graph node of the effect. It holds nothing: what a frame
/// runs depends on that frame's resources and toggles alone.
#[derive(Clone, Copy, Debug, PartialEq, Eq, Structural)]
pub struct DoGNode;

impl DoGNode {
    /// Decides what a view runs in one frame.
    ///
    /// A view for which anything is missing is skipped whole: it gets no
    /// pass, and the reason comes back. Any other view gets the passes that
    /// its toggles select, in execution order.
    pub fn run(&self, resources: &FrameResources, passes_settings: &PassesSettings) -> (frame:
        Result<Vec<RenderPass>, NotReady>)
        ensures
            match frame {
                Ok(passes) => resources.missing() is None && passes@ == frame_passes(
                    passes_settings.flow_guided(),
                    passes_settings.antialias(),
                ),
                Err(reason) => resources.missing() == Some(reason),
            },
    {
        let pipelines_ready = resources.rgb2lab_pipeline && resources.eigenvector_pipeline
            && resources.vertical_pipeline && resources.horizontal_pipeline
            && resources.first_fdog_pipeline && resources.second_fdog_pipeline
            && resources.first_dog_pipeline && resources.second_dog_pipeline
            && resources.aa_pipeline && resources.blend_pipeline;
        if !pipelines_ready {
            return Err(NotReady::Pipelines);
        }
        if !resources.view_uniforms {
            return Err(NotReady::ViewUniforms);
        }
        if !resources.settings_binding {
            return Err(NotReady::SettingsBinding);
        }
        Ok(schedule(passes_settings))
    }
}

impl Default for DoGNode {
    fn default() -> (node: DoGNode)
        ensures
            node == DoGNode,
    {
        DoGNode
    }
}

/// The bind group of the flow map.
#[derive(Clone, Copy, Debug, PartialEq, Eq, Structural)]
pub struct TfmBindGroup {
    pub flow_map: CachedTexture,
    pub sampler: SamplerDescriptor,
}

/// A bind group of the blend pass: a filter output, then the hatch pattern
/// with its sampler.
#[derive(Clone, Copy, Debug, PartialEq, Eq, Structural)]
pub struct BlendBindGroup {
    pub filtered: CachedTexture,
    pub hatch_sampler: SamplerDescriptor,
}

/// The bind groups that a view keeps from frame to frame.
#[derive(Clone, Copy, Debug, PartialEq, Eq, Structural)]
pub struct DoGBindGroups {
    pub tfm_bind_group: TfmBindGroup,
    pub aa_blend_bind_group: BlendBindGroup,
    pub blend_bind_group: BlendBindGroup,
}

/// The bind groups over a set of scratch textures.
pub open spec fn bind_groups_of(textures: DoGTextures) -> DoGBindGroups {
    DoGBindGroups {
        tfm_bind_group: TfmBindGroup {
            flow_map: textures.vertical_texture,
            sampler: point_clamp_sampler(),
        },
        aa_blend_bind_group: BlendBindGroup {
            filtered: textures.aa_texture,
            hatch_sampler: cross_hatch_sampler(),
        },
        blend_bind_group: BlendBindGroup {
            filtered: textures.second_dog_texture,
            hatch_sampler: cross_hatch_sampler(),
        },
    }
}

impl DoGBindGroups {
    /// The scratch texture that the bind group of a pass holds, for the
    /// passes that bind one.
    pub open spec fn scratch_texture(self, extra: ExtraBindGroup) -> Option<CachedTexture> {
        match extra {
            ExtraBindGroup::Unbound => None,
            ExtraBindGroup::Tfm => Some(self.tfm_bind_group.flow_map),
            ExtraBindGroup::Blend => Some(self.blend_bind_group.filtered),
            ExtraBindGroup::AaBlend => Some(self.aa_blend_bind_group.filtered),
        }
    }
}

/// Builds the bind groups of a view over its scratch textures.
///
/// Until the hatch pattern has reached the device there is nothing to bind
/// and the view gets no bind groups.
pub fn prepare_dog_bind_groups(cross_hatch_loaded: bool, dog_textures: &DoGTextures) -> (groups:
    Option<DoGBindGroups>)
    ensures
        groups == (if cross_hatch_loaded {
            Some(bind_groups_of(*dog_textures))
        } else {
            None
        }),
{
    if !cross_hatch_loaded {
        return None;
    }
    let cross_hatch_sampler = SamplerDescriptor::cross_hatch();
    let point_clamp_sampler = SamplerDescriptor::point_clamp();
    Some(
        DoGBindGroups {
            tfm_bind_group: TfmBindGroup {
                flow_map: dog_textures.vertical_texture,
                sampler: point_clamp_sampler,
            },
            aa_blend_bind_group: BlendBindGroup {
                filtered: dog_textures.aa_texture,
                hatch_sampler: cross_hatch_sampler,
            },
            blend_bind_group: BlendBindGroup {
                filtered: dog_textures.second_dog_texture,
                hatch_sampler: cross_hatch_sampler,
            },
        },
    )
}

/// The bind groups agree with the schedule: what a bind group holds as its
/// scratch texture is the texture of the slot that the schedule lists first
/// for it.
pub proof fn lemma_bind_groups_match_schedule(textures: DoGTextures, extra: ExtraBindGroup)
    requires
        extra != ExtraBindGroup::Unbound,
    ensures
        extra.textures()[0] matches TextureSlot::Scratch(slot) && bind_groups_of(
            textures,
        ).scratch_texture(extra) == Some(textures.texture(slot)),
{
}

} // verus!
