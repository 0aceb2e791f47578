//! The render pipelines of the effect: their shaders, entry points, bind
//! group layouts and samplers, and the table of pipeline ids of a view.

use vstd::prelude::*;

use crate::node::{pass_variant, PassKind};
use crate::textures::TextureFormat;

verus! {

/// The shader programs of the effect.
#[derive(Clone, Copy, Debug, PartialEq, Eq, Structural)]
pub enum ShaderId {
    Rgb2Lab,
    Tfm,
    FDoG,
    DoG,
    Aa,
    Blend,
}

/// The file name of a shader among the bundled assets.
pub open spec fn shader_file(shader: ShaderId) -> Seq<char> {
    match shader {
        ShaderId::Rgb2Lab => "rgb2lab.wgsl"@,
        ShaderId::Tfm => "tfm.wgsl"@,
        ShaderId::FDoG => "fdog.wgsl"@,
        ShaderId::DoG => "dog.wgsl"@,
        ShaderId::Aa => "aa.wgsl"@,
        ShaderId::Blend => "blend.wgsl"@,
    }
}

/// The number under which a shader is registered with the asset store.
pub open spec fn shader_handle(shader: ShaderId) -> u128 {
    match shader {
        ShaderId::Rgb2Lab => 0xce20ba6c_9bd1_4a62_bfe8_ba51750dbdc3,
        ShaderId::Tfm => 0x34197afe_e54f_4d38_9fc6_7c467524cc59,
        ShaderId::FDoG => 0x8588af6b_9061_4514_bb16_95deb4e06818,
        ShaderId::DoG => 0xbedbea43_8967_4cdd_95b6_d3a4d630c436,
        ShaderId::Aa => 0x9d4d296b_cb2d_4e25_8125_c6854184f959,
        ShaderId::Blend => 0xb86e54d8_858a_41e5_84d5_62a34f455a77,
    }
}

/// The label of the pipelines that run a shader.
pub open spec fn pipeline_label(shader: ShaderId) -> Seq<char> {
    match shader {
        ShaderId::Rgb2Lab => "rgba2lab_pipeline"@,
        ShaderId::Tfm => "RGBA2LAB"@,
        ShaderId::FDoG => "FDOG"@,
        ShaderId::DoG => "DOG"@,
        ShaderId::Aa => "anti_aliasing_pipeline"@,
        ShaderId::Blend => "blending_pipeline"@,
    }
}

impl ShaderId {
    /// The file name of the shader among the bundled assets.
    pub fn file(&self) -> (name: &'static str)
        ensures
            name@ == shader_file(*self),
    {
        match self {
            ShaderId::Rgb2Lab => "rgb2lab.wgsl",
            ShaderId::Tfm => "tfm.wgsl",
            ShaderId::FDoG => "fdog.wgsl",
            ShaderId::DoG => "dog.wgsl",
            ShaderId::Aa => "aa.wgsl",
            ShaderId::Blend => "blend.wgsl",
        }
    }

    /// The number under which the shader is registered.
    pub fn handle(&self) -> (id: u128)
        ensures
            id == shader_handle(*self),
    {
        match self {
            ShaderId::Rgb2Lab => 0xce20ba6c_9bd1_4a62_bfe8_ba51750dbdc3,
            ShaderId::Tfm => 0x34197afe_e54f_4d38_9fc6_7c467524cc59,
            ShaderId::FDoG => 0x8588af6b_9061_4514_bb16_95deb4e06818,
            ShaderId::DoG => 0xbedbea43_8967_4cdd_95b6_d3a4d630c436,
            ShaderId::Aa => 0x9d4d296b_cb2d_4e25_8125_c6854184f959,
            ShaderId::Blend => 0xb86e54d8_858a_41e5_84d5_62a34f455a77,
        }
    }
}

/// The number under which the hatch pattern is registered.
pub const CROSSHATCH_TEXTURE_HANDLE: u128 = 0x3bc8be12_aa9d_481f_bce3_56ad52cdfea4;

/// What one binding of a bind group layout holds.
#[derive(Clone, Copy, Debug, PartialEq, Eq, Structural)]
pub enum BindingType {
    /// A two-dimensional texture of filterable values.
    Texture2d,
    /// A filtering sampler.
    Sampler,
    /// The view's uniform block, at a dynamic offset.
    ViewUniform,
    /// The settings block, at a dynamic offset.
    SettingsUniform,
}

/// The three bind group layouts of the effect.
#[derive(Clone, Copy, Debug, PartialEq, Eq, Structural)]
pub enum LayoutKind {
    /// A pass's own input: texture, sampler, view block, settings block.
    Postprocess,
    /// The flow map and its sampler.
    Tfm,
    /// The filter output, the hatch pattern and the hatch sampler.
    Blend,
}

impl LayoutKind {
    /// The bindings of the layout, in order, all visible to the fragment
    /// stage.
    pub open spec fn bindings(self) -> Seq<BindingType> {
        match self {
            LayoutKind::Postprocess => seq![
                BindingType::Texture2d,
                BindingType::Sampler,
                BindingType::ViewUniform,
                BindingType::SettingsUniform,
            ],
            LayoutKind::Tfm => seq![BindingType::Texture2d, BindingType::Sampler],
            LayoutKind::Blend => seq![
                BindingType::Texture2d,
                BindingType::Texture2d,
                BindingType::Sampler,
            ],
        }
    }

    /// The bindings of the layout, in order.
    pub fn entries(&self) -> (entries: Vec<BindingType>)
        ensures
            entries@ == self.bindings(),
    {
        let mut entries: Vec<BindingType> = Vec::new();
        match self {
            LayoutKind::Postprocess => {
                entries.push(BindingType::Texture2d);
                entries.push(BindingType::Sampler);
                entries.push(BindingType::ViewUniform);
                entries.push(BindingType::SettingsUniform);
            },
            LayoutKind::Tfm => {
                entries.push(BindingType::Texture2d);
                entries.push(BindingType::Sampler);
            },
            LayoutKind::Blend => {
                entries.push(BindingType::Texture2d);
                entries.push(BindingType::Texture2d);
                entries.push(BindingType::Sampler);
            },
        }
        assert(entries@ =~= self.bindings());
        entries
    }
}

/// What a sampler does with coordinates outside the texture.
#[derive(Clone, Copy, Debug, PartialEq, Eq, Structural)]
pub enum AddressMode {
    ClampToEdge,
    Repeat,
}

/// How a sampler picks a value between texels.
#[derive(Clone, Copy, Debug, PartialEq, Eq, Structural)]
pub enum FilterMode {
    Nearest,
    Linear,
}

/// What the device needs to know to create a sampler.
#[derive(Clone, Copy, Debug, PartialEq, Eq, Structural)]
pub struct SamplerDescriptor {
    pub address_mode_u: AddressMode,
    pub address_mode_v: AddressMode,
    pub address_mode_w: AddressMode,
    pub mag_filter: FilterMode,
    pub min_filter: FilterMode,
}

/// The sampler that every pass uses for its own input: clamped on all
/// axes, linear.
pub open spec fn common_sampler() -> SamplerDescriptor {
    SamplerDescriptor {
        address_mode_u: AddressMode::ClampToEdge,
        address_mode_v: AddressMode::ClampToEdge,
        address_mode_w: AddressMode::ClampToEdge,
        mag_filter: FilterMode::Linear,
        min_filter: FilterMode::Linear,
    }
}

/// The sampler of the flow map: clamped on all axes, nearest texel.
pub open spec fn point_clamp_sampler() -> SamplerDescriptor {
    SamplerDescriptor {
        address_mode_u: AddressMode::ClampToEdge,
        address_mode_v: AddressMode::ClampToEdge,
        address_mode_w: AddressMode::ClampToEdge,
        mag_filter: FilterMode::Nearest,
        min_filter: FilterMode::Nearest,
    }
}

/// The sampler of the hatch pattern: repeating on two axes, clamped on the
/// third, linear.
pub open spec fn cross_hatch_sampler() -> SamplerDescriptor {
    SamplerDescriptor {
        address_mode_u: AddressMode::Repeat,
        address_mode_v: AddressMode::Repeat,
        address_mode_w: AddressMode::ClampToEdge,
        mag_filter: FilterMode::Linear,
        min_filter: FilterMode::Linear,
    }
}

impl SamplerDescriptor {
    /// The sampler that every pass uses for its own input.
    pub fn common() -> (sampler: SamplerDescriptor)
        ensures
            sampler == common_sampler(),
    {
        SamplerDescriptor {
            address_mode_u: AddressMode::ClampToEdge,
            address_mode_v: AddressMode::ClampToEdge,
            address_mode_w: AddressMode::ClampToEdge,
            mag_filter: FilterMode::Linear,
            min_filter: FilterMode::Linear,
        }
    }

    /// The sampler of the flow map.
    pub fn point_clamp() -> (sampler: SamplerDescriptor)
        ensures
            sampler == point_clamp_sampler(),
    {
        SamplerDescriptor {
            address_mode_u: AddressMode::ClampToEdge,
            address_mode_v: AddressMode::ClampToEdge,
            address_mode_w: AddressMode::ClampToEdge,
            mag_filter: FilterMode::Nearest,
            min_filter: FilterMode::Nearest,
        }
    }

    /// The sampler of the hatch pattern.
    pub fn cross_hatch() -> (sampler: SamplerDescriptor)
        ensures
            sampler == cross_hatch_sampler(),
    {
        SamplerDescriptor {
            address_mode_u: AddressMode::Repeat,
            address_mode_v: AddressMode::Repeat,
            address_mode_w: AddressMode::ClampToEdge,
            mag_filter: FilterMode::Linear,
            min_filter: FilterMode::Linear,
        }
    }
}

/// The entry points of the shaders.
#[derive(Clone, Copy, Debug, PartialEq, Eq, Structural)]
pub enum EntryPoint {
    Fragment,
    First,
    Second,
    FirstGaussianBlurPass,
    SecondGaussianBlurPass,
}

/// The definitions that select a variant of a shader.
#[derive(Clone, Copy, Debug, PartialEq, Eq, Structural)]
pub enum ShaderDef {
    /// The shader is compiled as it is.
    Plain,
    Eigenvector,
    Vertical,
    Horizontal,
    First,
    Second,
}

/// The name of an entry point in the shader source.
pub open spec fn entry_point_name(entry: EntryPoint) -> Seq<char> {
    match entry {
        EntryPoint::Fragment => "fragment"@,
        EntryPoint::First => "first"@,
        EntryPoint::Second => "second"@,
        EntryPoint::FirstGaussianBlurPass => "first_gaussian_blur_pass"@,
        EntryPoint::SecondGaussianBlurPass => "second_gaussian_blur_pass"@,
    }
}

/// The definitions that a variant hands to the shader compiler: none for
/// the plain variant, else the one that names it.
pub open spec fn shader_def_names(def: ShaderDef) -> Seq<Seq<char>> {
    match def {
        ShaderDef::Plain => seq![],
        ShaderDef::Eigenvector => seq!["EIGENVECTOR"@],
        ShaderDef::Vertical => seq!["VERTICAL"@],
        ShaderDef::Horizontal => seq!["HORIZONTAL"@],
        ShaderDef::First => seq!["FIRST"@],
        ShaderDef::Second => seq!["SECOND"@],
    }
}

impl EntryPoint {
    /// The name of the entry point in the shader source.
    pub fn name(&self) -> (name: &'static str)
        ensures
            name@ == entry_point_name(*self),
    {
        match self {
            EntryPoint::Fragment => "fragment",
            EntryPoint::First => "first",
            EntryPoint::Second => "second",
            EntryPoint::FirstGaussianBlurPass => "first_gaussian_blur_pass",
            EntryPoint::SecondGaussianBlurPass => "second_gaussian_blur_pass",
        }
    }
}

impl ShaderDef {
    /// The definition that the variant hands to the shader compiler, if it
    /// hands one.
    pub fn name(&self) -> (name: Option<&'static str>)
        ensures
            match name {
                Some(text) => shader_def_names(*self) == seq![text@],
                None => shader_def_names(*self) == Seq::<Seq<char>>::empty(),
            },
    {
        match self {
            ShaderDef::Plain => None,
            ShaderDef::Eigenvector => Some("EIGENVECTOR"),
            ShaderDef::Vertical => Some("VERTICAL"),
            ShaderDef::Horizontal => Some("HORIZONTAL"),
            ShaderDef::First => Some("FIRST"),
            ShaderDef::Second => Some("SECOND"),
        }
    }
}

/// What the pipeline cache needs to know to build one pipeline. Every
/// pipeline draws a full-screen triangle into one target of the engine's
/// default format, without blending, writing all channels.
#[derive(Clone, Copy, Debug, PartialEq, Eq, Structural)]
pub struct RenderPipelineDescriptor {
    /// The layout of the one bind group that the pipeline declares.
    pub layout: LayoutKind,
    pub shader: ShaderId,
    pub shader_def: ShaderDef,
    pub entry_point: EntryPoint,
}

/// The channels that a pipeline writes.
#[derive(Clone, Copy, Debug, PartialEq, Eq, Structural)]
pub struct ColorWrites {
    pub red: bool,
    pub green: bool,
    pub blue: bool,
    pub alpha: bool,
}

/// How a pipeline writes its one color target.
#[derive(Clone, Copy, Debug, PartialEq, Eq, Structural)]
pub struct ColorTargetState {
    pub format: TextureFormat,
    /// Whether what the pass writes is blended with what the target held.
    pub blend: bool,
    pub write_mask: ColorWrites,
}

/// What every pipeline of the effect has beyond its shader: one color
/// target, no depth or stencil test, one sample per pixel, no push
/// constants, and workgroup memory that is not zeroed.
#[derive(Clone, Copy, Debug, PartialEq, Eq, Structural)]
pub struct FixedState {
    pub target: ColorTargetState,
    pub depth_stencil: bool,
    pub sample_count: u32,
    pub push_constant_ranges: u32,
    pub zero_initialize_workgroup_memory: bool,
}

/// The color target of every pipeline: the engine's default format,
/// overwritten without blending, in all four channels.
pub open spec fn color_target() -> ColorTargetState {
    ColorTargetState {
        format: TextureFormat::BevyDefault,
        blend: false,
        write_mask: ColorWrites { red: true, green: true, blue: true, alpha: true },
    }
}

/// The fixed state of every pipeline.
pub open spec fn fixed_state() -> FixedState {
    FixedState {
        target: color_target(),
        depth_stencil: false,
        sample_count: 1,
        push_constant_ranges: 0,
        zero_initialize_workgroup_memory: false,
    }
}

impl RenderPipelineDescriptor {
    /// The color target of the pipeline.
    pub fn target(&self) -> (target: ColorTargetState)
        ensures
            target == color_target(),
    {
        ColorTargetState {
            format: TextureFormat::BevyDefault,
            blend: false,
            write_mask: ColorWrites { red: true, green: true, blue: true, alpha: true },
        }
    }

    /// The state that the pipeline has beyond its shader.
    pub fn fixed(&self) -> (state: FixedState)
        ensures
            state == fixed_state(),
    {
        FixedState {
            target: self.target(),
            depth_stencil: false,
            sample_count: 1,
            push_constant_ranges: 0,
            zero_initialize_workgroup_memory: false,
        }
    }

    /// The label of the pipeline.
    pub fn label(&self) -> (label: &'static str)
        ensures
            label@ == pipeline_label(self.shader),
    {
        match self.shader {
            ShaderId::Rgb2Lab => "rgba2lab_pipeline",
            ShaderId::Tfm => "RGBA2LAB",
            ShaderId::FDoG => "FDOG",
            ShaderId::DoG => "DOG",
            ShaderId::Aa => "anti_aliasing_pipeline",
            ShaderId::Blend => "blending_pipeline",
        }
    }
}

/// The pipeline that turns the source frame into the opponent color space.
#[derive(Clone, Copy, Debug, PartialEq, Eq, Structural)]
pub struct RGB2LABPipeline {
    pub postprocess_bind_group_layout: LayoutKind,
    pub sampler: SamplerDescriptor,
    pub pipeline_id: usize,
}

/// The family of pipelines that build the flow map.
#[derive(Clone, Copy, Debug, PartialEq, Eq, Structural)]
pub struct TFMPipeline {
    pub postprocess_bind_group_layout: LayoutKind,
    pub sampler: SamplerDescriptor,
}

/// The pipeline ids of the three flow-map passes.
#[derive(Clone, Copy, Debug, PartialEq, Eq, Structural)]
pub struct TFMPipelineIDs {
    pub eigenvector_pipeline_id: usize,
    pub horizontal_pipeline_id: usize,
    pub vertical_pipeline_id: usize,
}

/// The family of flow-guided filter pipelines.
#[derive(Clone, Copy, Debug, PartialEq, Eq, Structural)]
pub struct FDoGPipeline {
    pub postprocess_bind_group_layout: LayoutKind,
    pub sampler: SamplerDescriptor,
    pub tfm_bind_group_layout: LayoutKind,
}

/// The pipeline ids of the two flow-guided filter passes.
#[derive(Clone, Copy, Debug, PartialEq, Eq, Structural)]
pub struct FDoGPipelineIDs {
    pub first: usize,
    pub second: usize,
}

/// The family of plain filter pipelines.
#[derive(Clone, Copy, Debug, PartialEq, Eq, Structural)]
pub struct DoGPipeline {
    pub postprocess_bind_group_layout: LayoutKind,
    pub sampler: SamplerDescriptor,
}

/// The pipeline ids of the two plain filter passes.
#[derive(Clone, Copy, Debug, PartialEq, Eq, Structural)]
pub struct DoGPipelineIDs {
    pub first: usize,
    pub second: usize,
}

/// The anti-aliasing pipeline.
#[derive(Clone, Copy, Debug, PartialEq, Eq, Structural)]
pub struct AntiAlliasingPipeline {
    pub postprocess_bind_group_layout: LayoutKind,
    pub sampler: SamplerDescriptor,
    pub tfm_bind_group_layout: LayoutKind,
    pub pipeline_id: usize,
}

/// The pipeline of the final blend.
#[derive(Clone, Copy, Debug, PartialEq, Eq, Structural)]
pub struct BlendPipeline {
    pub postprocess_bind_group_layout: LayoutKind,
    pub sampler: SamplerDescriptor,
    pub blend_bind_group_layout: LayoutKind,
    pub pipeline_id: usize,
}

/// Everything that the pipelines of the effect share, built once.
#[derive(Clone, Copy, Debug, PartialEq, Eq, Structural)]
pub struct DoGPipelines {
    pub rgba2lab: RGB2LABPipeline,
    pub tfm: TFMPipeline,
    pub fdog: FDoGPipeline,
    pub dog: DoGPipeline,
    pub aa: AntiAlliasingPipeline,
    pub blend: BlendPipeline,
}

/// The pipeline ids of all the passes of one view.
#[derive(Clone, Copy, Debug, PartialEq, Eq, Structural)]
pub struct GaussianPipelineIDs {
    pub rgb2lab_pipeline_id: usize,
    pub tfm_pipeline_ids: TFMPipelineIDs,
    pub dog_pipeline_ids: DoGPipelineIDs,
    pub fdog_pipeline_ids: FDoGPipelineIDs,
    pub aa_pipeline_id: usize,
    pub blend_pipeline_id: usize,
}

/// The variants of the flow-map shader.
#[derive(Clone, Copy, Debug, PartialEq, Eq, Hash, Structural)]
pub enum TFMPipelineKeys {
    Eigenvector,
    Vertical,
    Horizontal,
}

/// The variants of the flow-guided filter shader: the first blur or the
/// second.
#[derive(Clone, Copy, Debug, PartialEq, Eq, Hash, Structural)]
pub struct FDoGPipelineKeys {
    pub first: bool,
}

/// The variants of the plain filter shader: the first blur or the second.
#[derive(Clone, Copy, Debug, PartialEq, Eq, Hash, Structural)]
pub struct DoGPipelineKeys {
    pub first: bool,
}

/// A pipeline without variants: the color transform, the anti-aliasing or
/// the blend, each running its shader's `fragment` entry point over the
/// pass's own bind group.
pub open spec fn fixed_descriptor(shader: ShaderId) -> RenderPipelineDescriptor {
    RenderPipelineDescriptor {
        layout: LayoutKind::Postprocess,
        shader: shader,
        shader_def: ShaderDef::Plain,
        entry_point: EntryPoint::Fragment,
    }
}

/// The pipeline of a variant of the flow-map shader.
pub open spec fn tfm_descriptor(
    layout: LayoutKind,
    key: TFMPipelineKeys,
) -> RenderPipelineDescriptor {
    RenderPipelineDescriptor {
        layout: layout,
        shader: ShaderId::Tfm,
        shader_def: match key {
            TFMPipelineKeys::Eigenvector => ShaderDef::Eigenvector,
            TFMPipelineKeys::Vertical => ShaderDef::Vertical,
            TFMPipelineKeys::Horizontal => ShaderDef::Horizontal,
        },
        entry_point: EntryPoint::Fragment,
    }
}

/// The pipeline of a variant of the flow-guided filter shader.
pub open spec fn fdog_descriptor(layout: LayoutKind, first: bool) -> RenderPipelineDescriptor {
    RenderPipelineDescriptor {
        layout: layout,
        shader: ShaderId::FDoG,
        shader_def: if first {
            ShaderDef::First
        } else {
            ShaderDef::Second
        },
        entry_point: if first {
            EntryPoint::First
        } else {
            EntryPoint::Second
        },
    }
}

/// The pipeline of a variant of the plain filter shader.
pub open spec fn dog_descriptor(layout: LayoutKind, first: bool) -> RenderPipelineDescriptor {
    RenderPipelineDescriptor {
        layout: layout,
        shader: ShaderId::DoG,
        shader_def: if first {
            ShaderDef::First
        } else {
            ShaderDef::Second
        },
        entry_point: if first {
            EntryPoint::FirstGaussianBlurPass
        } else {
            EntryPoint::SecondGaussianBlurPass
        },
    }
}

impl TFMPipeline {
    /// Describes the pipeline of one variant.
    pub fn specialize(&self, key: TFMPipelineKeys) -> (descriptor: RenderPipelineDescriptor)
        ensures
            descriptor == tfm_descriptor(self.postprocess_bind_group_layout, key),
    {
        let shader_def = match key {
            TFMPipelineKeys::Eigenvector => ShaderDef::Eigenvector,
            TFMPipelineKeys::Vertical => ShaderDef::Vertical,
            TFMPipelineKeys::Horizontal => ShaderDef::Horizontal,
        };
        RenderPipelineDescriptor {
            layout: self.postprocess_bind_group_layout,
            shader: ShaderId::Tfm,
            shader_def,
            entry_point: EntryPoint::Fragment,
        }
    }
}

impl FDoGPipeline {
    /// Describes the pipeline of one variant.
    pub fn specialize(&self, key: FDoGPipelineKeys) -> (descriptor: RenderPipelineDescriptor)
        ensures
            descriptor == fdog_descriptor(self.postprocess_bind_group_layout, key.first),
    {
        let entry_point = if key.first {
            EntryPoint::First
        } else {
            EntryPoint::Second
        };
        let shader_def = if key.first {
            ShaderDef::First
        } else {
            ShaderDef::Second
        };
        RenderPipelineDescriptor {
            layout: self.postprocess_bind_group_layout,
            shader: ShaderId::FDoG,
            shader_def,
            entry_point,
        }
    }
}

impl DoGPipeline {
    /// Describes the pipeline of one variant.
    pub fn specialize(&self, key: DoGPipelineKeys) -> (descriptor: RenderPipelineDescriptor)
        ensures
            descriptor == dog_descriptor(self.postprocess_bind_group_layout, key.first),
    {
        let entry_point = if key.first {
            EntryPoint::FirstGaussianBlurPass
        } else {
            EntryPoint::SecondGaussianBlurPass
        };
        let shader_def = if key.first {
            ShaderDef::First
        } else {
            ShaderDef::Second
        };
        RenderPipelineDescriptor {
            layout: self.postprocess_bind_group_layout,
            shader: ShaderId::DoG,
            shader_def,
            entry_point,
        }
    }
}

/// The shared state, given the ids under which the three pipelines without
/// variants were queued.
pub open spec fn shared_pipelines(
    rgba2lab_id: usize,
    aa_id: usize,
    blend_id: usize,
) -> DoGPipelines {
    DoGPipelines {
        rgba2lab: RGB2LABPipeline {
            postprocess_bind_group_layout: LayoutKind::Postprocess,
            sampler: common_sampler(),
            pipeline_id: rgba2lab_id,
        },
        tfm: TFMPipeline {
            postprocess_bind_group_layout: LayoutKind::Postprocess,
            sampler: common_sampler(),
        },
        fdog: FDoGPipeline {
            postprocess_bind_group_layout: LayoutKind::Postprocess,
            sampler: common_sampler(),
            tfm_bind_group_layout: LayoutKind::Tfm,
        },
        dog: DoGPipeline {
            postprocess_bind_group_layout: LayoutKind::Postprocess,
            sampler: common_sampler(),
        },
        aa: AntiAlliasingPipeline {
            postprocess_bind_group_layout: LayoutKind::Postprocess,
            sampler: common_sampler(),
            tfm_bind_group_layout: LayoutKind::Tfm,
            pipeline_id: aa_id,
        },
        blend: BlendPipeline {
            postprocess_bind_group_layout: LayoutKind::Postprocess,
            sampler: common_sampler(),
            blend_bind_group_layout: LayoutKind::Blend,
            pipeline_id: blend_id,
        },
    }
}

impl DoGPipelines {
    /// The pipelines without variants, in the order in which they are
    /// queued: color transform, anti-aliasing, blend.
    pub open spec fn fixed() -> Seq<RenderPipelineDescriptor> {
        seq![
            fixed_descriptor(ShaderId::Rgb2Lab),
            fixed_descriptor(ShaderId::Aa),
            fixed_descriptor(ShaderId::Blend),
        ]
    }

    /// Describes the pipelines to queue before `from_world`.
    pub fn fixed_descriptors() -> (descriptors: Vec<RenderPipelineDescriptor>)
        ensures
            descriptors@ == Self::fixed(),
    {
        let mut descriptors: Vec<RenderPipelineDescriptor> = Vec::new();
        descriptors.push(
            RenderPipelineDescriptor {
                layout: LayoutKind::Postprocess,
                shader: ShaderId::Rgb2Lab,
                shader_def: ShaderDef::Plain,
                entry_point: EntryPoint::Fragment,
            },
        );
        descriptors.push(
            RenderPipelineDescriptor {
                layout: LayoutKind::Postprocess,
                shader: ShaderId::Aa,
                shader_def: ShaderDef::Plain,
                entry_point: EntryPoint::Fragment,
            },
        );
        descriptors.push(
            RenderPipelineDescriptor {
                layout: LayoutKind::Postprocess,
                shader: ShaderId::Blend,
                shader_def: ShaderDef::Plain,
                entry_point: EntryPoint::Fragment,
            },
        );
        assert(descriptors@ =~= Self::fixed());
        descriptors
    }

    /// Builds the shared state from the ids under which the pipelines of
    /// `fixed_descriptors` were queued.
    pub fn from_world(rgba2lab_id: usize, aa_id: usize, blend_id: usize) -> (pipelines:
        DoGPipelines)
        ensures
            pipelines == shared_pipelines(rgba2lab_id, aa_id, blend_id),
    {
        let postprocess_bind_group_layout = LayoutKind::Postprocess;
        let tfm_bind_group_layout = LayoutKind::Tfm;
        let blend_bind_group_layout = LayoutKind::Blend;
        let sampler = SamplerDescriptor::common();
        let rgba2lab = RGB2LABPipeline {
            postprocess_bind_group_layout,
            sampler,
            pipeline_id: rgba2lab_id,
        };
        let tfm = TFMPipeline { postprocess_bind_group_layout, sampler };
        let fdog = FDoGPipeline { postprocess_bind_group_layout, sampler, tfm_bind_group_layout };
        let dog = DoGPipeline { postprocess_bind_group_layout, sampler };
        let aa = AntiAlliasingPipeline {
            postprocess_bind_group_layout,
            sampler,
            tfm_bind_group_layout,
            pipeline_id: aa_id,
        };
        let blend = BlendPipeline {
            postprocess_bind_group_layout,
            sampler,
            blend_bind_group_layout,
            pipeline_id: blend_id,
        };
        DoGPipelines { rgba2lab, tfm, fdog, dog, aa, blend }
    }
}

impl GaussianPipelineIDs {
    /// The pipeline that runs a pass.
    pub open spec fn pipeline_of(self, kind: PassKind) -> usize {
        match kind {
            PassKind::ColorTransform => self.rgb2lab_pipeline_id,
            PassKind::FlowEigen => self.tfm_pipeline_ids.eigenvector_pipeline_id,
            PassKind::FlowSmoothH => self.tfm_pipeline_ids.horizontal_pipeline_id,
            PassKind::FlowSmoothV => self.tfm_pipeline_ids.vertical_pipeline_id,
            PassKind::FlowGuidedDoG1 => self.fdog_pipeline_ids.first,
            PassKind::FlowGuidedDoG2 => self.fdog_pipeline_ids.second,
            PassKind::PlainDoG1 => self.dog_pipeline_ids.first,
            PassKind::PlainDoG2 => self.dog_pipeline_ids.second,
            PassKind::AntiAlias => self.aa_pipeline_id,
            PassKind::ThresholdHatchBlend => self.blend_pipeline_id,
        }
    }

    /// The pipeline that runs a pass.
    pub fn pipeline_for(&self, kind: PassKind) -> (id: usize)
        ensures
            id == self.pipeline_of(kind),
    {
        match kind {
            PassKind::ColorTransform => self.rgb2lab_pipeline_id,
            PassKind::FlowEigen => self.tfm_pipeline_ids.eigenvector_pipeline_id,
            PassKind::FlowSmoothH => self.tfm_pipeline_ids.horizontal_pipeline_id,
            PassKind::FlowSmoothV => self.tfm_pipeline_ids.vertical_pipeline_id,
            PassKind::FlowGuidedDoG1 => self.fdog_pipeline_ids.first,
            PassKind::FlowGuidedDoG2 => self.fdog_pipeline_ids.second,
            PassKind::PlainDoG1 => self.dog_pipeline_ids.first,
            PassKind::PlainDoG2 => self.dog_pipeline_ids.second,
            PassKind::AntiAlias => self.aa_pipeline_id,
            PassKind::ThresholdHatchBlend => self.blend_pipeline_id,
        }
    }
}

/// One of the seven pipelines that are specialized from a family.
#[derive(Clone, Copy, Debug, PartialEq, Eq, Hash, Structural)]
pub enum PipelineVariant {
    Tfm(TFMPipelineKeys),
    FDoG(FDoGPipelineKeys),
    DoG(DoGPipelineKeys),
}

/// The seven variants, in the order in which a view asks for them.
pub open spec fn all_variants() -> Seq<PipelineVariant> {
    seq![
        PipelineVariant::Tfm(TFMPipelineKeys::Eigenvector),
        PipelineVariant::Tfm(TFMPipelineKeys::Vertical),
        PipelineVariant::Tfm(TFMPipelineKeys::Horizontal),
        PipelineVariant::FDoG(FDoGPipelineKeys { first: true }),
        PipelineVariant::FDoG(FDoGPipelineKeys { first: false }),
        PipelineVariant::DoG(DoGPipelineKeys { first: true }),
        PipelineVariant::DoG(DoGPipelineKeys { first: false }),
    ]
}

/// The pipeline of a variant, specialized from its family.
pub open spec fn variant_descriptor(
    pipelines: DoGPipelines,
    variant: PipelineVariant,
) -> RenderPipelineDescriptor {
    match variant {
        PipelineVariant::Tfm(key) => tfm_descriptor(
            pipelines.tfm.postprocess_bind_group_layout,
            key,
        ),
        PipelineVariant::FDoG(key) => fdog_descriptor(
            pipelines.fdog.postprocess_bind_group_layout,
            key.first,
        ),
        PipelineVariant::DoG(key) => dog_descriptor(
            pipelines.dog.postprocess_bind_group_layout,
            key.first,
        ),
    }
}

impl DoGPipelines {
    /// Describes the pipeline of a variant.
    pub fn specialize(&self, variant: PipelineVariant) -> (descriptor: RenderPipelineDescriptor)
        ensures
            descriptor == variant_descriptor(*self, variant),
    {
        match variant {
            PipelineVariant::Tfm(key) => self.tfm.specialize(key),
            PipelineVariant::FDoG(key) => self.fdog.specialize(key),
            PipelineVariant::DoG(key) => self.dog.specialize(key),
        }
    }
}

/// The ids of the specialized pipelines that have been queued so far, by
/// variant. A variant is queued once and keeps its id.
#[derive(Clone, Copy, Debug, PartialEq, Eq)]
pub struct DoGSpecializedRenderPipelines {
    eigenvector: Option<usize>,
    vertical: Option<usize>,
    horizontal: Option<usize>,
    first_fdog: Option<usize>,
    second_fdog: Option<usize>,
    first_dog: Option<usize>,
    second_dog: Option<usize>,
}

impl DoGSpecializedRenderPipelines {
    /// The id under which a variant was queued, if it was.
    pub closed spec fn cached(self, variant: PipelineVariant) -> Option<usize> {
        match variant {
            PipelineVariant::Tfm(TFMPipelineKeys::Eigenvector) => self.eigenvector,
            PipelineVariant::Tfm(TFMPipelineKeys::Vertical) => self.vertical,
            PipelineVariant::Tfm(TFMPipelineKeys::Horizontal) => self.horizontal,
            PipelineVariant::FDoG(key) => if key.first {
                self.first_fdog
            } else {
                self.second_fdog
            },
            PipelineVariant::DoG(key) => if key.first {
                self.first_dog
            } else {
                self.second_dog
            },
        }
    }

    /// The id under which `variant` was queued, if it was.
    pub fn get(&self, variant: PipelineVariant) -> (id: Option<usize>)
        ensures
            id == self.cached(variant),
    {
        match variant {
            PipelineVariant::Tfm(TFMPipelineKeys::Eigenvector) => self.eigenvector,
            PipelineVariant::Tfm(TFMPipelineKeys::Vertical) => self.vertical,
            PipelineVariant::Tfm(TFMPipelineKeys::Horizontal) => self.horizontal,
            PipelineVariant::FDoG(key) => if key.first {
                self.first_fdog
            } else {
                self.second_fdog
            },
            PipelineVariant::DoG(key) => if key.first {
                self.first_dog
            } else {
                self.second_dog
            },
        }
    }

    /// Records that `variant` was queued under `queued`, unless it already
    /// has an id, and returns the id that the variant has from now on.
    pub fn specialize(&mut self, variant: PipelineVariant, queued: usize) -> (id: usize)
        ensures
            id == (match old(self).cached(variant) {
                Some(known) => known,
                None => queued,
            }),
            final(self).cached(variant) == Some(id),
            forall|other: PipelineVariant|
                other != variant ==> #[trigger] final(self).cached(other) == old(self).cached(
                    other,
                ),
    {
        match self.get(variant) {
            Some(known) => known,
            None => {
                match variant {
                    PipelineVariant::Tfm(TFMPipelineKeys::Eigenvector) => {
                        self.eigenvector = Some(queued);
                    },
                    PipelineVariant::Tfm(TFMPipelineKeys::Vertical) => {
                        self.vertical = Some(queued);
                    },
                    PipelineVariant::Tfm(TFMPipelineKeys::Horizontal) => {
                        self.horizontal = Some(queued);
                    },
                    PipelineVariant::FDoG(key) => {
                        if key.first {
                            self.first_fdog = Some(queued);
                        } else {
                            self.second_fdog = Some(queued);
                        }
                    },
                    PipelineVariant::DoG(key) => {
                        if key.first {
                            self.first_dog = Some(queued);
                        } else {
                            self.second_dog = Some(queued);
                        }
                    },
                }
                queued
            },
        }
    }

    /// The variants that have no id yet, in the order of `all_variants`.
    pub open spec fn missing(self) -> Seq<PipelineVariant> {
        self.missing_among(all_variants(), 7)
    }

    /// Those of the first `n` of `variants` that have no id yet.
    pub open spec fn missing_among(self, variants: Seq<PipelineVariant>, n: int) -> Seq<
        PipelineVariant,
    >
        decreases n,
    {
        if n <= 0 {
            seq![]
        } else if self.cached(variants[n - 1]) is None {
            self.missing_among(variants, n - 1).push(variants[n - 1])
        } else {
            self.missing_among(variants, n - 1)
        }
    }
}

impl Default for DoGSpecializedRenderPipelines {
    fn default() -> (pipelines: DoGSpecializedRenderPipelines)
        ensures
            forall|variant: PipelineVariant| #[trigger] pipelines.cached(variant) is None,
    {
        DoGSpecializedRenderPipelines {
            eigenvector: None,
            vertical: None,
            horizontal: None,
            first_fdog: None,
            second_fdog: None,
            first_dog: None,
            second_dog: None,
        }
    }
}

/// The ids of a view whose seven variants all have one.
pub open spec fn assembled_ids(
    pipelines: DoGPipelines,
    specialized: DoGSpecializedRenderPipelines,
) -> GaussianPipelineIDs {
    GaussianPipelineIDs {
        rgb2lab_pipeline_id: pipelines.rgba2lab.pipeline_id,
        tfm_pipeline_ids: TFMPipelineIDs {
            eigenvector_pipeline_id: specialized.cached(all_variants()[0])->0,
            vertical_pipeline_id: specialized.cached(all_variants()[1])->0,
            horizontal_pipeline_id: specialized.cached(all_variants()[2])->0,
        },
        dog_pipeline_ids: DoGPipelineIDs {
            first: specialized.cached(all_variants()[5])->0,
            second: specialized.cached(all_variants()[6])->0,
        },
        fdog_pipeline_ids: FDoGPipelineIDs {
            first: specialized.cached(all_variants()[3])->0,
            second: specialized.cached(all_variants()[4])->0,
        },
        aa_pipeline_id: pipelines.aa.pipeline_id,
        blend_pipeline_id: pipelines.blend.pipeline_id,
    }
}

/// Gathers the pipeline ids of a view.
///
/// Where every variant has been queued, the view gets its table of ids.
/// Otherwise the variants that are still to be queued come back, in the
/// order of `all_variants`; once they are recorded with `specialize`, a
/// second call yields the table.
pub fn prepare_gaussian_pipelines(
    dog_pipelines: &DoGPipelines,
    specialized: &DoGSpecializedRenderPipelines,
) -> (ids: Result<GaussianPipelineIDs, Vec<PipelineVariant>>)
    ensures
        ids is Ok <==> specialized.missing().len() == 0,
        ids is Ok <==> (forall|i: int|
            0 <= i < 7 ==> specialized.cached(#[trigger] all_variants()[i]) is Some),
        ids matches Ok(table) ==> table == assembled_ids(*dog_pipelines, *specialized),
        ids matches Err(queue) ==> queue@ == specialized.missing(),
{
    let mut variants: Vec<PipelineVariant> = Vec::new();
    variants.push(PipelineVariant::Tfm(TFMPipelineKeys::Eigenvector));
    variants.push(PipelineVariant::Tfm(TFMPipelineKeys::Vertical));
    variants.push(PipelineVariant::Tfm(TFMPipelineKeys::Horizontal));
    variants.push(PipelineVariant::FDoG(FDoGPipelineKeys { first: true }));
    variants.push(PipelineVariant::FDoG(FDoGPipelineKeys { first: false }));
    variants.push(PipelineVariant::DoG(DoGPipelineKeys { first: true }));
    variants.push(PipelineVariant::DoG(DoGPipelineKeys { first: false }));
    assert(variants@ =~= all_variants());
    let mut queue: Vec<PipelineVariant> = Vec::new();
    let mut i: usize = 0;
    while i < 7
        invariant
            0 <= i <= 7,
            variants@ == all_variants(),
            queue@ == specialized.missing_among(all_variants(), i as int),
            queue@.len() == 0 <==> (forall|j: int|
                0 <= j < i ==> specialized.cached(#[trigger] all_variants()[j]) is Some),
        decreases 7 - i,
    {
        let variant = variants[i];
        if specialized.get(variant).is_none() {
            queue.push(variant);
        }
        i = i + 1;
    }
    if queue.len() > 0 {
        Err(queue)
    } else {
        let rgb2lab_pipeline_id = dog_pipelines.rgba2lab.pipeline_id;
        let eigenvector_pipeline_id = id_of(specialized, variants[0]);
        let vertical_pipeline_id = id_of(specialized, variants[1]);
        let horizontal_pipeline_id = id_of(specialized, variants[2]);
        let first_fdog = id_of(specialized, variants[3]);
        let second_fdog = id_of(specialized, variants[4]);
        let first_dog = id_of(specialized, variants[5]);
        let second_dog = id_of(specialized, variants[6]);
        let aa_pipeline_id = dog_pipelines.aa.pipeline_id;
        let blend_pipeline_id = dog_pipelines.blend.pipeline_id;
        Ok(
            GaussianPipelineIDs {
                rgb2lab_pipeline_id,
                tfm_pipeline_ids: TFMPipelineIDs {
                    eigenvector_pipeline_id,
                    vertical_pipeline_id,
                    horizontal_pipeline_id,
                },
                dog_pipeline_ids: DoGPipelineIDs { first: first_dog, second: second_dog },
                fdog_pipeline_ids: FDoGPipelineIDs { first: first_fdog, second: second_fdog },
                aa_pipeline_id,
                blend_pipeline_id,
            },
        )
    }
}

/// The id of a variant that has one.
fn id_of(specialized: &DoGSpecializedRenderPipelines, variant: PipelineVariant) -> (id: usize)
    requires
        specialized.cached(variant) is Some,
    ensures
        specialized.cached(variant) == Some(id),
{
    match specialized.get(variant) {
        Some(id) => id,
        None => 0,
    }
}

/// The table of a view sends every pass to the pipeline of its shader: a
/// pass with a variant to the id under which that variant was queued, the
/// three others to the ids of the shared state.
pub proof fn lemma_table_dispatches(
    pipelines: DoGPipelines,
    specialized: DoGSpecializedRenderPipelines,
    kind: PassKind,
)
    requires
        specialized.missing().len() == 0,
    ensures
        assembled_ids(pipelines, specialized).pipeline_of(kind) == (match pass_variant(kind) {
            Some(variant) => specialized.cached(variant)->0,
            None => match kind {
                PassKind::ColorTransform => pipelines.rgba2lab.pipeline_id,
                PassKind::AntiAlias => pipelines.aa.pipeline_id,
                _ => pipelines.blend.pipeline_id,
            },
        }),
        pass_variant(kind) matches Some(variant) ==> specialized.cached(variant) is Some,
{
    reveal_with_fuel(DoGSpecializedRenderPipelines::missing_among, 8);
}

} // verus!
