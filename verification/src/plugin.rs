//! What the effect registers with its host: the hatch pattern, the shaders,
//! the preparation steps and the place of its node in the render graph.

use vstd::prelude::*;

use crate::pipeline::ShaderId;
use crate::textures::{TextureDimension, TextureFormat};

verus! {

/// The error with which the `image` crate refuses to decode.
#[verifier::external_type_specification]
#[verifier::external_body]
pub struct ExImageError(image::ImageError);

/// What the `image` crate makes of the bytes of a PNG image when
/// `image::load_from_memory_with_format` decodes them as PNG and
/// `DynamicImage::to_rgba8` converts the result: the width, the height and
/// the bytes of the buffer that holds the pixels as RGBA with eight bits
/// per channel, or nothing where the bytes are no PNG image that can be
/// decoded.
pub uninterp spec fn decoded_png_rgba8(bytes: Seq<u8>) -> Option<(u32, u32, Seq<u8>)>;

/// Calls `image::load_from_memory_with_format` with the PNG format, then
/// `DynamicImage::to_rgba8`, and takes the resulting buffer apart with
/// `width`, `height` and `into_raw`. With the format given, the reader
/// goes straight to the built-in PNG decoder and consults nothing that a
/// process can register. The contract claims only that the outcome is the
/// one that `decoded_png_rgba8` names, which is to say that it depends on
/// the bytes alone.
#[verifier::external_body]
fn decode_png_rgba8(bytes: &[u8]) -> (decoded: Result<(u32, u32, Vec<u8>), image::ImageError>)
    ensures
        match decoded {
            Ok(rgba) => decoded_png_rgba8(bytes@) == Some((rgba.0, rgba.1, rgba.2@)),
            Err(_) => decoded_png_rgba8(bytes@) is None,
        },
{
    match image::load_from_memory_with_format(bytes, image::ImageFormat::Png) {
        Ok(image) => {
            let buffer = image.to_rgba8();
            Ok((buffer.width(), buffer.height(), buffer.into_raw()))
        },
        Err(error) => Err(error),
    }
}

/// Calls `bytemuck::cast_slice` from bytes to bytes. Between two types of
/// the same size and alignment the cast keeps the address and the length,
/// so the contract claims that the bytes come back as they went in.
#[verifier::external_body]
fn cast_slice(pixels: &[u8]) -> (bytes: Vec<u8>)
    ensures
        bytes@ == pixels@,
{
    bytemuck::cast_slice::<u8, u8>(pixels).to_vec()
}

/// Why the hatch pattern could not be prepared.
#[derive(Clone, Copy, Debug, PartialEq, Eq, Structural)]
pub enum HatchError {
    /// The bundled bytes are not a PNG image that can be decoded.
    Undecodable,
    /// The pixel buffer does not hold four bytes for each pixel.
    SizeMismatch,
}

/// The size of a texture.
#[derive(Clone, Copy, Debug, PartialEq, Eq, Structural)]
pub struct Extent3d {
    pub width: u32,
    pub height: u32,
    pub depth_or_array_layers: u32,
}

/// The hatch pattern as the host's image store takes it: a
/// two-dimensional texture kept for rendering only.
#[derive(Debug, PartialEq, Eq)]
pub struct HatchImage {
    pub size: Extent3d,
    pub format: TextureFormat,
    pub data: Vec<u8>,
}

/// Where the host keeps an image after it has reached the device.
#[derive(Clone, Copy, Debug, PartialEq, Eq, Structural)]
pub enum RenderAssetUsages {
    MainWorld,
    RenderWorld,
    Both,
}

impl HatchImage {
    /// The number of dimensions of the image: the hatch pattern is
    /// two-dimensional.
    pub fn dimension(&self) -> (dimension: TextureDimension)
        ensures
            dimension == TextureDimension::D2,
    {
        TextureDimension::D2
    }

    /// Where the host keeps the image: the hatch pattern is needed for
    /// rendering only.
    pub fn asset_usage(&self) -> (usage: RenderAssetUsages)
        ensures
            usage == RenderAssetUsages::RenderWorld,
    {
        RenderAssetUsages::RenderWorld
    }
}

/// The plain value of a hatch image.
pub struct HatchImageView {
    pub size: Extent3d,
    pub format: TextureFormat,
    pub data: Seq<u8>,
}

impl View for HatchImage {
    type V = HatchImageView;

    open spec fn view(&self) -> HatchImageView {
        HatchImageView { size: self.size, format: self.format, data: self.data@ }
    }
}

impl HatchImageView {
    /// A single layer that holds four bytes for each pixel.
    pub open spec fn wf(self) -> bool {
        &&& self.size.depth_or_array_layers == 1
        &&& self.format == TextureFormat::Rgba8UnormSrgb
        &&& self.data.len() == 4 * (self.size.width * self.size.height)
    }
}

/// The hatch image over a pixel buffer, where the buffer has the size that
/// the dimensions ask for.
pub open spec fn hatch_image_of(width: u32, height: u32, pixels: Seq<u8>) -> Result<
    HatchImageView,
    HatchError,
> {
    if pixels.len() == 4 * (width * height) {
        Ok(
            HatchImageView {
                size: Extent3d { width: width, height: height, depth_or_array_layers: 1 },
                format: TextureFormat::Rgba8UnormSrgb,
                data: pixels,
            },
        )
    } else {
        Err(HatchError::SizeMismatch)
    }
}

/// The hatch image that the outcome of decoding yields.
pub open spec fn hatch_image_from(decoded: Option<(u32, u32, Seq<u8>)>) -> Result<
    HatchImageView,
    HatchError,
> {
    match decoded {
        None => Err(HatchError::Undecodable),
        Some(rgba) => hatch_image_of(rgba.0, rgba.1, rgba.2),
    }
}

/// Whether what `hatch_image` or `load_crosshatch` returned has the plain
/// value `wanted`.
pub open spec fn same_outcome(
    got: Result<HatchImage, HatchError>,
    wanted: Result<HatchImageView, HatchError>,
) -> bool {
    match got {
        Ok(image) => wanted == Ok::<HatchImageView, HatchError>(image@),
        Err(error) => wanted == Err::<HatchImageView, HatchError>(error),
    }
}

/// Wraps a buffer of RGBA pixels as the hatch image.
///
/// The buffer has to hold exactly four bytes for each of `width` times
/// `height` pixels; any other buffer is refused.
pub fn hatch_image(width: u32, height: u32, pixels: &[u8]) -> (image: Result<
    HatchImage,
    HatchError,
>)
    ensures
        same_outcome(image, hatch_image_of(width, height, pixels@)),
        image matches Ok(hatch) ==> hatch@.wf(),
{
    assert(width * height <= 0xffff_ffff * 0xffff_ffff) by (nonlinear_arith)
        requires
            0 <= width <= 0xffff_ffff,
            0 <= height <= 0xffff_ffff,
    ;
    let area: u128 = (width as u128) * (height as u128);
    let wanted: u128 = 4 * area;
    if pixels.len() as u128 != wanted {
        return Err(HatchError::SizeMismatch);
    }
    let data = cast_slice(pixels);
    Ok(
        HatchImage {
            size: Extent3d { width, height, depth_or_array_layers: 1 },
            format: TextureFormat::Rgba8UnormSrgb,
            data,
        },
    )
}

/// Decodes the bundled hatch pattern, a PNG image.
///
/// Bytes that cannot be decoded as PNG give `Undecodable`. Decoded bytes
/// give what `hatch_image` makes of the image's RGBA pixels.
pub fn load_crosshatch(bytes: &[u8]) -> (image: Result<HatchImage, HatchError>)
    ensures
        same_outcome(image, hatch_image_from(decoded_png_rgba8(bytes@))),
        image matches Ok(hatch) ==> hatch@.wf(),
{
    match decode_png_rgba8(bytes) {
        Err(_) => Err(HatchError::Undecodable),
        Ok((width, height, pixels)) => hatch_image(width, height, pixels.as_slice()),
    }
}

/// The steps that prepare a view before its node runs.
#[derive(Clone, Copy, Debug, PartialEq, Eq, Structural)]
pub enum PrepareSystem {
    Pipelines,
    Textures,
    BindGroups,
}

/// The stages of the host's render schedule in which the steps run.
#[derive(Clone, Copy, Debug, PartialEq, Eq, Structural)]
pub enum RenderSet {
    Prepare,
    PrepareResources,
    PrepareBindGroups,
}

/// The stage of each step: pipelines first, then textures among the
/// resources, then the bind groups over them.
pub open spec fn system_set(system: PrepareSystem) -> RenderSet {
    match system {
        PrepareSystem::Pipelines => RenderSet::Prepare,
        PrepareSystem::Textures => RenderSet::PrepareResources,
        PrepareSystem::BindGroups => RenderSet::PrepareBindGroups,
    }
}

/// The nodes of the render graph between which the effect runs, and its
/// own.
#[derive(Clone, Copy, Debug, PartialEq, Eq, Structural)]
pub enum GraphNode {
    Tonemapping,
    DoG,
    EndMainPassPostProcessing,
}

/// The label of the effect's node in the render graph.
#[derive(Clone, Copy, Debug, PartialEq, Eq, Hash, Structural)]
pub struct DoGLabel;

impl DoGLabel {
    /// The node that the label names.
    pub fn node(&self) -> (node: GraphNode)
        ensures
            node == GraphNode::DoG,
    {
        GraphNode::DoG
    }
}

/// The shaders of the effect, in the order in which they are loaded.
pub open spec fn bundled_shaders() -> Seq<ShaderId> {
    seq![
        ShaderId::Rgb2Lab,
        ShaderId::Tfm,
        ShaderId::FDoG,
        ShaderId::DoG,
        ShaderId::Aa,
        ShaderId::Blend,
    ]
}

/// The order of the nodes: the effect runs after tone mapping and before
/// the end of post-processing.
pub open spec fn graph_order() -> Seq<GraphNode> {
    seq![GraphNode::Tonemapping, GraphNode::DoG, GraphNode::EndMainPassPostProcessing]
}

/// The effect as a unit that a host adds.
#[derive(Clone, Copy, Debug, PartialEq, Eq, Structural)]
pub struct DoGPlugin;

impl DoGPlugin {
    /// Decodes the bundled hatch pattern, as `load_crosshatch` does.
    pub fn crosshatch_image(&self, bytes: &[u8]) -> (image: Result<HatchImage, HatchError>)
        ensures
            same_outcome(image, hatch_image_from(decoded_png_rgba8(bytes@))),
            image matches Ok(hatch) ==> hatch@.wf(),
    {
        load_crosshatch(bytes)
    }

    /// The shaders to load, in order.
    pub fn shaders(&self) -> (shaders: Vec<ShaderId>)
        ensures
            shaders@ == bundled_shaders(),
    {
        let mut shaders: Vec<ShaderId> = Vec::new();
        shaders.push(ShaderId::Rgb2Lab);
        shaders.push(ShaderId::Tfm);
        shaders.push(ShaderId::FDoG);
        shaders.push(ShaderId::DoG);
        shaders.push(ShaderId::Aa);
        shaders.push(ShaderId::Blend);
        assert(shaders@ =~= bundled_shaders());
        shaders
    }

    /// The stage in which a preparation step runs.
    pub fn set_of(&self, system: PrepareSystem) -> (set: RenderSet)
        ensures
            set == system_set(system),
    {
        match system {
            PrepareSystem::Pipelines => RenderSet::Prepare,
            PrepareSystem::Textures => RenderSet::PrepareResources,
            PrepareSystem::BindGroups => RenderSet::PrepareBindGroups,
        }
    }

    /// The nodes between which the effect's node is ordered, with it in
    /// their middle.
    pub fn graph_edges(&self) -> (nodes: Vec<GraphNode>)
        ensures
            nodes@ == graph_order(),
    {
        let mut nodes: Vec<GraphNode> = Vec::new();
        nodes.push(GraphNode::Tonemapping);
        nodes.push(DoGLabel.node());
        nodes.push(GraphNode::EndMainPassPostProcessing);
        assert(nodes@ =~= graph_order());
        nodes
    }
}

} // verus!
