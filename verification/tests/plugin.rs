use bevy_dog::pipeline::ShaderId;
use bevy_dog::plugin::{
    hatch_image, load_crosshatch, DoGLabel, DoGPlugin, Extent3d, GraphNode, HatchError,
    HatchImage, PrepareSystem, RenderAssetUsages, RenderSet,
};
use bevy_dog::textures::{TextureDimension, TextureFormat};
use std::io::Cursor;

fn gray_png() -> Vec<u8> {
    vec![
        137, 80, 78, 71, 13, 10, 26, 10, 0, 0, 0, 13, 73, 72, 68, 82, 0, 0, 0, 2, 0, 0, 0, 2, 8,
        0, 0, 0, 0, 87, 221, 82, 248, 0, 0, 0, 14, 73, 68, 65, 84, 120, 156, 99, 96, 248, 207,
        208, 224, 0, 0, 5, 66, 1, 192, 112, 54, 54, 214, 0, 0, 0, 0, 73, 69, 78, 68, 174, 66, 96,
        130,
    ]
}

#[test]
fn buffer_of_the_right_size_becomes_the_hatch_image() {
    let pixels: Vec<u8> = (0..24).collect();
    let image = hatch_image(3, 2, &pixels).unwrap();
    assert_eq!(
        image,
        HatchImage {
            size: Extent3d { width: 3, height: 2, depth_or_array_layers: 1 },
            format: TextureFormat::Rgba8UnormSrgb,
            data: pixels,
        }
    );
}

#[test]
fn buffer_of_another_size_is_refused() {
    let pixels: Vec<u8> = (0..24).collect();
    assert_eq!(hatch_image(2, 2, &pixels), Err(HatchError::SizeMismatch));
    assert_eq!(hatch_image(3, 3, &pixels), Err(HatchError::SizeMismatch));
    assert_eq!(hatch_image(6, 1, &pixels[..23]), Err(HatchError::SizeMismatch));
    assert_eq!(hatch_image(u32::MAX, u32::MAX, &pixels), Err(HatchError::SizeMismatch));
    assert_eq!(hatch_image(0, 7, &pixels), Err(HatchError::SizeMismatch));
}

#[test]
fn empty_image_has_an_empty_buffer() {
    let image = hatch_image(0, 5, &[]).unwrap();
    assert_eq!(image.size, Extent3d { width: 0, height: 5, depth_or_array_layers: 1 });
    assert_eq!(image.data, Vec::<u8>::new());
}

#[test]
fn bytes_that_are_no_image_are_undecodable() {
    assert_eq!(load_crosshatch(&[]), Err(HatchError::Undecodable));
    assert_eq!(load_crosshatch(b"not an image at all"), Err(HatchError::Undecodable));
    let mut truncated = gray_png();
    truncated.truncate(40);
    assert_eq!(load_crosshatch(&truncated), Err(HatchError::Undecodable));
}

#[test]
fn gray_pattern_is_decoded_to_rgba() {
    let image = load_crosshatch(&gray_png()).unwrap();
    assert_eq!(image.size, Extent3d { width: 2, height: 2, depth_or_array_layers: 1 });
    assert_eq!(image.format, TextureFormat::Rgba8UnormSrgb);
    assert_eq!(
        image.data,
        vec![0, 0, 0, 255, 255, 255, 255, 255, 128, 128, 128, 255, 64, 64, 64, 255]
    );
    assert_ne!(image.data, gray_png());
}

#[test]
fn encoded_rgba_pattern_comes_back_pixel_for_pixel() {
    let pixels: Vec<u8> = (0..3 * 2 * 4).map(|i| (i * 10) as u8).collect();
    let buffer = image::RgbaImage::from_raw(3, 2, pixels.clone()).unwrap();
    let mut encoded = Cursor::new(Vec::new());
    buffer.write_to(&mut encoded, image::ImageFormat::Png).unwrap();
    let encoded = encoded.into_inner();
    assert_ne!(encoded, pixels);
    let plugin = DoGPlugin;
    let image = plugin.crosshatch_image(&encoded).unwrap();
    assert_eq!(image.size, Extent3d { width: 3, height: 2, depth_or_array_layers: 1 });
    assert_eq!(image.data, pixels);
    assert_eq!(load_crosshatch(&encoded), Ok(image));
}

#[test]
fn decoding_twice_gives_the_same_image() {
    assert_eq!(load_crosshatch(&gray_png()), load_crosshatch(&gray_png()));
}

#[test]
fn shaders_are_loaded_in_order() {
    assert_eq!(
        DoGPlugin.shaders(),
        vec![
            ShaderId::Rgb2Lab,
            ShaderId::Tfm,
            ShaderId::FDoG,
            ShaderId::DoG,
            ShaderId::Aa,
            ShaderId::Blend,
        ]
    );
}

#[test]
fn preparation_steps_run_in_their_stages() {
    let plugin = DoGPlugin;
    assert_eq!(plugin.set_of(PrepareSystem::Pipelines), RenderSet::Prepare);
    assert_eq!(plugin.set_of(PrepareSystem::Textures), RenderSet::PrepareResources);
    assert_eq!(plugin.set_of(PrepareSystem::BindGroups), RenderSet::PrepareBindGroups);
}

#[test]
fn node_runs_between_tone_mapping_and_the_end_of_post_processing() {
    assert_eq!(
        DoGPlugin.graph_edges(),
        vec![GraphNode::Tonemapping, GraphNode::DoG, GraphNode::EndMainPassPostProcessing]
    );
    assert_eq!(DoGLabel.node(), GraphNode::DoG);
}

#[test]
fn hatch_image_is_two_dimensional_and_kept_for_rendering() {
    let image = load_crosshatch(&gray_png()).unwrap();
    assert_eq!(image.dimension(), TextureDimension::D2);
    assert_eq!(image.asset_usage(), RenderAssetUsages::RenderWorld);
    assert_eq!(image.format, TextureFormat::Rgba8UnormSrgb);
}

#[test]
fn only_png_bytes_are_decoded() {
    let pixels: Vec<u8> = vec![10, 20, 30, 255];
    let buffer = image::RgbaImage::from_raw(1, 1, pixels.clone()).unwrap();
    let mut png = Cursor::new(Vec::new());
    buffer.write_to(&mut png, image::ImageFormat::Png).unwrap();
    let png = png.into_inner();
    assert_eq!(load_crosshatch(&png).unwrap().data, pixels);
    let mut damaged = png.clone();
    damaged[1] = b'X';
    assert_eq!(load_crosshatch(&damaged), Err(HatchError::Undecodable));
    assert_eq!(load_crosshatch(&png[8..]), Err(HatchError::Undecodable));
}
