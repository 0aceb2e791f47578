use bevy_dog::settings::{
    word_of, BlendMode, DoGSettings, PassesSettings, Thresholding, Vec2, Vec3, Vec4, ONE,
    SETTINGS_BLOCK_BYTES, TWO, ZERO,
};

fn bits(value: f32) -> u32 {
    value.to_bits()
}

fn vec4(x: f32, y: f32, z: f32, w: f32) -> Vec4 {
    Vec4 { x: bits(x), y: bits(y), z: bits(z), w: bits(w) }
}

fn vec3(x: f32, y: f32, z: f32) -> Vec3 {
    Vec3 { x: bits(x), y: bits(y), z: bits(z) }
}

fn word_at(bytes: &[u8], offset: usize) -> u32 {
    u32::from_le_bytes([bytes[offset], bytes[offset + 1], bytes[offset + 2], bytes[offset + 3]])
}

#[test]
fn named_bit_patterns_are_the_reals_they_name() {
    assert_eq!(ZERO, bits(0.0));
    assert_eq!(ONE, bits(1.0));
    assert_eq!(TWO, bits(2.0));
    assert_eq!(f32::from_bits(ONE), 1.0);
}

#[test]
fn default_settings_have_the_documented_values() {
    let settings = DoGSettings::default();
    assert_eq!(settings.thresholding, 0);
    assert_eq!(settings.blend_mode, 0);
    assert_eq!(settings.invert, 0);
    assert_eq!(settings.calc_diff_before_convolution, 0);
    assert_eq!(settings.sigma_c, bits(2.0));
    assert_eq!(settings.sigma_e, bits(2.0));
    assert_eq!(settings.sigma_m, bits(2.0));
    assert_eq!(settings.sigma_a, bits(1.0));
    assert_eq!(settings.quantizer_step, bits(2.0));
    assert_eq!(settings.k, bits(1.6));
    assert_eq!(settings.tau, bits(1.0));
    assert_eq!(settings.phi, bits(1.0));
    assert_eq!(settings.blend_strength, bits(1.0));
    assert_eq!(settings.dog_strength, bits(1.0));
    assert_eq!(settings.line_conv_step_sizes, Vec2 { x: bits(1.0), y: bits(1.0) });
    assert_eq!(settings.edge_smooth_step_sizes, Vec2::splat(bits(1.0)));
    assert_eq!(settings.min_color, vec3(0.0, 0.0, 0.0));
    assert_eq!(settings.max_color, vec3(1.0, 1.0, 1.0));
    assert_eq!(settings.enable_hatch, 0);
    assert_eq!(settings.enable_layers, vec4(1.0, 0.0, 0.0, 0.0));
    assert_eq!(settings.hatch_resolutions, vec4(1.0, 1.0, 1.0, 1.0));
    assert_eq!(settings.hatch_rotations, vec4(15.0, 60.0, 105.0, 170.0));
    assert_eq!(settings.thresholds, vec4(90.0, 20.0, 30.0, 40.0));
}

#[test]
fn outline_dither_preset_changes_seven_fields() {
    let mut expected = DoGSettings::default();
    expected.k = bits(0.5);
    expected.tau = bits(32.0);
    expected.phi = bits(0.8);
    expected.thresholding = 1;
    expected.thresholds = vec4(12.0, 6.0, 3.0, 0.5);
    expected.min_color = vec3(0.5, 0.4, 0.4);
    expected.max_color = vec3(0.8, 1.0, 0.9);
    assert_eq!(DoGSettings::outline_dither(), expected);
}

#[test]
fn crosshatch_preset_enables_all_layers_and_hatching() {
    let mut expected = DoGSettings::default();
    expected.tau = bits(4.0);
    expected.blend_strength = bits(0.9);
    expected.max_color = vec3(0.8, 0.85, 0.81);
    expected.phi = bits(2.0);
    expected.thresholding = 1;
    expected.enable_layers = vec4(1.0, 1.0, 1.0, 1.0);
    expected.thresholds = vec4(0.2, 1.3, 0.7, 0.5);
    expected.enable_hatch = 1;
    expected.hatch_resolutions = Vec4::splat(bits(6.2));
    assert_eq!(DoGSettings::crosshatch(), expected);
    assert_eq!(Vec3::splat(7), Vec3 { x: 7, y: 7, z: 7 });
}

#[test]
fn outline_preset_raises_the_edge_bias() {
    let mut expected = DoGSettings::default();
    expected.tau = bits(15.0);
    assert_eq!(DoGSettings::outline(), expected);
}

#[test]
fn modes_have_their_numbers() {
    assert_eq!(Thresholding::NoThreshold.to_i32(), 0);
    assert_eq!(Thresholding::Tanh.to_i32(), 1);
    assert_eq!(Thresholding::Quantization.to_i32(), 2);
    assert_eq!(Thresholding::SmoothQuantization.to_i32(), 3);
    assert_eq!(BlendMode::NoBlend.to_i32(), 0);
    assert_eq!(BlendMode::Interpolate.to_i32(), 1);
    assert_eq!(BlendMode::TwoPointInterpolate.to_i32(), 2);
    assert_eq!(Thresholding::from_i32(3), Some(Thresholding::SmoothQuantization));
    assert_eq!(Thresholding::from_i32(4), None);
    assert_eq!(Thresholding::from_i32(-1), None);
    assert_eq!(BlendMode::from_i32(2), Some(BlendMode::TwoPointInterpolate));
    assert_eq!(BlendMode::from_i32(3), None);
    assert_eq!(DoGSettings::crosshatch().thresholding_mode(), Some(Thresholding::Tanh));
    assert_eq!(DoGSettings::default().blend(), Some(BlendMode::NoBlend));
    let mut odd = DoGSettings::default();
    odd.thresholding = 17;
    odd.blend_mode = -3;
    assert_eq!(odd.thresholding_mode(), None);
    assert_eq!(odd.blend(), None);
}

#[test]
fn signed_numbers_are_stored_in_twos_complement() {
    assert_eq!(word_of(0), 0);
    assert_eq!(word_of(1), 1);
    assert_eq!(word_of(i32::MAX), 0x7fff_ffff);
    assert_eq!(word_of(-1), 0xffff_ffff);
    assert_eq!(word_of(i32::MIN), 0x8000_0000);
    assert_eq!(word_of(-3), (-3i32).to_le_bytes().iter().rev().fold(0, |w, b| (w << 8) | u32::from(*b)));
}

#[test]
fn settings_block_has_176_bytes_with_fields_at_their_offsets() {
    let mut settings = DoGSettings::outline_dither();
    settings.invert = 1;
    settings.calc_diff_before_convolution = -1;
    settings.enable_hatch = 1;
    settings.line_conv_step_sizes = Vec2 { x: bits(3.0), y: bits(4.0) };
    settings.edge_smooth_step_sizes = Vec2 { x: bits(5.0), y: bits(6.0) };
    let bytes = settings.to_uniform_bytes();
    assert_eq!(bytes.len(), 176);
    assert_eq!(SETTINGS_BLOCK_BYTES, 176);
    assert_eq!(word_at(&bytes, 0), 1);
    assert_eq!(word_at(&bytes, 4), 0);
    assert_eq!(word_at(&bytes, 8), 1);
    assert_eq!(word_at(&bytes, 12), 0xffff_ffff);
    assert_eq!(word_at(&bytes, 16), bits(2.0));
    assert_eq!(word_at(&bytes, 20), bits(2.0));
    assert_eq!(word_at(&bytes, 24), bits(2.0));
    assert_eq!(word_at(&bytes, 28), bits(1.0));
    assert_eq!(word_at(&bytes, 32), bits(2.0));
    assert_eq!(word_at(&bytes, 36), bits(0.5));
    assert_eq!(word_at(&bytes, 40), bits(32.0));
    assert_eq!(word_at(&bytes, 44), bits(0.8));
    assert_eq!(word_at(&bytes, 48), bits(1.0));
    assert_eq!(word_at(&bytes, 52), bits(1.0));
    assert_eq!(word_at(&bytes, 56), 0);
    assert_eq!(word_at(&bytes, 60), 0);
    assert_eq!(word_at(&bytes, 64), bits(0.5));
    assert_eq!(word_at(&bytes, 68), bits(0.4));
    assert_eq!(word_at(&bytes, 72), bits(0.4));
    assert_eq!(word_at(&bytes, 76), 0);
    assert_eq!(word_at(&bytes, 80), bits(0.8));
    assert_eq!(word_at(&bytes, 84), bits(1.0));
    assert_eq!(word_at(&bytes, 88), bits(0.9));
    assert_eq!(word_at(&bytes, 92), 1);
    assert_eq!(word_at(&bytes, 96), bits(1.0));
    assert_eq!(word_at(&bytes, 100), 0);
    assert_eq!(word_at(&bytes, 104), 0);
    assert_eq!(word_at(&bytes, 108), 0);
    assert_eq!(word_at(&bytes, 112), bits(1.0));
    assert_eq!(word_at(&bytes, 124), bits(1.0));
    assert_eq!(word_at(&bytes, 128), bits(15.0));
    assert_eq!(word_at(&bytes, 132), bits(60.0));
    assert_eq!(word_at(&bytes, 136), bits(105.0));
    assert_eq!(word_at(&bytes, 140), bits(170.0));
    assert_eq!(word_at(&bytes, 144), bits(12.0));
    assert_eq!(word_at(&bytes, 148), bits(6.0));
    assert_eq!(word_at(&bytes, 152), bits(3.0));
    assert_eq!(word_at(&bytes, 156), bits(0.5));
    assert_eq!(word_at(&bytes, 160), bits(3.0));
    assert_eq!(word_at(&bytes, 164), bits(4.0));
    assert_eq!(word_at(&bytes, 168), bits(5.0));
    assert_eq!(word_at(&bytes, 172), bits(6.0));
}

#[test]
fn default_block_has_the_first_color_at_byte_64() {
    let bytes = DoGSettings::default().to_uniform_bytes();
    assert_eq!(&bytes[64..76], &[0u8; 12]);
    assert_eq!(bytes[67], 0);
    assert_eq!(&bytes[80..84], &1.0f32.to_le_bytes());
    assert_eq!(&bytes[160..164], &1.0f32.to_le_bytes());
    assert_eq!(&bytes[168..172], &1.0f32.to_le_bytes());
    assert_eq!(bytes[171], 0x3f);
}

#[test]
fn settings_block_stores_words_little_endian() {
    let bytes = DoGSettings::default().to_uniform_bytes();
    assert_eq!(&bytes[36..40], &1.6f32.to_le_bytes());
    assert_eq!(&bytes[36..40], &[0xcd, 0xcc, 0xcc, 0x3f]);
    assert_eq!(&bytes[144..148], &90.0f32.to_le_bytes());
}

#[test]
fn settings_block_is_the_same_for_the_same_settings() {
    let first = DoGSettings::crosshatch().to_uniform_bytes();
    let second = DoGSettings::crosshatch().to_uniform_bytes();
    assert_eq!(first, second);
    assert_ne!(first, DoGSettings::outline().to_uniform_bytes());
}

#[test]
fn settings_have_twenty_three_fields() {
    assert_eq!(DoGSettings::default().uniform_fields().len(), 23);
}

#[test]
fn toggles_block_has_two_words() {
    let bytes = PassesSettings { aa: 1, tfm: 0 }.to_uniform_bytes();
    assert_eq!(bytes, vec![1, 0, 0, 0, 0, 0, 0, 0]);
    let bytes = PassesSettings { aa: -2, tfm: 1 }.to_uniform_bytes();
    assert_eq!(bytes, vec![0xfe, 0xff, 0xff, 0xff, 1, 0, 0, 0]);
}
