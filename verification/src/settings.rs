//! Per-view configuration of the effect.
//!
//! Real-valued parameters are held as the bit patterns of their IEEE 754
//! single-precision values, which is how the shaders receive them. Nothing
//! here validates a value: what the host writes is what the passes get.

use vstd::prelude::*;

use crate::uniform::{
    block_align, block_size, end_offset, field_offset, lemma_block_size, lemma_field_at_offset,
    lemma_gap_is_zero, pack, packed_bytes, packed_words, round_up, words_to_bytes, Field,
};

verus! {

/// The bit pattern of `0.0`.
pub const ZERO: u32 = 0x0000_0000;

/// The bit pattern of `1.0`.
pub const ONE: u32 = 0x3f80_0000;

/// The bit pattern of `2.0`.
pub const TWO: u32 = 0x4000_0000;

/// How the blend stage maps the filter response to an intensity.
#[derive(Clone, Copy, Debug, PartialEq, Eq, Structural)]
pub enum Thresholding {
    NoThreshold,
    Tanh,
    Quantization,
    SmoothQuantization,
}

/// How the blend stage combines the layers.
#[derive(Clone, Copy, Debug, PartialEq, Eq, Structural)]
pub enum BlendMode {
    NoBlend,
    Interpolate,
    TwoPointInterpolate,
}

impl Thresholding {
    /// The number that stands for the mode in a settings block.
    pub open spec fn code(self) -> i32 {
        match self {
            Thresholding::NoThreshold => 0,
            Thresholding::Tanh => 1,
            Thresholding::Quantization => 2,
            Thresholding::SmoothQuantization => 3,
        }
    }

    /// The number that stands for the mode in a settings block.
    pub fn to_i32(self) -> (code: i32)
        ensures
            code == self.code(),
    {
        match self {
            Thresholding::NoThreshold => 0,
            Thresholding::Tanh => 1,
            Thresholding::Quantization => 2,
            Thresholding::SmoothQuantization => 3,
        }
    }

    /// The mode that a number stands for, if it stands for one.
    pub fn from_i32(code: i32) -> (mode: Option<Thresholding>)
        ensures
            0 <= code <= 3 <==> mode is Some,
            mode matches Some(m) ==> m.code() == code,
    {
        match code {
            0 => Some(Thresholding::NoThreshold),
            1 => Some(Thresholding::Tanh),
            2 => Some(Thresholding::Quantization),
            3 => Some(Thresholding::SmoothQuantization),
            _ => None,
        }
    }
}

impl BlendMode {
    /// The number that stands for the mode in a settings block.
    pub open spec fn code(self) -> i32 {
        match self {
            BlendMode::NoBlend => 0,
            BlendMode::Interpolate => 1,
            BlendMode::TwoPointInterpolate => 2,
        }
    }

    /// The number that stands for the mode in a settings block.
    pub fn to_i32(self) -> (code: i32)
        ensures
            code == self.code(),
    {
        match self {
            BlendMode::NoBlend => 0,
            BlendMode::Interpolate => 1,
            BlendMode::TwoPointInterpolate => 2,
        }
    }

    /// The mode that a number stands for, if it stands for one.
    pub fn from_i32(code: i32) -> (mode: Option<BlendMode>)
        ensures
            0 <= code <= 2 <==> mode is Some,
            mode matches Some(m) ==> m.code() == code,
    {
        match code {
            0 => Some(BlendMode::NoBlend),
            1 => Some(BlendMode::Interpolate),
            2 => Some(BlendMode::TwoPointInterpolate),
            _ => None,
        }
    }
}

/// A pair of reals, as bit patterns.
#[derive(Clone, Copy, Debug, PartialEq, Eq, Structural)]
pub struct Vec2 {
    pub x: u32,
    pub y: u32,
}

/// A triple of reals, as bit patterns.
#[derive(Clone, Copy, Debug, PartialEq, Eq, Structural)]
pub struct Vec3 {
    pub x: u32,
    pub y: u32,
    pub z: u32,
}

/// Four reals, as bit patterns.
#[derive(Clone, Copy, Debug, PartialEq, Eq, Structural)]
pub struct Vec4 {
    pub x: u32,
    pub y: u32,
    pub z: u32,
    pub w: u32,
}

impl Vec2 {
    /// The pair with `value` in both components.
    pub fn splat(value: u32) -> (v: Vec2)
        ensures
            v == (Vec2 { x: value, y: value }),
    {
        Vec2 { x: value, y: value }
    }
}

impl Vec3 {
    /// The triple with `value` in every component.
    pub fn splat(value: u32) -> (v: Vec3)
        ensures
            v == (Vec3 { x: value, y: value, z: value }),
    {
        Vec3 { x: value, y: value, z: value }
    }
}

impl Vec4 {
    /// The vector with `value` in every component.
    pub fn splat(value: u32) -> (v: Vec4)
        ensures
            v == (Vec4 { x: value, y: value, z: value, w: value }),
    {
        Vec4 { x: value, y: value, z: value, w: value }
    }
}

/// The word that stores a signed number: its two's complement.
pub open spec fn signed_word(value: i32) -> u32 {
    if value >= 0 {
        value as u32
    } else {
        (value + 0x1_0000_0000) as u32
    }
}

/// The word that stores `value`.
pub fn word_of(value: i32) -> (word: u32)
    ensures
        word == signed_word(value),
{
    if value >= 0 {
        value as u32
    } else {
        (value as i64 + 0x1_0000_0000) as u32
    }
}

/// The numeric configuration of one stylized view.
#[derive(Clone, Copy, Debug, PartialEq, Eq, Structural)]
pub struct DoGSettings {
    pub thresholding: i32,
    pub blend_mode: i32,
    pub invert: i32,
    pub calc_diff_before_convolution: i32,
    pub sigma_c: u32,
    pub sigma_e: u32,
    pub sigma_m: u32,
    pub sigma_a: u32,
    pub quantizer_step: u32,
    pub k: u32,
    pub tau: u32,
    pub phi: u32,
    pub blend_strength: u32,
    pub dog_strength: u32,
    pub min_color: Vec3,
    pub max_color: Vec3,
    pub enable_hatch: i32,
    pub enable_layers: Vec4,
    pub hatch_resolutions: Vec4,
    pub hatch_rotations: Vec4,
    pub thresholds: Vec4,
    pub line_conv_step_sizes: Vec2,
    pub edge_smooth_step_sizes: Vec2,
}

/// The settings that a view starts with: no thresholding, no blending, no
/// hatching, the first layer alone enabled.
pub open spec fn default_settings() -> DoGSettings {
    DoGSettings {
        thresholding: 0,
        blend_mode: 0,
        invert: 0,
        calc_diff_before_convolution: 0,
        sigma_c: TWO,
        sigma_e: TWO,
        sigma_m: TWO,
        sigma_a: ONE,
        quantizer_step: TWO,
        k: 0x3fcc_cccd,
        tau: ONE,
        phi: ONE,
        blend_strength: ONE,
        dog_strength: ONE,
        min_color: Vec3 { x: ZERO, y: ZERO, z: ZERO },
        max_color: Vec3 { x: ONE, y: ONE, z: ONE },
        enable_hatch: 0,
        enable_layers: Vec4 { x: ONE, y: ZERO, z: ZERO, w: ZERO },
        hatch_resolutions: Vec4 { x: ONE, y: ONE, z: ONE, w: ONE },
        hatch_rotations: Vec4 { x: 0x4170_0000, y: 0x4270_0000, z: 0x42d2_0000, w: 0x432a_0000 },
        thresholds: Vec4 { x: 0x42b4_0000, y: 0x41a0_0000, z: 0x41f0_0000, w: 0x4220_0000 },
        line_conv_step_sizes: Vec2 { x: ONE, y: ONE },
        edge_smooth_step_sizes: Vec2 { x: ONE, y: ONE },
    }
}

/// Dithered outlines: `tanh` thresholding with a strong edge bias and a
/// tinted gradient.
pub open spec fn outline_dither_settings() -> DoGSettings {
    DoGSettings {
        k: 0x3f00_0000,
        tau: 0x4200_0000,
        phi: 0x3f4c_cccd,
        thresholding: 1,
        thresholds: Vec4 { x: 0x4140_0000, y: 0x40c0_0000, z: 0x4040_0000, w: 0x3f00_0000 },
        min_color: Vec3 { x: 0x3f00_0000, y: 0x3ecc_cccd, z: 0x3ecc_cccd },
        max_color: Vec3 { x: 0x3f4c_cccd, y: ONE, z: 0x3f66_6666 },
        ..default_settings()
    }
}

/// Cross-hatching: `tanh` thresholding over all four layers, hatched.
pub open spec fn crosshatch_settings() -> DoGSettings {
    DoGSettings {
        tau: 0x4080_0000,
        blend_strength: 0x3f66_6666,
        max_color: Vec3 { x: 0x3f4c_cccd, y: 0x3f59_999a, z: 0x3f4f_5c29 },
        phi: TWO,
        thresholding: 1,
        enable_layers: Vec4 { x: ONE, y: ONE, z: ONE, w: ONE },
        thresholds: Vec4 { x: 0x3e4c_cccd, y: 0x3fa6_6666, z: 0x3f33_3333, w: 0x3f00_0000 },
        enable_hatch: 1,
        hatch_resolutions: Vec4 { x: 0x40c6_6666, y: 0x40c6_6666, z: 0x40c6_6666, w: 0x40c6_6666 },
        ..default_settings()
    }
}

/// Plain outlines: the defaults with a stronger edge bias.
pub open spec fn outline_settings() -> DoGSettings {
    DoGSettings { tau: 0x4170_0000, ..default_settings() }
}

impl DoGSettings {
    /// The fields of the block, in declaration order.
    pub open spec fn fields(self) -> Seq<Field> {
        seq![
            Field::Scalar(signed_word(self.thresholding)),
            Field::Scalar(signed_word(self.blend_mode)),
            Field::Scalar(signed_word(self.invert)),
            Field::Scalar(signed_word(self.calc_diff_before_convolution)),
            Field::Scalar(self.sigma_c),
            Field::Scalar(self.sigma_e),
            Field::Scalar(self.sigma_m),
            Field::Scalar(self.sigma_a),
            Field::Scalar(self.quantizer_step),
            Field::Scalar(self.k),
            Field::Scalar(self.tau),
            Field::Scalar(self.phi),
            Field::Scalar(self.blend_strength),
            Field::Scalar(self.dog_strength),
            Field::Vec3(self.min_color.x, self.min_color.y, self.min_color.z),
            Field::Vec3(self.max_color.x, self.max_color.y, self.max_color.z),
            Field::Scalar(signed_word(self.enable_hatch)),
            Field::Vec4(
                self.enable_layers.x,
                self.enable_layers.y,
                self.enable_layers.z,
                self.enable_layers.w,
            ),
            Field::Vec4(
                self.hatch_resolutions.x,
                self.hatch_resolutions.y,
                self.hatch_resolutions.z,
                self.hatch_resolutions.w,
            ),
            Field::Vec4(
                self.hatch_rotations.x,
                self.hatch_rotations.y,
                self.hatch_rotations.z,
                self.hatch_rotations.w,
            ),
            Field::Vec4(self.thresholds.x, self.thresholds.y, self.thresholds.z, self.thresholds.w),
            Field::Vec2(self.line_conv_step_sizes.x, self.line_conv_step_sizes.y),
            Field::Vec2(self.edge_smooth_step_sizes.x, self.edge_smooth_step_sizes.y),
        ]
    }

    /// The forty-four words of the block: every field at its offset, and
    /// zeros in the two words before the first color and in the word after
    /// it.
    pub open spec fn words(self) -> Seq<u32> {
        seq![
            signed_word(self.thresholding),
            signed_word(self.blend_mode),
            signed_word(self.invert),
            signed_word(self.calc_diff_before_convolution),
            self.sigma_c,
            self.sigma_e,
            self.sigma_m,
            self.sigma_a,
            self.quantizer_step,
            self.k,
            self.tau,
            self.phi,
            self.blend_strength,
            self.dog_strength,
            0,
            0,
            self.min_color.x,
            self.min_color.y,
            self.min_color.z,
            0,
            self.max_color.x,
            self.max_color.y,
            self.max_color.z,
            signed_word(self.enable_hatch),
            self.enable_layers.x,
            self.enable_layers.y,
            self.enable_layers.z,
            self.enable_layers.w,
            self.hatch_resolutions.x,
            self.hatch_resolutions.y,
            self.hatch_resolutions.z,
            self.hatch_resolutions.w,
            self.hatch_rotations.x,
            self.hatch_rotations.y,
            self.hatch_rotations.z,
            self.hatch_rotations.w,
            self.thresholds.x,
            self.thresholds.y,
            self.thresholds.z,
            self.thresholds.w,
            self.line_conv_step_sizes.x,
            self.line_conv_step_sizes.y,
            self.edge_smooth_step_sizes.x,
            self.edge_smooth_step_sizes.y,
        ]
    }

    /// The thresholding mode, where the field holds the number of one.
    pub fn thresholding_mode(&self) -> (mode: Option<Thresholding>)
        ensures
            0 <= self.thresholding <= 3 <==> mode is Some,
            mode matches Some(m) ==> m.code() == self.thresholding,
    {
        Thresholding::from_i32(self.thresholding)
    }

    /// The blend mode, where the field holds the number of one.
    pub fn blend(&self) -> (mode: Option<BlendMode>)
        ensures
            0 <= self.blend_mode <= 2 <==> mode is Some,
            mode matches Some(m) ==> m.code() == self.blend_mode,
    {
        BlendMode::from_i32(self.blend_mode)
    }

    /// The preset for dithered outlines.
    pub fn outline_dither() -> (settings: DoGSettings)
        ensures
            settings == outline_dither_settings(),
    {
        let mut settings = DoGSettings::default();
        settings.k = 0x3f00_0000;
        settings.tau = 0x4200_0000;
        settings.phi = 0x3f4c_cccd;
        settings.thresholding = Thresholding::Tanh.to_i32();
        settings.thresholds = Vec4 {
            x: 0x4140_0000,
            y: 0x40c0_0000,
            z: 0x4040_0000,
            w: 0x3f00_0000,
        };
        settings.min_color = Vec3 { x: 0x3f00_0000, y: 0x3ecc_cccd, z: 0x3ecc_cccd };
        settings.max_color = Vec3 { x: 0x3f4c_cccd, y: ONE, z: 0x3f66_6666 };
        settings
    }

    /// The preset for cross-hatching.
    pub fn crosshatch() -> (settings: DoGSettings)
        ensures
            settings == crosshatch_settings(),
    {
        let mut settings = DoGSettings::default();
        settings.tau = 0x4080_0000;
        settings.blend_strength = 0x3f66_6666;
        settings.max_color = Vec3 { x: 0x3f4c_cccd, y: 0x3f59_999a, z: 0x3f4f_5c29 };
        settings.phi = TWO;
        settings.thresholding = Thresholding::Tanh.to_i32();
        settings.enable_layers = Vec4::splat(ONE);
        settings.thresholds = Vec4 {
            x: 0x3e4c_cccd,
            y: 0x3fa6_6666,
            z: 0x3f33_3333,
            w: 0x3f00_0000,
        };
        settings.enable_hatch = 1;
        settings.hatch_resolutions = Vec4::splat(0x40c6_6666);
        settings
    }

    /// The preset for plain outlines.
    pub fn outline() -> (settings: DoGSettings)
        ensures
            settings == outline_settings(),
    {
        let mut settings = DoGSettings::default();
        settings.tau = 0x4170_0000;
        settings
    }

    /// The fields of the block, in declaration order.
    pub fn uniform_fields(&self) -> (fields: Vec<Field>)
        ensures
            fields@ == self.fields(),
    {
        let mut fields: Vec<Field> = Vec::new();
        fields.push(Field::Scalar(word_of(self.thresholding)));
        fields.push(Field::Scalar(word_of(self.blend_mode)));
        fields.push(Field::Scalar(word_of(self.invert)));
        fields.push(Field::Scalar(word_of(self.calc_diff_before_convolution)));
        fields.push(Field::Scalar(self.sigma_c));
        fields.push(Field::Scalar(self.sigma_e));
        fields.push(Field::Scalar(self.sigma_m));
        fields.push(Field::Scalar(self.sigma_a));
        fields.push(Field::Scalar(self.quantizer_step));
        fields.push(Field::Scalar(self.k));
        fields.push(Field::Scalar(self.tau));
        fields.push(Field::Scalar(self.phi));
        fields.push(Field::Scalar(self.blend_strength));
        fields.push(Field::Scalar(self.dog_strength));
        fields.push(Field::Vec3(self.min_color.x, self.min_color.y, self.min_color.z));
        fields.push(Field::Vec3(self.max_color.x, self.max_color.y, self.max_color.z));
        fields.push(Field::Scalar(word_of(self.enable_hatch)));
        fields.push(
            Field::Vec4(
                self.enable_layers.x,
                self.enable_layers.y,
                self.enable_layers.z,
                self.enable_layers.w,
            ),
        );
        fields.push(
            Field::Vec4(
                self.hatch_resolutions.x,
                self.hatch_resolutions.y,
                self.hatch_resolutions.z,
                self.hatch_resolutions.w,
            ),
        );
        fields.push(
            Field::Vec4(
                self.hatch_rotations.x,
                self.hatch_rotations.y,
                self.hatch_rotations.z,
                self.hatch_rotations.w,
            ),
        );
        fields.push(
            Field::Vec4(self.thresholds.x, self.thresholds.y, self.thresholds.z, self.thresholds.w),
        );
        fields.push(Field::Vec2(self.line_conv_step_sizes.x, self.line_conv_step_sizes.y));
        fields.push(Field::Vec2(self.edge_smooth_step_sizes.x, self.edge_smooth_step_sizes.y));
        assert(fields@ =~= self.fields());
        fields
    }

    /// The block as the bytes that the shaders read.
    pub fn to_uniform_bytes(&self) -> (bytes: Vec<u8>)
        ensures
            bytes@ == packed_bytes(self.fields()),
            bytes@ == words_to_bytes(self.words()),
            bytes.len() == SETTINGS_BLOCK_BYTES,
    {
        proof {
            lemma_settings_layout(*self);
            lemma_settings_words(*self);
        }
        let fields = self.uniform_fields();
        pack(&fields)
    }
}

impl Default for DoGSettings {
    fn default() -> (settings: DoGSettings)
        ensures
            settings == default_settings(),
    {
        DoGSettings {
            thresholding: Thresholding::NoThreshold.to_i32(),
            blend_mode: BlendMode::NoBlend.to_i32(),
            invert: 0,
            calc_diff_before_convolution: 0,
            sigma_c: TWO,
            sigma_e: TWO,
            sigma_m: TWO,
            sigma_a: ONE,
            quantizer_step: TWO,
            k: 0x3fcc_cccd,
            tau: ONE,
            phi: ONE,
            blend_strength: ONE,
            dog_strength: ONE,
            min_color: Vec3::splat(ZERO),
            max_color: Vec3::splat(ONE),
            enable_hatch: 0,
            enable_layers: Vec4 { x: ONE, y: ZERO, z: ZERO, w: ZERO },
            hatch_resolutions: Vec4::splat(ONE),
            hatch_rotations: Vec4 {
                x: 0x4170_0000,
                y: 0x4270_0000,
                z: 0x42d2_0000,
                w: 0x432a_0000,
            },
            thresholds: Vec4 { x: 0x42b4_0000, y: 0x41a0_0000, z: 0x41f0_0000, w: 0x4220_0000 },
            line_conv_step_sizes: Vec2::splat(ONE),
            edge_smooth_step_sizes: Vec2::splat(ONE),
        }
    }
}

/// The size of a settings block, in bytes.
pub const SETTINGS_BLOCK_BYTES: usize = 176;

/// The word at which each field of a settings block starts. The fourteen
/// scalars lie densely from byte 0. The two colors follow at bytes 64 and
/// 80, and the hatch switch takes the last word of the second color's
/// slot, at byte 92. The four per-layer vectors lie from byte 96, and the
/// two pairs of step sizes end the block at bytes 160 and 168.
pub open spec fn settings_offsets() -> Seq<nat> {
    seq![0, 1, 2, 3, 4, 5, 6, 7, 8, 9, 10, 11, 12, 13, 16, 20, 23, 24, 28, 32, 36, 40, 42]
}

/// Whatever its values, a settings block has its fields at the offsets
/// that `settings_offsets` lists and is 176 bytes long.
pub proof fn lemma_settings_layout(settings: DoGSettings)
    ensures
        settings.fields().len() == 23,
        forall|i: int|
            0 <= i < 23 ==> #[trigger] field_offset(settings.fields(), i) == settings_offsets()[i],
        block_size(settings.fields()) == 44,
        packed_bytes(settings.fields()).len() == SETTINGS_BLOCK_BYTES,
{
    let fields = settings.fields();
    assert(end_offset(fields, 0) == 0 && block_align(fields, 0) == 1);
    assert(end_offset(fields, 1) == 1 && block_align(fields, 1) == 1);
    assert(end_offset(fields, 2) == 2 && block_align(fields, 2) == 1);
    assert(end_offset(fields, 3) == 3 && block_align(fields, 3) == 1);
    assert(end_offset(fields, 4) == 4 && block_align(fields, 4) == 1);
    assert(end_offset(fields, 5) == 5 && block_align(fields, 5) == 1);
    assert(end_offset(fields, 6) == 6 && block_align(fields, 6) == 1);
    assert(end_offset(fields, 7) == 7 && block_align(fields, 7) == 1);
    assert(end_offset(fields, 8) == 8 && block_align(fields, 8) == 1);
    assert(end_offset(fields, 9) == 9 && block_align(fields, 9) == 1);
    assert(end_offset(fields, 10) == 10 && block_align(fields, 10) == 1);
    assert(end_offset(fields, 11) == 11 && block_align(fields, 11) == 1);
    assert(end_offset(fields, 12) == 12 && block_align(fields, 12) == 1);
    assert(end_offset(fields, 13) == 13 && block_align(fields, 13) == 1);
    assert(end_offset(fields, 14) == 14 && block_align(fields, 14) == 1);
    assert(fields[14].align() == 4 && round_up(14, 4) == 16);
    assert(end_offset(fields, 15) == 19 && block_align(fields, 15) == 4);
    assert(fields[15].align() == 4 && round_up(19, 4) == 20);
    assert(end_offset(fields, 16) == 23 && block_align(fields, 16) == 4);
    assert(end_offset(fields, 17) == 24 && block_align(fields, 17) == 4);
    assert(fields[17].align() == 4 && round_up(24, 4) == 24);
    assert(end_offset(fields, 18) == 28 && block_align(fields, 18) == 4);
    assert(fields[18].align() == 4 && round_up(28, 4) == 28);
    assert(end_offset(fields, 19) == 32 && block_align(fields, 19) == 4);
    assert(fields[19].align() == 4 && round_up(32, 4) == 32);
    assert(end_offset(fields, 20) == 36 && block_align(fields, 20) == 4);
    assert(fields[20].align() == 4 && round_up(36, 4) == 36);
    assert(end_offset(fields, 21) == 40 && block_align(fields, 21) == 4);
    assert(fields[21].align() == 2 && round_up(40, 2) == 40);
    assert(end_offset(fields, 22) == 42 && block_align(fields, 22) == 4);
    assert(fields[22].align() == 2 && round_up(42, 2) == 42);
    assert(end_offset(fields, 23) == 44 && block_align(fields, 23) == 4);
    assert(round_up(44, 4) == 44);
    lemma_block_size(fields, 0);
}

/// Word `word` of the block that the layout rule yields for the fields of
/// the settings is word `word` of what `words` spells out.
pub proof fn lemma_settings_word(settings: DoGSettings, word: int)
    requires
        0 <= word < 44,
    ensures
        packed_words(settings.fields()).len() == 44,
        packed_words(settings.fields())[word] == settings.words()[word],
{
    let fields = settings.fields();
    lemma_settings_layout(settings);
    lemma_block_size(fields, 0);
    if word == 0 {
        assert(field_offset(fields, 0) == 0);
        lemma_field_at_offset(fields, 0, 0);
    } else if word == 1 {
        assert(field_offset(fields, 1) == 1);
        lemma_field_at_offset(fields, 1, 0);
    } else if word == 2 {
        assert(field_offset(fields, 2) == 2);
        lemma_field_at_offset(fields, 2, 0);
    } else if word == 3 {
        assert(field_offset(fields, 3) == 3);
        lemma_field_at_offset(fields, 3, 0);
    } else if word == 4 {
        assert(field_offset(fields, 4) == 4);
        lemma_field_at_offset(fields, 4, 0);
    } else if word == 5 {
        assert(field_offset(fields, 5) == 5);
        lemma_field_at_offset(fields, 5, 0);
    } else if word == 6 {
        assert(field_offset(fields, 6) == 6);
        lemma_field_at_offset(fields, 6, 0);
    } else if word == 7 {
        assert(field_offset(fields, 7) == 7);
        lemma_field_at_offset(fields, 7, 0);
    } else if word == 8 {
        assert(field_offset(fields, 8) == 8);
        lemma_field_at_offset(fields, 8, 0);
    } else if word == 9 {
        assert(field_offset(fields, 9) == 9);
        lemma_field_at_offset(fields, 9, 0);
    } else if word == 10 {
        assert(field_offset(fields, 10) == 10);
        lemma_field_at_offset(fields, 10, 0);
    } else if word == 11 {
        assert(field_offset(fields, 11) == 11);
        lemma_field_at_offset(fields, 11, 0);
    } else if word == 12 {
        assert(field_offset(fields, 12) == 12);
        lemma_field_at_offset(fields, 12, 0);
    } else if word == 13 {
        assert(field_offset(fields, 13) == 13);
        lemma_field_at_offset(fields, 13, 0);
    } else if word == 14 {
        assert(field_offset(fields, 13) == 13);
        assert(field_offset(fields, 14) == 16);
        lemma_field_at_offset(fields, 13, 0);
        lemma_gap_is_zero(fields, 14, 14);
    } else if word == 15 {
        assert(field_offset(fields, 13) == 13);
        assert(field_offset(fields, 14) == 16);
        lemma_field_at_offset(fields, 13, 0);
        lemma_gap_is_zero(fields, 14, 15);
    } else if word == 16 {
        assert(field_offset(fields, 14) == 16);
        lemma_field_at_offset(fields, 14, 0);
    } else if word == 17 {
        assert(field_offset(fields, 14) == 16);
        lemma_field_at_offset(fields, 14, 1);
    } else if word == 18 {
        assert(field_offset(fields, 14) == 16);
        lemma_field_at_offset(fields, 14, 2);
    } else if word == 19 {
        assert(field_offset(fields, 14) == 16);
        assert(field_offset(fields, 15) == 20);
        lemma_field_at_offset(fields, 14, 0);
        lemma_gap_is_zero(fields, 15, 19);
    } else if word == 20 {
        assert(field_offset(fields, 15) == 20);
        lemma_field_at_offset(fields, 15, 0);
    } else if word == 21 {
        assert(field_offset(fields, 15) == 20);
        lemma_field_at_offset(fields, 15, 1);
    } else if word == 22 {
        assert(field_offset(fields, 15) == 20);
        lemma_field_at_offset(fields, 15, 2);
    } else if word == 23 {
        assert(field_offset(fields, 16) == 23);
        lemma_field_at_offset(fields, 16, 0);
    } else if word == 24 {
        assert(field_offset(fields, 17) == 24);
        lemma_field_at_offset(fields, 17, 0);
    } else if word == 25 {
        assert(field_offset(fields, 17) == 24);
        lemma_field_at_offset(fields, 17, 1);
    } else if word == 26 {
        assert(field_offset(fields, 17) == 24);
        lemma_field_at_offset(fields, 17, 2);
    } else if word == 27 {
        assert(field_offset(fields, 17) == 24);
        lemma_field_at_offset(fields, 17, 3);
    } else if word == 28 {
        assert(field_offset(fields, 18) == 28);
        lemma_field_at_offset(fields, 18, 0);
    } else if word == 29 {
        assert(field_offset(fields, 18) == 28);
        lemma_field_at_offset(fields, 18, 1);
    } else if word == 30 {
        assert(field_offset(fields, 18) == 28);
        lemma_field_at_offset(fields, 18, 2);
    } else if word == 31 {
        assert(field_offset(fields, 18) == 28);
        lemma_field_at_offset(fields, 18, 3);
    } else if word == 32 {
        assert(field_offset(fields, 19) == 32);
        lemma_field_at_offset(fields, 19, 0);
    } else if word == 33 {
        assert(field_offset(fields, 19) == 32);
        lemma_field_at_offset(fields, 19, 1);
    } else if word == 34 {
        assert(field_offset(fields, 19) == 32);
        lemma_field_at_offset(fields, 19, 2);
    } else if word == 35 {
        assert(field_offset(fields, 19) == 32);
        lemma_field_at_offset(fields, 19, 3);
    } else if word == 36 {
        assert(field_offset(fields, 20) == 36);
        lemma_field_at_offset(fields, 20, 0);
    } else if word == 37 {
        assert(field_offset(fields, 20) == 36);
        lemma_field_at_offset(fields, 20, 1);
    } else if word == 38 {
        assert(field_offset(fields, 20) == 36);
        lemma_field_at_offset(fields, 20, 2);
    } else if word == 39 {
        assert(field_offset(fields, 20) == 36);
        lemma_field_at_offset(fields, 20, 3);
    } else if word == 40 {
        assert(field_offset(fields, 21) == 40);
        lemma_field_at_offset(fields, 21, 0);
    } else if word == 41 {
        assert(field_offset(fields, 21) == 40);
        lemma_field_at_offset(fields, 21, 1);
    } else if word == 42 {
        assert(field_offset(fields, 22) == 42);
        lemma_field_at_offset(fields, 22, 0);
    } else {
        assert(field_offset(fields, 22) == 42);
        lemma_field_at_offset(fields, 22, 1);
    }
}

/// The block that the layout rule yields for the fields of the settings
/// is the one that `words` spells out.
pub proof fn lemma_settings_words(settings: DoGSettings)
    ensures
        packed_words(settings.fields()) == settings.words(),
        packed_bytes(settings.fields()) == words_to_bytes(settings.words()),
{
    assert forall|word: int| 0 <= word < 44 implies packed_words(settings.fields())[word]
        == settings.words()[word] by {
        lemma_settings_word(settings, word);
    }
    lemma_settings_word(settings, 0);
    assert(packed_words(settings.fields()) =~= settings.words());
}

/// The toggles block has its two fields in its two words and is 8 bytes
/// long.
pub proof fn lemma_toggles_layout(toggles: PassesSettings)
    ensures
        field_offset(toggles.fields(), 0) == 0,
        field_offset(toggles.fields(), 1) == 1,
        block_size(toggles.fields()) == 2,
        packed_bytes(toggles.fields()).len() == 8,
{
    let fields = toggles.fields();
    reveal_with_fuel(end_offset, 3);
    reveal_with_fuel(block_align, 3);
    lemma_block_size(fields, 0);
}

/// The pair of feature toggles that selects the passes of a frame.
///
/// A toggle is on when its field is exactly `1`.
#[derive(Clone, Copy, Debug, PartialEq, Eq, Structural)]
pub struct PassesSettings {
    pub aa: i32,
    pub tfm: i32,
}

impl PassesSettings {
    /// Whether anti-aliasing is switched on.
    pub open spec fn antialias(self) -> bool {
        self.aa == 1
    }

    /// Whether the flow-guided filter replaces the plain one.
    pub open spec fn flow_guided(self) -> bool {
        self.tfm == 1
    }

    /// The fields of the block, in declaration order.
    pub open spec fn fields(self) -> Seq<Field> {
        seq![Field::Scalar(signed_word(self.aa)), Field::Scalar(signed_word(self.tfm))]
    }

    /// The toggles for a pair of choices.
    pub fn new(use_flow_guided: bool, use_antialias: bool) -> (toggles: PassesSettings)
        ensures
            toggles.flow_guided() == use_flow_guided,
            toggles.antialias() == use_antialias,
            toggles.tfm == 0 || toggles.tfm == 1,
            toggles.aa == 0 || toggles.aa == 1,
    {
        PassesSettings {
            aa: if use_antialias {
                1
            } else {
                0
            },
            tfm: if use_flow_guided {
                1
            } else {
                0
            },
        }
    }

    /// Whether anti-aliasing is switched on.
    pub fn use_antialias(&self) -> (on: bool)
        ensures
            on == self.antialias(),
    {
        self.aa == 1
    }

    /// Whether the flow-guided filter replaces the plain one.
    pub fn use_flow_guided(&self) -> (on: bool)
        ensures
            on == self.flow_guided(),
    {
        self.tfm == 1
    }

    /// The block as the bytes that the shaders read.
    pub fn to_uniform_bytes(&self) -> (bytes: Vec<u8>)
        ensures
            bytes@ == packed_bytes(self.fields()),
            bytes.len() == 8,
    {
        proof {
            lemma_toggles_layout(*self);
        }
        let mut fields: Vec<Field> = Vec::new();
        fields.push(Field::Scalar(word_of(self.aa)));
        fields.push(Field::Scalar(word_of(self.tfm)));
        assert(fields@ =~= self.fields());
        pack(&fields)
    }
}

impl Default for PassesSettings {
    fn default() -> (toggles: PassesSettings)
        ensures
            toggles == (PassesSettings { aa: 0, tfm: 0 }),
    {
        PassesSettings { aa: 0, tfm: 0 }
    }
}

} // verus!
