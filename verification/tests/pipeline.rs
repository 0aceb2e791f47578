use bevy_dog::node::PassKind;
use bevy_dog::pipeline::{
    prepare_gaussian_pipelines, AddressMode, BindingType, ColorTargetState, ColorWrites,
    DoGPipelineIDs, DoGPipelineKeys, DoGPipelines, DoGSpecializedRenderPipelines, EntryPoint,
    FDoGPipelineIDs, FDoGPipelineKeys, FilterMode, FixedState, GaussianPipelineIDs, LayoutKind,
    PipelineVariant, RenderPipelineDescriptor, SamplerDescriptor, ShaderDef, ShaderId,
    TFMPipelineIDs, TFMPipelineKeys, CROSSHATCH_TEXTURE_HANDLE,
};
use bevy_dog::textures::TextureFormat;

fn variants() -> Vec<PipelineVariant> {
    vec![
        PipelineVariant::Tfm(TFMPipelineKeys::Eigenvector),
        PipelineVariant::Tfm(TFMPipelineKeys::Vertical),
        PipelineVariant::Tfm(TFMPipelineKeys::Horizontal),
        PipelineVariant::FDoG(FDoGPipelineKeys { first: true }),
        PipelineVariant::FDoG(FDoGPipelineKeys { first: false }),
        PipelineVariant::DoG(DoGPipelineKeys { first: true }),
        PipelineVariant::DoG(DoGPipelineKeys { first: false }),
    ]
}

#[test]
fn layouts_list_their_bindings() {
    assert_eq!(
        LayoutKind::Postprocess.entries(),
        vec![
            BindingType::Texture2d,
            BindingType::Sampler,
            BindingType::ViewUniform,
            BindingType::SettingsUniform,
        ]
    );
    assert_eq!(LayoutKind::Tfm.entries(), vec![BindingType::Texture2d, BindingType::Sampler]);
    assert_eq!(
        LayoutKind::Blend.entries(),
        vec![BindingType::Texture2d, BindingType::Texture2d, BindingType::Sampler]
    );
}

#[test]
fn samplers_have_their_modes() {
    assert_eq!(
        SamplerDescriptor::common(),
        SamplerDescriptor {
            address_mode_u: AddressMode::ClampToEdge,
            address_mode_v: AddressMode::ClampToEdge,
            address_mode_w: AddressMode::ClampToEdge,
            mag_filter: FilterMode::Linear,
            min_filter: FilterMode::Linear,
        }
    );
    assert_eq!(
        SamplerDescriptor::point_clamp(),
        SamplerDescriptor {
            address_mode_u: AddressMode::ClampToEdge,
            address_mode_v: AddressMode::ClampToEdge,
            address_mode_w: AddressMode::ClampToEdge,
            mag_filter: FilterMode::Nearest,
            min_filter: FilterMode::Nearest,
        }
    );
    let hatch = SamplerDescriptor::cross_hatch();
    assert_eq!(hatch.address_mode_u, AddressMode::Repeat);
    assert_eq!(hatch.address_mode_v, AddressMode::Repeat);
    assert_eq!(hatch.address_mode_w, AddressMode::ClampToEdge);
}

#[test]
fn shaders_have_their_files_and_handles() {
    assert_eq!(ShaderId::Rgb2Lab.file(), "rgb2lab.wgsl");
    assert_eq!(ShaderId::Tfm.file(), "tfm.wgsl");
    assert_eq!(ShaderId::FDoG.file(), "fdog.wgsl");
    assert_eq!(ShaderId::DoG.file(), "dog.wgsl");
    assert_eq!(ShaderId::Aa.file(), "aa.wgsl");
    assert_eq!(ShaderId::Blend.file(), "blend.wgsl");
    assert_eq!(ShaderId::Rgb2Lab.handle(), 0xce20ba6c_9bd1_4a62_bfe8_ba51750dbdc3);
    assert_eq!(ShaderId::Tfm.handle(), 0x34197afe_e54f_4d38_9fc6_7c467524cc59);
    assert_eq!(ShaderId::FDoG.handle(), 0x8588af6b_9061_4514_bb16_95deb4e06818);
    assert_eq!(ShaderId::DoG.handle(), 0xbedbea43_8967_4cdd_95b6_d3a4d630c436);
    assert_eq!(ShaderId::Aa.handle(), 0x9d4d296b_cb2d_4e25_8125_c6854184f959);
    assert_eq!(ShaderId::Blend.handle(), 0xb86e54d8_858a_41e5_84d5_62a34f455a77);
    assert_eq!(CROSSHATCH_TEXTURE_HANDLE, 0x3bc8be12_aa9d_481f_bce3_56ad52cdfea4);
}

#[test]
fn flow_map_variants_differ_by_definition() {
    let pipelines = DoGPipelines::from_world(0, 0, 0);
    let eigen = pipelines.tfm.specialize(TFMPipelineKeys::Eigenvector);
    assert_eq!(
        eigen,
        RenderPipelineDescriptor {
            layout: LayoutKind::Postprocess,
            shader: ShaderId::Tfm,
            shader_def: ShaderDef::Eigenvector,
            entry_point: EntryPoint::Fragment,
        }
    );
    assert_eq!(eigen.label(), "RGBA2LAB");
    assert_eq!(eigen.shader_def.name(), Some("EIGENVECTOR"));
    assert_eq!(eigen.entry_point.name(), "fragment");
    let vertical = pipelines.tfm.specialize(TFMPipelineKeys::Vertical);
    assert_eq!(vertical.shader_def.name(), Some("VERTICAL"));
    let horizontal = pipelines.tfm.specialize(TFMPipelineKeys::Horizontal);
    assert_eq!(horizontal.shader_def.name(), Some("HORIZONTAL"));
    assert_eq!(horizontal.entry_point, EntryPoint::Fragment);
}

#[test]
fn filter_variants_differ_by_entry_point_and_definition() {
    let pipelines = DoGPipelines::from_world(0, 0, 0);
    let first = pipelines.fdog.specialize(FDoGPipelineKeys { first: true });
    assert_eq!(first.entry_point.name(), "first");
    assert_eq!(first.shader_def.name(), Some("FIRST"));
    assert_eq!(first.label(), "FDOG");
    assert_eq!(first.shader, ShaderId::FDoG);
    let second = pipelines.fdog.specialize(FDoGPipelineKeys { first: false });
    assert_eq!(second.entry_point.name(), "second");
    assert_eq!(second.shader_def.name(), Some("SECOND"));
    let first = pipelines.dog.specialize(DoGPipelineKeys { first: true });
    assert_eq!(first.entry_point.name(), "first_gaussian_blur_pass");
    assert_eq!(first.shader_def.name(), Some("FIRST"));
    assert_eq!(first.label(), "DOG");
    let second = pipelines.dog.specialize(DoGPipelineKeys { first: false });
    assert_eq!(second.entry_point.name(), "second_gaussian_blur_pass");
    assert_eq!(second.shader_def.name(), Some("SECOND"));
    assert_eq!(second.layout, LayoutKind::Postprocess);
    for variant in variants() {
        let descriptor = pipelines.specialize(variant);
        match variant {
            PipelineVariant::Tfm(key) => assert_eq!(descriptor, pipelines.tfm.specialize(key)),
            PipelineVariant::FDoG(key) => assert_eq!(descriptor, pipelines.fdog.specialize(key)),
            PipelineVariant::DoG(key) => assert_eq!(descriptor, pipelines.dog.specialize(key)),
        }
    }
}

#[test]
fn fixed_pipelines_run_the_fragment_entry_point() {
    let descriptors = DoGPipelines::fixed_descriptors();
    let shaders: Vec<ShaderId> = descriptors.iter().map(|d| d.shader).collect();
    assert_eq!(shaders, vec![ShaderId::Rgb2Lab, ShaderId::Aa, ShaderId::Blend]);
    let labels: Vec<&str> = descriptors.iter().map(|d| d.label()).collect();
    assert_eq!(labels, vec!["rgba2lab_pipeline", "anti_aliasing_pipeline", "blending_pipeline"]);
    for descriptor in descriptors {
        assert_eq!(descriptor.entry_point, EntryPoint::Fragment);
        assert_eq!(descriptor.shader_def, ShaderDef::Plain);
        assert_eq!(descriptor.shader_def.name(), None);
        assert_eq!(descriptor.layout, LayoutKind::Postprocess);
    }
}

#[test]
fn shared_state_keeps_the_queued_ids() {
    let pipelines = DoGPipelines::from_world(11, 22, 33);
    assert_eq!(pipelines.rgba2lab.pipeline_id, 11);
    assert_eq!(pipelines.aa.pipeline_id, 22);
    assert_eq!(pipelines.blend.pipeline_id, 33);
    assert_eq!(pipelines.fdog.tfm_bind_group_layout, LayoutKind::Tfm);
    assert_eq!(pipelines.aa.tfm_bind_group_layout, LayoutKind::Tfm);
    assert_eq!(pipelines.blend.blend_bind_group_layout, LayoutKind::Blend);
    assert_eq!(pipelines.tfm.postprocess_bind_group_layout, LayoutKind::Postprocess);
    assert_eq!(pipelines.dog.sampler, SamplerDescriptor::common());
    assert_eq!(pipelines.rgba2lab.sampler, SamplerDescriptor::common());
}

#[test]
fn a_variant_is_queued_once() {
    let mut specialized = DoGSpecializedRenderPipelines::default();
    let vertical = PipelineVariant::Tfm(TFMPipelineKeys::Vertical);
    assert_eq!(specialized.get(vertical), None);
    assert_eq!(specialized.specialize(vertical, 5), 5);
    assert_eq!(specialized.specialize(vertical, 6), 5);
    assert_eq!(specialized.get(vertical), Some(5));
    assert_eq!(specialized.get(PipelineVariant::Tfm(TFMPipelineKeys::Horizontal)), None);
    let second = PipelineVariant::DoG(DoGPipelineKeys { first: false });
    assert_eq!(specialized.specialize(second, 8), 8);
    assert_eq!(specialized.get(PipelineVariant::DoG(DoGPipelineKeys { first: true })), None);
    assert_eq!(specialized.get(PipelineVariant::FDoG(FDoGPipelineKeys { first: false })), None);
}

#[test]
fn pipelines_of_a_view_wait_for_all_variants() {
    let pipelines = DoGPipelines::from_world(100, 200, 300);
    let mut specialized = DoGSpecializedRenderPipelines::default();
    assert_eq!(prepare_gaussian_pipelines(&pipelines, &specialized), Err(variants()));
    specialized.specialize(variants()[1], 41);
    specialized.specialize(variants()[5], 45);
    let mut missing = variants();
    missing.remove(5);
    missing.remove(1);
    assert_eq!(prepare_gaussian_pipelines(&pipelines, &specialized), Err(missing));
    for (i, variant) in variants().into_iter().enumerate() {
        specialized.specialize(variant, 40 + i);
    }
    let ids = prepare_gaussian_pipelines(&pipelines, &specialized).unwrap();
    assert_eq!(
        ids,
        GaussianPipelineIDs {
            rgb2lab_pipeline_id: 100,
            tfm_pipeline_ids: TFMPipelineIDs {
                eigenvector_pipeline_id: 40,
                vertical_pipeline_id: 41,
                horizontal_pipeline_id: 42,
            },
            dog_pipeline_ids: DoGPipelineIDs { first: 45, second: 46 },
            fdog_pipeline_ids: FDoGPipelineIDs { first: 43, second: 44 },
            aa_pipeline_id: 200,
            blend_pipeline_id: 300,
        }
    );
}

#[test]
fn table_sends_each_pass_to_its_pipeline() {
    let ids = GaussianPipelineIDs {
        rgb2lab_pipeline_id: 1,
        tfm_pipeline_ids: TFMPipelineIDs {
            eigenvector_pipeline_id: 2,
            horizontal_pipeline_id: 3,
            vertical_pipeline_id: 4,
        },
        dog_pipeline_ids: DoGPipelineIDs { first: 7, second: 8 },
        fdog_pipeline_ids: FDoGPipelineIDs { first: 5, second: 6 },
        aa_pipeline_id: 9,
        blend_pipeline_id: 10,
    };
    assert_eq!(ids.pipeline_for(PassKind::ColorTransform), 1);
    assert_eq!(ids.pipeline_for(PassKind::FlowEigen), 2);
    assert_eq!(ids.pipeline_for(PassKind::FlowSmoothH), 3);
    assert_eq!(ids.pipeline_for(PassKind::FlowSmoothV), 4);
    assert_eq!(ids.pipeline_for(PassKind::FlowGuidedDoG1), 5);
    assert_eq!(ids.pipeline_for(PassKind::FlowGuidedDoG2), 6);
    assert_eq!(ids.pipeline_for(PassKind::PlainDoG1), 7);
    assert_eq!(ids.pipeline_for(PassKind::PlainDoG2), 8);
    assert_eq!(ids.pipeline_for(PassKind::AntiAlias), 9);
    assert_eq!(ids.pipeline_for(PassKind::ThresholdHatchBlend), 10);
}

#[test]
fn table_agrees_with_the_variants_of_the_passes() {
    let pipelines = DoGPipelines::from_world(100, 200, 300);
    let mut specialized = DoGSpecializedRenderPipelines::default();
    for (i, variant) in variants().into_iter().enumerate() {
        specialized.specialize(variant, 40 + i);
    }
    let ids = prepare_gaussian_pipelines(&pipelines, &specialized).unwrap();
    for kind in [
        PassKind::FlowEigen,
        PassKind::FlowSmoothH,
        PassKind::FlowSmoothV,
        PassKind::FlowGuidedDoG1,
        PassKind::FlowGuidedDoG2,
        PassKind::PlainDoG1,
        PassKind::PlainDoG2,
    ] {
        let variant = kind.variant().unwrap();
        assert_eq!(Some(ids.pipeline_for(kind)), specialized.get(variant));
    }
}

#[test]
fn every_pipeline_overwrites_one_target_in_all_channels() {
    let pipelines = DoGPipelines::from_world(0, 0, 0);
    let mut descriptors = DoGPipelines::fixed_descriptors();
    for variant in variants() {
        descriptors.push(pipelines.specialize(variant));
    }
    assert_eq!(descriptors.len(), 10);
    let target = ColorTargetState {
        format: TextureFormat::BevyDefault,
        blend: false,
        write_mask: ColorWrites { red: true, green: true, blue: true, alpha: true },
    };
    for descriptor in descriptors {
        assert_eq!(descriptor.target(), target);
        assert_eq!(
            descriptor.fixed(),
            FixedState {
                target,
                depth_stencil: false,
                sample_count: 1,
                push_constant_ranges: 0,
                zero_initialize_workgroup_memory: false,
            }
        );
    }
}
