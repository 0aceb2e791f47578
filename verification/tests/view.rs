use bevy_dog::node::{schedule, FrameResources, NotReady, PassKind};
use bevy_dog::pipeline::{DoGPipelineIDs, FDoGPipelineIDs, GaussianPipelineIDs, TFMPipelineIDs};
use bevy_dog::settings::{DoGSettings, PassesSettings};
use bevy_dog::textures::TexturePool;
use bevy_dog::view::{plan_frame, Scheduler, Skipped, StylizedView};

fn view(aa: i32, tfm: i32) -> StylizedView {
    StylizedView {
        settings: DoGSettings::default(),
        passes_settings: PassesSettings { aa, tfm },
        pipelines: GaussianPipelineIDs {
            rgb2lab_pipeline_id: 1,
            tfm_pipeline_ids: TFMPipelineIDs {
                eigenvector_pipeline_id: 2,
                horizontal_pipeline_id: 3,
                vertical_pipeline_id: 4,
            },
            dog_pipeline_ids: DoGPipelineIDs { first: 7, second: 8 },
            fdog_pipeline_ids: FDoGPipelineIDs { first: 5, second: 6 },
            aa_pipeline_id: 9,
            blend_pipeline_id: 10,
        },
    }
}

#[test]
fn ready_view_runs_its_passes_on_its_own_textures() {
    let mut pool = TexturePool::new();
    let stylized = view(1, 1);
    let ready = FrameResources::all_ready();
    let frame = plan_frame(&mut pool, 4, &stylized, Some((640, 480)), true, &ready);
    let frame = match frame {
        Ok(frame) => frame,
        Err(reason) => panic!("skipped: {:?}", reason),
    };
    assert_eq!(frame.passes, schedule(&stylized.passes_settings));
    assert_eq!(frame.passes.len(), 8);
    assert!(frame.textures.has_resolution(640, 480));
    assert_eq!(pool.cached(4), Some(frame.textures));
    assert_eq!(frame.bind_groups.tfm_bind_group.flow_map, frame.textures.vertical_texture);
    assert_eq!(frame.bind_groups.aa_blend_bind_group.filtered, frame.textures.aa_texture);
    assert_eq!(frame.bind_groups.blend_bind_group.filtered, frame.textures.second_dog_texture);
    assert_eq!(frame.pipelines, stylized.pipelines);
    assert_eq!(frame.pipelines.pipeline_for(PassKind::AntiAlias), 9);
}

#[test]
fn two_frames_of_one_view_are_the_same() {
    let mut pool = TexturePool::new();
    let stylized = view(0, 0);
    let ready = FrameResources::all_ready();
    let first = plan_frame(&mut pool, 4, &stylized, Some((64, 48)), true, &ready).ok().unwrap();
    let second = plan_frame(&mut pool, 4, &stylized, Some((64, 48)), true, &ready).ok().unwrap();
    assert_eq!(first.passes, second.passes);
    assert_eq!(first.passes.len(), 4);
    assert_eq!(first.textures, second.textures);
    assert_eq!(first.bind_groups, second.bind_groups);
}

#[test]
fn resized_view_runs_on_new_textures_only() {
    let mut pool = TexturePool::new();
    let stylized = view(1, 0);
    let ready = FrameResources::all_ready();
    let small = plan_frame(&mut pool, 4, &stylized, Some((64, 48)), true, &ready).ok().unwrap();
    let large = plan_frame(&mut pool, 4, &stylized, Some((128, 96)), true, &ready).ok().unwrap();
    assert!(large.textures.has_resolution(128, 96));
    assert_ne!(large.textures, small.textures);
    assert_ne!(large.textures.lab_texture, small.textures.lab_texture);
    assert_eq!(large.bind_groups.aa_blend_bind_group.filtered.width, 128);
    assert_eq!(large.bind_groups.tfm_bind_group.flow_map.height, 96);
    assert_eq!(large.passes, small.passes);
}

#[test]
fn view_without_target_size_is_skipped() {
    let mut pool = TexturePool::new();
    let ready = FrameResources::all_ready();
    let frame = plan_frame(&mut pool, 4, &view(0, 0), None, true, &ready);
    assert_eq!(frame.err(), Some(Skipped::NoTargetSize));
    assert_eq!(pool.cached(4), None);
}

#[test]
fn view_is_skipped_until_the_hatch_pattern_is_loaded() {
    let mut pool = TexturePool::new();
    let mut resources = FrameResources::all_ready();
    resources.blend_pipeline = false;
    let frame = plan_frame(&mut pool, 4, &view(0, 0), Some((8, 8)), false, &resources);
    assert_eq!(frame.err(), Some(Skipped::NoBindGroups));
    assert!(pool.cached(4).unwrap().has_resolution(8, 8));
}

#[test]
fn view_is_skipped_while_the_executor_is_not_ready() {
    let mut pool = TexturePool::new();
    let mut resources = FrameResources::all_ready();
    resources.first_dog_pipeline = false;
    let frame = plan_frame(&mut pool, 4, &view(0, 1), Some((8, 8)), true, &resources);
    assert_eq!(frame.err(), Some(Skipped::NotReady(NotReady::Pipelines)));
    let mut resources = FrameResources::all_ready();
    resources.settings_binding = false;
    let frame = plan_frame(&mut pool, 4, &view(0, 1), Some((8, 8)), true, &resources);
    assert_eq!(frame.err(), Some(Skipped::NotReady(NotReady::SettingsBinding)));
    let ready = FrameResources::all_ready();
    let frame = plan_frame(&mut pool, 4, &view(0, 1), Some((8, 8)), true, &ready);
    assert_eq!(Some(frame.ok().unwrap().textures), pool.cached(4));
}

#[test]
fn scheduler_plans_known_views_only() {
    let mut scheduler = Scheduler::new();
    let ready = FrameResources::all_ready();
    let frame = scheduler.plan(4, Some((64, 48)), true, &ready);
    assert_eq!(frame.err(), Some(Skipped::UnknownView));
    assert_eq!(scheduler.view(4), None);
    assert_eq!(scheduler.insert(4, view(0, 1)), None);
    assert_eq!(scheduler.view(4), Some(view(0, 1)));
    let frame = scheduler.plan(4, Some((64, 48)), true, &ready).ok().unwrap();
    assert_eq!(frame.passes, schedule(&PassesSettings { aa: 0, tfm: 1 }));
    assert!(frame.textures.has_resolution(64, 48));
    assert_eq!(frame.textures.lab_texture.view, 4);
}

#[test]
fn scheduler_takes_new_settings_between_frames() {
    let mut scheduler = Scheduler::new();
    let ready = FrameResources::all_ready();
    scheduler.insert(4, view(0, 0));
    let first = scheduler.plan(4, Some((64, 48)), true, &ready).ok().unwrap();
    assert_eq!(first.passes.len(), 4);
    assert!(scheduler.set_passes_settings(4, PassesSettings { aa: 1, tfm: 1 }));
    assert!(scheduler.set_settings(4, DoGSettings::crosshatch()));
    assert!(!scheduler.set_settings(5, DoGSettings::crosshatch()));
    assert!(!scheduler.set_passes_settings(5, PassesSettings { aa: 1, tfm: 1 }));
    let held = scheduler.view(4).unwrap();
    assert_eq!(held.settings, DoGSettings::crosshatch());
    assert_eq!(held.passes_settings, PassesSettings { aa: 1, tfm: 1 });
    assert_eq!(held.pipelines, view(0, 0).pipelines);
    let second = scheduler.plan(4, Some((64, 48)), true, &ready).ok().unwrap();
    assert_eq!(second.passes.len(), 8);
    assert_eq!(second.textures, first.textures);
    assert_eq!(scheduler.insert(4, view(1, 0)), Some(held));
}

#[test]
fn scheduler_hands_back_the_textures_of_a_removed_view() {
    let mut scheduler = Scheduler::new();
    let ready = FrameResources::all_ready();
    scheduler.insert(4, view(0, 0));
    scheduler.insert(5, view(0, 0));
    assert_eq!(scheduler.remove(5), None);
    let frame = scheduler.plan(4, Some((64, 48)), true, &ready).ok().unwrap();
    assert_eq!(scheduler.remove(4), Some(frame.textures));
    assert_eq!(scheduler.view(4), None);
    assert_eq!(scheduler.remove(4), None);
    let frame = scheduler.plan(4, Some((64, 48)), true, &ready);
    assert_eq!(frame.err(), Some(Skipped::UnknownView));
}
