//! One stylized view and what it runs in a frame.

use std::collections::HashMap;
use vstd::prelude::*;

use crate::node::{
    bind_groups_of, frame_passes, prepare_dog_bind_groups, DoGBindGroups, DoGNode, FrameResources,
    NotReady, RenderPass, ScratchSlot, TextureSlot,
};
use crate::pipeline::GaussianPipelineIDs;
use crate::settings::{DoGSettings, PassesSettings};
use crate::textures::{
    fresh_set, lemma_cached_set_is_uniform, prepare_dog_textures, CachedTexture, DoGTextures,
    TexturePool,
};

verus! {

broadcast use vstd::std_specs::hash::group_hash_axioms;

/// What belongs to one stylized view: its settings, its toggles and the
/// ids of its pipelines.
#[derive(Clone, Copy, Debug, PartialEq, Eq, Structural)]
pub struct StylizedView {
    pub settings: DoGSettings,
    pub passes_settings: PassesSettings,
    pub pipelines: GaussianPipelineIDs,
}

/// Why a view runs nothing in a frame.
#[derive(Clone, Copy, Debug, PartialEq, Eq, Structural)]
pub enum Skipped {
    /// The view has no physical target size.
    NoTargetSize,
    /// The hatch pattern has not reached the device.
    NoBindGroups,
    /// The pass executor is not ready.
    NotReady(NotReady),
    /// The scheduler does not know the view.
    UnknownView,
}

/// Everything that the passes of one frame of a view run on.
pub struct Frame {
    pub passes: Vec<RenderPass>,
    pub textures: DoGTextures,
    pub bind_groups: DoGBindGroups,
    pub pipelines: GaussianPipelineIDs,
}

impl DoGTextures {
    /// The scratch texture behind a slot, for the slots that are scratch
    /// textures.
    pub open spec fn resolved(self, slot: TextureSlot) -> Option<CachedTexture> {
        match slot {
            TextureSlot::Scratch(scratch) => Some(self.texture(scratch)),
            _ => None,
        }
    }

    /// The scratch texture behind `slot`, if it is one.
    pub fn resolve(&self, slot: TextureSlot) -> (texture: Option<CachedTexture>)
        ensures
            texture == self.resolved(slot),
    {
        match slot {
            TextureSlot::Scratch(scratch) => Some(self.get(scratch)),
            TextureSlot::Source => None,
            TextureSlot::Hatch => None,
            TextureSlot::Destination => None,
        }
    }
}

/// What keeps a view from running, given what its preparation found: the
/// target size comes first, then the bind groups, then the pass executor.
pub open spec fn skip_reason(
    physical_target_size: Option<(u32, u32)>,
    cross_hatch_loaded: bool,
    resources: FrameResources,
) -> Option<Skipped> {
    if physical_target_size is None {
        Some(Skipped::NoTargetSize)
    } else if !cross_hatch_loaded {
        Some(Skipped::NoBindGroups)
    } else {
        match resources.missing() {
            Some(reason) => Some(Skipped::NotReady(reason)),
            None => None,
        }
    }
}

/// The pool after a view has been prepared: a view with a target size has
/// the set of that size, whatever it had before, and nothing else changes.
pub open spec fn pool_after(
    before: Map<u64, DoGTextures>,
    view_id: u64,
    physical_target_size: Option<(u32, u32)>,
) -> Map<u64, DoGTextures> {
    match physical_target_size {
        Some(size) => before.insert(view_id, fresh_set(view_id, size.0, size.1)),
        None => before,
    }
}

/// Prepares a view and decides what it runs in one frame.
///
/// The scratch textures are taken from the pool for the view's target
/// size, which reallocates all of them when the size has changed. The bind
/// groups are built over them, and the passes are those that the view's
/// toggles select. A view that is skipped runs nothing, though its
/// textures, once it has a target size, are prepared all the same.
pub fn plan_frame(
    pool: &mut TexturePool,
    view_id: u64,
    view: &StylizedView,
    physical_target_size: Option<(u32, u32)>,
    cross_hatch_loaded: bool,
    resources: &FrameResources,
) -> (frame: Result<Frame, Skipped>)
    requires
        old(pool).wf(),
    ensures
        final(pool).wf(),
        final(pool)@ == pool_after(old(pool)@, view_id, physical_target_size),
        physical_target_size matches Some(size) ==> final(pool).holds(view_id, size.0, size.1),
        match frame {
            Ok(planned) => {
                &&& skip_reason(physical_target_size, cross_hatch_loaded, *resources) is None
                &&& physical_target_size matches Some(size)
                &&& planned.textures == fresh_set(view_id, size.0, size.1)
                &&& planned.textures.matches(size.0, size.1)
                &&& final(pool)@[view_id] == planned.textures
                &&& planned.bind_groups == bind_groups_of(planned.textures)
                &&& planned.pipelines == view.pipelines
                &&& planned.passes@ == frame_passes(
                    view.passes_settings.flow_guided(),
                    view.passes_settings.antialias(),
                )
            },
            Err(reason) => skip_reason(physical_target_size, cross_hatch_loaded, *resources)
                == Some(reason),
        },
{
    let textures = match prepare_dog_textures(pool, view_id, physical_target_size) {
        Some(textures) => textures,
        None => {
            return Err(Skipped::NoTargetSize);
        },
    };
    let bind_groups = match prepare_dog_bind_groups(cross_hatch_loaded, &textures) {
        Some(groups) => groups,
        None => {
            return Err(Skipped::NoBindGroups);
        },
    };
    let node = DoGNode;
    match node.run(resources, &view.passes_settings) {
        Ok(passes) => Ok(Frame { passes, textures, bind_groups, pipelines: view.pipelines }),
        Err(reason) => Err(Skipped::NotReady(reason)),
    }
}

/// Every scratch texture that a planned frame touches has the resolution
/// of the frame: whatever a pass reads or writes resolves, through a set
/// that matches a resolution, to a texture of that resolution.
pub proof fn lemma_frame_textures_match(
    textures: DoGTextures,
    width: u32,
    height: u32,
    flow_guided: bool,
    antialias: bool,
    i: int,
    k: int,
)
    requires
        textures.matches(width, height),
        0 <= i < frame_passes(flow_guided, antialias).len(),
        0 <= k < frame_passes(flow_guided, antialias)[i].reads().len(),
    ensures
        textures.resolved(frame_passes(flow_guided, antialias)[i].reads()[k]) matches Some(read)
            ==> read.width == width && read.height == height,
        textures.resolved(frame_passes(flow_guided, antialias)[i].output) matches Some(written)
            ==> written.width == width && written.height == height,
{
    let pass = frame_passes(flow_guided, antialias)[i];
    if let TextureSlot::Scratch(scratch) = pass.reads()[k] {
        assert(textures.texture(scratch).width == width);
    }
    if let TextureSlot::Scratch(scratch) = pass.output {
        assert(textures.texture(scratch).width == width);
    }
}

/// The scheduler: the stylized views by their ids, and the pool that holds
/// their scratch textures. A view has one set of settings and one pair of
/// toggles, which the host replaces between frames.
pub struct Scheduler {
    views: HashMap<u64, StylizedView>,
    pool: TexturePool,
}

impl Scheduler {
    /// The views that the scheduler knows.
    pub closed spec fn views(&self) -> Map<u64, StylizedView> {
        self.views@
    }

    /// The pool of scratch textures.
    pub closed spec fn pool(&self) -> TexturePool {
        self.pool
    }

    /// The scheduler's invariant: the pool is sound, and it holds textures
    /// for known views only.
    pub closed spec fn wf(&self) -> bool {
        &&& self.pool.wf()
        &&& forall|view_id: u64| #[trigger]
            self.pool@.contains_key(view_id) ==> self.views@.contains_key(view_id)
    }

    /// A scheduler without views.
    pub fn new() -> (scheduler: Scheduler)
        ensures
            scheduler.wf(),
            scheduler.views() == Map::<u64, StylizedView>::empty(),
            scheduler.pool()@ == Map::<u64, DoGTextures>::empty(),
    {
        Scheduler { views: HashMap::new(), pool: TexturePool::new() }
    }

    /// What the scheduler holds for `view_id`, if it knows the view.
    pub fn view(&self, view_id: u64) -> (view: Option<StylizedView>)
        ensures
            view == (if self.views().contains_key(view_id) {
                Some(self.views()[view_id])
            } else {
                None
            }),
    {
        match self.views.get(&view_id) {
            Some(view) => Some(*view),
            None => None,
        }
    }

    /// Registers a view, or replaces what the scheduler holds for it, and
    /// returns what it held before. The view's textures stay as they are.
    pub fn insert(&mut self, view_id: u64, view: StylizedView) -> (before: Option<StylizedView>)
        requires
            old(self).wf(),
        ensures
            final(self).wf(),
            final(self).views() == old(self).views().insert(view_id, view),
            final(self).pool() == old(self).pool(),
            before == (if old(self).views().contains_key(view_id) {
                Some(old(self).views()[view_id])
            } else {
                None
            }),
    {
        self.views.insert(view_id, view)
    }

    /// Replaces the settings of a known view, and says whether the view is
    /// known. Nothing else changes.
    pub fn set_settings(&mut self, view_id: u64, settings: DoGSettings) -> (known: bool)
        requires
            old(self).wf(),
        ensures
            final(self).wf(),
            known == old(self).views().contains_key(view_id),
            final(self).pool() == old(self).pool(),
            final(self).views() == (if known {
                old(self).views().insert(
                    view_id,
                    StylizedView { settings: settings, ..old(self).views()[view_id] },
                )
            } else {
                old(self).views()
            }),
    {
        match self.view(view_id) {
            Some(view) => {
                self.views.insert(view_id, StylizedView { settings, ..view });
                true
            },
            None => false,
        }
    }

    /// Replaces the toggles of a known view, and says whether the view is
    /// known. Nothing else changes.
    pub fn set_passes_settings(&mut self, view_id: u64, passes_settings: PassesSettings) -> (known:
        bool)
        requires
            old(self).wf(),
        ensures
            final(self).wf(),
            known == old(self).views().contains_key(view_id),
            final(self).pool() == old(self).pool(),
            final(self).views() == (if known {
                old(self).views().insert(
                    view_id,
                    StylizedView { passes_settings: passes_settings, ..old(self).views()[view_id] },
                )
            } else {
                old(self).views()
            }),
    {
        match self.view(view_id) {
            Some(view) => {
                self.views.insert(view_id, StylizedView { passes_settings, ..view });
                true
            },
            None => false,
        }
    }

    /// Forgets a view, as when it is destroyed, and hands back its scratch
    /// textures, if it had any, so that they can be freed.
    pub fn remove(&mut self, view_id: u64) -> (textures: Option<DoGTextures>)
        requires
            old(self).wf(),
        ensures
            final(self).wf(),
            final(self).views() == old(self).views().remove(view_id),
            final(self).pool()@ == old(self).pool()@.remove(view_id),
            textures == (if old(self).pool()@.contains_key(view_id) {
                Some(old(self).pool()@[view_id])
            } else {
                None
            }),
    {
        self.views.remove(&view_id);
        self.pool.release(view_id)
    }

    /// Prepares a known view and decides what it runs in one frame, as
    /// `plan_frame` does with what the scheduler holds for the view. For a
    /// view that the scheduler does not know nothing happens.
    pub fn plan(
        &mut self,
        view_id: u64,
        physical_target_size: Option<(u32, u32)>,
        cross_hatch_loaded: bool,
        resources: &FrameResources,
    ) -> (frame: Result<Frame, Skipped>)
        requires
            old(self).wf(),
        ensures
            final(self).wf(),
            final(self).views() == old(self).views(),
            !old(self).views().contains_key(view_id) ==> {
                &&& final(self).pool()@ == old(self).pool()@
                &&& frame is Err
                &&& frame->Err_0 == Skipped::UnknownView
            },
            old(self).views().contains_key(view_id) ==> {
                &&& final(self).pool()@ == pool_after(
                    old(self).pool()@,
                    view_id,
                    physical_target_size,
                )
                &&& physical_target_size matches Some(size) ==> final(self).pool().holds(
                    view_id,
                    size.0,
                    size.1,
                )
                &&& match frame {
                    Ok(planned) => {
                        &&& skip_reason(
                            physical_target_size,
                            cross_hatch_loaded,
                            *resources,
                        ) is None
                        &&& physical_target_size matches Some(size)
                        &&& planned.textures == fresh_set(view_id, size.0, size.1)
                        &&& planned.textures.matches(size.0, size.1)
                        &&& final(self).pool()@[view_id] == planned.textures
                        &&& planned.bind_groups == bind_groups_of(planned.textures)
                        &&& planned.pipelines == old(self).views()[view_id].pipelines
                        &&& planned.passes@ == frame_passes(
                            old(self).views()[view_id].passes_settings.flow_guided(),
                            old(self).views()[view_id].passes_settings.antialias(),
                        )
                    },
                    Err(reason) => skip_reason(
                        physical_target_size,
                        cross_hatch_loaded,
                        *resources,
                    ) == Some(reason),
                }
            },
    {
        match self.view(view_id) {
            None => Err(Skipped::UnknownView),
            Some(view) => plan_frame(
                &mut self.pool,
                view_id,
                &view,
                physical_target_size,
                cross_hatch_loaded,
                resources,
            ),
        }
    }
}

/// The scheduler holds scratch textures for known views only, and every
/// set that it holds has one resolution throughout.
pub proof fn lemma_scheduler_textures(scheduler: Scheduler, view_id: u64)
    requires
        scheduler.wf(),
        scheduler.pool()@.contains_key(view_id),
    ensures
        scheduler.views().contains_key(view_id),
        scheduler.pool()@[view_id].matches(
            scheduler.pool()@[view_id].lab_texture.width,
            scheduler.pool()@[view_id].lab_texture.height,
        ),
{
    lemma_cached_set_is_uniform(scheduler.pool(), view_id, ScratchSlot::Lab);
}

} // verus!
