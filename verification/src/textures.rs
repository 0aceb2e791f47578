//! The scratch textures of a view and the pool that caches them by output
//! resolution.

use std::collections::HashMap;
use vstd::prelude::*;

use crate::node::ScratchSlot;

verus! {

broadcast use vstd::std_specs::hash::group_hash_axioms;

/// How many scratch textures a view owns.
pub const SCRATCH_TEXTURES: usize = 7;

/// The pixel format of a texture.
#[derive(Clone, Copy, Debug, PartialEq, Eq, Structural)]
pub enum TextureFormat {
    /// The engine's default render-target format.
    BevyDefault,
    /// Eight bits per channel, sRGB-encoded, with alpha.
    Rgba8UnormSrgb,
}

/// The number of dimensions of a texture.
#[derive(Clone, Copy, Debug, PartialEq, Eq, Structural)]
pub enum TextureDimension {
    D1,
    D2,
    D3,
}

/// What the allocator needs to know to create one scratch texture.
#[derive(Clone, Copy, Debug, PartialEq, Eq, Structural)]
pub struct TextureDescriptor {
    /// The slot that the texture serves, which also names it.
    pub slot: ScratchSlot,
    pub width: u32,
    pub height: u32,
    pub depth_or_array_layers: u32,
    pub mip_level_count: u32,
    pub sample_count: u32,
    pub format: TextureFormat,
    /// The texture can be sampled by a later pass.
    pub texture_binding: bool,
    /// The texture can be the target of a pass.
    pub render_attachment: bool,
}

/// The descriptor of the scratch texture of a slot at a resolution: a
/// two-dimensional, single-layer, single-sample render target that later
/// passes can sample.
pub open spec fn scratch_descriptor(
    slot: ScratchSlot,
    width: u32,
    height: u32,
) -> TextureDescriptor {
    TextureDescriptor {
        slot: slot,
        width: width,
        height: height,
        depth_or_array_layers: 1,
        mip_level_count: 1,
        sample_count: 1,
        format: TextureFormat::BevyDefault,
        texture_binding: true,
        render_attachment: true,
    }
}

/// The label under which the texture of a slot is allocated.
pub open spec fn scratch_label(slot: ScratchSlot) -> Seq<char> {
    match slot {
        ScratchSlot::Lab => "lab color texture"@,
        ScratchSlot::FlowEigen => "Eigenvector Texture"@,
        ScratchSlot::FlowH => "Horizontal Blur Pass Texture"@,
        ScratchSlot::FlowV => "Vertical Blur Pass Texture"@,
        ScratchSlot::FilterPass1 => "first dog texture"@,
        ScratchSlot::FilterPass2 => "second dog texture"@,
        ScratchSlot::Antialiased => "AA Pass Texture"@,
    }
}

impl TextureDescriptor {
    /// Builds the descriptor of the scratch texture of `slot`.
    pub fn scratch(slot: ScratchSlot, width: u32, height: u32) -> (descriptor: TextureDescriptor)
        ensures
            descriptor == scratch_descriptor(slot, width, height),
    {
        TextureDescriptor {
            slot,
            width,
            height,
            depth_or_array_layers: 1,
            mip_level_count: 1,
            sample_count: 1,
            format: TextureFormat::BevyDefault,
            texture_binding: true,
            render_attachment: true,
        }
    }

    /// The number of dimensions of the texture: a scratch texture is
    /// two-dimensional.
    pub fn dimension(&self) -> (dimension: TextureDimension)
        ensures
            dimension == TextureDimension::D2,
    {
        TextureDimension::D2
    }

    /// The label of the texture.
    pub fn label(&self) -> (label: &'static str)
        ensures
            label@ == scratch_label(self.slot),
    {
        match self.slot {
            ScratchSlot::Lab => "lab color texture",
            ScratchSlot::FlowEigen => "Eigenvector Texture",
            ScratchSlot::FlowH => "Horizontal Blur Pass Texture",
            ScratchSlot::FlowV => "Vertical Blur Pass Texture",
            ScratchSlot::FilterPass1 => "first dog texture",
            ScratchSlot::FilterPass2 => "second dog texture",
            ScratchSlot::Antialiased => "AA Pass Texture",
        }
    }
}

/// A handle to one pooled texture: the view and the slot that it serves,
/// and the resolution that it is allocated at. Two handles name the same
/// texture exactly when they are equal.
#[derive(Clone, Copy, Debug, PartialEq, Eq, Hash, Structural)]
pub struct CachedTexture {
    pub view: u64,
    pub slot: ScratchSlot,
    pub width: u32,
    pub height: u32,
}

impl CachedTexture {
    /// The handle of the texture that serves `slot` of `view` at a
    /// resolution.
    pub fn new(view: u64, slot: ScratchSlot, width: u32, height: u32) -> (texture: CachedTexture)
        ensures
            texture == fresh_texture(view, slot, width, height),
    {
        CachedTexture { view, slot, width, height }
    }
}

/// The seven scratch textures of one view.
#[derive(Clone, Copy, Debug, PartialEq, Eq, Structural)]
pub struct DoGTextures {
    pub lab_texture: CachedTexture,
    pub eigen_texture: CachedTexture,
    pub horizontal_texture: CachedTexture,
    pub vertical_texture: CachedTexture,
    pub first_dog_texture: CachedTexture,
    pub second_dog_texture: CachedTexture,
    pub aa_texture: CachedTexture,
}

/// The texture that serves a slot of a view at a resolution.
pub open spec fn fresh_texture(
    view: u64,
    slot: ScratchSlot,
    width: u32,
    height: u32,
) -> CachedTexture {
    CachedTexture { view: view, slot: slot, width: width, height: height }
}

/// The set that one allocation yields for a view: seven textures of one
/// resolution, one for each slot.
pub open spec fn fresh_set(view: u64, width: u32, height: u32) -> DoGTextures {
    DoGTextures {
        lab_texture: fresh_texture(view, ScratchSlot::Lab, width, height),
        eigen_texture: fresh_texture(view, ScratchSlot::FlowEigen, width, height),
        horizontal_texture: fresh_texture(view, ScratchSlot::FlowH, width, height),
        vertical_texture: fresh_texture(view, ScratchSlot::FlowV, width, height),
        first_dog_texture: fresh_texture(view, ScratchSlot::FilterPass1, width, height),
        second_dog_texture: fresh_texture(view, ScratchSlot::FilterPass2, width, height),
        aa_texture: fresh_texture(view, ScratchSlot::Antialiased, width, height),
    }
}

impl DoGTextures {
    /// The texture that serves a slot.
    pub open spec fn texture(self, slot: ScratchSlot) -> CachedTexture {
        match slot {
            ScratchSlot::Lab => self.lab_texture,
            ScratchSlot::FlowEigen => self.eigen_texture,
            ScratchSlot::FlowH => self.horizontal_texture,
            ScratchSlot::FlowV => self.vertical_texture,
            ScratchSlot::FilterPass1 => self.first_dog_texture,
            ScratchSlot::FilterPass2 => self.second_dog_texture,
            ScratchSlot::Antialiased => self.aa_texture,
        }
    }

    /// Whether all seven textures have the given resolution.
    pub open spec fn matches(self, width: u32, height: u32) -> bool {
        &&& self.lab_texture.width == width && self.lab_texture.height == height
        &&& self.eigen_texture.width == width && self.eigen_texture.height == height
        &&& self.horizontal_texture.width == width && self.horizontal_texture.height == height
        &&& self.vertical_texture.width == width && self.vertical_texture.height == height
        &&& self.first_dog_texture.width == width && self.first_dog_texture.height == height
        &&& self.second_dog_texture.width == width && self.second_dog_texture.height == height
        &&& self.aa_texture.width == width && self.aa_texture.height == height
    }

    /// Whether the set is one that an allocation yields for `view`: at one
    /// resolution throughout, each texture in its own slot.
    pub open spec fn serves(self, view: u64) -> bool {
        self == fresh_set(view, self.lab_texture.width, self.lab_texture.height)
    }

    /// The texture that serves `slot`.
    pub fn get(&self, slot: ScratchSlot) -> (texture: CachedTexture)
        ensures
            texture == self.texture(slot),
    {
        match slot {
            ScratchSlot::Lab => self.lab_texture,
            ScratchSlot::FlowEigen => self.eigen_texture,
            ScratchSlot::FlowH => self.horizontal_texture,
            ScratchSlot::FlowV => self.vertical_texture,
            ScratchSlot::FilterPass1 => self.first_dog_texture,
            ScratchSlot::FilterPass2 => self.second_dog_texture,
            ScratchSlot::Antialiased => self.aa_texture,
        }
    }

    /// Whether all seven textures have the resolution `width` by `height`.
    pub fn has_resolution(&self, width: u32, height: u32) -> (same: bool)
        ensures
            same == self.matches(width, height),
    {
        self.lab_texture.width == width && self.lab_texture.height == height
            && self.eigen_texture.width == width && self.eigen_texture.height == height
            && self.horizontal_texture.width == width && self.horizontal_texture.height == height
            && self.vertical_texture.width == width && self.vertical_texture.height == height
            && self.first_dog_texture.width == width && self.first_dog_texture.height == height
            && self.second_dog_texture.width == width && self.second_dog_texture.height == height
            && self.aa_texture.width == width && self.aa_texture.height == height
    }
}

/// A set matches a resolution exactly when the texture of every slot has
/// it.
pub proof fn lemma_matches_every_slot(set: DoGTextures, width: u32, height: u32)
    ensures
        set.matches(width, height) <==> (forall|slot: ScratchSlot|
            (#[trigger] set.texture(slot)).width == width && set.texture(slot).height == height),
{
    if !set.matches(width, height) {
        assert(set.texture(ScratchSlot::Lab) == set.lab_texture);
        assert(set.texture(ScratchSlot::FlowEigen) == set.eigen_texture);
        assert(set.texture(ScratchSlot::FlowH) == set.horizontal_texture);
        assert(set.texture(ScratchSlot::FlowV) == set.vertical_texture);
        assert(set.texture(ScratchSlot::FilterPass1) == set.first_dog_texture);
        assert(set.texture(ScratchSlot::FilterPass2) == set.second_dog_texture);
        assert(set.texture(ScratchSlot::Antialiased) == set.aa_texture);
    }
}

/// A set that one allocation yields has one resolution throughout, and
/// the texture of each slot is the one that serves that slot of the view.
pub proof fn lemma_fresh_set_is_uniform(view: u64, width: u32, height: u32)
    ensures
        fresh_set(view, width, height).matches(width, height),
        fresh_set(view, width, height).serves(view),
        forall|slot: ScratchSlot| #[trigger]
            fresh_set(view, width, height).texture(slot) == fresh_texture(
                view,
                slot,
                width,
                height,
            ),
{
}

/// Whether none of the textures of `set` is one of those that `held` has,
/// for any view.
pub open spec fn is_new_to(set: DoGTextures, held: Map<u64, DoGTextures>) -> bool {
    forall|slot: ScratchSlot, other: u64, other_slot: ScratchSlot|
        held.contains_key(other) ==> #[trigger] set.texture(slot) != #[trigger] held[other].texture(
            other_slot,
        )
}

/// The per-view cache of scratch textures.
pub struct TexturePool {
    entries: HashMap<u64, DoGTextures>,
}

impl View for TexturePool {
    type V = Map<u64, DoGTextures>;

    /// The set cached for each view that has one.
    closed spec fn view(&self) -> Map<u64, DoGTextures> {
        self.entries@
    }
}

impl TexturePool {
    /// The pool's invariant: the set of every view is one that an
    /// allocation yields for that view.
    pub open spec fn wf(&self) -> bool {
        forall|view: u64| #[trigger] self@.contains_key(view) ==> self@[view].serves(view)
    }

    /// Whether the pool holds a set for `view` at the given resolution.
    pub open spec fn holds(&self, view: u64, width: u32, height: u32) -> bool {
        self@.contains_key(view) && self@[view].matches(width, height)
    }

    /// Whether `get` has to allocate: the view has no set of that
    /// resolution.
    pub open spec fn reallocates(&self, view: u64, width: u32, height: u32) -> bool {
        !self.holds(view, width, height)
    }

    /// An empty pool.
    pub fn new() -> (pool: TexturePool)
        ensures
            pool.wf(),
            pool@ == Map::<u64, DoGTextures>::empty(),
    {
        TexturePool { entries: HashMap::new() }
    }

    /// The set cached for `view`, if there is one.
    pub fn cached(&self, view: u64) -> (set: Option<DoGTextures>)
        ensures
            set == (if self@.contains_key(view) {
                Some(self@[view])
            } else {
                None
            }),
    {
        match self.entries.get(&view) {
            Some(set) => Some(*set),
            None => None,
        }
    }

    /// Returns the scratch textures of `view` at the given resolution.
    ///
    /// A cached set of that resolution is returned as it is and the pool
    /// stays unchanged. Otherwise all seven textures are allocated anew at
    /// the resolution asked for, and together replace whatever the view
    /// had.
    pub fn get(&mut self, view: u64, width: u32, height: u32) -> (set: DoGTextures)
        requires
            old(self).wf(),
        ensures
            final(self).wf(),
            set == fresh_set(view, width, height),
            set.matches(width, height),
            final(self)@ == old(self)@.insert(view, set),
            old(self).holds(view, width, height) ==> set == old(self)@[view] && final(self)@ == old(
                self,
            )@,
            old(self).reallocates(view, width, height) ==> is_new_to(set, old(self)@),
    {
        proof {
            if old(self).reallocates(view, width, height) {
                lemma_reallocation_is_new(*old(self), view, width, height);
            }
        }
        let held = match self.entries.get(&view) {
            Some(set) => if set.has_resolution(width, height) {
                Some(*set)
            } else {
                None
            },
            None => None,
        };
        match held {
            Some(set) => {
                assert(set == fresh_set(view, width, height));
                assert(self@ =~= old(self)@.insert(view, set));
                set
            },
            None => {
                let set = DoGTextures {
                    lab_texture: CachedTexture::new(view, ScratchSlot::Lab, width, height),
                    eigen_texture: CachedTexture::new(view, ScratchSlot::FlowEigen, width, height),
                    horizontal_texture: CachedTexture::new(view, ScratchSlot::FlowH, width, height),
                    vertical_texture: CachedTexture::new(view, ScratchSlot::FlowV, width, height),
                    first_dog_texture: CachedTexture::new(
                        view,
                        ScratchSlot::FilterPass1,
                        width,
                        height,
                    ),
                    second_dog_texture: CachedTexture::new(
                        view,
                        ScratchSlot::FilterPass2,
                        width,
                        height,
                    ),
                    aa_texture: CachedTexture::new(view, ScratchSlot::Antialiased, width, height),
                };
                self.entries.insert(view, set);
                set
            },
        }
    }

    /// Forgets the set of `view`, as when the view is destroyed, and hands
    /// it back so that its textures can be freed.
    pub fn release(&mut self, view: u64) -> (set: Option<DoGTextures>)
        requires
            old(self).wf(),
        ensures
            final(self).wf(),
            final(self)@ == old(self)@.remove(view),
            set == (if old(self)@.contains_key(view) {
                Some(old(self)@[view])
            } else {
                None
            }),
    {
        let set = self.entries.remove(&view);
        assert forall|other: u64| #[trigger] self@.contains_key(other) implies self@[other].serves(
            other,
        ) by {
            assert(old(self)@.contains_key(other));
        }
        set
    }
}

/// Prepares the scratch textures of a view for a frame.
///
/// A view without a physical target size is passed over: it gets no
/// textures and the pool stays as it is. Any other view gets what the pool
/// answers for its size: seven textures of that size.
pub fn prepare_dog_textures(
    pool: &mut TexturePool,
    view: u64,
    physical_target_size: Option<(u32, u32)>,
) -> (textures: Option<DoGTextures>)
    requires
        old(pool).wf(),
    ensures
        final(pool).wf(),
        match physical_target_size {
            None => textures is None && final(pool)@ == old(pool)@,
            Some(size) => {
                &&& textures == Some(fresh_set(view, size.0, size.1))
                &&& fresh_set(view, size.0, size.1).matches(size.0, size.1)
                &&& final(pool)@ == old(pool)@.insert(view, fresh_set(view, size.0, size.1))
                &&& old(pool).holds(view, size.0, size.1) ==> final(pool)@ == old(pool)@
                &&& old(pool).reallocates(view, size.0, size.1) ==> is_new_to(
                    fresh_set(view, size.0, size.1),
                    old(pool)@,
                )
            },
        },
{
    match physical_target_size {
        None => None,
        Some((width, height)) => Some(pool.get(view, width, height)),
    }
}

/// What the host has to do with the device textures of a view after the
/// pool has answered a request.
#[derive(Clone, Copy, Debug, PartialEq, Eq)]
pub struct TextureChange {
    /// The seven textures of the set are new and have to be created.
    pub allocate: bool,
    /// The set that the view had before, whose textures can be freed.
    pub release: Option<DoGTextures>,
}

/// The change between the set that a view had and the set that it has now:
/// the same set asks for nothing, another one for seven new textures, and
/// for the release of the old ones where there were any.
pub open spec fn change_between(before: Option<DoGTextures>, after: DoGTextures) -> TextureChange {
    TextureChange {
        allocate: before != Some(after),
        release: if before != Some(after) {
            before
        } else {
            None
        },
    }
}

/// Compares what a view had with what the pool has answered.
pub fn texture_change(before: Option<DoGTextures>, after: DoGTextures) -> (change: TextureChange)
    ensures
        change == change_between(before, after),
{
    match before {
        Some(set) => {
            if set == after {
                TextureChange { allocate: false, release: None }
            } else {
                TextureChange { allocate: true, release: Some(set) }
            }
        },
        None => TextureChange { allocate: true, release: None },
    }
}

/// The set that a request returns differs from the one that the view had
/// exactly when the request made the pool allocate.
pub proof fn lemma_change_means_reallocation(pool: TexturePool, view: u64, width: u32, height: u32)
    requires
        pool.wf(),
    ensures
        change_between(
            if pool@.contains_key(view) {
                Some(pool@[view])
            } else {
                None
            },
            fresh_set(view, width, height),
        ).allocate == pool.reallocates(view, width, height),
{
}

/// The descriptors of the seven scratch textures of a view at one
/// resolution, in slot order.
pub open spec fn scratch_descriptors(width: u32, height: u32) -> Seq<TextureDescriptor> {
    seq![
        scratch_descriptor(ScratchSlot::Lab, width, height),
        scratch_descriptor(ScratchSlot::FlowEigen, width, height),
        scratch_descriptor(ScratchSlot::FlowH, width, height),
        scratch_descriptor(ScratchSlot::FlowV, width, height),
        scratch_descriptor(ScratchSlot::FilterPass1, width, height),
        scratch_descriptor(ScratchSlot::FilterPass2, width, height),
        scratch_descriptor(ScratchSlot::Antialiased, width, height),
    ]
}

/// What to allocate for a view at a resolution.
pub fn describe_scratch_textures(width: u32, height: u32) -> (descriptors: Vec<TextureDescriptor>)
    ensures
        descriptors@ == scratch_descriptors(width, height),
        descriptors.len() == SCRATCH_TEXTURES,
{
    let mut descriptors: Vec<TextureDescriptor> = Vec::new();
    descriptors.push(TextureDescriptor::scratch(ScratchSlot::Lab, width, height));
    descriptors.push(TextureDescriptor::scratch(ScratchSlot::FlowEigen, width, height));
    descriptors.push(TextureDescriptor::scratch(ScratchSlot::FlowH, width, height));
    descriptors.push(TextureDescriptor::scratch(ScratchSlot::FlowV, width, height));
    descriptors.push(TextureDescriptor::scratch(ScratchSlot::FilterPass1, width, height));
    descriptors.push(TextureDescriptor::scratch(ScratchSlot::FilterPass2, width, height));
    descriptors.push(TextureDescriptor::scratch(ScratchSlot::Antialiased, width, height));
    assert(descriptors@ =~= scratch_descriptors(width, height));
    descriptors
}

/// At no time does a view hold textures of two resolutions: every set in
/// the pool has one resolution throughout, and each of its textures serves
/// its own slot of its own view.
pub proof fn lemma_cached_set_is_uniform(pool: TexturePool, view: u64, slot: ScratchSlot)
    requires
        pool.wf(),
        pool@.contains_key(view),
    ensures
        pool@[view].matches(pool@[view].lab_texture.width, pool@[view].lab_texture.height),
        pool@[view].texture(slot) == fresh_texture(
            view,
            slot,
            pool@[view].lab_texture.width,
            pool@[view].lab_texture.height,
        ),
{
}

/// No texture is shared: two textures of the pool are the same only if
/// they are the same slot of the same view.
pub proof fn lemma_cached_sets_are_disjoint(
    pool: TexturePool,
    view1: u64,
    slot1: ScratchSlot,
    view2: u64,
    slot2: ScratchSlot,
)
    requires
        pool.wf(),
        pool@.contains_key(view1),
        pool@.contains_key(view2),
        pool@[view1].texture(slot1) == pool@[view2].texture(slot2),
    ensures
        view1 == view2,
        slot1 == slot2,
{
    lemma_cached_set_is_uniform(pool, view1, slot1);
    lemma_cached_set_is_uniform(pool, view2, slot2);
}

/// The textures of a view are reused from frame to frame while its
/// resolution stays: once a request has been answered, the same request
/// finds the set in the pool and allocates nothing.
pub proof fn lemma_get_is_idempotent(
    before: TexturePool,
    after: TexturePool,
    view: u64,
    width: u32,
    height: u32,
)
    requires
        after@ == before@.insert(view, fresh_set(view, width, height)),
    ensures
        after.holds(view, width, height),
        after@[view] == fresh_set(view, width, height),
        !after.reallocates(view, width, height),
{
}

/// A change of resolution replaces all seven textures at once. Whatever
/// the pool held before a request, the set that the request returns has
/// the resolution asked for in every slot; and where the view had no set
/// of that resolution, none of the textures returned is one that the pool
/// held before, for this view or for another.
pub proof fn lemma_resize_replaces_all(
    pool: TexturePool,
    view: u64,
    width: u32,
    height: u32,
    slot: ScratchSlot,
    other_view: u64,
    other_slot: ScratchSlot,
)
    requires
        pool.wf(),
        pool.reallocates(view, width, height),
        pool@.contains_key(other_view),
    ensures
        fresh_set(view, width, height).matches(width, height),
        fresh_set(view, width, height).texture(slot).width == width,
        fresh_set(view, width, height).texture(slot).height == height,
        fresh_set(view, width, height).texture(slot) != pool@[other_view].texture(other_slot),
{
    lemma_cached_set_is_uniform(pool, other_view, other_slot);
    lemma_fresh_set_is_uniform(view, width, height);
}

/// Where a view has no set of the resolution asked for, none of the seven
/// textures that the request returns is one that the pool holds, for this
/// view or for another: all seven are replaced together.
pub proof fn lemma_reallocation_is_new(pool: TexturePool, view: u64, width: u32, height: u32)
    requires
        pool.wf(),
        pool.reallocates(view, width, height),
    ensures
        is_new_to(fresh_set(view, width, height), pool@),
{
    let set = fresh_set(view, width, height);
    assert forall|slot: ScratchSlot, other: u64, other_slot: ScratchSlot|
        pool@.contains_key(other) implies #[trigger] set.texture(slot) != #[trigger] pool@[other]
            .texture(other_slot) by {
        lemma_resize_replaces_all(pool, view, width, height, slot, other, other_slot);
    }
}

} // verus!
