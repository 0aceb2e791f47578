//! Data-flow laws of the frame schedule: every pass reads what the frame has
//! already produced, so a frame's output owes nothing to earlier frames.

use vstd::prelude::*;

use crate::node::{
    blend_pass, color_transform_pass, frame_passes, PassKind, RenderPass, ScratchSlot, TextureSlot,
};

verus! {

/// The textures that a frame receives from outside: the source frame and
/// the hatch pattern.
pub open spec fn is_frame_input(slot: TextureSlot) -> bool {
    slot == TextureSlot::Source || slot == TextureSlot::Hatch
}

/// Whether one of the first `upto` passes writes `slot`.
pub open spec fn written_before(passes: Seq<RenderPass>, upto: int, slot: TextureSlot) -> bool {
    exists|j: int| 0 <= j < upto && j < passes.len() && (#[trigger] passes[j]).output == slot
}

/// Whether `slot` holds this frame's data once the first `upto` passes have
/// run: it is a frame input, or one of those passes wrote it.
pub open spec fn is_fresh(passes: Seq<RenderPass>, upto: int, slot: TextureSlot) -> bool {
    is_frame_input(slot) || written_before(passes, upto, slot)
}

/// Every texture that a pass reads is a frame input or the output of an
/// earlier pass of the same sequence.
pub open spec fn reads_are_fresh(passes: Seq<RenderPass>) -> bool {
    forall|i: int, k: int|
        0 <= i < passes.len() && 0 <= k < passes[i].reads().len() ==> is_fresh(
            passes,
            i,
            #[trigger] passes[i].reads()[k],
        )
}

/// Whether pass `i` reads what the pass just before it wrote.
pub open spec fn reads_previous(passes: Seq<RenderPass>, i: int) -> bool {
    passes[i].reads().contains(passes[i - 1].output)
}

/// Every pass but the first reads what the pass just before it wrote.
pub open spec fn reads_chain(passes: Seq<RenderPass>) -> bool {
    forall|i: int| 1 <= i < passes.len() ==> #[trigger] reads_previous(passes, i)
}

/// No two passes write the same texture.
pub open spec fn outputs_distinct(passes: Seq<RenderPass>) -> bool {
    forall|i: int, j: int|
        0 <= i < j < passes.len() ==> (#[trigger] passes[i]).output != (#[trigger] passes[j]).output
}

/// The number of passes that a pair of toggles selects.
pub open spec fn pass_count(flow_guided: bool, antialias: bool) -> int {
    4 + (if flow_guided && antialias {
        3int
    } else {
        0int
    }) + (if antialias {
        1int
    } else {
        0int
    })
}

/// The contents of the textures after one pass, where `shade` stands for
/// whatever the pass executor computes from a pass and the contents of the
/// textures that it reads.
pub open spec fn run_pass(
    pass: RenderPass,
    shade: spec_fn(RenderPass, Seq<int>) -> int,
    textures: spec_fn(TextureSlot) -> int,
) -> spec_fn(TextureSlot) -> int {
    |slot: TextureSlot|
        if slot == pass.output {
            shade(pass, pass.reads().map_values(textures))
        } else {
            textures(slot)
        }
}

/// The contents of the textures after a sequence of passes, run in order.
pub open spec fn run_passes(
    passes: Seq<RenderPass>,
    shade: spec_fn(RenderPass, Seq<int>) -> int,
    textures: spec_fn(TextureSlot) -> int,
) -> spec_fn(TextureSlot) -> int
    decreases passes.len(),
{
    if passes.len() == 0 {
        textures
    } else {
        run_pass(passes.last(), shade, run_passes(passes.drop_last(), shade, textures))
    }
}

/// A frame has between four and eight passes. It starts with the color
/// transform and ends with the blend into the destination, which no earlier
/// pass touches; the blend takes the anti-aliased output exactly when
/// anti-aliasing is on.
pub proof fn lemma_frame_shape(flow_guided: bool, antialias: bool)
    ensures
        frame_passes(flow_guided, antialias).len() == pass_count(flow_guided, antialias),
        4 <= frame_passes(flow_guided, antialias).len() <= 8,
        frame_passes(flow_guided, antialias).first() == color_transform_pass(),
        frame_passes(flow_guided, antialias).last() == blend_pass(antialias),
        blend_pass(antialias).reads().contains(
            if antialias {
                TextureSlot::Scratch(ScratchSlot::Antialiased)
            } else {
                TextureSlot::Scratch(ScratchSlot::FilterPass2)
            },
        ),
        forall|i: int|
            0 <= i < frame_passes(flow_guided, antialias).len() - 1 ==> {
                let pass = #[trigger] frame_passes(flow_guided, antialias)[i];
                pass.output != TextureSlot::Destination && pass.kind
                    != PassKind::ThresholdHatchBlend
            },
{
    let filter = if antialias {
        TextureSlot::Scratch(ScratchSlot::Antialiased)
    } else {
        TextureSlot::Scratch(ScratchSlot::FilterPass2)
    };
    assert(blend_pass(antialias).reads()[1] == filter);
}

/// The flow map is built exactly when both toggles are on, and the
/// flow-guided filter replaces the plain one exactly when its toggle is on.
pub proof fn lemma_frame_kinds(flow_guided: bool, antialias: bool, i: int)
    requires
        0 <= i < frame_passes(flow_guided, antialias).len(),
    ensures
        ({
            let kind = frame_passes(flow_guided, antialias)[i].kind;
            &&& (kind == PassKind::FlowEigen || kind == PassKind::FlowSmoothH || kind
                == PassKind::FlowSmoothV) ==> flow_guided && antialias
            &&& (kind == PassKind::FlowGuidedDoG1 || kind == PassKind::FlowGuidedDoG2)
                ==> flow_guided
            &&& (kind == PassKind::PlainDoG1 || kind == PassKind::PlainDoG2) ==> !flow_guided
            &&& kind == PassKind::AntiAlias ==> antialias
        }),
        flow_guided && antialias ==> frame_passes(flow_guided, antialias)[1].kind
            == PassKind::FlowEigen && frame_passes(flow_guided, antialias)[2].kind
            == PassKind::FlowSmoothH && frame_passes(flow_guided, antialias)[3].kind
            == PassKind::FlowSmoothV,
{
}

/// Within a frame no texture is read before the pass that produces it has
/// run, each pass reads the output of the pass just before it, and every
/// target is written once.
pub proof fn lemma_frame_order(flow_guided: bool, antialias: bool)
    ensures
        reads_are_fresh(frame_passes(flow_guided, antialias)),
        reads_chain(frame_passes(flow_guided, antialias)),
        outputs_distinct(frame_passes(flow_guided, antialias)),
{
    let passes = frame_passes(flow_guided, antialias);
    assert forall|i: int, k: int|
        0 <= i < passes.len() && 0 <= k < passes[i].reads().len() implies is_fresh(
        passes,
        i,
        #[trigger] passes[i].reads()[k],
    ) by {
        lemma_pass_reads_fresh(flow_guided, antialias, i, k);
    }
    assert forall|i: int| 1 <= i < passes.len() implies #[trigger] reads_previous(passes, i) by {
        lemma_pass_reads_previous(flow_guided, antialias, i);
    }
    assert forall|i: int, j: int| 0 <= i < j < passes.len() implies (#[trigger] passes[i]).output
        != (#[trigger] passes[j]).output by {
        lemma_outputs_differ(flow_guided, antialias, i, j);
    }
}

/// Pass `i` of a frame, for `i` past the first, reads what pass `i - 1`
/// wrote.
pub proof fn lemma_pass_reads_previous(flow_guided: bool, antialias: bool, i: int)
    requires
        1 <= i < frame_passes(flow_guided, antialias).len(),
    ensures
        reads_previous(frame_passes(flow_guided, antialias), i),
{
    let passes = frame_passes(flow_guided, antialias);
    let wanted = passes[i - 1].output;
    if passes[i].input == wanted {
        assert(passes[i].reads()[0] == wanted);
    } else {
        assert(passes[i].reads()[1] == wanted);
    }
}

/// Two different passes of a frame write different textures.
pub proof fn lemma_outputs_differ(flow_guided: bool, antialias: bool, i: int, j: int)
    requires
        0 <= i < j < frame_passes(flow_guided, antialias).len(),
    ensures
        frame_passes(flow_guided, antialias)[i].output != frame_passes(
            flow_guided,
            antialias,
        )[j].output,
{
}

/// The index of the pass that writes a scratch texture, in a frame that
/// writes it.
pub open spec fn producer(flow_guided: bool, antialias: bool, slot: ScratchSlot) -> int {
    let skip: int = if flow_guided && antialias {
        3
    } else {
        0
    };
    match slot {
        ScratchSlot::Lab => 0,
        ScratchSlot::FlowEigen => 1,
        ScratchSlot::FlowH => 2,
        ScratchSlot::FlowV => 3,
        ScratchSlot::FilterPass1 => skip + 1,
        ScratchSlot::FilterPass2 => skip + 2,
        ScratchSlot::Antialiased => skip + 3,
    }
}

/// The `k`-th texture that pass `i` of a frame reads is a frame input, or
/// the output of the earlier pass that `producer` names.
pub proof fn lemma_pass_reads_fresh(flow_guided: bool, antialias: bool, i: int, k: int)
    requires
        0 <= i < frame_passes(flow_guided, antialias).len(),
        0 <= k < frame_passes(flow_guided, antialias)[i].reads().len(),
    ensures
        is_fresh(
            frame_passes(flow_guided, antialias),
            i,
            frame_passes(flow_guided, antialias)[i].reads()[k],
        ),
{
    let passes = frame_passes(flow_guided, antialias);
    let pass = passes[i];
    let slot = pass.reads()[k];
    if k == 0 {
        assert(slot == pass.input);
    } else {
        assert(slot == pass.extra.textures()[k - 1]);
    }
    if let TextureSlot::Scratch(scratch) = slot {
        let j = producer(flow_guided, antialias, scratch);
        assert(0 <= j < i && passes[j].output == slot);
    }
}

/// Running a sequence of passes whose reads are fresh from two texture
/// states that agree on the frame inputs leaves the two states agreeing on
/// every frame input and on every texture that the first `upto` passes wrote.
pub proof fn lemma_fresh_reads_forget(
    passes: Seq<RenderPass>,
    shade: spec_fn(RenderPass, Seq<int>) -> int,
    a: spec_fn(TextureSlot) -> int,
    b: spec_fn(TextureSlot) -> int,
    upto: int,
)
    requires
        reads_are_fresh(passes),
        0 <= upto <= passes.len(),
        a(TextureSlot::Source) == b(TextureSlot::Source),
        a(TextureSlot::Hatch) == b(TextureSlot::Hatch),
    ensures
        forall|slot: TextureSlot| #[trigger]
            is_fresh(passes, upto, slot) ==> run_passes(passes.take(upto), shade, a)(slot)
                == run_passes(passes.take(upto), shade, b)(slot),
    decreases upto,
{
    if upto == 0 {
        assert(passes.take(0).len() == 0);
    } else {
        lemma_fresh_reads_forget(passes, shade, a, b, upto - 1);
        let prefix = passes.take(upto);
        let pass = passes[upto - 1];
        assert(prefix.drop_last() =~= passes.take(upto - 1));
        assert(prefix.last() == pass);
        let before_a = run_passes(passes.take(upto - 1), shade, a);
        let before_b = run_passes(passes.take(upto - 1), shade, b);
        let read_a = pass.reads().map_values(before_a);
        let read_b = pass.reads().map_values(before_b);
        assert forall|k: int| 0 <= k < pass.reads().len() implies read_a[k] == read_b[k] by {
            assert(is_fresh(passes, upto - 1, passes[upto - 1].reads()[k]));
        }
        assert(read_a =~= read_b);
        assert forall|slot: TextureSlot| #[trigger]
            is_fresh(passes, upto, slot) implies run_passes(prefix, shade, a)(slot) == run_passes(
            prefix,
            shade,
            b,
        )(slot) by {
            if slot != pass.output && !is_frame_input(slot) {
                let j = choose|j: int|
                    0 <= j < upto && j < passes.len() && (#[trigger] passes[j]).output == slot;
                assert(j < upto - 1);
                assert(written_before(passes, upto - 1, slot));
            }
            if slot != pass.output {
                assert(is_fresh(passes, upto - 1, slot));
            }
        }
    }
}

/// Running a non-empty sequence of passes whose reads are fresh from two
/// texture states that agree on the frame inputs writes the same contents
/// into the last pass's target.
pub proof fn lemma_fresh_reads_output(
    passes: Seq<RenderPass>,
    shade: spec_fn(RenderPass, Seq<int>) -> int,
    a: spec_fn(TextureSlot) -> int,
    b: spec_fn(TextureSlot) -> int,
)
    requires
        reads_are_fresh(passes),
        passes.len() > 0,
        a(TextureSlot::Source) == b(TextureSlot::Source),
        a(TextureSlot::Hatch) == b(TextureSlot::Hatch),
    ensures
        run_passes(passes, shade, a)(passes.last().output) == run_passes(passes, shade, b)(
            passes.last().output,
        ),
{
    let n = passes.len() as int;
    lemma_fresh_reads_forget(passes, shade, a, b, n);
    assert(passes.take(n) =~= passes);
    assert(passes[n - 1].output == passes.last().output);
    assert(is_fresh(passes, n, passes.last().output));
}

/// What a frame presents depends on the toggles, on the pass executor and on
/// the frame's inputs alone: the contents that the scratch textures and the
/// destination held before the frame leave no trace in it.
pub proof fn lemma_frame_is_deterministic(
    flow_guided: bool,
    antialias: bool,
    shade: spec_fn(RenderPass, Seq<int>) -> int,
    a: spec_fn(TextureSlot) -> int,
    b: spec_fn(TextureSlot) -> int,
)
    requires
        a(TextureSlot::Source) == b(TextureSlot::Source),
        a(TextureSlot::Hatch) == b(TextureSlot::Hatch),
    ensures
        run_passes(frame_passes(flow_guided, antialias), shade, a)(TextureSlot::Destination)
            == run_passes(frame_passes(flow_guided, antialias), shade, b)(TextureSlot::Destination),
{
    lemma_frame_order(flow_guided, antialias);
    lemma_frame_shape(flow_guided, antialias);
    lemma_fresh_reads_output(frame_passes(flow_guided, antialias), shade, a, b);
}

} // verus!
