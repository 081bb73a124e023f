//! What holds of the relay over whole runs of decode units.

use vstd::prelude::*;
use crate::stream::{DecodeResult, UnitView, VideoSetup};
use crate::ffmpeg::{PipelineConfigView, PipelineView};
use crate::video::{
    derived_config, encoder_name, frame_rate_of, is_keyframe, needs_rebuild, reencode_enabled,
    relay_step, unit_outcome, ActionView, PipelineChange, PlanView, ReencodeCodec, ReencodeView,
    RelayMode, RelayView, UnitEvent, UnitOutcome,
};

verus! {

/// A step leaves the relay in one of its four states.
pub proof fn lemma_step_keeps_state_valid(
    state: RelayView,
    reencode: Option<ReencodeView>,
    setup: Option<VideoSetup>,
    default_preset: Seq<char>,
    unit: UnitView,
)
    requires
        state.wf(),
    ensures
        relay_step(state, reencode, setup, default_preset, unit).0.wf(),
{
}

/// What one unit is handled with.
pub struct UnitInput {
    pub reencode: Option<ReencodeView>,
    pub setup: Option<VideoSetup>,
    pub default_preset: Seq<char>,
    pub unit: UnitView,
}

impl UnitInput {
    /// The pipeline configuration that the unit is handled under.
    pub open spec fn config(self) -> PipelineConfigView {
        derived_config(self.reencode->0, self.setup, self.default_preset)
    }
}

/// The relay after a run of units, and its decision on each of them.
pub open spec fn relay_run(state: RelayView, inputs: Seq<UnitInput>) -> (RelayView, Seq<PlanView>)
    decreases inputs.len(),
{
    if inputs.len() == 0 {
        (state, Seq::empty())
    } else {
        let before = relay_run(state, inputs.drop_last());
        let input = inputs.last();
        let step = relay_step(
            before.0,
            input.reencode,
            input.setup,
            input.default_preset,
            input.unit,
        );
        (step.0, before.1.push(step.1))
    }
}

/// A run decides on every unit.
pub proof fn lemma_run_decides_each(state: RelayView, inputs: Seq<UnitInput>)
    ensures
        relay_run(state, inputs).1.len() == inputs.len(),
    decreases inputs.len(),
{
    if inputs.len() > 0 {
        lemma_run_decides_each(state, inputs.drop_last());
    }
}

/// While re-encoding is off, every unit is forwarded as it came: the relay
/// stays in passthrough, as many bytes count as gone out as came in,
/// whatever the transport answered, and no pipeline is built.
pub proof fn lemma_disabled_forwards_every_unit(
    state: RelayView,
    inputs: Seq<UnitInput>,
    i: int,
    event: UnitEvent,
)
    requires
        forall|k: int| 0 <= k < inputs.len() ==> !reencode_enabled(#[trigger] inputs[k].reencode),
        0 <= i < inputs.len(),
    ensures
        relay_run(state, inputs).1.len() == inputs.len(),
        relay_run(state, inputs).1[i].action == ActionView::Forward,
        relay_run(state, inputs).1[i].pipeline != PipelineChange::Rebuild,
        relay_run(state, inputs).0.mode() == RelayMode::Passthrough,
        unit_outcome(
            relay_run(state, inputs).1[i].action,
            inputs[i].unit.incoming_bytes(),
            event,
        ).outgoing_bytes == inputs[i].unit.incoming_bytes(),
    decreases inputs.len(),
{
    lemma_run_decides_each(state, inputs);
    lemma_run_decides_each(state, inputs.drop_last());
    if i < inputs.len() - 1 {
        lemma_disabled_forwards_every_unit(state, inputs.drop_last(), i, event);
    }
}

/// After a change of the re-encode configuration, and as long as no
/// keyframe comes in, every unit is dropped and a keyframe asked for: the
/// engine is told `NeedIdr`, and nothing goes out. The same holds from any
/// state in which the relay waits for a keyframe.
pub proof fn lemma_waits_for_keyframe(
    state: RelayView,
    inputs: Seq<UnitInput>,
    i: int,
    event: UnitEvent,
)
    requires
        inputs.len() > 0,
        forall|k: int|
            0 <= k < inputs.len() ==> reencode_enabled(#[trigger] inputs[k].reencode)
                && !is_keyframe(inputs[k].unit),
        needs_rebuild(state.pipeline, inputs[0].config()) || state.waiting_for_idr,
        0 <= i < inputs.len(),
    ensures
        relay_run(state, inputs).1.len() == inputs.len(),
        relay_run(state, inputs).1[i].action == ActionView::RequestIdr,
        relay_run(state, inputs).0.waiting_for_idr,
        unit_outcome(
            relay_run(state, inputs).1[i].action,
            inputs[i].unit.incoming_bytes(),
            event,
        ) == (UnitOutcome { result: DecodeResult::NeedIdr, outgoing_bytes: 0 }),
    decreases inputs.len(),
{
    lemma_run_decides_each(state, inputs);
    lemma_run_decides_each(state, inputs.drop_last());
    if inputs.len() > 1 {
        let earlier = inputs.drop_last();
        assert(earlier[0] == inputs[0]);
        lemma_waits_for_keyframe(
            state,
            earlier,
            if i < inputs.len() - 1 {
                i
            } else {
                0
            },
            event,
        );
    } else {
        assert(inputs.drop_last() =~= Seq::<UnitInput>::empty());
        assert(inputs.last() == inputs[0]);
    }
}

/// A keyframe ends the wait: the unit that carries it is not answered with a
/// request for a keyframe, and the relay waits no longer.
pub proof fn lemma_keyframe_ends_wait(state: RelayView, input: UnitInput)
    requires
        reencode_enabled(input.reencode),
        is_keyframe(input.unit),
    ensures
        ({
            let step = relay_step(
                state,
                input.reencode,
                input.setup,
                input.default_preset,
                input.unit,
            );
            &&& step.1.action != ActionView::RequestIdr
            &&& !step.0.waiting_for_idr
        }),
{
}

/// The first frame that goes to a pipeline has the parameter sets in front
/// of it, the sequence parameter set first: those that were cached last,
/// the unit's own included.
pub proof fn lemma_first_frame_carries_headers(state: RelayView, input: UnitInput)
    requires
        reencode_enabled(input.reencode),
        needs_rebuild(state.pipeline, input.config()) || state.needs_headers,
        relay_step(
            state,
            input.reencode,
            input.setup,
            input.default_preset,
            input.unit,
        ).1.action is Transcode,
    ensures
        ({
            let step = relay_step(
                state,
                input.reencode,
                input.setup,
                input.default_preset,
                input.unit,
            );
            let seen = state.scanned(input.unit.frame());
            &&& seen.headers_cached()
            &&& step.1.action->frame == seen.cached_sps->0 + seen.cached_pps->0
                + input.unit.frame()
            &&& !step.0.needs_headers
            &&& step.0.cached_sps == seen.cached_sps
            &&& step.0.cached_pps == seen.cached_pps
        }),
{
}

/// Caching the parameter sets of a frame a second time changes nothing, and
/// caching never touches the flags.
pub proof fn lemma_caching_is_idempotent(state: RelayView, frame: Seq<u8>)
    ensures
        state.scanned(frame).scanned(frame) == state.scanned(frame),
        state.scanned(frame).needs_headers == state.needs_headers,
        state.scanned(frame).waiting_for_idr == state.waiting_for_idr,
        state.headers_cached() ==> state.scanned(frame).headers_cached(),
{
}

/// As long as the configuration of the pipeline does not change, the
/// parameter sets go out at most once: every frame that goes to the
/// pipeline after an earlier one has gone is the unit's frame as it came.
pub proof fn lemma_headers_go_out_once(
    state: RelayView,
    inputs: Seq<UnitInput>,
    i: int,
    j: int,
)
    requires
        state.pipeline is Some,
        forall|k: int|
            0 <= k < inputs.len() ==> reencode_enabled(#[trigger] inputs[k].reencode)
                && inputs[k].config() == state.pipeline->0.config,
        0 <= i < j < inputs.len(),
        relay_run(state, inputs).1[i].action is Transcode,
    ensures
        relay_run(state, inputs).1[j].action is Transcode,
        relay_run(state, inputs).1[j].action->frame == inputs[j].unit.frame(),
        !relay_run(state, inputs).0.needs_headers,
    decreases inputs.len(),
{
    lemma_run_decides_each(state, inputs);
    let earlier = inputs.drop_last();
    lemma_run_decides_each(state, earlier);
    lemma_run_keeps_pipeline(state, earlier);
    lemma_run_keeps_pipeline(state, inputs);
    if j < inputs.len() - 1 {
        lemma_headers_go_out_once(state, earlier, i, j);
        assert(relay_run(state, inputs).1[j] == relay_run(state, earlier).1[j]);
    } else {
        lemma_headers_stay_out(state, earlier, i);
    }
}

/// A run under the pipeline's own configuration keeps the pipeline.
pub proof fn lemma_run_keeps_pipeline(state: RelayView, inputs: Seq<UnitInput>)
    requires
        state.pipeline is Some,
        forall|k: int|
            0 <= k < inputs.len() ==> reencode_enabled(#[trigger] inputs[k].reencode)
                && inputs[k].config() == state.pipeline->0.config,
    ensures
        relay_run(state, inputs).0.pipeline is Some,
        relay_run(state, inputs).0.pipeline->0.config == state.pipeline->0.config,
        forall|k: int|
            0 <= k < relay_run(state, inputs).1.len() ==> (#[trigger] relay_run(
                state,
                inputs,
            ).1[k]).pipeline == PipelineChange::Keep,
    decreases inputs.len(),
{
    if inputs.len() > 0 {
        lemma_run_keeps_pipeline(state, inputs.drop_last());
    }
}

/// Once a frame has gone to the pipeline, the relay neither waits for a
/// keyframe nor owes the parameter sets, as long as the configuration does
/// not change.
pub proof fn lemma_headers_stay_out(state: RelayView, inputs: Seq<UnitInput>, i: int)
    requires
        state.pipeline is Some,
        forall|k: int|
            0 <= k < inputs.len() ==> reencode_enabled(#[trigger] inputs[k].reencode)
                && inputs[k].config() == state.pipeline->0.config,
        0 <= i < inputs.len(),
        relay_run(state, inputs).1[i].action is Transcode,
    ensures
        relay_run(state, inputs).0.mode() == RelayMode::Active,
    decreases inputs.len(),
{
    lemma_run_decides_each(state, inputs);
    let earlier = inputs.drop_last();
    lemma_run_decides_each(state, earlier);
    lemma_run_keeps_pipeline(state, earlier);
    if i < inputs.len() - 1 {
        lemma_headers_stay_out(state, earlier, i);
    }
}

/// Where the parameter sets are due and one of them is missing once the
/// unit's own have been cached, the unit is neither transcoded nor
/// forwarded: no bytes go out for it, and the parameter sets stay due.
pub proof fn lemma_missing_parameter_set_skips(
    state: RelayView,
    input: UnitInput,
    event: UnitEvent,
)
    requires
        reencode_enabled(input.reencode),
        needs_rebuild(state.pipeline, input.config()) || state.needs_headers,
        is_keyframe(input.unit) || !(needs_rebuild(state.pipeline, input.config())
            || state.waiting_for_idr),
        !state.scanned(input.unit.frame()).headers_cached(),
    ensures
        ({
            let step = relay_step(
                state,
                input.reencode,
                input.setup,
                input.default_preset,
                input.unit,
            );
            &&& step.1.action == ActionView::Skip
            &&& step.0.needs_headers
            &&& unit_outcome(step.1.action, input.unit.incoming_bytes(), event) == (UnitOutcome {
                result: DecodeResult::Accepted,
                outgoing_bytes: 0,
            })
        }),
{
}

/// The two encoders have different names.
pub proof fn lemma_encoder_names_differ()
    ensures
        encoder_name(ReencodeCodec::H264) != encoder_name(ReencodeCodec::VP8),
{
    reveal_strlit("libx264");
    reveal_strlit("libvpx");
    assert("libx264"@.len() != "libvpx"@.len());
}

/// A change of the codec, the bitrate, the thread count, the preset in
/// force or the frame rate is a change of the pipeline's configuration: the
/// pipeline that was built under the settings before is built anew.
pub proof fn lemma_changed_settings_rebuild(pipeline: PipelineView, before: UnitInput, after: UnitInput)
    requires
        before.reencode is Some,
        after.reencode is Some,
        pipeline.config == before.config(),
        ({
            ||| after.reencode->0.codec != before.reencode->0.codec
            ||| after.reencode->0.bitrate_kbps != before.reencode->0.bitrate_kbps
            ||| after.reencode->0.threads != before.reencode->0.threads
            ||| after.config().preset != before.config().preset
            ||| frame_rate_of(after.setup) != frame_rate_of(before.setup)
        }),
    ensures
        needs_rebuild(Some(pipeline), after.config()),
{
    lemma_encoder_names_differ();
}

} // verus!
