//! The order of one record-upload-notify cycle: capture, then upload, then
//! link extraction, then publish, each begun only once the one before it
//! succeeded; any failure ends the cycle with that failure.

use vstd::prelude::*;
use crate::error::PipelineError;

verus! {

/// The stage a cycle is in.
#[derive(Debug, Clone, Copy, PartialEq, Eq, Structural)]
pub enum Stage {
    Waiting,
    Capturing,
    Uploading,
    Linking,
    Publishing,
}

/// What the stage's work reported.
#[derive(Debug, Clone, Copy, PartialEq, Eq, Structural)]
pub enum CycleEvent {
    /// A sample of the trigger input.
    Trigger(bool),
    /// The capture is finalized into a container.
    Captured,
    /// The upload returned the remote object's descriptor.
    Uploaded,
    /// The shareable link was extracted.
    Linked,
    /// The telemetry publish was confirmed.
    Published,
    /// The stage failed.
    Failed(PipelineError),
}

/// The work to do next.
#[derive(Debug, Clone, Copy, PartialEq, Eq, Structural)]
pub enum CycleAction {
    /// Sample the trigger again.
    Poll,
    StartCapture,
    Upload,
    ExtractLink,
    Publish,
    /// End with this failure.
    Abort(PipelineError),
}

/// The stage and the work after `event`. An event that does not belong to
/// the current stage keeps the stage, which asks for its work again.
pub open spec fn cycle_next(stage: Stage, event: CycleEvent) -> (Stage, CycleAction) {
    match (stage, event) {
        (_, CycleEvent::Failed(e)) => (Stage::Waiting, CycleAction::Abort(e)),
        (Stage::Waiting, CycleEvent::Trigger(true)) => (Stage::Capturing, CycleAction::StartCapture),
        (Stage::Capturing, CycleEvent::Captured) => (Stage::Uploading, CycleAction::Upload),
        (Stage::Uploading, CycleEvent::Uploaded) => (Stage::Linking, CycleAction::ExtractLink),
        (Stage::Linking, CycleEvent::Linked) => (Stage::Publishing, CycleAction::Publish),
        (Stage::Publishing, CycleEvent::Published) => (Stage::Waiting, CycleAction::Poll),
        (Stage::Waiting, _) => (Stage::Waiting, CycleAction::Poll),
        (Stage::Capturing, _) => (Stage::Capturing, CycleAction::StartCapture),
        (Stage::Uploading, _) => (Stage::Uploading, CycleAction::Upload),
        (Stage::Linking, _) => (Stage::Linking, CycleAction::ExtractLink),
        (Stage::Publishing, _) => (Stage::Publishing, CycleAction::Publish),
    }
}

/// Takes what a stage reported and says what to do next.
pub fn cycle_step(stage: Stage, event: CycleEvent) -> (r: (Stage, CycleAction))
    ensures
        r == cycle_next(stage, event),
{
    match event {
        CycleEvent::Failed(e) => (Stage::Waiting, CycleAction::Abort(e)),
        _ => match stage {
            Stage::Waiting => match event {
                CycleEvent::Trigger(true) => (Stage::Capturing, CycleAction::StartCapture),
                _ => (Stage::Waiting, CycleAction::Poll),
            },
            Stage::Capturing => match event {
                CycleEvent::Captured => (Stage::Uploading, CycleAction::Upload),
                _ => (Stage::Capturing, CycleAction::StartCapture),
            },
            Stage::Uploading => match event {
                CycleEvent::Uploaded => (Stage::Linking, CycleAction::ExtractLink),
                _ => (Stage::Uploading, CycleAction::Upload),
            },
            Stage::Linking => match event {
                CycleEvent::Linked => (Stage::Publishing, CycleAction::Publish),
                _ => (Stage::Linking, CycleAction::ExtractLink),
            },
            Stage::Publishing => match event {
                CycleEvent::Published => (Stage::Waiting, CycleAction::Poll),
                _ => (Stage::Publishing, CycleAction::Publish),
            },
        },
    }
}

/// The stage that follows `stage` when its work succeeds.
pub open spec fn successor(stage: Stage) -> Stage {
    match stage {
        Stage::Waiting => Stage::Capturing,
        Stage::Capturing => Stage::Uploading,
        Stage::Uploading => Stage::Linking,
        Stage::Linking => Stage::Publishing,
        Stage::Publishing => Stage::Waiting,
    }
}

/// The stage after a sequence of events.
pub open spec fn stage_after(stage: Stage, events: Seq<CycleEvent>) -> Stage
    decreases events.len(),
{
    if events.len() == 0 {
        stage
    } else {
        stage_after(cycle_next(stage, events[0]).0, events.drop_first())
    }
}

/// Stages are never skipped: each event keeps the stage, moves it to its
/// successor, or ends the cycle on a failure; the upload is asked for only
/// on a finished capture, the link only on a finished upload, and the
/// publish only on an extracted link.
pub proof fn law_stages_in_order(stage: Stage, event: CycleEvent)
    ensures
        ({
            let (next, action) = cycle_next(stage, event);
            &&& next == stage || next == successor(stage) || event is Failed
            &&& action == CycleAction::Upload && next != stage ==> stage == Stage::Capturing
                && event == CycleEvent::Captured
            &&& action == CycleAction::ExtractLink && next != stage ==> stage == Stage::Uploading
                && event == CycleEvent::Uploaded
            &&& action == CycleAction::Publish && next != stage ==> stage == Stage::Linking
                && event == CycleEvent::Linked
            &&& event is Failed <==> action is Abort
        }),
{
}

proof fn lemma_entry(s: Stage, events: Seq<CycleEvent>, t: Stage) -> (i: int)
    requires
        stage_after(s, events) == t,
        s != t,
    ensures
        0 <= i < events.len(),
        stage_after(s, events.take(i)) != t,
        cycle_next(stage_after(s, events.take(i)), events[i]).0 == t,
    decreases events.len(),
{
    let s1 = cycle_next(s, events[0]).0;
    let rest = events.drop_first();
    assert(events.take(0) =~= Seq::<CycleEvent>::empty());
    if s1 == t {
        0
    } else {
        let j = lemma_entry(s1, rest, t);
        let pre = events.take(j + 1);
        assert(pre.drop_first() =~= rest.take(j));
        assert(pre[0] == events[0]);
        j + 1
    }
}

proof fn lemma_prefix(events: Seq<CycleEvent>, k: int, j: int)
    requires
        0 <= j < k <= events.len(),
    ensures
        events.take(k).take(j) == events.take(j),
        events.take(k)[j] == events[j],
{
    assert(events.take(k).take(j) =~= events.take(j));
}

/// A cycle reaches its publish stage from waiting only after a finished
/// capture, then a finished upload, then an extracted link.
pub proof fn law_publish_after_capture_upload_link(events: Seq<CycleEvent>)
    requires
        stage_after(Stage::Waiting, events) == Stage::Publishing,
    ensures
        exists|i: int, j: int, k: int|
            0 <= i < j < k < events.len() && events[i] == CycleEvent::Captured
                && events[j] == CycleEvent::Uploaded && events[k] == CycleEvent::Linked,
{
    let k = lemma_entry(Stage::Waiting, events, Stage::Publishing);
    let ek = events.take(k);
    assert(stage_after(Stage::Waiting, ek) == Stage::Linking && events[k] == CycleEvent::Linked);
    let j = lemma_entry(Stage::Waiting, ek, Stage::Linking);
    lemma_prefix(events, k, j);
    let ej = events.take(j);
    assert(stage_after(Stage::Waiting, ej) == Stage::Uploading && events[j] == CycleEvent::Uploaded);
    let i = lemma_entry(Stage::Waiting, ej, Stage::Uploading);
    lemma_prefix(events, j, i);
    assert(events[i] == CycleEvent::Captured);
}

} // verus!
