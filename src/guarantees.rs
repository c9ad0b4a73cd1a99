//! The invariant of an inspection run, the measure that bounds its length,
//! and the laws that hold of every step and of every whole run.
use vstd::prelude::*;
use crate::classes::{is_audio_class, lemma_first_audio_class};
use crate::model::{clamp, BusDescriptor, InspectError, ParameterDescriptor, PluginInfoView};
use crate::protocol::{
    action_of, answers, bus_count, bus_list, next, succeeded, Action, BusSlot, ControllerKind,
    InspectionView, Phase, Reply, StepView,
};

verus! {

/// Room for the progress within one stage: above twice the largest count.
pub const STAGE_WIDTH: u64 = 0x2_0000_0000;

/// How far the run is from its end, stage by stage; later stages are lower.
pub open spec fn stage(p: Phase) -> int {
    match p {
        Phase::FactoryInfo => 30,
        Phase::ClassCount => 29,
        Phase::ClassInfo { .. } => 28,
        Phase::CreateComponent { .. } => 27,
        Phase::InitComponent => 26,
        Phase::CastController => 25,
        Phase::ControllerClassId => 24,
        Phase::CreateController { .. } => 23,
        Phase::InitController => 22,
        Phase::AbandonComponent => 21,
        Phase::ProbeConnection => 20,
        Phase::ConnectComponent => 19,
        Phase::ConnectController { .. } => 18,
        Phase::Activate => 17,
        Phase::BusCount { slot } => 16 - 2 * slot.rank(),
        Phase::BusInfo { slot, .. } => 15 - 2 * slot.rank(),
        Phase::ProbeProcessor => 8,
        Phase::ParameterCount => 7,
        Phase::ParameterInfo { .. } | Phase::ParameterValue { .. } => 6,
        Phase::TerminateController => 5,
        Phase::TerminateComponent => 4,
    }
}

/// The calls left within the current stage.
pub open spec fn within_stage(p: Phase) -> int {
    match p {
        Phase::ClassInfo { index, count } => count - index,
        Phase::BusInfo { index, count, .. } => count - index,
        Phase::ParameterInfo { index, count } => 2 * (count - index),
        Phase::ParameterValue { index, count, .. } => 2 * (count - index) - 1,
        _ => 0,
    }
}

/// A bound on the calls that the run can still ask for.
pub open spec fn measure(p: Phase) -> int {
    stage(p) * STAGE_WIDTH + within_stage(p)
}

/// How many kinds of bus have been read completely.
pub open spec fn buses_done(p: Phase) -> int {
    match p {
        Phase::BusCount { slot } => slot.rank(),
        Phase::BusInfo { slot, .. } => slot.rank(),
        _ => if stage(p) >= 17 {
            0
        } else {
            4
        },
    }
}

/// The list of one kind of bus fits the stage: empty before it is read, no
/// longer than the index being asked while it is read, and no longer than the
/// reported count once it is read.
pub open spec fn bus_list_fits(v: InspectionView, slot: BusSlot) -> bool {
    let len = bus_list(v.info, slot).len() as int;
    &&& slot.rank() < buses_done(v.phase) ==> len <= clamp(bus_count(v.info, slot))
    &&& (stage(v.phase) >= 17 || slot.rank() > buses_done(v.phase) || v.phase == (Phase::BusCount {
        slot,
    })) ==> len == 0
    &&& v.phase matches Phase::BusInfo { slot: s, index, count } ==> (s == slot ==> len <= index
        && bus_count(v.info, slot) == count)
}

/// The invariant of a run.
pub open spec fn wf(v: InspectionView) -> bool {
    &&& match v.phase {
        Phase::ClassInfo { index, count } => 0 <= index < count,
        Phase::BusInfo { index, count, .. } => 0 <= index < count,
        Phase::ParameterInfo { index, count } => 0 <= index < count && v.info.parameter_count
            == count && v.info.parameters.len() <= index,
        Phase::ParameterValue { index, count, .. } => 0 <= index < count
            && v.info.parameter_count == count && v.info.parameters.len() <= index,
        _ => true,
    }
    &&& stage(v.phase) >= 21 ==> v.controller == ControllerKind::Unresolved
    &&& stage(v.phase) <= 17 ==> v.controller != ControllerKind::Unresolved
    &&& (v.phase is ProbeConnection || v.phase is ConnectComponent || v.phase is ConnectController)
        ==> v.controller != ControllerKind::Unresolved
    &&& v.phase is TerminateController ==> v.controller == ControllerKind::Separate
    &&& bus_list_fits(v, BusSlot::AudioInput)
    &&& bus_list_fits(v, BusSlot::AudioOutput)
    &&& bus_list_fits(v, BusSlot::EventInput)
    &&& bus_list_fits(v, BusSlot::EventOutput)
    &&& stage(v.phase) >= 7 ==> v.info.parameters.len() == 0
    &&& stage(v.phase) <= 5 ==> v.info.parameters.len() <= clamp(v.info.parameter_count)
}

/// A run that has not yet asked anything.
pub open spec fn is_start(v: InspectionView) -> bool {
    &&& v.phase is FactoryInfo
    &&& v.controller == ControllerKind::Unresolved
    &&& v.info.classes.len() == 0
    &&& v.info.name@.len() == 0
    &&& v.info.version@ == "1.0.0"@
    &&& v.info.audio_inputs.len() == 0
    &&& v.info.audio_outputs.len() == 0
    &&& v.info.event_inputs.len() == 0
    &&& v.info.event_outputs.len() == 0
    &&& v.info.audio_input_count == 0
    &&& v.info.audio_output_count == 0
    &&& v.info.event_input_count == 0
    &&& v.info.event_output_count == 0
    &&& v.info.parameter_count == 0
    &&& v.info.parameters.len() == 0
    &&& !v.info.supports_processing
    &&& !v.info.connected
    &&& !v.info.activated
    &&& v.info.terminated_cleanly
}

/// Every step of a run keeps its invariant, and a step that answers the
/// pending call either ends the run or brings it strictly closer to its end,
/// never back to an earlier stage: so every run ends.
pub proof fn lemma_step_progress(v: InspectionView, r: Reply)
    requires
        wf(v),
    ensures
        next(v, r) matches StepView::Continue(w) ==> wf(w),
        answers(v.phase, r) ==> (next(v, r) matches StepView::Continue(w) ==> 0 <= measure(w.phase)
            < measure(v.phase) && stage(w.phase) <= stage(v.phase)),
{
    match v.phase {
        Phase::FactoryInfo => {},
        Phase::ClassCount => {},
        Phase::ClassInfo { .. } => {},
        Phase::CreateComponent { .. } => {},
        Phase::InitComponent => {},
        Phase::CastController => {},
        Phase::ControllerClassId => {},
        Phase::CreateController { .. } => {},
        Phase::InitController => {},
        Phase::AbandonComponent => {},
        Phase::ProbeConnection => {},
        Phase::ConnectComponent => {},
        Phase::ConnectController { .. } => {},
        Phase::Activate => {},
        Phase::BusCount { slot } => {},
        Phase::BusInfo { slot, index, count } => {},
        Phase::ProbeProcessor => {},
        Phase::ParameterCount => {},
        Phase::ParameterInfo { .. } => {},
        Phase::ParameterValue { .. } => {},
        Phase::TerminateController => {},
        Phase::TerminateComponent => {},
    }
}

/// A per-index query that failed: a class, bus or parameter description
/// that came back with a code other than success.
pub open spec fn failed_item_query(p: Phase, r: Reply) -> bool {
    ||| p is ClassInfo && r is Class && !succeeded(r->Class_0)
    ||| p is BusInfo && r is Bus && !succeeded(r->Bus_0)
    ||| p is ParameterInfo && r is Parameter && !succeeded(r->Parameter_0)
}

/// A failed per-index query adds nothing to any gathered list.
pub proof fn lemma_failed_query_skipped(v: InspectionView, r: Reply)
    requires
        wf(v),
        failed_item_query(v.phase, r),
    ensures
        next(v, r) matches StepView::Continue(w) ==> {
            &&& w.info.classes == v.info.classes
            &&& w.info.audio_inputs == v.info.audio_inputs
            &&& w.info.audio_outputs == v.info.audio_outputs
            &&& w.info.event_inputs == v.info.event_inputs
            &&& w.info.event_outputs == v.info.event_outputs
            &&& w.info.parameters == v.info.parameters
        },
{
}

/// In the record that a run produces, no list of buses or parameters is
/// longer than the count that the plugin reported for it, a negative count
/// read as zero.
pub proof fn lemma_lists_within_counts(v: InspectionView, r: Reply)
    requires
        wf(v),
    ensures
        next(v, r) matches StepView::Done(Ok(info)) ==> {
            &&& info.audio_inputs.len() <= clamp(info.audio_input_count)
            &&& info.audio_outputs.len() <= clamp(info.audio_output_count)
            &&& info.event_inputs.len() <= clamp(info.event_input_count)
            &&& info.event_outputs.len() <= clamp(info.event_output_count)
            &&& info.parameters.len() <= clamp(info.parameter_count)
        },
{
}

/// The component has been initialized: the run is past that call.
pub open spec fn component_initialized(p: Phase) -> bool {
    stage(p) < stage(Phase::InitComponent)
}

/// Teardown order. The controller is asked to terminate only where it is a
/// separate object that initialized, and only while the component is still
/// initialized; a controller becomes separate only through a successful
/// initialization. The component is asked to terminate only once it
/// initialized, right after the controller where there is a separate one, and
/// its terminate ends the run. A failed component initialization ends the run
/// before any controller exists, in a stage that comes before every terminate.
pub proof fn lemma_teardown_order(v: InspectionView, r: Reply)
    requires
        wf(v),
    ensures
        action_of(v.phase) is TerminateController ==> v.controller == ControllerKind::Separate
            && component_initialized(v.phase),
        action_of(v.phase) is TerminateComponent ==> component_initialized(v.phase),
        action_of(v.phase) is TerminateComponent && answers(v.phase, r) ==> next(v, r) is Done,
        answers(v.phase, r) ==> (next(v, r) matches StepView::Continue(w) ==> (
        action_of(w.phase) is TerminateComponent && w.controller == ControllerKind::Separate
            ==> v.phase is TerminateController)),
        next(v, r) matches StepView::Continue(w) ==> (w.controller == ControllerKind::Separate
            && v.controller != ControllerKind::Separate ==> v.phase is InitController && r is Status
            && succeeded(r->Status_0)),
        next(v, r) matches StepView::Continue(w) ==> (!component_initialized(v.phase)
            && component_initialized(w.phase) ==> v.phase is InitComponent && r is Status
            && succeeded(r->Status_0)),
        next(v, r) matches StepView::Done(Err(InspectError::ComponentInitFailed(_))) ==> v.phase is InitComponent
            && v.controller == ControllerKind::Unresolved && stage(v.phase) > stage(
            Phase::TerminateController,
        ),
{
}

/// A run fails for want of an audio class only when no class that the
/// factory described is one: neither those gathered before, nor the one just
/// described.
pub proof fn lemma_no_audio_class(v: InspectionView, r: Reply)
    requires
        wf(v),
    ensures
        next(v, r) == StepView::Done(Err::<PluginInfoView, InspectError>(InspectError::NoAudioClass))
            ==> (forall|j: int| 0 <= j < v.info.classes.len() ==> !is_audio_class(
            #[trigger] v.info.classes[j],
        )) && (v.phase is ClassInfo && r is Class && succeeded(r->Class_0) ==> !is_audio_class(
            r->Class_1,
        )),
{
    lemma_first_audio_class(v.info.classes);
    if r is Class {
        let pushed = v.info.classes.push(r->Class_1);
        lemma_first_audio_class(pushed);
        if next(v, r) == StepView::Done(Err::<PluginInfoView, InspectError>(InspectError::NoAudioClass))
            && v.phase is ClassInfo && succeeded(r->Class_0) {
            assert forall|j: int| 0 <= j < v.info.classes.len() implies !is_audio_class(
                #[trigger] v.info.classes[j],
            ) by {
                assert(pushed[j] == v.info.classes[j]);
            }
            assert(pushed[v.info.classes.len() as int] == r->Class_1);
        }
    }
}

/// The calls that a run starting at `v` asks for while it is handed
/// `replies` in turn, up to its end or the last reply.
pub open spec fn calls_of_run(v: InspectionView, replies: Seq<Reply>) -> Seq<Action>
    decreases replies.len(),
{
    if replies.len() == 0 {
        Seq::empty()
    } else {
        match next(v, replies[0]) {
            StepView::Continue(w) => seq![action_of(v.phase)] + calls_of_run(w, replies.drop_first()),
            StepView::Done(_) => seq![action_of(v.phase)],
        }
    }
}

/// How a run starting at `v` ends when it is handed `replies` in turn, if it
/// ends within them.
pub open spec fn end_of_run(v: InspectionView, replies: Seq<Reply>) -> Option<
    Result<PluginInfoView, InspectError>,
>
    decreases replies.len(),
{
    if replies.len() == 0 {
        None
    } else {
        match next(v, replies[0]) {
            StepView::Continue(w) => end_of_run(w, replies.drop_first()),
            StepView::Done(result) => Some(result),
        }
    }
}

pub open spec fn ends_in_init_failure(end: Option<Result<PluginInfoView, InspectError>>) -> bool {
    end matches Some(Err(InspectError::ComponentInitFailed(_)))
}

proof fn lemma_init_failure_only_before_init(v: InspectionView, replies: Seq<Reply>)
    requires
        wf(v),
        stage(v.phase) < stage(Phase::InitComponent),
    ensures
        !ends_in_init_failure(end_of_run(v, replies)),
    decreases replies.len(),
{
    if replies.len() > 0 {
        lemma_step_progress(v, replies[0]);
        if !answers(v.phase, replies[0]) {
            assert(next(v, replies[0]) == StepView::Continue(v)) by {
                assert(!answers(v.phase, replies[0]));
            }
        }
        if let StepView::Continue(w) = next(v, replies[0]) {
            lemma_init_failure_only_before_init(w, replies.drop_first());
        }
    }
}

/// Over a whole run: a run that ends because the component refused to
/// initialize never asked for any terminate, of the controller or of the
/// component.
pub proof fn lemma_init_failure_terminates_nothing(v: InspectionView, replies: Seq<Reply>)
    requires
        wf(v),
        ends_in_init_failure(end_of_run(v, replies)),
    ensures
        forall|k: int|
            0 <= k < calls_of_run(v, replies).len() ==> !(#[trigger] calls_of_run(v, replies)[k] is TerminateController)
                && !(calls_of_run(v, replies)[k] is TerminateComponent),
    decreases replies.len(),
{
    lemma_step_progress(v, replies[0]);
    lemma_teardown_order(v, replies[0]);
    if stage(v.phase) < stage(Phase::InitComponent) {
        lemma_init_failure_only_before_init(v, replies);
    }
    if let StepView::Continue(w) = next(v, replies[0]) {
        lemma_init_failure_terminates_nothing(w, replies.drop_first());
        let rest = calls_of_run(w, replies.drop_first());
        assert forall|k: int| 0 <= k < calls_of_run(v, replies).len() implies !(
        #[trigger] calls_of_run(v, replies)[k] is TerminateController) && !(calls_of_run(
            v,
            replies,
        )[k] is TerminateComponent) by {
            if k > 0 {
                assert(calls_of_run(v, replies)[k] == rest[k - 1]);
            }
        }
    }
}

/// Each reply answers the call that the run was waiting on when it came.
pub open spec fn all_answer(v: InspectionView, replies: Seq<Reply>) -> bool
    decreases replies.len(),
{
    replies.len() == 0 || (answers(v.phase, replies[0]) && match next(v, replies[0]) {
        StepView::Continue(w) => all_answer(w, replies.drop_first()),
        StepView::Done(_) => true,
    })
}

/// Over a whole run whose replies answer its calls: the component's
/// terminate is the last call of the run, and a terminate of the controller
/// is followed directly by the component's.
pub proof fn lemma_teardown_sequence(v: InspectionView, replies: Seq<Reply>)
    requires
        wf(v),
        all_answer(v, replies),
    ensures
        forall|k: int|
            0 <= k < calls_of_run(v, replies).len() && (#[trigger] calls_of_run(v, replies)[k] is TerminateComponent)
                ==> k == calls_of_run(v, replies).len() - 1,
        forall|k: int|
            0 <= k < calls_of_run(v, replies).len() - 1 && (#[trigger] calls_of_run(v, replies)[k] is TerminateController)
                ==> calls_of_run(v, replies)[k + 1] is TerminateComponent,
    decreases replies.len(),
{
    if replies.len() > 0 {
        lemma_step_progress(v, replies[0]);
        lemma_teardown_order(v, replies[0]);
        if let StepView::Continue(w) = next(v, replies[0]) {
            let tail = replies.drop_first();
            lemma_teardown_sequence(w, tail);
            let rest = calls_of_run(w, tail);
            let calls = calls_of_run(v, replies);
            assert(calls == seq![action_of(v.phase)] + rest);
            if tail.len() > 0 {
                assert(rest[0] == action_of(w.phase));
            }
            assert forall|k: int|
                0 <= k < calls.len() && (#[trigger] calls[k] is TerminateComponent) implies k
                == calls.len() - 1 by {
                if k > 0 {
                    assert(calls[k] == rest[k - 1]);
                }
            }
            assert forall|k: int|
                0 <= k < calls.len() - 1 && (#[trigger] calls[k] is TerminateController) implies calls[k
                + 1] is TerminateComponent by {
                assert(calls[k + 1] == rest[k]);
                if k > 0 {
                    assert(calls[k] == rest[k - 1]);
                }
            }
        }
    }
}

/// A reply that does not answer the pending call changes nothing.
pub proof fn lemma_stray_reply_changes_nothing(v: InspectionView, r: Reply)
    requires
        !answers(v.phase, r),
    ensures
        next(v, r) == StepView::Continue(v),
{
}

/// How many of `replies` answered the call that the run was waiting on when
/// they came, up to the run's end.
pub open spec fn answered(v: InspectionView, replies: Seq<Reply>) -> nat
    decreases replies.len(),
{
    if replies.len() == 0 {
        0
    } else {
        let here: nat = if answers(v.phase, replies[0]) {
            1
        } else {
            0
        };
        match next(v, replies[0]) {
            StepView::Continue(w) => here + answered(w, replies.drop_first()),
            StepView::Done(_) => here,
        }
    }
}

/// Every run ends, whatever the plugin reports: once a run has been handed
/// more answers to its calls than its measure, it has ended, whatever other
/// replies came in between.
pub proof fn lemma_run_ends(v: InspectionView, replies: Seq<Reply>)
    requires
        wf(v),
        answered(v, replies) > measure(v.phase),
    ensures
        end_of_run(v, replies) is Some,
    decreases replies.len(),
{
    lemma_step_progress(v, replies[0]);
    if !answers(v.phase, replies[0]) {
        lemma_stray_reply_changes_nothing(v, replies[0]);
    }
    if let StepView::Continue(w) = next(v, replies[0]) {
        lemma_run_ends(w, replies.drop_first());
    }
}

/// The bus of one kind that a reply describes successfully, if it does.
pub open spec fn bus_described_by(v: InspectionView, r: Reply, slot: BusSlot) -> Seq<BusDescriptor> {
    match (v.phase, r) {
        (Phase::BusInfo { slot: s, .. }, Reply::Bus(code, b)) => if s == slot && succeeded(code) {
            seq![b]
        } else {
            Seq::empty()
        },
        _ => Seq::empty(),
    }
}

/// The parameter that a reply completes with its value, if it does.
pub open spec fn parameter_completed_by(v: InspectionView, r: Reply) -> Seq<ParameterDescriptor> {
    match (v.phase, r) {
        (Phase::ParameterValue { parameter, .. }, Reply::Value(bits)) => seq![
            ParameterDescriptor { current_normalized_bits: bits, ..parameter },
        ],
        _ => Seq::empty(),
    }
}

/// The buses of one kind that the successful bus descriptions of a run
/// carried, in the order they came.
pub open spec fn buses_described(v: InspectionView, replies: Seq<Reply>, slot: BusSlot) -> Seq<
    BusDescriptor,
>
    decreases replies.len(),
{
    if replies.len() == 0 {
        Seq::empty()
    } else {
        let here = bus_described_by(v, replies[0], slot);
        match next(v, replies[0]) {
            StepView::Continue(w) => here + buses_described(w, replies.drop_first(), slot),
            StepView::Done(_) => here,
        }
    }
}

/// The parameters that a run described successfully, in the order they
/// came, each with the normalized value read for it.
pub open spec fn parameters_described(v: InspectionView, replies: Seq<Reply>) -> Seq<
    ParameterDescriptor,
>
    decreases replies.len(),
{
    if replies.len() == 0 {
        Seq::empty()
    } else {
        let here = parameter_completed_by(v, replies[0]);
        match next(v, replies[0]) {
            StepView::Continue(w) => here + parameters_described(w, replies.drop_first()),
            StepView::Done(_) => here,
        }
    }
}

/// A parameter waits for its value only after its description came back
/// successfully, and it is that description.
pub proof fn lemma_value_follows_description(v: InspectionView, r: Reply)
    requires
        wf(v),
    ensures
        next(v, r) matches StepView::Continue(w) ==> (w.phase matches Phase::ParameterValue {
            parameter,
            ..
        } ==> v.phase == w.phase || (v.phase is ParameterInfo && r == Reply::Parameter(
            r->Parameter_0,
            parameter,
        ) && succeeded(r->Parameter_0))),
{
}

/// Descriptions are asked at indexes 0, 1, ..., count - 1 in turn: a kind of
/// bus, or the parameters, begin at index 0 right after a positive count, each
/// answer moves to the next index, and reading ends only after the last one.
pub proof fn lemma_indexes_in_order(v: InspectionView, r: Reply)
    requires
        wf(v),
    ensures
        next(v, r) matches StepView::Continue(w) ==> {
            &&& w.phase matches Phase::BusInfo { slot, index, count } ==> v.phase == w.phase
                || (v.phase == (Phase::BusCount { slot }) && index == 0 && r == Reply::Count(count))
                || v.phase == (Phase::BusInfo { slot, index: (index - 1) as i32, count })
            &&& w.phase matches Phase::ParameterInfo { index, count } ==> (v.phase is ParameterCount
                && index == 0 && r == Reply::Count(count)) || (v.phase matches Phase::ParameterInfo {
                index: i,
                count: n,
            } && n == count && (i == index || i + 1 == index)) || (v.phase matches Phase::ParameterValue {
                index: i,
                count: n,
                ..
            } && n == count && i + 1 == index)
            &&& v.phase matches Phase::BusInfo { slot, index, count } ==> (!(w.phase matches Phase::BusInfo { .. })
                ==> index == count - 1)
            &&& v.phase matches Phase::ParameterInfo { index, count } ==> (!(w.phase is ParameterInfo
                || w.phase is ParameterValue) ==> index == count - 1)
            &&& v.phase matches Phase::ParameterValue { index, count, .. } ==> (!(
            w.phase is ParameterInfo || w.phase is ParameterValue) ==> index == count - 1)
        },
{
}

/// One step adds to each list exactly what its reply describes successfully.
proof fn lemma_step_adds(v: InspectionView, r: Reply)
    requires
        wf(v),
    ensures
        next(v, r) matches StepView::Continue(w) ==> {
            &&& w.info.audio_inputs == v.info.audio_inputs + bus_described_by(v, r, BusSlot::AudioInput)
            &&& w.info.audio_outputs == v.info.audio_outputs + bus_described_by(v, r, BusSlot::AudioOutput)
            &&& w.info.event_inputs == v.info.event_inputs + bus_described_by(v, r, BusSlot::EventInput)
            &&& w.info.event_outputs == v.info.event_outputs + bus_described_by(v, r, BusSlot::EventOutput)
            &&& w.info.parameters == v.info.parameters + parameter_completed_by(v, r)
        },
        next(v, r) matches StepView::Done(Ok(info)) ==> {
            &&& info.audio_inputs == v.info.audio_inputs
            &&& info.audio_outputs == v.info.audio_outputs
            &&& info.event_inputs == v.info.event_inputs
            &&& info.event_outputs == v.info.event_outputs
            &&& info.parameters == v.info.parameters
            &&& bus_described_by(v, r, BusSlot::AudioInput) == Seq::<BusDescriptor>::empty()
            &&& bus_described_by(v, r, BusSlot::AudioOutput) == Seq::<BusDescriptor>::empty()
            &&& bus_described_by(v, r, BusSlot::EventInput) == Seq::<BusDescriptor>::empty()
            &&& bus_described_by(v, r, BusSlot::EventOutput) == Seq::<BusDescriptor>::empty()
            &&& parameter_completed_by(v, r) == Seq::<ParameterDescriptor>::empty()
        },
{
    let e = Seq::<BusDescriptor>::empty();
    assert(v.info.audio_inputs + e =~= v.info.audio_inputs);
    assert(v.info.audio_outputs + e =~= v.info.audio_outputs);
    assert(v.info.event_inputs + e =~= v.info.event_inputs);
    assert(v.info.event_outputs + e =~= v.info.event_outputs);
    assert(v.info.parameters + Seq::<ParameterDescriptor>::empty() =~= v.info.parameters);
    match (v.phase, r) {
        (Phase::BusInfo { slot, .. }, Reply::Bus(code, b)) => {
            assert(v.info.audio_inputs.push(b) =~= v.info.audio_inputs + seq![b]);
            assert(v.info.audio_outputs.push(b) =~= v.info.audio_outputs + seq![b]);
            assert(v.info.event_inputs.push(b) =~= v.info.event_inputs + seq![b]);
            assert(v.info.event_outputs.push(b) =~= v.info.event_outputs + seq![b]);
        },
        (Phase::ParameterValue { parameter, .. }, Reply::Value(bits)) => {
            let p = ParameterDescriptor { current_normalized_bits: bits, ..parameter };
            assert(v.info.parameters.push(p) =~= v.info.parameters + seq![p]);
        },
        _ => {},
    }
}

/// Over a whole run: each list of buses in the record it ends with is the
/// list it began with followed by the buses of that kind whose description
/// succeeded, in order; the parameters likewise, each with its value. A failed
/// description adds nothing. From the start of a run, the lists began empty.
pub proof fn lemma_run_lists_are_the_successes(v: InspectionView, replies: Seq<Reply>)
    requires
        wf(v),
    ensures
        end_of_run(v, replies) matches Some(Ok(info)) ==> {
            &&& info.audio_inputs == v.info.audio_inputs + buses_described(v, replies, BusSlot::AudioInput)
            &&& info.audio_outputs == v.info.audio_outputs + buses_described(v, replies, BusSlot::AudioOutput)
            &&& info.event_inputs == v.info.event_inputs + buses_described(v, replies, BusSlot::EventInput)
            &&& info.event_outputs == v.info.event_outputs + buses_described(v, replies, BusSlot::EventOutput)
            &&& info.parameters == v.info.parameters + parameters_described(v, replies)
        },
    decreases replies.len(),
{
    if replies.len() > 0 {
        let r = replies[0];
        lemma_step_progress(v, r);
        lemma_step_adds(v, r);
        let tail = replies.drop_first();
        if let StepView::Continue(w) = next(v, r) {
            lemma_run_lists_are_the_successes(w, tail);
            assert forall|slot: BusSlot| true implies (bus_list(v.info, slot) + bus_described_by(v, r, slot))
                + buses_described(w, tail, slot) =~= bus_list(v.info, slot) + (bus_described_by(v, r, slot)
                + buses_described(w, tail, slot)) by {}
            assert((v.info.parameters + parameter_completed_by(v, r)) + parameters_described(w, tail)
                =~= v.info.parameters + (parameter_completed_by(v, r) + parameters_described(w, tail)));
            assert(bus_list(v.info, BusSlot::AudioInput) == v.info.audio_inputs);
            assert(bus_list(v.info, BusSlot::AudioOutput) == v.info.audio_outputs);
            assert(bus_list(v.info, BusSlot::EventInput) == v.info.event_inputs);
            assert(bus_list(v.info, BusSlot::EventOutput) == v.info.event_outputs);
        }
    }
}

/// Over a whole run: in the record it ends with, no list of buses or
/// parameters is longer than the count the plugin reported for it, a negative
/// count read as zero.
pub proof fn lemma_run_lists_within_counts(v: InspectionView, replies: Seq<Reply>)
    requires
        wf(v),
    ensures
        end_of_run(v, replies) matches Some(Ok(info)) ==> {
            &&& info.audio_inputs.len() <= clamp(info.audio_input_count)
            &&& info.audio_outputs.len() <= clamp(info.audio_output_count)
            &&& info.event_inputs.len() <= clamp(info.event_input_count)
            &&& info.event_outputs.len() <= clamp(info.event_output_count)
            &&& info.parameters.len() <= clamp(info.parameter_count)
        },
    decreases replies.len(),
{
    if replies.len() > 0 {
        lemma_step_progress(v, replies[0]);
        lemma_lists_within_counts(v, replies[0]);
        if let StepView::Continue(w) = next(v, replies[0]) {
            lemma_run_lists_within_counts(w, replies.drop_first());
        }
    }
}

} // verus!
