//! The inspection run itself: a value that names the next call, takes its
//! reply, and moves on exactly as the protocol's transition function says.
use vstd::prelude::*;
use crate::classes::{find_audio_class, lemma_first_audio_class};
use crate::guarantees::{is_start, lemma_step_progress, wf};
use crate::model::{BusDescriptor, FactoryInfo, InspectError, PluginInfo};
use crate::protocol::{
    action_of, after_classes, answers, next, with_bus, with_bus_count, Action, BusSlot,
    ControllerKind, InspectionView, Phase, Reply, StepView,
};

verus! {

/// Relies on `vst3::Steinberg::kResultOk`: the code of success, which is zero
/// on every platform.
#[verifier::external_body]
fn result_ok() -> (r: i32)
    ensures
        r == 0,
{
    vst3::Steinberg::kResultOk
}

/// One inspection run in progress.
pub struct Inspection {
    phase: Phase,
    controller: ControllerKind,
    info: PluginInfo,
}

impl View for Inspection {
    type V = InspectionView;

    closed spec fn view(&self) -> InspectionView {
        InspectionView { phase: self.phase, controller: self.controller, info: self.info@ }
    }
}

/// Where a run goes after a reply: on, or to its end.
pub enum Step {
    Continue(Inspection),
    Done(Result<PluginInfo, InspectError>),
}

impl View for Step {
    type V = StepView;

    open spec fn view(&self) -> StepView {
        match self {
            Step::Continue(i) => StepView::Continue(i@),
            Step::Done(Ok(info)) => StepView::Done(Ok(info@)),
            Step::Done(Err(e)) => StepView::Done(Err(*e)),
        }
    }
}

fn continue_with(phase: Phase, controller: ControllerKind, info: PluginInfo) -> (r: Step)
    requires
        wf(InspectionView { phase, controller, info: info@ }),
    ensures
        r@ == StepView::Continue(InspectionView { phase, controller, info: info@ }),
{
    Step::Continue(Inspection { phase, controller, info })
}

impl Inspection {
    #[verifier::type_invariant]
    closed spec fn well_formed(self) -> bool {
        wf(self@)
    }

    /// A run that has not yet asked anything.
    pub fn start() -> (r: Inspection)
        ensures
            is_start(r@),
    {
        let info = PluginInfo {
            factory: FactoryInfo::unknown(),
            classes: Vec::new(),
            name: String::new(),
            version: "1.0.0".to_string(),
            audio_input_count: 0,
            audio_output_count: 0,
            event_input_count: 0,
            event_output_count: 0,
            audio_inputs: Vec::new(),
            audio_outputs: Vec::new(),
            event_inputs: Vec::new(),
            event_outputs: Vec::new(),
            supports_processing: false,
            connected: false,
            activated: false,
            parameter_count: 0,
            parameters: Vec::new(),
            terminated_cleanly: true,
        };
        Inspection { phase: Phase::FactoryInfo, controller: ControllerKind::Unresolved, info }
    }

    /// The call that the run waits on.
    pub fn action(&self) -> (r: Action)
        ensures
            r == action_of(self@.phase),
    {
        match &self.phase {
            Phase::FactoryInfo => Action::GetFactoryInfo,
            Phase::ClassCount => Action::CountClasses,
            Phase::ClassInfo { index, .. } => Action::GetClassInfo(*index),
            Phase::CreateComponent { class_id } => Action::CreateComponent(*class_id),
            Phase::InitComponent => Action::InitializeComponent,
            Phase::CastController => Action::CastController,
            Phase::ControllerClassId => Action::GetControllerClassId,
            Phase::CreateController { class_id } => Action::CreateController(*class_id),
            Phase::InitController => Action::InitializeController,
            Phase::AbandonComponent => Action::TerminateComponent,
            Phase::ProbeConnection => Action::ProbeConnectionPoints,
            Phase::ConnectComponent => Action::ConnectComponentToController,
            Phase::ConnectController { .. } => Action::ConnectControllerToComponent,
            Phase::Activate => Action::SetComponentActive,
            Phase::BusCount { slot } => Action::GetBusCount(slot.media(), slot.direction()),
            Phase::BusInfo { slot, index, .. } => Action::GetBusInfo(
                slot.media(),
                slot.direction(),
                *index,
            ),
            Phase::ProbeProcessor => Action::ProbeAudioProcessor,
            Phase::ParameterCount => Action::GetParameterCount,
            Phase::ParameterInfo { index, .. } => Action::GetParameterInfo(*index),
            Phase::ParameterValue { parameter, .. } => Action::GetParamNormalized(parameter.id),
            Phase::TerminateController => Action::TerminateController,
            Phase::TerminateComponent => Action::TerminateComponent,
        }
    }

    /// Whether `reply` has the shape of an answer to the pending call.
    pub fn accepts(&self, reply: &Reply) -> (r: bool)
        ensures
            r == answers(self@.phase, *reply),
    {
        match &self.phase {
            Phase::FactoryInfo => matches!(reply, Reply::Factory(..)),
            Phase::ClassCount | Phase::BusCount { .. } | Phase::ParameterCount => matches!(
                reply,
                Reply::Count(..)
            ),
            Phase::ClassInfo { .. } => matches!(reply, Reply::Class(..)),
            Phase::CreateComponent { .. } | Phase::CreateController { .. } => matches!(
                reply,
                Reply::Instance(..)
            ),
            Phase::CastController | Phase::ProbeConnection | Phase::ProbeProcessor => matches!(
                reply,
                Reply::Capability(..)
            ),
            Phase::ControllerClassId => matches!(reply, Reply::ClassId(..)),
            Phase::BusInfo { .. } => matches!(reply, Reply::Bus(..)),
            Phase::ParameterInfo { .. } => matches!(reply, Reply::Parameter(..)),
            Phase::ParameterValue { .. } => matches!(reply, Reply::Value(..)),
            _ => matches!(reply, Reply::Status(..)),
        }
    }

    /// Hands the run the reply to its pending call and says where it goes.
    pub fn resume(self, reply: Reply) -> (r: Step)
        ensures
            r@ == next(self@, reply),
    {
        proof {
            use_type_invariant(&self);
            lemma_step_progress(self@, reply);
        }
        let Inspection { phase, controller, info } = self;
        match phase {
            Phase::FactoryInfo | Phase::ClassCount | Phase::ClassInfo { .. } => resume_discovery(
                phase,
                controller,
                info,
                reply,
            ),
            Phase::BusCount { .. }
            | Phase::BusInfo { .. }
            | Phase::ProbeProcessor
            | Phase::ParameterCount
            | Phase::ParameterInfo { .. }
            | Phase::ParameterValue { .. }
            | Phase::TerminateController
            | Phase::TerminateComponent => resume_query(phase, controller, info, reply),
            _ => resume_setup(phase, controller, info, reply),
        }
    }
}

fn choose_audio_class(controller: ControllerKind, info: PluginInfo) -> (r: Step)
    requires
        wf(InspectionView { phase: Phase::ClassCount, controller, info: info@ }),
    ensures
        r@ == after_classes(InspectionView { phase: Phase::ClassCount, controller, info: info@ }),
{
    proof {
        lemma_first_audio_class(info.classes@);
    }
    let mut info = info;
    match find_audio_class(&info.classes) {
        Some(k) => {
            let class_id = info.classes[k].class_id;
            info.name = info.classes[k].name.clone();
            continue_with(Phase::CreateComponent { class_id }, controller, info)
        },
        None => Step::Done(Err(InspectError::NoAudioClass)),
    }
}

fn resume_discovery(phase: Phase, controller: ControllerKind, info: PluginInfo, reply: Reply) -> (r: Step)
    requires
        wf(InspectionView { phase, controller, info: info@ }),
        phase is FactoryInfo || phase is ClassCount || phase is ClassInfo,
    ensures
        r@ == next(InspectionView { phase, controller, info: info@ }, reply),
{
    let ghost v = InspectionView { phase, controller, info: info@ };
    proof {
        lemma_step_progress(v, reply);
    }
    let ok = result_ok();
    let mut info = info;
    match (phase, reply) {
        (Phase::FactoryInfo, Reply::Factory(code, f)) => {
            if code == ok {
                info.factory = f;
                continue_with(Phase::ClassCount, controller, info)
            } else {
                Step::Done(Err(InspectError::FactoryInfoUnavailable(code)))
            }
        },
        (Phase::ClassCount, Reply::Count(n)) => {
            if n > 0 {
                continue_with(Phase::ClassInfo { index: 0, count: n }, controller, info)
            } else {
                choose_audio_class(controller, info)
            }
        },
        (Phase::ClassInfo { index, count }, Reply::Class(code, c)) => {
            if code == ok {
                info.classes.push(c);
            }
            if index + 1 < count {
                continue_with(Phase::ClassInfo { index: index + 1, count }, controller, info)
            } else {
                choose_audio_class(controller, info)
            }
        },
        (phase, _) => continue_with(phase, controller, info),
    }
}

fn resume_setup(phase: Phase, controller: ControllerKind, info: PluginInfo, reply: Reply) -> (r: Step)
    requires
        wf(InspectionView { phase, controller, info: info@ }),
        !(phase is FactoryInfo || phase is ClassCount || phase is ClassInfo || phase is BusCount
            || phase is BusInfo || phase is ProbeProcessor || phase is ParameterCount
            || phase is ParameterInfo || phase is ParameterValue || phase is TerminateController
            || phase is TerminateComponent),
    ensures
        r@ == next(InspectionView { phase, controller, info: info@ }, reply),
{
    let ghost v = InspectionView { phase, controller, info: info@ };
    proof {
        lemma_step_progress(v, reply);
    }
    let ok = result_ok();
    let mut info = info;
    match (phase, reply) {
        (Phase::CreateComponent { .. }, Reply::Instance(code, present)) => {
            if code == ok && present {
                continue_with(Phase::InitComponent, controller, info)
            } else {
                Step::Done(Err(InspectError::ComponentCreateFailed(code)))
            }
        },
        (Phase::InitComponent, Reply::Status(code)) => {
            if code == ok {
                continue_with(Phase::CastController, controller, info)
            } else {
                Step::Done(Err(InspectError::ComponentInitFailed(code)))
            }
        },
        (Phase::CastController, Reply::Capability(b)) => {
            if b {
                continue_with(Phase::ProbeConnection, ControllerKind::SameObject, info)
            } else {
                continue_with(Phase::ControllerClassId, controller, info)
            }
        },
        (Phase::ControllerClassId, Reply::ClassId(code, cid)) => {
            if code == ok {
                continue_with(Phase::CreateController { class_id: cid }, controller, info)
            } else {
                continue_with(Phase::AbandonComponent, controller, info)
            }
        },
        (Phase::CreateController { .. }, Reply::Instance(code, present)) => {
            if code == ok && present {
                continue_with(Phase::InitController, controller, info)
            } else {
                continue_with(Phase::AbandonComponent, controller, info)
            }
        },
        (Phase::InitController, Reply::Status(code)) => {
            if code == ok {
                continue_with(Phase::ProbeConnection, ControllerKind::Separate, info)
            } else {
                continue_with(Phase::AbandonComponent, controller, info)
            }
        },
        (Phase::AbandonComponent, Reply::Status(_)) => Step::Done(Err(InspectError::NoController)),
        (Phase::ProbeConnection, Reply::Capability(b)) => {
            if b {
                continue_with(Phase::ConnectComponent, controller, info)
            } else {
                continue_with(Phase::Activate, controller, info)
            }
        },
        (Phase::ConnectComponent, Reply::Status(code)) => {
            continue_with(Phase::ConnectController { first_ok: code == ok }, controller, info)
        },
        (Phase::ConnectController { first_ok }, Reply::Status(code)) => {
            info.connected = first_ok && code == ok;
            continue_with(Phase::Activate, controller, info)
        },
        (Phase::Activate, Reply::Status(code)) => {
            info.activated = code == ok;
            continue_with(Phase::BusCount { slot: BusSlot::AudioInput }, controller, info)
        },
        (phase, _) => continue_with(phase, controller, info),
    }
}

fn set_bus_count(info: &mut PluginInfo, slot: BusSlot, n: i32)
    ensures
        final(info)@ == with_bus_count(old(info)@, slot, n),
{
    match slot {
        BusSlot::AudioInput => info.audio_input_count = n,
        BusSlot::AudioOutput => info.audio_output_count = n,
        BusSlot::EventInput => info.event_input_count = n,
        BusSlot::EventOutput => info.event_output_count = n,
    }
}

fn push_bus(info: &mut PluginInfo, slot: BusSlot, bus: BusDescriptor)
    ensures
        final(info)@ == with_bus(old(info)@, slot, bus),
{
    match slot {
        BusSlot::AudioInput => info.audio_inputs.push(bus),
        BusSlot::AudioOutput => info.audio_outputs.push(bus),
        BusSlot::EventInput => info.event_inputs.push(bus),
        BusSlot::EventOutput => info.event_outputs.push(bus),
    }
}

fn resume_query(phase: Phase, controller: ControllerKind, info: PluginInfo, reply: Reply) -> (r: Step)
    requires
        wf(InspectionView { phase, controller, info: info@ }),
        phase is BusCount || phase is BusInfo || phase is ProbeProcessor || phase is ParameterCount
            || phase is ParameterInfo || phase is ParameterValue || phase is TerminateController
            || phase is TerminateComponent,
    ensures
        r@ == next(InspectionView { phase, controller, info: info@ }, reply),
{
    let ghost v = InspectionView { phase, controller, info: info@ };
    proof {
        lemma_step_progress(v, reply);
    }
    let ok = result_ok();
    let mut info = info;
    match (phase, reply) {
        (Phase::BusCount { slot }, Reply::Count(n)) => {
            set_bus_count(&mut info, slot, n);
            if n > 0 {
                continue_with(Phase::BusInfo { slot, index: 0, count: n }, controller, info)
            } else {
                match slot.following() {
                    Some(s) => continue_with(Phase::BusCount { slot: s }, controller, info),
                    None => continue_with(Phase::ProbeProcessor, controller, info),
                }
            }
        },
        (Phase::BusInfo { slot, index, count }, Reply::Bus(code, b)) => {
            if code == ok {
                push_bus(&mut info, slot, b);
            }
            if index + 1 < count {
                continue_with(Phase::BusInfo { slot, index: index + 1, count }, controller, info)
            } else {
                match slot.following() {
                    Some(s) => continue_with(Phase::BusCount { slot: s }, controller, info),
                    None => continue_with(Phase::ProbeProcessor, controller, info),
                }
            }
        },
        (Phase::ProbeProcessor, Reply::Capability(b)) => {
            info.supports_processing = b;
            continue_with(Phase::ParameterCount, controller, info)
        },
        (Phase::ParameterCount, Reply::Count(n)) => {
            info.parameter_count = n;
            if n > 0 {
                continue_with(Phase::ParameterInfo { index: 0, count: n }, controller, info)
            } else if controller == ControllerKind::Separate {
                continue_with(Phase::TerminateController, controller, info)
            } else {
                continue_with(Phase::TerminateComponent, controller, info)
            }
        },
        (Phase::ParameterInfo { index, count }, Reply::Parameter(code, p)) => {
            if code == ok {
                continue_with(Phase::ParameterValue { index, count, parameter: p }, controller, info)
            } else if index + 1 < count {
                continue_with(Phase::ParameterInfo { index: index + 1, count }, controller, info)
            } else if controller == ControllerKind::Separate {
                continue_with(Phase::TerminateController, controller, info)
            } else {
                continue_with(Phase::TerminateComponent, controller, info)
            }
        },
        (Phase::ParameterValue { index, count, parameter }, Reply::Value(bits)) => {
            let mut p = parameter;
            p.current_normalized_bits = bits;
            info.parameters.push(p);
            if index + 1 < count {
                continue_with(Phase::ParameterInfo { index: index + 1, count }, controller, info)
            } else if controller == ControllerKind::Separate {
                continue_with(Phase::TerminateController, controller, info)
            } else {
                continue_with(Phase::TerminateComponent, controller, info)
            }
        },
        (Phase::TerminateController, Reply::Status(code)) => {
            info.terminated_cleanly = code == ok;
            continue_with(Phase::TerminateComponent, controller, info)
        },
        (Phase::TerminateComponent, Reply::Status(code)) => {
            info.terminated_cleanly = info.terminated_cleanly && code == ok;
            Step::Done(Ok(info))
        },
        (phase, _) => continue_with(phase, controller, info),
    }
}

} // verus!
