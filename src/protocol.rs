//! The inspection protocol as a state machine.
//!
//! The machine never touches the plugin. Each state names one call to make
//! ([`Action`]); whoever runs the machine makes the call and hands back what it
//! returned ([`Reply`]), and the machine decides what comes next. The order it
//! follows is: describe the factory, list its classes, create and initialize
//! the component of the first audio class, acquire a controller (the component
//! itself, or a separate object created from the class id it names), connect
//! the two where both have connection points, activate the component, read the four kinds of bus and the
//! parameters, and terminate the controller and then the component.
use vstd::prelude::*;
use crate::classes::first_audio_class;
use crate::model::{
    BusDescriptor, ClassDescriptor, Direction, FactoryInfo, InspectError, MediaKind,
    ParameterDescriptor, PluginInfoView,
};

verus! {


/// A result code that reports success (`kResultOk`).
pub open spec fn succeeded(code: i32) -> bool {
    code == 0
}

/// The four kinds of bus, in the order in which they are read.
#[derive(Debug, Clone, Copy, PartialEq, Eq, Structural)]
pub enum BusSlot {
    AudioInput,
    AudioOutput,
    EventInput,
    EventOutput,
}

impl BusSlot {
    pub open spec fn rank(self) -> int {
        match self {
            BusSlot::AudioInput => 0,
            BusSlot::AudioOutput => 1,
            BusSlot::EventInput => 2,
            BusSlot::EventOutput => 3,
        }
    }

    pub open spec fn media_spec(self) -> MediaKind {
        match self {
            BusSlot::AudioInput | BusSlot::AudioOutput => MediaKind::Audio,
            _ => MediaKind::Event,
        }
    }

    pub open spec fn direction_spec(self) -> Direction {
        match self {
            BusSlot::AudioInput | BusSlot::EventInput => Direction::Input,
            _ => Direction::Output,
        }
    }

    /// The kind read after this one, if any.
    pub open spec fn following_spec(self) -> Option<BusSlot> {
        match self {
            BusSlot::AudioInput => Some(BusSlot::AudioOutput),
            BusSlot::AudioOutput => Some(BusSlot::EventInput),
            BusSlot::EventInput => Some(BusSlot::EventOutput),
            BusSlot::EventOutput => None,
        }
    }

    #[verifier::when_used_as_spec(media_spec)]
    pub fn media(self) -> (r: MediaKind)
        ensures
            r == self.media_spec(),
    {
        match self {
            BusSlot::AudioInput | BusSlot::AudioOutput => MediaKind::Audio,
            _ => MediaKind::Event,
        }
    }

    #[verifier::when_used_as_spec(direction_spec)]
    pub fn direction(self) -> (r: Direction)
        ensures
            r == self.direction_spec(),
    {
        match self {
            BusSlot::AudioInput | BusSlot::EventInput => Direction::Input,
            _ => Direction::Output,
        }
    }

    #[verifier::when_used_as_spec(following_spec)]
    pub fn following(self) -> (r: Option<BusSlot>)
        ensures
            r == self.following_spec(),
    {
        match self {
            BusSlot::AudioInput => Some(BusSlot::AudioOutput),
            BusSlot::AudioOutput => Some(BusSlot::EventInput),
            BusSlot::EventInput => Some(BusSlot::EventOutput),
            BusSlot::EventOutput => None,
        }
    }
}

/// How the controller was resolved: not yet, as the component itself, or as a
/// separate object that was created and initialized.
#[derive(Debug, Clone, Copy, PartialEq, Eq, Structural)]
pub enum ControllerKind {
    Unresolved,
    SameObject,
    Separate,
}

/// Where the run stands: each state waits for the reply to one call.
#[derive(Debug)]
pub enum Phase {
    FactoryInfo,
    ClassCount,
    ClassInfo { index: i32, count: i32 },
    CreateComponent { class_id: [u8; 16] },
    InitComponent,
    CastController,
    ControllerClassId,
    CreateController { class_id: [u8; 16] },
    InitController,
    /// No controller could be had: the component is terminated before the run fails.
    AbandonComponent,
    ProbeConnection,
    ConnectComponent,
    ConnectController { first_ok: bool },
    Activate,
    BusCount { slot: BusSlot },
    BusInfo { slot: BusSlot, index: i32, count: i32 },
    ProbeProcessor,
    ParameterCount,
    ParameterInfo { index: i32, count: i32 },
    ParameterValue { index: i32, count: i32, parameter: ParameterDescriptor },
    TerminateController,
    TerminateComponent,
}

/// The call that the runner makes next.
#[derive(Debug, Clone, Copy)]
pub enum Action {
    /// Ask the factory to describe itself.
    GetFactoryInfo,
    /// Ask the factory how many classes it has.
    CountClasses,
    /// Ask the factory to describe the class at this index.
    GetClassInfo(i32),
    /// Create the component of this class.
    CreateComponent([u8; 16]),
    /// Initialize the component, handing it the host callback object.
    InitializeComponent,
    /// Cast the component to the controller interface.
    CastController,
    /// Ask the component for the class id of its separate controller.
    GetControllerClassId,
    /// Create the controller of this class.
    CreateController([u8; 16]),
    /// Initialize the separate controller, with no host object.
    InitializeController,
    /// Ask whether both the component and the controller have connection points.
    ProbeConnectionPoints,
    /// Connect the component's connection point to the controller's.
    ConnectComponentToController,
    /// Connect the controller's connection point to the component's.
    ConnectControllerToComponent,
    /// Set the component active.
    SetComponentActive,
    /// Ask the component how many buses of this kind it has.
    GetBusCount(MediaKind, Direction),
    /// Ask the component to describe the bus of this kind at this index.
    GetBusInfo(MediaKind, Direction, i32),
    /// Ask whether the component has the audio-processor interface.
    ProbeAudioProcessor,
    /// Ask the controller how many parameters it has.
    GetParameterCount,
    /// Ask the controller to describe the parameter at this index.
    GetParameterInfo(i32),
    /// Ask the controller for the normalized value of the parameter with this id.
    GetParamNormalized(u32),
    /// Terminate the separate controller.
    TerminateController,
    /// Terminate the component.
    TerminateComponent,
}

/// What a call returned.
#[derive(Debug)]
pub enum Reply {
    /// The result code of a call that returns nothing else.
    Status(i32),
    /// The result code of a creation, and whether an object came back.
    Instance(i32, bool),
    /// A count.
    Count(i32),
    /// Whether an interface is there.
    Capability(bool),
    Factory(i32, FactoryInfo),
    Class(i32, ClassDescriptor),
    ClassId(i32, [u8; 16]),
    Bus(i32, BusDescriptor),
    Parameter(i32, ParameterDescriptor),
    /// A normalized value, as the bit pattern of a 64-bit float.
    Value(u64),
}

/// The call that a state waits on.
pub open spec fn action_of(p: Phase) -> Action {
    match p {
        Phase::FactoryInfo => Action::GetFactoryInfo,
        Phase::ClassCount => Action::CountClasses,
        Phase::ClassInfo { index, .. } => Action::GetClassInfo(index),
        Phase::CreateComponent { class_id } => Action::CreateComponent(class_id),
        Phase::InitComponent => Action::InitializeComponent,
        Phase::CastController => Action::CastController,
        Phase::ControllerClassId => Action::GetControllerClassId,
        Phase::CreateController { class_id } => Action::CreateController(class_id),
        Phase::InitController => Action::InitializeController,
        Phase::AbandonComponent => Action::TerminateComponent,
        Phase::ProbeConnection => Action::ProbeConnectionPoints,
        Phase::ConnectComponent => Action::ConnectComponentToController,
        Phase::ConnectController { .. } => Action::ConnectControllerToComponent,
        Phase::Activate => Action::SetComponentActive,
        Phase::BusCount { slot } => Action::GetBusCount(slot.media(), slot.direction()),
        Phase::BusInfo { slot, index, .. } => Action::GetBusInfo(slot.media(), slot.direction(), index),
        Phase::ProbeProcessor => Action::ProbeAudioProcessor,
        Phase::ParameterCount => Action::GetParameterCount,
        Phase::ParameterInfo { index, .. } => Action::GetParameterInfo(index),
        Phase::ParameterValue { parameter, .. } => Action::GetParamNormalized(parameter.id),
        Phase::TerminateController => Action::TerminateController,
        Phase::TerminateComponent => Action::TerminateComponent,
    }
}

/// The reply has the shape of an answer to the call that the state waits on.
pub open spec fn answers(p: Phase, r: Reply) -> bool {
    match p {
        Phase::FactoryInfo => r is Factory,
        Phase::ClassCount | Phase::BusCount { .. } | Phase::ParameterCount => r is Count,
        Phase::ClassInfo { .. } => r is Class,
        Phase::CreateComponent { .. } | Phase::CreateController { .. } => r is Instance,
        Phase::CastController | Phase::ProbeConnection | Phase::ProbeProcessor => r is Capability,
        Phase::ControllerClassId => r is ClassId,
        Phase::BusInfo { .. } => r is Bus,
        Phase::ParameterInfo { .. } => r is Parameter,
        Phase::ParameterValue { .. } => r is Value,
        _ => r is Status,
    }
}

/// The value of an [`Inspection`].
pub struct InspectionView {
    pub phase: Phase,
    pub controller: ControllerKind,
    pub info: PluginInfoView,
}

/// The value of a [`Step`].
pub enum StepView {
    Continue(InspectionView),
    Done(Result<PluginInfoView, InspectError>),
}

pub open spec fn bus_list(info: PluginInfoView, slot: BusSlot) -> Seq<BusDescriptor> {
    match slot {
        BusSlot::AudioInput => info.audio_inputs,
        BusSlot::AudioOutput => info.audio_outputs,
        BusSlot::EventInput => info.event_inputs,
        BusSlot::EventOutput => info.event_outputs,
    }
}

pub open spec fn bus_count(info: PluginInfoView, slot: BusSlot) -> i32 {
    match slot {
        BusSlot::AudioInput => info.audio_input_count,
        BusSlot::AudioOutput => info.audio_output_count,
        BusSlot::EventInput => info.event_input_count,
        BusSlot::EventOutput => info.event_output_count,
    }
}

/// `info` with `bus` added to the list of its kind.
pub open spec fn with_bus(info: PluginInfoView, slot: BusSlot, bus: BusDescriptor) -> PluginInfoView {
    match slot {
        BusSlot::AudioInput => PluginInfoView { audio_inputs: info.audio_inputs.push(bus), ..info },
        BusSlot::AudioOutput => PluginInfoView { audio_outputs: info.audio_outputs.push(bus), ..info },
        BusSlot::EventInput => PluginInfoView { event_inputs: info.event_inputs.push(bus), ..info },
        BusSlot::EventOutput => PluginInfoView { event_outputs: info.event_outputs.push(bus), ..info },
    }
}

/// `info` with the reported number of buses of one kind.
pub open spec fn with_bus_count(info: PluginInfoView, slot: BusSlot, n: i32) -> PluginInfoView {
    match slot {
        BusSlot::AudioInput => PluginInfoView { audio_input_count: n, ..info },
        BusSlot::AudioOutput => PluginInfoView { audio_output_count: n, ..info },
        BusSlot::EventInput => PluginInfoView { event_input_count: n, ..info },
        BusSlot::EventOutput => PluginInfoView { event_output_count: n, ..info },
    }
}

pub open spec fn goto(v: InspectionView, p: Phase) -> StepView {
    StepView::Continue(InspectionView { phase: p, ..v })
}

/// After the last class: the first audio class is created, or the run fails.
pub open spec fn after_classes(v: InspectionView) -> StepView {
    match first_audio_class(v.info.classes) {
        Some(k) => StepView::Continue(
            InspectionView {
                phase: Phase::CreateComponent { class_id: v.info.classes[k].class_id },
                info: PluginInfoView { name: v.info.classes[k].name, ..v.info },
                ..v
            },
        ),
        None => StepView::Done(Err(InspectError::NoAudioClass)),
    }
}

/// After the last bus of a kind: the next kind, or the processor probe.
pub open spec fn after_buses(v: InspectionView, slot: BusSlot) -> StepView {
    match slot.following() {
        Some(s) => goto(v, Phase::BusCount { slot: s }),
        None => goto(v, Phase::ProbeProcessor),
    }
}

/// After the last parameter: teardown, starting with a separate controller.
pub open spec fn after_parameters(v: InspectionView) -> StepView {
    if v.controller == ControllerKind::Separate {
        goto(v, Phase::TerminateController)
    } else {
        goto(v, Phase::TerminateComponent)
    }
}

/// After the parameter at `index`: the next one, or teardown.
pub open spec fn after_parameter(v: InspectionView, index: i32, count: i32) -> StepView {
    if index + 1 < count {
        goto(v, Phase::ParameterInfo { index: (index + 1) as i32, count })
    } else {
        after_parameters(v)
    }
}

/// The steps that gather the factory's description and classes.
pub open spec fn next_discovery(v: InspectionView, r: Reply) -> StepView {
    match (v.phase, r) {
        (Phase::FactoryInfo, Reply::Factory(code, f)) => if succeeded(code) {
            StepView::Continue(
                InspectionView {
                    phase: Phase::ClassCount,
                    info: PluginInfoView { factory: f, ..v.info },
                    ..v
                },
            )
        } else {
            StepView::Done(Err(InspectError::FactoryInfoUnavailable(code)))
        },
        (Phase::ClassCount, Reply::Count(n)) => if n > 0 {
            goto(v, Phase::ClassInfo { index: 0, count: n })
        } else {
            after_classes(v)
        },
        (Phase::ClassInfo { index, count }, Reply::Class(code, c)) => {
            let w = if succeeded(code) {
                InspectionView { info: PluginInfoView { classes: v.info.classes.push(c), ..v.info }, ..v }
            } else {
                v
            };
            if index + 1 < count {
                goto(w, Phase::ClassInfo { index: (index + 1) as i32, count })
            } else {
                after_classes(w)
            }
        },
        _ => StepView::Continue(v),
    }
}

/// The steps that create and initialize the component and its controller.
pub open spec fn next_setup(v: InspectionView, r: Reply) -> StepView {
    match (v.phase, r) {
        (Phase::CreateComponent { .. }, Reply::Instance(code, present)) => if succeeded(code)
            && present {
            goto(v, Phase::InitComponent)
        } else {
            StepView::Done(Err(InspectError::ComponentCreateFailed(code)))
        },
        (Phase::InitComponent, Reply::Status(code)) => if succeeded(code) {
            goto(v, Phase::CastController)
        } else {
            StepView::Done(Err(InspectError::ComponentInitFailed(code)))
        },
        (Phase::CastController, Reply::Capability(b)) => if b {
            StepView::Continue(
                InspectionView {
                    phase: Phase::ProbeConnection,
                    controller: ControllerKind::SameObject,
                    ..v
                },
            )
        } else {
            goto(v, Phase::ControllerClassId)
        },
        (Phase::ControllerClassId, Reply::ClassId(code, cid)) => if succeeded(code) {
            goto(v, Phase::CreateController { class_id: cid })
        } else {
            goto(v, Phase::AbandonComponent)
        },
        (Phase::CreateController { .. }, Reply::Instance(code, present)) => if succeeded(code)
            && present {
            goto(v, Phase::InitController)
        } else {
            goto(v, Phase::AbandonComponent)
        },
        (Phase::InitController, Reply::Status(code)) => if succeeded(code) {
            StepView::Continue(
                InspectionView {
                    phase: Phase::ProbeConnection,
                    controller: ControllerKind::Separate,
                    ..v
                },
            )
        } else {
            goto(v, Phase::AbandonComponent)
        },
        (Phase::AbandonComponent, Reply::Status(_)) => StepView::Done(
            Err(InspectError::NoController),
        ),
        (Phase::ProbeConnection, Reply::Capability(b)) => if b {
            goto(v, Phase::ConnectComponent)
        } else {
            goto(v, Phase::Activate)
        },
        (Phase::ConnectComponent, Reply::Status(code)) => goto(
            v,
            Phase::ConnectController { first_ok: succeeded(code) },
        ),
        (Phase::ConnectController { first_ok }, Reply::Status(code)) => StepView::Continue(
            InspectionView {
                phase: Phase::Activate,
                info: PluginInfoView { connected: first_ok && succeeded(code), ..v.info },
                ..v
            },
        ),
        (Phase::Activate, Reply::Status(code)) => StepView::Continue(
            InspectionView {
                phase: Phase::BusCount { slot: BusSlot::AudioInput },
                info: PluginInfoView { activated: succeeded(code), ..v.info },
                ..v
            },
        ),
        _ => StepView::Continue(v),
    }
}

/// The steps that read the buses and parameters, and tear down.
pub open spec fn next_query(v: InspectionView, r: Reply) -> StepView {
    match (v.phase, r) {
        (Phase::BusCount { slot }, Reply::Count(n)) => {
            let w = InspectionView { info: with_bus_count(v.info, slot, n), ..v };
            if n > 0 {
                goto(w, Phase::BusInfo { slot, index: 0, count: n })
            } else {
                after_buses(w, slot)
            }
        },
        (Phase::BusInfo { slot, index, count }, Reply::Bus(code, b)) => {
            let w = if succeeded(code) {
                InspectionView { info: with_bus(v.info, slot, b), ..v }
            } else {
                v
            };
            if index + 1 < count {
                goto(w, Phase::BusInfo { slot, index: (index + 1) as i32, count })
            } else {
                after_buses(w, slot)
            }
        },
        (Phase::ProbeProcessor, Reply::Capability(b)) => StepView::Continue(
            InspectionView {
                phase: Phase::ParameterCount,
                info: PluginInfoView { supports_processing: b, ..v.info },
                ..v
            },
        ),
        (Phase::ParameterCount, Reply::Count(n)) => {
            let w = InspectionView { info: PluginInfoView { parameter_count: n, ..v.info }, ..v };
            if n > 0 {
                goto(w, Phase::ParameterInfo { index: 0, count: n })
            } else {
                after_parameters(w)
            }
        },
        (Phase::ParameterInfo { index, count }, Reply::Parameter(code, p)) => if succeeded(code) {
            goto(v, Phase::ParameterValue { index, count, parameter: p })
        } else {
            after_parameter(v, index, count)
        },
        (Phase::ParameterValue { index, count, parameter }, Reply::Value(bits)) => {
            let p = ParameterDescriptor { current_normalized_bits: bits, ..parameter };
            let w = InspectionView {
                info: PluginInfoView { parameters: v.info.parameters.push(p), ..v.info },
                ..v
            };
            after_parameter(w, index, count)
        },
        (Phase::TerminateController, Reply::Status(code)) => StepView::Continue(
            InspectionView {
                phase: Phase::TerminateComponent,
                info: PluginInfoView { terminated_cleanly: succeeded(code), ..v.info },
                ..v
            },
        ),
        (Phase::TerminateComponent, Reply::Status(code)) => StepView::Done(
            Ok(
                PluginInfoView {
                    terminated_cleanly: v.info.terminated_cleanly && succeeded(code),
                    ..v.info
                },
            ),
        ),
        _ => StepView::Continue(v),
    }
}

/// What the run does with a reply. A reply that does not answer the pending
/// call leaves the run as it was.
pub open spec fn next(v: InspectionView, r: Reply) -> StepView {
    match v.phase {
        Phase::FactoryInfo | Phase::ClassCount | Phase::ClassInfo { .. } => next_discovery(v, r),
        Phase::BusCount { .. } | Phase::BusInfo { .. } | Phase::ProbeProcessor
        | Phase::ParameterCount | Phase::ParameterInfo { .. } | Phase::ParameterValue { .. }
        | Phase::TerminateController | Phase::TerminateComponent => next_query(v, r),
        _ => next_setup(v, r),
    }
}

} // verus!
