use vst3info::inspection::{Inspection, Step};
use vst3info::protocol::{Action, Reply};
use vst3info::model::{
    BusDescriptor, ClassDescriptor, Direction, FactoryInfo, InspectError, MediaKind,
    ParameterDescriptor, PluginInfo,
};
use vst3info::record::summarize;

const OK: i32 = 0;
const FALSE: i32 = 1;

fn narrow(s: &str) -> Vec<u8> {
    let mut v: Vec<u8> = s.bytes().collect();
    v.push(0);
    v
}

fn wide(s: &str) -> Vec<u16> {
    let mut v: Vec<u16> = s.encode_utf16().collect();
    v.push(0);
    v
}

/// A plugin that answers each call from a script.
struct FakePlugin {
    classes: Vec<(&'static str, &'static str, u8)>,
    failing_classes: Vec<i32>,
    component_init: i32,
    same_object: bool,
    controller_class_id: i32,
    controller_init: i32,
    connection_points: bool,
    bus_counts: [i32; 4],
    failing_buses: Vec<(MediaKind, Direction, i32)>,
    parameters: Vec<&'static str>,
    failing_parameters: Vec<i32>,
}

impl FakePlugin {
    fn simple() -> FakePlugin {
        FakePlugin {
            classes: vec![("Synth", "Audio Module Class", 7)],
            failing_classes: vec![],
            component_init: OK,
            same_object: false,
            controller_class_id: OK,
            controller_init: OK,
            connection_points: true,
            bus_counts: [1, 1, 0, 0],
            failing_buses: vec![],
            parameters: vec!["Gain"],
            failing_parameters: vec![],
        }
    }

    fn slot(m: MediaKind, d: Direction) -> usize {
        match (m, d) {
            (MediaKind::Audio, Direction::Input) => 0,
            (MediaKind::Audio, Direction::Output) => 1,
            (MediaKind::Event, Direction::Input) => 2,
            (MediaKind::Event, Direction::Output) => 3,
        }
    }

    fn reply(&self, action: &Action) -> Reply {
        match *action {
            Action::GetFactoryInfo => Reply::Factory(
                OK,
                FactoryInfo::from_raw(&narrow("Acme"), &narrow("https://acme.test"), &narrow("info@acme.test"), 16),
            ),
            Action::CountClasses => Reply::Count(self.classes.len() as i32),
            Action::GetClassInfo(i) => {
                let (name, category, id) = self.classes[i as usize];
                let code = if self.failing_classes.contains(&i) { FALSE } else { OK };
                Reply::Class(code, ClassDescriptor::from_raw([id; 16], 1, &narrow(category), &narrow(name)))
            }
            Action::CreateComponent(_) => Reply::Instance(OK, true),
            Action::InitializeComponent => Reply::Status(self.component_init),
            Action::CastController => Reply::Capability(self.same_object),
            Action::GetControllerClassId => Reply::ClassId(self.controller_class_id, [42; 16]),
            Action::CreateController(_) => Reply::Instance(OK, true),
            Action::InitializeController => Reply::Status(self.controller_init),
            Action::ProbeConnectionPoints => Reply::Capability(self.connection_points),
            Action::ConnectComponentToController => Reply::Status(OK),
            Action::ConnectControllerToComponent => Reply::Status(OK),
            Action::SetComponentActive => Reply::Status(OK),
            Action::GetBusCount(m, d) => Reply::Count(self.bus_counts[FakePlugin::slot(m, d)]),
            Action::GetBusInfo(m, d, i) => {
                let code = if self.failing_buses.contains(&(m, d, i)) { FALSE } else { OK };
                let name = format!("Bus {}", i);
                Reply::Bus(code, BusDescriptor::from_raw(m, d, &wide(&name), 0, 1, 2))
            }
            Action::ProbeAudioProcessor => Reply::Capability(true),
            Action::GetParameterCount => Reply::Count(self.parameters.len() as i32),
            Action::GetParameterInfo(i) => {
                let code = if self.failing_parameters.contains(&i) { FALSE } else { OK };
                let title = self.parameters[i as usize];
                Reply::Parameter(
                    code,
                    ParameterDescriptor::from_raw(
                        100 + i as u32,
                        &wide(title),
                        &wide(title),
                        &wide("dB"),
                        0,
                        0.25f64.to_bits(),
                        0,
                        1,
                    ),
                )
            }
            Action::GetParamNormalized(_) => Reply::Value(0.5f64.to_bits()),
            Action::TerminateController => Reply::Status(OK),
            Action::TerminateComponent => Reply::Status(OK),
        }
    }
}

fn run(plugin: &FakePlugin) -> (Vec<Action>, Result<PluginInfo, InspectError>) {
    let mut actions = Vec::new();
    let mut run = Inspection::start();
    for _ in 0..10_000 {
        let action = run.action();
        actions.push(action);
        let reply = plugin.reply(&action);
        assert!(run.accepts(&reply));
        match run.resume(reply) {
            Step::Continue(next) => run = next,
            Step::Done(result) => return (actions, result),
        }
    }
    panic!("the run did not end");
}

fn count(actions: &[Action], pred: fn(&Action) -> bool) -> usize {
    actions.iter().filter(|a| pred(a)).count()
}

#[test]
fn audio_class_after_another_class_is_chosen() {
    let mut plugin = FakePlugin::simple();
    plugin.classes = vec![("Editor", "Some Other Class", 1), ("Synth", "Audio Module Class", 2)];
    let (actions, result) = run(&plugin);
    assert!(actions.iter().any(|a| matches!(a, Action::CreateComponent(id) if *id == [2u8; 16])));
    assert!(!actions.iter().any(|a| matches!(a, Action::CreateComponent(id) if *id == [1u8; 16])));
    let info = result.unwrap();
    assert_eq!(info.name, "Synth");
    assert_eq!(info.classes.len(), 2);
    assert_eq!(info.classes[0].category, "Some Other Class");
}

#[test]
fn failed_audio_input_query_shortens_the_list() {
    let mut plugin = FakePlugin::simple();
    plugin.bus_counts = [2, 1, 0, 0];
    plugin.failing_buses = vec![(MediaKind::Audio, Direction::Input, 1)];
    let (_, result) = run(&plugin);
    let info = result.unwrap();
    assert_eq!(info.audio_input_count, 2);
    assert_eq!(info.audio_inputs.len(), 1);
    assert_eq!(info.audio_inputs[0].name, "Bus 0");
    assert_eq!(info.audio_outputs.len(), 1);
}

#[test]
fn missing_controller_terminates_component_once() {
    let mut plugin = FakePlugin::simple();
    plugin.same_object = false;
    plugin.controller_class_id = FALSE;
    let (actions, result) = run(&plugin);
    assert_eq!(result.unwrap_err(), InspectError::NoController);
    assert_eq!(count(&actions, |a| matches!(a, Action::TerminateComponent)), 1);
    assert!(matches!(actions.last(), Some(Action::TerminateComponent)));
    assert_eq!(count(&actions, |a| matches!(a, Action::TerminateController)), 0);
    assert_eq!(count(&actions, |a| matches!(a, Action::CreateController(_))), 0);
}

#[test]
fn controller_init_failure_is_no_controller() {
    let mut plugin = FakePlugin::simple();
    plugin.controller_init = FALSE;
    let (actions, result) = run(&plugin);
    assert_eq!(result.unwrap_err(), InspectError::NoController);
    assert_eq!(count(&actions, |a| matches!(a, Action::TerminateComponent)), 1);
    assert_eq!(count(&actions, |a| matches!(a, Action::TerminateController)), 0);
}

#[test]
fn component_init_failure_never_terminates() {
    let mut plugin = FakePlugin::simple();
    plugin.component_init = FALSE;
    let (actions, result) = run(&plugin);
    assert_eq!(result.unwrap_err(), InspectError::ComponentInitFailed(FALSE));
    assert_eq!(count(&actions, |a| matches!(a, Action::TerminateController)), 0);
    assert_eq!(count(&actions, |a| matches!(a, Action::TerminateComponent)), 0);
    assert!(matches!(actions.last(), Some(Action::InitializeComponent)));
}

#[test]
fn separate_controller_terminates_before_component() {
    let plugin = FakePlugin::simple();
    let (actions, result) = run(&plugin);
    let info = result.unwrap();
    let n = actions.len();
    assert!(matches!(actions[n - 2], Action::TerminateController));
    assert!(matches!(actions[n - 1], Action::TerminateComponent));
    assert_eq!(count(&actions, |a| matches!(a, Action::TerminateController)), 1);
    assert!(info.connected);
    assert!(info.activated);
    assert!(info.terminated_cleanly);
}

#[test]
fn combined_object_terminates_once_and_is_connected() {
    let mut plugin = FakePlugin::simple();
    plugin.same_object = true;
    let (actions, result) = run(&plugin);
    let info = result.unwrap();
    assert_eq!(count(&actions, |a| matches!(a, Action::TerminateController)), 0);
    assert_eq!(count(&actions, |a| matches!(a, Action::TerminateComponent)), 1);
    assert_eq!(count(&actions, |a| matches!(a, Action::GetControllerClassId)), 0);
    assert_eq!(count(&actions, |a| matches!(a, Action::ProbeConnectionPoints)), 1);
    assert_eq!(count(&actions, |a| matches!(a, Action::ConnectComponentToController)), 1);
    assert_eq!(count(&actions, |a| matches!(a, Action::ConnectControllerToComponent)), 1);
    assert!(info.connected);
}

#[test]
fn combined_object_without_connection_points_is_not_connected() {
    let mut plugin = FakePlugin::simple();
    plugin.same_object = true;
    plugin.connection_points = false;
    let (actions, result) = run(&plugin);
    let info = result.unwrap();
    assert_eq!(count(&actions, |a| matches!(a, Action::ConnectComponentToController)), 0);
    assert!(!info.connected);
    assert_eq!(info.parameters.len(), 1);
}

#[test]
fn no_connection_points_is_not_fatal() {
    let mut plugin = FakePlugin::simple();
    plugin.connection_points = false;
    let (actions, result) = run(&plugin);
    let info = result.unwrap();
    assert!(!info.connected);
    assert_eq!(count(&actions, |a| matches!(a, Action::ConnectComponentToController)), 0);
    assert_eq!(info.parameters.len(), 1);
}

#[test]
fn no_audio_class_fails() {
    let mut plugin = FakePlugin::simple();
    plugin.classes = vec![("Editor", "Component Controller Class", 1)];
    let (actions, result) = run(&plugin);
    assert_eq!(result.unwrap_err(), InspectError::NoAudioClass);
    assert_eq!(count(&actions, |a| matches!(a, Action::CreateComponent(_))), 0);
}

#[test]
fn failed_class_query_is_skipped() {
    let mut plugin = FakePlugin::simple();
    plugin.classes = vec![("Synth", "Audio Module Class", 3), ("Other", "Audio Module Class", 4)];
    plugin.failing_classes = vec![0];
    let (actions, result) = run(&plugin);
    let info = result.unwrap();
    assert_eq!(info.classes.len(), 1);
    assert_eq!(info.name, "Other");
    assert!(actions.iter().any(|a| matches!(a, Action::CreateComponent(id) if *id == [4u8; 16])));
}

#[test]
fn failed_parameter_query_is_skipped() {
    let mut plugin = FakePlugin::simple();
    plugin.parameters = vec!["Gain", "Pan", "Mix"];
    plugin.failing_parameters = vec![1];
    let (actions, result) = run(&plugin);
    let info = result.unwrap();
    assert_eq!(info.parameter_count, 3);
    assert_eq!(info.parameters.len(), 2);
    assert_eq!(info.parameters[0].title, "Gain");
    assert_eq!(info.parameters[1].title, "Mix");
    assert_eq!(info.parameters[1].id, 102);
    assert_eq!(info.parameters[1].current_normalized_bits, 0.5f64.to_bits());
    assert_eq!(info.parameters[1].default_normalized_bits, 0.25f64.to_bits());
    assert_eq!(info.parameters[1].units, "dB");
    assert_eq!(count(&actions, |a| matches!(a, Action::GetParamNormalized(_))), 2);
}

#[test]
fn negative_counts_end_with_empty_lists() {
    let mut plugin = FakePlugin::simple();
    plugin.bus_counts = [-3, -1, 0, -7];
    let (_, result) = run(&plugin);
    let info = result.unwrap();
    assert!(info.audio_inputs.is_empty());
    assert!(info.audio_outputs.is_empty());
    let summary = summarize(info);
    assert_eq!(summary.input_count, 0);
    assert_eq!(summary.output_count, 0);
    assert!(summary.parameter_count >= 0);
}

#[test]
fn bus_lists_by_kind() {
    let mut plugin = FakePlugin::simple();
    plugin.bus_counts = [1, 2, 3, 1];
    let (_, result) = run(&plugin);
    let info = result.unwrap();
    assert_eq!(info.audio_inputs.len(), 1);
    assert_eq!(info.audio_outputs.len(), 2);
    assert_eq!(info.event_inputs.len(), 3);
    assert_eq!(info.event_outputs.len(), 1);
    assert_eq!(info.event_inputs[2].media, MediaKind::Event);
    assert_eq!(info.event_inputs[2].direction, Direction::Input);
    assert_eq!(info.audio_outputs[1].channel_count, 2);
    assert!(info.supports_processing);
    let summary = summarize(info);
    assert_eq!(summary.input_count, 4);
    assert_eq!(summary.output_count, 3);
    assert_eq!(summary.audio_inputs.len(), 1);
    assert_eq!(summary.audio_outputs.len(), 2);
    assert_eq!(summary.event_inputs.len(), 3);
    assert_eq!(summary.event_outputs.len(), 1);
    assert_eq!(summary.event_inputs[2].name, "Bus 2");
}

#[test]
fn factory_info_failure_ends_the_run() {
    let run = Inspection::start();
    match run.resume(Reply::Factory(FALSE, FactoryInfo::unknown())) {
        Step::Done(Err(e)) => assert_eq!(e, InspectError::FactoryInfoUnavailable(FALSE)),
        _ => panic!("expected the run to fail"),
    }
}

#[test]
fn component_creation_failure_ends_the_run() {
    let mut run = Inspection::start();
    let replies = vec![
        Reply::Factory(OK, FactoryInfo::unknown()),
        Reply::Count(1),
        Reply::Class(OK, ClassDescriptor::from_raw([5; 16], 1, &narrow("Audio Module Class"), &narrow("X"))),
    ];
    for reply in replies {
        run = match run.resume(reply) {
            Step::Continue(next) => next,
            Step::Done(_) => panic!("ended too early"),
        };
    }
    assert!(matches!(run.action(), Action::CreateComponent(id) if id == [5u8; 16]));
    match run.resume(Reply::Instance(OK, false)) {
        Step::Done(Err(e)) => assert_eq!(e, InspectError::ComponentCreateFailed(OK)),
        _ => panic!("expected the run to fail"),
    }
}

#[test]
fn mismatched_reply_leaves_the_run_alone() {
    let run = Inspection::start();
    assert!(!run.accepts(&Reply::Count(3)));
    let run = match run.resume(Reply::Count(3)) {
        Step::Continue(next) => next,
        Step::Done(_) => panic!("a mismatched reply ended the run"),
    };
    assert!(matches!(run.action(), Action::GetFactoryInfo));
}

#[test]
fn factory_description_is_kept() {
    let plugin = FakePlugin::simple();
    let (_, result) = run(&plugin);
    let info = result.unwrap();
    assert_eq!(info.factory.vendor, "Acme");
    assert_eq!(info.factory.url, "https://acme.test");
    assert_eq!(info.factory.flags, 16);
    assert_eq!(info.version, "1.0.0");
    let summary = summarize(info);
    assert_eq!(summary.vendor, "Acme");
    assert_eq!(summary.name, "Synth");
    assert_eq!(summary.classes.len(), 1);
    assert_eq!(summary.classes[0].category, "Audio Module Class");
    assert_eq!(summary.parameters.len(), 1);
    assert_eq!(summary.parameters[0].title, "Gain");
}
