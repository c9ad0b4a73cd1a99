use vst3info::model::ParameterDescriptor;
use vst3info::record::{list_parameters, parameter_is_listed};

fn wide(s: &str) -> Vec<u16> {
    let mut v: Vec<u16> = s.encode_utf16().collect();
    v.push(0);
    v
}

fn param(id: u32, title: &str, steps: i32) -> ParameterDescriptor {
    ParameterDescriptor::from_raw(id, &wide(title), &wide(title), &wide(""), steps, 0, 0, 0)
}

#[test]
fn filter_drops_midi_cc_and_empty_titles() {
    let ps = vec![
        param(1, "Gain", 0),
        param(2, "MIDI CC 74", 0),
        param(3, "", 0),
        param(4, "Cutoff", 10),
        param(5, "CC 1", 0),
        param(6, "Midinote", 0),
        param(7, "Accent", 0),
    ];
    let listed = list_parameters(&ps);
    let titles: Vec<&str> = listed.iter().map(|p| p.title.as_str()).collect();
    assert_eq!(titles, vec!["Gain", "Cutoff", "Accent"]);
    let indices: Vec<usize> = listed.iter().map(|p| p.index).collect();
    assert_eq!(indices, vec![0, 3, 6]);
    assert_eq!(listed[1].id, 4);
    assert_eq!(listed[1].step_count, 10);
}

#[test]
fn filter_lowercases_before_matching() {
    assert!(!parameter_is_listed(&param(1, "MiDi Channel", 0)));
    assert!(!parameter_is_listed(&param(1, "Mod Cc 12", 0)));
    assert!(parameter_is_listed(&param(1, "Occupancy", 0)));
    assert!(parameter_is_listed(&param(1, "CC", 0)));
    assert!(!parameter_is_listed(&param(1, "", 0)));
}

#[test]
fn filter_of_no_parameters_is_empty() {
    assert!(list_parameters(&Vec::new()).is_empty());
}
