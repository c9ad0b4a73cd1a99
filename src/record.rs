//! The record handed to a serializer: the plugin's identity, its bus counts,
//! and the parameters worth listing.
use vstd::prelude::*;
use crate::model::{clamp, BusDescriptor, ClassDescriptor, ParameterDescriptor, PluginInfo};
use crate::text::{chars_of, contains_chars, contains_seq, lowercase, lowercase_of};

verus! {

/// Titles whose lower-cased form holds this are MIDI controller stand-ins.
pub open spec fn midi_marker() -> Seq<char> {
    "midi"@
}

/// Titles whose lower-cased form holds this are numbered MIDI controllers.
pub open spec fn cc_marker() -> Seq<char> {
    "cc "@
}

/// A parameter is listed when its title is not empty and its lower-cased
/// title holds neither marker.
pub open spec fn is_listed(p: ParameterDescriptor) -> bool {
    &&& p.title@.len() > 0
    &&& !contains_seq(lowercase_of(p.title@), midi_marker())
    &&& !contains_seq(lowercase_of(p.title@), cc_marker())
}

/// One listed parameter, with its index among all the plugin's parameters.
#[derive(Debug)]
pub struct ListedParameter {
    pub id: u32,
    pub index: usize,
    pub title: String,
    pub step_count: i32,
}

/// The listed parameters among the first `n`, in order.
pub open spec fn listed_prefix(ps: Seq<ParameterDescriptor>, n: int) -> Seq<ListedParameter>
    decreases n,
{
    if n <= 0 {
        Seq::empty()
    } else {
        let rest = listed_prefix(ps, n - 1);
        let p = ps[n - 1];
        if is_listed(p) {
            rest.push(
                ListedParameter { id: p.id, index: (n - 1) as usize, title: p.title, step_count: p.step_count },
            )
        } else {
            rest
        }
    }
}

/// The listed parameters, in order.
pub open spec fn listed(ps: Seq<ParameterDescriptor>) -> Seq<ListedParameter> {
    listed_prefix(ps, ps.len() as int)
}

/// What is serialized of an inspection.
#[derive(Debug)]
pub struct Summary {
    pub name: String,
    pub vendor: String,
    pub version: String,
    pub parameter_count: i64,
    pub input_count: i64,
    pub output_count: i64,
    pub classes: Vec<ClassDescriptor>,
    pub audio_inputs: Vec<BusDescriptor>,
    pub audio_outputs: Vec<BusDescriptor>,
    pub event_inputs: Vec<BusDescriptor>,
    pub event_outputs: Vec<BusDescriptor>,
    pub parameters: Vec<ListedParameter>,
}

/// Whether the parameter is listed.
pub fn parameter_is_listed(p: &ParameterDescriptor) -> (r: bool)
    ensures
        r == is_listed(*p),
{
    let title = chars_of(p.title.as_str());
    if title.len() == 0 {
        return false;
    }
    let lower_text = lowercase(p.title.as_str());
    let lower = chars_of(lower_text.as_str());
    let midi = chars_of("midi");
    let cc = chars_of("cc ");
    !contains_chars(&lower, &midi) && !contains_chars(&lower, &cc)
}

/// The listed parameters, each with its index among all of them.
pub fn list_parameters(ps: &Vec<ParameterDescriptor>) -> (r: Vec<ListedParameter>)
    ensures
        r@ == listed(ps@),
{
    let mut out: Vec<ListedParameter> = Vec::new();
    let mut i: usize = 0;
    while i < ps.len()
        invariant
            i <= ps@.len(),
            out@ == listed_prefix(ps@, i as int),
        decreases ps@.len() - i,
    {
        let p = &ps[i];
        if parameter_is_listed(p) {
            out.push(
                ListedParameter { id: p.id, index: i, title: p.title.clone(), step_count: p.step_count },
            );
        }
        i = i + 1;
    }
    out
}

/// The bus count of two kinds together, each negative report read as zero.
pub open spec fn combined_count(a: i32, b: i32) -> int {
    clamp(a) + clamp(b)
}

/// The summary of what a run gathered: counts with negative reports read as
/// zero, inputs and outputs each over audio and event buses, the classes and
/// the buses of each kind as they were gathered, and the listed parameters.
pub fn summarize(info: PluginInfo) -> (r: Summary)
    ensures
        r.name == info.name,
        r.vendor == info.factory.vendor,
        r.version == info.version,
        r.parameter_count == clamp(info.parameter_count),
        r.input_count == combined_count(info.audio_input_count, info.event_input_count),
        r.output_count == combined_count(info.audio_output_count, info.event_output_count),
        r.classes@ == info.classes@,
        r.audio_inputs@ == info.audio_inputs@,
        r.audio_outputs@ == info.audio_outputs@,
        r.event_inputs@ == info.event_inputs@,
        r.event_outputs@ == info.event_outputs@,
        r.parameters@ == listed(info.parameters@),
        r.parameter_count >= 0,
        r.input_count >= 0,
        r.output_count >= 0,
{
    let parameters = list_parameters(&info.parameters);
    Summary {
        parameter_count: clamped(info.parameter_count),
        input_count: clamped(info.audio_input_count) + clamped(info.event_input_count),
        output_count: clamped(info.audio_output_count) + clamped(info.event_output_count),
        name: info.name,
        vendor: info.factory.vendor,
        version: info.version,
        classes: info.classes,
        audio_inputs: info.audio_inputs,
        audio_outputs: info.audio_outputs,
        event_inputs: info.event_inputs,
        event_outputs: info.event_outputs,
        parameters,
    }
}

fn clamped(n: i32) -> (r: i64)
    ensures
        r == clamp(n),
{
    if n < 0 {
        0
    } else {
        n as i64
    }
}

proof fn lemma_listed_prefix(ps: Seq<ParameterDescriptor>, n: int)
    requires
        0 <= n <= ps.len(),
        ps.len() <= usize::MAX,
    ensures
        listed_prefix(ps, n).len() <= n,
        forall|k: int|
            0 <= k < listed_prefix(ps, n).len() ==> {
                let e = #[trigger] listed_prefix(ps, n)[k];
                &&& 0 <= e.index < n
                &&& e.title == ps[e.index as int].title
                &&& e.id == ps[e.index as int].id
                &&& is_listed(ps[e.index as int])
            },
    decreases n,
{
    if n > 0 {
        lemma_listed_prefix(ps, n - 1);
        let rest = listed_prefix(ps, n - 1);
        let cur = listed_prefix(ps, n);
        assert forall|k: int| 0 <= k < cur.len() implies {
            let e = #[trigger] cur[k];
            &&& 0 <= e.index < n
            &&& e.title == ps[e.index as int].title
            &&& e.id == ps[e.index as int].id
            &&& is_listed(ps[e.index as int])
        } by {
            if k < rest.len() {
                assert(cur[k] == rest[k]);
            }
        }
    }
}

/// No listed parameter has an empty title, or a lower-cased title that holds
/// "midi" or "cc "; each is the parameter at its index, and there are no more
/// of them than parameters.
pub proof fn lemma_listed_parameters(ps: Seq<ParameterDescriptor>)
    requires
        ps.len() <= usize::MAX,
    ensures
        listed(ps).len() <= ps.len(),
        forall|k: int|
            0 <= k < listed(ps).len() ==> {
                let e = #[trigger] listed(ps)[k];
                &&& e.title@.len() > 0
                &&& !contains_seq(lowercase_of(e.title@), midi_marker())
                &&& !contains_seq(lowercase_of(e.title@), cc_marker())
                &&& 0 <= e.index < ps.len()
                &&& e.title == ps[e.index as int].title
                &&& e.id == ps[e.index as int].id
            },
{
    lemma_listed_prefix(ps, ps.len() as int);
}

} // verus!
