//! The descriptors that an inspection gathers, the record it produces, and
//! the errors that end it.
use vstd::prelude::*;
use crate::text::{c_str_to_string, narrow_text, utf16_lossy_of, utf16_to_string, utf8_lossy_of, wide_text};

verus! {

/// What the factory says of its vendor.
#[derive(Debug)]
pub struct FactoryInfo {
    pub vendor: String,
    pub url: String,
    pub email: String,
    pub flags: i32,
}

impl FactoryInfo {
    /// A factory description with no text and no flags, before the factory is asked.
    pub fn unknown() -> (r: FactoryInfo)
        ensures
            r.vendor@.len() == 0,
            r.url@.len() == 0,
            r.email@.len() == 0,
            r.flags == 0,
    {
        FactoryInfo { vendor: String::new(), url: String::new(), email: String::new(), flags: 0 }
    }

    /// Decodes the nul-terminated narrow buffers of a factory description.
    pub fn from_raw(vendor: &[u8], url: &[u8], email: &[u8], flags: i32) -> (r: FactoryInfo)
        ensures
            r.vendor@ == utf8_lossy_of(narrow_text(vendor@)),
            r.url@ == utf8_lossy_of(narrow_text(url@)),
            r.email@ == utf8_lossy_of(narrow_text(email@)),
            r.flags == flags,
    {
        FactoryInfo {
            vendor: c_str_to_string(vendor),
            url: c_str_to_string(url),
            email: c_str_to_string(email),
            flags,
        }
    }
}

/// One instantiable class that the factory lists.
#[derive(Debug)]
pub struct ClassDescriptor {
    pub class_id: [u8; 16],
    pub name: String,
    pub category: String,
    pub cardinality: i32,
}

impl ClassDescriptor {
    /// Decodes the nul-terminated narrow buffers of a class description.
    pub fn from_raw(class_id: [u8; 16], cardinality: i32, category: &[u8], name: &[u8]) -> (r: ClassDescriptor)
        ensures
            r.class_id == class_id,
            r.cardinality == cardinality,
            r.category@ == utf8_lossy_of(narrow_text(category@)),
            r.name@ == utf8_lossy_of(narrow_text(name@)),
    {
        ClassDescriptor {
            class_id,
            name: c_str_to_string(name),
            category: c_str_to_string(category),
            cardinality,
        }
    }
}

/// The kind of data a bus carries.
#[derive(Debug, Clone, Copy, PartialEq, Eq, Structural)]
pub enum MediaKind {
    Audio,
    Event,
}

/// Whether a bus carries data into or out of the component.
#[derive(Debug, Clone, Copy, PartialEq, Eq, Structural)]
pub enum Direction {
    Input,
    Output,
}

/// One bus of the component.
#[derive(Debug)]
pub struct BusDescriptor {
    pub media: MediaKind,
    pub direction: Direction,
    pub name: String,
    pub bus_type: i32,
    pub flags: u32,
    pub channel_count: i32,
}

impl BusDescriptor {
    /// Decodes the nul-terminated UTF-16 name of a bus description.
    pub fn from_raw(
        media: MediaKind,
        direction: Direction,
        name: &[u16],
        bus_type: i32,
        flags: u32,
        channel_count: i32,
    ) -> (r: BusDescriptor)
        ensures
            r.media == media,
            r.direction == direction,
            r.name@ == utf16_lossy_of(wide_text(name@)),
            r.bus_type == bus_type,
            r.flags == flags,
            r.channel_count == channel_count,
    {
        BusDescriptor { media, direction, name: utf16_to_string(name), bus_type, flags, channel_count }
    }
}

/// One parameter of the controller. The two normalized values are carried as
/// the bit patterns of the plugin's 64-bit floats.
#[derive(Debug)]
pub struct ParameterDescriptor {
    pub id: u32,
    pub title: String,
    pub short_title: String,
    pub units: String,
    pub step_count: i32,
    pub default_normalized_bits: u64,
    pub unit_id: i32,
    pub flags: i32,
    pub current_normalized_bits: u64,
}

impl ParameterDescriptor {
    /// Decodes the nul-terminated UTF-16 texts of a parameter description; the
    /// current value is zero until the controller is asked for it.
    pub fn from_raw(
        id: u32,
        title: &[u16],
        short_title: &[u16],
        units: &[u16],
        step_count: i32,
        default_normalized_bits: u64,
        unit_id: i32,
        flags: i32,
    ) -> (r: ParameterDescriptor)
        ensures
            r.id == id,
            r.title@ == utf16_lossy_of(wide_text(title@)),
            r.short_title@ == utf16_lossy_of(wide_text(short_title@)),
            r.units@ == utf16_lossy_of(wide_text(units@)),
            r.step_count == step_count,
            r.default_normalized_bits == default_normalized_bits,
            r.unit_id == unit_id,
            r.flags == flags,
            r.current_normalized_bits == 0,
    {
        ParameterDescriptor {
            id,
            title: utf16_to_string(title),
            short_title: utf16_to_string(short_title),
            units: utf16_to_string(units),
            step_count,
            default_normalized_bits,
            unit_id,
            flags,
            current_normalized_bits: 0,
        }
    }
}

/// Why an inspection produced no record.
#[derive(Debug, Clone, Copy, PartialEq, Eq, Structural)]
pub enum InspectError {
    /// The path is not a loadable native module.
    LoadFailure,
    /// The module does not export the factory entry point.
    SymbolMissing,
    /// The factory entry point returned no factory.
    FactoryNull,
    /// The factory did not describe itself; holds the result code.
    FactoryInfoUnavailable(i32),
    /// No class of the factory is an audio module.
    NoAudioClass,
    /// The factory did not create the component; holds the result code.
    ComponentCreateFailed(i32),
    /// The component refused to initialize; holds the result code.
    ComponentInitFailed(i32),
    /// The component is not its own controller and no separate one could be had.
    NoController,
}

impl InspectError {
    /// A short description of the error.
    pub fn message(&self) -> &'static str {
        match self {
            InspectError::LoadFailure => "Failed to load the plugin module",
            InspectError::SymbolMissing => "GetPluginFactory not found",
            InspectError::FactoryNull => "GetPluginFactory returned NULL",
            InspectError::FactoryInfoUnavailable(_) => "Failed to get factory info",
            InspectError::NoAudioClass => "No Audio Module class found",
            InspectError::ComponentCreateFailed(_) => "Failed to create component",
            InspectError::ComponentInitFailed(_) => "Failed to initialize component",
            InspectError::NoController => "No controller available",
        }
    }
}

/// A reported count, or zero where the plugin reported a negative one.
pub open spec fn clamp(n: i32) -> int {
    if n < 0 {
        0
    } else {
        n as int
    }
}

/// Everything an inspection gathered.
#[derive(Debug)]
pub struct PluginInfo {
    pub factory: FactoryInfo,
    pub classes: Vec<ClassDescriptor>,
    pub name: String,
    pub version: String,
    pub audio_input_count: i32,
    pub audio_output_count: i32,
    pub event_input_count: i32,
    pub event_output_count: i32,
    pub audio_inputs: Vec<BusDescriptor>,
    pub audio_outputs: Vec<BusDescriptor>,
    pub event_inputs: Vec<BusDescriptor>,
    pub event_outputs: Vec<BusDescriptor>,
    pub supports_processing: bool,
    pub connected: bool,
    pub activated: bool,
    pub parameter_count: i32,
    pub parameters: Vec<ParameterDescriptor>,
    pub terminated_cleanly: bool,
}

/// The value of a [`PluginInfo`], with its lists as sequences.
pub struct PluginInfoView {
    pub factory: FactoryInfo,
    pub classes: Seq<ClassDescriptor>,
    pub name: String,
    pub version: String,
    pub audio_input_count: i32,
    pub audio_output_count: i32,
    pub event_input_count: i32,
    pub event_output_count: i32,
    pub audio_inputs: Seq<BusDescriptor>,
    pub audio_outputs: Seq<BusDescriptor>,
    pub event_inputs: Seq<BusDescriptor>,
    pub event_outputs: Seq<BusDescriptor>,
    pub supports_processing: bool,
    pub connected: bool,
    pub activated: bool,
    pub parameter_count: i32,
    pub parameters: Seq<ParameterDescriptor>,
    pub terminated_cleanly: bool,
}

impl View for PluginInfo {
    type V = PluginInfoView;

    open spec fn view(&self) -> PluginInfoView {
        PluginInfoView {
            factory: self.factory,
            classes: self.classes@,
            name: self.name,
            version: self.version,
            audio_input_count: self.audio_input_count,
            audio_output_count: self.audio_output_count,
            event_input_count: self.event_input_count,
            event_output_count: self.event_output_count,
            audio_inputs: self.audio_inputs@,
            audio_outputs: self.audio_outputs@,
            event_inputs: self.event_inputs@,
            event_outputs: self.event_outputs@,
            supports_processing: self.supports_processing,
            connected: self.connected,
            activated: self.activated,
            parameter_count: self.parameter_count,
            parameters: self.parameters@,
            terminated_cleanly: self.terminated_cleanly,
        }
    }
}

} // verus!
