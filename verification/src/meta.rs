//! The author-facing metadata model: a plugin's identity, its property bits,
//! and the ordered list of port descriptions whose positions define the
//! stable port numbers `0..N-1` used by every later host call.

use vstd::prelude::*;

verus! {

/// Descriptor property bit: the plugin is real-time safe.
pub const PROPERTY_REALTIME: i32 = 0x1;

/// Descriptor property bit: in-place processing is broken.
pub const PROPERTY_INPLACE_BROKEN: i32 = 0x2;

/// Descriptor property bit: the plugin is hard-real-time capable.
pub const PROPERTY_HARD_RT_CAPABLE: i32 = 0x4;

/// Port kind bit: data flows from the host into the plugin.
pub const PORT_INPUT: i32 = 0x1;

/// Port kind bit: data flows from the plugin to the host.
pub const PORT_OUTPUT: i32 = 0x2;

/// Port kind bit: the port carries a single control scalar.
pub const PORT_CONTROL: i32 = 0x4;

/// Port kind bit: the port carries a block of audio samples.
pub const PORT_AUDIO: i32 = 0x8;

/// Control hint bit: the control is a toggle.
pub const HINT_TOGGLED: i32 = 0x4;

/// Control hint bit: the value scales with the sample rate.
pub const HINT_SAMPLE_RATE: i32 = 0x8;

/// Control hint bit: the value is best edited on a logarithmic scale.
pub const HINT_LOGARITHMIC: i32 = 0x10;

/// Control hint bit: the value is integer-valued.
pub const HINT_INTEGER: i32 = 0x20;

/// Range hint code: default to the lower bound.
pub const HINT_DEFAULT_MINIMUM: i32 = 0x40;

/// Range hint code: default to a point near the lower bound.
pub const HINT_DEFAULT_LOW: i32 = 0x80;

/// Range hint code: default to the middle of the range.
pub const HINT_DEFAULT_MIDDLE: i32 = 0xC0;

/// Range hint code: default to a point near the upper bound.
pub const HINT_DEFAULT_HIGH: i32 = 0x100;

/// Range hint code: default to the upper bound.
pub const HINT_DEFAULT_MAXIMUM: i32 = 0x140;

/// Range hint code: default to 0.
pub const HINT_DEFAULT_0: i32 = 0x200;

/// Range hint code: default to 1.
pub const HINT_DEFAULT_1: i32 = 0x240;

/// Range hint code: default to 100.
pub const HINT_DEFAULT_100: i32 = 0x280;

/// Range hint code: default to 440.
pub const HINT_DEFAULT_440: i32 = 0x2C0;

/// A set of descriptor property bits (`PROPERTY_*`).
#[derive(Clone, Copy, Debug, PartialEq, Eq, Structural)]
pub struct Properties {
    pub bits: i32,
}

/// A set of control range hint bits (`HINT_TOGGLED`, `HINT_SAMPLE_RATE`,
/// `HINT_LOGARITHMIC`, `HINT_INTEGER`).
#[derive(Clone, Copy, Debug, PartialEq, Eq, Structural)]
pub struct ControlHint {
    pub bits: i32,
}

/// The four possible kinds of a port.  `Invalid` is the kind of a
/// default-constructed port description and never names a connectable port.
#[derive(Clone, Copy, Debug, PartialEq, Eq, Structural)]
pub enum PortDescriptor {
    Invalid,
    AudioInput,
    AudioOutput,
    ControlInput,
    ControlOutput,
}

/// The symbolic default value of a control port.
#[derive(Clone, Copy, Debug, PartialEq, Eq, Structural)]
pub enum DefaultValue {
    Minimum,
    Low,
    Middle,
    High,
    Maximum,
    Value0,
    Value1,
    Value100,
    Value440,
}

/// The flat code a port kind is reported as: the bitwise combination of its
/// direction bit and its data-type bit.
pub open spec fn port_kind_code(d: PortDescriptor) -> i32 {
    match d {
        PortDescriptor::Invalid => 0,
        PortDescriptor::AudioInput => PORT_AUDIO | PORT_INPUT,
        PortDescriptor::AudioOutput => PORT_AUDIO | PORT_OUTPUT,
        PortDescriptor::ControlInput => PORT_CONTROL | PORT_INPUT,
        PortDescriptor::ControlOutput => PORT_CONTROL | PORT_OUTPUT,
    }
}

/// The range hint code of a symbolic default value.
pub open spec fn default_value_code(d: DefaultValue) -> i32 {
    match d {
        DefaultValue::Minimum => HINT_DEFAULT_MINIMUM,
        DefaultValue::Low => HINT_DEFAULT_LOW,
        DefaultValue::Middle => HINT_DEFAULT_MIDDLE,
        DefaultValue::High => HINT_DEFAULT_HIGH,
        DefaultValue::Maximum => HINT_DEFAULT_MAXIMUM,
        DefaultValue::Value0 => HINT_DEFAULT_0,
        DefaultValue::Value1 => HINT_DEFAULT_1,
        DefaultValue::Value100 => HINT_DEFAULT_100,
        DefaultValue::Value440 => HINT_DEFAULT_440,
    }
}

impl PortDescriptor {
    /// The flat code of this port kind.
    pub fn code(self) -> (r: i32)
        ensures
            r == port_kind_code(self),
    {
        match self {
            PortDescriptor::Invalid => 0,
            PortDescriptor::AudioInput => PORT_AUDIO | PORT_INPUT,
            PortDescriptor::AudioOutput => PORT_AUDIO | PORT_OUTPUT,
            PortDescriptor::ControlInput => PORT_CONTROL | PORT_INPUT,
            PortDescriptor::ControlOutput => PORT_CONTROL | PORT_OUTPUT,
        }
    }

    /// Whether this kind names a connectable port.
    pub fn is_valid(self) -> (r: bool)
        ensures
            r == (self != PortDescriptor::Invalid),
    {
        match self {
            PortDescriptor::Invalid => false,
            _ => true,
        }
    }
}

impl DefaultValue {
    /// The range hint code of this symbolic default.
    pub fn code(self) -> (r: i32)
        ensures
            r == default_value_code(self),
    {
        match self {
            DefaultValue::Minimum => HINT_DEFAULT_MINIMUM,
            DefaultValue::Low => HINT_DEFAULT_LOW,
            DefaultValue::Middle => HINT_DEFAULT_MIDDLE,
            DefaultValue::High => HINT_DEFAULT_HIGH,
            DefaultValue::Maximum => HINT_DEFAULT_MAXIMUM,
            DefaultValue::Value0 => HINT_DEFAULT_0,
            DefaultValue::Value1 => HINT_DEFAULT_1,
            DefaultValue::Value100 => HINT_DEFAULT_100,
            DefaultValue::Value440 => HINT_DEFAULT_440,
        }
    }
}

/// The description of one port: its name (UTF-8 bytes, no terminator), its
/// kind, and the optional control hints, symbolic default and numeric bounds.
/// Bounds are carried as the IEEE-754 bit patterns of the host's 32-bit
/// sample type; this library stores and copies them but never does arithmetic
/// on them.
#[derive(Debug)]
pub struct Port {
    pub name: Vec<u8>,
    pub desc: PortDescriptor,
    pub hint: Option<ControlHint>,
    pub default: Option<DefaultValue>,
    pub lower_bound: Option<u32>,
    pub upper_bound: Option<u32>,
}

/// Two port descriptions carry the same data, field for field.
pub open spec fn ports_match(a: Port, b: Port) -> bool {
    &&& a.name@ == b.name@
    &&& a.desc == b.desc
    &&& a.hint == b.hint
    &&& a.default == b.default
    &&& a.lower_bound == b.lower_bound
    &&& a.upper_bound == b.upper_bound
}

/// Copies the bytes of a buffer into a fresh one.
pub fn clone_bytes(v: &Vec<u8>) -> (r: Vec<u8>)
    ensures
        r@ == v@,
{
    let mut r: Vec<u8> = Vec::new();
    let mut i: usize = 0;
    while i < v.len()
        invariant
            i <= v.len(),
            r@ == v@.subrange(0, i as int),
        decreases v.len() - i,
    {
        r.push(v[i]);
        i = i + 1;
        proof {
            assert(r@ =~= v@.subrange(0, i as int));
        }
    }
    proof {
        assert(r@ =~= v@);
    }
    r
}

impl Clone for Port {
    /// Duplicates the description; the name buffer is copied byte for byte.
    fn clone(&self) -> (r: Self)
        ensures
            ports_match(r, *self),
    {
        Port {
            name: clone_bytes(&self.name),
            desc: self.desc,
            hint: self.hint,
            default: self.default,
            lower_bound: self.lower_bound,
            upper_bound: self.upper_bound,
        }
    }
}

/// What an author supplies to describe one plugin: identity strings (UTF-8
/// bytes without terminators), property bits and the ordered ports.  The
/// position of a port in `ports` is its stable port number.
#[derive(Debug)]
pub struct PluginDescriptor {
    pub unique_id: u64,
    pub label: Vec<u8>,
    pub properties: Properties,
    pub name: Vec<u8>,
    pub maker: Vec<u8>,
    pub copyright: Vec<u8>,
    pub ports: Vec<Port>,
}

} // verus!
