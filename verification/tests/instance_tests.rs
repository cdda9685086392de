use ladspa::connection::BufPtr;
use ladspa::connection::PortConnection;
use ladspa::connection::PortData;
use ladspa::connection::SliceView;
use ladspa::instance::Instance;
use ladspa::instance::GAIN_UNITY_BITS;
use ladspa::meta::Port;
use ladspa::meta::PortDescriptor;

fn port(name: &str, desc: PortDescriptor) -> Port {
    Port {
        name: name.as_bytes().to_vec(),
        desc,
        hint: None,
        default: None,
        lower_bound: None,
        upper_bound: None,
    }
}

fn stereo_ports() -> Vec<Port> {
    vec![
        port("Input", PortDescriptor::AudioInput),
        port("Output", PortDescriptor::AudioOutput),
        port("Gain", PortDescriptor::ControlInput),
    ]
}

#[test]
fn fresh_instance_has_unit_gain() {
    let inst = Instance::new(stereo_ports());
    assert_eq!(inst.adding_gain, GAIN_UNITY_BITS);
    assert_eq!(f32::from_bits(inst.adding_gain), 1.0);
}

#[test]
fn gain_setter_takes_effect() {
    let mut inst = Instance::new(stereo_ports());
    inst.set_run_adding_gain(0.5f32.to_bits());
    assert_eq!(f32::from_bits(inst.adding_gain), 0.5);
}

#[test]
fn incomplete_table_produces_no_connection_list() {
    let mut inst = Instance::new(stereo_ports());
    assert!(!inst.is_complete());
    assert!(inst.prepare_run(64).is_none());
    assert!(inst.prepare_run_adding(64).is_none());
    // all but one of the ports connected: still nothing for the author
    inst.connect_port(0, 0x1000);
    inst.connect_port(2, 0x3000);
    assert!(!inst.is_complete());
    assert!(inst.prepare_run(64).is_none());
    assert!(inst.prepare_run_adding(64).is_none());
}

#[test]
fn complete_table_produces_the_full_ordered_list() {
    let mut inst = Instance::new(stereo_ports());
    inst.connect_port(1, 0x2000);
    inst.connect_port(0, 0x1000);
    inst.connect_port(2, 0x3000);
    assert!(inst.is_complete());
    let list = inst.prepare_run(64).unwrap();
    assert_eq!(list.len(), 3);
    assert_eq!(list[0].port.name, b"Input".to_vec());
    assert_eq!(
        list[0].data,
        PortData::AudioInput(SliceView { ptr: BufPtr::Host(0x1000), len: 64 })
    );
    assert_eq!(
        list[1].data,
        PortData::AudioOutput(SliceView { ptr: BufPtr::Host(0x2000), len: 64 })
    );
    assert_eq!(list[2].data, PortData::ControlInput(0x3000));
}

#[test]
fn portless_instance_is_complete_at_once() {
    let mut inst = Instance::new(Vec::new());
    assert!(inst.is_complete());
    let list = inst.prepare_run(64).unwrap();
    assert!(list.is_empty());
}

#[test]
fn length_refresh_keeps_the_base_pointer() {
    let mut inst = Instance::new(vec![port("Input", PortDescriptor::AudioInput)]);
    inst.connect_port(0, 0x4000);
    let first = inst.prepare_run(64).unwrap();
    let v1 = first[0].unwrap_audio();
    assert_eq!((v1.ptr, v1.len), (BufPtr::Host(0x4000), 64));
    let second = inst.prepare_run(128).unwrap();
    let v2 = second[0].unwrap_audio();
    assert_eq!(v2.ptr, BufPtr::Host(0x4000));
    assert_eq!(v2.len, 128);
}

#[test]
fn reconnecting_replaces_the_handle() {
    let mut inst = Instance::new(vec![port("Input", PortDescriptor::AudioInput)]);
    inst.connect_port(0, 0x4000);
    inst.connect_port(0, 0x8000);
    let list = inst.prepare_run(16).unwrap();
    assert_eq!(
        list[0].data,
        PortData::AudioInput(SliceView { ptr: BufPtr::Host(0x8000), len: 16 })
    );
}

#[test]
fn port_kind_lookup() {
    let inst = Instance::new(stereo_ports());
    assert_eq!(inst.port_kind(0), Some(PortDescriptor::AudioInput));
    assert_eq!(inst.port_kind(1), Some(PortDescriptor::AudioOutput));
    assert_eq!(inst.port_kind(3), None);
}

#[test]
fn count_outputs_counts_audio_outputs_only() {
    let mut inst = Instance::new(stereo_ports());
    inst.connect_port(0, 0x1000);
    inst.connect_port(1, 0x2000);
    inst.connect_port(2, 0x3000);
    assert_eq!(inst.count_outputs(), 1);
}

#[test]
fn unwrap_accessors_return_the_typed_handle() {
    let audio_in = PortConnection {
        port: port("Input", PortDescriptor::AudioInput),
        data: PortData::AudioInput(SliceView { ptr: BufPtr::Host(0x10), len: 8 }),
    };
    assert_eq!(audio_in.unwrap_audio().len, 8);
    let audio_out = PortConnection {
        port: port("Output", PortDescriptor::AudioOutput),
        data: PortData::AudioOutput(SliceView { ptr: BufPtr::Scratch(2), len: 8 }),
    };
    assert_eq!(audio_out.unwrap_audio_mut().ptr, BufPtr::Scratch(2));
    let control_in = PortConnection {
        port: port("Gain", PortDescriptor::ControlInput),
        data: PortData::ControlInput(0x20),
    };
    assert_eq!(control_in.unwrap_control(), 0x20);
    let control_out = PortConnection {
        port: port("Latency", PortDescriptor::ControlOutput),
        data: PortData::ControlOutput(0x30),
    };
    assert_eq!(control_out.unwrap_control_mut(), 0x30);
}
