use ladspa::descriptor::build_descriptor;
use ladspa::descriptor::construction_ledger;
use ladspa::descriptor::teardown_ledger;
use ladspa::descriptor::DescriptorError;
use ladspa::descriptor::OwnedAlloc;
use ladspa::meta::ControlHint;
use ladspa::meta::DefaultValue;
use ladspa::meta::PluginDescriptor;
use ladspa::meta::Port;
use ladspa::meta::PortDescriptor;
use ladspa::meta::Properties;
use ladspa::meta::HINT_TOGGLED;
use ladspa::meta::PROPERTY_REALTIME;

fn port(name: &str, desc: PortDescriptor) -> Port {
    Port {
        name: name.as_bytes().to_vec(),
        desc,
        hint: None,
        default: None,
        lower_bound: None,
        upper_bound: None,
    }
}

fn amp_meta() -> PluginDescriptor {
    PluginDescriptor {
        unique_id: 400,
        label: b"amp".to_vec(),
        properties: Properties { bits: PROPERTY_REALTIME },
        name: b"Amplifier".to_vec(),
        maker: b"Example".to_vec(),
        copyright: b"None".to_vec(),
        ports: vec![
            port("Gain", PortDescriptor::ControlInput),
            port("Input", PortDescriptor::AudioInput),
            port("Output", PortDescriptor::AudioOutput),
        ],
    }
}

#[test]
fn builder_copies_identity_strings_null_terminated() {
    let d = build_descriptor(amp_meta()).unwrap();
    assert_eq!(d.unique_id, 400);
    assert_eq!(d.properties, PROPERTY_REALTIME);
    assert_eq!(d.label, b"amp\0".to_vec());
    assert_eq!(d.name, b"Amplifier\0".to_vec());
    assert_eq!(d.maker, b"Example\0".to_vec());
    assert_eq!(d.copyright, b"None\0".to_vec());
    assert_eq!(d.port_count, 3);
    assert_eq!(d.meta.label, b"amp".to_vec());
}

#[test]
fn builder_emits_port_kind_codes() {
    let d = build_descriptor(amp_meta()).unwrap();
    // control-in = 0x4 | 0x1, audio-in = 0x8 | 0x1, audio-out = 0x8 | 0x2
    assert_eq!(d.port_descriptors, vec![5, 9, 10]);
    assert_eq!(
        d.port_names,
        vec![b"Gain\0".to_vec(), b"Input\0".to_vec(), b"Output\0".to_vec()]
    );
}

#[test]
fn builder_combines_hint_bits_with_default_code() {
    let mut meta = amp_meta();
    meta.ports[0].hint = Some(ControlHint { bits: HINT_TOGGLED });
    meta.ports[0].default = Some(DefaultValue::Value1);
    meta.ports[0].lower_bound = Some(0.5f32.to_bits());
    meta.ports[0].upper_bound = Some(2.0f32.to_bits());
    let d = build_descriptor(meta).unwrap();
    assert_eq!(d.port_range_hints[0].hint_descriptor, 0x4 | 0x240);
    assert_eq!(d.port_range_hints[0].lower_bound, 0.5f32.to_bits());
    assert_eq!(d.port_range_hints[0].upper_bound, 2.0f32.to_bits());
    // absent hints and bounds come out as all-clear words
    assert_eq!(d.port_range_hints[1].hint_descriptor, 0);
    assert_eq!(d.port_range_hints[1].lower_bound, 0);
    assert_eq!(d.port_range_hints[1].upper_bound, 0);
}

#[test]
fn default_value_codes_are_the_ladspa_words() {
    assert_eq!(DefaultValue::Minimum.code(), 0x40);
    assert_eq!(DefaultValue::Low.code(), 0x80);
    assert_eq!(DefaultValue::Middle.code(), 0xC0);
    assert_eq!(DefaultValue::High.code(), 0x100);
    assert_eq!(DefaultValue::Maximum.code(), 0x140);
    assert_eq!(DefaultValue::Value0.code(), 0x200);
    assert_eq!(DefaultValue::Value1.code(), 0x240);
    assert_eq!(DefaultValue::Value100.code(), 0x280);
    assert_eq!(DefaultValue::Value440.code(), 0x2C0);
}

#[test]
fn port_kind_codes_and_validity() {
    assert_eq!(PortDescriptor::Invalid.code(), 0);
    assert_eq!(PortDescriptor::AudioInput.code(), 9);
    assert_eq!(PortDescriptor::AudioOutput.code(), 10);
    assert_eq!(PortDescriptor::ControlInput.code(), 5);
    assert_eq!(PortDescriptor::ControlOutput.code(), 6);
    assert!(!PortDescriptor::Invalid.is_valid());
    assert!(PortDescriptor::AudioOutput.is_valid());
}

#[test]
fn interior_nul_is_rejected() {
    let mut meta = amp_meta();
    meta.label = vec![b'a', 0, b'b'];
    match build_descriptor(meta) {
        Err(e) => assert_eq!(e, DescriptorError::InteriorNul),
        Ok(_) => panic!("builder accepted a label with an interior nul byte"),
    }
}

#[test]
fn interior_nul_in_a_port_name_is_rejected() {
    let mut meta = amp_meta();
    meta.ports[1].name = vec![0];
    match build_descriptor(meta) {
        Err(DescriptorError::InteriorNul) => {}
        Ok(_) => panic!("builder accepted a port name with an interior nul byte"),
    }
}

#[test]
fn ledger_names_every_allocation_in_order() {
    let fwd = construction_ledger(2);
    assert_eq!(
        fwd,
        vec![
            OwnedAlloc::LabelString,
            OwnedAlloc::NameString,
            OwnedAlloc::MakerString,
            OwnedAlloc::CopyrightString,
            OwnedAlloc::KindArray,
            OwnedAlloc::PortNameString(0),
            OwnedAlloc::PortNameString(1),
            OwnedAlloc::NameArray,
            OwnedAlloc::HintArray,
            OwnedAlloc::MetaBox,
            OwnedAlloc::Record,
        ]
    );
}

#[test]
fn teardown_frees_exactly_what_was_built() {
    // the teardown ledger is the construction ledger reversed, so every
    // allocation is freed exactly once: no leak, no double free
    let fwd = construction_ledger(3);
    let back = teardown_ledger(3);
    assert_eq!(back.len(), fwd.len());
    let mut reversed = fwd.clone();
    reversed.reverse();
    assert_eq!(back, reversed);
    for step in &fwd {
        assert_eq!(back.iter().filter(|s| *s == step).count(), 1);
    }
}

#[test]
fn ledger_of_a_portless_descriptor() {
    let fwd = construction_ledger(0);
    assert_eq!(fwd.len(), 9);
    let back = teardown_ledger(0);
    assert_eq!(back[0], OwnedAlloc::Record);
    assert_eq!(back[8], OwnedAlloc::LabelString);
}
