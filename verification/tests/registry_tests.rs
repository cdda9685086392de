use ladspa::meta::PluginDescriptor;
use ladspa::meta::Port;
use ladspa::meta::PortDescriptor;
use ladspa::meta::Properties;
use ladspa::registry::Registry;

fn meta(id: u64, label: &str) -> PluginDescriptor {
    PluginDescriptor {
        unique_id: id,
        label: label.as_bytes().to_vec(),
        properties: Properties { bits: 0 },
        name: label.as_bytes().to_vec(),
        maker: b"Example".to_vec(),
        copyright: b"None".to_vec(),
        ports: vec![Port {
            name: b"Output".to_vec(),
            desc: PortDescriptor::AudioOutput,
            hint: None,
            default: None,
            lower_bound: None,
            upper_bound: None,
        }],
    }
}

#[test]
fn install_appends_in_order() {
    let mut reg = Registry::new();
    assert_eq!(reg.descriptor_count(), 0);
    let s0 = reg.install(meta(1, "one")).unwrap();
    let s1 = reg.install(meta(2, "two")).unwrap();
    assert_eq!((s0, s1), (0, 1));
    assert_eq!(reg.descriptor_count(), 2);
    assert_eq!(reg.get(0).unwrap().unique_id, 1);
    assert_eq!(reg.get(1).unwrap().unique_id, 2);
}

#[test]
fn lookups_are_idempotent() {
    let mut reg = Registry::new();
    reg.install(meta(11, "one")).unwrap();
    let first = reg.get(0).unwrap();
    let (id1, label1) = (first.unique_id, first.label.clone());
    let second = reg.get(0).unwrap();
    assert_eq!(second.unique_id, id1);
    assert_eq!(second.label, label1);
    // past the available count, every lookup misses
    assert!(reg.get(5).is_none());
    assert!(reg.get(5).is_none());
}

#[test]
fn cached_slots_survive_later_installs() {
    let mut reg = Registry::new();
    reg.install(meta(21, "one")).unwrap();
    let before_id = reg.get(0).unwrap().unique_id;
    let before_label = reg.get(0).unwrap().label.clone();
    reg.install(meta(22, "two")).unwrap();
    assert_eq!(reg.get(0).unwrap().unique_id, before_id);
    assert_eq!(reg.get(0).unwrap().label, before_label);
}

#[test]
fn failed_install_caches_nothing() {
    let mut reg = Registry::new();
    let mut bad = meta(31, "one");
    bad.maker = vec![b'x', 0];
    assert!(reg.install(bad).is_err());
    assert_eq!(reg.descriptor_count(), 0);
    assert!(reg.get(0).is_none());
}
