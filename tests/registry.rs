use tpower_device::{ConnectionRegistry, Device, InterfaceType};

fn device(udid: &str) -> Device {
    Device { udid: udid.to_string(), interface_type: InterfaceType::Wifi }
}

#[test]
fn insert_replaces_and_remove_returns_entry() {
    let mut r: ConnectionRegistry<u32> = ConnectionRegistry::new();
    r.insert(device("a"), 1);
    r.insert(device("b"), 2);
    r.insert(device("a"), 3);
    assert_eq!(r.len(), 2);
    assert_eq!(r.get(0).connection, 3);
    assert_eq!(r.get(1).device.udid, "b");
    let e = r.remove(&"a".to_string()).unwrap();
    assert_eq!((e.device.udid.as_str(), e.connection), ("a", 3));
    assert!(r.remove(&"a".to_string()).is_none());
    assert!(!r.contains(&"a".to_string()));
    assert!(r.contains(&"b".to_string()));
    assert_eq!(r.len(), 1);
}
