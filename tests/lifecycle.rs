use std::cell::Cell;

use tpower_device::codec::encode_response;
use tpower_device::device::bridge_callback;
use tpower_device::{
    Action, ControlLoop, Device, DeviceDataError, DeviceMessage, DevicePowerTickEvent, IORegistry,
    InterfaceType, MessageStep, NotificationInfo, Request, ServiceConnection, Value,
};

fn registry(cycles: i64) -> IORegistry {
    IORegistry {
        current_capacity: 50,
        max_capacity: 100,
        cycle_count: cycles,
        voltage: 3900,
        is_charging: false,
        external_connected: false,
    }
}

/// A connection whose next reads fail with the given codes, then succeed.
struct Flaky {
    failures: Cell<u32>,
    cycles: i64,
    polls: Cell<u32>,
}

impl Flaky {
    fn new(failures: u32, cycles: i64) -> Flaky {
        Flaky { failures: Cell::new(failures), cycles, polls: Cell::new(0) }
    }
}

impl ServiceConnection for Flaky {
    fn send(&self, _request: &Request) -> Result<(), i32> {
        self.polls.set(self.polls.get() + 1);
        Ok(())
    }

    fn receive(&self) -> Result<Option<Value>, i32> {
        if self.failures.get() > 0 {
            self.failures.set(self.failures.get() - 1);
            return Err(-1);
        }
        Ok(Some(encode_response(&registry(self.cycles))))
    }
}

fn device(udid: &str) -> Device {
    Device { udid: udid.to_string(), interface_type: InterfaceType::Usb }
}

fn tick(cl: &ControlLoop<Flaky>) -> Vec<DevicePowerTickEvent> {
    let outcomes = cl.poll_tick();
    assert_eq!(outcomes.len(), cl.registry.len());
    ControlLoop::<Flaky>::tick_events(&outcomes)
}

fn info(udid: &str, code: u32) -> Option<NotificationInfo> {
    Some(NotificationInfo { device: Some(device(udid)), action_code: code })
}

#[test]
fn null_notifications_yield_no_message() {
    assert!(bridge_callback(None, true).is_none());
    assert!(bridge_callback(info("a", 1), false).is_none());
    let no_device = Some(NotificationInfo { device: None, action_code: 1 });
    assert!(bridge_callback(no_device, true).is_none());
}

#[test]
fn notification_codes_become_actions() {
    let m = bridge_callback(info("a", 1), true).unwrap();
    assert_eq!(m.action, Action::Attached);
    assert_eq!(m.device.udid, "a");
    assert_eq!(bridge_callback(info("a", 2), true).unwrap().action, Action::Detached);
    assert_eq!(bridge_callback(info("a", 3), true).unwrap().action, Action::Unknown(3));
    assert_eq!(Action::from_code(4), Action::Unknown(4));
}

#[test]
fn messages_map_to_steps() {
    let cl: ControlLoop<Flaky> = ControlLoop::new();
    let step = |a: Action| cl.on_message(&DeviceMessage { device: device("a"), action: a });
    assert_eq!(step(Action::Attached), MessageStep::Prepare);
    assert_eq!(step(Action::Detached), MessageStep::Detach);
    assert_eq!(step(Action::Unknown(9)), MessageStep::Ignore);
}

#[test]
fn attach_event_carries_name_and_detach_event_none() {
    let d = device("a");
    let e = ControlLoop::<Flaky>::attach_event(&d, "Phone".to_string());
    assert_eq!((e.udid.as_str(), e.name.as_str()), ("a", "Phone"));
    assert_eq!((e.interface, e.action), (InterfaceType::Usb, Action::Attached));
    let e = ControlLoop::<Flaky>::detach_event(&d);
    assert_eq!((e.udid.as_str(), e.name.as_str()), ("a", ""));
    assert_eq!(e.action, Action::Detached);
}

#[test]
fn failed_announcement_leaves_device_unregistered() {
    let mut cl: ControlLoop<Flaky> = ControlLoop::new();
    cl.finish_attach(device("a"), Flaky::new(0, 1), false);
    assert!(!cl.registry.contains(&"a".to_string()));
    assert!(tick(&cl).is_empty());
}

#[test]
fn detach_removes_even_when_undelivered_and_is_idempotent() {
    let mut cl: ControlLoop<Flaky> = ControlLoop::new();
    cl.finish_attach(device("a"), Flaky::new(0, 1), true);
    cl.finish_attach(device("b"), Flaky::new(0, 2), true);
    cl.finish_detach(&"a".to_string());
    assert!(!cl.registry.contains(&"a".to_string()));
    assert!(cl.registry.contains(&"b".to_string()));
    cl.finish_detach(&"a".to_string());
    assert_eq!(cl.registry.len(), 1);
}

#[test]
fn attach_then_detach_before_tick() {
    let mut cl: ControlLoop<Flaky> = ControlLoop::new();
    let d = device("a");
    let attached = ControlLoop::<Flaky>::attach_event(&d, "Phone".to_string());
    cl.finish_attach(device("a"), Flaky::new(0, 1), true);
    let detached = ControlLoop::<Flaky>::detach_event(&d);
    cl.finish_detach(&d.udid);
    assert_eq!(attached.action, Action::Attached);
    assert_eq!(detached.action, Action::Detached);
    assert_eq!(cl.registry.len(), 0);
    assert!(tick(&cl).is_empty());
}

#[test]
fn reattach_replaces_the_connection() {
    let mut cl: ControlLoop<Flaky> = ControlLoop::new();
    cl.finish_attach(device("a"), Flaky::new(0, 1), true);
    cl.finish_attach(device("a"), Flaky::new(0, 2), true);
    assert_eq!(cl.registry.len(), 1);
    let events = tick(&cl);
    assert_eq!(events.len(), 1);
    assert_eq!(events[0].data.cycle_count, 2);
}

#[test]
fn scenario_transient_failure_then_success_then_detach() {
    let mut cl: ControlLoop<Flaky> = ControlLoop::new();
    cl.finish_attach(device("A"), Flaky::new(1, 40), true);
    assert!(cl.registry.contains(&"A".to_string()));

    let outcomes = cl.poll_tick();
    assert_eq!(outcomes.len(), 1);
    assert_eq!(outcomes[0].result, Err(DeviceDataError::Receive(-1)));
    assert!(ControlLoop::<Flaky>::tick_events(&outcomes).is_empty());
    assert!(cl.registry.contains(&"A".to_string()));

    let events = tick(&cl);
    assert_eq!(events.len(), 1);
    assert_eq!(events[0].udid, "A");
    assert_eq!(events[0].data.cycle_count, 40);

    cl.finish_detach(&"A".to_string());
    assert!(!cl.registry.contains(&"A".to_string()));
    assert!(tick(&cl).is_empty());
}

#[test]
fn scenario_two_devices_attach_and_both_report() {
    let mut cl: ControlLoop<Flaky> = ControlLoop::new();
    let messages = vec![
        bridge_callback(info("A", 1), true).unwrap(),
        bridge_callback(info("B", 1), true).unwrap(),
    ];
    let mut announced = Vec::new();
    for (k, m) in messages.into_iter().enumerate() {
        assert_eq!(cl.on_message(&m), MessageStep::Prepare);
        let e = ControlLoop::<Flaky>::attach_event(&m.device, format!("dev{}", k));
        announced.push(e.udid.clone());
        cl.finish_attach(m.device, Flaky::new(0, k as i64), true);
    }
    assert_eq!(announced, vec!["A".to_string(), "B".to_string()]);
    assert!(cl.registry.contains(&"A".to_string()));
    assert!(cl.registry.contains(&"B".to_string()));
    let events = tick(&cl);
    assert_eq!(events.len(), 2);
    let mut udids: Vec<String> = events.iter().map(|e| e.udid.clone()).collect();
    udids.sort();
    assert_eq!(udids, vec!["A".to_string(), "B".to_string()]);
}
