use vstd::prelude::*;

use crate::codec::{
    exchange_outcome, get_device_ioreg, normalize_spec, IORegistry, NormalizedResource,
    ServiceConnection,
};
use crate::device::{Action, Device, DeviceEvent, DeviceMessage};
use crate::error::DeviceDataError;
use crate::payload::Value;
use crate::registry::ConnectionRegistry;

verus! {

/// One telemetry event: the normalized power data of one device.
pub struct DevicePowerTickEvent {
    pub udid: String,
    pub data: NormalizedResource,
}

/// What one poll of one registered device produced.
pub struct PollOutcome {
    pub udid: String,
    pub result: Result<NormalizedResource, DeviceDataError>,
}

/// What the loop does next for a lifecycle message.
#[derive(Debug, Clone, Copy, PartialEq, Eq, Structural)]
pub enum MessageStep {
    /// Prepare the device, start its service and announce it.
    Prepare,
    /// Announce the detach and drop the device's connection.
    Detach,
    /// Nothing; the action is only logged.
    Ignore,
}

pub open spec fn step_of(action: Action) -> MessageStep {
    match action {
        Action::Attached => MessageStep::Prepare,
        Action::Detached => MessageStep::Detach,
        Action::Unknown(_) => MessageStep::Ignore,
    }
}

/// The registered udids after an attach whose announcement did or did not reach observers.
pub open spec fn after_attach(s: Set<Seq<char>>, udid: Seq<char>, emitted: bool) -> Set<Seq<char>> {
    if emitted {
        s.insert(udid)
    } else {
        s
    }
}

/// The registered udids after a detach, whatever became of its announcement.
pub open spec fn after_detach(s: Set<Seq<char>>, udid: Seq<char>) -> Set<Seq<char>> {
    s.remove(udid)
}

pub open spec fn normalized_outcome(r: Result<IORegistry, DeviceDataError>) -> Result<
    NormalizedResource,
    DeviceDataError,
> {
    match r {
        Ok(reg) => Ok(normalize_spec(reg)),
        Err(e) => Err(e),
    }
}

/// The telemetry that a tick emits: one event per successful poll, in poll order.
pub open spec fn successes(outcomes: Seq<PollOutcome>) -> Seq<(Seq<char>, NormalizedResource)>
    decreases outcomes.len(),
{
    if outcomes.len() == 0 {
        Seq::empty()
    } else {
        let prior = successes(outcomes.drop_last());
        match outcomes.last().result {
            Ok(d) => prior.push((outcomes.last().udid@, d)),
            Err(_) => prior,
        }
    }
}

/// Whether a poll result is what some exchange with the device could produce.
pub open spec fn is_exchange_result(r: Result<NormalizedResource, DeviceDataError>) -> bool {
    exists|s: Result<(), i32>, v: Result<Option<Value>, i32>|
        r == normalized_outcome(#[trigger] exchange_outcome(s, v))
}

pub open spec fn events_view(events: Seq<DevicePowerTickEvent>) -> Seq<(Seq<char>, NormalizedResource)> {
    events.map_values(|e: DevicePowerTickEvent| (e.udid@, e.data))
}

/// The single coordinator of polling and lifecycle handling, owning the registry.
pub struct ControlLoop<C> {
    pub registry: ConnectionRegistry<C>,
}

impl<C> ControlLoop<C> {
    pub open spec fn wf(&self) -> bool {
        self.registry.wf()
    }

    pub fn new() -> (r: Self)
        ensures
            r.wf(),
            r.registry.udids() == Set::<Seq<char>>::empty(),
    {
        ControlLoop { registry: ConnectionRegistry::new() }
    }

    /// Decides what a lifecycle message calls for.
    pub fn on_message(&self, msg: &DeviceMessage) -> (r: MessageStep)
        ensures
            r == step_of(msg.action),
    {
        match msg.action {
            Action::Attached => MessageStep::Prepare,
            Action::Detached => MessageStep::Detach,
            Action::Unknown(_) => MessageStep::Ignore,
        }
    }

    /// The announcement of a prepared device, carrying its resolved name.
    pub fn attach_event(device: &Device, name: String) -> (r: DeviceEvent)
        ensures
            r.udid@ == device.udid@,
            r.name@ == name@,
            r.interface == device.interface_type,
            r.action == Action::Attached,
    {
        DeviceEvent {
            udid: device.udid.clone(),
            name,
            interface: device.interface_type,
            action: Action::Attached,
        }
    }

    /// Completes an attach: the device is registered only if its announcement
    /// reached observers.
    pub fn finish_attach(&mut self, device: Device, connection: C, emitted: bool)
        requires
            old(self).wf(),
        ensures
            final(self).wf(),
            final(self).registry.udids() == after_attach(
                old(self).registry.udids(),
                device.udid@,
                emitted,
            ),
    {
        if emitted {
            self.registry.insert(device, connection);
        }
    }

    /// The announcement of a detach; it carries no name.
    pub fn detach_event(device: &Device) -> (r: DeviceEvent)
        ensures
            r.udid@ == device.udid@,
            r.name@ == Seq::<char>::empty(),
            r.interface == device.interface_type,
            r.action == Action::Detached,
    {
        DeviceEvent {
            udid: device.udid.clone(),
            name: String::new(),
            interface: device.interface_type,
            action: Action::Detached,
        }
    }

    /// Completes a detach: the device leaves the registry whether or not its
    /// announcement was delivered; detaching an absent device changes nothing.
    pub fn finish_detach(&mut self, udid: &String)
        requires
            old(self).wf(),
        ensures
            final(self).wf(),
            final(self).registry.udids() == after_detach(old(self).registry.udids(), udid@),
            !old(self).registry.udids().contains(udid@) ==> final(self).registry.keys()
                == old(self).registry.keys(),
    {
        let _ = self.registry.remove(udid);
    }

    /// Emits the telemetry of a tick: the successful polls, in order.
    pub fn tick_events(outcomes: &Vec<PollOutcome>) -> (r: Vec<DevicePowerTickEvent>)
        ensures
            events_view(r@) == successes(outcomes@),
    {
        let mut events: Vec<DevicePowerTickEvent> = Vec::new();
        let mut i: usize = 0;
        while i < outcomes.len()
            invariant
                i <= outcomes@.len(),
                events_view(events@) == successes(outcomes@.subrange(0, i as int)),
            decreases outcomes@.len() - i,
        {
            assert(outcomes@.subrange(0, i + 1).drop_last() =~= outcomes@.subrange(0, i as int));
            match &outcomes[i].result {
                Ok(d) => {
                    events.push(DevicePowerTickEvent { udid: outcomes[i].udid.clone(), data: *d });
                },
                Err(_) => {},
            }
            assert(events_view(events@) =~= successes(outcomes@.subrange(0, i + 1)));
            i = i + 1;
        }
        assert(outcomes@.subrange(0, outcomes@.len() as int) =~= outcomes@);
        events
    }
}

impl<C: ServiceConnection> ControlLoop<C> {
    /// Polls every registered device once, in registry order: one outcome per
    /// device, each the result of one exchange with that device.
    pub fn poll_tick(&self) -> (r: Vec<PollOutcome>)
        ensures
            r@.len() == self.registry.keys().len(),
            forall|i: int| 0 <= i < r@.len() ==> #[trigger] r@[i].udid@ == self.registry.keys()[i],
            forall|i: int| 0 <= i < r@.len() ==> is_exchange_result(#[trigger] r@[i].result),
    {
        let mut outcomes: Vec<PollOutcome> = Vec::new();
        let mut i: usize = 0;
        let n = self.registry.len();
        while i < n
            invariant
                n == self.registry.keys().len(),
                i <= n,
                outcomes@.len() == i,
                forall|j: int| 0 <= j < i ==> #[trigger] outcomes@[j].udid@ == self.registry.keys()[j],
                forall|j: int| 0 <= j < i ==> is_exchange_result(#[trigger] outcomes@[j].result),
            decreases n - i,
        {
            let entry = self.registry.get(i);
            let res = get_device_ioreg(&entry.connection);
            let result = match res {
                Ok(reg) => Ok(NormalizedResource::from_registry(&reg)),
                Err(e) => Err(e),
            };
            proof {
                let (s, v) = choose|s: Result<(), i32>, v: Result<Option<Value>, i32>|
                    res == exchange_outcome(s, v);
                assert(result == normalized_outcome(exchange_outcome(s, v)));
            }
            outcomes.push(PollOutcome { udid: entry.device.udid.clone(), result });
            i = i + 1;
        }
        outcomes
    }
}

/// How many events in `events` concern `udid`.
pub open spec fn count_for(events: Seq<(Seq<char>, NormalizedResource)>, udid: Seq<char>) -> nat
    decreases events.len(),
{
    if events.len() == 0 {
        0
    } else {
        count_for(events.drop_last(), udid) + if events.last().0 == udid {
            1nat
        } else {
            0nat
        }
    }
}

pub open spec fn outcome_udids(outcomes: Seq<PollOutcome>) -> Seq<Seq<char>> {
    outcomes.map_values(|o: PollOutcome| o.udid@)
}

proof fn lemma_count_push(
    events: Seq<(Seq<char>, NormalizedResource)>,
    e: (Seq<char>, NormalizedResource),
    udid: Seq<char>,
)
    ensures
        count_for(events.push(e), udid) == count_for(events, udid) + if e.0 == udid {
            1nat
        } else {
            0nat
        },
{
    assert(events.push(e).drop_last() =~= events);
}

proof fn lemma_successes_step(outcomes: Seq<PollOutcome>, udid: Seq<char>)
    requires
        outcomes.len() > 0,
    ensures
        count_for(successes(outcomes), udid) == count_for(successes(outcomes.drop_last()), udid) + if outcomes.last().result is Ok && outcomes.last().udid@ == udid {
            1nat
        } else {
            0nat
        },
{
    let prior = successes(outcomes.drop_last());
    if let Ok(d) = outcomes.last().result {
        lemma_count_push(prior, (outcomes.last().udid@, d), udid);
    }
}

proof fn lemma_absent_udid_has_no_event(outcomes: Seq<PollOutcome>, udid: Seq<char>)
    requires
        forall|k: int| 0 <= k < outcomes.len() ==> (#[trigger] outcomes[k]).udid@ != udid,
    ensures
        count_for(successes(outcomes), udid) == 0,
    decreases outcomes.len(),
{
    if outcomes.len() > 0 {
        let prefix = outcomes.drop_last();
        assert forall|k: int| 0 <= k < prefix.len() implies (#[trigger] prefix[k]).udid@ != udid by {
            assert(prefix[k] == outcomes[k]);
        }
        lemma_absent_udid_has_no_event(prefix, udid);
        assert(outcomes.last() == outcomes[outcomes.len() - 1]);
        lemma_successes_step(outcomes, udid);
    }
}

/// In a tick over devices with distinct udids, each device's poll yields exactly
/// one telemetry event when it succeeds and none when it fails.
pub proof fn lemma_one_event_per_successful_poll(outcomes: Seq<PollOutcome>, i: int)
    requires
        0 <= i < outcomes.len(),
        outcome_udids(outcomes).no_duplicates(),
    ensures
        count_for(successes(outcomes), outcomes[i].udid@) == if outcomes[i].result is Ok {
            1nat
        } else {
            0nat
        },
    decreases outcomes.len(),
{
    let n = outcomes.len() - 1;
    let prefix = outcomes.drop_last();
    let u = outcomes[i].udid@;
    assert(outcome_udids(prefix) =~= outcome_udids(outcomes).drop_last());
    assert(outcomes.last() == outcomes[n]);
    lemma_successes_step(outcomes, u);
    if i == n {
        assert forall|k: int| 0 <= k < prefix.len() implies (#[trigger] prefix[k]).udid@ != u by {
            assert(prefix[k] == outcomes[k]);
            assert(outcome_udids(outcomes)[k] != outcome_udids(outcomes)[n]);
        }
        lemma_absent_udid_has_no_event(prefix, u);
    } else {
        assert(prefix[i] == outcomes[i]);
        lemma_one_event_per_successful_poll(prefix, i);
        assert(outcome_udids(outcomes)[i] != outcome_udids(outcomes)[n]);
    }
}

/// The outcomes of a tick name the registered devices in order, so their
/// udids are distinct whenever the registry's are.
pub proof fn lemma_tick_udids_distinct<C>(registry: &ConnectionRegistry<C>, outcomes: Seq<PollOutcome>)
    requires
        registry.wf(),
        outcomes.len() == registry.keys().len(),
        forall|i: int| 0 <= i < outcomes.len() ==> #[trigger] outcomes[i].udid@ == registry.keys()[i],
    ensures
        outcome_udids(outcomes).no_duplicates(),
{
    assert(outcome_udids(outcomes) =~= registry.keys());
}

/// A detach leaves the device out of the registry, and detaching a device that
/// is already absent changes nothing.
pub proof fn lemma_detach_removes(s: Set<Seq<char>>, udid: Seq<char>)
    ensures
        !after_detach(s, udid).contains(udid),
        forall|v: Seq<char>| v != udid ==> (after_detach(s, udid).contains(v) == s.contains(v)),
        !s.contains(udid) ==> after_detach(s, udid) == s,
        after_detach(after_detach(s, udid), udid) == after_detach(s, udid),
{
    assert(after_detach(after_detach(s, udid), udid) =~= after_detach(s, udid));
    if !s.contains(udid) {
        assert(after_detach(s, udid) =~= s);
    }
}

/// An attach followed by a detach of the same device, with no tick between,
/// leaves the registry as it was without that device, whether or not the
/// attach was announced.
pub proof fn lemma_attach_then_detach(s: Set<Seq<char>>, udid: Seq<char>, emitted: bool)
    ensures
        after_detach(after_attach(s, udid, emitted), udid) == s.remove(udid),
{
    assert(after_detach(after_attach(s, udid, emitted), udid) =~= s.remove(udid));
}

} // verus!
