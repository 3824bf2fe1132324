use vstd::prelude::*;

use crate::error::{DeviceDataError, DictParseError};
use crate::payload::{find_key, lookup, Field, Value};

verus! {

/// A diagnostics request: an ordered mapping of keys to values.
pub struct Request {
    pub entries: Vec<(String, String)>,
}

impl View for Request {
    type V = Seq<(Seq<char>, Seq<char>)>;

    open spec fn view(&self) -> Seq<(Seq<char>, Seq<char>)> {
        self.entries@.map_values(|e: (String, String)| (e.0@, e.1@))
    }
}

/// The request for the power-source entry of the device's I/O registry.
pub open spec fn power_source_request() -> Seq<(Seq<char>, Seq<char>)> {
    seq![("EntryClass"@, "IOPMPowerSource"@), ("Request"@, "IORegistry"@)]
}

/// Builds the power-source diagnostics request; always the same payload.
pub fn build_request() -> (r: Request)
    ensures
        r@ == power_source_request(),
{
    let mut entries: Vec<(String, String)> = Vec::new();
    entries.push((String::from_str("EntryClass"), String::from_str("IOPMPowerSource")));
    entries.push((String::from_str("Request"), String::from_str("IORegistry")));
    let r = Request { entries };
    assert(r@ =~= power_source_request());
    r
}

/// The power-source attributes of a device's I/O registry.
#[derive(Debug, Clone, Copy, PartialEq, Eq, Structural)]
pub struct IORegistry {
    pub current_capacity: i64,
    pub max_capacity: i64,
    pub cycle_count: i64,
    pub voltage: i64,
    pub is_charging: bool,
    pub external_connected: bool,
}

/// A decoded diagnostics reply, with its registry record if the reply had one.
#[derive(Debug, Clone, Copy, PartialEq, Eq, Structural)]
pub struct IORegistryDiagnostic {
    pub ioregistry: Option<IORegistry>,
}

/// The integer held under `key`.
pub open spec fn int_field(fields: Seq<Field>, key: Seq<char>) -> Result<i64, DictParseError> {
    match lookup(fields, key) {
        Some(Value::Int(n)) => Ok(n),
        Some(_) => Err(DictParseError::WrongType),
        None => Err(DictParseError::MissingKey),
    }
}

/// The boolean held under `key`.
pub open spec fn bool_field(fields: Seq<Field>, key: Seq<char>) -> Result<bool, DictParseError> {
    match lookup(fields, key) {
        Some(Value::Bool(b)) => Ok(b),
        Some(_) => Err(DictParseError::WrongType),
        None => Err(DictParseError::MissingKey),
    }
}

/// The registry record that a value describes; the first failing field decides the error.
pub open spec fn registry_of(v: Value) -> Result<IORegistry, DictParseError> {
    match v {
        Value::Dict(fs) => {
            let current = int_field(fs@, "CurrentCapacity"@);
            let max = int_field(fs@, "MaxCapacity"@);
            let cycles = int_field(fs@, "CycleCount"@);
            let voltage = int_field(fs@, "Voltage"@);
            let charging = bool_field(fs@, "IsCharging"@);
            let external = bool_field(fs@, "ExternalConnected"@);
            if current is Err {
                Err(current->Err_0)
            } else if max is Err {
                Err(max->Err_0)
            } else if cycles is Err {
                Err(cycles->Err_0)
            } else if voltage is Err {
                Err(voltage->Err_0)
            } else if charging is Err {
                Err(charging->Err_0)
            } else if external is Err {
                Err(external->Err_0)
            } else {
                Ok(
                    IORegistry {
                        current_capacity: current->Ok_0,
                        max_capacity: max->Ok_0,
                        cycle_count: cycles->Ok_0,
                        voltage: voltage->Ok_0,
                        is_charging: charging->Ok_0,
                        external_connected: external->Ok_0,
                    },
                )
            }
        },
        _ => Err(DictParseError::NotDictionary),
    }
}

/// The structural decoding of a reply: `Diagnostics` must be a dictionary, and
/// `IORegistry` inside it, when present, a well-formed record.
pub open spec fn decode_spec(payload: Value) -> Result<IORegistryDiagnostic, DictParseError> {
    match payload {
        Value::Dict(top) => match lookup(top@, "Diagnostics"@) {
            None => Err(DictParseError::MissingKey),
            Some(Value::Dict(diag)) => match lookup(diag@, "IORegistry"@) {
                None => Ok(IORegistryDiagnostic { ioregistry: None }),
                Some(reg) => match registry_of(reg) {
                    Ok(r) => Ok(IORegistryDiagnostic { ioregistry: Some(r) }),
                    Err(e) => Err(e),
                },
            },
            Some(_) => Err(DictParseError::WrongType),
        },
        _ => Err(DictParseError::NotDictionary),
    }
}

/// Parsing a reply: structural failures are `Parse`, a reply without a registry
/// record is `InvalidDiagnostics`.
pub open spec fn parse_spec(payload: Value) -> Result<IORegistryDiagnostic, DeviceDataError> {
    match decode_spec(payload) {
        Err(e) => Err(DeviceDataError::Parse(e)),
        Ok(d) => if d.ioregistry is None {
            Err(DeviceDataError::InvalidDiagnostics)
        } else {
            Ok(d)
        },
    }
}

/// The result of one request/response exchange, from what the transport reported.
pub open spec fn exchange_outcome(sent: Result<(), i32>, received: Result<Option<Value>, i32>) -> Result<
    IORegistry,
    DeviceDataError,
> {
    match sent {
        Err(c) => Err(DeviceDataError::Send(c)),
        Ok(_) => match received {
            Err(c) => Err(DeviceDataError::Receive(c)),
            Ok(None) => Err(DeviceDataError::NullResponse),
            Ok(Some(p)) => match parse_spec(p) {
                Ok(d) => Ok(d.ioregistry->Some_0),
                Err(e) => Err(e),
            },
        },
    }
}

fn read_int(fields: &Vec<Field>, key: &str) -> (r: Result<i64, DictParseError>)
    ensures
        r == int_field(fields@, key@),
{
    let k = String::from_str(key);
    match find_key(fields, &k) {
        None => Err(DictParseError::MissingKey),
        Some(i) => match &fields[i].value {
            Value::Int(n) => Ok(*n),
            _ => Err(DictParseError::WrongType),
        },
    }
}

fn read_bool(fields: &Vec<Field>, key: &str) -> (r: Result<bool, DictParseError>)
    ensures
        r == bool_field(fields@, key@),
{
    let k = String::from_str(key);
    match find_key(fields, &k) {
        None => Err(DictParseError::MissingKey),
        Some(i) => match &fields[i].value {
            Value::Bool(b) => Ok(*b),
            _ => Err(DictParseError::WrongType),
        },
    }
}

/// Decodes a registry record field by field.
pub fn decode_registry(v: &Value) -> (r: Result<IORegistry, DictParseError>)
    ensures
        r == registry_of(*v),
{
    match v {
        Value::Dict(fs) => {
            let current_capacity = read_int(fs, "CurrentCapacity")?;
            let max_capacity = read_int(fs, "MaxCapacity")?;
            let cycle_count = read_int(fs, "CycleCount")?;
            let voltage = read_int(fs, "Voltage")?;
            let is_charging = read_bool(fs, "IsCharging")?;
            let external_connected = read_bool(fs, "ExternalConnected")?;
            Ok(
                IORegistry {
                    current_capacity,
                    max_capacity,
                    cycle_count,
                    voltage,
                    is_charging,
                    external_connected,
                },
            )
        },
        _ => Err(DictParseError::NotDictionary),
    }
}

/// Decodes the structure of a reply without asking for the registry record.
pub fn decode(payload: &Value) -> (r: Result<IORegistryDiagnostic, DictParseError>)
    ensures
        r == decode_spec(*payload),
{
    match payload {
        Value::Dict(top) => {
            let dkey = String::from_str("Diagnostics");
            match find_key(top, &dkey) {
                None => Err(DictParseError::MissingKey),
                Some(i) => match &top[i].value {
                    Value::Dict(diag) => {
                        let rkey = String::from_str("IORegistry");
                        match find_key(diag, &rkey) {
                            None => Ok(IORegistryDiagnostic { ioregistry: None }),
                            Some(j) => {
                                let reg = decode_registry(&diag[j].value)?;
                                Ok(IORegistryDiagnostic { ioregistry: Some(reg) })
                            },
                        }
                    },
                    _ => Err(DictParseError::WrongType),
                },
            }
        },
        _ => Err(DictParseError::NotDictionary),
    }
}

/// Parses a reply; succeeds exactly when the reply is well-formed and holds a
/// registry record, which is then present in the result.
pub fn parse(payload: &Value) -> (r: Result<IORegistryDiagnostic, DeviceDataError>)
    ensures
        r == parse_spec(*payload),
        r is Ok ==> r->Ok_0.ioregistry is Some,
{
    match decode(payload) {
        Err(e) => Err(DeviceDataError::from(e)),
        Ok(d) => if d.ioregistry.is_none() {
            Err(DeviceDataError::InvalidDiagnostics)
        } else {
            Ok(d)
        },
    }
}

/// Turns what the transport reported for one exchange into its result: a
/// refused send, a failed read, an empty reply, or the parsed record.
pub fn complete_exchange(sent: Result<(), i32>, received: Result<Option<Value>, i32>) -> (r: Result<
    IORegistry,
    DeviceDataError,
>)
    ensures
        r == exchange_outcome(sent, received),
{
    match sent {
        Err(c) => Err(DeviceDataError::Send(c)),
        Ok(_) => match received {
            Err(c) => Err(DeviceDataError::Receive(c)),
            Ok(None) => Err(DeviceDataError::NullResponse),
            Ok(Some(p)) => match parse(&p) {
                Ok(d) => match d.ioregistry {
                    Some(reg) => Ok(reg),
                    None => Err(DeviceDataError::InvalidDiagnostics),
                },
                Err(e) => Err(e),
            },
        },
    }
}

/// An open diagnostics service connection to one device.
pub trait ServiceConnection {
    /// Sends a request; `Err` carries the transport's code.
    fn send(&self, request: &Request) -> Result<(), i32>;

    /// Reads one reply; `Ok(None)` is an empty reply, `Err` the transport's code.
    fn receive(&self) -> Result<Option<Value>, i32>;
}

/// Queries a connection for the power-source registry record: the request of
/// `build_request` is sent, and a reply is read only if the send succeeded.
/// Whatever the transport reports, the result is the outcome of some exchange.
pub fn get_device_ioreg<C: ServiceConnection>(conn: &C) -> (r: Result<IORegistry, DeviceDataError>)
    ensures
        exists|s: Result<(), i32>, v: Result<Option<Value>, i32>| r == exchange_outcome(s, v),
{
    let request = build_request();
    match conn.send(&request) {
        Err(c) => {
            let r = Err(DeviceDataError::Send(c));
            assert(r == exchange_outcome(Err(c), Ok(None)));
            r
        },
        Ok(()) => {
            let received = conn.receive();
            let ghost v = received;
            let r = complete_exchange(Ok(()), received);
            assert(r == exchange_outcome(Ok(()), v));
            r
        },
    }
}

/// The telemetry record that consumers see for one registry record.
#[derive(Debug, Clone, Copy, PartialEq, Eq, Structural)]
pub struct NormalizedResource {
    pub current_capacity: i64,
    pub max_capacity: i64,
    pub cycle_count: i64,
    pub voltage: i64,
    pub is_charging: bool,
    pub external_connected: bool,
}

pub open spec fn normalize_spec(reg: IORegistry) -> NormalizedResource {
    NormalizedResource {
        current_capacity: reg.current_capacity,
        max_capacity: reg.max_capacity,
        cycle_count: reg.cycle_count,
        voltage: reg.voltage,
        is_charging: reg.is_charging,
        external_connected: reg.external_connected,
    }
}

impl NormalizedResource {
    /// Projects a registry record, keeping every field.
    pub fn from_registry(reg: &IORegistry) -> (r: NormalizedResource)
        ensures
            r == normalize_spec(*reg),
    {
        NormalizedResource {
            current_capacity: reg.current_capacity,
            max_capacity: reg.max_capacity,
            cycle_count: reg.cycle_count,
            voltage: reg.voltage,
            is_charging: reg.is_charging,
            external_connected: reg.external_connected,
        }
    }
}

/// A well-formed reply that carries `reg`, as the diagnostics service sends it.
pub fn encode_response(reg: &IORegistry) -> (r: Value)
    ensures
        parse_spec(r) == Ok::<IORegistryDiagnostic, DeviceDataError>(
            IORegistryDiagnostic { ioregistry: Some(*reg) },
        ),
{
    let mut fs: Vec<Field> = Vec::new();
    fs.push(Field { key: String::from_str("CurrentCapacity"), value: Value::Int(reg.current_capacity) });
    fs.push(Field { key: String::from_str("MaxCapacity"), value: Value::Int(reg.max_capacity) });
    fs.push(Field { key: String::from_str("CycleCount"), value: Value::Int(reg.cycle_count) });
    fs.push(Field { key: String::from_str("Voltage"), value: Value::Int(reg.voltage) });
    fs.push(Field { key: String::from_str("IsCharging"), value: Value::Bool(reg.is_charging) });
    fs.push(
        Field { key: String::from_str("ExternalConnected"), value: Value::Bool(reg.external_connected) },
    );
    let mut diag: Vec<Field> = Vec::new();
    diag.push(Field { key: String::from_str("IORegistry"), value: Value::Dict(fs) });
    let mut top: Vec<Field> = Vec::new();
    top.push(Field { key: String::from_str("Status"), value: Value::Str(String::from_str("Success")) });
    top.push(Field { key: String::from_str("Diagnostics"), value: Value::Dict(diag) });
    proof {
        reveal_strlit("CurrentCapacity");
        reveal_strlit("MaxCapacity");
        reveal_strlit("CycleCount");
        reveal_strlit("Voltage");
        reveal_strlit("IsCharging");
        reveal_strlit("ExternalConnected");
        reveal_strlit("Status");
        reveal_strlit("Diagnostics");
        reveal_with_fuel(crate::payload::lookup_from, 7);
        assert("CurrentCapacity"@.len() == 15);
        assert("MaxCapacity"@.len() == 11);
        assert("CycleCount"@.len() == 10);
        assert("Voltage"@.len() == 7);
        assert("IsCharging"@.len() == 10);
        assert("ExternalConnected"@.len() == 17);
        assert("CycleCount"@[0] != "IsCharging"@[0]);
        assert("Status"@.len() != "Diagnostics"@.len());
        assert(int_field(fs@, "CurrentCapacity"@) == Ok::<i64, DictParseError>(reg.current_capacity));
        assert(int_field(fs@, "MaxCapacity"@) == Ok::<i64, DictParseError>(reg.max_capacity));
        assert(int_field(fs@, "CycleCount"@) == Ok::<i64, DictParseError>(reg.cycle_count));
        assert(int_field(fs@, "Voltage"@) == Ok::<i64, DictParseError>(reg.voltage));
        assert(bool_field(fs@, "IsCharging"@) == Ok::<bool, DictParseError>(reg.is_charging));
        assert(bool_field(fs@, "ExternalConnected"@) == Ok::<bool, DictParseError>(reg.external_connected));
        assert(registry_of(Value::Dict(fs)) == Ok::<IORegistry, DictParseError>(*reg));
        assert(lookup(diag@, "IORegistry"@) == Some(Value::Dict(fs)));
        assert(lookup(top@, "Diagnostics"@) == Some(Value::Dict(diag)));
    }
    Value::Dict(top)
}

/// A well-formed reply whose diagnostics dictionary has no registry record is
/// rejected as `InvalidDiagnostics`, never read as a record of default values.
pub proof fn lemma_missing_registry_is_invalid(payload: Value, diag: Vec<Field>)
    requires
        payload matches Value::Dict(top) && lookup(top@, "Diagnostics"@) == Some(Value::Dict(diag)),
        lookup(diag@, "IORegistry"@) is None,
    ensures
        parse_spec(payload) == Err::<IORegistryDiagnostic, DeviceDataError>(
            DeviceDataError::InvalidDiagnostics,
        ),
{
}

} // verus!
