use tpower_device::codec::{complete_exchange, decode, decode_registry, encode_response};
use tpower_device::{
    build_request, get_device_ioreg, parse, DeviceDataError, DictParseError, Field, IORegistry,
    NormalizedResource, Request, ServiceConnection, Value,
};

fn field(key: &str, value: Value) -> Field {
    Field { key: key.to_string(), value }
}

fn sample_registry() -> IORegistry {
    IORegistry {
        current_capacity: 87,
        max_capacity: 100,
        cycle_count: 312,
        voltage: 4210,
        is_charging: true,
        external_connected: true,
    }
}

fn registry_fields() -> Vec<Field> {
    vec![
        field("CurrentCapacity", Value::Int(87)),
        field("MaxCapacity", Value::Int(100)),
        field("CycleCount", Value::Int(312)),
        field("Voltage", Value::Int(4210)),
        field("IsCharging", Value::Bool(true)),
        field("ExternalConnected", Value::Bool(true)),
    ]
}

fn reply_with(diag: Vec<Field>) -> Value {
    Value::Dict(vec![
        field("Status", Value::Str("Success".to_string())),
        field("Diagnostics", Value::Dict(diag)),
    ])
}

#[test]
fn request_is_power_source_registry_query() {
    let r = build_request();
    assert_eq!(r.entries.len(), 2);
    assert_eq!(r.entries[0], ("EntryClass".to_string(), "IOPMPowerSource".to_string()));
    assert_eq!(r.entries[1], ("Request".to_string(), "IORegistry".to_string()));
}

#[test]
fn parse_of_encoded_response_has_registry() {
    let reply = encode_response(&sample_registry());
    let parsed = parse(&reply).unwrap();
    assert_eq!(parsed.ioregistry, Some(sample_registry()));
}

#[test]
fn parse_of_hand_built_response() {
    let reply = reply_with(vec![field("IORegistry", Value::Dict(registry_fields()))]);
    let parsed = parse(&reply).unwrap();
    assert_eq!(parsed.ioregistry, Some(sample_registry()));
}

#[test]
fn parse_without_registry_is_invalid_diagnostics() {
    let reply = reply_with(vec![field("Other", Value::Int(1))]);
    assert_eq!(parse(&reply).unwrap_err(), DeviceDataError::InvalidDiagnostics);
    assert_eq!(decode(&reply).unwrap().ioregistry, None);
}

#[test]
fn parse_of_non_dictionary_is_parse_error() {
    assert_eq!(
        parse(&Value::Int(3)).unwrap_err(),
        DeviceDataError::Parse(DictParseError::NotDictionary)
    );
}

#[test]
fn parse_without_diagnostics_is_missing_key() {
    let reply = Value::Dict(vec![field("Status", Value::Str("Success".to_string()))]);
    assert_eq!(parse(&reply).unwrap_err(), DeviceDataError::Parse(DictParseError::MissingKey));
}

#[test]
fn parse_with_scalar_diagnostics_is_wrong_type() {
    let reply = Value::Dict(vec![field("Diagnostics", Value::Bool(false))]);
    assert_eq!(parse(&reply).unwrap_err(), DeviceDataError::Parse(DictParseError::WrongType));
}

#[test]
fn registry_with_missing_field_is_missing_key() {
    let mut fs = registry_fields();
    fs.remove(3);
    let reply = reply_with(vec![field("IORegistry", Value::Dict(fs))]);
    assert_eq!(parse(&reply).unwrap_err(), DeviceDataError::Parse(DictParseError::MissingKey));
}

#[test]
fn registry_with_wrongly_typed_field_is_wrong_type() {
    let mut fs = registry_fields();
    fs[4] = field("IsCharging", Value::Int(1));
    assert_eq!(decode_registry(&Value::Dict(fs)), Err(DictParseError::WrongType));
}

#[test]
fn registry_that_is_not_a_dictionary() {
    let reply = reply_with(vec![field("IORegistry", Value::Str("x".to_string()))]);
    assert_eq!(parse(&reply).unwrap_err(), DeviceDataError::Parse(DictParseError::NotDictionary));
}

#[test]
fn first_field_with_a_key_wins() {
    let mut fs = registry_fields();
    fs.push(field("CycleCount", Value::Int(5)));
    assert_eq!(decode_registry(&Value::Dict(fs)).unwrap().cycle_count, 312);
}

#[test]
fn exchange_errors_in_order() {
    let good = encode_response(&sample_registry());
    assert_eq!(complete_exchange(Err(-3), Ok(Some(good))), Err(DeviceDataError::Send(-3)));
    assert_eq!(complete_exchange(Ok(()), Err(7)), Err(DeviceDataError::Receive(7)));
    assert_eq!(complete_exchange(Ok(()), Ok(None)), Err(DeviceDataError::NullResponse));
    let good = encode_response(&sample_registry());
    assert_eq!(complete_exchange(Ok(()), Ok(Some(good))), Ok(sample_registry()));
}

#[test]
fn normalized_resource_keeps_fields() {
    let n = NormalizedResource::from_registry(&sample_registry());
    assert_eq!(n.current_capacity, 87);
    assert_eq!(n.max_capacity, 100);
    assert_eq!(n.cycle_count, 312);
    assert_eq!(n.voltage, 4210);
    assert!(n.is_charging);
    assert!(n.external_connected);
}

struct Scripted {
    send: Result<(), i32>,
    reply: Option<IORegistry>,
    receive_error: Option<i32>,
}

impl ServiceConnection for Scripted {
    fn send(&self, request: &Request) -> Result<(), i32> {
        assert_eq!(request.entries.len(), 2);
        self.send
    }

    fn receive(&self) -> Result<Option<Value>, i32> {
        if let Some(c) = self.receive_error {
            return Err(c);
        }
        Ok(self.reply.as_ref().map(encode_response))
    }
}

#[test]
fn get_device_ioreg_through_a_connection() {
    let ok = Scripted { send: Ok(()), reply: Some(sample_registry()), receive_error: None };
    assert_eq!(get_device_ioreg(&ok), Ok(sample_registry()));
    let refused = Scripted { send: Err(4), reply: Some(sample_registry()), receive_error: None };
    assert_eq!(get_device_ioreg(&refused), Err(DeviceDataError::Send(4)));
    let unread = Scripted { send: Ok(()), reply: None, receive_error: Some(9) };
    assert_eq!(get_device_ioreg(&unread), Err(DeviceDataError::Receive(9)));
    let empty = Scripted { send: Ok(()), reply: None, receive_error: None };
    assert_eq!(get_device_ioreg(&empty), Err(DeviceDataError::NullResponse));
}

#[test]
fn parse_error_converts_from_dict_error() {
    assert_eq!(
        DeviceDataError::from(DictParseError::WrongType),
        DeviceDataError::Parse(DictParseError::WrongType)
    );
}
