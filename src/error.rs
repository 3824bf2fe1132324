use vstd::prelude::*;

verus! {

/// Why a diagnostics payload could not be decoded into the typed record.
#[derive(Debug, Clone, Copy, PartialEq, Eq, Structural)]
pub enum DictParseError {
    /// The payload, or a part of it that must be a dictionary, is not one.
    NotDictionary,
    /// A required key is absent.
    MissingKey,
    /// A key is present but holds a value of another kind.
    WrongType,
}

/// The ways one diagnostics poll of one device can fail.
#[derive(Debug, Clone, Copy, PartialEq, Eq, Structural)]
pub enum DeviceDataError {
    /// The transport refused the outbound request, with its code.
    Send(i32),
    /// The transport failed to read the reply, with its code.
    Receive(i32),
    /// The reply is not a well-formed diagnostics payload.
    Parse(DictParseError),
    /// The transport returned no payload at all.
    NullResponse,
    /// The reply is well-formed but carries no registry record.
    InvalidDiagnostics,
}

impl From<DictParseError> for DeviceDataError {
    fn from(e: DictParseError) -> (r: DeviceDataError)
        ensures
            r == DeviceDataError::Parse(e),
    {
        DeviceDataError::Parse(e)
    }
}

impl vstd::std_specs::convert::FromSpecImpl<DictParseError> for DeviceDataError {
    open spec fn obeys_from_spec() -> bool {
        true
    }

    open spec fn from_spec(e: DictParseError) -> DeviceDataError {
        DeviceDataError::Parse(e)
    }
}

} // verus!
