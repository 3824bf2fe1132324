use vstd::prelude::*;

pub mod codec;
pub mod control;
pub mod device;
pub mod error;
pub mod payload;
pub mod projection;
pub mod registry;

pub use codec::{
    build_request, get_device_ioreg, parse, IORegistry, IORegistryDiagnostic, NormalizedResource,
    Request, ServiceConnection,
};
pub use control::{ControlLoop, DevicePowerTickEvent, MessageStep, PollOutcome};
pub use device::{Action, Device, DeviceEvent, DeviceMessage, InterfaceType, NotificationInfo};
pub use error::{DeviceDataError, DictParseError};
pub use payload::{Field, Value};
pub use projection::DeviceState;
pub use registry::{ConnectionEntry, ConnectionRegistry};

verus! {

} // verus!
