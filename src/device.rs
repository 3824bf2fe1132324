use vstd::prelude::*;

verus! {

/// The transport over which a device is attached.
#[derive(Debug, Clone, Copy, PartialEq, Eq, Structural, Hash)]
pub enum InterfaceType {
    Unknown,
    Usb,
    Wifi,
}

/// What a presence notification reports about a device.
#[derive(Debug, Clone, Copy, PartialEq, Eq, Structural)]
pub enum Action {
    Attached,
    Detached,
    /// Any other notification code, kept as it came.
    Unknown(u32),
}

/// The notification code of an attach.
pub const ATTACHED_CODE: u32 = 1;

/// The notification code of a detach.
pub const DETACHED_CODE: u32 = 2;

pub open spec fn action_of(code: u32) -> Action {
    if code == ATTACHED_CODE {
        Action::Attached
    } else if code == DETACHED_CODE {
        Action::Detached
    } else {
        Action::Unknown(code)
    }
}

impl Action {
    /// Reads a native notification code.
    pub fn from_code(code: u32) -> (r: Action)
        ensures
            r == action_of(code),
    {
        if code == ATTACHED_CODE {
            Action::Attached
        } else if code == DETACHED_CODE {
            Action::Detached
        } else {
            Action::Unknown(code)
        }
    }
}

/// A device, identified by its udid.
pub struct Device {
    pub udid: String,
    pub interface_type: InterfaceType,
}

/// A presence notification as the discovery layer delivers it; `device` is
/// `None` where the native handle was null.
pub struct NotificationInfo {
    pub device: Option<Device>,
    pub action_code: u32,
}

/// One lifecycle message: a device and what happened to it.
pub struct DeviceMessage {
    pub device: Device,
    pub action: Action,
}

/// The message that a notification yields, if any.
pub open spec fn message_of(info: Option<NotificationInfo>, has_context: bool) -> Option<
    (Seq<char>, InterfaceType, Action),
> {
    match info {
        Some(i) => if has_context && i.device is Some {
            Some(
                (
                    i.device->Some_0.udid@,
                    i.device->Some_0.interface_type,
                    action_of(i.action_code),
                ),
            )
        } else {
            None
        },
        None => None,
    }
}

/// Validates one native notification and turns it into a lifecycle message.
/// A missing notification, context or device handle yields no message.
pub fn bridge_callback(info: Option<NotificationInfo>, has_context: bool) -> (r: Option<
    DeviceMessage,
>)
    ensures
        message_of(info, has_context) is None <==> r is None,
        r matches Some(m) ==> message_of(info, has_context) == Some(
            (m.device.udid@, m.device.interface_type, m.action),
        ),
{
    if !has_context {
        return None;
    }
    match info {
        None => None,
        Some(i) => {
            let action = Action::from_code(i.action_code);
            match i.device {
                None => None,
                Some(device) => Some(DeviceMessage { device, action }),
            }
        },
    }
}

/// A lifecycle event, as observers receive it.
pub struct DeviceEvent {
    pub udid: String,
    pub name: String,
    pub interface: InterfaceType,
    pub action: Action,
}

/// A notification with no descriptor, no context or no device handle yields no
/// lifecycle message.
pub proof fn lemma_null_notification_yields_no_message(info: Option<NotificationInfo>, has_context: bool)
    requires
        info is None || !has_context || info->Some_0.device is None,
    ensures
        message_of(info, has_context) is None,
{
}

} // verus!
