//! Peripherals as the bridge sees them, and the bridge's error taxonomy.

use vstd::prelude::*;

verus! {

/// The mathematical value of a peripheral handle: its stable identifier
/// and its advertised display name.
#[verifier::ext_equal]
pub struct HandleView {
    pub id: Seq<char>,
    pub name: Seq<char>,
}

/// One discovered peripheral that the bridge can connect to. The
/// identifier is stable for the lifetime of a scan listing; the name is
/// the advertised display name.
#[derive(Debug)]
pub struct PeripheralHandle {
    pub id: String,
    pub name: String,
}

impl View for PeripheralHandle {
    type V = HandleView;

    open spec fn view(&self) -> HandleView {
        HandleView { id: self.id@, name: self.name@ }
    }
}

impl PeripheralHandle {
    /// A fresh handle for the same peripheral.
    pub fn duplicate(&self) -> (r: PeripheralHandle)
        ensures
            r@ == self@,
    {
        PeripheralHandle { id: self.id.clone(), name: self.name.clone() }
    }
}

/// The mathematical value of one discovery report.
#[verifier::ext_equal]
pub struct DiscoveredView {
    pub id: Seq<char>,
    pub name: Option<Seq<char>>,
}

/// One peripheral as reported by a discovery window: its identifier and,
/// when the peripheral advertised one, its display name.
pub struct DiscoveredPeripheral {
    pub id: String,
    pub name: Option<String>,
}

impl View for DiscoveredPeripheral {
    type V = DiscoveredView;

    open spec fn view(&self) -> DiscoveredView {
        DiscoveredView {
            id: self.id@,
            name: match self.name {
                Some(n) => Some(n@),
                None => None,
            },
        }
    }
}

/// Everything that can go wrong in the connection lifecycle.
#[derive(Clone, Copy, Debug, PartialEq, Eq, Structural)]
pub enum BridgeError {
    /// No local transport adapter exists.
    AdapterUnavailable,
    /// The discovery API failed.
    TransportError,
    /// The requested identifier is not among the known devices.
    DeviceNotFound,
    /// Establishing the link failed.
    LinkError,
    /// The device does not expose the heart-rate measurement characteristic.
    CharacteristicNotFound,
    /// Subscribing to notifications failed.
    SubscribeError,
}

impl BridgeError {
    /// The descriptive message surfaced to the caller.
    pub fn message(&self) -> (m: &'static str)
        ensures
            *self == BridgeError::AdapterUnavailable ==> m@ == "No Bluetooth adapter found"@,
            *self == BridgeError::TransportError ==> m@ == "Bluetooth discovery failed"@,
            *self == BridgeError::DeviceNotFound ==> m@ == "Device not found"@,
            *self == BridgeError::LinkError ==> m@ == "Failed to connect to device"@,
            *self == BridgeError::CharacteristicNotFound ==> m@
                == "Heart Rate Measurement characteristic not found"@,
            *self == BridgeError::SubscribeError ==> m@ == "Failed to subscribe to notifications"@,
    {
        match self {
            BridgeError::AdapterUnavailable => "No Bluetooth adapter found",
            BridgeError::TransportError => "Bluetooth discovery failed",
            BridgeError::DeviceNotFound => "Device not found",
            BridgeError::LinkError => "Failed to connect to device",
            BridgeError::CharacteristicNotFound => "Heart Rate Measurement characteristic not found",
            BridgeError::SubscribeError => "Failed to subscribe to notifications",
        }
    }
}

} // verus!
