//! Bridges a wireless heart-rate sensor to downstream control protocols.
//!
//! The library holds the verified core of the bridge: the connection
//! registry and its lifecycle transitions, heart-rate notification
//! decoding, and the construction of the downstream MIDI and OSC
//! messages. Transport I/O (the wireless link itself, UDP, the MIDI
//! port) lives outside the library.

pub mod device;
pub mod heart_rate;
pub mod lifecycle;
pub mod midi;
pub mod osc;
pub mod registry;
pub mod remote;

pub use device::BridgeError;
pub use device::DiscoveredPeripheral;
pub use device::PeripheralHandle;
pub use heart_rate::decode_frame;
pub use registry::ConnectionRegistry;
