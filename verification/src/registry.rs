//! The connection registry and its lifecycle transitions.
//!
//! The registry is the single source of truth for what is connected now.
//! The transport work itself — discovery, link establishment, service
//! discovery, subscription — happens outside the library; each
//! transition here takes the outcome of that work and moves the registry
//! by exactly one event of the lifecycle model.

use vstd::prelude::*;

use crate::device::BridgeError;
use crate::device::DiscoveredPeripheral;
use crate::device::DiscoveredView;
use crate::device::HandleView;
use crate::device::PeripheralHandle;
use crate::lifecycle::RegistryEvent;
use crate::lifecycle::RegistryView;
use crate::lifecycle::find_id;
use crate::lifecycle::lemma_named_handles_push;
use crate::lifecycle::named_handles;
use crate::lifecycle::registry_step;

verus! {

/// The views of a sequence of handles.
pub open spec fn handle_views(handles: Seq<PeripheralHandle>) -> Seq<HandleView> {
    handles.map_values(|h: PeripheralHandle| h@)
}

/// The views of a sequence of discovery reports.
pub open spec fn discovered_views(found: Seq<DiscoveredPeripheral>) -> Seq<DiscoveredView> {
    found.map_values(|p: DiscoveredPeripheral| p@)
}

/// What a discovery window came to: no adapter, a failed discovery, or
/// the peripherals it found.
pub enum ScanOutcome {
    /// No local transport adapter exists.
    NoAdapter,
    /// The discovery API failed.
    DiscoveryFailed,
    /// Discovery finished and reported these peripherals.
    Discovered(Vec<DiscoveredPeripheral>),
}

/// What the transport work of one connect attempt came to, after the
/// device was found among the known devices.
pub enum LinkOutcome {
    /// Establishing the link failed.
    LinkFailed,
    /// The device exposes no heart-rate measurement characteristic.
    NoHeartRateCharacteristic,
    /// Subscribing to the characteristic's notifications failed.
    SubscribeFailed,
    /// The subscription is live and its notification stream is open.
    Subscribed,
}

/// The process-wide store of the last scan's devices and the currently
/// connected device, if any.
pub struct ConnectionRegistry {
    /// The peripherals the last scan found, in listing order.
    pub known_devices: Vec<PeripheralHandle>,
    /// The currently connected peripheral; `None` means no connection.
    pub active_connection: Option<PeripheralHandle>,
}

impl View for ConnectionRegistry {
    type V = RegistryView;

    open spec fn view(&self) -> RegistryView {
        RegistryView {
            known: handle_views(self.known_devices@),
            active: match self.active_connection {
                Some(h) => Some(h@),
                None => None,
            },
        }
    }
}

impl ConnectionRegistry {
    /// An empty registry: nothing scanned, nothing connected.
    pub fn new() -> (r: ConnectionRegistry)
        ensures
            r@ == (RegistryView { known: Seq::<HandleView>::empty(), active: None::<HandleView> }),
    {
        let r = ConnectionRegistry { known_devices: Vec::new(), active_connection: None };
        proof {
            assert(r@.known =~= Seq::<HandleView>::empty());
        }
        r
    }

    /// Takes what a discovery window came to. On a failure the registry
    /// is untouched and the error names the failing step; on success the
    /// discoveries that advertised a non-empty name fully replace the
    /// known devices, the active connection is untouched, and the
    /// returned listing gives each kept peripheral's identifier and name
    /// in discovery order.
    pub fn apply_scan_outcome(&mut self, outcome: ScanOutcome) -> (r: Result<
        Vec<(String, String)>,
        BridgeError,
    >)
        ensures
            match outcome {
                ScanOutcome::NoAdapter => r == Err::<Vec<(String, String)>, BridgeError>(
                    BridgeError::AdapterUnavailable,
                ) && final(self)@ == old(self)@,
                ScanOutcome::DiscoveryFailed => r == Err::<Vec<(String, String)>, BridgeError>(
                    BridgeError::TransportError,
                ) && final(self)@ == old(self)@,
                ScanOutcome::Discovered(found) => {
                    let named = named_handles(discovered_views(found@));
                    &&& final(self)@ == registry_step(
                        old(self)@,
                        RegistryEvent::ScanCompleted(named),
                    )
                    &&& r matches Ok(listing)
                    &&& listing@.len() == named.len()
                    &&& forall|k: int|
                        0 <= k < named.len() ==> (#[trigger] listing@[k]).0@ == named[k].id
                            && listing@[k].1@ == named[k].name
                },
            },
    {
        match outcome {
            ScanOutcome::NoAdapter => Err(BridgeError::AdapterUnavailable),
            ScanOutcome::DiscoveryFailed => Err(BridgeError::TransportError),
            ScanOutcome::Discovered(found) => {
                let mut handles: Vec<PeripheralHandle> = Vec::new();
                let mut listing: Vec<(String, String)> = Vec::new();
                let mut i: usize = 0;
                while i < found.len()
                    invariant
                        i <= found@.len(),
                        handle_views(handles@) == named_handles(
                            discovered_views(found@).take(i as int),
                        ),
                        listing@.len() == handles@.len(),
                        forall|k: int|
                            0 <= k < handles@.len() ==> (#[trigger] listing@[k]).0@
                                == handles@[k]@.id && listing@[k].1@ == handles@[k]@.name,
                    decreases found@.len() - i,
                {
                    let p = &found[i];
                    proof {
                        assert(discovered_views(found@).take(i + 1) =~= discovered_views(
                            found@,
                        ).take(i as int).push(found@[i as int]@));
                        lemma_named_handles_push(
                            discovered_views(found@).take(i as int),
                            found@[i as int]@,
                        );
                    }
                    match &p.name {
                        Some(n) => {
                            if !n.as_str().is_empty() {
                                let ghost handles_before = handles@;
                                let handle = PeripheralHandle { id: p.id.clone(), name: n.clone() };
                                listing.push((p.id.clone(), n.clone()));
                                handles.push(handle);
                                proof {
                                    assert(handle_views(handles@) =~= handle_views(
                                        handles_before,
                                    ).push(handles@[handles@.len() - 1]@));
                                }
                            }
                        },
                        None => {},
                    }
                    i += 1;
                }
                proof {
                    assert(discovered_views(found@).take(found@.len() as int) =~= discovered_views(
                        found@,
                    ));
                }
                self.known_devices = handles;
                proof {
                    assert(self@ =~= registry_step(
                        old(self)@,
                        RegistryEvent::ScanCompleted(named_handles(discovered_views(found@))),
                    ));
                }
                Ok(listing)
            },
        }
    }

    /// Looks an identifier up among the known devices: the first match,
    /// or `DeviceNotFound` exactly when no known device carries it. The
    /// registry itself is untouched.
    pub fn lookup_device(&self, device_id: &String) -> (r: Result<PeripheralHandle, BridgeError>)
        ensures
            match r {
                Ok(h) => find_id(self@.known, device_id@) == Some(h@),
                Err(e) => e == BridgeError::DeviceNotFound && find_id(self@.known, device_id@)
                    is None,
            },
    {
        let mut i: usize = 0;
        proof {
            assert(self@.known.skip(0) =~= self@.known);
        }
        while i < self.known_devices.len()
            invariant
                i <= self.known_devices@.len(),
                find_id(self@.known, device_id@) == find_id(self@.known.skip(i as int), device_id@),
            decreases self.known_devices@.len() - i,
        {
            proof {
                assert(self@.known.skip(i as int)[0] == self@.known[i as int]);
                assert(self@.known.skip(i as int).drop_first() =~= self@.known.skip(i + 1));
            }
            if self.known_devices[i].id == *device_id {
                return Ok(self.known_devices[i].duplicate());
            }
            i += 1;
        }
        proof {
            assert(self@.known.skip(self.known_devices@.len() as int) =~= Seq::<
                HandleView,
            >::empty());
        }
        Err(BridgeError::DeviceNotFound)
    }

    /// Takes what the transport work of a connect attempt came to. Only
    /// a live subscription publishes the handle as the active
    /// connection; every failure leaves the registry exactly as it was
    /// and names the failing step.
    pub fn apply_connect_outcome(&mut self, handle: PeripheralHandle, outcome: &LinkOutcome) -> (r:
        Result<(), BridgeError>)
        ensures
            match outcome {
                LinkOutcome::LinkFailed => r == Err::<(), BridgeError>(BridgeError::LinkError)
                    && final(self)@ == registry_step(old(self)@, RegistryEvent::ConnectFailed),
                LinkOutcome::NoHeartRateCharacteristic => r == Err::<(), BridgeError>(
                    BridgeError::CharacteristicNotFound,
                ) && final(self)@ == registry_step(old(self)@, RegistryEvent::ConnectFailed),
                LinkOutcome::SubscribeFailed => r == Err::<(), BridgeError>(
                    BridgeError::SubscribeError,
                ) && final(self)@ == registry_step(old(self)@, RegistryEvent::ConnectFailed),
                LinkOutcome::Subscribed => r == Ok::<(), BridgeError>(()) && final(self)@
                    == registry_step(old(self)@, RegistryEvent::ConnectPublished(handle@)),
            },
    {
        match outcome {
            LinkOutcome::LinkFailed => Err(BridgeError::LinkError),
            LinkOutcome::NoHeartRateCharacteristic => Err(BridgeError::CharacteristicNotFound),
            LinkOutcome::SubscribeFailed => Err(BridgeError::SubscribeError),
            LinkOutcome::Subscribed => {
                self.active_connection = Some(handle);
                proof {
                    assert(self@ =~= registry_step(
                        old(self)@,
                        RegistryEvent::ConnectPublished(handle@),
                    ));
                }
                Ok(())
            },
        }
    }

    /// The final step of every disconnect: whatever the best-effort
    /// teardown came to, the registry ends with no active connection.
    pub fn finish_disconnect(&mut self)
        ensures
            final(self)@ == registry_step(old(self)@, RegistryEvent::DisconnectCompleted),
    {
        self.active_connection = None;
        proof {
            assert(self@ =~= registry_step(old(self)@, RegistryEvent::DisconnectCompleted));
        }
    }

    /// What a notification stream's end does to the registry: the active
    /// connection is cleared only if it still refers to the device whose
    /// stream ended.
    pub fn clear_if_active(&mut self, device_id: &String)
        ensures
            final(self)@ == registry_step(old(self)@, RegistryEvent::StreamEnded(device_id@)),
    {
        let clear = match &self.active_connection {
            Some(h) => h.id == *device_id,
            None => false,
        };
        if clear {
            self.active_connection = None;
        }
        proof {
            assert(self@ =~= registry_step(old(self)@, RegistryEvent::StreamEnded(device_id@)));
        }
    }
}

} // verus!
