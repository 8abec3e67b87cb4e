//! The mathematical model of the connection registry lifecycle.
//!
//! The registry holds the last scan's device listing and the single
//! active connection, if any. Every change to it is one of a few events:
//! a scan replacing the listing, a connect publishing a new active
//! connection or failing without effect, a disconnect clearing the
//! active connection, and a notification stream ending. The laws at the
//! bottom state how the registry behaves across whole event sequences.

use vstd::prelude::*;

use crate::device::DiscoveredView;
use crate::device::HandleView;

verus! {

/// The mathematical value of the connection registry: the known devices
/// in listing order, and the active connection, if any.
#[verifier::ext_equal]
pub struct RegistryView {
    pub known: Seq<HandleView>,
    pub active: Option<HandleView>,
}

/// The first known handle carrying the given identifier, if any.
pub open spec fn find_id(known: Seq<HandleView>, id: Seq<char>) -> Option<HandleView>
    decreases known.len(),
{
    if known.len() == 0 {
        None
    } else if known[0].id == id {
        Some(known[0])
    } else {
        find_id(known.drop_first(), id)
    }
}

/// The handles a scan keeps: one per discovery that advertised a
/// non-empty name, in discovery order. Discoveries without a name, or
/// with an empty one, are excluded.
pub open spec fn named_handles(d: Seq<DiscoveredView>) -> Seq<HandleView>
    decreases d.len(),
{
    if d.len() == 0 {
        Seq::empty()
    } else {
        let rest = named_handles(d.drop_first());
        match d[0].name {
            Some(n) => if n.len() > 0 {
                seq![HandleView { id: d[0].id, name: n }] + rest
            } else {
                rest
            },
            None => rest,
        }
    }
}

/// One completed change to the registry.
pub enum RegistryEvent {
    /// A scan finished and its named discoveries replace the listing.
    ScanCompleted(Seq<HandleView>),
    /// A connect succeeded through subscription and published its handle.
    ConnectPublished(HandleView),
    /// A connect failed at some step and published nothing.
    ConnectFailed,
    /// A disconnect ran to its final state-clearing step.
    DisconnectCompleted,
    /// The notification stream of the named device ended.
    StreamEnded(Seq<char>),
}

/// How one event changes the registry.
pub open spec fn registry_step(s: RegistryView, e: RegistryEvent) -> RegistryView {
    match e {
        RegistryEvent::ScanCompleted(named) => RegistryView { known: named, active: s.active },
        RegistryEvent::ConnectPublished(h) => RegistryView { known: s.known, active: Some(h) },
        RegistryEvent::ConnectFailed => s,
        RegistryEvent::DisconnectCompleted => RegistryView { known: s.known, active: None },
        RegistryEvent::StreamEnded(id) => if s.active matches Some(a) && a.id == id {
            RegistryView { known: s.known, active: None }
        } else {
            s
        },
    }
}

/// The registry after a whole sequence of events.
pub open spec fn registry_run(s: RegistryView, events: Seq<RegistryEvent>) -> RegistryView
    decreases events.len(),
{
    if events.len() == 0 {
        s
    } else {
        registry_run(registry_step(s, events[0]), events.drop_first())
    }
}

/// `find_id` answers `None` exactly when no known handle carries the
/// identifier, and a found handle carries it and is known.
pub proof fn lemma_find_id_characterisation(known: Seq<HandleView>, id: Seq<char>)
    ensures
        (find_id(known, id) is None) <==> (forall|i: int|
            0 <= i < known.len() ==> known[i].id != id),
        find_id(known, id) matches Some(h) ==> h.id == id && known.contains(h),
    decreases known.len(),
{
    if known.len() > 0 {
        lemma_find_id_characterisation(known.drop_first(), id);
        if known[0].id != id {
            if find_id(known.drop_first(), id) is Some {
                let h = find_id(known.drop_first(), id)->Some_0;
                let j = choose|j: int|
                    0 <= j < known.drop_first().len() && known.drop_first()[j] == h;
                assert(known[j + 1] == h);
            }
            if find_id(known, id) is None {
                assert forall|i: int| 0 <= i < known.len() implies known[i].id != id by {
                    if i > 0 {
                        assert(known.drop_first()[i - 1] == known[i]);
                    }
                }
            }
            if forall|i: int| 0 <= i < known.len() ==> known[i].id != id {
                assert forall|i: int|
                    0 <= i < known.drop_first().len() implies known.drop_first()[i].id != id by {
                    assert(known.drop_first()[i] == known[i + 1]);
                }
            }
        } else {
            assert(known.contains(known[0]));
        }
    }
}

/// Appending one discovery to a scan appends its handle when its name
/// is present and non-empty, and nothing otherwise.
pub proof fn lemma_named_handles_push(d: Seq<DiscoveredView>, x: DiscoveredView)
    ensures
        named_handles(d.push(x)) == named_handles(d) + match x.name {
            Some(n) => if n.len() > 0 {
                seq![HandleView { id: x.id, name: n }]
            } else {
                Seq::<HandleView>::empty()
            },
            None => Seq::<HandleView>::empty(),
        },
    decreases d.len(),
{
    let e = d.push(x);
    let tail = match x.name {
        Some(n) => if n.len() > 0 {
            seq![HandleView { id: x.id, name: n }]
        } else {
            Seq::<HandleView>::empty()
        },
        None => Seq::<HandleView>::empty(),
    };
    if d.len() == 0 {
        assert(e[0] == x);
        assert(e.drop_first() =~= Seq::<DiscoveredView>::empty());
        assert(named_handles(Seq::<DiscoveredView>::empty()) == Seq::<HandleView>::empty());
        assert(named_handles(e) =~= named_handles(d) + tail);
    } else {
        assert(e[0] == d[0]);
        assert(e.drop_first() =~= d.drop_first().push(x));
        lemma_named_handles_push(d.drop_first(), x);
        assert(named_handles(e.drop_first()) == named_handles(d.drop_first()) + tail);
        let kept_head = d[0].name matches Some(n0) && n0.len() > 0;
        if kept_head {
            let n0 = d[0].name->Some_0;
            let p = seq![HandleView { id: d[0].id, name: n0 }];
            assert(named_handles(e) == p + named_handles(e.drop_first()));
            assert(named_handles(d) == p + named_handles(d.drop_first()));
            assert(p + (named_handles(d.drop_first()) + tail) =~= (p + named_handles(
                d.drop_first(),
            )) + tail);
        } else {
            assert(named_handles(e) == named_handles(e.drop_first()));
            assert(named_handles(d) == named_handles(d.drop_first()));
        }
    }
}

/// A scan keeps exactly the discoveries that advertised a non-empty
/// name: a handle is in the kept listing exactly when its name is
/// non-empty and some discovery reported its identifier and advertised
/// its name. Discoveries without a name, or with an empty one, are
/// never present.
pub proof fn lemma_scan_records_exactly_named(d: Seq<DiscoveredView>)
    ensures
        forall|h: HandleView| #[trigger] named_handles(d).contains(h) <==> (h.name.len() > 0
            && exists|j: int|
            0 <= j < d.len() && (#[trigger] d[j]).id == h.id && d[j].name == Some(h.name)),
    decreases d.len(),
{
    if d.len() > 0 {
        let rest = d.drop_first();
        lemma_scan_records_exactly_named(rest);
        let kept_head = d[0].name matches Some(n0) && n0.len() > 0;
        assert forall|h: HandleView| #[trigger] named_handles(d).contains(h) implies (h.name.len()
            > 0 && exists|j: int|
            0 <= j < d.len() && (#[trigger] d[j]).id == h.id && d[j].name == Some(h.name)) by {
            let i = choose|i: int| 0 <= i < named_handles(d).len() && named_handles(d)[i] == h;
            if kept_head && i == 0 {
                assert(d[0].id == h.id && d[0].name == Some(h.name));
            } else {
                if kept_head {
                    assert(named_handles(rest)[i - 1] == h);
                }
                assert(named_handles(rest).contains(h));
                let j = choose|j: int|
                    0 <= j < rest.len() && (#[trigger] rest[j]).id == h.id && rest[j].name == Some(
                        h.name,
                    );
                assert(d[j + 1] == rest[j]);
            }
        }
        assert forall|h: HandleView|
            (h.name.len() > 0 && exists|j: int|
                0 <= j < d.len() && (#[trigger] d[j]).id == h.id && d[j].name == Some(
                    h.name,
                )) implies #[trigger] named_handles(d).contains(h) by {
            let j = choose|j: int|
                0 <= j < d.len() && (#[trigger] d[j]).id == h.id && d[j].name == Some(h.name);
            if j == 0 {
                assert(named_handles(d)[0] == h);
            } else {
                assert(rest[j - 1] == d[j]);
                assert(named_handles(rest).contains(h));
                let i = choose|i: int|
                    0 <= i < named_handles(rest).len() && named_handles(rest)[i] == h;
                if kept_head {
                    assert(named_handles(d)[i + 1] == h);
                } else {
                    assert(named_handles(d)[i] == h);
                }
            }
        }
    }
}

/// A connect attempt for an identifier not among the known devices finds
/// no device, and a connect that fails leaves the registry unchanged.
pub proof fn lemma_unknown_device_connect(s: RegistryView, id: Seq<char>)
    requires
        forall|i: int| 0 <= i < s.known.len() ==> (#[trigger] s.known[i]).id != id,
    ensures
        find_id(s.known, id) is None,
        registry_step(s, RegistryEvent::ConnectFailed) == s,
{
    lemma_find_id_characterisation(s.known, id);
}

/// While the active connection is a given handle, it stays that handle
/// across scans, failed connects, stream ends of other devices, and
/// republishes of the same handle.
pub proof fn lemma_active_connection_stable(s: RegistryView, h: HandleView, events: Seq<
    RegistryEvent,
>)
    requires
        s.active == Some(h),
        forall|i: int| 0 <= i < events.len() ==> match #[trigger] events[i] {
            RegistryEvent::ScanCompleted(_) => true,
            RegistryEvent::ConnectFailed => true,
            RegistryEvent::StreamEnded(id) => id != h.id,
            RegistryEvent::ConnectPublished(h2) => h2 == h,
            RegistryEvent::DisconnectCompleted => false,
        },
    ensures
        registry_run(s, events).active == Some(h),
    decreases events.len(),
{
    if events.len() > 0 {
        let s1 = registry_step(s, events[0]);
        assert(s1.active == Some(h));
        assert forall|i: int| 0 <= i < events.drop_first().len() implies match #[trigger] events.drop_first()[i] {
            RegistryEvent::ScanCompleted(_) => true,
            RegistryEvent::ConnectFailed => true,
            RegistryEvent::StreamEnded(id) => id != h.id,
            RegistryEvent::ConnectPublished(h2) => h2 == h,
            RegistryEvent::DisconnectCompleted => false,
        } by {
            assert(events.drop_first()[i] == events[i + 1]);
        }
        lemma_active_connection_stable(s1, h, events.drop_first());
    }
}

/// After a successful connect publishes a handle, the active connection
/// equals that handle until a disconnect, a stream end for that device,
/// or a connect that publishes another handle.
pub proof fn lemma_active_connection_persists(s: RegistryView, h: HandleView, events: Seq<
    RegistryEvent,
>)
    requires
        forall|i: int| 0 <= i < events.len() ==> match #[trigger] events[i] {
            RegistryEvent::ScanCompleted(_) => true,
            RegistryEvent::ConnectFailed => true,
            RegistryEvent::StreamEnded(id) => id != h.id,
            RegistryEvent::ConnectPublished(h2) => h2 == h,
            RegistryEvent::DisconnectCompleted => false,
        },
    ensures
        registry_run(registry_step(s, RegistryEvent::ConnectPublished(h)), events).active == Some(
            h,
        ),
{
    lemma_active_connection_stable(registry_step(s, RegistryEvent::ConnectPublished(h)), h, events);
}

/// Disconnect is idempotent: its final step always leaves no active
/// connection, and running it again changes nothing.
pub proof fn lemma_disconnect_idempotent(s: RegistryView)
    ensures
        registry_step(s, RegistryEvent::DisconnectCompleted).active is None,
        registry_step(
            registry_step(s, RegistryEvent::DisconnectCompleted),
            RegistryEvent::DisconnectCompleted,
        ) == registry_step(s, RegistryEvent::DisconnectCompleted),
{
}

} // verus!
