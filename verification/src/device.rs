//! What the device source reports: the events of its queue and the result of
//! enumerating the controllers that are plugged in.

use crate::button::Button;
use vstd::prelude::*;

verus! {

/// What happened on a controller.
#[derive(Clone, Copy, Debug, PartialEq, Eq, Structural)]
pub enum EventKind {
    /// A button went down.
    ButtonPressed(Button),
    /// A button came up.
    ButtonReleased(Button),
    /// The controller was unplugged.
    Disconnected,
    /// Anything that the control loop does not act on.
    Other,
}

/// One entry of the device source's event queue.
#[derive(Clone, Copy, Debug, PartialEq, Eq, Structural)]
pub struct DeviceEvent {
    /// The controller that the event comes from.
    pub id: u64,
    /// What happened.
    pub kind: EventKind,
}

/// One controller that an enumeration found.
#[derive(Clone, Copy, Debug, PartialEq, Eq, Structural)]
pub struct DeviceEntry {
    /// The identity of the controller.
    pub id: u64,
    /// Whether the controller reports itself connected.
    pub connected: bool,
}

/// The result of enumerating the controllers.
#[derive(Debug, PartialEq, Eq)]
pub enum DeviceScan {
    /// The device system could not be opened.
    Unavailable,
    /// The controllers that the device system knows of.
    Devices(Vec<DeviceEntry>),
}

/// Whether `entries` lists the controller `id` as connected.
pub open spec fn lists_connected(entries: Seq<DeviceEntry>, id: u64) -> bool {
    exists|i: int| 0 <= i < entries.len() && entries[i].id == id && entries[i].connected
}

/// The identities of the connected controllers in `entries` other than `id`, in
/// the order of the enumeration.
pub open spec fn connected_others(entries: Seq<DeviceEntry>, id: u64) -> Seq<u64>
    decreases entries.len(),
{
    if entries.len() == 0 {
        Seq::empty()
    } else {
        let before = connected_others(entries.drop_last(), id);
        let entry = entries.last();
        if entry.connected && entry.id != id {
            before.push(entry.id)
        } else {
            before
        }
    }
}

impl DeviceScan {
    /// Whether the enumeration found the controller `id` and it reports itself
    /// connected.
    pub open spec fn confirms(self, id: u64) -> bool {
        match self {
            DeviceScan::Unavailable => false,
            DeviceScan::Devices(entries) => lists_connected(entries@, id),
        }
    }

    /// The connected controllers other than `id` that the enumeration found.
    pub open spec fn alternatives(self, id: u64) -> Seq<u64> {
        match self {
            DeviceScan::Unavailable => Seq::empty(),
            DeviceScan::Devices(entries) => connected_others(entries@, id),
        }
    }

    /// Whether the enumeration found the controller `id` and it reports itself
    /// connected.
    #[verifier::loop_isolation(false)]
    pub fn confirms_device(&self, id: u64) -> (confirmed: bool)
        ensures
            confirmed == self.confirms(id),
    {
        match self {
            DeviceScan::Unavailable => false,
            DeviceScan::Devices(entries) => {
                let mut i: usize = 0;
                while i < entries.len()
                    invariant
                        i <= entries.len(),
                        forall|j: int|
                            0 <= j < i ==> !(entries@[j].id == id && entries@[j].connected),
                    decreases entries.len() - i,
                {
                    if entries[i].id == id && entries[i].connected {
                        assert(lists_connected(entries@, id)) by {
                            let found = entries@[i as int];
                            assert(found.id == id && found.connected);
                        }
                        return true;
                    }
                    i += 1;
                }
                false
            },
        }
    }

    /// The connected controllers other than `id`, for a diagnostic report. The
    /// control loop never switches to one of them.
    #[verifier::loop_isolation(false)]
    pub fn alternative_devices(&self, id: u64) -> (others: Vec<u64>)
        ensures
            others@ == self.alternatives(id),
    {
        let mut others: Vec<u64> = Vec::new();
        match self {
            DeviceScan::Unavailable => {},
            DeviceScan::Devices(entries) => {
                let mut i: usize = 0;
                while i < entries.len()
                    invariant
                        i <= entries.len(),
                        others@ == connected_others(entries@.take(i as int), id),
                    decreases entries.len() - i,
                {
                    proof {
                        assert(entries@.take(i + 1).drop_last() == entries@.take(i as int));
                    }
                    let entry = entries[i];
                    if entry.connected && entry.id != id {
                        others.push(entry.id);
                    }
                    i += 1;
                }
                proof {
                    assert(entries@.take(i as int) == entries@);
                }
            },
        }
        others
    }
}

/// An enumeration that lists no entry with the identity `id` does not confirm
/// `id`, whatever else it lists.
pub proof fn lemma_other_devices_do_not_confirm(scan: DeviceScan, id: u64)
    requires
        scan matches DeviceScan::Devices(entries) ==> forall|i: int|
            0 <= i < entries@.len() ==> entries@[i].id != id,
    ensures
        !scan.confirms(id),
{
}

} // verus!
