use vstd::prelude::*;
use vstd::string::StringExecFns;

use crate::device::{created_from, merged, Device, DeviceModel, PatchModel, UpdatePatch};

verus! {

/// A change of a device's onboard flag.
#[derive(Clone, Copy, Debug, PartialEq, Eq, Structural)]
pub struct Transition {
    pub prev: bool,
    pub curr: bool,
}

/// What applying a patch did: whether the device was new, and the change of
/// its onboard flag, if there was one.
#[derive(Clone, Copy, Debug, PartialEq, Eq, Structural)]
pub struct ApplyOutcome {
    pub created: bool,
    pub transition: Option<Transition>,
}

/// Whether some device in `devs` has the given name.
pub open spec fn has_name(devs: Seq<DeviceModel>, name: Seq<char>) -> bool {
    exists|i: int| 0 <= i < devs.len() && #[trigger] devs[i].name == name
}

/// The position of the device with the given name, if there is one.
pub open spec fn position_of(devs: Seq<DeviceModel>, name: Seq<char>) -> Option<int> {
    if has_name(devs, name) {
        Some(choose|i: int| 0 <= i < devs.len() && #[trigger] devs[i].name == name)
    } else {
        None
    }
}

/// Device names are unique.
pub open spec fn names_unique(devs: Seq<DeviceModel>) -> bool {
    forall|i: int, j: int|
        0 <= i < devs.len() && 0 <= j < devs.len() && i != j ==> #[trigger] devs[i].name
            != #[trigger] devs[j].name
}

/// The devices after applying `p` at time `now`.
pub open spec fn applied(devs: Seq<DeviceModel>, p: PatchModel, now: u64) -> Seq<DeviceModel> {
    match position_of(devs, p.name) {
        Some(i) => devs.update(i, merged(devs[i], p, now)),
        None => devs.push(created_from(p, now)),
    }
}

/// The onboard change that `p` makes to a known device.
pub open spec fn transition_of(d: DeviceModel, p: PatchModel) -> Option<Transition> {
    match p.onboard {
        Some(v) => if v != d.onboard {
            Some(Transition { prev: d.onboard, curr: v })
        } else {
            None
        },
        None => None,
    }
}

/// The onboard announcement for a device that `p` creates.
pub open spec fn announce_of(p: PatchModel) -> Option<Transition> {
    if p.onboard == Some(true) {
        Some(Transition { prev: false, curr: true })
    } else {
        None
    }
}

/// What applying `p` to `devs` reports.
pub open spec fn outcome_of(devs: Seq<DeviceModel>, p: PatchModel) -> ApplyOutcome {
    match position_of(devs, p.name) {
        Some(i) => ApplyOutcome { created: false, transition: transition_of(devs[i], p) },
        None => ApplyOutcome { created: true, transition: announce_of(p) },
    }
}

/// The known devices, in the order in which they were first seen.
pub struct Registry {
    devices: Vec<Device>,
}

impl View for Registry {
    type V = Seq<DeviceModel>;

    closed spec fn view(&self) -> Seq<DeviceModel> {
        self.devices@.map_values(|d: Device| d@)
    }
}

impl Registry {
    pub open spec fn wf(&self) -> bool {
        names_unique(self@)
    }

    pub fn new() -> (r: Registry)
        ensures
            r.wf(),
            r@ == Seq::<DeviceModel>::empty(),
    {
        let r = Registry { devices: Vec::new() };
        assert(r@ =~= Seq::<DeviceModel>::empty());
        r
    }

    /// The number of known devices.
    pub fn len(&self) -> (n: usize)
        ensures
            n == self@.len(),
    {
        self.devices.len()
    }

    /// The device at position `i`, in order of first appearance.
    pub fn get(&self, i: usize) -> (d: &Device)
        requires
            i < self@.len(),
        ensures
            d@ == self@[i as int],
    {
        &self.devices[i]
    }

    /// The known devices, in order of first appearance.
    pub fn list_devices(&self) -> (r: &[Device])
        ensures
            r@.map_values(|d: Device| d@) == self@,
    {
        self.devices.as_slice()
    }

    /// The position of the device with the given name.
    pub fn position(&self, name: &String) -> (r: Option<usize>)
        requires
            self.wf(),
        ensures
            r matches Some(k) ==> position_of(self@, name@) == Some(k as int) && k < self@.len(),
            r is None ==> position_of(self@, name@) is None,
    {
        let mut i: usize = 0;
        while i < self.devices.len()
            invariant
                i <= self.devices@.len(),
                self.wf(),
                forall|k: int| 0 <= k < i ==> #[trigger] self@[k].name != name@,
            decreases self.devices@.len() - i,
        {
            if self.devices[i].name == *name {
                assert(self@[i as int].name == name@);
                assert(has_name(self@, name@));
                let ghost c = choose|j: int| 0 <= j < self@.len() && #[trigger] self@[j].name == name@;
                assert(c == i as int);
                return Some(i);
            }
            i = i + 1;
        }
        assert(!has_name(self@, name@));
        None
    }

    /// Looks up a device by exact name.
    pub fn find_by_name(&self, name: &String) -> (r: Option<&Device>)
        requires
            self.wf(),
        ensures
            match position_of(self@, name@) {
                Some(i) => r matches Some(d) && d@ == self@[i],
                None => r is None,
            },
    {
        match self.position(name) {
            Some(i) => {
                assert(self@[i as int] == self.devices@[i as int]@);
                assert(position_of(self@, name@) == Some(i as int));
                Some(&self.devices[i])
            },
            None => None,
        }
    }

    /// Merges a patch into the registry at time `now`, creating the device
    /// if its name is new, and reports what changed.
    pub fn apply_update(&mut self, patch: UpdatePatch, now: u64) -> (r: ApplyOutcome)
        requires
            old(self).wf(),
        ensures
            final(self).wf(),
            final(self)@ == applied(old(self)@, patch@, now),
            r == outcome_of(old(self)@, patch@),
    {
        let ghost p = patch@;
        let ghost before = self@;
        let pos = self.position(&patch.name);
        match pos {
            Some(i) => {
                assert(self@[i as int] == self.devices@[i as int]@);
                assert(position_of(before, p.name) == Some(i as int));
                let old_d = &self.devices[i];
                let transition = match patch.onboard {
                    Some(v) => if v != old_d.onboard {
                        Some(Transition { prev: old_d.onboard, curr: v })
                    } else {
                        None
                    },
                    None => None,
                };
                let d = Device {
                    name: old_d.name.clone(),
                    onboard: match patch.onboard {
                        Some(v) => v,
                        None => old_d.onboard,
                    },
                    uptime: match patch.uptime {
                        Some(v) => v,
                        None => old_d.uptime,
                    },
                    hostname: match patch.hostname {
                        Some(v) => v,
                        None => old_d.hostname.clone(),
                    },
                    os: match patch.os {
                        Some(v) => v,
                        None => old_d.os.clone(),
                    },
                    temperature: match patch.temperature {
                        Some(v) => v,
                        None => old_d.temperature,
                    },
                    sw_uptime: match patch.sw_uptime {
                        Some(v) => v,
                        None => old_d.sw_uptime,
                    },
                    last_update: now,
                };
                assert(d@ == merged(before[i as int], p, now));
                self.devices.set(i, d);
                assert(self@ =~= before.update(i as int, merged(before[i as int], p, now)));
                assert(names_unique(self@)) by {
                    assert forall|a: int, b: int|
                        0 <= a < self@.len() && 0 <= b < self@.len() && a != b implies #[trigger] self@[a].name
                            != #[trigger] self@[b].name by {
                        assert(before[a].name == self@[a].name);
                        assert(before[b].name == self@[b].name);
                    }
                }
                ApplyOutcome { created: false, transition }
            },
            None => {
                let transition = if patch.onboard == Some(true) {
                    Some(Transition { prev: false, curr: true })
                } else {
                    None
                };
                let d = Device {
                    name: patch.name,
                    onboard: match patch.onboard {
                        Some(v) => v,
                        None => true,
                    },
                    uptime: match patch.uptime {
                        Some(v) => v,
                        None => 0,
                    },
                    hostname: match patch.hostname {
                        Some(v) => v,
                        None => String::from_str("n/a"),
                    },
                    os: match patch.os {
                        Some(v) => v,
                        None => String::from_str("n/a"),
                    },
                    temperature: match patch.temperature {
                        Some(v) => v,
                        None => crate::device::Temperature { centi: 0 },
                    },
                    sw_uptime: match patch.sw_uptime {
                        Some(v) => v,
                        None => 0,
                    },
                    last_update: now,
                };
                proof {
                    reveal_strlit("n/a");
                    assert("n/a"@ =~= crate::device::not_available());
                }
                assert(d@ == created_from(p, now));
                self.devices.push(d);
                assert(self@ =~= before.push(created_from(p, now)));
                assert(names_unique(self@)) by {
                    assert forall|a: int, b: int|
                        0 <= a < self@.len() && 0 <= b < self@.len() && a != b implies #[trigger] self@[a].name
                            != #[trigger] self@[b].name by {
                        if a < before.len() && b < before.len() {
                            assert(before[a].name == self@[a].name);
                            assert(before[b].name == self@[b].name);
                        } else if a < before.len() {
                            assert(before[a].name == self@[a].name);
                        } else {
                            assert(before[b].name == self@[b].name);
                        }
                    }
                }
                ApplyOutcome { created: true, transition }
            },
        }
    }
}

} // verus!
