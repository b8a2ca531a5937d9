use vstd::prelude::*;

use crate::device::{created_from, merged, not_available, DeviceModel, PatchModel, Temperature};
use crate::registry::{
    applied, has_name, names_unique, outcome_of, position_of,
    ApplyOutcome, Transition,
};

verus! {

/// The devices after applying `ps[0]`, `ps[1]`, ... in turn, `ps[k]` at time `nows[k]`.
pub open spec fn applied_all(devs: Seq<DeviceModel>, ps: Seq<PatchModel>, nows: Seq<u64>) -> Seq<
    DeviceModel,
>
    decreases ps.len(),
{
    if ps.len() == 0 || nows.len() == 0 {
        devs
    } else {
        applied(applied_all(devs, ps.drop_last(), nows.drop_last()), ps.last(), nows.last())
    }
}

/// With unique names, the device that holds a name is at its position.
pub proof fn lemma_position_at(devs: Seq<DeviceModel>, name: Seq<char>, i: int)
    requires
        names_unique(devs),
        0 <= i < devs.len(),
        devs[i].name == name,
    ensures
        position_of(devs, name) == Some(i),
{
    assert(has_name(devs, name));
}

/// Applying a patch keeps names unique, and keeps every earlier device's
/// name at its place.
pub proof fn lemma_applied_keeps_names(devs: Seq<DeviceModel>, p: PatchModel, now: u64)
    requires
        names_unique(devs),
    ensures
        names_unique(applied(devs, p, now)),
        applied(devs, p, now).len() >= devs.len(),
        forall|k: int| 0 <= k < devs.len() ==> #[trigger] applied(devs, p, now)[k].name == devs[k].name,
{
    let r = applied(devs, p, now);
    match position_of(devs, p.name) {
        Some(i) => {
            assert(forall|k: int| 0 <= k < devs.len() ==> #[trigger] r[k].name == devs[k].name);
        },
        None => {
            assert(forall|k: int| 0 <= k < devs.len() ==> #[trigger] r[k].name == devs[k].name);
            assert forall|a: int, b: int|
                0 <= a < r.len() && 0 <= b < r.len() && a != b implies #[trigger] r[a].name
                    != #[trigger] r[b].name by {
                if a == devs.len() {
                    assert(devs[b].name == r[b].name);
                } else if b == devs.len() {
                    assert(devs[a].name == r[a].name);
                }
            }
        },
    }
}

/// A field that no patch of a run supplies keeps its default: every patch
/// of the run names the same device, which was not known before the run.
pub proof fn lemma_absent_fields_keep_defaults(
    devs: Seq<DeviceModel>,
    name: Seq<char>,
    ps: Seq<PatchModel>,
    nows: Seq<u64>,
)
    requires
        names_unique(devs),
        !has_name(devs, name),
        ps.len() > 0,
        nows.len() == ps.len(),
        forall|k: int| 0 <= k < ps.len() ==> (#[trigger] ps[k]).name == name,
    ensures
        ({
            let r = applied_all(devs, ps, nows);
            let d = r[devs.len() as int];
            &&& names_unique(r)
            &&& r.len() == devs.len() + 1
            &&& position_of(r, name) == Some(devs.len() as int)
            &&& d.name == name
            &&& d.last_update == nows.last()
            &&& (forall|k: int| 0 <= k < ps.len() ==> (#[trigger] ps[k]).onboard is None) ==> d.onboard
            &&& (forall|k: int| 0 <= k < ps.len() ==> (#[trigger] ps[k]).uptime is None) ==> d.uptime == 0
            &&& (forall|k: int| 0 <= k < ps.len() ==> (#[trigger] ps[k]).hostname is None)
                ==> d.hostname == not_available()
            &&& (forall|k: int| 0 <= k < ps.len() ==> (#[trigger] ps[k]).os is None) ==> d.os
                == not_available()
            &&& (forall|k: int| 0 <= k < ps.len() ==> (#[trigger] ps[k]).temperature is None)
                ==> d.temperature == Temperature { centi: 0 }
            &&& (forall|k: int| 0 <= k < ps.len() ==> (#[trigger] ps[k]).sw_uptime is None)
                ==> d.sw_uptime == 0
        }),
    decreases ps.len(),
{
    let n = devs.len() as int;
    let last = ps.last();
    assert(last == ps[ps.len() - 1]);
    if ps.len() == 1 {
        assert(ps.drop_last().len() == 0);
        assert(applied_all(devs, ps.drop_last(), nows.drop_last()) == devs);
        let r = applied(devs, last, nows.last());
        assert(r == devs.push(created_from(last, nows.last())));
        lemma_applied_keeps_names(devs, last, nows.last());
        lemma_position_at(r, name, n);
        assert(ps[0] == last);
    } else {
        let ps0 = ps.drop_last();
        let nows0 = nows.drop_last();
        assert forall|k: int| 0 <= k < ps0.len() implies (#[trigger] ps0[k]).name == name by {
            assert(ps0[k] == ps[k]);
        }
        lemma_absent_fields_keep_defaults(devs, name, ps0, nows0);
        let prev = applied_all(devs, ps0, nows0);
        let r = applied(prev, last, nows.last());
        assert(r == prev.update(n, merged(prev[n], last, nows.last())));
        lemma_applied_keeps_names(prev, last, nows.last());
        lemma_position_at(r, name, n);
        assert forall|k: int| 0 <= k < ps0.len() implies #[trigger] ps0[k] == ps[k] by {}
        if forall|k: int| 0 <= k < ps.len() ==> (#[trigger] ps[k]).onboard is None {
            assert(forall|k: int| 0 <= k < ps0.len() ==> (#[trigger] ps0[k]).onboard is None);
        }
        if forall|k: int| 0 <= k < ps.len() ==> (#[trigger] ps[k]).uptime is None {
            assert(forall|k: int| 0 <= k < ps0.len() ==> (#[trigger] ps0[k]).uptime is None);
        }
        if forall|k: int| 0 <= k < ps.len() ==> (#[trigger] ps[k]).hostname is None {
            assert(forall|k: int| 0 <= k < ps0.len() ==> (#[trigger] ps0[k]).hostname is None);
        }
        if forall|k: int| 0 <= k < ps.len() ==> (#[trigger] ps[k]).os is None {
            assert(forall|k: int| 0 <= k < ps0.len() ==> (#[trigger] ps0[k]).os is None);
        }
        if forall|k: int| 0 <= k < ps.len() ==> (#[trigger] ps[k]).temperature is None {
            assert(forall|k: int| 0 <= k < ps0.len() ==> (#[trigger] ps0[k]).temperature is None);
        }
        if forall|k: int| 0 <= k < ps.len() ==> (#[trigger] ps[k]).sw_uptime is None {
            assert(forall|k: int| 0 <= k < ps0.len() ==> (#[trigger] ps0[k]).sw_uptime is None);
        }
    }
}

/// A patch that sets `onboard` to true for a name not seen before creates
/// the device, onboard, and announces the change from offline to onboard.
pub proof fn lemma_new_onboard_announced(devs: Seq<DeviceModel>, p: PatchModel, now: u64)
    requires
        !has_name(devs, p.name),
        p.onboard == Some(true),
    ensures
        outcome_of(devs, p) == (ApplyOutcome {
            created: true,
            transition: Some(Transition { prev: false, curr: true }),
        }),
        applied(devs, p, now) == devs.push(created_from(p, now)),
        applied(devs, p, now).last().onboard,
        applied(devs, p, now).last().name == p.name,
{
}

/// A patch whose `onboard` equals the stored flag reports no change of it,
/// and still stamps the device with the time of the update.
pub proof fn lemma_same_onboard_no_transition(
    devs: Seq<DeviceModel>,
    p: PatchModel,
    now: u64,
    i: int,
)
    requires
        names_unique(devs),
        0 <= i < devs.len(),
        devs[i].name == p.name,
        p.onboard == Some(devs[i].onboard),
    ensures
        outcome_of(devs, p).transition is None,
        !outcome_of(devs, p).created,
        applied(devs, p, now)[i].last_update == now,
        applied(devs, p, now).len() == devs.len(),
{
    lemma_position_at(devs, p.name, i);
}

/// Neither patch supplies a field that the other supplies, `onboard` aside.
pub open spec fn disjoint_fields(p1: PatchModel, p2: PatchModel) -> bool {
    &&& !(p1.uptime is Some && p2.uptime is Some)
    &&& !(p1.hostname is Some && p2.hostname is Some)
    &&& !(p1.os is Some && p2.os is Some)
    &&& !(p1.temperature is Some && p2.temperature is Some)
    &&& !(p1.sw_uptime is Some && p2.sw_uptime is Some)
}

/// Two devices agree on every field but `onboard` and `last_update`.
pub open spec fn same_reported_fields(a: DeviceModel, b: DeviceModel) -> bool {
    &&& a.name == b.name
    &&& a.uptime == b.uptime
    &&& a.hostname == b.hostname
    &&& a.os == b.os
    &&& a.temperature == b.temperature
    &&& a.sw_uptime == b.sw_uptime
}

/// Whether device `d` holds every field that patch `p` supplies, `onboard` aside.
pub open spec fn holds_fields_of(d: DeviceModel, p: PatchModel) -> bool {
    &&& p.uptime matches Some(v) ==> d.uptime == v
    &&& p.hostname matches Some(v) ==> d.hostname == v
    &&& p.os matches Some(v) ==> d.os == v
    &&& p.temperature matches Some(v) ==> d.temperature == v
    &&& p.sw_uptime matches Some(v) ==> d.sw_uptime == v
}

/// Two patches for one name with disjoint fields (besides `onboard`): after
/// both, the device holds the fields of each, and in either order the same.
pub proof fn lemma_disjoint_patches_merge(
    devs: Seq<DeviceModel>,
    p1: PatchModel,
    p2: PatchModel,
    t1: u64,
    t2: u64,
)
    requires
        names_unique(devs),
        p1.name == p2.name,
        disjoint_fields(p1, p2),
    ensures
        ({
            let a = applied(applied(devs, p1, t1), p2, t2);
            let b = applied(applied(devs, p2, t1), p1, t2);
            &&& position_of(a, p1.name) matches Some(i)
            &&& position_of(b, p1.name) == Some(i)
            &&& holds_fields_of(a[i], p1)
            &&& holds_fields_of(a[i], p2)
            &&& same_reported_fields(a[i], b[i])
        }),
{
    let name = p1.name;
    let a1 = applied(devs, p1, t1);
    let b1 = applied(devs, p2, t1);
    lemma_applied_keeps_names(devs, p1, t1);
    lemma_applied_keeps_names(devs, p2, t1);
    let i: int = match position_of(devs, name) {
        Some(k) => k,
        None => devs.len() as int,
    };
    if position_of(devs, name) is None {
        assert(a1[i].name == name);
        assert(b1[i].name == name);
    } else {
        assert(0 <= i < devs.len() && devs[i].name == name);
        assert(a1[i].name == name);
        assert(b1[i].name == name);
    }
    lemma_position_at(a1, name, i);
    lemma_position_at(b1, name, i);
    let a = applied(a1, p2, t2);
    let b = applied(b1, p1, t2);
    lemma_applied_keeps_names(a1, p2, t2);
    lemma_applied_keeps_names(b1, p1, t2);
    lemma_position_at(a, name, i);
    lemma_position_at(b, name, i);
}

} // verus!
