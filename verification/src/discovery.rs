//! Discovery of mesh radios over Bluetooth LE: which firmware a device runs, judged by the
//! services it advertises, and which devices were found or lost between two scans.
use crate::device_list::{DeviceListEvent, RadioType};
use crate::strmap::StrMap;
use vstd::prelude::*;

verus! {

/// The Bluetooth service that Meshtastic radios advertise (6ba1b218-15a8-461f-9fa8-5dcae273eafd).
pub const MESHTASTIC_SERVICE_UUID: u128 = 0x6ba1b218_15a8_461f_9fa8_5dcae273eafdu128;

/// The Bluetooth service that MeshCore radios advertise (6e400001-b5a3-f393-e0a9-e50e24dcca9e).
pub const MESHCORE_SERVICE_UUID: u128 = 0x6e400001_b5a3_f393_e0a9_e50e24dcca9eu128;

/// The radio firmware a device runs, judged by the services it advertises: Meshtastic's
/// service wins over MeshCore's; a device advertising neither is no mesh radio.
pub open spec fn radio_type_of(services: Seq<u128>) -> Option<RadioType> {
    if services.contains(MESHTASTIC_SERVICE_UUID) {
        Some(RadioType::Meshtastic)
    } else if services.contains(MESHCORE_SERVICE_UUID) {
        Some(RadioType::MeshCore)
    } else {
        None
    }
}

/// Whether `services` holds `uuid`.
fn advertises(services: &[u128], uuid: u128) -> (b: bool)
    ensures
        b == services@.contains(uuid),
{
    let mut i: usize = 0;
    while i < services.len()
        invariant
            i <= services@.len(),
            forall|j: int| 0 <= j < i ==> services@[j] != uuid,
        decreases services@.len() - i,
    {
        if services[i] == uuid {
            return true;
        }
        i = i + 1;
    }
    false
}

/// Detect the radio firmware from the service UUIDs (as 128-bit numbers) that a device
/// advertises.
pub fn detect_radio_type(services: &[u128]) -> (r: Option<RadioType>)
    ensures
        r == radio_type_of(services@),
{
    if advertises(services, MESHTASTIC_SERVICE_UUID) {
        Some(RadioType::Meshtastic)
    } else if advertises(services, MESHCORE_SERVICE_UUID) {
        Some(RadioType::MeshCore)
    } else {
        None
    }
}

/// The number of scans in a row that a known device was not seen, after a scan: back to zero
/// when seen, one more otherwise.
pub open spec fn next_unseen(count: i32, seen: bool) -> int {
    if seen { 0 } else { count + 1 }
}

/// A known device is lost by a scan when it was not seen for the third time in a row (or more).
pub open spec fn lost_by_scan(known: Map<Seq<char>, (i32, RadioType)>, current: Map<Seq<char>, RadioType>, name: Seq<char>) -> bool {
    &&& known.contains_key(name)
    &&& next_unseen(known[name].0, current.contains_key(name)) >= 3
}

/// A device is found by a scan when it is seen and was not known.
pub open spec fn found_by_scan(known: Map<Seq<char>, (i32, RadioType)>, current: Map<Seq<char>, RadioType>, name: Seq<char>) -> bool {
    current.contains_key(name) && !known.contains_key(name)
}

/// The devices known after a scan: each known device with its new unseen count, except the
/// lost ones, and each found device with an unseen count of zero.
pub open spec fn tracked_after(known: Map<Seq<char>, (i32, RadioType)>, current: Map<Seq<char>, RadioType>) -> Map<Seq<char>, (i32, RadioType)> {
    Map::new(
        |k: Seq<char>| (known.contains_key(k) && !lost_by_scan(known, current, k)) || found_by_scan(known, current, k),
        |k: Seq<char>| if known.contains_key(k) {
            (next_unseen(known[k].0, current.contains_key(k)) as i32, known[k].1)
        } else {
            (0i32, current[k])
        },
    )
}

/// The known devices kept by a scan, with their new unseen counts: all but the lost ones.
pub open spec fn kept_after(known: Map<Seq<char>, (i32, RadioType)>, current: Map<Seq<char>, RadioType>) -> Map<Seq<char>, (i32, RadioType)> {
    Map::new(
        |k: Seq<char>| known.contains_key(k) && !lost_by_scan(known, current, k),
        |k: Seq<char>| (next_unseen(known[k].0, current.contains_key(k)) as i32, known[k].1),
    )
}

/// Split the known devices into those kept, with their new unseen counts, and the names of
/// those lost.
fn scan_known(current_devices: &StrMap<RadioType>, known_devices: &StrMap<(i32, RadioType)>) -> (r: (StrMap<(i32, RadioType)>, Vec<String>))
    requires
        current_devices.wf(),
        known_devices.wf(),
        forall|k: Seq<char>| #[trigger] known_devices@.contains_key(k) && !current_devices@.contains_key(k)
            ==> known_devices@[k].0 < i32::MAX,
    ensures
        r.0.wf(),
        r.0@ == kept_after(known_devices@, current_devices@),
        forall|i: int, j: int| 0 <= i < j < r.1@.len() ==> r.1@[i]@ != r.1@[j]@,
        forall|i: int| 0 <= i < r.1@.len() ==> lost_by_scan(known_devices@, current_devices@, (#[trigger] r.1@[i])@),
        forall|k: Seq<char>| lost_by_scan(known_devices@, current_devices@, k)
            ==> exists|i: int| 0 <= i < r.1@.len() && (#[trigger] r.1@[i])@ == k,
{
    let ghost told = known_devices@;
    let ghost cur = current_devices@;
    let ghost pairs = known_devices.pairs();
    let mut lost: Vec<String> = Vec::new();
    let ghost mut lost_idx: Seq<int> = Seq::empty();
    let mut kept: StrMap<(i32, RadioType)> = StrMap::new();
    proof {
        known_devices.lemma_view();
    }
    let n = known_devices.len();
    let mut i: usize = 0;
    while i < n
        invariant
            known_devices.wf(),
            current_devices.wf(),
            known_devices@ == told,
            current_devices@ == cur,
            known_devices.pairs() == pairs,
            kept.wf(),
            n == pairs.len(),
            i <= n,
            forall|k: Seq<char>| #[trigger] told.contains_key(k) && !cur.contains_key(k) ==> told[k].0 < i32::MAX,
            forall|j: int| 0 <= j < n ==> #[trigger] told.contains_key(pairs[j].0@) && told[pairs[j].0@] == pairs[j].1,
            forall|k: Seq<char>| #[trigger] kept@.contains_key(k) ==> kept_after(told, cur).contains_key(k)
                && kept@[k] == kept_after(told, cur)[k],
            forall|j: int| 0 <= j < i && !lost_by_scan(told, cur, #[trigger] pairs[j].0@) ==> kept@.contains_key(pairs[j].0@),
            lost@.len() == lost_idx.len(),
            forall|m: int| 0 <= m < lost_idx.len() ==> 0 <= #[trigger] lost_idx[m] < i && lost@[m]@ == pairs[lost_idx[m]].0@
                && lost_by_scan(told, cur, lost@[m]@),
            forall|m1: int, m2: int| 0 <= m1 < m2 < lost_idx.len() ==> lost_idx[m1] < lost_idx[m2],
            forall|j: int| 0 <= j < i && lost_by_scan(told, cur, #[trigger] pairs[j].0@)
                ==> exists|m: int| 0 <= m < lost_idx.len() && lost_idx[m] == j,
        decreases n - i,
    {
        let name = known_devices.key_at(i);
        let (count, radio_type) = *known_devices.value_at(i);
        proof {
            assert(told.contains_key(pairs[i as int].0@));
        }
        let seen = current_devices.contains_key(name.as_str());
        let unseen: i32 = if seen { 0 } else { count + 1 };
        if unseen >= 3 {
            lost.push(name.clone());
            proof {
                let ghost prev = lost_idx;
                lost_idx = lost_idx.push(i as int);
                assert forall|j: int| 0 <= j < i + 1 && lost_by_scan(told, cur, #[trigger] pairs[j].0@)
                    implies exists|m: int| 0 <= m < lost_idx.len() && lost_idx[m] == j by {
                    if j == i {
                        assert(lost_idx[lost_idx.len() - 1] == j);
                    } else {
                        let m = choose|m: int| 0 <= m < prev.len() && prev[m] == j;
                        assert(lost_idx[m] == j);
                    }
                }
            }
        } else {
            kept.insert(name.clone(), (unseen, radio_type));
        }
        i = i + 1;
    }
    proof {
        assert(kept@ =~= kept_after(told, cur)) by {
            assert forall|k: Seq<char>| kept_after(told, cur).contains_key(k) implies #[trigger] kept@.contains_key(k) by {
                let j = choose|j: int| 0 <= j < pairs.len() && pairs[j].0@ == k;
            }
        }
        assert forall|m1: int, m2: int| 0 <= m1 < m2 < lost@.len() implies lost@[m1]@ != lost@[m2]@ by {
            assert(lost_idx[m1] < lost_idx[m2]);
        }
        assert forall|m: int| 0 <= m < lost@.len() implies lost_by_scan(told, cur, (#[trigger] lost@[m])@) by {
            assert(0 <= lost_idx[m] < i);
        }
        assert forall|k: Seq<char>| lost_by_scan(told, cur, k) implies exists|m: int| 0 <= m < lost@.len() && (#[trigger] lost@[m])@ == k by {
            let j = choose|j: int| 0 <= j < pairs.len() && pairs[j].0@ == k;
            assert(lost_by_scan(told, cur, pairs[j].0@));
            let m = choose|m: int| 0 <= m < lost_idx.len() && lost_idx[m] == j;
            assert(lost@[m]@ == k);
        }
    }
    let r = (kept, lost);
    proof {
        assert forall|k: Seq<char>| lost_by_scan(told, cur, k) implies exists|i: int| 0 <= i < r.1@.len() && (#[trigger] r.1@[i])@ == k by {
            let m = choose|m: int| 0 <= m < r.1@.len() && (#[trigger] r.1@[m])@ == k;
        }
    }
    r
}

/// The devices seen that `kept` does not hold, with their radio types.
fn collect_found(current_devices: &StrMap<RadioType>, kept: &StrMap<(i32, RadioType)>) -> (found: Vec<(String, RadioType)>)
    requires
        current_devices.wf(),
        kept.wf(),
    ensures
        forall|i: int, j: int| 0 <= i < j < found@.len() ==> found@[i].0@ != found@[j].0@,
        forall|i: int| 0 <= i < found@.len() ==> current_devices@.contains_key((#[trigger] found@[i]).0@)
            && !kept@.contains_key(found@[i].0@) && found@[i].1 == current_devices@[found@[i].0@],
        forall|k: Seq<char>| current_devices@.contains_key(k) && !kept@.contains_key(k)
            ==> exists|i: int| 0 <= i < found@.len() && (#[trigger] found@[i]).0@ == k,
{
    let ghost cur = current_devices@;
    let ghost pairs = current_devices.pairs();
    let mut found: Vec<(String, RadioType)> = Vec::new();
    let ghost mut found_idx: Seq<int> = Seq::empty();
    proof {
        current_devices.lemma_view();
    }
    let c = current_devices.len();
    let mut i: usize = 0;
    while i < c
        invariant
            current_devices.wf(),
            kept.wf(),
            current_devices@ == cur,
            current_devices.pairs() == pairs,
            c == pairs.len(),
            i <= c,
            forall|j: int| 0 <= j < c ==> #[trigger] cur.contains_key(pairs[j].0@) && cur[pairs[j].0@] == pairs[j].1,
            found@.len() == found_idx.len(),
            forall|m: int| 0 <= m < found_idx.len() ==> 0 <= #[trigger] found_idx[m] < i
                && found@[m].0@ == pairs[found_idx[m]].0@ && found@[m].1 == pairs[found_idx[m]].1
                && !kept@.contains_key(found@[m].0@),
            forall|m1: int, m2: int| 0 <= m1 < m2 < found_idx.len() ==> found_idx[m1] < found_idx[m2],
            forall|j: int| 0 <= j < i && !kept@.contains_key(#[trigger] pairs[j].0@)
                ==> exists|m: int| 0 <= m < found_idx.len() && found_idx[m] == j,
        decreases c - i,
    {
        let name = current_devices.key_at(i);
        let radio_type = *current_devices.value_at(i);
        if !kept.contains_key(name.as_str()) {
            found.push((name.clone(), radio_type));
            proof {
                let ghost prev = found_idx;
                found_idx = found_idx.push(i as int);
                assert forall|j: int| 0 <= j < i + 1 && !kept@.contains_key(#[trigger] pairs[j].0@)
                    implies exists|m: int| 0 <= m < found_idx.len() && found_idx[m] == j by {
                    if j == i {
                        assert(found_idx[found_idx.len() - 1] == j);
                    } else {
                        let m = choose|m: int| 0 <= m < prev.len() && prev[m] == j;
                        assert(found_idx[m] == j);
                    }
                }
            }
        }
        i = i + 1;
    }
    proof {
        assert forall|m1: int, m2: int| 0 <= m1 < m2 < found@.len() implies found@[m1].0@ != found@[m2].0@ by {
            assert(found_idx[m1] < found_idx[m2]);
        }
        assert forall|m: int| 0 <= m < found@.len() implies cur.contains_key((#[trigger] found@[m]).0@)
            && !kept@.contains_key(found@[m].0@) && found@[m].1 == cur[found@[m].0@] by {
            assert(cur.contains_key(pairs[found_idx[m]].0@));
        }
        assert forall|k: Seq<char>| cur.contains_key(k) && !kept@.contains_key(k)
            implies exists|m: int| 0 <= m < found@.len() && (#[trigger] found@[m]).0@ == k by {
            let j = choose|j: int| 0 <= j < pairs.len() && pairs[j].0@ == k;
            let m = choose|m: int| 0 <= m < found_idx.len() && found_idx[m] == j;
            assert(found@[m].0@ == k);
        }
    }
    found
}

/// Start tracking the devices found, each with an unseen count of zero.
fn track_found(kept: &mut StrMap<(i32, RadioType)>, found: &Vec<(String, RadioType)>)
    requires
        old(kept).wf(),
        forall|i: int, j: int| 0 <= i < j < found@.len() ==> found@[i].0@ != found@[j].0@,
        forall|i: int| 0 <= i < found@.len() ==> !old(kept)@.contains_key((#[trigger] found@[i]).0@),
    ensures
        final(kept).wf(),
        forall|k: Seq<char>| #[trigger] final(kept)@.contains_key(k) ==> old(kept)@.contains_key(k)
            || exists|i: int| 0 <= i < found@.len() && found@[i].0@ == k,
        forall|k: Seq<char>| #[trigger] old(kept)@.contains_key(k) ==> final(kept)@.contains_key(k) && final(kept)@[k] == old(kept)@[k],
        forall|i: int| 0 <= i < found@.len() ==> final(kept)@.contains_key((#[trigger] found@[i]).0@)
            && final(kept)@[found@[i].0@] == (0i32, found@[i].1),
{
    let mut i: usize = 0;
    while i < found.len()
        invariant
            kept.wf(),
            i <= found@.len(),
            forall|a: int, b: int| 0 <= a < b < found@.len() ==> found@[a].0@ != found@[b].0@,
            forall|a: int| 0 <= a < found@.len() ==> !old(kept)@.contains_key((#[trigger] found@[a]).0@),
            forall|k: Seq<char>| #[trigger] kept@.contains_key(k) ==> old(kept)@.contains_key(k)
                || exists|a: int| 0 <= a < i && found@[a].0@ == k,
            forall|k: Seq<char>| #[trigger] old(kept)@.contains_key(k) ==> kept@.contains_key(k) && kept@[k] == old(kept)@[k],
            forall|a: int| 0 <= a < i ==> kept@.contains_key((#[trigger] found@[a]).0@)
                && kept@[found@[a].0@] == (0i32, found@[a].1),
        decreases found@.len() - i,
    {
        let name = found[i].0.clone();
        let radio_type = found[i].1;
        kept.insert(name, (0, radio_type));
        proof {
            assert forall|k: Seq<char>| #[trigger] kept@.contains_key(k) implies old(kept)@.contains_key(k)
                || exists|a: int| 0 <= a < i + 1 && found@[a].0@ == k by {
                if k == found@[i as int].0@ {
                    assert(found@[i as int].0@ == k);
                }
            }
        }
        i = i + 1;
    }
}

/// Compare the devices seen by a scan (`current_devices`: name and radio type) with the devices
/// known so far (`tracked_devices`: name, number of scans in a row it was not seen, radio type),
/// update the known devices and return the devices found (with their radio type) and the names
/// of those lost. A device is lost when it was not seen by three scans in a row.
pub fn process_device_changes(
    current_devices: &StrMap<RadioType>,
    tracked_devices: &mut StrMap<(i32, RadioType)>,
) -> (changes: (Vec<(String, RadioType)>, Vec<String>))
    requires
        current_devices.wf(),
        old(tracked_devices).wf(),
        forall|k: Seq<char>| #[trigger] old(tracked_devices)@.contains_key(k) && !current_devices@.contains_key(k)
            ==> old(tracked_devices)@[k].0 < i32::MAX,
    ensures
        final(tracked_devices).wf(),
        final(tracked_devices)@ == tracked_after(old(tracked_devices)@, current_devices@),
        forall|i: int, j: int| 0 <= i < j < changes.0@.len() ==> changes.0@[i].0@ != changes.0@[j].0@,
        forall|i: int| 0 <= i < changes.0@.len() ==> found_by_scan(old(tracked_devices)@, current_devices@, (#[trigger] changes.0@[i]).0@)
            && changes.0@[i].1 == current_devices@[changes.0@[i].0@],
        forall|k: Seq<char>| found_by_scan(old(tracked_devices)@, current_devices@, k)
            ==> exists|i: int| 0 <= i < changes.0@.len() && (#[trigger] changes.0@[i]).0@ == k,
        forall|i: int, j: int| 0 <= i < j < changes.1@.len() ==> changes.1@[i]@ != changes.1@[j]@,
        forall|i: int| 0 <= i < changes.1@.len() ==> lost_by_scan(old(tracked_devices)@, current_devices@, (#[trigger] changes.1@[i])@),
        forall|k: Seq<char>| lost_by_scan(old(tracked_devices)@, current_devices@, k)
            ==> exists|i: int| 0 <= i < changes.1@.len() && (#[trigger] changes.1@[i])@ == k,
{
    let ghost told = tracked_devices@;
    let ghost cur = current_devices@;
    let (mut kept, lost) = scan_known(current_devices, tracked_devices);
    let ghost ka = kept@;
    let found = collect_found(current_devices, &kept);
    proof {
        assert forall|m: int| 0 <= m < found@.len() implies found_by_scan(told, cur, (#[trigger] found@[m]).0@) by {
            let k = found@[m].0@;
            if told.contains_key(k) {
                assert(ka.contains_key(k));
            }
        }
        assert forall|k: Seq<char>| found_by_scan(told, cur, k) implies exists|m: int| 0 <= m < found@.len() && (#[trigger] found@[m]).0@ == k by {
            assert(!ka.contains_key(k));
        }
    }
    track_found(&mut kept, &found);
    proof {
        assert(kept@ =~= tracked_after(told, cur)) by {
            assert forall|k: Seq<char>| #[trigger] kept@.contains_key(k) implies tracked_after(told, cur).contains_key(k)
                && kept@[k] == tracked_after(told, cur)[k] by {
                if !ka.contains_key(k) {
                    let m = choose|m: int| 0 <= m < found@.len() && found@[m].0@ == k;
                    assert(found_by_scan(told, cur, found@[m].0@));
                }
            }
            assert forall|k: Seq<char>| tracked_after(told, cur).contains_key(k) implies #[trigger] kept@.contains_key(k) by {
                if !ka.contains_key(k) {
                    assert(found_by_scan(told, cur, k));
                    let m = choose|m: int| 0 <= m < found@.len() && (#[trigger] found@[m]).0@ == k;
                    assert(kept@.contains_key(found@[m].0@));
                }
            }
        }
    }
    *tracked_devices = kept;
    let changes = (found, lost);
    proof {
        assert forall|k: Seq<char>| found_by_scan(told, cur, k) implies exists|i: int| 0 <= i < changes.0@.len() && (#[trigger] changes.0@[i]).0@ == k by {
            let m = choose|m: int| 0 <= m < found@.len() && (#[trigger] found@[m]).0@ == k;
            assert(changes.0@[m].0@ == k);
        }
        assert forall|k: Seq<char>| lost_by_scan(told, cur, k) implies exists|i: int| 0 <= i < changes.1@.len() && (#[trigger] changes.1@[i])@ == k by {
            let m = choose|m: int| 0 <= m < lost@.len() && (#[trigger] lost@[m])@ == k;
            assert(changes.1@[m]@ == k);
        }
    }
    changes
}

/// The mesh radios that a scan saw, by name: each named device whose services mark it as a mesh
/// radio; of two devices with one name, the later one counts.
pub open spec fn seen_radios(seen: Seq<(String, Vec<u128>)>) -> Map<Seq<char>, RadioType>
    decreases seen.len(),
{
    if seen.len() == 0 {
        Map::empty()
    } else {
        match radio_type_of(seen.last().1@) {
            Some(rt) => seen_radios(seen.drop_last()).insert(seen.last().0@, rt),
            None => seen_radios(seen.drop_last()),
        }
    }
}

/// The mesh radios among the named devices that a scan saw (name and advertised services).
pub fn seen_radio_map(seen: &Vec<(String, Vec<u128>)>) -> (m: StrMap<RadioType>)
    ensures
        m.wf(),
        m@ == seen_radios(seen@),
{
    let mut m: StrMap<RadioType> = StrMap::new();
    let mut i: usize = 0;
    while i < seen.len()
        invariant
            i <= seen@.len(),
            m.wf(),
            m@ == seen_radios(seen@.take(i as int)),
        decreases seen.len() - i,
    {
        proof {
            assert(seen@.take(i + 1).drop_last() =~= seen@.take(i as int));
        }
        if let Some(rt) = detect_radio_type(seen[i].1.as_slice()) {
            let _ = m.insert(seen[i].0.clone(), rt);
        }
        i = i + 1;
    }
    proof {
        assert(seen@.take(i as int) =~= seen@);
    }
    m
}

/// The event says that the radio named `k` was lost.
pub open spec fn announces_lost(e: DeviceListEvent, k: Seq<char>) -> bool {
    e matches DeviceListEvent::BLERadioLost(n) && n@ == k
}

/// The event says that the radio named `k` was found.
pub open spec fn announces_found(e: DeviceListEvent, k: Seq<char>) -> bool {
    e matches DeviceListEvent::BLEMeshRadioFound(n, _) && n@ == k
}

/// The name of the radio that an event announces lost or found (empty for other events).
pub open spec fn announced_name(e: DeviceListEvent) -> Seq<char> {
    match e {
        DeviceListEvent::BLERadioLost(n) => n@,
        DeviceListEvent::BLEMeshRadioFound(n, _) => n@,
        _ => Seq::empty(),
    }
}

/// The events that announce the changes a scan brought: each radio lost, then each radio found
/// with its type, each once.
pub open spec fn changes_announced(known: Map<Seq<char>, (i32, RadioType)>, current: Map<Seq<char>, RadioType>, events: Seq<DeviceListEvent>) -> bool {
    &&& forall|i: int, j: int| 0 <= i < j < events.len() ==> announced_name(#[trigger] events[i]) != announced_name(#[trigger] events[j])
    &&& exists|l: int| #![trigger events.subrange(0, l)] 0 <= l <= events.len()
        && (forall|i: int| 0 <= i < l ==> ((#[trigger] events[i]) matches DeviceListEvent::BLERadioLost(n) && lost_by_scan(known, current, n@)))
        && (forall|i: int| l <= i < events.len() ==> ((#[trigger] events[i]) matches DeviceListEvent::BLEMeshRadioFound(n, rt)
            && found_by_scan(known, current, n@) && rt == current[n@]))
        && (forall|k: Seq<char>| #[trigger] lost_by_scan(known, current, k) ==> exists|i: int| 0 <= i < l
            && announces_lost(#[trigger] events[i], k))
        && (forall|k: Seq<char>| #[trigger] found_by_scan(known, current, k) ==> exists|i: int| l <= i < events.len()
            && announces_found(#[trigger] events[i], k))
}

/// Take the named devices a scan saw (name and advertised services): update the radios known so
/// far (name, number of scans in a row it was not seen, radio type) and return the events that
/// announce the radios lost and found.
pub fn announce_device_changes(seen: &Vec<(String, Vec<u128>)>, known: &mut StrMap<(i32, RadioType)>) -> (events: Vec<DeviceListEvent>)
    requires
        old(known).wf(),
        forall|k: Seq<char>| #[trigger] old(known)@.contains_key(k) && !seen_radios(seen@).contains_key(k)
            ==> old(known)@[k].0 < i32::MAX,
    ensures
        final(known).wf(),
        final(known)@ == tracked_after(old(known)@, seen_radios(seen@)),
        changes_announced(old(known)@, seen_radios(seen@), events@),
{
    let ghost kn = known@;
    let current = seen_radio_map(seen);
    let ghost cur = current@;
    let (found, lost) = process_device_changes(&current, known);
    let mut events: Vec<DeviceListEvent> = Vec::new();
    let mut i: usize = 0;
    while i < lost.len()
        invariant
            i <= lost@.len(),
            events@.len() == i,
            forall|j: int| 0 <= j < i ==> (#[trigger] events@[j]) == DeviceListEvent::BLERadioLost(lost@[j]),
        decreases lost.len() - i,
    {
        events.push(DeviceListEvent::BLERadioLost(lost[i].clone()));
        i = i + 1;
    }
    let l = events.len();
    let mut j: usize = 0;
    while j < found.len()
        invariant
            j <= found@.len(),
            l == lost@.len(),
            events@.len() == l + j,
            forall|a: int| 0 <= a < l ==> (#[trigger] events@[a]) == DeviceListEvent::BLERadioLost(lost@[a]),
            forall|a: int| 0 <= a < j ==> (#[trigger] events@[l + a]) == DeviceListEvent::BLEMeshRadioFound(found@[a].0, found@[a].1),
        decreases found.len() - j,
    {
        events.push(DeviceListEvent::BLEMeshRadioFound(found[j].0.clone(), found[j].1));
        j = j + 1;
    }
    proof {
        let ev = events@;
        let li = l as int;
        assert forall|a: int| 0 <= a < li implies ((#[trigger] ev[a]) matches DeviceListEvent::BLERadioLost(n) && lost_by_scan(kn, cur, n@)) by {
            assert(lost_by_scan(kn, cur, lost@[a]@));
        }
        assert forall|a: int| li <= a < ev.len() implies ((#[trigger] ev[a]) matches DeviceListEvent::BLEMeshRadioFound(n, rt)
            && found_by_scan(kn, cur, n@) && rt == cur[n@]) by {
            assert(ev[li + (a - li)] == ev[a]);
            assert(found_by_scan(kn, cur, found@[a - li].0@));
        }
        assert forall|k: Seq<char>| #[trigger] lost_by_scan(kn, cur, k) implies exists|a: int| 0 <= a < li
            && announces_lost(#[trigger] ev[a], k) by {
            let m = choose|m: int| 0 <= m < lost@.len() && (#[trigger] lost@[m])@ == k;
            assert(ev[m] == DeviceListEvent::BLERadioLost(lost@[m]));
        }
        assert forall|k: Seq<char>| #[trigger] found_by_scan(kn, cur, k) implies exists|a: int| li <= a < ev.len()
            && announces_found(#[trigger] ev[a], k) by {
            let m = choose|m: int| 0 <= m < found@.len() && (#[trigger] found@[m]).0@ == k;
            assert(ev[li + m] == DeviceListEvent::BLEMeshRadioFound(found@[m].0, found@[m].1));
        }
        assert(ev.subrange(0, li) == ev.subrange(0, li));
        assert forall|a: int, b: int| 0 <= a < b < ev.len() implies announced_name(#[trigger] ev[a]) != announced_name(#[trigger] ev[b]) by {
            if b < li {
                assert(ev[a] == DeviceListEvent::BLERadioLost(lost@[a]));
                assert(ev[b] == DeviceListEvent::BLERadioLost(lost@[b]));
            } else if a >= li {
                assert(ev[li + (a - li)] == ev[a]);
                assert(ev[li + (b - li)] == ev[b]);
                assert(ev[a] == DeviceListEvent::BLEMeshRadioFound(found@[a - li].0, found@[a - li].1));
                assert(ev[b] == DeviceListEvent::BLEMeshRadioFound(found@[b - li].0, found@[b - li].1));
            } else {
                assert(ev[a] == DeviceListEvent::BLERadioLost(lost@[a]));
                assert(ev[li + (b - li)] == ev[b]);
                assert(ev[b] == DeviceListEvent::BLEMeshRadioFound(found@[b - li].0, found@[b - li].1));
                assert(lost_by_scan(kn, cur, lost@[a]@));
                assert(found_by_scan(kn, cur, found@[b - li].0@));
            }
        }
    }
    events
}

/// What one scan does to the devices known: no device is both found and lost; every device seen
/// is known afterwards, not seen for zero scans; a lost device is no longer known; and a known
/// device that was not seen and not lost has gone one more scan unseen.
pub proof fn lemma_scan_outcomes(known: Map<Seq<char>, (i32, RadioType)>, current: Map<Seq<char>, RadioType>, name: Seq<char>)
    requires
        known.contains_key(name) && !current.contains_key(name) ==> known[name].0 < i32::MAX,
    ensures
        !(found_by_scan(known, current, name) && lost_by_scan(known, current, name)),
        current.contains_key(name) ==> tracked_after(known, current).contains_key(name)
            && tracked_after(known, current)[name].0 == 0,
        lost_by_scan(known, current, name) ==> !tracked_after(known, current).contains_key(name),
        known.contains_key(name) && !current.contains_key(name) && !lost_by_scan(known, current, name)
            ==> tracked_after(known, current).contains_key(name)
                && tracked_after(known, current)[name].0 == known[name].0 + 1
                && tracked_after(known, current)[name].1 == known[name].1,
        found_by_scan(known, current, name) ==> tracked_after(known, current)[name] == (0i32, current[name]),
        known.contains_key(name) && current.contains_key(name)
            ==> tracked_after(known, current)[name] == (0i32, known[name].1),
        !known.contains_key(name) && !current.contains_key(name) ==> !tracked_after(known, current).contains_key(name),
{
}

/// Unseen counts stay below three: a device is dropped when its count would reach three, and a
/// device found starts at zero. So from no device known, every later scan meets the bound that
/// [process_device_changes] asks of the counts.
pub proof fn lemma_unseen_counts_stay_small(known: Map<Seq<char>, (i32, RadioType)>, current: Map<Seq<char>, RadioType>)
    requires
        forall|k: Seq<char>| #[trigger] known.contains_key(k) ==> 0 <= known[k].0 < 3,
    ensures
        forall|k: Seq<char>| #[trigger] known.contains_key(k) ==> known[k].0 < i32::MAX,
        forall|k: Seq<char>| #[trigger] tracked_after(known, current).contains_key(k)
            ==> 0 <= tracked_after(known, current)[k].0 < 3,
{
}

/// A scan that finds and loses no radio announces nothing; in particular a scan that sees no
/// radio, when none is known, announces nothing.
pub proof fn lemma_quiet_scan_announces_nothing(known: Map<Seq<char>, (i32, RadioType)>, current: Map<Seq<char>, RadioType>, events: Seq<DeviceListEvent>)
    requires
        changes_announced(known, current, events),
        forall|k: Seq<char>| !found_by_scan(known, current, k) && !lost_by_scan(known, current, k),
    ensures
        events.len() == 0,
{
    if events.len() > 0 {
        let l = choose|l: int| #![trigger events.subrange(0, l)] 0 <= l <= events.len()
            && (forall|i: int| 0 <= i < l ==> ((#[trigger] events[i]) matches DeviceListEvent::BLERadioLost(n) && lost_by_scan(known, current, n@)))
            && (forall|i: int| l <= i < events.len() ==> ((#[trigger] events[i]) matches DeviceListEvent::BLEMeshRadioFound(n, rt)
                && found_by_scan(known, current, n@) && rt == current[n@]))
            && (forall|k: Seq<char>| #[trigger] lost_by_scan(known, current, k) ==> exists|i: int| 0 <= i < l
                && announces_lost(#[trigger] events[i], k))
            && (forall|k: Seq<char>| #[trigger] found_by_scan(known, current, k) ==> exists|i: int| l <= i < events.len()
                && announces_found(#[trigger] events[i], k));
        let e = events[0];
        if l > 0 {
            assert(e matches DeviceListEvent::BLERadioLost(n) && lost_by_scan(known, current, n@));
        } else {
            assert(e matches DeviceListEvent::BLEMeshRadioFound(n, rt) && found_by_scan(known, current, n@));
        }
    }
}

/// A radio that was just seen is lost by the third scan in a row that does not see it, and not
/// before.
pub proof fn lemma_lost_on_third_missed_scan(
    known: Map<Seq<char>, (i32, RadioType)>,
    scan1: Map<Seq<char>, RadioType>,
    scan2: Map<Seq<char>, RadioType>,
    scan3: Map<Seq<char>, RadioType>,
    name: Seq<char>,
)
    requires
        known.contains_key(name),
        known[name].0 == 0,
        !scan1.contains_key(name),
        !scan2.contains_key(name),
        !scan3.contains_key(name),
    ensures
        !lost_by_scan(known, scan1, name),
        !lost_by_scan(tracked_after(known, scan1), scan2, name),
        lost_by_scan(tracked_after(tracked_after(known, scan1), scan2), scan3, name),
        !tracked_after(tracked_after(tracked_after(known, scan1), scan2), scan3).contains_key(name),
{
    let k1 = tracked_after(known, scan1);
    assert(k1.contains_key(name) && k1[name].0 == 1);
    let k2 = tracked_after(k1, scan2);
    assert(k2.contains_key(name) && k2[name].0 == 2);
}

} // verus!
