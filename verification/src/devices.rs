//! Choosing the device to play on: the active device if there is one, else
//! the configured default device, else the first device available.

use vstd::prelude::*;

use crate::model::Device;

verus! {

/// A device as the Web API lists it: an id where it has one, its name, and
/// whether it is the active device.
#[derive(Debug, Clone)]
pub struct DeviceStatus {
    pub id: Option<String>,
    pub name: String,
    pub is_active: bool,
}

/// The id of `d`, as text.
pub open spec fn device_id(d: DeviceStatus) -> Option<Seq<char>> {
    match d.id {
        Some(id) => Some(id@),
        None => None,
    }
}

/// Some device of `s` is active.
pub open spec fn has_active(s: Seq<DeviceStatus>) -> bool {
    exists|i: int| 0 <= i < s.len() && (#[trigger] s[i]).is_active
}

/// The device at `i` is the first active one of `s`.
pub open spec fn is_first_active(s: Seq<DeviceStatus>, i: int) -> bool {
    &&& 0 <= i < s.len()
    &&& s[i].is_active
    &&& forall|j: int| 0 <= j < i ==> !(#[trigger] s[j]).is_active
}

/// The devices of `s` that have an id, as (name, id) pairs, in order.
pub open spec fn candidates(s: Seq<DeviceStatus>) -> Seq<(Seq<char>, Seq<char>)>
    decreases s.len(),
{
    if s.len() == 0 {
        Seq::empty()
    } else {
        let rest = candidates(s.drop_last());
        match s.last().id {
            Some(id) => rest.push((s.last().name@, id@)),
            None => rest,
        }
    }
}

/// `c` followed by the integrated device, where there is one.
pub open spec fn with_integrated(
    c: Seq<(Seq<char>, Seq<char>)>,
    integrated: Option<Device>,
) -> Seq<(Seq<char>, Seq<char>)> {
    match integrated {
        Some(d) => c.push((d.name@, d.id@)),
        None => c,
    }
}

/// Some pair of `c` is named `name`.
pub open spec fn has_named(c: Seq<(Seq<char>, Seq<char>)>, name: Seq<char>) -> bool {
    exists|k: int| 0 <= k < c.len() && (#[trigger] c[k]).0 == name
}

/// The pair at `k` is the first of `c` named `name`.
pub open spec fn is_first_named(c: Seq<(Seq<char>, Seq<char>)>, name: Seq<char>, k: int) -> bool {
    &&& 0 <= k < c.len()
    &&& c[k].0 == name
    &&& forall|j: int| 0 <= j < k ==> (#[trigger] c[j]).0 != name
}

/// `r` as text.
pub open spec fn id_text(r: Option<String>) -> Option<Seq<char>> {
    match r {
        Some(id) => Some(id@),
        None => None,
    }
}

/// The id of the device to play on, among `devices`, the `integrated`
/// device (listed after them) and the name of the `default_device`: the
/// active device's id if a device is active (none if it has no id);
/// otherwise, of the devices that have an id, the first named
/// `default_device`, or else the first one; none where no device has an id.
pub fn find_available_device(
    devices: &Vec<DeviceStatus>,
    integrated: Option<Device>,
    default_device: &String,
) -> (r: Option<String>)
    ensures
        has_active(devices@) ==> exists|i: int|
            is_first_active(devices@, i) && id_text(r) == device_id(#[trigger] devices@[i]),
        !has_active(devices@) ==> {
            let c = with_integrated(candidates(devices@), integrated);
            &&& c.len() == 0 ==> r is None
            &&& c.len() > 0 && has_named(c, default_device@) ==> exists|k: int|
                is_first_named(c, default_device@, k) && id_text(r) == Some((#[trigger] c[k]).1)
            &&& c.len() > 0 && !has_named(c, default_device@) ==> id_text(r) == Some(c[0].1)
        },
{
    let mut i: usize = 0;
    while i < devices.len()
        invariant
            i <= devices@.len(),
            forall|j: int| 0 <= j < i ==> !(#[trigger] devices@[j]).is_active,
        decreases devices@.len() - i,
    {
        if devices[i].is_active {
            assert(is_first_active(devices@, i as int));
            return match &devices[i].id {
                Some(id) => Some(id.clone()),
                None => None,
            };
        }
        i = i + 1;
    }
    assert(!has_active(devices@));
    let mut pairs: Vec<Device> = Vec::new();
    let mut i: usize = 0;
    while i < devices.len()
        invariant
            i <= devices@.len(),
            pairs@.map_values(|d: Device| (d.name@, d.id@)) == candidates(devices@.take(i as int)),
        decreases devices@.len() - i,
    {
        proof {
            let t = devices@.take(i + 1);
            assert(t.drop_last() =~= devices@.take(i as int));
            assert(t.last() == devices@[i as int]);
        }
        match &devices[i].id {
            Some(id) => {
                let ghost before = pairs@.map_values(|d: Device| (d.name@, d.id@));
                pairs.push(Device { id: id.clone(), name: devices[i].name.clone() });
                assert(pairs@.map_values(|d: Device| (d.name@, d.id@)) =~= before.push(
                    (devices@[i as int].name@, id@),
                ));
            },
            None => {},
        }
        i = i + 1;
    }
    assert(devices@.take(i as int) =~= devices@);
    match integrated {
        Some(d) => {
            let ghost before = pairs@.map_values(|d: Device| (d.name@, d.id@));
            pairs.push(d);
            assert(pairs@.map_values(|d: Device| (d.name@, d.id@)) =~= before.push(
                (d.name@, d.id@),
            ));
        },
        None => {},
    }
    let ghost c = pairs@.map_values(|d: Device| (d.name@, d.id@));
    assert(c == with_integrated(candidates(devices@), integrated));
    if pairs.len() == 0 {
        return None;
    }
    let mut k: usize = 0;
    while k < pairs.len()
        invariant
            c == pairs@.map_values(|d: Device| (d.name@, d.id@)),
            c == with_integrated(candidates(devices@), integrated),
            !has_active(devices@),
            k <= pairs@.len(),
            forall|j: int| 0 <= j < k ==> (#[trigger] c[j]).0 != default_device@,
        decreases pairs@.len() - k,
    {
        if pairs[k].name == *default_device {
            assert(is_first_named(c, default_device@, k as int));
            return Some(pairs[k].id.clone());
        }
        assert(c[k as int].0 == pairs@[k as int].name@);
        k = k + 1;
    }
    assert(!has_named(c, default_device@));
    assert(c[0].1 == pairs@[0].id@);
    Some(pairs[0].id.clone())
}

} // verus!
