//! Discovered peers and the rule that picks the pen among them.

use vstd::prelude::*;

verus! {

/// A peer seen by a discovery scan.
#[derive(Clone, Debug)]
pub struct DeviceInfo {
    pub name: String,
    pub address: String,
    /// Advertised service identifiers, as 128-bit values.
    pub services: Vec<u128>,
}

/// A peer as listed to the user, with a connection flag.
#[derive(Clone, Debug)]
pub struct BluetoothDevice {
    pub name: String,
    pub address: String,
    pub is_connected: bool,
}

/// `c` equals the lower-case ASCII letter `lower`, ignoring case.
pub open spec fn ascii_ci_eq(c: char, lower: char) -> bool {
    c == lower || (c as u32) + 32 == lower as u32
}

/// The pen family: names whose first four characters are "cpen" in any case.
pub open spec fn is_pen_name(name: Seq<char>) -> bool {
    &&& name.len() >= 4
    &&& ascii_ci_eq(name[0], 'c')
    &&& ascii_ci_eq(name[1], 'p')
    &&& ascii_ci_eq(name[2], 'e')
    &&& ascii_ci_eq(name[3], 'n')
}

/// The peers of `devices` whose name is a pen name, in scan order.
pub open spec fn pens_of(devices: Seq<DeviceInfo>) -> Seq<DeviceInfo>
    decreases devices.len(),
{
    if devices.len() == 0 {
        Seq::empty()
    } else {
        let rest = pens_of(devices.drop_last());
        if is_pen_name(devices.last().name@) {
            rest.push(devices.last())
        } else {
            rest
        }
    }
}

/// `a` and `b` describe the same peer.
pub open spec fn same_info(a: DeviceInfo, b: DeviceInfo) -> bool {
    a.name@ == b.name@ && a.address@ == b.address@ && a.services@ == b.services@
}

/// `a` lists the same peers as `b`, in the same order.
pub open spec fn same_infos(a: Seq<DeviceInfo>, b: Seq<DeviceInfo>) -> bool {
    a.len() == b.len() && forall|i: int| 0 <= i < a.len() ==> same_info(#[trigger] a[i], b[i])
}

fn ascii_ci_matches(c: char, lower: char) -> (r: bool)
    ensures
        r == ascii_ci_eq(c, lower),
{
    c == lower || (c as u32) + 32 == lower as u32
}

/// Whether `name` belongs to the pen family (case-insensitive "cpen" prefix).
pub fn is_pen(name: &str) -> (r: bool)
    ensures
        r == is_pen_name(name@),
{
    if name.unicode_len() < 4 {
        return false;
    }
    ascii_ci_matches(name.get_char(0), 'c') && ascii_ci_matches(name.get_char(1), 'p')
        && ascii_ci_matches(name.get_char(2), 'e') && ascii_ci_matches(name.get_char(3), 'n')
}

impl DeviceInfo {
    /// A field-by-field copy.
    pub fn duplicate(&self) -> (r: DeviceInfo)
        ensures
            same_info(r, *self),
    {
        DeviceInfo {
            name: self.name.clone(),
            address: self.address.clone(),
            services: self.services.clone(),
        }
    }
}

/// The pens among `devices`, in scan order.
pub fn filter_cpen_devices(devices: &Vec<DeviceInfo>) -> (r: Vec<DeviceInfo>)
    ensures
        same_infos(r@, pens_of(devices@)),
{
    let mut out: Vec<DeviceInfo> = Vec::new();
    let mut i: usize = 0;
    while i < devices.len()
        invariant
            i <= devices@.len(),
            same_infos(out@, pens_of(devices@.subrange(0, i as int))),
        decreases devices.len() - i,
    {
        let d = &devices[i];
        assert(devices@.subrange(0, i as int + 1).drop_last() =~= devices@.subrange(0, i as int));
        if is_pen(d.name.as_str()) {
            out.push(d.duplicate());
        }
        i = i + 1;
    }
    assert(devices@.subrange(0, devices@.len() as int) =~= devices@);
    out
}

impl BluetoothDevice {
    /// A peer that is not connected.
    pub fn new(name: String, address: String) -> (r: Self)
        ensures
            r.name == name,
            r.address == address,
            !r.is_connected,
    {
        BluetoothDevice { name, address, is_connected: false }
    }

    /// Whether the name starts with `prefix` (case-sensitive).
    pub fn starts_with(&self, prefix: &str) -> (r: bool)
        ensures
            r == prefix@.is_prefix_of(self.name@),
    {
        let name = self.name.as_str();
        let n = prefix.unicode_len();
        if n > name.unicode_len() {
            return false;
        }
        let mut i: usize = 0;
        while i < n
            invariant
                n == prefix@.len(),
                n <= name@.len(),
                name@ == self.name@,
                i <= n,
                forall|j: int| 0 <= j < i ==> prefix@[j] == name@[j],
            decreases n - i,
        {
            if prefix.get_char(i) != name.get_char(i) {
                return false;
            }
            i = i + 1;
        }
        true
    }

    /// "name - address".
    pub fn display_info(&self) -> (r: String)
        ensures
            r@ == self.name@ + " - "@ + self.address@,
    {
        let mut s = self.name.clone();
        s.append(" - ");
        s.append(self.address.as_str());
        s
    }
}

/// The listed peers of `devices` whose name starts with "Cpen" exactly.
pub open spec fn listed_pens_of(devices: Seq<BluetoothDevice>) -> Seq<BluetoothDevice>
    decreases devices.len(),
{
    if devices.len() == 0 {
        Seq::empty()
    } else {
        let rest = listed_pens_of(devices.drop_last());
        if "Cpen"@.is_prefix_of(devices.last().name@) {
            rest.push(devices.last())
        } else {
            rest
        }
    }
}

/// The listed peers whose name starts with "Cpen" (case-sensitive), in order.
pub fn find_cpen_devices(devices: &Vec<BluetoothDevice>) -> (r: Vec<BluetoothDevice>)
    ensures
        r@.len() == listed_pens_of(devices@).len(),
        forall|i: int| 0 <= i < r@.len() ==> #[trigger] r@[i].name@ == listed_pens_of(devices@)[i].name@
            && r@[i].address@ == listed_pens_of(devices@)[i].address@
            && r@[i].is_connected == listed_pens_of(devices@)[i].is_connected,
{
    let mut out: Vec<BluetoothDevice> = Vec::new();
    let mut i: usize = 0;
    while i < devices.len()
        invariant
            i <= devices@.len(),
            out@.len() == listed_pens_of(devices@.subrange(0, i as int)).len(),
            forall|k: int| 0 <= k < out@.len() ==> #[trigger] out@[k].name@ == listed_pens_of(devices@.subrange(0, i as int))[k].name@
                && out@[k].address@ == listed_pens_of(devices@.subrange(0, i as int))[k].address@
                && out@[k].is_connected == listed_pens_of(devices@.subrange(0, i as int))[k].is_connected,
        decreases devices.len() - i,
    {
        let d = &devices[i];
        assert(devices@.subrange(0, i as int + 1).drop_last() =~= devices@.subrange(0, i as int));
        if d.starts_with("Cpen") {
            out.push(BluetoothDevice { name: d.name.clone(), address: d.address.clone(), is_connected: d.is_connected });
        }
        i = i + 1;
    }
    assert(devices@.subrange(0, devices@.len() as int) =~= devices@);
    out
}

} // verus!
