//! Classification of the devices that the device manager lists, and the walk
//! over its directory that keeps going past devices whose kind could not be
//! read.
use vstd::prelude::*;

verus! {

/// Kind code that the device manager gives to wireless devices.
pub const WIRELESS_KIND: u32 = 2;

/// A failed call on the system bus.
#[derive(PartialEq, Eq, Structural, Clone, Copy, Debug)]
pub enum BusError {
    /// The device-management service could not be reached.
    Unreachable,
    /// The service answered the call with an error.
    CallFailed,
}

/// A binding to one wireless device, by its object path on the bus.
pub struct WirelessHandle {
    pub object_path: String,
}

impl View for WirelessHandle {
    type V = Seq<char>;

    open spec fn view(&self) -> Seq<char> {
        self.object_path@
    }
}

/// A classified device. Only a wireless device carries a handle that a scan
/// can be started on; every other kind is inert.
pub enum DeviceVariant {
    Wireless(WirelessHandle),
    Unrecognized,
}

impl View for DeviceVariant {
    /// The object path of a wireless device, `None` for any other.
    type V = Option<Seq<char>>;

    open spec fn view(&self) -> Option<Seq<char>> {
        match self {
            DeviceVariant::Wireless(h) => Some(h@),
            DeviceVariant::Unrecognized => None,
        }
    }
}

/// What classifying the device at `path` with kind `kind` gives.
pub open spec fn classified(path: Seq<char>, kind: u32) -> Option<Seq<char>> {
    if kind == WIRELESS_KIND {
        Some(path)
    } else {
        None
    }
}

/// The classified devices of a directory walk: one for each device whose kind
/// was read, in directory order; a device whose kind could not be read is
/// skipped.
pub open spec fn walked(paths: Seq<Seq<char>>, kinds: Seq<Result<u32, BusError>>) -> Seq<
    Option<Seq<char>>,
>
    recommends
        paths.len() == kinds.len(),
    decreases paths.len(),
{
    if paths.len() == 0 {
        seq![]
    } else {
        let rest = walked(paths.drop_last(), kinds.drop_last());
        match kinds.last() {
            Ok(k) => rest.push(classified(paths.last(), k)),
            Err(_) => rest,
        }
    }
}

/// The object paths of the wireless devices among `devices`, in their order.
pub open spec fn wireless_paths(devices: Seq<Option<Seq<char>>>) -> Seq<Seq<char>>
    decreases devices.len(),
{
    if devices.len() == 0 {
        seq![]
    } else {
        let rest = wireless_paths(devices.drop_last());
        match devices.last() {
            Some(p) => rest.push(p),
            None => rest,
        }
    }
}

pub open spec fn variant_views(v: Seq<DeviceVariant>) -> Seq<Option<Seq<char>>> {
    v.map_values(|d: DeviceVariant| d@)
}

pub open spec fn handle_views(v: Seq<WirelessHandle>) -> Seq<Seq<char>> {
    v.map_values(|h: WirelessHandle| h@)
}

pub open spec fn path_views(v: Seq<String>) -> Seq<Seq<char>> {
    v.map_values(|s: String| s@)
}

/// Maps a device's kind code to its variant: a wireless handle on the same
/// object path for the wireless kind, `Unrecognized` for every other code.
pub fn classify(object_path: &String, kind: u32) -> (r: DeviceVariant)
    ensures
        r@ == classified(object_path@, kind),
        kind != WIRELESS_KIND ==> r is Unrecognized,
{
    if kind == WIRELESS_KIND {
        DeviceVariant::Wireless(WirelessHandle { object_path: object_path.clone() })
    } else {
        DeviceVariant::Unrecognized
    }
}

/// Classifies each listed device from the answer to its kind query. A failed
/// query drops that device alone; the walk goes on with the next one.
pub fn walk_directory(paths: &Vec<String>, kinds: &Vec<Result<u32, BusError>>) -> (r: Vec<
    DeviceVariant,
>)
    requires
        paths.len() == kinds.len(),
    ensures
        variant_views(r@) == walked(path_views(paths@), kinds@),
{
    let mut out: Vec<DeviceVariant> = Vec::new();
    let mut i: usize = 0;
    while i < paths.len()
        invariant
            i <= paths.len(),
            paths.len() == kinds.len(),
            variant_views(out@) == walked(
                path_views(paths@).take(i as int),
                kinds@.take(i as int),
            ),
        decreases paths.len() - i,
    {
        let ghost before = out@;
        assert(path_views(paths@).take(i as int + 1).drop_last() == path_views(paths@).take(
            i as int,
        ));
        assert(kinds@.take(i as int + 1).drop_last() == kinds@.take(i as int));
        match &kinds[i] {
            Ok(k) => {
                let d = classify(&paths[i], *k);
                out.push(d);
                assert(variant_views(out@) == variant_views(before).push(d@));
            },
            Err(_) => {},
        }
        i = i + 1;
    }
    assert(path_views(paths@).take(paths.len() as int) == path_views(paths@));
    assert(kinds@.take(kinds.len() as int) == kinds@);
    out
}

/// The handles of the wireless devices, in their order: the devices that go
/// on to a scan.
pub fn wireless_handles(devices: Vec<DeviceVariant>) -> (r: Vec<WirelessHandle>)
    ensures
        handle_views(r@) == wireless_paths(variant_views(devices@)),
{
    let mut out: Vec<WirelessHandle> = Vec::new();
    let mut rest = devices;
    let ghost all = devices@;
    // Take the devices from the back so that each one is moved, not copied,
    // then put the handles back in order.
    let mut rev: Vec<WirelessHandle> = Vec::new();
    let n = rest.len();
    while rest.len() > 0
        invariant
            rest@ == all.take(rest.len() as int),
            rest.len() <= n,
            n == all.len(),
            wireless_paths(variant_views(all)) == wireless_paths(variant_views(rest@)) + handle_views(
                rev@,
            ).reverse(),
        decreases rest.len(),
    {
        let ghost before = rest@;
        let ghost rev_before = rev@;
        let d = rest.pop().unwrap();
        assert(variant_views(before).drop_last() == variant_views(rest@));
        assert(rest@ == all.take(rest.len() as int));
        match d {
            DeviceVariant::Wireless(h) => {
                rev.push(h);
                assert(handle_views(rev@) == handle_views(rev_before).push(h@));
                assert(handle_views(rev@).reverse() == seq![h@] + handle_views(
                    rev_before,
                ).reverse());
            },
            DeviceVariant::Unrecognized => {},
        }
    }
    assert(wireless_paths(variant_views(rest@)) == Seq::<Seq<char>>::empty());
    while rev.len() > 0
        invariant
            wireless_paths(variant_views(all)) == handle_views(out@) + handle_views(
                rev@,
            ).reverse(),
        decreases rev.len(),
    {
        let ghost rev_before = rev@;
        let ghost out_before = out@;
        let h = rev.pop().unwrap();
        assert(handle_views(rev_before) == handle_views(rev@).push(h@));
        assert(handle_views(rev_before).reverse() == seq![h@] + handle_views(rev@).reverse());
        out.push(h);
        assert(handle_views(out@) == handle_views(out_before).push(h@));
    }
    assert(handle_views(rev@).reverse() == Seq::<Seq<char>>::empty());
    out
}

} // verus!
