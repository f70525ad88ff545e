//! Which input devices the engine lists, listens to and creates.
use vstd::prelude::*;
use crate::config::BTN_LEFT;
use crate::text::{contains_chars, contains_text, occurs_at};

verus! {

/// Key code of the right mouse button.
pub const BTN_RIGHT: u16 = 273;

/// Key code of the middle mouse button.
pub const BTN_MIDDLE: u16 = 274;

/// Relative axis code of horizontal pointer motion.
pub const REL_X: u16 = 0;

/// Relative axis code of vertical pointer motion.
pub const REL_Y: u16 = 1;

/// A device offered to the user: its display name and its device node.
#[derive(Debug)]
pub struct DeviceInfo {
    pub name: String,
    pub path: String,
}

/// A device as enumeration reports it: the name it announces, if any, and
/// its device node.
#[derive(Debug)]
pub struct FoundDevice {
    pub name: Option<String>,
    pub path: String,
}

impl Clone for DeviceInfo {
    fn clone(&self) -> (copy: Self)
        ensures
            copy == *self,
    {
        DeviceInfo { name: self.name.clone(), path: self.path.clone() }
    }
}

/// The name under which the engine's own virtual clicking device registers.
pub open spec fn virtual_device_name_chars() -> Seq<char> {
    "Humanized AutoClicker Virtual Device"@
}

/// The marker that identifies the engine's own devices in a device name.
pub open spec fn own_device_marker() -> Seq<char> {
    "Humanized AutoClicker"@
}

/// The name listed for a device that announces none.
pub open spec fn unknown_device_name() -> Seq<char> {
    "Dispositivo Desconhecido"@
}

/// The name listed for a device opened by its node that announces none.
pub open spec fn unnamed_device_name() -> Seq<char> {
    "Dispositivo"@
}

/// The name under which a found device is listed.
pub open spec fn listed_name(device: FoundDevice) -> Seq<char> {
    match device.name {
        Some(n) => n@,
        None => unknown_device_name(),
    }
}

/// A device whose name marks it as one of the engine's own.
pub open spec fn is_own_device_name(name: Seq<char>) -> bool {
    contains_chars(name, own_device_marker())
}

/// The (name, node) pairs that a scan lists for the found devices, in order:
/// every found device but the engine's own.
pub open spec fn scan_listing(found: Seq<FoundDevice>) -> Seq<(Seq<char>, Seq<char>)>
    decreases found.len(),
{
    if found.len() == 0 {
        Seq::empty()
    } else {
        let rest = scan_listing(found.drop_last());
        let device = found.last();
        if is_own_device_name(listed_name(device)) {
            rest
        } else {
            rest.push((listed_name(device), device.path@))
        }
    }
}

/// A found device that a scan keeps: one not of the engine's own.
pub open spec fn kept_by_scan() -> spec_fn(FoundDevice) -> bool {
    |device: FoundDevice| !is_own_device_name(listed_name(device))
}

/// The (name, node) entry a kept device is listed as.
pub open spec fn scan_entry() -> spec_fn(FoundDevice) -> (Seq<char>, Seq<char>) {
    |device: FoundDevice| (listed_name(device), device.path@)
}

/// The (name, node) pairs of a list of devices.
pub open spec fn device_pairs(devices: Seq<DeviceInfo>) -> Seq<(Seq<char>, Seq<char>)> {
    devices.map_values(|d: DeviceInfo| (d.name@, d.path@))
}

/// The name under which the engine registers its virtual clicking device.
pub fn virtual_device_name() -> (name: &'static str)
    ensures
        name@ == virtual_device_name_chars(),
{
    "Humanized AutoClicker Virtual Device"
}

/// The name listed for a device opened by its node, from the name it
/// announces, if any.
pub fn opened_device_name(announced: Option<String>) -> (name: String)
    ensures
        name@ == match announced {
            Some(n) => n@,
            None => unnamed_device_name(),
        },
{
    match announced {
        Some(n) => n,
        None => String::from_str("Dispositivo"),
    }
}

fn listed_name_of(device: &FoundDevice) -> (name: String)
    ensures
        name@ == listed_name(*device),
{
    match &device.name {
        Some(n) => n.clone(),
        None => String::from_str("Dispositivo Desconhecido"),
    }
}

/// Lists the found devices, in order, under their announced names (or a
/// placeholder), leaving out the engine's own devices.
pub fn scan_devices(found: Vec<FoundDevice>) -> (listed: Vec<DeviceInfo>)
    ensures
        device_pairs(listed@) == scan_listing(found@),
        device_pairs(listed@) == found@.filter(kept_by_scan()).map_values(scan_entry()),
        listed@.len() == found@.filter(kept_by_scan()).len(),
{
    proof {
        lemma_scan_keeps_every_other_device(found@);
    }
    let marker = "Humanized AutoClicker";
    let mut listed: Vec<DeviceInfo> = Vec::new();
    let mut i: usize = 0;
    while i < found.len()
        invariant
            i <= found.len(),
            marker@ == own_device_marker(),
            device_pairs(listed@) == scan_listing(found@.subrange(0, i as int)),
        decreases found.len() - i,
    {
        let device = &found[i];
        let name = listed_name_of(device);
        let own = contains_text(name.as_str(), marker);
        let ghost before = listed@;
        assert(found@.subrange(0, i + 1).drop_last() =~= found@.subrange(0, i as int));
        assert(found@.subrange(0, i + 1).last() == found@[i as int]);
        if !own {
            listed.push(DeviceInfo { name, path: device.path.clone() });
            assert(device_pairs(listed@) =~= device_pairs(before).push(
                (listed_name(found@[i as int]), found@[i as int].path@),
            ));
        }
        i = i + 1;
    }
    assert(found@.subrange(0, found@.len() as int) =~= found@);
    listed
}

/// The device nodes among `paths` that name event devices.
pub open spec fn event_node_listing(paths: Seq<Seq<char>>) -> Seq<Seq<char>>
    decreases paths.len(),
{
    if paths.len() == 0 {
        Seq::empty()
    } else {
        let rest = event_node_listing(paths.drop_last());
        if contains_chars(paths.last(), "event"@) {
            rest.push(paths.last())
        } else {
            rest
        }
    }
}

/// The character sequences of a list of texts.
pub open spec fn text_views(texts: Seq<String>) -> Seq<Seq<char>> {
    texts.map_values(|t: String| t@)
}

/// The entries of a device directory, in order, that are event devices: the
/// nodes whose access is probed when checking input permission.
pub fn event_node_paths(paths: Vec<String>) -> (events: Vec<String>)
    ensures
        text_views(events@) == event_node_listing(text_views(paths@)),
{
    let word = "event";
    let mut events: Vec<String> = Vec::new();
    let mut i: usize = 0;
    while i < paths.len()
        invariant
            i <= paths.len(),
            word@ == "event"@,
            text_views(events@) == event_node_listing(text_views(paths@.subrange(0, i as int))),
        decreases paths.len() - i,
    {
        let path = &paths[i];
        let ghost before = events@;
        assert(text_views(paths@.subrange(0, i + 1)).drop_last() =~= text_views(
            paths@.subrange(0, i as int),
        ));
        if contains_text(path.as_str(), word) {
            events.push(path.clone());
            assert(text_views(events@) =~= text_views(before).push(path@));
        }
        i = i + 1;
    }
    assert(paths@.subrange(0, paths@.len() as int) =~= paths@);
    events
}

/// The keys the virtual clicking device declares: the three mouse buttons
/// and the profile's action key.
pub fn virtual_device_keys(action_code: u16) -> (keys: Vec<u16>)
    ensures
        keys@ == seq![BTN_LEFT, BTN_RIGHT, BTN_MIDDLE, action_code],
{
    let mut keys = Vec::new();
    keys.push(BTN_LEFT);
    keys.push(BTN_RIGHT);
    keys.push(BTN_MIDDLE);
    keys.push(action_code);
    assert(keys@ =~= seq![BTN_LEFT, BTN_RIGHT, BTN_MIDDLE, action_code]);
    keys
}

/// The relative axes the virtual clicking device declares, so that it is
/// treated as a pointer.
pub fn virtual_device_axes() -> (axes: Vec<u16>)
    ensures
        axes@ == seq![REL_X, REL_Y],
{
    let mut axes = Vec::new();
    axes.push(REL_X);
    axes.push(REL_Y);
    assert(axes@ =~= seq![REL_X, REL_Y]);
    axes
}

/// No device that a scan lists carries the engine's own marker.
pub proof fn lemma_scan_lists_no_own_device(found: Seq<FoundDevice>)
    ensures
        forall|i: int|
            0 <= i < scan_listing(found).len() ==> !is_own_device_name(
                #[trigger] scan_listing(found)[i].0,
            ),
    decreases found.len(),
{
    if found.len() > 0 {
        lemma_scan_lists_no_own_device(found.drop_last());
        let rest = scan_listing(found.drop_last());
        assert forall|i: int| 0 <= i < scan_listing(found).len() implies !is_own_device_name(
            #[trigger] scan_listing(found)[i].0,
        ) by {
            if i < rest.len() {
                assert(scan_listing(found)[i] == rest[i]);
            }
        }
    }
}

/// The engine never offers its own virtual clicking device: a device that
/// announces the virtual device's name is left out of every scan.
pub proof fn lemma_scan_omits_virtual_device(found: Seq<FoundDevice>)
    ensures
        forall|i: int|
            0 <= i < scan_listing(found).len() ==> #[trigger] scan_listing(found)[i].0
                != virtual_device_name_chars(),
{
    reveal_strlit("Humanized AutoClicker Virtual Device");
    reveal_strlit("Humanized AutoClicker");
    assert(virtual_device_name_chars().subrange(0, own_device_marker().len() as int)
        =~= own_device_marker());
    assert(occurs_at(virtual_device_name_chars(), own_device_marker(), 0));
    lemma_scan_lists_no_own_device(found);
}

/// Every entry a scan lists comes from a found device that is not one of
/// the engine's own, under its listed name and its node.
pub proof fn lemma_scan_entries_come_from_found(found: Seq<FoundDevice>)
    ensures
        forall|i: int|
            0 <= i < scan_listing(found).len() ==> exists|m: int|
                0 <= m < found.len() && !is_own_device_name(listed_name(found[m]))
                    && #[trigger] scan_listing(found)[i] == (listed_name(found[m]), found[m].path@),
    decreases found.len(),
{
    if found.len() > 0 {
        let rest = found.drop_last();
        lemma_scan_entries_come_from_found(rest);
        assert forall|i: int| 0 <= i < scan_listing(found).len() implies exists|m: int|
            0 <= m < found.len() && !is_own_device_name(listed_name(found[m]))
                && #[trigger] scan_listing(found)[i] == (listed_name(found[m]), found[m].path@) by {
            if i < scan_listing(rest).len() {
                let m = choose|m: int|
                    0 <= m < rest.len() && !is_own_device_name(listed_name(rest[m]))
                        && #[trigger] scan_listing(rest)[i] == (listed_name(rest[m]), rest[m].path@);
                assert(found[m] == rest[m]);
            } else {
                assert(scan_listing(found)[i] == (
                    listed_name(found[found.len() - 1]),
                    found[found.len() - 1].path@,
                ));
            }
        }
    }
}

/// When enumeration lists each device node once, the node at which the
/// engine's own virtual clicking device appears never shows up in a scan,
/// so the wizard never listens to it.
pub proof fn lemma_scan_omits_virtual_device_node(found: Seq<FoundDevice>, own: int)
    requires
        0 <= own < found.len(),
        listed_name(found[own]) == virtual_device_name_chars(),
        forall|a: int, b: int|
            0 <= a < found.len() && 0 <= b < found.len() && a != b ==> #[trigger] found[a].path@
                != #[trigger] found[b].path@,
    ensures
        forall|i: int|
            0 <= i < scan_listing(found).len() ==> (#[trigger] scan_listing(found)[i]).1
                != found[own].path@,
{
    reveal_strlit("Humanized AutoClicker Virtual Device");
    reveal_strlit("Humanized AutoClicker");
    assert(virtual_device_name_chars().subrange(0, own_device_marker().len() as int)
        =~= own_device_marker());
    assert(occurs_at(virtual_device_name_chars(), own_device_marker(), 0));
    lemma_scan_entries_come_from_found(found);
    assert forall|i: int| 0 <= i < scan_listing(found).len() implies (#[trigger] scan_listing(
        found,
    )[i]).1 != found[own].path@ by {
        let m = choose|m: int|
            0 <= m < found.len() && !is_own_device_name(listed_name(found[m]))
                && #[trigger] scan_listing(found)[i] == (listed_name(found[m]), found[m].path@);
        assert(m != own);
    }
}

/// A scan leaves out only the engine's own devices: it lists, in order,
/// every found device whose listed name does not carry the marker, each once
/// under its listed name and node, and nothing else. Devices that share a
/// name are all listed.
pub proof fn lemma_scan_keeps_every_other_device(found: Seq<FoundDevice>)
    ensures
        scan_listing(found) == found.filter(kept_by_scan()).map_values(scan_entry()),
        scan_listing(found).len() == found.filter(kept_by_scan()).len(),
    decreases found.len(),
{
    reveal_with_fuel(Seq::filter, 1);
    if found.len() > 0 {
        let rest = found.drop_last();
        lemma_scan_keeps_every_other_device(rest);
        let kept = rest.filter(kept_by_scan());
        if kept_by_scan()(found.last()) {
            assert(kept.push(found.last()).map_values(scan_entry()) =~= kept.map_values(
                scan_entry(),
            ).push(scan_entry()(found.last())));
        }
    } else {
        assert(found.filter(kept_by_scan()).map_values(scan_entry()) =~= Seq::<(Seq<char>, Seq<char>)>::empty());
    }
}

} // verus!
