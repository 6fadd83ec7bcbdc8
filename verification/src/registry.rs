//! The compiled-in knowledge of which devices are supported: the vendor and
//! usage-page constants, the table of compatible devices, the set of known
//! incompatible ones, and the lookups over them.

use vstd::prelude::*;
use crate::usb_id::{DeviceMode, UsbId};

verus! {

/// The vendor identifier that all devices of the family carry.
pub const BOSE_VID: u16 = 0x05a7;

/// The HID usage page on which a device speaks the firmware-update protocol.
pub const BOSE_HID_USAGE_PAGE: u16 = 0xff00;

/// The two identifiers under which one device model enumerates: one in
/// normal operation, one when it waits for firmware.
#[derive(Copy, Clone, Debug)]
pub struct DeviceIds {
    pub normal_mode: UsbId,
    pub dfu_mode: UsbId,
}

impl DeviceIds {
    /// An entry is well formed when its two identifiers differ: they are
    /// distinct enumerations of the same hardware.
    pub open spec fn wf(self) -> bool {
        self.normal_mode != self.dfu_mode
    }

    /// The mode in which this device carries `id`, if it does in any. The
    /// normal-mode identifier is tried first.
    pub open spec fn mode_of(self, id: UsbId) -> Option<DeviceMode> {
        if id == self.normal_mode {
            Some(DeviceMode::Normal)
        } else if id == self.dfu_mode {
            Some(DeviceMode::Dfu)
        } else {
            None
        }
    }

    /// If one of our modes uses the given ID, return it. Otherwise, return
    /// `None`.
    pub fn match_id(&self, id: UsbId) -> (mode: Option<DeviceMode>)
        ensures
            mode == self.mode_of(id),
    {
        if id == self.normal_mode {
            Some(DeviceMode::Normal)
        } else if id == self.dfu_mode {
            Some(DeviceMode::Dfu)
        } else {
            None
        }
    }
}

/// The identifier with the family's vendor ID and the given product ID.
pub open spec fn family_id(pid: u16) -> UsbId {
    UsbId { vid: BOSE_VID, pid }
}

/// The entry whose two identifiers carry the family's vendor ID and the given
/// product IDs.
pub open spec fn family_dev(normal_pid: u16, dfu_pid: u16) -> DeviceIds {
    DeviceIds { normal_mode: family_id(normal_pid), dfu_mode: family_id(dfu_pid) }
}

/// An identifier of the family's vendor with the given product ID.
pub fn bose_pid(pid: u16) -> (id: UsbId)
    ensures
        id == family_id(pid),
{
    UsbId { vid: BOSE_VID, pid }
}

/// A device of the family's vendor with the given product IDs for its two
/// modes. The entry is well formed exactly when the two differ.
pub fn bose_dev(normal_pid: u16, dfu_pid: u16) -> (dev: DeviceIds)
    ensures
        dev == family_dev(normal_pid, dfu_pid),
        dev.wf() <==> normal_pid != dfu_pid,
{
    DeviceIds {
        normal_mode: UsbId { vid: BOSE_VID, pid: normal_pid },
        dfu_mode: UsbId { vid: BOSE_VID, pid: dfu_pid },
    }
}

/// The mode that the first entry of `table` carrying `id` gives it, or `None`
/// if no entry carries it. Entries are tried from the front, so where an
/// identifier occurs in several entries the earliest one decides.
pub open spec fn first_match(table: Seq<DeviceIds>, id: UsbId) -> Option<DeviceMode>
    decreases table.len(),
{
    if table.len() == 0 {
        None
    } else if table[0].mode_of(id) is Some {
        table[0].mode_of(id)
    } else {
        first_match(table.drop_first(), id)
    }
}

/// Some entry of `table` carries `id`, in one mode or the other.
pub open spec fn carried(table: Seq<DeviceIds>, id: UsbId) -> bool {
    exists|i: int| 0 <= i < table.len() && (#[trigger] table[i]).mode_of(id) is Some
}

/// No identifier is the normal-mode identifier of one entry of `table` and
/// the firmware-update identifier of an entry, the same or another. Every
/// entry of such a table is well formed, and the mode that a lookup gives an
/// identifier does not depend on the order of the entries.
pub open spec fn modes_distinct(table: Seq<DeviceIds>) -> bool {
    forall|i: int, j: int|
        0 <= i < table.len() && 0 <= j < table.len() ==> (#[trigger] table[i]).normal_mode != (
        #[trigger] table[j]).dfu_mode
}

/// A lookup finds nothing exactly when no entry carries the identifier.
pub proof fn lemma_first_match_none(table: Seq<DeviceIds>, id: UsbId)
    ensures
        first_match(table, id) is None <==> !carried(table, id),
    decreases table.len(),
{
    if table.len() > 0 {
        let rest = table.drop_first();
        lemma_first_match_none(rest, id);
        if table[0].mode_of(id) is Some {
            assert(carried(table, id));
        } else if carried(rest, id) {
            let k = choose|k: int| 0 <= k < rest.len() && (#[trigger] rest[k]).mode_of(id) is Some;
            assert(table[k + 1] == rest[k]);
            assert(carried(table, id));
        } else if carried(table, id) {
            let k = choose|k: int| 0 <= k < table.len() && (#[trigger] table[k]).mode_of(id) is Some;
            assert(rest[k - 1] == table[k]);
            assert(false);
        }
    }
}

/// First match wins: the lookup gives what the earliest entry that carries
/// the identifier gives, whatever stands behind it.
pub proof fn law_first_match_wins(table: Seq<DeviceIds>, id: UsbId, i: int)
    requires
        0 <= i < table.len(),
        table[i].mode_of(id) is Some,
        forall|j: int| 0 <= j < i ==> (#[trigger] table[j]).mode_of(id) is None,
    ensures
        first_match(table, id) == table[i].mode_of(id),
    decreases table.len(),
{
    if i > 0 {
        let rest = table.drop_first();
        assert(table[0].mode_of(id) is None);
        assert(rest[i - 1] == table[i]);
        assert forall|j: int| 0 <= j < i - 1 implies (#[trigger] rest[j]).mode_of(id) is None by {
            assert(rest[j] == table[j + 1]);
        }
        law_first_match_wins(rest, id, i - 1);
    }
}

/// In a table whose normal-mode and firmware-update identifiers are apart, an
/// identifier that equals a field of any entry is given the mode of that
/// field.
pub proof fn lemma_first_match_mode(table: Seq<DeviceIds>, id: UsbId, i: int)
    requires
        modes_distinct(table),
        0 <= i < table.len(),
    ensures
        id == table[i].normal_mode ==> first_match(table, id) == Some(DeviceMode::Normal),
        id == table[i].dfu_mode ==> first_match(table, id) == Some(DeviceMode::Dfu),
    decreases table.len(),
{
    if table[0].mode_of(id) is None {
        if i > 0 {
            let rest = table.drop_first();
            assert(rest[i - 1] == table[i]);
            assert forall|a: int, b: int| 0 <= a < rest.len() && 0 <= b < rest.len() implies (
            #[trigger] rest[a]).normal_mode != (#[trigger] rest[b]).dfu_mode by {
                assert(rest[a] == table[a + 1]);
                assert(rest[b] == table[b + 1]);
            }
            lemma_first_match_mode(rest, id, i - 1);
        }
    } else {
        assert(table[0].normal_mode != table[i].dfu_mode);
        assert(table[i].normal_mode != table[0].dfu_mode);
    }
}

/// A lookup never gives the unknown mode.
pub proof fn lemma_first_match_known_mode(table: Seq<DeviceIds>, id: UsbId)
    ensures
        first_match(table, id) != Some(DeviceMode::Unknown),
    decreases table.len(),
{
    if table.len() > 0 {
        lemma_first_match_known_mode(table.drop_first(), id);
    }
}

/// Scans `table` from the front for an entry that carries `id`.
pub fn find_mode(table: &[DeviceIds], id: UsbId) -> (mode: Option<DeviceMode>)
    ensures
        mode == first_match(table@, id),
{
    let mut i: usize = 0;
    assert(table@.skip(0) =~= table@);
    while i < table.len()
        invariant
            i <= table@.len(),
            first_match(table@, id) == first_match(table@.skip(i as int), id),
        decreases table@.len() - i,
    {
        let found = table[i].match_id(id);
        proof {
            assert(table@.skip(i as int)[0] == table@[i as int]);
            assert(table@.skip(i as int).drop_first() =~= table@.skip(i + 1));
        }
        if found.is_some() {
            return found;
        }
        i += 1;
    }
    None
}

/// Whether `id` occurs in `ids`.
pub fn contains_id(ids: &[UsbId], id: UsbId) -> (found: bool)
    ensures
        found == ids@.contains(id),
{
    let mut i: usize = 0;
    while i < ids.len()
        invariant
            i <= ids@.len(),
            forall|k: int| 0 <= k < i ==> ids@[k] != id,
        decreases ids@.len() - i,
    {
        if ids[i] == id {
            return true;
        }
        i += 1;
    }
    false
}

/// The compatible devices, in the order in which they are tried. Several
/// models enumerate under one product ID, so an entry stands for a family of
/// products rather than for one model.
pub open spec fn compatible_table() -> Seq<DeviceIds> {
    seq![family_dev(0x40fe, 0x1021), family_dev(0x1020, 0x1021), family_dev(0x1022, 0x1021)]
}

/// The devices known not to speak the firmware-update protocol. They are
/// held as plain identifiers, since such a device may have no second mode.
pub open spec fn incompatible_table() -> Seq<UsbId> {
    seq![family_id(0x40fc)]
}

/// The identifiers that are reported as compatible devices.
pub open spec fn known_ids() -> Seq<UsbId> {
    seq![family_id(0x40fe), family_id(0x1020), family_id(0x1021), family_id(0x1022)]
}

/// The compiled-in table keeps the two modes' identifiers apart and holds no
/// known incompatible device, and the identifiers that are reported as
/// compatible are those that it carries.
pub proof fn lemma_tables_consistent()
    ensures
        modes_distinct(compatible_table()),
        forall|i: int| 0 <= i < compatible_table().len() ==> (#[trigger] compatible_table()[i]).wf(),
        forall|i: int|
            0 <= i < incompatible_table().len() ==> !carried(
                compatible_table(),
                #[trigger] incompatible_table()[i],
            ),
        forall|id: UsbId| #[trigger] known_ids().contains(id) <==> carried(compatible_table(), id),
{
    let table = compatible_table();
    assert(table.len() == 3);
    assert(table[0] == family_dev(0x40fe, 0x1021));
    assert(table[1] == family_dev(0x1020, 0x1021));
    assert(table[2] == family_dev(0x1022, 0x1021));
    let known = known_ids();
    assert(known.len() == 4);
    assert(known[0] == family_id(0x40fe));
    assert(known[1] == family_id(0x1020));
    assert(known[2] == family_id(0x1021));
    assert(known[3] == family_id(0x1022));
    assert(table[0].mode_of(known[0]) is Some);
    assert(table[1].mode_of(known[1]) is Some);
    assert(table[0].mode_of(known[2]) is Some);
    assert(table[2].mode_of(known[3]) is Some);
}

/// The table of compatible devices.
pub fn compatible_devices() -> (table: [DeviceIds; 3])
    ensures
        table@ == compatible_table(),
{
    let table = [
        bose_dev(0x40fe, 0x1021),  // SoundLink Mini II SE
        bose_dev(0x1020, 0x1021),
        bose_dev(0x1022, 0x1021),
    ];
    assert(table@ =~= compatible_table());
    table
}

/// The set of known incompatible devices.
pub fn incompatible_devices() -> (ids: [UsbId; 1])
    ensures
        ids@ == incompatible_table(),
{
    let ids = [
        bose_pid(0x40fc),  // Noise Cancelling Headphones 700
    ];
    assert(ids@ =~= incompatible_table());
    ids
}

/// The identifiers of the compatible devices, each once.
pub fn known_devices() -> (ids: [UsbId; 4])
    ensures
        ids@ == known_ids(),
{
    let ids = [bose_pid(0x40fe), bose_pid(0x1020), bose_pid(0x1021), bose_pid(0x1022)];
    assert(ids@ =~= known_ids());
    ids
}

/// The mode in which a compatible device carries `id`: that of the first
/// entry of the compatible table that matches, `None` if none does.
pub fn lookup_mode(id: UsbId) -> (mode: Option<DeviceMode>)
    ensures
        mode == first_match(compatible_table(), id),
{
    let table = compatible_devices();
    find_mode(table.as_slice(), id)
}

/// Whether `id` is one of the known incompatible devices.
pub fn is_known_incompatible(id: UsbId) -> (known: bool)
    ensures
        known == incompatible_table().contains(id),
{
    let ids = incompatible_devices();
    contains_id(ids.as_slice(), id)
}

} // verus!
