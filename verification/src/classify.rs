//! The decision itself: from an identifier pair and a usage page to a
//! verdict, and what holds of that verdict for every input.

use vstd::prelude::*;
use crate::registry::{
    carried, compatible_table, first_match, incompatible_table, is_known_incompatible,
    lemma_first_match_known_mode, lemma_first_match_mode, lemma_first_match_none,
    lemma_tables_consistent, lookup_mode, BOSE_HID_USAGE_PAGE, BOSE_VID,
};
use crate::usb_id::{DeviceMode, UsbId};

verus! {

/// Compatibility of a device, with detected mode if applicable.
#[derive(Copy, Clone, Debug, PartialEq, Eq, Structural)]
pub enum DeviceCompat {
    /// Known to speak the firmware-update protocol. Usable by default.
    Compatible(DeviceMode),
    /// May speak the firmware-update protocol but has not been tested. The
    /// mode is currently always [`DeviceMode::Unknown`].
    Untested(DeviceMode),
    /// Definitely does not speak the firmware-update protocol. Treated as if
    /// it did not exist.
    Incompatible,
}

impl DeviceCompat {
    /// The sentence a verdict is shown as.
    pub open spec fn text(self) -> Seq<char> {
        match self {
            DeviceCompat::Compatible(mode) => "compatible device in "@ + mode.text() + " mode"@,
            DeviceCompat::Untested(mode) => "UNTESTED device in "@ + mode.text() + " mode"@,
            DeviceCompat::Incompatible => "incompatible device"@,
        }
    }

    /// Renders the verdict for a log or a command line.
    pub fn to_string(&self) -> (text: String)
        ensures
            text@ == self.text(),
    {
        match self {
            DeviceCompat::Compatible(mode) => String::from_str("compatible device in ").concat(
                mode.as_str(),
            ).concat(" mode"),
            DeviceCompat::Untested(mode) => String::from_str("UNTESTED device in ").concat(
                mode.as_str(),
            ).concat(" mode"),
            DeviceCompat::Incompatible => String::from_str("incompatible device"),
        }
    }
}

/// A usage page on which a device may be a candidate: the page of the
/// firmware-update protocol, or 0 where the platform reports no page.
pub open spec fn usage_page_qualifies(usage_page: u16) -> bool {
    usage_page == 0 || usage_page == BOSE_HID_USAGE_PAGE
}

/// The verdict on a device. The usage page is judged first, then the table of
/// compatible devices, then the set of incompatible ones, and last the
/// vendor.
pub open spec fn verdict(id: UsbId, usage_page: u16) -> DeviceCompat {
    if !usage_page_qualifies(usage_page) {
        DeviceCompat::Incompatible
    } else if let Some(mode) = first_match(compatible_table(), id) {
        DeviceCompat::Compatible(mode)
    } else if incompatible_table().contains(id) {
        DeviceCompat::Incompatible
    } else if id.vid == BOSE_VID {
        DeviceCompat::Untested(DeviceMode::Unknown)
    } else {
        DeviceCompat::Incompatible
    }
}

/// Find a device's compatibility and mode based on its USB ID.
///
/// Where each usage page is exposed as a device of its own, only the one of
/// the firmware-update protocol is wanted. Where all pages are one device,
/// `usage_page` is 0.
pub fn identify_device(id: UsbId, usage_page: u16) -> (compat: DeviceCompat)
    ensures
        compat == verdict(id, usage_page),
{
    if usage_page != 0 && usage_page != BOSE_HID_USAGE_PAGE {
        return DeviceCompat::Incompatible;
    }
    // See if the device is known to us.
    if let Some(mode) = lookup_mode(id) {
        return DeviceCompat::Compatible(mode);
    }
    // Next, see if it's known to be incompatible.
    if is_known_incompatible(id) {
        return DeviceCompat::Incompatible;
    }
    // If not, mark it as untested if it has the family's vendor ID.
    if id.vid == BOSE_VID {
        DeviceCompat::Untested(DeviceMode::Unknown)
    } else {
        DeviceCompat::Incompatible
    }
}

/// An identifier that is the normal-mode or the firmware-update identifier of
/// an entry of the compatible table is, on a qualifying usage page,
/// compatible, in the mode of the field that it equals.
pub proof fn law_registered_is_compatible(id: UsbId, usage_page: u16, i: int)
    requires
        usage_page_qualifies(usage_page),
        0 <= i < compatible_table().len(),
    ensures
        id == compatible_table()[i].normal_mode ==> verdict(id, usage_page)
            == DeviceCompat::Compatible(DeviceMode::Normal),
        id == compatible_table()[i].dfu_mode ==> verdict(id, usage_page) == DeviceCompat::Compatible(
            DeviceMode::Dfu,
        ),
{
    lemma_tables_consistent();
    lemma_first_match_mode(compatible_table(), id, i);
}

/// A known incompatible device is incompatible on every usage page, whatever
/// its vendor.
pub proof fn law_known_incompatible(id: UsbId, usage_page: u16)
    requires
        incompatible_table().contains(id),
    ensures
        verdict(id, usage_page) == DeviceCompat::Incompatible,
{
    lemma_tables_consistent();
    lemma_first_match_none(compatible_table(), id);
}

/// An identifier of the family's vendor that neither table holds is, on a
/// qualifying usage page, untested, in unknown mode.
pub proof fn law_unregistered_family_is_untested(id: UsbId, usage_page: u16)
    requires
        usage_page_qualifies(usage_page),
        id.vid == BOSE_VID,
        !carried(compatible_table(), id),
        !incompatible_table().contains(id),
    ensures
        verdict(id, usage_page) == DeviceCompat::Untested(DeviceMode::Unknown),
{
    lemma_first_match_none(compatible_table(), id);
}

/// An identifier of another vendor that neither table holds is incompatible
/// on every usage page.
pub proof fn law_unregistered_foreign_is_incompatible(id: UsbId, usage_page: u16)
    requires
        id.vid != BOSE_VID,
        !carried(compatible_table(), id),
        !incompatible_table().contains(id),
    ensures
        verdict(id, usage_page) == DeviceCompat::Incompatible,
{
    lemma_first_match_none(compatible_table(), id);
}

/// The usage page is judged before anything else: on a page that does not
/// qualify every identifier is incompatible, those of the compatible table
/// too.
pub proof fn law_usage_page_gate(id: UsbId, usage_page: u16)
    requires
        !usage_page_qualifies(usage_page),
    ensures
        verdict(id, usage_page) == DeviceCompat::Incompatible,
{
}

/// Each outcome has its inputs. A device is compatible exactly on a qualifying usage
/// page for an identifier that the compatible table carries, and never in
/// unknown mode; untested exactly on a qualifying usage page for an
/// identifier of the family's vendor that neither table holds, and only in
/// unknown mode; incompatible on all others.
pub proof fn law_verdict_shape(id: UsbId, usage_page: u16)
    ensures
        verdict(id, usage_page) is Compatible <==> usage_page_qualifies(usage_page) && carried(
            compatible_table(),
            id,
        ),
        verdict(id, usage_page) is Compatible ==> verdict(id, usage_page)->Compatible_0
            != DeviceMode::Unknown,
        verdict(id, usage_page) is Untested <==> usage_page_qualifies(usage_page) && id.vid
            == BOSE_VID && !carried(compatible_table(), id) && !incompatible_table().contains(id),
        verdict(id, usage_page) is Untested ==> verdict(id, usage_page)->Untested_0
            == DeviceMode::Unknown,
{
    lemma_first_match_none(compatible_table(), id);
    lemma_first_match_known_mode(compatible_table(), id);
}

/// The verdict depends on the identifier and the usage page alone: two
/// classifications of equal inputs give equal verdicts.
pub proof fn law_same_inputs_same_verdict(
    id_a: UsbId,
    usage_page_a: u16,
    id_b: UsbId,
    usage_page_b: u16,
    compat_a: DeviceCompat,
    compat_b: DeviceCompat,
)
    requires
        id_a == id_b,
        usage_page_a == usage_page_b,
        compat_a == verdict(id_a, usage_page_a),
        compat_b == verdict(id_b, usage_page_b),
    ensures
        compat_a == compat_b,
{
}

} // verus!
