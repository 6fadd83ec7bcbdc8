use device_ids::classify::{identify_device, DeviceCompat};
use device_ids::registry::{
    compatible_devices, incompatible_devices, known_devices, BOSE_HID_USAGE_PAGE, BOSE_VID,
};
use device_ids::usb_id::{DeviceMode, UsbId};

#[test]
fn registered_dfu_id_on_dfu_page_is_compatible_dfu() {
    let id = UsbId { vid: 0x05a7, pid: 0x1021 };
    assert_eq!(identify_device(id, 0xff00), DeviceCompat::Compatible(DeviceMode::Dfu));
}

#[test]
fn known_incompatible_sibling_is_incompatible() {
    let id = UsbId { vid: 0x05a7, pid: 0x40fc };
    assert_eq!(identify_device(id, 0), DeviceCompat::Incompatible);
}

#[test]
fn unregistered_family_device_is_untested() {
    let id = UsbId { vid: 0x05a7, pid: 0x9999 };
    assert_eq!(identify_device(id, 0), DeviceCompat::Untested(DeviceMode::Unknown));
}

#[test]
fn foreign_vendor_is_incompatible() {
    let id = UsbId { vid: 0x1234, pid: 0x0001 };
    assert_eq!(identify_device(id, 0), DeviceCompat::Incompatible);
}

#[test]
fn constants_have_their_values() {
    assert_eq!(BOSE_VID, 0x05a7);
    assert_eq!(BOSE_HID_USAGE_PAGE, 0xff00);
}

#[test]
fn every_table_entry_is_compatible_in_the_mode_of_its_field() {
    for page in [0u16, BOSE_HID_USAGE_PAGE] {
        for entry in compatible_devices() {
            assert_ne!(entry.normal_mode, entry.dfu_mode);
            assert_eq!(
                identify_device(entry.normal_mode, page),
                DeviceCompat::Compatible(DeviceMode::Normal)
            );
            assert_eq!(
                identify_device(entry.dfu_mode, page),
                DeviceCompat::Compatible(DeviceMode::Dfu)
            );
        }
    }
}

#[test]
fn registered_normal_id_is_compatible_normal() {
    let id = UsbId { vid: 0x05a7, pid: 0x1020 };
    assert_eq!(identify_device(id, 0), DeviceCompat::Compatible(DeviceMode::Normal));
    assert_eq!(identify_device(id, 0xff00), DeviceCompat::Compatible(DeviceMode::Normal));
}

#[test]
fn every_known_device_is_compatible() {
    for id in known_devices() {
        assert!(matches!(identify_device(id, 0), DeviceCompat::Compatible(_)));
    }
}

#[test]
fn every_incompatible_entry_is_incompatible_on_any_page() {
    for id in incompatible_devices() {
        assert_eq!(identify_device(id, 0), DeviceCompat::Incompatible);
        assert_eq!(identify_device(id, BOSE_HID_USAGE_PAGE), DeviceCompat::Incompatible);
        assert_eq!(identify_device(id, 0x000c), DeviceCompat::Incompatible);
    }
}

#[test]
fn unregistered_family_device_is_untested_on_dfu_page() {
    let id = UsbId { vid: BOSE_VID, pid: 0x0000 };
    assert_eq!(
        identify_device(id, BOSE_HID_USAGE_PAGE),
        DeviceCompat::Untested(DeviceMode::Unknown)
    );
}

#[test]
fn registered_product_id_under_foreign_vendor_is_incompatible() {
    let id = UsbId { vid: 0x05a8, pid: 0x1021 };
    assert_eq!(identify_device(id, 0), DeviceCompat::Incompatible);
    assert_eq!(identify_device(id, 0xff00), DeviceCompat::Incompatible);
    assert_eq!(identify_device(id, 0x0001), DeviceCompat::Incompatible);
}

#[test]
fn other_usage_page_is_incompatible_even_for_registered_ids() {
    for page in [0x0001u16, 0x000c, 0xfeff, 0xff01, 0xffff] {
        for entry in compatible_devices() {
            assert_eq!(identify_device(entry.normal_mode, page), DeviceCompat::Incompatible);
            assert_eq!(identify_device(entry.dfu_mode, page), DeviceCompat::Incompatible);
        }
        let unregistered = UsbId { vid: BOSE_VID, pid: 0x9999 };
        assert_eq!(identify_device(unregistered, page), DeviceCompat::Incompatible);
    }
}

#[test]
fn same_inputs_give_same_verdict() {
    let inputs = [
        (UsbId { vid: 0x05a7, pid: 0x1021 }, 0xff00u16),
        (UsbId { vid: 0x05a7, pid: 0x40fc }, 0),
        (UsbId { vid: 0x05a7, pid: 0x9999 }, 0),
        (UsbId { vid: 0x1234, pid: 0x0001 }, 0),
        (UsbId { vid: 0x05a7, pid: 0x1020 }, 0x0001),
    ];
    for (id, page) in inputs {
        assert_eq!(identify_device(id, page), identify_device(id, page));
    }
}

#[test]
fn verdicts_over_every_family_product_id() {
    let mut normal: u32 = 0;
    let mut dfu: u32 = 0;
    let mut untested: u32 = 0;
    let mut incompatible: u32 = 0;
    for pid in 0..=u16::MAX {
        match identify_device(UsbId { vid: BOSE_VID, pid }, 0) {
            DeviceCompat::Compatible(DeviceMode::Normal) => normal += 1,
            DeviceCompat::Compatible(DeviceMode::Dfu) => dfu += 1,
            DeviceCompat::Untested(DeviceMode::Unknown) => untested += 1,
            DeviceCompat::Incompatible => incompatible += 1,
            other => panic!("unexpected verdict {:?} for product {:#06x}", other, pid),
        }
    }
    assert_eq!(normal, 3);
    assert_eq!(dfu, 1);
    assert_eq!(incompatible, 1);
    assert_eq!(untested, 65536 - 5);
}

#[test]
fn foreign_vendor_is_incompatible_for_every_product_id() {
    for pid in 0..=u16::MAX {
        assert_eq!(identify_device(UsbId { vid: 0x1234, pid }, 0), DeviceCompat::Incompatible);
    }
}
