//! Classification of USB devices by vendor/product identifier and HID usage
//! page: is an attached device a known target for firmware update, known not
//! to be one, or an unregistered device of the same vendor?

pub mod classify;
pub mod registry;
pub mod usb_id;

pub use classify::{identify_device, DeviceCompat};
pub use registry::{bose_dev, bose_pid, DeviceIds, BOSE_HID_USAGE_PAGE, BOSE_VID};
pub use usb_id::{DeviceMode, UsbId};
