//! An RC receiver's PPM channel frames presented to a USB host as a HID game pad.
//!
//! The library holds the logic of the bridge: the HID report descriptor and the
//! HID descriptor, the answers to control requests, the encoding of channel
//! frames into input reports, and the periodic reporting step that drains the
//! PPM decoder.
pub mod decoder;
pub mod descriptor;
pub mod hid;
pub mod report;
pub mod scheduler;
pub mod types;

pub use decoder::ChannelFrame;
pub use hid::{ConfigurationDescriptors, ControlRequest, ControlResponse, HIDClass, Recipient, RequestType};
pub use report::get_report;
pub use scheduler::ReportScheduler;
pub use types::JoystickState;
