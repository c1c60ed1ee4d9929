//! Verified core of the USBfly analyzer for Cynthion capture devices:
//! capture-speed encoding, Cynthion packet stream framing and decoding,
//! device-connection detection, USB lookup tables and the view models
//! that the user interface drives.

pub mod app_state;
pub mod bytes;
pub mod capture;
pub mod class_codes;
pub mod control;
pub mod decode;
pub mod descriptor;
pub mod descriptor_types;
pub mod device_detector;
pub mod device_view;
pub mod devices;
pub mod hints;
pub mod simulation;
pub mod speed;
pub mod stream;
pub mod text;
pub mod transaction;
pub mod traffic;
pub mod tree;
pub mod vendor_ids;
pub mod widgets;
pub mod laws;
pub mod prepare;
