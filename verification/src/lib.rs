//! Data model and formatting for a device-information page.
//!
//! The page shows a device's serial-port identity, firmware version fields
//! and on-device database statistics as an ordered list of groups, each group
//! an ordered list of labeled rows. The display tree is plain data: its
//! layout and the byte-size formatting are specified and verified here, and a
//! GUI toolkit binds the finished tree to widgets elsewhere.

pub mod page;
pub mod size;
