//! The device-information page as plain data: an ordered list of preference
//! groups, each an ordered list of titled rows. A GUI toolkit can bind this
//! tree to widgets; the content and its order are fixed here.

use vstd::prelude::*;
use crate::size::{render_size, spec_render_size};

verus! {

/// Identity of the connected device.
pub struct DeviceIdentity {
    pub serial_port_name: String,
}

/// Version fields reported by the device's firmware.
pub struct FirmwareInfo {
    pub version: String,
    pub samd: String,
    pub collation: String,
}

/// Statistics of the on-device database. The disk size is absent when the
/// device did not report one.
pub struct DatabaseInfo {
    pub schema_version: String,
    pub disk_size: Option<u64>,
}

/// One labeled row: a title and the value displayed beside it. The value is
/// display-only; a renderer may shorten it visually with an ellipsis, which
/// never changes the data held here.
pub struct PreferenceLabel {
    pub title: String,
    pub value: String,
}

impl PreferenceLabel {
    pub fn new(title: &str, value: &str) -> (r: PreferenceLabel)
        ensures
            r.title@ == title@,
            r.value@ == value@,
    {
        PreferenceLabel { title: title.to_owned(), value: value.to_owned() }
    }

    /// Replaces the displayed value, keeping the title.
    pub fn set_value(&mut self, value: &str)
        ensures
            final(self).title@ == old(self).title@,
            final(self).value@ == value@,
    {
        self.value = value.to_owned();
    }
}

/// An optionally titled group of rows.
pub struct PreferenceGroup {
    pub title: Option<String>,
    pub rows: Vec<PreferenceLabel>,
}

/// What the "Size on disk" row displays: the humanized byte count, or the
/// literal `"unknown"` when the size is absent.
pub open spec fn spec_size_text(disk_size: Option<u64>) -> Seq<char> {
    match disk_size {
        Some(b) => spec_render_size(b as nat),
        None => "unknown"@,
    }
}

/// The device group: untitled, with exactly one row, "Serial port", holding
/// the device's serial port name.
pub open spec fn is_device_group(g: PreferenceGroup, identity: DeviceIdentity) -> bool {
    &&& g.title is None
    &&& g.rows@.len() == 1
    &&& g.rows@[0].title@ == "Serial port"@
    &&& g.rows@[0].value@ == identity.serial_port_name@
}

/// The firmware group: titled "Firmware", with exactly the rows "Version",
/// "SAMD" and "Collation", in that order, each passing its field through
/// unchanged.
pub open spec fn is_firmware_group(g: PreferenceGroup, firmware: FirmwareInfo) -> bool {
    &&& g.title matches Some(t) && t@ == "Firmware"@
    &&& g.rows@.len() == 3
    &&& g.rows@[0].title@ == "Version"@
    &&& g.rows@[0].value@ == firmware.version@
    &&& g.rows@[1].title@ == "SAMD"@
    &&& g.rows@[1].value@ == firmware.samd@
    &&& g.rows@[2].title@ == "Collation"@
    &&& g.rows@[2].value@ == firmware.collation@
}

/// The database group: titled "Database", with exactly the rows
/// "Schema version" and "Size on disk", in that order.
pub open spec fn is_database_group(g: PreferenceGroup, database: DatabaseInfo) -> bool {
    &&& g.title matches Some(t) && t@ == "Database"@
    &&& g.rows@.len() == 2
    &&& g.rows@[0].title@ == "Schema version"@
    &&& g.rows@[0].value@ == database.schema_version@
    &&& g.rows@[1].title@ == "Size on disk"@
    &&& g.rows@[1].value@ == spec_size_text(database.disk_size)
}

/// Builds the text of the "Size on disk" row.
pub fn size_text(disk_size: &Option<u64>) -> (s: String)
    ensures
        s@ == spec_size_text(*disk_size),
{
    match disk_size {
        Some(b) => render_size(*b),
        None => "unknown".to_owned(),
    }
}

/// Builds the untitled device group with its single "Serial port" row.
pub fn device_group(identity: &DeviceIdentity) -> (g: PreferenceGroup)
    ensures
        is_device_group(g, *identity),
{
    let mut rows: Vec<PreferenceLabel> = Vec::new();
    rows.push(PreferenceLabel::new("Serial port", identity.serial_port_name.as_str()));
    PreferenceGroup { title: None, rows }
}

/// Builds the "Firmware" group with its three rows in fixed order.
pub fn firmware_group(firmware: &FirmwareInfo) -> (g: PreferenceGroup)
    ensures
        is_firmware_group(g, *firmware),
{
    let mut rows: Vec<PreferenceLabel> = Vec::new();
    rows.push(PreferenceLabel::new("Version", firmware.version.as_str()));
    rows.push(PreferenceLabel::new("SAMD", firmware.samd.as_str()));
    rows.push(PreferenceLabel::new("Collation", firmware.collation.as_str()));
    PreferenceGroup { title: Some("Firmware".to_owned()), rows }
}

/// Builds the "Database" group with its two rows in fixed order.
pub fn database_group(database: &DatabaseInfo) -> (g: PreferenceGroup)
    ensures
        is_database_group(g, *database),
{
    let mut rows: Vec<PreferenceLabel> = Vec::new();
    rows.push(PreferenceLabel::new("Schema version", database.schema_version.as_str()));
    let size = size_text(&database.disk_size);
    rows.push(PreferenceLabel::new("Size on disk", size.as_str()));
    PreferenceGroup { title: Some("Database".to_owned()), rows }
}

/// The whole page: its window title and its groups, in display order. The
/// logo block that precedes the groups on screen is a fixed image resource
/// with no text, owned by the renderer.
pub struct DevicePage {
    pub title: String,
    pub groups: Vec<PreferenceGroup>,
}

/// The page layout: titled "Device Information", with exactly the device,
/// firmware and database groups, in that order.
pub open spec fn is_device_page(
    page: DevicePage,
    identity: DeviceIdentity,
    firmware: FirmwareInfo,
    database: DatabaseInfo,
) -> bool {
    &&& page.title@ == "Device Information"@
    &&& page.groups@.len() == 3
    &&& is_device_group(page.groups@[0], identity)
    &&& is_firmware_group(page.groups@[1], firmware)
    &&& is_database_group(page.groups@[2], database)
}

impl DevicePage {
    /// Composes the page from a snapshot of the three records.
    pub fn new(
        identity: &DeviceIdentity,
        firmware: &FirmwareInfo,
        database: &DatabaseInfo,
    ) -> (page: DevicePage)
        ensures
            is_device_page(page, *identity, *firmware, *database),
    {
        let mut groups: Vec<PreferenceGroup> = Vec::new();
        groups.push(device_group(identity));
        groups.push(firmware_group(firmware));
        groups.push(database_group(database));
        DevicePage { title: "Device Information".to_owned(), groups }
    }
}

} // verus!
