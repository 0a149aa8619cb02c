use device_page::page::{
    DatabaseInfo, DeviceIdentity, DevicePage, FirmwareInfo, PreferenceLabel, database_group,
    device_group, firmware_group,
};

fn sample_identity() -> DeviceIdentity {
    DeviceIdentity { serial_port_name: String::from("COM3") }
}

fn sample_firmware() -> FirmwareInfo {
    FirmwareInfo {
        version: String::from("1.2.3"),
        samd: String::from("4.5"),
        collation: String::from("unicode-2024"),
    }
}

fn sample_database(disk_size: Option<u64>) -> DatabaseInfo {
    DatabaseInfo { schema_version: String::from("7"), disk_size }
}

#[test]
fn device_group_has_one_serial_port_row() {
    let group = device_group(&sample_identity());
    assert!(group.title.is_none());
    assert_eq!(group.rows.len(), 1);
    assert_eq!(group.rows[0].title, "Serial port");
    assert_eq!(group.rows[0].value, "COM3");
}

#[test]
fn firmware_rows_in_fixed_order() {
    let group = firmware_group(&sample_firmware());
    assert_eq!(group.title.as_deref(), Some("Firmware"));
    let titles: Vec<&str> = group.rows.iter().map(|r| r.title.as_str()).collect();
    assert_eq!(titles, ["Version", "SAMD", "Collation"]);
    assert_eq!(group.rows[0].value, "1.2.3");
    assert_eq!(group.rows[1].value, "4.5");
    assert_eq!(group.rows[2].value, "unicode-2024");
}

#[test]
fn database_rows_in_fixed_order() {
    let group = database_group(&sample_database(Some(2048)));
    assert_eq!(group.title.as_deref(), Some("Database"));
    let titles: Vec<&str> = group.rows.iter().map(|r| r.title.as_str()).collect();
    assert_eq!(titles, ["Schema version", "Size on disk"]);
    assert_eq!(group.rows[0].value, "7");
    assert_eq!(group.rows[1].value, "2 KiB");
}

#[test]
fn absent_disk_size_displays_unknown() {
    let group = database_group(&sample_database(None));
    assert_eq!(group.rows[1].title, "Size on disk");
    assert_eq!(group.rows[1].value, "unknown");
}

#[test]
fn page_groups_in_fixed_order() {
    let page = DevicePage::new(&sample_identity(), &sample_firmware(), &sample_database(None));
    assert_eq!(page.title, "Device Information");
    assert_eq!(page.groups.len(), 3);
    assert!(page.groups[0].title.is_none());
    assert_eq!(page.groups[1].title.as_deref(), Some("Firmware"));
    assert_eq!(page.groups[2].title.as_deref(), Some("Database"));
    assert_eq!(page.groups[0].rows[0].title, "Serial port");
    assert_eq!(page.groups[0].rows[0].value, "COM3");
}

#[test]
fn set_value_replaces_value_and_keeps_title() {
    let mut row = PreferenceLabel::new("Size on disk", "unknown");
    row.set_value("3 MiB");
    assert_eq!(row.title, "Size on disk");
    assert_eq!(row.value, "3 MiB");
}
