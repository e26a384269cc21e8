use drivescan::device::PartitionTableKind;
use drivescan::normalize::normalize_device;
use drivescan::raw::MountSource;
use drivescan::raw::RawDevice;

fn empty_mount() -> MountSource {
    MountSource { mountpoint: None, fssize: None, fsavail: None }
}

fn base_raw() -> RawDevice {
    RawDevice {
        name: Some("/dev/sda".to_string()),
        kname: Some("/dev/sda".to_string()),
        tran: None,
        subsystems: None,
        label: None,
        vendor: None,
        model: None,
        ro: None,
        rm: None,
        hotplug: None,
        size: None,
        phy_sec: None,
        log_sec: None,
        pttype: None,
        own_mount: empty_mount(),
        children: Some(Vec::new()),
    }
}

#[test]
fn usb_transport_sets_usb_not_scsi() {
    let mut raw = base_raw();
    raw.tran = Some("usb".to_string());
    let d = normalize_device(&raw);
    assert!(d.is_usb);
    assert!(!d.is_scsi);
}

#[test]
fn sata_transport_sets_scsi_not_usb() {
    let mut raw = base_raw();
    raw.tran = Some("sata".to_string());
    let d = normalize_device(&raw);
    assert!(d.is_scsi);
    assert!(!d.is_usb);
}

#[test]
fn transport_matching_ignores_ascii_case() {
    let mut raw = base_raw();
    raw.tran = Some("SATA".to_string());
    let d = normalize_device(&raw);
    assert!(d.is_scsi);
}

#[test]
fn block_subsystem_marks_virtual_and_removable() {
    let mut raw = base_raw();
    raw.subsystems = Some("block".to_string());
    raw.rm = Some(false);
    raw.hotplug = Some(false);
    let d = normalize_device(&raw);
    assert!(d.is_virtual);
    assert!(d.is_removable);
    assert!(!d.is_system);
}

#[test]
fn scsi_block_subsystem_is_not_virtual() {
    let mut raw = base_raw();
    raw.subsystems = Some("block:scsi".to_string());
    let d = normalize_device(&raw);
    assert!(!d.is_virtual);
}

#[test]
fn system_flag_follows_removable_and_virtual() {
    let mut plain = base_raw();
    plain.rm = Some(false);
    let d = normalize_device(&plain);
    assert_eq!(d.is_system, !(d.is_removable || d.is_virtual));
    assert!(d.is_system);

    let mut removable = base_raw();
    removable.rm = Some(true);
    let d = normalize_device(&removable);
    assert_eq!(d.is_system, !(d.is_removable || d.is_virtual));
    assert!(!d.is_system);

    let mut hotplug = base_raw();
    hotplug.hotplug = Some(true);
    let d = normalize_device(&hotplug);
    assert!(d.is_removable);
    assert!(!d.is_system);
}

#[test]
fn bus_type_is_uppercased_transport() {
    let mut raw = base_raw();
    raw.tran = Some("usb".to_string());
    let d = normalize_device(&raw);
    assert_eq!(d.bus_type, Some("USB".to_string()));
}

#[test]
fn bus_type_defaults_to_unknown() {
    let d = normalize_device(&base_raw());
    assert_eq!(d.bus_type, Some("UNKNOWN".to_string()));
}

#[test]
fn size_and_block_sizes_have_defaults() {
    let d = normalize_device(&base_raw());
    assert_eq!(d.size, 0);
    assert_eq!(d.block_size, 512);
    assert_eq!(d.logical_block_size, 512);
}

#[test]
fn negative_size_is_reinterpreted_unsigned() {
    let mut raw = base_raw();
    raw.size = Some(-1);
    let d = normalize_device(&raw);
    assert_eq!(d.size, u64::MAX);
}

#[test]
fn positive_size_is_kept() {
    let mut raw = base_raw();
    raw.size = Some(512110190592);
    let d = normalize_device(&raw);
    assert_eq!(d.size, 512110190592u64);
}

#[test]
fn read_only_flag_defaults_false() {
    let d = normalize_device(&base_raw());
    assert!(!d.is_read_only);
    let mut raw = base_raw();
    raw.ro = Some(true);
    assert!(normalize_device(&raw).is_read_only);
}

#[test]
fn partition_table_kind_mapping() {
    let mut raw = base_raw();
    raw.pttype = Some("gpt".to_string());
    assert_eq!(normalize_device(&raw).partition_table_kind, Some(PartitionTableKind::Gpt));
    raw.pttype = Some("dos".to_string());
    assert_eq!(normalize_device(&raw).partition_table_kind, Some(PartitionTableKind::Mbr));
    raw.pttype = Some("sun".to_string());
    assert_eq!(normalize_device(&raw).partition_table_kind, None);
    raw.pttype = None;
    assert_eq!(normalize_device(&raw).partition_table_kind, None);
}

#[test]
fn names_are_resolved_in_device_and_raw() {
    let mut raw = base_raw();
    raw.name = Some("sdb".to_string());
    raw.kname = Some("sdb".to_string());
    let d = normalize_device(&raw);
    assert_eq!(d.device, "/dev/sdb");
    assert_eq!(d.raw, "/dev/sdb");
    assert_eq!(d.enumerator, "lsblk:json");
}

#[test]
fn absent_names_resolve_to_empty() {
    let mut raw = base_raw();
    raw.name = None;
    raw.kname = None;
    let d = normalize_device(&raw);
    assert_eq!(d.device, "");
    assert_eq!(d.raw, "");
}
