use drivescan::alias::add_device_paths;
use drivescan::alias::LinkEntry;
use drivescan::errors::DriveError;
use drivescan::normalize::devices_from_raw;
use drivescan::pipeline::check_tool_output;
use drivescan::pipeline::devices_from_lsblk_text;
use drivescan::raw::MountSource;
use drivescan::raw::RawDevice;

fn raw_named(name: &str) -> RawDevice {
    RawDevice {
        name: Some(name.to_string()),
        kname: Some(name.to_string()),
        tran: None,
        subsystems: None,
        label: None,
        vendor: None,
        model: None,
        ro: None,
        rm: None,
        hotplug: None,
        size: None,
        phy_sec: None,
        log_sec: None,
        pttype: None,
        own_mount: MountSource { mountpoint: None, fssize: None, fsavail: None },
        children: Some(Vec::new()),
    }
}

#[test]
fn nonzero_exit_code_is_fatal() {
    let r = check_tool_output("lsblk", Some(32), "");
    assert!(matches!(r, Err(DriveError::ProcessExit { code: 32, .. })));
}

#[test]
fn stderr_text_is_fatal_even_on_clean_exit() {
    let r = check_tool_output("lsblk", Some(0), "lsblk: cannot access /sys");
    match r {
        Err(DriveError::ProcessStderr { tool, stderr }) => {
            assert_eq!(tool, "lsblk");
            assert_eq!(stderr, "lsblk: cannot access /sys");
        },
        _ => panic!("expected a stderr failure"),
    }
}

#[test]
fn clean_output_passes() {
    assert!(check_tool_output("lsblk", Some(0), "").is_ok());
    assert!(check_tool_output("lsblk", None, "").is_ok());
}

#[test]
fn malformed_text_is_a_parse_failure() {
    let r = devices_from_lsblk_text("this is not structured output");
    assert!(matches!(r, Err(DriveError::Parse)));
}

#[test]
fn filtered_prefixes_never_reach_output() {
    let raws = vec![
        raw_named("loop0"),
        raw_named("/dev/sr0"),
        raw_named("/dev/ram1"),
        raw_named("/dev/sda"),
    ];
    let ds = devices_from_raw(&raws);
    assert_eq!(ds.len(), 1);
    assert_eq!(ds[0].device, "/dev/sda");
}

#[test]
fn two_device_fixture_end_to_end() {
    let text = r#"{"blockdevices": [
        {"name": "/dev/sdu", "kname": "/dev/sdu", "tran": "usb",
         "rm": true, "size": 1024, "label": "STICK"},
        {"name": "/dev/sda", "kname": "/dev/sda", "tran": "sata",
         "rm": false, "size": 2048, "pttype": "gpt",
         "children": [
           {"name": "/dev/sda1", "mountpoint": "/mnt",
            "fssize": "1000", "fsavail": "abc"}
         ]},
        {"name": "/dev/loop3", "kname": "/dev/loop3", "tran": "usb"}
    ]}"#;
    let devices = devices_from_lsblk_text(text).expect("fixture parses");
    assert_eq!(devices.len(), 2);

    let usb = &devices[0];
    assert_eq!(usb.device, "/dev/sdu");
    assert!(usb.is_usb);
    assert!(!usb.is_scsi);
    assert!(usb.is_removable);
    assert!(!usb.is_system);
    assert_eq!(usb.bus_type, Some("USB".to_string()));
    assert_eq!(usb.size, 1024);
    assert_eq!(usb.mountpoints.len(), 0);

    let sata = &devices[1];
    assert_eq!(sata.device, "/dev/sda");
    assert!(sata.is_scsi);
    assert!(!sata.is_usb);
    assert!(!sata.is_removable);
    assert!(sata.is_system);
    assert_eq!(sata.mountpoints.len(), 1);
    assert_eq!(sata.mountpoints[0].path, "/mnt");
    assert_eq!(sata.mountpoints[0].total_bytes, Some(1000));
    assert_eq!(sata.mountpoints[0].available_bytes, None);
}

#[test]
fn fixture_with_alias_links_end_to_end() {
    let text = r#"{"blockdevices": [
        {"name": "/dev/sdz", "kname": "/dev/sdz", "tran": "sata"},
        {"name": "/dev/sdq", "kname": "/dev/sdq", "tran": "sata"}
    ]}"#;
    let mut devices = devices_from_lsblk_text(text).expect("fixture parses");
    let links = vec![LinkEntry {
        link_path: "/dev/disk/by-path/platform-deadbeef".to_string(),
        target: "../../sdz".to_string(),
    }];
    add_device_paths(&mut devices, &links);
    assert_eq!(
        devices[0].device_path,
        Some("/dev/disk/by-path/platform-deadbeef".to_string())
    );
    assert_eq!(devices[1].device_path, None);
}

#[test]
fn missing_fields_degrade_to_defaults() {
    let text = r#"{"blockdevices": [{"name": "sdx"}]}"#;
    let devices = devices_from_lsblk_text(text).expect("fixture parses");
    assert_eq!(devices.len(), 1);
    let d = &devices[0];
    assert_eq!(d.device, "/dev/sdx");
    assert_eq!(d.bus_type, Some("UNKNOWN".to_string()));
    assert_eq!(d.size, 0);
    assert_eq!(d.block_size, 512);
    assert_eq!(d.logical_block_size, 512);
    assert!(!d.is_usb && !d.is_scsi && !d.is_virtual);
    assert!(d.is_system);
    // a childless device offers its own (absent) mountpoint fields
    assert_eq!(d.mountpoints.len(), 0);
}

#[test]
fn extreme_numeric_fields_degrade_never_fault() {
    let text = r#"{"blockdevices": [
        {"name": "/dev/sda", "size": -9223372036854775808},
        {"name": "/dev/sdb", "size": 9223372036854775807, "phy-sec": 4294967296}
    ]}"#;
    let devices = devices_from_lsblk_text(text).expect("fixture parses");
    assert_eq!(devices[0].size, 9223372036854775808u64);
    assert_eq!(devices[1].size, 9223372036854775807u64);
    assert_eq!(devices[1].block_size, 512);
}

#[test]
fn childless_device_mounts_from_itself() {
    let text = r#"{"blockdevices": [
        {"name": "/dev/sdd", "mountpoint": "/data", "fssize": "77"}
    ]}"#;
    let devices = devices_from_lsblk_text(text).expect("fixture parses");
    assert_eq!(devices[0].mountpoints.len(), 1);
    assert_eq!(devices[0].mountpoints[0].path, "/data");
    assert_eq!(devices[0].mountpoints[0].total_bytes, Some(77));
}
