use drivescan::describe::get_description;
use drivescan::raw::MountSource;
use drivescan::raw::RawDevice;

fn raw_with_labels(
    label: Option<&str>,
    vendor: Option<&str>,
    model: Option<&str>,
) -> RawDevice {
    RawDevice {
        name: None,
        kname: None,
        tran: None,
        subsystems: None,
        label: label.map(|s| s.to_string()),
        vendor: vendor.map(|s| s.to_string()),
        model: model.map(|s| s.to_string()),
        ro: None,
        rm: None,
        hotplug: None,
        size: None,
        phy_sec: None,
        log_sec: None,
        pttype: None,
        own_mount: MountSource { mountpoint: None, fssize: None, fsavail: None },
        children: None,
    }
}

#[test]
fn description_repeats_nonempty_label() {
    let raw = raw_with_labels(Some("DATA"), Some("ACME"), Some("X1"));
    assert_eq!(get_description(&raw), "DATA ACME X1 DATA");
}

#[test]
fn description_of_all_absent_fields_is_one_space() {
    let raw = raw_with_labels(None, None, None);
    assert_eq!(get_description(&raw), " ");
}

#[test]
fn description_without_label_has_no_repeat() {
    let raw = raw_with_labels(None, Some("ACME"), Some("X1"));
    assert_eq!(get_description(&raw), " ACME X1");
}

#[test]
fn description_collapses_inner_whitespace() {
    let raw = raw_with_labels(Some("MY  DISK"), Some("A\t B"), None);
    assert_eq!(get_description(&raw), "MY DISK A B MY DISK");
}

#[test]
fn description_collapses_unicode_whitespace() {
    let raw = raw_with_labels(None, Some("A\u{a0}\u{a0}B"), Some("C\u{2003}D"));
    assert_eq!(get_description(&raw), " A B C D");
}
