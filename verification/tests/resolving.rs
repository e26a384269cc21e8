use drivescan::resolve::resolve_device_name;

#[test]
fn resolve_empty_name_stays_empty() {
    assert_eq!(resolve_device_name(""), "");
}

#[test]
fn resolve_absolute_name_unchanged() {
    assert_eq!(resolve_device_name("/dev/sda"), "/dev/sda");
}

#[test]
fn resolve_relative_name_goes_under_dev() {
    assert_eq!(resolve_device_name("sda"), "/dev/sda");
}

#[test]
fn resolve_nested_absolute_unchanged() {
    assert_eq!(resolve_device_name("/dev/disk/by-id/x"), "/dev/disk/by-id/x");
}

#[test]
fn resolve_relative_nvme_name() {
    assert_eq!(resolve_device_name("nvme0n1"), "/dev/nvme0n1");
}
