use drivescan::mounts::get_mount_points;
use drivescan::raw::MountSource;

fn source(mountpoint: Option<&str>, fssize: Option<&str>, fsavail: Option<&str>) -> MountSource {
    MountSource {
        mountpoint: mountpoint.map(|s| s.to_string()),
        fssize: fssize.map(|s| s.to_string()),
        fsavail: fsavail.map(|s| s.to_string()),
    }
}

#[test]
fn only_entries_with_mountpoint_are_kept() {
    let children = vec![
        source(None, Some("1000"), None),
        source(Some("/mnt"), Some("1000"), Some("abc")),
    ];
    let mounts = get_mount_points(&children);
    assert_eq!(mounts.len(), 1);
    assert_eq!(mounts[0].path, "/mnt");
    assert_eq!(mounts[0].total_bytes, Some(1000));
    assert_eq!(mounts[0].available_bytes, None);
}

#[test]
fn empty_mount_path_is_dropped() {
    let children = vec![source(Some(""), Some("5"), Some("5"))];
    assert_eq!(get_mount_points(&children).len(), 0);
}

#[test]
fn capacities_parse_as_u64() {
    let children = vec![source(Some("/"), Some("18446744073709551615"), Some("42"))];
    let mounts = get_mount_points(&children);
    assert_eq!(mounts[0].total_bytes, Some(u64::MAX));
    assert_eq!(mounts[0].available_bytes, Some(42));
}

#[test]
fn overflowing_capacity_is_omitted() {
    let children = vec![source(Some("/"), Some("18446744073709551616"), None)];
    let mounts = get_mount_points(&children);
    assert_eq!(mounts[0].total_bytes, None);
    assert_eq!(mounts[0].available_bytes, None);
}

#[test]
fn malformed_capacities_are_omitted() {
    let children = vec![
        source(Some("/a"), Some(""), Some("-3")),
        source(Some("/b"), Some("12x"), Some("+")),
    ];
    let mounts = get_mount_points(&children);
    assert_eq!(mounts.len(), 2);
    assert_eq!(mounts[0].total_bytes, None);
    assert_eq!(mounts[0].available_bytes, None);
    assert_eq!(mounts[1].total_bytes, None);
    assert_eq!(mounts[1].available_bytes, None);
}

#[test]
fn plus_signed_capacity_parses() {
    let children = vec![source(Some("/c"), Some("+7"), None)];
    let mounts = get_mount_points(&children);
    assert_eq!(mounts[0].total_bytes, Some(7));
}

#[test]
fn order_of_mounts_is_kept() {
    let children = vec![
        source(Some("/boot"), None, None),
        source(None, None, None),
        source(Some("/home"), Some("7"), Some("3")),
    ];
    let mounts = get_mount_points(&children);
    assert_eq!(mounts.len(), 2);
    assert_eq!(mounts[0].path, "/boot");
    assert_eq!(mounts[1].path, "/home");
    assert_eq!(mounts[1].total_bytes, Some(7));
    assert_eq!(mounts[1].available_bytes, Some(3));
}
