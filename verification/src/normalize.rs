//! Device normalization: one raw record becomes one canonical device, and a
//! raw collection becomes the filtered, normalized collection.
//!
//! Transport and subsystem matching, and the bus-type uppercasing, fold
//! ASCII case only: the token sets compared against (`usb`, `sata`, `block`
//! and the rest) are ASCII, so a character outside ASCII never matches them
//! and passes through the case mapping unchanged.

use vstd::prelude::*;
use vstd::string::StringExecFns;
use crate::device::DeviceDescriptor;
use crate::device::DeviceModel;
use crate::device::PartitionTableKind;
use crate::device::flags_consistent;
use crate::describe::get_description;
use crate::describe::spec_description;
use crate::mounts::get_mount_points;
use crate::mounts::mounts_of_single;
use crate::mounts::spec_mounts;
use crate::raw::MountSourceModel;
use crate::raw::RawDevice;
use crate::raw::RawDeviceModel;
use crate::raw::str_or_empty;
use crate::resolve::resolve_device_name;
use crate::resolve::spec_resolve;
use crate::text::ascii_lower;
use crate::text::ascii_upper;
use crate::text::eq_str;
use crate::text::has_prefix;
use crate::text::str_has_prefix;
use crate::text::to_ascii_lower;
use crate::text::to_ascii_upper;

verus! {

/// An optional flag read with its default: false.
pub open spec fn flag_or_false(b: Option<bool>) -> bool {
    match b {
        Some(v) => v,
        None => false,
    }
}

/// The lower-cased transports that mark a SCSI-like device.
pub open spec fn scsi_transport(t: Seq<char>) -> bool {
    t == "sata"@ || t == "scsi"@ || t == "ata"@ || t == "ide"@ || t == "pci"@
}

/// A device is virtual when its subsystem string, lower-cased, is exactly
/// `block`.
pub open spec fn spec_is_virtual(r: RawDeviceModel) -> bool {
    ascii_lower(str_or_empty(r.subsystems)) == "block"@
}

pub open spec fn spec_is_scsi(r: RawDeviceModel) -> bool {
    scsi_transport(ascii_lower(str_or_empty(r.tran)))
}

pub open spec fn spec_is_usb(r: RawDeviceModel) -> bool {
    ascii_lower(str_or_empty(r.tran)) == "usb"@
}

/// A device is removable when the removable flag, the hotplug flag, or
/// virtuality holds.
pub open spec fn spec_is_removable(r: RawDeviceModel) -> bool {
    flag_or_false(r.rm) || flag_or_false(r.hotplug) || spec_is_virtual(r)
}

/// The bus type: the transport upper-cased, `UNKNOWN` when absent.
pub open spec fn spec_bus_type(r: RawDeviceModel) -> Seq<char> {
    match r.tran {
        Some(t) => ascii_upper(t),
        None => ascii_upper("UNKNOWN"@),
    }
}

/// A signed 64-bit byte count reinterpreted as unsigned.
pub open spec fn i64_reinterpret(x: i64) -> u64 {
    if x >= 0 {
        x as u64
    } else {
        (x + 0x1_0000_0000_0000_0000) as u64
    }
}

/// A signed 32-bit sector size reinterpreted as unsigned.
pub open spec fn i32_reinterpret(x: i32) -> u32 {
    if x >= 0 {
        x as u32
    } else {
        (x + 0x1_0000_0000) as u32
    }
}

/// The partition-table kind: `gpt` maps to GPT, `dos` to MBR, anything else
/// (or an absent field) to none.
pub open spec fn spec_table_kind(p: Option<Seq<char>>) -> Option<PartitionTableKind> {
    match p {
        Some(s) => if s == "gpt"@ {
            Some(PartitionTableKind::Gpt)
        } else if s == "dos"@ {
            Some(PartitionTableKind::Mbr)
        } else {
            None
        },
        None => None,
    }
}

/// The candidate records mountpoint extraction runs over: the children when
/// the tool reported a child list, else the device record itself.
pub open spec fn spec_candidates(r: RawDeviceModel) -> Seq<MountSourceModel> {
    match r.children {
        Some(cs) => cs,
        None => seq![r.own_mount],
    }
}

/// The canonical device a raw record normalizes to.
pub open spec fn norm(r: RawDeviceModel) -> DeviceModel {
    DeviceModel {
        enumerator: "lsblk:json"@,
        bus_type: Some(spec_bus_type(r)),
        device: spec_resolve(str_or_empty(r.name)),
        device_path: None,
        raw: spec_resolve(str_or_empty(r.kname)),
        is_virtual: spec_is_virtual(r),
        is_scsi: spec_is_scsi(r),
        is_usb: spec_is_usb(r),
        is_read_only: flag_or_false(r.ro),
        is_removable: spec_is_removable(r),
        is_system: !spec_is_removable(r) && !spec_is_virtual(r),
        description: spec_description(r.label, r.vendor, r.model),
        size: i64_reinterpret(match r.size {
            Some(v) => v,
            None => 0,
        }),
        block_size: i32_reinterpret(match r.phy_sec {
            Some(v) => v,
            None => 512,
        }),
        logical_block_size: i32_reinterpret(match r.log_sec {
            Some(v) => v,
            None => 512,
        }),
        partition_table_kind: spec_table_kind(r.pttype),
        mountpoints: spec_mounts(spec_candidates(r)),
    }
}

/// A record survives filtering when its resolved name lies under none of the
/// loopback, optical and ram-disk prefixes.
pub open spec fn keeps(r: RawDeviceModel) -> bool {
    let name = spec_resolve(str_or_empty(r.name));
    &&& !has_prefix(name, "/dev/loop"@)
    &&& !has_prefix(name, "/dev/sr"@)
    &&& !has_prefix(name, "/dev/ram"@)
}

/// The devices a raw collection yields: records are filtered by resolved
/// name, the survivors normalized, and the source order kept.
pub open spec fn spec_devices(rs: Seq<RawDeviceModel>) -> Seq<DeviceModel>
    decreases rs.len(),
{
    if rs.len() == 0 {
        Seq::empty()
    } else {
        let rest = spec_devices(rs.drop_last());
        if keeps(rs.last()) {
            rest.push(norm(rs.last()))
        } else {
            rest
        }
    }
}

fn lower_of_opt(s: &Option<String>) -> (r: String)
    ensures
        r@ == ascii_lower(str_or_empty(s.deep_view())),
{
    match s {
        Some(v) => to_ascii_lower(v.as_str()),
        None => {
            proof {
                assert(ascii_lower(Seq::empty()) =~= Seq::<char>::empty());
            }
            String::new()
        },
    }
}

pub fn normalize_device(raw: &RawDevice) -> (d: DeviceDescriptor)
    ensures
        d@ == norm(raw@),
{
    let tran_lower = lower_of_opt(&raw.tran);
    let subsys_lower = lower_of_opt(&raw.subsystems);
    let bus_type = match &raw.tran {
        Some(t) => to_ascii_upper(t.as_str()),
        None => to_ascii_upper("UNKNOWN"),
    };
    let is_virtual = eq_str(subsys_lower.as_str(), "block");
    let is_scsi = eq_str(tran_lower.as_str(), "sata") || eq_str(tran_lower.as_str(), "scsi")
        || eq_str(tran_lower.as_str(), "ata") || eq_str(tran_lower.as_str(), "ide")
        || eq_str(tran_lower.as_str(), "pci");
    let is_usb = eq_str(tran_lower.as_str(), "usb");
    let is_removable = flag_value(&raw.rm) || flag_value(&raw.hotplug) || is_virtual;
    let size_signed: i64 = match raw.size {
        Some(v) => v,
        None => 0,
    };
    let size: u64 = if size_signed >= 0 {
        size_signed as u64
    } else {
        u64::MAX - ((-(size_signed + 1)) as u64)
    };
    let phy: i32 = match raw.phy_sec {
        Some(v) => v,
        None => 512,
    };
    let block_size: u32 = if phy >= 0 {
        phy as u32
    } else {
        u32::MAX - ((-(phy + 1)) as u32)
    };
    let log: i32 = match raw.log_sec {
        Some(v) => v,
        None => 512,
    };
    let logical_block_size: u32 = if log >= 0 {
        log as u32
    } else {
        u32::MAX - ((-(log + 1)) as u32)
    };
    let partition_table_kind = match &raw.pttype {
        Some(s) => if eq_str(s.as_str(), "gpt") {
            Some(PartitionTableKind::Gpt)
        } else if eq_str(s.as_str(), "dos") {
            Some(PartitionTableKind::Mbr)
        } else {
            None
        },
        None => None,
    };
    let mountpoints = match &raw.children {
        Some(cs) => get_mount_points(cs),
        None => mounts_of_single(&raw.own_mount),
    };
    let d = DeviceDescriptor {
        enumerator: String::from_str("lsblk:json"),
        bus_type: Some(bus_type),
        device: resolve_device_name(opt_name(&raw.name)),
        device_path: None,
        raw: resolve_device_name(opt_name(&raw.kname)),
        is_virtual,
        is_scsi,
        is_usb,
        is_read_only: flag_value(&raw.ro),
        is_removable,
        is_system: !is_removable && !is_virtual,
        description: get_description(raw),
        size,
        block_size,
        logical_block_size,
        partition_table_kind,
        mountpoints,
    };
    proof {
        assert(d@ =~= norm(raw@));
    }
    d
}

fn flag_value(b: &Option<bool>) -> (r: bool)
    ensures
        r == flag_or_false(*b),
{
    match b {
        Some(v) => *v,
        None => false,
    }
}

fn opt_name(s: &Option<String>) -> (r: &str)
    ensures
        r@ == str_or_empty(s.deep_view()),
{
    match s {
        Some(v) => v.as_str(),
        None => {
            let r = "";
            proof {
                reveal_strlit("");
                assert(r@ =~= Seq::<char>::empty());
            }
            r
        },
    }
}

pub fn keep_device(raw: &RawDevice) -> (r: bool)
    ensures
        r == keeps(raw@),
{
    let name = resolve_device_name(opt_name(&raw.name));
    let dropped = str_has_prefix(name.as_str(), "/dev/loop")
        || str_has_prefix(name.as_str(), "/dev/sr")
        || str_has_prefix(name.as_str(), "/dev/ram");
    !dropped
}

pub fn devices_from_raw(raws: &Vec<RawDevice>) -> (ds: Vec<DeviceDescriptor>)
    ensures
        ds.deep_view() == spec_devices(raws.deep_view()),
        forall|i: int|
            0 <= i < ds.deep_view().len() ==> #[trigger] flags_consistent(ds.deep_view()[i]),
        forall|i: int| #![auto]
            0 <= i < ds.deep_view().len() ==> !has_prefix(ds.deep_view()[i].device, "/dev/loop"@)
                && !has_prefix(ds.deep_view()[i].device, "/dev/sr"@) && !has_prefix(
                ds.deep_view()[i].device,
                "/dev/ram"@,
            ),
{
    let mut ds: Vec<DeviceDescriptor> = Vec::new();
    let mut i: usize = 0;
    while i < raws.len()
        invariant
            i <= raws.len(),
            ds.deep_view() == spec_devices(raws.deep_view().subrange(0, i as int)),
        decreases raws.len() - i,
    {
        let raw = &raws[i];
        if keep_device(raw) {
            ds.push(normalize_device(raw));
        }
        proof {
            let rs = raws.deep_view();
            assert(rs.subrange(0, i + 1).drop_last() =~= rs.subrange(0, i as int));
            assert(rs.subrange(0, i + 1).last() == rs[i as int]);
            assert(ds.deep_view() =~= spec_devices(rs.subrange(0, i + 1)));
        }
        i += 1;
    }
    proof {
        assert(raws.deep_view().subrange(0, raws.len() as int) =~= raws.deep_view());
        lemma_spec_devices_flags(raws.deep_view());
        lemma_spec_devices_filtered(raws.deep_view());
    }
    ds
}

/// Every normalized device satisfies the classification invariant: it is a
/// system device exactly when neither removable nor virtual, and virtuality
/// implies removability.
pub proof fn lemma_norm_flags(r: RawDeviceModel)
    ensures
        flags_consistent(norm(r)),
        norm(r).is_system == !(norm(r).is_removable || norm(r).is_virtual),
{
}

/// Every device in a normalized collection satisfies the classification
/// invariant.
pub proof fn lemma_spec_devices_flags(rs: Seq<RawDeviceModel>)
    ensures
        forall|i: int|
            0 <= i < spec_devices(rs).len() ==> #[trigger] flags_consistent(spec_devices(rs)[i]),
    decreases rs.len(),
{
    if rs.len() > 0 {
        lemma_spec_devices_flags(rs.drop_last());
        let rest = spec_devices(rs.drop_last());
        assert forall|i: int|
            0 <= i < spec_devices(rs).len() implies #[trigger] flags_consistent(
            spec_devices(rs)[i],
        ) by {
            if keeps(rs.last()) {
                assert(spec_devices(rs) == rest.push(norm(rs.last())));
                if i < rest.len() {
                    assert(spec_devices(rs)[i] == rest[i]);
                    assert(flags_consistent(rest[i]));
                } else {
                    assert(spec_devices(rs)[i] == norm(rs.last()));
                    lemma_norm_flags(rs.last());
                }
            } else {
                assert(spec_devices(rs) == rest);
                assert(flags_consistent(rest[i]));
            }
        }
    }
}

/// No device in a normalized collection lies under the loopback, optical or
/// ram-disk prefixes: records resolving there are dropped by filtering.
pub proof fn lemma_spec_devices_filtered(rs: Seq<RawDeviceModel>)
    ensures
        forall|i: int| #![auto]
            0 <= i < spec_devices(rs).len() ==> !has_prefix(spec_devices(rs)[i].device, "/dev/loop"@)
                && !has_prefix(spec_devices(rs)[i].device, "/dev/sr"@) && !has_prefix(
                spec_devices(rs)[i].device,
                "/dev/ram"@,
            ),
    decreases rs.len(),
{
    if rs.len() > 0 {
        lemma_spec_devices_filtered(rs.drop_last());
        let rest = spec_devices(rs.drop_last());
        assert forall|i: int|
            0 <= i < spec_devices(rs).len() implies !has_prefix(
            spec_devices(rs)[i].device,
            "/dev/loop"@,
        ) && !has_prefix(spec_devices(rs)[i].device, "/dev/sr"@) && !has_prefix(
            spec_devices(rs)[i].device,
            "/dev/ram"@,
        ) by {
            if keeps(rs.last()) {
                assert(spec_devices(rs) == rest.push(norm(rs.last())));
                if i < rest.len() {
                    assert(spec_devices(rs)[i] == rest[i]);
                } else {
                    assert(spec_devices(rs)[i] == norm(rs.last()));
                }
            } else {
                assert(spec_devices(rs) == rest);
            }
        }
    }
}

/// A USB device is never classified as SCSI: the transport strings that mark
/// the two classes are disjoint.
pub proof fn lemma_usb_not_scsi(r: RawDeviceModel)
    ensures
        norm(r).is_usb ==> !norm(r).is_scsi,
        norm(r).is_scsi ==> !norm(r).is_usb,
{
    reveal_strlit("usb");
    reveal_strlit("sata");
    reveal_strlit("scsi");
    reveal_strlit("ata");
    reveal_strlit("ide");
    reveal_strlit("pci");
    assert("usb"@.len() == 3);
    assert("sata"@.len() == 4);
    assert("scsi"@.len() == 4);
    assert("usb"@[0] == 'u');
    assert("ata"@[0] == 'a');
    assert("ide"@[0] == 'i');
    assert("pci"@[0] == 'p');
}

/// A virtual record is always removable and never a system device, whatever
/// its removable and hotplug flags say.
pub proof fn lemma_virtual_is_removable(r: RawDeviceModel)
    ensures
        spec_is_virtual(r) ==> norm(r).is_removable,
        spec_is_virtual(r) ==> !norm(r).is_system,
{
}

} // verus!
