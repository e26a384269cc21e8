//! The canonical data model: devices, their mountpoints, and the ghost
//! models that contracts speak about.

use vstd::prelude::*;

verus! {

/// The on-disk layout scheme of a partitioned device.
#[derive(Clone, Copy, PartialEq, Eq, Structural, Debug)]
pub enum PartitionTableKind {
    Gpt,
    Mbr,
}

/// A filesystem attachment belonging to a device or one of its partitions.
#[derive(Clone, Debug)]
pub struct MountPoint {
    /// The mount path; extraction only produces non-empty paths.
    pub path: String,
    /// Total capacity in bytes, when the source reported a parsable value.
    pub total_bytes: Option<u64>,
    /// Available capacity in bytes, when the source reported a parsable value.
    pub available_bytes: Option<u64>,
}

/// Ghost model of a [`MountPoint`].
#[verifier::ext_equal]
pub ghost struct MountPointModel {
    pub path: Seq<char>,
    pub total_bytes: Option<u64>,
    pub available_bytes: Option<u64>,
}

impl View for MountPoint {
    type V = MountPointModel;

    open spec fn view(&self) -> MountPointModel {
        MountPointModel {
            path: self.path@,
            total_bytes: self.total_bytes,
            available_bytes: self.available_bytes,
        }
    }
}

impl DeepView for MountPoint {
    type V = MountPointModel;

    open spec fn deep_view(&self) -> MountPointModel {
        self.view()
    }
}

/// One normalized block device.
#[derive(Clone, Debug)]
pub struct DeviceDescriptor {
    /// Identifier of the backend that produced the record.
    pub enumerator: String,
    /// Upper-cased transport string, `"UNKNOWN"` when the source has none.
    pub bus_type: Option<String>,
    /// Canonical absolute device path.
    pub device: String,
    /// Stable alias path, when a matching symbolic link exists.
    pub device_path: Option<String>,
    /// Resolved kernel device name.
    pub raw: String,
    pub is_virtual: bool,
    pub is_scsi: bool,
    pub is_usb: bool,
    pub is_read_only: bool,
    pub is_removable: bool,
    pub is_system: bool,
    /// Human-readable label assembled from label/vendor/model fields.
    pub description: String,
    /// Size in bytes; a missing source field falls back to 0.
    pub size: u64,
    /// Physical block size in bytes; a missing source field falls back to 512.
    pub block_size: u32,
    /// Logical block size in bytes; a missing source field falls back to 512.
    pub logical_block_size: u32,
    pub partition_table_kind: Option<PartitionTableKind>,
    /// Mountpoints derived from the children, or from the device itself when
    /// it reports no children.
    pub mountpoints: Vec<MountPoint>,
}

/// Ghost model of a [`DeviceDescriptor`].
#[verifier::ext_equal]
pub ghost struct DeviceModel {
    pub enumerator: Seq<char>,
    pub bus_type: Option<Seq<char>>,
    pub device: Seq<char>,
    pub device_path: Option<Seq<char>>,
    pub raw: Seq<char>,
    pub is_virtual: bool,
    pub is_scsi: bool,
    pub is_usb: bool,
    pub is_read_only: bool,
    pub is_removable: bool,
    pub is_system: bool,
    pub description: Seq<char>,
    pub size: u64,
    pub block_size: u32,
    pub logical_block_size: u32,
    pub partition_table_kind: Option<PartitionTableKind>,
    pub mountpoints: Seq<MountPointModel>,
}

impl View for DeviceDescriptor {
    type V = DeviceModel;

    open spec fn view(&self) -> DeviceModel {
        DeviceModel {
            enumerator: self.enumerator@,
            bus_type: self.bus_type.deep_view(),
            device: self.device@,
            device_path: self.device_path.deep_view(),
            raw: self.raw@,
            is_virtual: self.is_virtual,
            is_scsi: self.is_scsi,
            is_usb: self.is_usb,
            is_read_only: self.is_read_only,
            is_removable: self.is_removable,
            is_system: self.is_system,
            description: self.description@,
            size: self.size,
            block_size: self.block_size,
            logical_block_size: self.logical_block_size,
            partition_table_kind: self.partition_table_kind,
            mountpoints: self.mountpoints.deep_view(),
        }
    }
}

impl DeepView for DeviceDescriptor {
    type V = DeviceModel;

    open spec fn deep_view(&self) -> DeviceModel {
        self.view()
    }
}

/// The classification invariant every produced device satisfies: a device is
/// a system device exactly when it is neither removable nor virtual, and a
/// virtual device always counts as removable.
pub open spec fn flags_consistent(d: DeviceModel) -> bool {
    &&& d.is_system == !(d.is_removable || d.is_virtual)
    &&& (d.is_virtual ==> d.is_removable)
}

} // verus!
