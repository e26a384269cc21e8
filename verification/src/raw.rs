//! The typed intermediate form of one raw tool record: every field the
//! normalizer reads, already reduced to plain optional values. A missing or
//! wrong-typed field in the tool output is `None` here; normalization gives
//! each one its documented default.

use vstd::prelude::*;

verus! {

/// The three fields mountpoint extraction reads, from a child record or from
/// the device record itself.
#[derive(Clone, Debug)]
pub struct MountSource {
    pub mountpoint: Option<String>,
    pub fssize: Option<String>,
    pub fsavail: Option<String>,
}

/// Ghost model of a [`MountSource`].
#[verifier::ext_equal]
pub ghost struct MountSourceModel {
    pub mountpoint: Option<Seq<char>>,
    pub fssize: Option<Seq<char>>,
    pub fsavail: Option<Seq<char>>,
}

impl View for MountSource {
    type V = MountSourceModel;

    open spec fn view(&self) -> MountSourceModel {
        MountSourceModel {
            mountpoint: self.mountpoint.deep_view(),
            fssize: self.fssize.deep_view(),
            fsavail: self.fsavail.deep_view(),
        }
    }
}

impl DeepView for MountSource {
    type V = MountSourceModel;

    open spec fn deep_view(&self) -> MountSourceModel {
        self.view()
    }
}

/// One raw block-device record as the listing tool reported it.
#[derive(Clone, Debug)]
pub struct RawDevice {
    /// Primary device name, not yet resolved to an absolute path.
    pub name: Option<String>,
    /// Kernel device name, not yet resolved to an absolute path.
    pub kname: Option<String>,
    /// Transport string, e.g. `"usb"` or `"sata"`.
    pub tran: Option<String>,
    /// Subsystem string; `"block"` alone marks a virtual device.
    pub subsystems: Option<String>,
    pub label: Option<String>,
    pub vendor: Option<String>,
    pub model: Option<String>,
    /// Read-only flag.
    pub ro: Option<bool>,
    /// Removable flag.
    pub rm: Option<bool>,
    /// Hotplug flag.
    pub hotplug: Option<bool>,
    /// Size in bytes as the tool reports it, a signed count.
    pub size: Option<i64>,
    /// Physical sector size.
    pub phy_sec: Option<i32>,
    /// Logical sector size.
    pub log_sec: Option<i32>,
    /// Partition-table source string, e.g. `"gpt"` or `"dos"`.
    pub pttype: Option<String>,
    /// The device's own mountpoint fields, used when it has no children.
    pub own_mount: MountSource,
    /// Child records when the tool reported a child list, even an empty one.
    pub children: Option<Vec<MountSource>>,
}

/// Ghost model of a [`RawDevice`].
#[verifier::ext_equal]
pub ghost struct RawDeviceModel {
    pub name: Option<Seq<char>>,
    pub kname: Option<Seq<char>>,
    pub tran: Option<Seq<char>>,
    pub subsystems: Option<Seq<char>>,
    pub label: Option<Seq<char>>,
    pub vendor: Option<Seq<char>>,
    pub model: Option<Seq<char>>,
    pub ro: Option<bool>,
    pub rm: Option<bool>,
    pub hotplug: Option<bool>,
    pub size: Option<i64>,
    pub phy_sec: Option<i32>,
    pub log_sec: Option<i32>,
    pub pttype: Option<Seq<char>>,
    pub own_mount: MountSourceModel,
    pub children: Option<Seq<MountSourceModel>>,
}

impl View for RawDevice {
    type V = RawDeviceModel;

    open spec fn view(&self) -> RawDeviceModel {
        RawDeviceModel {
            name: self.name.deep_view(),
            kname: self.kname.deep_view(),
            tran: self.tran.deep_view(),
            subsystems: self.subsystems.deep_view(),
            label: self.label.deep_view(),
            vendor: self.vendor.deep_view(),
            model: self.model.deep_view(),
            ro: self.ro,
            rm: self.rm,
            hotplug: self.hotplug,
            size: self.size,
            phy_sec: self.phy_sec,
            log_sec: self.log_sec,
            pttype: self.pttype.deep_view(),
            own_mount: self.own_mount.view(),
            children: self.children.deep_view(),
        }
    }
}

impl DeepView for RawDevice {
    type V = RawDeviceModel;

    open spec fn deep_view(&self) -> RawDeviceModel {
        self.view()
    }
}

/// An optional string field read with its default: the empty string.
pub open spec fn str_or_empty(s: Option<Seq<char>>) -> Seq<char> {
    match s {
        Some(v) => v,
        None => Seq::empty(),
    }
}

} // verus!
