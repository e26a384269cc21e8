//! Mountpoint extraction: child records (or the childless device itself)
//! become mountpoint entries.

use vstd::prelude::*;
use crate::device::MountPoint;
use crate::device::MountPointModel;
use crate::raw::MountSource;
use crate::raw::MountSourceModel;
use crate::raw::str_or_empty;
use crate::text::spec_parse_u64;
use crate::text::parse_u64;

verus! {

/// A candidate record is kept exactly when it carries a non-empty mount path.
pub open spec fn keep_mount(c: MountSourceModel) -> bool {
    match c.mountpoint {
        Some(p) => p.len() > 0,
        None => false,
    }
}

/// An optional capacity field parsed as a decimal 64-bit count; absence and
/// parse failure both leave the capacity out.
pub open spec fn spec_capacity(field: Option<Seq<char>>) -> Option<u64> {
    match field {
        Some(s) => spec_parse_u64(s),
        None => None,
    }
}

/// The mountpoint a kept candidate record yields.
pub open spec fn spec_mount_of(c: MountSourceModel) -> MountPointModel {
    MountPointModel {
        path: str_or_empty(c.mountpoint),
        total_bytes: spec_capacity(c.fssize),
        available_bytes: spec_capacity(c.fsavail),
    }
}

/// The mountpoints of a candidate list, in order: one entry per candidate
/// with a non-empty mount path.
pub open spec fn spec_mounts(cs: Seq<MountSourceModel>) -> Seq<MountPointModel>
    decreases cs.len(),
{
    if cs.len() == 0 {
        Seq::empty()
    } else {
        let rest = spec_mounts(cs.drop_last());
        if keep_mount(cs.last()) {
            rest.push(spec_mount_of(cs.last()))
        } else {
            rest
        }
    }
}

/// Every extracted mountpoint carries a non-empty mount path: candidates
/// without one are dropped, never defaulted.
pub proof fn lemma_mount_paths_nonempty(cs: Seq<MountSourceModel>)
    ensures
        forall|i: int| 0 <= i < spec_mounts(cs).len() ==> #[trigger] spec_mounts(cs)[i].path.len() > 0,
    decreases cs.len(),
{
    if cs.len() > 0 {
        lemma_mount_paths_nonempty(cs.drop_last());
        let rest = spec_mounts(cs.drop_last());
        assert forall|i: int|
            0 <= i < spec_mounts(cs).len() implies #[trigger] spec_mounts(cs)[i].path.len()
            > 0 by {
            if keep_mount(cs.last()) {
                assert(spec_mounts(cs) == rest.push(spec_mount_of(cs.last())));
                if i < rest.len() {
                    assert(spec_mounts(cs)[i] == rest[i]);
                } else {
                    assert(spec_mounts(cs)[i] == spec_mount_of(cs.last()));
                }
            } else {
                assert(spec_mounts(cs) == rest);
            }
        }
    }
}

fn capacity_field(field: &Option<String>) -> (r: Option<u64>)
    ensures
        r == spec_capacity(field.deep_view()),
{
    match field {
        Some(v) => parse_u64(v.as_str()),
        None => None,
    }
}

fn mount_of(c: &MountSource) -> (m: MountPoint)
    ensures
        m@ == spec_mount_of(c@),
{
    MountPoint {
        path: match &c.mountpoint {
            Some(p) => p.clone(),
            None => String::new(),
        },
        total_bytes: capacity_field(&c.fssize),
        available_bytes: capacity_field(&c.fsavail),
    }
}

/// Mountpoint extraction over the single-element candidate list a childless
/// device supplies: the device's own record.
pub fn mounts_of_single(c: &MountSource) -> (r: Vec<MountPoint>)
    ensures
        r.deep_view() == spec_mounts(seq![c@]),
{
    let mut r: Vec<MountPoint> = Vec::new();
    let keep = match &c.mountpoint {
        Some(p) => !p.as_str().is_empty(),
        None => false,
    };
    if keep {
        r.push(mount_of(c));
    }
    proof {
        let cs = seq![c@];
        assert(cs.drop_last() =~= Seq::<MountSourceModel>::empty());
        assert(spec_mounts(Seq::<MountSourceModel>::empty()) == Seq::<MountPointModel>::empty());
        assert(cs.last() == c@);
        if keep_mount(c@) {
            assert(spec_mounts(cs) == Seq::<MountPointModel>::empty().push(spec_mount_of(c@)));
        } else {
            assert(spec_mounts(cs) == Seq::<MountPointModel>::empty());
        }
        assert(r.deep_view() =~= spec_mounts(cs));
    }
    r
}

pub fn get_mount_points(children: &Vec<MountSource>) -> (r: Vec<MountPoint>)
    ensures
        r.deep_view() == spec_mounts(children.deep_view()),
{
    let mut r: Vec<MountPoint> = Vec::new();
    let mut i: usize = 0;
    while i < children.len()
        invariant
            i <= children.len(),
            r.deep_view() == spec_mounts(children.deep_view().subrange(0, i as int)),
        decreases children.len() - i,
    {
        let c = &children[i];
        let keep = match &c.mountpoint {
            Some(p) => !p.as_str().is_empty(),
            None => false,
        };
        if keep {
            r.push(mount_of(c));
        }
        proof {
            let cs = children.deep_view();
            assert(cs.subrange(0, i + 1).drop_last() =~= cs.subrange(0, i as int));
            assert(cs.subrange(0, i + 1).last() == cs[i as int]);
            assert(r.deep_view() =~= spec_mounts(cs.subrange(0, i + 1)));
        }
        i += 1;
    }
    proof {
        assert(children.deep_view().subrange(0, children.len() as int) =~= children.deep_view());
    }
    r
}

} // verus!
