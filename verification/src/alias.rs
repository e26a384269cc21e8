//! Stable alias paths: symbolic-link entries of the fixed alias directory
//! are resolved to canonical device paths, and every device whose path has a
//! match receives the link's path as its stable alias.

use vstd::prelude::*;
use vstd::string::StrSliceExecFns;
use vstd::string::StringExecFns;
use crate::device::DeviceDescriptor;
use crate::device::DeviceModel;
use crate::text::eq_str;

verus! {

/// One entry of the alias directory: the link's own path and the target the
/// link points at, as read from the filesystem.
pub struct LinkEntry {
    pub link_path: String,
    pub target: String,
}

/// Ghost model of a [`LinkEntry`].
#[verifier::ext_equal]
pub ghost struct LinkEntryModel {
    pub link_path: Seq<char>,
    pub target: Seq<char>,
}

impl View for LinkEntry {
    type V = LinkEntryModel;

    open spec fn view(&self) -> LinkEntryModel {
        LinkEntryModel { link_path: self.link_path@, target: self.target@ }
    }
}

impl DeepView for LinkEntry {
    type V = LinkEntryModel;

    open spec fn deep_view(&self) -> LinkEntryModel {
        self.view()
    }
}

/// The number of leading `..` segments of a relative target; a bare final
/// `..` counts as well.
pub open spec fn dotdot_count(s: Seq<char>) -> nat
    decreases s.len(),
{
    if s.len() >= 3 && s[0] == '.' && s[1] == '.' && s[2] == '/' {
        1 + dotdot_count(s.skip(3))
    } else if s.len() == 2 && s[0] == '.' && s[1] == '.' {
        1
    } else {
        0
    }
}

/// What remains of a relative target once its leading `..` segments are
/// consumed.
pub open spec fn dotdot_rest(s: Seq<char>) -> Seq<char>
    decreases s.len(),
{
    if s.len() >= 3 && s[0] == '.' && s[1] == '.' && s[2] == '/' {
        dotdot_rest(s.skip(3))
    } else if s.len() == 2 && s[0] == '.' && s[1] == '.' {
        Seq::empty()
    } else {
        s
    }
}

/// The suffix after the last path separator: the filename component.
pub open spec fn after_last_slash(s: Seq<char>) -> Seq<char>
    decreases s.len(),
{
    if s.len() == 0 {
        s
    } else if s.last() == '/' {
        Seq::empty()
    } else {
        after_last_slash(s.drop_last()).push(s.last())
    }
}

/// `s` without its trailing path separators: a path ending in separators
/// names the same filename as the path without them.
pub open spec fn trim_trailing_slashes(s: Seq<char>) -> Seq<char>
    decreases s.len(),
{
    if s.len() > 0 && s.last() == '/' {
        trim_trailing_slashes(s.drop_last())
    } else {
        s
    }
}

/// The alias directory with `k` levels popped, as a path prefix ready for a
/// filename. Popping past the root stays at the root.
pub open spec fn alias_base_prefix(k: nat) -> Seq<char> {
    if k == 0 {
        "/dev/disk/by-path/"@
    } else if k == 1 {
        "/dev/disk/"@
    } else if k == 2 {
        "/dev/"@
    } else {
        "/"@
    }
}

/// The canonical device path a link target stands for. An absolute target
/// is its own key. A relative target is resolved against the alias
/// directory: each leading `..` pops one level, and the filename component
/// of the remainder — trailing separators ignored — is appended. A target
/// that leaves no filename (empty, or all `..` segments) yields no key.
pub open spec fn spec_alias_key(target: Seq<char>) -> Option<Seq<char>> {
    if target.len() > 0 && target[0] == '/' {
        Some(target)
    } else {
        let fname = after_last_slash(trim_trailing_slashes(dotdot_rest(target)));
        if fname.len() == 0 {
            None
        } else {
            Some(alias_base_prefix(dotdot_count(target)) + fname)
        }
    }
}

/// The key/alias pairs a link list produces, in directory order.
pub open spec fn spec_alias_pairs(links: Seq<LinkEntryModel>) -> Seq<(Seq<char>, Seq<char>)>
    decreases links.len(),
{
    if links.len() == 0 {
        Seq::empty()
    } else {
        let rest = spec_alias_pairs(links.drop_last());
        match spec_alias_key(links.last().target) {
            Some(key) => rest.push((key, links.last().link_path)),
            None => rest,
        }
    }
}

/// Map lookup over the pairs, the later of two equal keys winning, as an
/// insertion-ordered map would decide it.
pub open spec fn spec_lookup(pairs: Seq<(Seq<char>, Seq<char>)>, key: Seq<char>) -> Option<
    Seq<char>,
>
    decreases pairs.len(),
{
    if pairs.len() == 0 {
        None
    } else if pairs.last().0 == key {
        Some(pairs.last().1)
    } else {
        spec_lookup(pairs.drop_last(), key)
    }
}

/// The stable alias a device with canonical path `device` receives from the
/// link list, if any.
pub open spec fn spec_alias_of(links: Seq<LinkEntryModel>, device: Seq<char>) -> Option<
    Seq<char>,
> {
    spec_lookup(spec_alias_pairs(links), device)
}

/// A device after alias attachment: only the stable alias path changes, and
/// only when a link matches.
pub open spec fn spec_with_alias(d: DeviceModel, links: Seq<LinkEntryModel>) -> DeviceModel {
    match spec_alias_of(links, d.device) {
        Some(alias) => DeviceModel { device_path: Some(alias), ..d },
        None => d,
    }
}

/// Alias attachment changes nothing but the stable alias path: every other
/// field, the classification flags among them, is left as it was.
pub proof fn lemma_alias_preserves_flags(d: DeviceModel, links: Seq<LinkEntryModel>)
    ensures
        crate::device::flags_consistent(d) ==> crate::device::flags_consistent(
            spec_with_alias(d, links),
        ),
        spec_with_alias(d, links).device == d.device,
        spec_with_alias(d, links).is_system == d.is_system,
        spec_with_alias(d, links).is_removable == d.is_removable,
        spec_with_alias(d, links).is_virtual == d.is_virtual,
        spec_with_alias(d, links).mountpoints == d.mountpoints,
{
}

/// Resolves one link target to the canonical device path it stands for.
pub fn alias_key(target: &str) -> (r: Option<String>)
    ensures
        r.deep_view() == spec_alias_key(target@),
{
    let n = target.unicode_len();
    if n > 0 && target.get_char(0) == '/' {
        return Some(target.to_owned());
    }
    let mut i: usize = 0;
    let mut k: usize = 0;
    proof {
        assert(target@.skip(0) =~= target@);
    }
    while n - i > 2 && target.get_char(i) == '.' && target.get_char(i + 1) == '.'
        && target.get_char(i + 2) == '/'
        invariant
            n == target@.len(),
            i <= n,
            k <= i,
            dotdot_count(target@) == k + dotdot_count(target@.skip(i as int)),
            dotdot_rest(target@) == dotdot_rest(target@.skip(i as int)),
        decreases n - i,
    {
        proof {
            let rem = target@.skip(i as int);
            assert(rem.len() >= 3);
            assert(rem[0] == '.' && rem[1] == '.' && rem[2] == '/');
            assert(rem.skip(3) =~= target@.skip(i + 3));
        }
        i += 3;
        k += 1;
    }
    if n - i == 2 && target.get_char(i) == '.' && target.get_char(i + 1) == '.' {
        proof {
            let rem = target@.skip(i as int);
            assert(rem.len() == 2 && rem[0] == '.' && rem[1] == '.');
            assert(dotdot_rest(target@) =~= Seq::<char>::empty());
        }
        return None;
    }
    proof {
        let rem = target@.skip(i as int);
        assert(!(rem.len() >= 3 && rem[0] == '.' && rem[1] == '.' && rem[2] == '/'));
        assert(!(rem.len() == 2 && rem[0] == '.' && rem[1] == '.'));
        assert(dotdot_rest(target@) == rem);
        assert(dotdot_count(target@) == k);
        assert(target@.subrange(i as int, n as int) =~= target@.skip(i as int));
    }
    let mut end: usize = n;
    while end > i && target.get_char(end - 1) == '/'
        invariant
            n == target@.len(),
            i <= end <= n,
            trim_trailing_slashes(target@.subrange(i as int, n as int)) == trim_trailing_slashes(
                target@.subrange(i as int, end as int),
            ),
        decreases end,
    {
        proof {
            let cur = target@.subrange(i as int, end as int);
            assert(cur.last() == target@[end - 1]);
            assert(cur.drop_last() =~= target@.subrange(i as int, end - 1));
        }
        end -= 1;
    }
    proof {
        let t = target@.subrange(i as int, end as int);
        assert(!(t.len() > 0 && t.last() == '/'));
        assert(trim_trailing_slashes(t) == t);
    }
    let mut fname_start: usize = i;
    let mut j: usize = i;
    while j < end
        invariant
            n == target@.len(),
            end <= n,
            i <= fname_start <= j <= end,
            after_last_slash(target@.subrange(i as int, j as int)) == target@.subrange(
                fname_start as int,
                j as int,
            ),
        decreases end - j,
    {
        proof {
            let cur = target@.subrange(i as int, j + 1);
            assert(cur.drop_last() =~= target@.subrange(i as int, j as int));
            assert(cur.last() == target@[j as int]);
        }
        if target.get_char(j) == '/' {
            fname_start = j + 1;
            proof {
                assert(after_last_slash(target@.subrange(i as int, j + 1)) =~= target@.subrange(
                    j + 1,
                    j + 1,
                ));
            }
        } else {
            proof {
                assert(after_last_slash(target@.subrange(i as int, j + 1)) =~= target@.subrange(
                    fname_start as int,
                    j + 1,
                ));
            }
        }
        j += 1;
    }
    if fname_start == end {
        return None;
    }
    let prefix: &str = if k == 0 {
        "/dev/disk/by-path/"
    } else if k == 1 {
        "/dev/disk/"
    } else if k == 2 {
        "/dev/"
    } else {
        "/"
    };
    let fname = target.substring_char(fname_start, end);
    Some(String::from_str(prefix).concat(fname))
}

/// Builds the key/alias pairs of a link list.
pub fn build_alias_pairs(links: &Vec<LinkEntry>) -> (pairs: Vec<(String, String)>)
    ensures
        pairs.deep_view() == spec_alias_pairs(links.deep_view()),
{
    let mut pairs: Vec<(String, String)> = Vec::new();
    let mut i: usize = 0;
    while i < links.len()
        invariant
            i <= links.len(),
            pairs.deep_view() == spec_alias_pairs(links.deep_view().subrange(0, i as int)),
        decreases links.len() - i,
    {
        match alias_key(links[i].target.as_str()) {
            Some(key) => {
                pairs.push((key, links[i].link_path.clone()));
            },
            None => {},
        }
        proof {
            let ls = links.deep_view();
            assert(ls.subrange(0, i + 1).drop_last() =~= ls.subrange(0, i as int));
            assert(ls.subrange(0, i + 1).last() == ls[i as int]);
            assert(pairs.deep_view() =~= spec_alias_pairs(ls.subrange(0, i + 1)));
        }
        i += 1;
    }
    proof {
        assert(links.deep_view().subrange(0, links.len() as int) =~= links.deep_view());
    }
    pairs
}

fn lookup_alias(pairs: &Vec<(String, String)>, key: &str) -> (r: Option<String>)
    ensures
        r.deep_view() == spec_lookup(pairs.deep_view(), key@),
{
    let mut j = pairs.len();
    proof {
        assert(pairs.deep_view().subrange(0, pairs.len() as int) =~= pairs.deep_view());
    }
    while j > 0
        invariant
            j <= pairs.len(),
            spec_lookup(pairs.deep_view(), key@) == spec_lookup(
                pairs.deep_view().subrange(0, j as int),
                key@,
            ),
        decreases j,
    {
        j -= 1;
        proof {
            let ps = pairs.deep_view();
            assert(ps.subrange(0, j + 1).drop_last() =~= ps.subrange(0, j as int));
            assert(ps.subrange(0, j + 1).last() == ps[j as int]);
        }
        if eq_str(pairs[j].0.as_str(), key) {
            return Some(pairs[j].1.clone());
        }
    }
    proof {
        assert(pairs.deep_view().subrange(0, 0) =~= Seq::<(Seq<char>, Seq<char>)>::empty());
    }
    None
}

/// Attaches stable alias paths: every device whose canonical path matches a
/// resolved link target receives that link's path; all other fields, and
/// devices without a match, are left as they were.
pub fn add_device_paths(drives: &mut Vec<DeviceDescriptor>, links: &Vec<LinkEntry>)
    ensures
        final(drives).len() == old(drives).len(),
        forall|i: int|
            0 <= i < old(drives).len() ==> final(drives).deep_view()[i] == #[trigger] spec_with_alias(
                old(drives).deep_view()[i],
                links.deep_view(),
            ),
{
    let pairs = build_alias_pairs(links);
    let mut i: usize = 0;
    while i < drives.len()
        invariant
            drives.len() == old(drives).len(),
            i <= drives.len(),
            pairs.deep_view() == spec_alias_pairs(links.deep_view()),
            forall|m: int|
                0 <= m < i ==> drives.deep_view()[m] == #[trigger] spec_with_alias(
                    old(drives).deep_view()[m],
                    links.deep_view(),
                ),
            forall|m: int| i <= m < drives.len() ==> drives.deep_view()[m] == old(
                drives,
            ).deep_view()[m],
        decreases drives.len() - i,
    {
        let found = lookup_alias(&pairs, drives[i].device.as_str());
        match found {
            Some(alias) => {
                let d = drives.remove(i);
                let updated = DeviceDescriptor { device_path: Some(alias), ..d };
                drives.insert(i, updated);
            },
            None => {},
        }
        i += 1;
    }
}

} // verus!
