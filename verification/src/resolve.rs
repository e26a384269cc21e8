//! Name resolution: a raw device name becomes a canonical absolute path.

use vstd::prelude::*;
use vstd::string::StrSliceExecFns;
use vstd::string::StringExecFns;

verus! {

/// The canonical form of a raw device name: the empty name stays empty, a
/// name that already starts with the path separator is absolute and stays
/// unchanged, and any other name is placed under the `/dev/` root.
pub open spec fn spec_resolve(name: Seq<char>) -> Seq<char> {
    if name.len() == 0 {
        name
    } else if name[0] == '/' {
        name
    } else {
        "/dev/"@ + name
    }
}

pub fn resolve_device_name(name: &str) -> (r: String)
    ensures
        r@ == spec_resolve(name@),
{
    if name.is_empty() {
        String::new()
    } else if name.get_char(0) == '/' {
        name.to_owned()
    } else {
        String::from_str("/dev/").concat(name)
    }
}

} // verus!
