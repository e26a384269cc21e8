//! Description building: label, vendor and model joined into one
//! single-spaced human-readable string.

use vstd::prelude::*;
use vstd::string::StringExecFns;
use crate::raw::RawDevice;
use crate::raw::str_or_empty;
use crate::text::collapse_whitespace;
use crate::text::collapse_ws;

verus! {

/// Label, vendor and model joined with single spaces, the label repeated at
/// the end when it is non-empty, before whitespace collapsing.
pub open spec fn spec_joined(
    label: Option<Seq<char>>,
    vendor: Option<Seq<char>>,
    model: Option<Seq<char>>,
) -> Seq<char> {
    let l = str_or_empty(label);
    let v = str_or_empty(vendor);
    let m = str_or_empty(model);
    l + " "@ + v + " "@ + m + (if l.len() > 0 {
        " "@ + l
    } else {
        Seq::empty()
    })
}

/// The device description: the joined label/vendor/model fields with every
/// run of whitespace collapsed to a single space. Absent fields default to
/// the empty string; the result may be empty.
pub open spec fn spec_description(
    label: Option<Seq<char>>,
    vendor: Option<Seq<char>>,
    model: Option<Seq<char>>,
) -> Seq<char> {
    collapse_ws(spec_joined(label, vendor, model))
}

fn append_opt(s: &mut String, part: &Option<String>)
    ensures
        final(s)@ == old(s)@ + str_or_empty(part.deep_view()),
{
    match part {
        Some(v) => {
            s.append(v.as_str());
        },
        None => {
            proof {
                assert(s@ =~= old(s)@ + Seq::<char>::empty());
            }
        },
    }
}

pub fn get_description(device: &RawDevice) -> (r: String)
    ensures
        r@ == spec_description(device@.label, device@.vendor, device@.model),
{
    let mut joined = String::new();
    append_opt(&mut joined, &device.label);
    joined.append(" ");
    append_opt(&mut joined, &device.vendor);
    joined.append(" ");
    append_opt(&mut joined, &device.model);
    let label_nonempty = match &device.label {
        Some(l) => !l.as_str().is_empty(),
        None => false,
    };
    if label_nonempty {
        joined.append(" ");
        append_opt(&mut joined, &device.label);
    }
    proof {
        assert(joined@ =~= spec_joined(device@.label, device@.vendor, device@.model));
    }
    collapse_whitespace(joined.as_str())
}

} // verus!
