//! The enumeration pipeline around the external tool: its exit status and
//! error stream are checked, its structured output is turned into typed raw
//! records, and those are filtered and normalized.

use vstd::prelude::*;
use crate::device::DeviceDescriptor;
use crate::device::flags_consistent;
use crate::errors::DriveError;
use crate::jsontree::json_as_bool;
use crate::jsontree::json_as_number;
use crate::jsontree::json_as_str;
use crate::jsontree::json_get;
use crate::jsontree::json_has_key;
use crate::jsontree::json_members;
use crate::jsontree::json_parse;
use crate::jsontree::number_parts;
use crate::jsontree::parses_as_json;
use crate::normalize::devices_from_raw;
use crate::raw::MountSource;
use crate::raw::RawDevice;
use crate::text::has_prefix;

verus! {

/// Decides whether a tool invocation counts as successful: a non-zero exit
/// code is fatal, and any text on the error stream is fatal even on a clean
/// exit. An absent exit code (the tool was killed) is not by itself fatal.
pub fn check_tool_output(tool: &str, code: Option<i32>, stderr: &str) -> (r: Result<
    (),
    DriveError,
>)
    ensures
        match r {
            Ok(_) => (code is None || code == Some(0i32)) && stderr@.len() == 0,
            Err(e) => match e {
                DriveError::ProcessExit { tool: t, code: c } => t@ == tool@ && code == Some(c)
                    && c != 0,
                DriveError::ProcessStderr { tool: t, stderr: s } => t@ == tool@ && s@ == stderr@
                    && stderr@.len() > 0 && (code is None || code == Some(0i32)),
                _ => false,
            },
        },
{
    match code {
        Some(c) => {
            if c != 0 {
                return Err(DriveError::ProcessExit { tool: tool.to_owned(), code: c });
            }
        },
        None => {},
    }
    if !stderr.is_empty() {
        return Err(
            DriveError::ProcessStderr { tool: tool.to_owned(), stderr: stderr.to_owned() },
        );
    }
    Ok(())
}

/// The signed 64-bit count a sign/mantissa/exponent triple denotes, exactly
/// as the JSON library's own integer conversion reads it: a number with a
/// non-zero decimal exponent is out of scope, and the mantissa is otherwise
/// reinterpreted modulo two to the 64 with the sign applied.
pub open spec fn spec_i64_from_parts(positive: bool, mantissa: u64, exponent: i16) -> Option<
    i64,
> {
    if exponent != 0 {
        None
    } else if positive {
        if mantissa < 0x8000_0000_0000_0000 {
            Some(mantissa as i64)
        } else {
            Some((mantissa - 0x1_0000_0000_0000_0000) as i64)
        }
    } else {
        if mantissa <= 0x8000_0000_0000_0000 {
            Some((-(mantissa as int)) as i64)
        } else {
            Some((0x1_0000_0000_0000_0000 - mantissa as int) as i64)
        }
    }
}

fn i64_from_parts(positive: bool, mantissa: u64, exponent: i16) -> (r: Option<i64>)
    ensures
        r == spec_i64_from_parts(positive, mantissa, exponent),
{
    if exponent != 0 {
        return None;
    }
    if positive {
        if mantissa <= 0x7fff_ffff_ffff_ffffu64 {
            Some(mantissa as i64)
        } else {
            Some(-((u64::MAX - mantissa) as i64) - 1)
        }
    } else {
        if mantissa == 0x8000_0000_0000_0000u64 {
            Some(i64::MIN)
        } else if mantissa <= 0x7fff_ffff_ffff_ffffu64 {
            Some(-(mantissa as i64))
        } else {
            Some(((u64::MAX - mantissa) as i64) + 1)
        }
    }
}

/// A signed 64-bit count narrowed to 32 bits, as the JSON library narrows
/// it: out-of-range values are out of scope.
pub open spec fn spec_i32_from_i64(v: i64) -> Option<i32> {
    if v > i32::MAX || v < i32::MIN {
        None
    } else {
        Some(v as i32)
    }
}

fn i32_from_i64(v: i64) -> (r: Option<i32>)
    ensures
        r == spec_i32_from_i64(v),
{
    if v > i32::MAX as i64 || v < i32::MIN as i64 {
        None
    } else {
        Some(v as i32)
    }
}

/// Reads a numeric field as a signed 64-bit count. The tree value is
/// opaque; the conversion from the number's parts is verified and total, so
/// no field value can fault the extraction.
fn json_field_i64(v: &json::JsonValue, key: &str) -> Option<i64> {
    match json_as_number(json_get(v, key)) {
        Some(n) => {
            let parts = number_parts(&n);
            i64_from_parts(parts.0, parts.1, parts.2)
        },
        None => None,
    }
}

fn json_field_i32(v: &json::JsonValue, key: &str) -> Option<i32> {
    match json_field_i64(v, key) {
        Some(x) => i32_from_i64(x),
        None => None,
    }
}

/// Reads the three mountpoint fields of one record. The tree value is
/// opaque, so nothing is claimed of the result; downstream extraction is
/// verified for every value it may hold.
fn mount_source_from(v: &json::JsonValue) -> MountSource {
    MountSource {
        mountpoint: json_as_str(json_get(v, "mountpoint")),
        fssize: json_as_str(json_get(v, "fssize")),
        fsavail: json_as_str(json_get(v, "fsavail")),
    }
}

/// Reads every field the normalizer consumes out of one raw device record,
/// each access falling back to absence on a missing or wrong-typed field.
fn raw_from_json(v: &json::JsonValue) -> RawDevice {
    let children = if json_has_key(v, "children") {
        let members = json_members(json_get(v, "children"));
        let mut cs: Vec<MountSource> = Vec::new();
        let mut i: usize = 0;
        while i < members.len()
            decreases members.len() - i,
        {
            cs.push(mount_source_from(&members[i]));
            i += 1;
        }
        Some(cs)
    } else {
        None
    };
    RawDevice {
        name: json_as_str(json_get(v, "name")),
        kname: json_as_str(json_get(v, "kname")),
        tran: json_as_str(json_get(v, "tran")),
        subsystems: json_as_str(json_get(v, "subsystems")),
        label: json_as_str(json_get(v, "label")),
        vendor: json_as_str(json_get(v, "vendor")),
        model: json_as_str(json_get(v, "model")),
        ro: json_as_bool(json_get(v, "ro")),
        rm: json_as_bool(json_get(v, "rm")),
        hotplug: json_as_bool(json_get(v, "hotplug")),
        size: json_field_i64(v, "size"),
        phy_sec: json_field_i32(v, "phy-sec"),
        log_sec: json_field_i32(v, "log-sec"),
        pttype: json_as_str(json_get(v, "pttype")),
        own_mount: mount_source_from(v),
        children,
    }
}

/// Parses the listing tool's output text and types every record under its
/// `blockdevices` array. Text the JSON parse rejects is the only error; a
/// missing or oddly-typed field inside a record degrades that field to
/// absence.
pub fn parse_lsblk_tree(text: &str) -> (r: Result<Vec<RawDevice>, DriveError>)
    ensures
        (r is Ok) <==> parses_as_json(text@),
        r matches Err(e) ==> e is Parse,
{
    let tree = match json_parse(text) {
        Ok(t) => t,
        Err(_) => {
            return Err(DriveError::Parse);
        },
    };
    let members = json_members(json_get(&tree, "blockdevices"));
    let mut raws: Vec<RawDevice> = Vec::new();
    let mut i: usize = 0;
    while i < members.len()
        decreases members.len() - i,
    {
        raws.push(raw_from_json(&members[i]));
        i += 1;
    }
    Ok(raws)
}

/// The full in-process pipeline from tool output text to normalized
/// devices: parse, type, filter, normalize. It succeeds exactly when the
/// JSON parse accepts the text, and whatever records the opaque parse
/// yields, every returned device satisfies the classification invariant and
/// none lies under a filtered prefix.
pub fn devices_from_lsblk_text(text: &str) -> (r: Result<Vec<DeviceDescriptor>, DriveError>)
    ensures
        (r is Ok) <==> parses_as_json(text@),
        r matches Ok(ds) ==> forall|i: int| #![auto]
            0 <= i < ds.deep_view().len() ==> flags_consistent(ds.deep_view()[i]) && !has_prefix(
                ds.deep_view()[i].device,
                "/dev/loop"@,
            ) && !has_prefix(ds.deep_view()[i].device, "/dev/sr"@) && !has_prefix(
                ds.deep_view()[i].device,
                "/dev/ram"@,
            ),
        r matches Err(e) ==> e is Parse,
{
    match parse_lsblk_tree(text) {
        Ok(raws) => Ok(devices_from_raw(&raws)),
        Err(e) => Err(e),
    }
}

} // verus!
