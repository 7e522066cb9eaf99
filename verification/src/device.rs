use vstd::prelude::*;

use crate::error::BuildError;
use crate::target::{spec_target_of_abi, spec_triple, Target};
use crate::text::{
    chars_of, first_token, spec_first_token, spec_split_lines, spec_trim, spec_trim_front,
    split_lines, string_of, trim, trim_front,
};

verus! {

// The bridge tool enumerates attached devices as tabular text: a header
// line, then one row per device whose first whitespace-delimited token is
// the device identifier.  Each device's instruction-set architecture is
// queried separately and arrives as an ABI string.

/// One attached device: its bridge-assigned identifier and its resolved
/// architecture.
#[derive(Debug)]
pub struct Device {
    pub id: String,
    pub arch: Target,
}

/// Specification-level form of `Device`.
#[verifier::ext_equal]
pub struct DeviceV {
    pub id: Seq<char>,
    pub arch: Target,
}

impl View for Device {
    type V = DeviceV;

    open spec fn view(&self) -> DeviceV {
        DeviceV { id: self.id@, arch: self.arch }
    }
}

impl DeepView for Device {
    type V = DeviceV;

    open spec fn deep_view(&self) -> DeviceV {
        self.view()
    }
}

impl Device {
    /// The compilation triple for this device's architecture.
    pub fn target_triple(&self) -> (r: &'static str)
        ensures
            r@ == spec_triple(self.arch),
    {
        self.arch.triple()
    }
}

/// The device identifiers named by the rows of `lines`: the first token
/// of every non-blank row.
pub open spec fn spec_ids_of_rows(lines: Seq<Seq<char>>) -> Seq<Seq<char>>
    decreases lines.len(),
{
    if lines.len() == 0 {
        Seq::empty()
    } else {
        let rest = spec_ids_of_rows(lines.drop_last());
        let l = lines.last();
        if spec_trim(l).len() == 0 {
            rest
        } else {
            rest.push(spec_first_token(spec_trim_front(l)))
        }
    }
}

/// The device identifiers in the bridge's enumeration output: the first
/// line is a header and is skipped, blank lines are skipped, and each
/// remaining line's first token is an identifier.  Header-only output
/// names no devices; it is not an error.
pub open spec fn spec_device_ids(out: Seq<char>) -> Seq<Seq<char>> {
    let lines = spec_split_lines(out);
    if lines.len() == 0 {
        Seq::empty()
    } else {
        spec_ids_of_rows(lines.drop_first())
    }
}

/// Parses the bridge's enumeration output into device identifiers, as
/// `spec_device_ids` describes.
pub fn parse_device_ids(output: &String) -> (ids: Vec<String>)
    ensures
        ids.deep_view() == spec_device_ids(output@),
{
    let chars = chars_of(output.as_str());
    let lines = split_lines(&chars);
    let ghost lv = lines.deep_view();
    let mut ids: Vec<String> = Vec::new();
    let n = lines.len();
    if n == 0 {
        proof {
            assert(ids.deep_view() =~~= spec_device_ids(output@));
        }
        return ids;
    }
    let mut i: usize = 1;
    proof {
        assert(lv.skip(1).take(0) =~= Seq::<Seq<char>>::empty());
    }
    while i < n
        invariant
            1 <= i <= n,
            n == lines@.len(),
            lv == lines.deep_view(),
            lv == spec_split_lines(output@),
            ids.deep_view() == spec_ids_of_rows(lv.skip(1).take(i - 1)),
        decreases n - i,
    {
        let ghost prev = ids.deep_view();
        proof {
            assert(lines@[i as int].deep_view() =~= lines@[i as int]@);
            assert(lv[i as int] == lines@[i as int]@);
        }
        let t = trim(&lines[i]);
        if t.len() > 0 {
            let front = trim_front(&lines[i]);
            let tok = first_token(&front);
            ids.push(string_of(&tok));
        }
        proof {
            let row = lv.skip(1).take(i as int);
            assert(row.drop_last() =~= lv.skip(1).take(i - 1));
            assert(row.last() == lv[i as int]);
            if spec_trim(lv[i as int]).len() == 0 {
                assert(ids.deep_view() =~~= spec_ids_of_rows(row));
            } else {
                assert(ids.deep_view() =~~= prev.push(
                    spec_first_token(spec_trim_front(lv[i as int])),
                ));
                assert(ids.deep_view() =~~= spec_ids_of_rows(row));
            }
        }
        i = i + 1;
    }
    proof {
        assert(lv.skip(1).take(n - 1) =~= lv.skip(1));
        assert(lv.drop_first() =~= lv.skip(1));
    }
    ids
}

/// Builds the device record for identifier `id` from the ABI string its
/// property query returned.  The string is trimmed first; an ABI outside
/// the supported set is a hard failure naming the string.
pub fn device_from_abi(id: String, abi: &String) -> (r: Result<Device, BuildError>)
    ensures
        match r {
            Ok(d) => spec_target_of_abi(spec_trim(abi@)) == Some(d.arch) && d.id@ == id@,
            Err(e) => e matches BuildError::UnknownAbi(v) && v@ == spec_trim(abi@)
                && spec_target_of_abi(spec_trim(abi@)) is None,
        },
{
    let trimmed = string_of(&trim(&chars_of(abi.as_str())));
    match Target::from_abi(&trimmed) {
        Ok(arch) => Ok(Device { id, arch }),
        Err(e) => Err(e),
    }
}

/// Chooses the device to install to.  Exactly one attached device is
/// chosen; none, or more than one, is a distinct failure, the latter with
/// the count, and never a silent default.
pub fn select_single_device(devices: Vec<Device>) -> (r: Result<Device, BuildError>)
    ensures
        match r {
            Ok(d) => devices@.len() == 1 && d == devices@[0],
            Err(e) => match e {
                BuildError::NoDevice => devices@.len() == 0,
                BuildError::MultipleDevices(c) => devices@.len() == c && c > 1,
                _ => false,
            },
        },
{
    let mut devices = devices;
    if devices.len() == 1 {
        match devices.pop() {
            Some(d) => Ok(d),
            None => Err(BuildError::NoDevice),
        }
    } else if devices.len() == 0 {
        Err(BuildError::NoDevice)
    } else {
        Err(BuildError::MultipleDevices(devices.len()))
    }
}

} // verus!
