//! Device-level selection logic: memory-type lookup and format-support
//! probing.
//!
//! The driver's answers to the relevant queries arrive as plain values
//! (one flag word per memory type, one feature record per candidate
//! format); the first-match selection the renderer relies on is performed
//! and verified here.

use vstd::prelude::*;

verus! {

/// Tiling value for images laid out by the driver for fastest access.
pub const IMAGE_TILING_OPTIMAL: u32 = 0;
/// Tiling value for images laid out row-major.
pub const IMAGE_TILING_LINEAR: u32 = 1;

/// The feature flag words the driver reports for one format, one word per
/// tiling mode.
#[derive(Debug, Clone, Copy, PartialEq, Eq, Structural)]
pub struct FormatProperties {
    pub linear_tiling_features: u32,
    pub optimal_tiling_features: u32,
}

/// Whether a format whose driver-reported properties are `props` offers
/// every feature in `features` under the given tiling mode.
pub open spec fn format_supports(props: FormatProperties, tiling: u32, features: u32) -> bool {
    if tiling == IMAGE_TILING_LINEAR {
        props.linear_tiling_features & features == features
    } else if tiling == IMAGE_TILING_OPTIMAL {
        props.optimal_tiling_features & features == features
    } else {
        false
    }
}

/// Whether memory type `i` is acceptable: its bit is set in the
/// requirement mask and its property flags cover every requested
/// property.
pub open spec fn memory_type_suitable(
    type_filter: u32,
    type_flags: Seq<u32>,
    properties: u32,
    i: int,
) -> bool {
    &&& 0 <= i < type_flags.len()
    &&& type_filter & (1u32 << (i as u32)) != 0
    &&& type_flags[i] & properties == properties
}

/// Picks the lowest-indexed memory type that is allowed by `type_filter`
/// and offers all of `properties`. `type_flags[i]` is the property flag
/// word the driver reports for memory type `i`; a real device has at most
/// 32 types.
pub fn find_memory_type(type_filter: u32, type_flags: &Vec<u32>, properties: u32) -> (r: Option<
    u32,
>)
    requires
        type_flags@.len() <= 32,
    ensures
        r matches Some(i) ==> i < type_flags@.len()
            && memory_type_suitable(type_filter, type_flags@, properties, i as int)
            && (forall|j: int|
            0 <= j < i ==> !memory_type_suitable(type_filter, type_flags@, properties, j)),
        r is None ==> forall|j: int|
            0 <= j < type_flags@.len() ==> !memory_type_suitable(
                type_filter,
                type_flags@,
                properties,
                j,
            ),
{
    let n = type_flags.len();
    let mut i: usize = 0;
    while i < n
        invariant
            n == type_flags@.len(),
            n <= 32,
            i <= n,
            forall|j: int|
                0 <= j < i ==> !memory_type_suitable(type_filter, type_flags@, properties, j),
        decreases n - i,
    {
        if type_filter & (1u32 << (i as u32)) != 0 && (type_flags[i] & properties) == properties {
            return Some(i as u32);
        }
        i = i + 1;
    }
    None
}

/// The name is present, byte for byte, among the available names.
pub open spec fn name_available(name: Seq<u8>, available: Seq<Vec<u8>>) -> bool {
    exists|i: int| 0 <= i < available.len() && (#[trigger] available[i])@ == name
}

/// Byte-for-byte equality of two names.
fn bytes_eq(a: &Vec<u8>, b: &Vec<u8>) -> (r: bool)
    ensures
        r <==> a@ == b@,
{
    let n = a.len();
    if n != b.len() {
        return false;
    }
    let mut i: usize = 0;
    while i < n
        invariant
            n == a@.len(),
            n == b@.len(),
            i <= n,
            forall|j: int| 0 <= j < i ==> a@[j] == b@[j],
        decreases n - i,
    {
        if a[i] != b[i] {
            return false;
        }
        i = i + 1;
    }
    proof {
        assert(a@ =~= b@);
    }
    true
}

/// Scans the available names for one equal to `name`.
fn contains_name(available: &Vec<Vec<u8>>, name: &Vec<u8>) -> (r: bool)
    ensures
        r <==> name_available(name@, available@),
{
    let n = available.len();
    let mut i: usize = 0;
    while i < n
        invariant
            n == available@.len(),
            i <= n,
            forall|j: int| 0 <= j < i ==> (#[trigger] available@[j])@ != name@,
        decreases n - i,
    {
        if bytes_eq(&available[i], name) {
            return true;
        }
        i = i + 1;
    }
    false
}

/// Whether the device offers every required extension: each required
/// name (the bytes of the extension's identifier) must appear among the
/// names the driver enumerates for the device.
pub fn check_extension_support(required: &Vec<Vec<u8>>, available: &Vec<Vec<u8>>) -> (r: bool)
    ensures
        r <==> forall|i: int|
            0 <= i < required@.len() ==> name_available((#[trigger] required@[i])@, available@),
{
    let n = required.len();
    let mut i: usize = 0;
    while i < n
        invariant
            n == required@.len(),
            i <= n,
            forall|j: int|
                0 <= j < i ==> name_available((#[trigger] required@[j])@, available@),
        decreases n - i,
    {
        if !contains_name(available, &required[i]) {
            return false;
        }
        i = i + 1;
    }
    true
}

/// The suitability rule for picking a physical device: all required
/// extensions present, at least one surface format and one present mode,
/// and anisotropic sampling available.
pub fn is_physical_device_suitable(
    extensions_supported: bool,
    format_count: usize,
    present_mode_count: usize,
    sampler_anisotropy: bool,
) -> (r: bool)
    ensures
        r <==> (extensions_supported && format_count > 0 && present_mode_count > 0
            && sampler_anisotropy),
{
    extensions_supported && format_count > 0 && present_mode_count > 0 && sampler_anisotropy
}

/// Returns the first candidate format whose driver-reported properties
/// cover `features` under `tiling`, or `None` when no candidate does.
/// `properties[i]` belongs to `candidates[i]`.
pub fn find_supported_format(
    candidates: &Vec<u32>,
    properties: &Vec<FormatProperties>,
    tiling: u32,
    features: u32,
) -> (r: Option<u32>)
    requires
        properties@.len() == candidates@.len(),
    ensures
        r matches Some(f) ==> exists|i: int|
            0 <= i < candidates@.len() && f == candidates@[i] && format_supports(
                properties@[i],
                tiling,
                features,
            ) && (forall|j: int| 0 <= j < i ==> !format_supports(properties@[j], tiling, features)),
        r is None ==> forall|j: int|
            0 <= j < candidates@.len() ==> !format_supports(properties@[j], tiling, features),
{
    let n = candidates.len();
    let mut i: usize = 0;
    while i < n
        invariant
            n == candidates@.len(),
            n == properties@.len(),
            i <= n,
            forall|j: int| 0 <= j < i ==> !format_supports(properties@[j], tiling, features),
        decreases n - i,
    {
        let props = properties[i];
        let supported = if tiling == IMAGE_TILING_LINEAR {
            (props.linear_tiling_features & features) == features
        } else if tiling == IMAGE_TILING_OPTIMAL {
            (props.optimal_tiling_features & features) == features
        } else {
            false
        };
        if supported {
            return Some(candidates[i]);
        }
        i = i + 1;
    }
    None
}

} // verus!
