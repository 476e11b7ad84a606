//! Packed Vulkan version numbers.
//!
//! Vulkan packs a version into one `u32`: bits 29..32 hold the variant,
//! bits 22..29 the major number, bits 12..22 the minor number and bits 0..12
//! the patch number.
use vstd::prelude::*;

verus! {

/// A version number with its three fields taken apart.
#[derive(Debug, PartialEq, Eq, Structural)]
pub struct Version {
    pub major: u32,
    pub minor: u32,
    pub patch: u32,
}

/// The major number of a packed version: seven bits from bit 22 on.
pub open spec fn major_of(version: u32) -> int {
    (version as int / 0x40_0000) % 0x80
}

/// The minor number of a packed version: ten bits from bit 12 on.
pub open spec fn minor_of(version: u32) -> int {
    (version as int / 0x1000) % 0x400
}

/// The patch number of a packed version: its twelve low bits.
pub open spec fn patch_of(version: u32) -> int {
    version as int % 0x1000
}

/// The version that a packed number stands for.
pub open spec fn version_of(version: u32) -> Version {
    Version {
        major: major_of(version) as u32,
        minor: minor_of(version) as u32,
        patch: patch_of(version) as u32,
    }
}

/// The packed number of a version with variant 0.
pub open spec fn packed(major: int, minor: int, patch: int) -> int {
    major * 0x40_0000 + minor * 0x1000 + patch
}

/// Whether each field of a version fits in its bits of the packed form.
pub open spec fn fits(v: Version) -> bool {
    v.major < 0x80 && v.minor < 0x400 && v.patch < 0x1000
}

/// Takes the major number out of a packed Vulkan version.
pub fn api_version_major(version: u32) -> (r: u32)
    ensures
        r == major_of(version),
{
    proof {
        assert((version >> 22u32) & 0x7fu32 == (version / 0x40_0000u32) % 0x80u32) by (bit_vector);
    }
    (version >> 22u32) & 0x7fu32
}

/// Takes the minor number out of a packed Vulkan version.
pub fn api_version_minor(version: u32) -> (r: u32)
    ensures
        r == minor_of(version),
{
    proof {
        assert((version >> 12u32) & 0x3ffu32 == (version / 0x1000u32) % 0x400u32) by (bit_vector);
    }
    (version >> 12u32) & 0x3ffu32
}

/// Takes the patch number out of a packed Vulkan version.
pub fn api_version_patch(version: u32) -> (r: u32)
    ensures
        r == patch_of(version),
{
    proof {
        assert(version & 0xfffu32 == version % 0x1000u32) by (bit_vector);
    }
    version & 0xfffu32
}

/// Splits a driver version, as the Vulkan API packs it, into its major,
/// minor and patch numbers. The variant bits are not kept.
pub fn version_from_vulkan(driver_version: u32) -> (v: Version)
    ensures
        v == version_of(driver_version),
        v.major == major_of(driver_version),
        v.minor == minor_of(driver_version),
        v.patch == patch_of(driver_version),
        fits(v),
{
    Version {
        major: api_version_major(driver_version),
        minor: api_version_minor(driver_version),
        patch: api_version_patch(driver_version),
    }
}

/// Decoding loses nothing but the variant: packing the decoded fields again
/// gives back the number with its three variant bits cleared.
pub proof fn lemma_pack_of_decoded(version: u32)
    ensures
        packed(
            version_of(version).major as int,
            version_of(version).minor as int,
            version_of(version).patch as int,
        ) == version as int % 0x2000_0000,
{
    assert(((version / 0x40_0000u32) % 0x80u32) * 0x40_0000u32 + ((version / 0x1000u32) % 0x400u32)
        * 0x1000u32 + version % 0x1000u32 == version % 0x2000_0000u32) by (bit_vector);
}

/// Decoding the packed form of a version whose fields fit gives that version
/// back.
pub proof fn lemma_decode_of_packed(v: Version)
    requires
        fits(v),
    ensures
        packed(v.major as int, v.minor as int, v.patch as int) < 0x2000_0000,
        version_of(packed(v.major as int, v.minor as int, v.patch as int) as u32) == v,
{
    let major = v.major;
    let minor = v.minor;
    let patch = v.patch;
    assert(major * 0x40_0000u32 + minor * 0x1000u32 + patch < 0x2000_0000u32 && {
        let p: u32 = (major * 0x40_0000u32 + minor * 0x1000u32 + patch) as u32;
        &&& (p / 0x40_0000u32) % 0x80u32 == major
        &&& (p / 0x1000u32) % 0x400u32 == minor
        &&& p % 0x1000u32 == patch
    }) by (bit_vector)
        requires
            major < 0x80u32,
            minor < 0x400u32,
            patch < 0x1000u32,
    ;
}

/// Two packed numbers decode to the same version exactly when they agree in
/// all bits but the variant bits.
pub proof fn lemma_same_version_iff(a: u32, b: u32)
    ensures
        version_of(a) == version_of(b) <==> a as int % 0x2000_0000 == b as int % 0x2000_0000,
{
    lemma_pack_of_decoded(a);
    lemma_pack_of_decoded(b);
    if a as int % 0x2000_0000 == b as int % 0x2000_0000 {
        assert(a % 0x2000_0000u32 == b % 0x2000_0000u32 ==> {
            &&& (a / 0x40_0000u32) % 0x80u32 == (b / 0x40_0000u32) % 0x80u32
            &&& (a / 0x1000u32) % 0x400u32 == (b / 0x1000u32) % 0x400u32
            &&& a % 0x1000u32 == b % 0x1000u32
        }) by (bit_vector);
    }
}

} // verus!
