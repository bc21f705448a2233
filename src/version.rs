//! Packed API version numbers: a 3-bit variant, 7-bit major, 10-bit minor and
//! 12-bit patch field in one `u32`.

use vstd::prelude::*;

verus! {

/// The value of a packed version whose fields each fit their bit width.
pub open spec fn packed_version(variant: int, major: int, minor: int, patch: int) -> int {
    variant * 0x2000_0000 + major * 0x40_0000 + minor * 0x1000 + patch
}

/// Whether the four fields fit their widths (3, 7, 10 and 12 bits).
pub open spec fn version_fields_fit(variant: u32, major: u32, minor: u32, patch: u32) -> bool {
    variant < 8 && major < 128 && minor < 1024 && patch < 4096
}

/// Packs a version number: `variant << 29 | major << 22 | minor << 12 | patch`,
/// with the bits shifted past the top of the word dropped.
pub fn make_version(variant: u32, major: u32, minor: u32, patch: u32) -> (r: u32)
    ensures
        r == ((variant << 29u32) | (major << 22u32) | (minor << 12u32) | patch),
        version_fields_fit(variant, major, minor, patch) ==> r as int == packed_version(
            variant as int,
            major as int,
            minor as int,
            patch as int,
        ),
        version_fields_fit(variant, major, minor, patch) ==> (r >> 29u32) == variant && ((r
            >> 22u32) & 0x7f) == major && ((r >> 12u32) & 0x3ff) == minor && (r & 0xfff) == patch,
{
    let r = (variant << 29u32) | (major << 22u32) | (minor << 12u32) | patch;
    proof {
        if version_fields_fit(variant, major, minor, patch) {
            assert(r == variant * 0x2000_0000 + major * 0x40_0000 + minor * 0x1000 + patch
                && (r >> 29u32) == variant && ((r >> 22u32) & 0x7f) == major && ((r >> 12u32)
                & 0x3ff) == minor && (r & 0xfff) == patch) by (bit_vector)
                requires
                    r == ((variant << 29u32) | (major << 22u32) | (minor << 12u32) | patch),
                    variant < 8,
                    major < 128,
                    minor < 1024,
                    patch < 4096,
            ;
        }
    }
    r
}

/// The graphics API version the renderer asks for.
#[derive(Clone, Copy, Debug, PartialEq, Eq, Structural)]
pub struct Info {
    pub api_version: u32,
}

impl Info {
    /// Version 1.3.0 with variant 1: `make_version(1, 3, 0, 0)`.
    pub fn new() -> (r: Info)
        ensures
            r.api_version == 0x20c0_0000,
    {
        let api_version = make_version(1, 3, 0, 0);
        Info { api_version }
    }
}

} // verus!
