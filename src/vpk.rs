//! The header of a Valve pack (VPK) directory file.

use vstd::prelude::*;

verus! {

/// The little-endian number in the four bytes at `i`.
pub open spec fn le_u32(b: Seq<u8>, i: int) -> int {
    b[i] as int + b[i + 1] as int * 0x100 + b[i + 2] as int * 0x1_0000 + b[i + 3] as int * 0x100_0000
}

/// Why bytes are not a VPK header.
#[derive(Debug, PartialEq, Eq, Structural)]
pub enum VpkError {
    /// The bytes are too short or break a rule of the header.
    Parse,
}

/// The fields that version 2 adds.
#[derive(Debug, Clone, Copy, PartialEq, Eq, Structural)]
pub struct HeaderV2 {
    pub data_length: u32,
    pub archive_md5_length: u32,
    pub local_md5_length: u32,
    pub signature_length: u32,
}

/// The header: signature, version, length of the directory tree, and the
/// version 2 fields.
#[derive(Debug, Clone, Copy, PartialEq, Eq, Structural)]
pub struct Header {
    pub signature: u32,
    pub version: u32,
    pub tree_length: u32,
    pub v2: Option<HeaderV2>,
}

/// The header that `b` starts with, and its length in bytes.
pub open spec fn header_of(b: Seq<u8>) -> Option<(Header, int)> {
    if b.len() < 12 {
        None
    } else {
        let signature = le_u32(b, 0);
        let version = le_u32(b, 4);
        let tree_length = le_u32(b, 8);
        if signature != Header::SIGNATURE || !(version == 1 || version == 2) {
            None
        } else if version == 1 {
            Some((Header { signature: signature as u32, version: 1, tree_length: tree_length as u32, v2: None }, 12))
        } else if b.len() < 28 || le_u32(b, 16) % 28 != 0 || le_u32(b, 20) != 48 {
            None
        } else {
            Some(
                (
                    Header {
                        signature: signature as u32,
                        version: 2,
                        tree_length: tree_length as u32,
                        v2: Some(
                            HeaderV2 {
                                data_length: le_u32(b, 12) as u32,
                                archive_md5_length: le_u32(b, 16) as u32,
                                local_md5_length: le_u32(b, 20) as u32,
                                signature_length: le_u32(b, 24) as u32,
                            },
                        ),
                    },
                    28,
                ),
            )
        }
    }
}

/// A version 2 field of a header, or 0 for another version.
pub open spec fn v2_field(h: Header, f: spec_fn(HeaderV2) -> u32) -> int {
    if h.version == 2 && h.v2 is Some {
        f(h.v2->Some_0) as int
    } else {
        0
    }
}

fn read_u32(b: &[u8], i: usize) -> (r: u32)
    requires
        i + 4 <= b@.len(),
    ensures
        r == le_u32(b@, i as int),
{
    let b0 = b[i] as u64;
    let b1 = b[i + 1] as u64;
    let b2 = b[i + 2] as u64;
    let b3 = b[i + 3] as u64;
    assert(b0 + b1 * 0x100 + b2 * 0x1_0000 + b3 * 0x100_0000 <= 0xFFFF_FFFF) by (nonlinear_arith)
        requires
            b0 <= 255,
            b1 <= 255,
            b2 <= 255,
            b3 <= 255,
    ;
    (b0 + b1 * 0x100 + b2 * 0x1_0000 + b3 * 0x100_0000) as u32
}

impl Header {
    pub const SIGNATURE: u32 = 0x55aa1234;
    pub const V1_LENGTH: u64 = 12;
    pub const V2_LENGTH: u64 = 28;

    /// Reads the header at the start of `b`: the header and its length.
    pub fn parse(b: &[u8]) -> (r: Result<(Header, usize), VpkError>)
        ensures
            match header_of(b@) {
                Some((h, n)) => r == Ok::<(Header, usize), VpkError>((h, n as usize)),
                None => r == Err::<(Header, usize), VpkError>(VpkError::Parse),
            },
    {
        if b.len() < 12 {
            return Err(VpkError::Parse);
        }
        let signature = read_u32(b, 0);
        let version = read_u32(b, 4);
        let tree_length = read_u32(b, 8);
        if signature != Self::SIGNATURE || !(version == 1 || version == 2) {
            return Err(VpkError::Parse);
        }
        if version == 1 {
            return Ok((Header { signature, version, tree_length, v2: None }, 12));
        }
        if b.len() < 28 {
            return Err(VpkError::Parse);
        }
        let data_length = read_u32(b, 12);
        let archive_md5_length = read_u32(b, 16);
        let local_md5_length = read_u32(b, 20);
        let signature_length = read_u32(b, 24);
        if archive_md5_length % 28 != 0 || local_md5_length != 48 {
            return Err(VpkError::Parse);
        }
        let v2 = HeaderV2 { data_length, archive_md5_length, local_md5_length, signature_length };
        Ok((Header { signature, version, tree_length, v2: Some(v2) }, 28))
    }

    /// Where the file data starts: after the header and the directory tree.
    pub fn data_offset(&self) -> (r: u64)
        ensures
            r == self.tree_length as int + if self.version == 1 {
                Self::V1_LENGTH as int
            } else if self.version == 2 {
                Self::V2_LENGTH as int
            } else {
                0
            },
    {
        let mut offset = self.tree_length as u64;
        if self.version == 1 {
            offset = offset + Self::V1_LENGTH;
        } else if self.version == 2 {
            offset = offset + Self::V2_LENGTH;
        }
        offset
    }

    /// The length of the file data stored in the directory file.
    pub fn data_length(&self) -> (r: usize)
        ensures
            r == v2_field(*self, |v: HeaderV2| v.data_length),
    {
        if self.version == 2 {
            if let Some(v2) = &self.v2 {
                return v2.data_length as usize;
            }
        }
        0
    }

    /// The length of the archive checksum section.
    pub fn archive_md5_length(&self) -> (r: usize)
        ensures
            r == v2_field(*self, |v: HeaderV2| v.archive_md5_length),
    {
        if self.version == 2 {
            if let Some(v2) = &self.v2 {
                return v2.archive_md5_length as usize;
            }
        }
        0
    }

    /// The length of the local checksum section.
    pub fn local_md5_length(&self) -> (r: usize)
        ensures
            r == v2_field(*self, |v: HeaderV2| v.local_md5_length),
    {
        if self.version == 2 {
            if let Some(v2) = &self.v2 {
                return v2.local_md5_length as usize;
            }
        }
        0
    }

    /// The length of the signature section.
    pub fn signature_length(&self) -> (r: usize)
        ensures
            r == v2_field(*self, |v: HeaderV2| v.signature_length),
    {
        if self.version == 2 {
            if let Some(v2) = &self.v2 {
                return v2.signature_length as usize;
            }
        }
        0
    }
}

} // verus!
