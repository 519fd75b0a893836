use vstd::prelude::*;
use vstd::bytes::{spec_u16_from_le_bytes, spec_u32_from_le_bytes, u16_from_le_bytes, u32_from_le_bytes};
use vstd::slice::slice_subrange;
use crate::errors::LocateError;

verus! {

/// Characteristics bit that marks a section as containing executable code.
pub const SECTION_EXECUTE: u32 = 0x2000_0000;

/// File offset of the 32-bit field that holds the offset of the signature of
/// the modern header.
pub const PE_OFFSET_FIELD: usize = 0x3C;

/// The legacy header region must at least cover `PE_OFFSET_FIELD`.
pub const LEGACY_HEADER_LEN: usize = 0x40;

/// Bytes taken by the 4-byte signature plus the 20-byte file header that
/// precedes the optional header.
pub const PE_COFF_LEN: usize = 24;

/// Size in bytes of one section table entry.
pub const SECTION_ENTRY_LEN: usize = 40;

/// Offset within a section table entry of its size of raw data.
pub const ENTRY_SIZE_FIELD: usize = 16;

/// Offset within a section table entry of its pointer to raw data.
pub const ENTRY_START_FIELD: usize = 20;

/// Offset within a section table entry of its characteristics flags.
pub const ENTRY_FLAGS_FIELD: usize = 36;

/// The 16-bit little-endian value stored at offset `i` of `b`.
pub open spec fn u16_at(b: Seq<u8>, i: int) -> u16 {
    spec_u16_from_le_bytes(b.subrange(i, i + 2))
}

/// The 32-bit little-endian value stored at offset `i` of `b`.
pub open spec fn u32_at(b: Seq<u8>, i: int) -> u32 {
    spec_u32_from_le_bytes(b.subrange(i, i + 4))
}

/// Reads the 16-bit little-endian value at offset `off`.
pub fn read_u16_le(b: &Vec<u8>, off: usize) -> (r: u16)
    requires
        off + 2 <= b@.len(),
    ensures
        r == u16_at(b@, off as int),
{
    let n: usize = b.len();
    assert(off + 2 <= n);
    let s = slice_subrange(b.as_slice(), off, off + 2);
    u16_from_le_bytes(s)
}

/// Reads the 32-bit little-endian value at offset `off`.
pub fn read_u32_le(b: &Vec<u8>, off: usize) -> (r: u32)
    requires
        off + 4 <= b@.len(),
    ensures
        r == u32_at(b@, off as int),
{
    let n: usize = b.len();
    assert(off + 4 <= n);
    let s = slice_subrange(b.as_slice(), off, off + 4);
    u32_from_le_bytes(s)
}

/// One entry of an image's section table: a contiguous file-byte range plus
/// the characteristics flags from which "is executable" is derived.
#[derive(Clone, Copy, Debug, PartialEq, Eq, Structural)]
pub struct Section {
    pub start: usize,
    pub size: usize,
    pub flags: u32,
}

impl Section {
    /// The section's byte range lies inside a buffer of length `len`.
    pub open spec fn within(&self, len: int) -> bool {
        self.start + self.size <= len
    }

    /// The characteristics flags mark this section as executable.
    pub open spec fn spec_is_executable(&self) -> bool {
        self.flags & SECTION_EXECUTE != 0
    }

    /// Whether scanning should consider this section at all: only code
    /// regions are searched for the signature.
    pub fn is_executable(&self) -> (r: bool)
        ensures
            r == self.spec_is_executable(),
    {
        self.flags & SECTION_EXECUTE != 0
    }
}

/// Every section range fits inside the buffer, and the buffer itself fits the
/// 32-bit address arithmetic that displacement resolution performs.
pub open spec fn table_within(bytes: Seq<u8>, sections: Seq<Section>) -> bool {
    &&& bytes.len() <= u32::MAX
    &&& forall|i: int|
        0 <= i < sections.len() ==> (#[trigger] sections[i]).within(bytes.len() as int)
}

/// An immutable executable-image buffer together with its parsed section
/// table. The invariant that no section range exceeds the buffer is
/// established at construction and relied on by every scan.
pub struct ExecutableImage {
    pub bytes: Vec<u8>,
    pub sections: Vec<Section>,
}

impl ExecutableImage {
    /// Construction-time invariant: all section ranges lie inside the buffer.
    pub open spec fn wf(&self) -> bool {
        table_within(self.bytes@, self.sections@)
    }

    /// Builds an image from a buffer and an already-enumerated section table,
    /// rejecting any table whose ranges exceed the buffer: that is a fatal
    /// parse error, not a recoverable condition.
    pub fn new(bytes: Vec<u8>, sections: Vec<Section>) -> (r: Result<ExecutableImage, LocateError>)
        ensures
            match r {
                Ok(img) => {
                    &&& table_within(bytes@, sections@)
                    &&& img.wf()
                    &&& img.bytes@ == bytes@
                    &&& img.sections@ == sections@
                },
                Err(e) => e is ImageParse && !table_within(bytes@, sections@),
            },
    {
        let len = bytes.len();
        if len > 0xFFFF_FFFF {
            return Err(LocateError::ImageParse);
        }
        let n = sections.len();
        let mut i: usize = 0;
        while i < n
            invariant
                n == sections@.len(),
                len == bytes@.len(),
                0 <= i <= n,
                forall|j: int|
                    0 <= j < i ==> (#[trigger] sections@[j]).within(len as int),
            decreases n - i,
        {
            let s = sections[i];
            if s.start > len || s.size > len - s.start {
                return Err(LocateError::ImageParse);
            }
            i = i + 1;
        }
        Ok(ExecutableImage { bytes, sections })
    }
}

/// File offset of the modern header's signature, as stored in the legacy
/// header.
pub open spec fn pe_off(b: Seq<u8>) -> int {
    u32_at(b, PE_OFFSET_FIELD as int) as int
}

/// The fixed headers are present: legacy magic, an in-bounds signature
/// offset, and the signature bytes themselves.
pub open spec fn header_ok(b: Seq<u8>) -> bool {
    &&& b.len() <= u32::MAX
    &&& LEGACY_HEADER_LEN <= b.len()
    &&& b[0] == 0x4Du8
    &&& b[1] == 0x5Au8
    &&& pe_off(b) + PE_COFF_LEN <= b.len()
    &&& b[pe_off(b)] == 0x50u8
    &&& b[pe_off(b) + 1] == 0x45u8
    &&& b[pe_off(b) + 2] == 0x00u8
    &&& b[pe_off(b) + 3] == 0x00u8
}

/// Number of entries in the section table.
pub open spec fn section_count(b: Seq<u8>) -> int {
    u16_at(b, pe_off(b) + 6) as int
}

/// Declared length of the optional header that sits between the file header
/// and the section table.
pub open spec fn opt_header_len(b: Seq<u8>) -> int {
    u16_at(b, pe_off(b) + 20) as int
}

/// File offset of the first section table entry.
pub open spec fn table_off(b: Seq<u8>) -> int {
    pe_off(b) + PE_COFF_LEN + opt_header_len(b)
}

/// The whole section table lies inside the buffer.
pub open spec fn table_fits(b: Seq<u8>) -> bool {
    table_off(b) + section_count(b) * SECTION_ENTRY_LEN <= b.len()
}

/// The section described by table entry `i`: its file-byte range and its
/// characteristics flags.
pub open spec fn section_entry(b: Seq<u8>, i: int) -> Section {
    let e = table_off(b) + i * SECTION_ENTRY_LEN;
    Section {
        start: u32_at(b, e + ENTRY_START_FIELD) as usize,
        size: u32_at(b, e + ENTRY_SIZE_FIELD) as usize,
        flags: u32_at(b, e + ENTRY_FLAGS_FIELD),
    }
}

/// Every declared section range lies inside the buffer.
pub open spec fn sections_within(b: Seq<u8>) -> bool {
    forall|i: int|
        0 <= i < section_count(b) ==> (#[trigger] section_entry(b, i)).within(b.len() as int)
}

/// The buffer is a well-formed executable image: headers present, section
/// table in bounds, and no section range exceeding the buffer.
pub open spec fn image_well_formed(b: Seq<u8>) -> bool {
    &&& header_ok(b)
    &&& table_fits(b)
    &&& sections_within(b)
}

/// Parses the section table out of a flat image buffer. Succeeds exactly on
/// well-formed images; any header or section-table inconsistency is the fatal
/// `ImageParse` error, reported before any scanning happens.
pub fn parse_image(bytes: Vec<u8>) -> (r: Result<ExecutableImage, LocateError>)
    ensures
        match r {
            Ok(img) => {
                &&& image_well_formed(bytes@)
                &&& img.wf()
                &&& img.bytes@ == bytes@
                &&& img.sections@.len() == section_count(bytes@)
                &&& forall|i: int|
                    0 <= i < img.sections@.len() ==> img.sections@[i] == section_entry(bytes@, i)
            },
            Err(e) => e is ImageParse && !image_well_formed(bytes@),
        },
{
    let len = bytes.len();
    if len > 0xFFFF_FFFF || len < LEGACY_HEADER_LEN {
        return Err(LocateError::ImageParse);
    }
    if bytes[0] != 0x4D || bytes[1] != 0x5A {
        return Err(LocateError::ImageParse);
    }
    let pe = read_u32_le(&bytes, PE_OFFSET_FIELD) as usize;
    if pe > len - PE_COFF_LEN {
        return Err(LocateError::ImageParse);
    }
    if bytes[pe] != 0x50 || bytes[pe + 1] != 0x45 || bytes[pe + 2] != 0x00 || bytes[pe + 3] != 0x00 {
        return Err(LocateError::ImageParse);
    }
    let nsec = read_u16_le(&bytes, pe + 6) as usize;
    let opt = read_u16_le(&bytes, pe + 20) as usize;
    if opt > len - (pe + PE_COFF_LEN) {
        return Err(LocateError::ImageParse);
    }
    let table = pe + PE_COFF_LEN + opt;
    let need: u64 = (nsec as u64) * (SECTION_ENTRY_LEN as u64);
    if need > (len - table) as u64 {
        return Err(LocateError::ImageParse);
    }
    let mut sections: Vec<Section> = Vec::new();
    let mut i: usize = 0;
    while i < nsec
        invariant
            len == bytes@.len(),
            len <= u32::MAX,
            table == table_off(bytes@),
            nsec == section_count(bytes@),
            table + nsec * SECTION_ENTRY_LEN <= len,
            0 <= i <= nsec,
            sections@.len() == i,
            forall|j: int|
                0 <= j < i ==> sections@[j] == section_entry(bytes@, j)
                    && (#[trigger] sections@[j]).within(len as int),
        decreases nsec - i,
    {
        let e = table + i * SECTION_ENTRY_LEN;
        let start = read_u32_le(&bytes, e + ENTRY_START_FIELD) as usize;
        let size = read_u32_le(&bytes, e + ENTRY_SIZE_FIELD) as usize;
        let flags = read_u32_le(&bytes, e + ENTRY_FLAGS_FIELD);
        if start > len || size > len - start {
            assert(!(section_entry(bytes@, i as int).within(len as int)));
            return Err(LocateError::ImageParse);
        }
        sections.push(Section { start, size, flags });
        assert(sections@[i as int] == section_entry(bytes@, i as int));
        i = i + 1;
    }
    proof {
        assert forall|j: int| 0 <= j < section_count(bytes@) implies (#[trigger] section_entry(
            bytes@,
            j,
        )).within(bytes@.len() as int) by {
            assert(sections@[j] == section_entry(bytes@, j));
        }
    }
    Ok(ExecutableImage { bytes, sections })
}

} // verus!
