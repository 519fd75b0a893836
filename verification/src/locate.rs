use vstd::prelude::*;
use vstd::slice::{slice_subrange, slice_to_vec};
use crate::errors::LocateError;
use crate::image::{u32_at, read_u32_le, Section, ExecutableImage};
use crate::pattern::{PatElem, BytePattern, matches_at, found_at, scan_range};

verus! {

/// Number of bytes of the displacement operand inside the matched
/// instruction bytes.
pub const DISPLACEMENT_LEN: usize = 4;

/// Length of the key window read immediately before the resolved address.
pub const KEY_LEN: usize = 32;

/// Length of the initialization-vector window read at the resolved address.
pub const IV_LEN: usize = 16;

/// The signed value of the 4-byte little-endian displacement stored at `off`:
/// the stored 32-bit word read in two's complement.
pub open spec fn displacement_at(b: Seq<u8>, off: int) -> int {
    let w = u32_at(b, off) as int;
    if w >= 0x8000_0000 {
        w - 0x1_0000_0000
    } else {
        w
    }
}

/// The absolute in-image address the displacement at `off` resolves to: the
/// address of the byte immediately following the displacement field, plus the
/// signed displacement, with wrapping 32-bit addition. The wrapping is a
/// contract, matching the target instruction set's own wraparound behaviour,
/// not an incidental detail.
pub open spec fn resolved_address(b: Seq<u8>, off: int) -> int {
    (off + DISPLACEMENT_LEN + displacement_at(b, off)) % 0x1_0000_0000
}

/// Reads the 4-byte little-endian signed displacement at `off` and combines
/// it with the address of the byte immediately following the field, modulo
/// 2^32.
pub fn resolve_displacement(bytes: &Vec<u8>, off: usize) -> (r: u32)
    requires
        off + DISPLACEMENT_LEN <= bytes@.len(),
        bytes@.len() <= u32::MAX,
    ensures
        r as int == resolved_address(bytes@, off as int),
{
    let w = read_u32_le(bytes, off);
    let sum: u64 = (off as u64) + (DISPLACEMENT_LEN as u64) + (w as u64);
    let r: u32 = (sum % 0x1_0000_0000) as u32;
    proof {
        let base = off as int + DISPLACEMENT_LEN as int;
        let d = displacement_at(bytes@, off as int);
        if w as int >= 0x8000_0000 {
            vstd::arithmetic::div_mod::lemma_mod_add_multiples_vanish(base + d, 0x1_0000_0000);
        }
    }
    r
}

/// The 32-byte window immediately preceding the resolved address.
pub open spec fn key_window(b: Seq<u8>, addr: int) -> Seq<u8> {
    b.subrange(addr - KEY_LEN, addr)
}

/// The 16-byte window starting at the resolved address.
pub open spec fn iv_window(b: Seq<u8>, addr: int) -> Seq<u8> {
    b.subrange(addr, addr + IV_LEN)
}

/// Both extraction windows around `addr` lie fully inside a buffer of length
/// `len`.
pub open spec fn address_in_bounds(addr: int, len: int) -> bool {
    &&& KEY_LEN <= addr
    &&& addr + IV_LEN <= len
}

/// The extracted secret: a fixed-size key and initialization vector, read
/// verbatim from the image and never mutated afterwards. Any textual encoding
/// happens strictly at the output boundary.
#[derive(Debug)]
pub struct SecretMaterial {
    pub key: Vec<u8>,
    pub iv: Vec<u8>,
}

impl SecretMaterial {
    /// Both windows have their contracted fixed lengths.
    pub open spec fn wf(&self) -> bool {
        &&& self.key@.len() == KEY_LEN
        &&& self.iv@.len() == IV_LEN
    }
}

/// Reads the key and initialization-vector windows around the validated
/// address `address`. A window that does not lie fully inside the image is
/// the fatal `AddressOutOfBounds` error, never a truncated read: a match
/// implies the binary's shape was recognized, so an out-of-bounds window
/// means a corrupted or unsupported binary and must be surfaced.
pub fn extract_secret(bytes: &Vec<u8>, match_offset: usize, address: u32) -> (r: Result<
    SecretMaterial,
    LocateError,
>)
    ensures
        match r {
            Ok(m) => {
                &&& address_in_bounds(address as int, bytes@.len() as int)
                &&& m.key@ == key_window(bytes@, address as int)
                &&& m.iv@ == iv_window(bytes@, address as int)
                &&& m.wf()
            },
            Err(e) => {
                &&& !address_in_bounds(address as int, bytes@.len() as int)
                &&& e == (LocateError::AddressOutOfBounds { match_offset, address })
            },
        },
{
    let len = bytes.len();
    let a = address as usize;
    if a < KEY_LEN || len < IV_LEN || a > len - IV_LEN {
        return Err(LocateError::AddressOutOfBounds { match_offset, address });
    }
    let key = slice_to_vec(slice_subrange(bytes.as_slice(), a - KEY_LEN, a));
    let iv = slice_to_vec(slice_subrange(bytes.as_slice(), a, a + IV_LEN));
    Ok(SecretMaterial { key, iv })
}

/// The two valid terminal outcomes of a locate-key operation. Fatal failures
/// are the `LocateError` values beside it; "key not present" is distinguished
/// from them at the type level so a caller cannot mistake an absent key for a
/// crash.
#[derive(Debug)]
pub enum LocateOutcome {
    /// The signature matched and both windows were read.
    Found(SecretMaterial),
    /// No executable section matched the signature: this binary build does
    /// not contain the recognized key-loading shape.
    NotPresent,
}

/// Some offset of section `s` matches the pattern.
pub open spec fn sec_match_exists(bytes: Seq<u8>, s: Section, pat: Seq<PatElem>) -> bool {
    exists|k: int|
        s.start <= k && k + pat.len() <= s.start + s.size && #[trigger] matches_at(bytes, pat, k)
}

/// No executable section of the table matches the pattern anywhere.
pub open spec fn no_key_present(bytes: Seq<u8>, sections: Seq<Section>, pat: Seq<PatElem>) -> bool {
    forall|i: int|
        0 <= i < sections.len() && (#[trigger] sections[i]).spec_is_executable()
            ==> !sec_match_exists(bytes, sections[i], pat)
}

/// `k` is the match the scan stops at: the earliest match inside section `i`,
/// where `i` is the first executable section of the table (in ascending table
/// order) that matches at all. This pins the tie-breaking order: it is the
/// section table order, deterministic and reproducible for the same image
/// bytes.
pub open spec fn is_first_match(
    bytes: Seq<u8>,
    sections: Seq<Section>,
    pat: Seq<PatElem>,
    i: int,
    k: int,
) -> bool {
    &&& 0 <= i < sections.len()
    &&& sections[i].spec_is_executable()
    &&& found_at(bytes, pat, sections[i].start as int, sections[i].start + sections[i].size, k)
    &&& forall|j: int|
        0 <= j < i && (#[trigger] sections[j]).spec_is_executable() ==> !sec_match_exists(
            bytes,
            sections[j],
            pat,
        )
}

/// The locate-key operation: scans the executable sections in table order,
/// stops at the first match, resolves the displacement it captured and
/// extracts the secret windows. Returns `NotPresent` exactly when no
/// executable section matches; returns `AddressOutOfBounds` exactly when the
/// first match resolves to an address whose windows leave the image.
pub fn locate_key(image: &ExecutableImage, pat: &BytePattern) -> (r: Result<
    LocateOutcome,
    LocateError,
>)
    requires
        image.wf(),
        pat.wf(),
        pat.run_len == DISPLACEMENT_LEN,
    ensures
        match r {
            Ok(LocateOutcome::NotPresent) => no_key_present(
                image.bytes@,
                image.sections@,
                pat.elems@,
            ),
            Ok(LocateOutcome::Found(m)) => exists|i: int, k: int|
                {
                    &&& #[trigger] is_first_match(image.bytes@, image.sections@, pat.elems@, i, k)
                    &&& address_in_bounds(
                        resolved_address(image.bytes@, k + pat.run_start),
                        image.bytes@.len() as int,
                    )
                    &&& m.key@ == key_window(
                        image.bytes@,
                        resolved_address(image.bytes@, k + pat.run_start),
                    )
                    &&& m.iv@ == iv_window(
                        image.bytes@,
                        resolved_address(image.bytes@, k + pat.run_start),
                    )
                },
            Err(e) => {
                &&& e matches LocateError::AddressOutOfBounds { match_offset, address }
                &&& exists|i: int|
                    #[trigger] is_first_match(
                        image.bytes@,
                        image.sections@,
                        pat.elems@,
                        i,
                        e->AddressOutOfBounds_match_offset as int,
                    )
                &&& e->AddressOutOfBounds_address as int == resolved_address(
                    image.bytes@,
                    e->AddressOutOfBounds_match_offset + pat.run_start,
                )
                &&& !address_in_bounds(
                    e->AddressOutOfBounds_address as int,
                    image.bytes@.len() as int,
                )
            },
        },
{
    let nsec = image.sections.len();
    let mut i: usize = 0;
    while i < nsec
        invariant
            image.wf(),
            pat.wf(),
            pat.run_len == DISPLACEMENT_LEN,
            nsec == image.sections@.len(),
            0 <= i <= nsec,
            forall|j: int|
                0 <= j < i && (#[trigger] image.sections@[j]).spec_is_executable()
                    ==> !sec_match_exists(image.bytes@, image.sections@[j], pat.elems@),
        decreases nsec - i,
    {
        let s = image.sections[i];
        if s.is_executable() {
            let lo = s.start;
            let hi = s.start + s.size;
            match scan_range(&image.bytes, pat, lo, hi) {
                Some(m) => {
                    let addr = resolve_displacement(&image.bytes, m.run_offset);
                    match extract_secret(&image.bytes, m.offset, addr) {
                        Ok(mat) => {
                            proof {
                                assert(is_first_match(
                                    image.bytes@,
                                    image.sections@,
                                    pat.elems@,
                                    i as int,
                                    m.offset as int,
                                ));
                            }
                            return Ok(LocateOutcome::Found(mat));
                        },
                        Err(e) => {
                            proof {
                                assert(is_first_match(
                                    image.bytes@,
                                    image.sections@,
                                    pat.elems@,
                                    i as int,
                                    m.offset as int,
                                ));
                            }
                            return Err(e);
                        },
                    }
                },
                None => {
                    proof {
                        assert(!sec_match_exists(
                            image.bytes@,
                            image.sections@[i as int],
                            pat.elems@,
                        ));
                    }
                },
            }
        } else {
        }
        i = i + 1;
    }
    Ok(LocateOutcome::NotPresent)
}

} // verus!
