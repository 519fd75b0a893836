use vstd::prelude::*;

verus! {

/// A fatal failure of the locate-key operation.
///
/// The "key not present" outcome is deliberately not represented here: a
/// binary build that does not contain the recognized code shape is a valid,
/// expected result and is reported through `LocateOutcome::NotPresent`, never
/// as an error.
#[derive(Clone, Copy, Debug, PartialEq, Eq, Structural)]
pub enum LocateError {
    /// The input bytes do not form a well-formed executable image, or the
    /// section table is inconsistent (for example, a section's byte range
    /// exceeds the buffer length). Retrying with the same bytes cannot
    /// succeed.
    ImageParse,
    /// A resolved address, or one of the fixed-size extraction windows around
    /// it, falls outside the image. `match_offset` is the file offset where
    /// the pattern matched and `address` the absolute address the displacement
    /// resolved to, so the caller can diagnose the corrupted or unsupported
    /// binary.
    AddressOutOfBounds { match_offset: usize, address: u32 },
}

} // verus!
