use vstd::prelude::*;
use base64::Engine;
use crate::errors::LocateError;
use crate::image::{ExecutableImage, Section, image_well_formed, section_count, section_entry};
use crate::locate::{
    DISPLACEMENT_LEN, SecretMaterial, LocateOutcome, locate_key, resolved_address,
    address_in_bounds, key_window, iv_window, is_first_match, no_key_present,
};
use crate::pattern::{PatElem, BytePattern};

verus! {

/// What the standard base64 engine produces for a byte sequence. The encoding
/// depends on the input bytes alone, so it is given a name rather than a
/// restatement of the whole alphabet table.
pub uninterp spec fn base64_of(b: Seq<u8>) -> Seq<char>;

/// Relies on base64's `Engine::encode` with the standard padded engine: a
/// pure function of the input bytes, emitting four output characters for
/// every three input bytes, the last group padded.
#[verifier::external_body]
fn encode_base64(b: &Vec<u8>) -> (r: String)
    ensures
        r@ == base64_of(b@),
        r@.len() == 4 * ((b@.len() + 2) / 3),
{
    base64::engine::general_purpose::STANDARD.encode(b.as_slice())
}

/// The located network-encryption secret, both parts base64-encoded at this
/// output boundary and never mutated afterwards.
#[derive(Debug)]
pub struct NetKey {
    pub key: String,
    pub iv: String,
}

/// Encodes the two extracted windows for the result report.
pub fn net_key_from_material(m: &SecretMaterial) -> (r: NetKey)
    ensures
        r.key@ == base64_of(m.key@),
        r.iv@ == base64_of(m.iv@),
{
    NetKey { key: encode_base64(&m.key), iv: encode_base64(&m.iv) }
}

/// Position of the displacement operand's wildcard run inside the net-key
/// signature: the run sits after the three opcode bytes of the
/// address-forming instruction that begins at byte 8 of the match.
pub const NET_KEY_RUN_START: usize = 11;

/// The instruction byte sequence the compiler emits where the program loads
/// the network-encryption key, with the 4-byte relocatable displacement left
/// as wildcards.
pub open spec fn net_key_signature() -> Seq<PatElem> {
    seq![
        PatElem::Exact(0xC7),
        PatElem::Exact(0x44),
        PatElem::Exact(0x24),
        PatElem::Exact(0x38),
        PatElem::Exact(0x10),
        PatElem::Exact(0x00),
        PatElem::Exact(0x00),
        PatElem::Exact(0x00),
        PatElem::Exact(0x48),
        PatElem::Exact(0x8D),
        PatElem::Exact(0x05),
        PatElem::Wildcard,
        PatElem::Wildcard,
        PatElem::Wildcard,
        PatElem::Wildcard,
        PatElem::Exact(0x48),
        PatElem::Exact(0xF7),
        PatElem::Exact(0xD1),
    ]
}

/// Builds the executable form of the net-key signature.
pub fn net_key_pattern() -> (p: BytePattern)
    ensures
        p.wf(),
        p.elems@ == net_key_signature(),
        p.run_start == NET_KEY_RUN_START,
        p.run_len == DISPLACEMENT_LEN,
{
    let mut elems: Vec<PatElem> = Vec::new();
    elems.push(PatElem::Exact(0xC7));
    elems.push(PatElem::Exact(0x44));
    elems.push(PatElem::Exact(0x24));
    elems.push(PatElem::Exact(0x38));
    elems.push(PatElem::Exact(0x10));
    elems.push(PatElem::Exact(0x00));
    elems.push(PatElem::Exact(0x00));
    elems.push(PatElem::Exact(0x00));
    elems.push(PatElem::Exact(0x48));
    elems.push(PatElem::Exact(0x8D));
    elems.push(PatElem::Exact(0x05));
    elems.push(PatElem::Wildcard);
    elems.push(PatElem::Wildcard);
    elems.push(PatElem::Wildcard);
    elems.push(PatElem::Wildcard);
    elems.push(PatElem::Exact(0x48));
    elems.push(PatElem::Exact(0xF7));
    elems.push(PatElem::Exact(0xD1));
    proof {
        assert(elems@ =~= net_key_signature());
    }
    BytePattern { elems, run_start: NET_KEY_RUN_START, run_len: DISPLACEMENT_LEN }
}

/// `nk` is the encoding of the secret found at the first net-key signature
/// match of the image, whose resolved address lies in bounds.
pub open spec fn net_key_found(bytes: Seq<u8>, sections: Seq<Section>, nk: NetKey) -> bool {
    exists|i: int, k: int|
        {
            &&& #[trigger] is_first_match(bytes, sections, net_key_signature(), i, k)
            &&& address_in_bounds(
                resolved_address(bytes, k + NET_KEY_RUN_START),
                bytes.len() as int,
            )
            &&& nk.key@ == base64_of(
                key_window(bytes, resolved_address(bytes, k + NET_KEY_RUN_START)),
            )
            &&& nk.iv@ == base64_of(
                iv_window(bytes, resolved_address(bytes, k + NET_KEY_RUN_START)),
            )
        }
}

/// `e` reports the first net-key signature match of the image, whose
/// resolved address leaves the image.
pub open spec fn net_key_failed(bytes: Seq<u8>, sections: Seq<Section>, e: LocateError) -> bool {
    &&& e matches LocateError::AddressOutOfBounds { match_offset, address }
    &&& exists|i: int|
        #[trigger] is_first_match(bytes, sections, net_key_signature(), i, match_offset as int)
    &&& e->AddressOutOfBounds_address as int == resolved_address(
        bytes,
        e->AddressOutOfBounds_match_offset + NET_KEY_RUN_START,
    )
    &&& !address_in_bounds(e->AddressOutOfBounds_address as int, bytes.len() as int)
}

/// Locates the network-encryption key in an already-parsed image: scans the
/// executable sections in table order for the net-key signature, resolves the
/// first match and returns the base64-encoded key and initialization vector.
/// `Ok(None)` is the valid "not present in this build" outcome, not an error.
pub fn locate_net_key(image: &ExecutableImage) -> (r: Result<Option<NetKey>, LocateError>)
    requires
        image.wf(),
    ensures
        match r {
            Ok(Some(nk)) => net_key_found(image.bytes@, image.sections@, nk),
            Ok(None) => no_key_present(image.bytes@, image.sections@, net_key_signature()),
            Err(e) => net_key_failed(image.bytes@, image.sections@, e),
        },
{
    let pat = net_key_pattern();
    match locate_key(image, &pat) {
        Ok(LocateOutcome::Found(m)) => {
            let nk = net_key_from_material(&m);
            Ok(Some(nk))
        },
        Ok(LocateOutcome::NotPresent) => Ok(None),
        Err(e) => Err(e),
    }
}

/// The section table of a well-formed image, entry by entry.
pub open spec fn parsed_sections(b: Seq<u8>) -> Seq<Section> {
    Seq::new(section_count(b) as nat, |i: int| section_entry(b, i))
}

/// The whole locate-key operation on a flat image buffer: parse the section
/// table, then scan, resolve and extract. A malformed image is rejected
/// before any scanning; an absent key is `Ok(None)`, never an error.
pub fn locate_net_key_in(bytes: Vec<u8>) -> (r: Result<Option<NetKey>, LocateError>)
    ensures
        match r {
            Ok(Some(nk)) => image_well_formed(bytes@) && net_key_found(
                bytes@,
                parsed_sections(bytes@),
                nk,
            ),
            Ok(None) => image_well_formed(bytes@) && no_key_present(
                bytes@,
                parsed_sections(bytes@),
                net_key_signature(),
            ),
            Err(LocateError::ImageParse) => !image_well_formed(bytes@),
            Err(e) => image_well_formed(bytes@) && net_key_failed(
                bytes@,
                parsed_sections(bytes@),
                e,
            ),
        },
{
    match crate::image::parse_image(bytes) {
        Err(e) => Err(e),
        Ok(img) => {
            proof {
                assert(img.sections@ =~= parsed_sections(img.bytes@));
            }
            locate_net_key(&img)
        },
    }
}

} // verus!
