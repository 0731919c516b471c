//! Terminal data on the wire: base64, padded or not.
use base64::Engine;
use vstd::prelude::*;

verus! {

/// What padded base64 text decodes to, if it decodes.
pub uninterp spec fn padded_bytes(text: Seq<char>) -> Option<Seq<u8>>;

/// What base64 text without padding decodes to, if it decodes.
pub uninterp spec fn unpadded_bytes(text: Seq<char>) -> Option<Seq<u8>>;

/// The padded base64 text of some bytes.
pub uninterp spec fn base64_text(bytes: Seq<u8>) -> Seq<char>;

/// Base64 text without its padding.
pub open spec fn bare(text: Seq<char>) -> Seq<char>
    decreases text.len(),
{
    if text.len() > 0 && text.last() == '=' {
        bare(text.drop_last())
    } else {
        text
    }
}

/// Whether the base64 text of that many bytes fits in memory: four characters
/// for every three bytes, and for a last few.
pub open spec fn fits_base64(len: nat) -> bool {
    (len + 2) / 3 * 4 <= isize::MAX
}

/// The bytes of an optional vector.
pub open spec fn bytes_of(v: Option<Vec<u8>>) -> Option<Seq<u8>> {
    match v {
        Some(b) => Some(b@),
        None => None,
    }
}

/// `base64::engine::general_purpose::STANDARD.decode`: the result depends on
/// the text alone. Why a text does not decode is left out.
#[verifier::external_body]
fn decode_padded(data: &str) -> (r: Option<Vec<u8>>)
    ensures
        bytes_of(r) == padded_bytes(data@),
{
    base64::engine::general_purpose::STANDARD.decode(data).ok()
}

/// `base64::engine::general_purpose::STANDARD_NO_PAD.decode`: the result
/// depends on the text alone. Why a text does not decode is left out.
#[verifier::external_body]
fn decode_unpadded(data: &str) -> (r: Option<Vec<u8>>)
    ensures
        bytes_of(r) == unpadded_bytes(data@),
{
    base64::engine::general_purpose::STANDARD_NO_PAD.decode(data).ok()
}

/// `base64::engine::general_purpose::STANDARD.encode`: the result depends on
/// the bytes alone, and the same engine decodes it to them again. Without its
/// padding it is what `STANDARD_NO_PAD` decodes to them, and `STANDARD` decodes
/// it to nothing else: it refuses text that lacks its padding. The length of the
/// text has to fit in memory.
#[verifier::external_body]
fn encode_padded(bytes: &[u8]) -> (s: String)
    requires
        fits_base64(bytes@.len()),
    ensures
        s@ == base64_text(bytes@),
        padded_bytes(s@) == Some(bytes@),
        unpadded_bytes(bare(s@)) == Some(bytes@),
        padded_bytes(bare(s@)) is Some ==> padded_bytes(bare(s@)) == Some(bytes@),
{
    base64::engine::general_purpose::STANDARD.encode(bytes)
}

/// The bytes of a frame, by what its text decodes to with and without padding:
/// padding is expected but not insisted on, and garbage is dropped.
pub open spec fn chosen_bytes(padded: Option<Seq<u8>>, unpadded: Option<Seq<u8>>) -> Seq<u8> {
    match padded {
        Some(b) => b,
        None => match unpadded {
            Some(b) => b,
            None => Seq::empty(),
        },
    }
}

/// Picks the bytes of a frame from the two ways to decode its text.
pub fn choose_bytes(padded: Option<Vec<u8>>, unpadded: Option<Vec<u8>>) -> (v: Vec<u8>)
    ensures
        v@ == chosen_bytes(bytes_of(padded), bytes_of(unpadded)),
{
    match padded {
        Some(b) => b,
        None => match unpadded {
            Some(b) => b,
            None => {
                let none: Vec<u8> = Vec::new();
                assert(none@ =~= Seq::<u8>::empty());
                none
            },
        },
    }
}

/// The bytes of a frame.
pub open spec fn frame_bytes(data: Seq<char>) -> Seq<u8> {
    chosen_bytes(padded_bytes(data), unpadded_bytes(data))
}

/// Decodes the data of a frame; text that decodes neither way gives no bytes.
pub fn decode_base64(data: &str) -> (v: Vec<u8>)
    ensures
        v@ == frame_bytes(data@),
        padded_bytes(data@) is None && unpadded_bytes(data@) is None ==> v@.len() == 0,
{
    choose_bytes(decode_padded(data), decode_unpadded(data))
}

/// Encodes bytes for a frame. Whoever decodes the frame gets the bytes back, also
/// when the padding was lost on the way.
pub fn encode_base64(bytes: &[u8]) -> (s: String)
    requires
        fits_base64(bytes@.len()),
    ensures
        s@ == base64_text(bytes@),
        frame_bytes(s@) == bytes@,
        frame_bytes(bare(s@)) == bytes@,
{
    encode_padded(bytes)
}

}
