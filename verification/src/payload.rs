//! The transport payload: WAV bytes of the captured audio together with
//! their base64 text form, as handed to the transcription collaborator.

use vstd::prelude::*;
use crate::wav;

verus! {

/// The base64 symbol for a 6-bit value, in the standard alphabet.
pub open spec fn b64_char(v: int) -> char
    recommends
        0 <= v < 64,
{
    if v < 26 {
        ((v + 65) as u8) as char
    } else if v < 52 {
        ((v + 71) as u8) as char
    } else if v < 62 {
        ((v - 4) as u8) as char
    } else if v == 62 {
        '+'
    } else {
        '/'
    }
}

/// Standard base64 with padding: each group of three bytes becomes four
/// symbols; a final group of one or two bytes is padded with `=` to four.
pub open spec fn spec_base64(b: Seq<u8>) -> Seq<char>
    decreases b.len(),
{
    let b0 = if b.len() >= 1 {
        b[0] as int
    } else {
        0
    };
    let b1 = if b.len() >= 2 {
        b[1] as int
    } else {
        0
    };
    let b2 = if b.len() >= 3 {
        b[2] as int
    } else {
        0
    };
    if b.len() == 0 {
        Seq::empty()
    } else if b.len() == 1 {
        seq![b64_char(b0 / 4), b64_char(b0 % 4 * 16), '=', '=']
    } else if b.len() == 2 {
        seq![b64_char(b0 / 4), b64_char(b0 % 4 * 16 + b1 / 16), b64_char(b1 % 16 * 4), '=']
    } else {
        seq![
            b64_char(b0 / 4),
            b64_char(b0 % 4 * 16 + b1 / 16),
            b64_char(b1 % 16 * 4 + b2 / 64),
            b64_char(b2 % 64),
        ] + spec_base64(b.skip(3))
    }
}

/// Relies on base64's Engine::encode with the STANDARD engine: RFC 4648
/// base64 in the standard alphabet, with `=` padding. The length bound
/// keeps the engine's output-size computation from overflowing.
#[verifier::external_body]
fn base64_encode(bytes: &Vec<u8>) -> (r: String)
    requires
        bytes@.len() / 3 * 4 + 4 <= usize::MAX,
    ensures
        r@ == spec_base64(bytes@),
{
    base64::Engine::encode(&base64::engine::general_purpose::STANDARD, bytes)
}

/// The encoded form of one capture session: the WAV bytes and their base64
/// text, produced once per session and handed to the transcription step.
pub struct EncodedPayload {
    /// The WAV container bytes: mono 16-bit PCM at the transport rate.
    pub wav: Vec<u8>,
    /// The WAV bytes in base64 text form.
    pub text: String,
}

impl EncodedPayload {
    /// Whether the payload is the WAV encoding of `samples` at `rate`,
    /// with its faithful base64 text.
    pub open spec fn is_encoding_of(self, samples: Seq<i16>, rate: u32) -> bool {
        &&& self.wav@ == wav::spec_wav_bytes(samples, rate)
        &&& self.text@ == spec_base64(self.wav@)
    }
}

/// Encodes a finished mono stream as a transport payload: the WAV container
/// and its base64 text.
pub fn encode_payload(samples: &Vec<i16>, rate: u32) -> (r: EncodedPayload)
    requires
        samples@.len() <= wav::wav_max_samples(),
        2 * rate <= u32::MAX,
        (44 + 2 * samples@.len()) / 3 * 4 + 4 <= usize::MAX,
    ensures
        r.is_encoding_of(samples@, rate),
{
    let wav_bytes = wav::encode_wav(samples, rate);
    let text = base64_encode(&wav_bytes);
    EncodedPayload { wav: wav_bytes, text }
}

} // verus!
