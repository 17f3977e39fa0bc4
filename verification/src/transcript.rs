//! Merlin transcripts: the messages that went into one, and the bytes that come out of it.
use vstd::prelude::*;

use crate::bytes::utf8;

verus! {

/// A transcript of merlin.
#[verifier::external_type_specification]
#[verifier::external_body]
pub struct ExTranscript(merlin::Transcript);

/// The messages that a transcript has absorbed, each with its label, in order.
pub uninterp spec fn transcript_log(transcript: merlin::Transcript) -> Seq<(Seq<u8>, Seq<u8>)>;

/// The `len` challenge bytes that a transcript with the messages `log` gives under `label`.
pub uninterp spec fn merlin_challenge(
    log: Seq<(Seq<u8>, Seq<u8>)>,
    label: Seq<u8>,
    len: nat,
) -> Seq<u8>;

/// `Transcript::new` of merlin. Claims that the new transcript has absorbed one message, the
/// protocol's label, under the label `dom-sep`: the call ends with `append_message` of that. A
/// longer label makes it panic.
pub assume_specification[ merlin::Transcript::new ](label: &'static [u8]) -> (transcript:
    merlin::Transcript)
    requires
        label@.len() <= u32::MAX,
    ensures
        transcript_log(transcript) == seq![(utf8("dom-sep"), label@)],
;

/// `Transcript::append_message` of merlin. Claims that the transcript absorbs the message under
/// its label and keeps what it had absorbed. A longer message makes the call panic, in
/// `encode_usize_as_u32`.
pub assume_specification[ merlin::Transcript::append_message ](
    transcript: &mut merlin::Transcript,
    label: &'static [u8],
    message: &[u8],
)
    requires
        message@.len() <= u32::MAX,
    ensures
        transcript_log(*final(transcript)) == transcript_log(*old(transcript)).push(
            (label@, message@),
        ),
;

/// `Transcript::challenge_bytes` of merlin, on a transcript that is not used afterwards. Claims
/// that the bytes depend only on the messages absorbed, the label and the number of bytes. A
/// longer request makes the call panic.
#[verifier::external_body]
pub(crate) fn challenge<const N: usize>(
    transcript: merlin::Transcript,
    label: &'static [u8],
) -> (bytes: [u8; N])
    requires
        N <= u32::MAX,
    ensures
        bytes@ == merlin_challenge(transcript_log(transcript), label@, N as nat),
{
    let mut transcript = transcript;
    let mut bytes = [0u8; N];
    transcript.challenge_bytes(label, &mut bytes);
    bytes
}

/// The UTF-8 encoding of an ASCII text has one byte for each character.
pub(crate) proof fn lemma_ascii_length(text: &str)
    requires
        vstd::utf8::is_ascii_chars(text@),
    ensures
        utf8(text).len() == text@.len(),
{
    vstd::string::is_ascii_spec_bytes(text);
}

/// Texts with the same UTF-8 encoding are the same.
pub(crate) proof fn lemma_utf8_injective(one: &str, other: &str)
    ensures
        utf8(one) == utf8(other) ==> one@ == other@,
{
    vstd::utf8::encode_utf8_decode_utf8(one@);
    vstd::utf8::encode_utf8_decode_utf8(other@);
}

} // verus!
