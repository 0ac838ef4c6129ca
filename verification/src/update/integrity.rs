//! The integrity of a release: its minisign signature, under the key that comes
//! with the application.

use base64::Engine as _;
use minisign_verify::{PublicKey, Signature};
use vstd::prelude::*;
use vstd::utf8::*;

use crate::text::{joined, text_from_utf8};

verus! {

/// The public key that releases are signed with: a `minisign.pub` file, in
/// base64.
pub const OXIDETERM_UPDATER_PUBKEY: &'static str =
    "dW50cnVzdGVkIGNvbW1lbnQ6IG1pbmlzaWduIHB1YmxpYyBrZXkgRDgyODVEQ0Q5M0FFOTBEMApSV1RRa0s2VHpWMG8ySnltNENtMkVvOFc5Y1J4SkJrNjIyUkNBTU5Kejgyd3hQSHRtRGkvRU5MQgo=";

/// An error of an update.
#[derive(Clone, Debug, PartialEq, Eq)]
pub enum NativeUpdateError {
    /// The release is not what was signed.
    Integrity(String),
}

/// An error of an update as a mathematical value.
pub enum UpdateErrorView {
    Integrity(Seq<char>),
}

impl View for NativeUpdateError {
    type V = UpdateErrorView;

    open spec fn view(&self) -> UpdateErrorView {
        match self {
            NativeUpdateError::Integrity(message) => UpdateErrorView::Integrity(message@),
        }
    }
}

/// An error of an update shows its message.
pub proof fn lemma_update_error_shows_message(error: NativeUpdateError)
    ensures
        match error {
            NativeUpdateError::Integrity(message) => error@ == UpdateErrorView::Integrity(message@),
        },
{
}

/// minisign-verify's public key.
#[verifier::external_type_specification]
#[verifier::external_body]
pub struct ExPublicKey(minisign_verify::PublicKey);

/// minisign-verify's signature.
#[verifier::external_type_specification]
#[verifier::external_body]
pub struct ExSignature(minisign_verify::Signature);

/// What base64's standard engine decodes a text to, or the text of its error.
pub uninterp spec fn base64_decoding(text: Seq<char>) -> Result<Seq<u8>, Seq<char>>;

/// What minisign-verify decodes the text of a public key to, or the text of its
/// error.
pub uninterp spec fn minisign_public_key(text: Seq<char>) -> Result<PublicKey, Seq<char>>;

/// What minisign-verify decodes the text of a signature to, or the text of its
/// error.
pub uninterp spec fn minisign_signature(text: Seq<char>) -> Result<Signature, Seq<char>>;

/// Whether minisign-verify accepts a signature of some data under a key, or the
/// text of its error.
pub uninterp spec fn minisign_verification(
    key: PublicKey,
    data: Seq<u8>,
    signature: Signature,
    allow_legacy: bool,
) -> Result<(), Seq<char>>;

/// Calls `decode` of base64's `STANDARD` engine. The bytes, or the text of the
/// error, depend on the text alone.
#[verifier::external_body]
fn base64_decode(text: &str) -> (result: Result<Vec<u8>, String>)
    ensures
        base64_decoding(text@) == (match result {
            Ok(bytes) => Ok::<Seq<u8>, Seq<char>>(bytes@),
            Err(error) => Err::<Seq<u8>, Seq<char>>(error@),
        }),
{
    match base64::engine::general_purpose::STANDARD.decode(text) {
        Ok(bytes) => Ok(bytes),
        Err(error) => Err(error.to_string()),
    }
}

/// Calls `PublicKey::decode` of minisign-verify. The key, or the text of the
/// error, depends on the text alone.
#[verifier::external_body]
fn public_key_decode(text: &str) -> (result: Result<PublicKey, String>)
    ensures
        minisign_public_key(text@) == (match result {
            Ok(key) => Ok::<PublicKey, Seq<char>>(key),
            Err(error) => Err::<PublicKey, Seq<char>>(error@),
        }),
{
    match PublicKey::decode(text) {
        Ok(key) => Ok(key),
        Err(error) => Err(error.to_string()),
    }
}

/// Calls `Signature::decode` of minisign-verify. The signature, or the text of
/// the error, depends on the text alone.
#[verifier::external_body]
fn signature_decode(text: &str) -> (result: Result<Signature, String>)
    ensures
        minisign_signature(text@) == (match result {
            Ok(signature) => Ok::<Signature, Seq<char>>(signature),
            Err(error) => Err::<Signature, Seq<char>>(error@),
        }),
{
    match Signature::decode(text) {
        Ok(signature) => Ok(signature),
        Err(error) => Err(error.to_string()),
    }
}

/// Calls `PublicKey::verify` of minisign-verify. The verdict, or the text of the
/// error, depends on the key, the data, the signature and the flag alone.
#[verifier::external_body]
fn public_key_verify(
    key: &PublicKey,
    data: &[u8],
    signature: &Signature,
    allow_legacy: bool,
) -> (result: Result<(), String>)
    ensures
        minisign_verification(*key, data@, *signature, allow_legacy) == (match result {
            Ok(_) => Ok::<(), Seq<char>>(()),
            Err(error) => Err::<(), Seq<char>>(error@),
        }),
{
    match key.verify(data, signature, allow_legacy) {
        Ok(accepted) => Ok(accepted),
        Err(error) => Err(error.to_string()),
    }
}

/// A step of a verification that an outside library performs.
#[derive(Clone, Copy, Debug, PartialEq, Eq, Structural)]
pub enum IntegrityStep {
    Base64,
    PublicKey,
    ReleaseSignature,
    Verification,
}

/// The words that stand before the library's own when a step fails.
pub open spec fn step_prefix(step: IntegrityStep) -> Seq<char> {
    match step {
        IntegrityStep::Base64 => "base64 decode failed: "@,
        IntegrityStep::PublicKey => "decode public key failed: "@,
        IntegrityStep::ReleaseSignature => "decode release signature failed: "@,
        IntegrityStep::Verification => "signature verification failed: "@,
    }
}

/// Takes the result of a step, and reports an error in the library's own words.
pub fn step_result<T>(step: IntegrityStep, outcome: Result<T, String>) -> (result: Result<
    T,
    NativeUpdateError,
>)
    ensures
        match outcome {
            Ok(value) => result == Ok::<T, NativeUpdateError>(value),
            Err(detail) => (result matches Err(error) && error@ == UpdateErrorView::Integrity(
                step_prefix(step) + detail@,
            )),
        },
        outcome matches Err(detail) ==> (result matches Err(NativeUpdateError::Integrity(message))
            && message@ == (match step {
            IntegrityStep::Base64 => "base64 decode failed: "@,
            IntegrityStep::PublicKey => "decode public key failed: "@,
            IntegrityStep::ReleaseSignature => "decode release signature failed: "@,
            IntegrityStep::Verification => "signature verification failed: "@,
        }) + detail@),
{
    match outcome {
        Ok(value) => Ok(value),
        Err(detail) => {
            let prefix = match step {
                IntegrityStep::Base64 => "base64 decode failed: ",
                IntegrityStep::PublicKey => "decode public key failed: ",
                IntegrityStep::ReleaseSignature => "decode release signature failed: ",
                IntegrityStep::Verification => "signature verification failed: ",
            };
            Err(NativeUpdateError::Integrity(joined(prefix, detail.as_str())))
        },
    }
}

/// The text in decoded bytes, or the message of the error.
pub open spec fn text_in(bytes: Seq<u8>) -> Result<Seq<char>, Seq<char>> {
    if valid_utf8(bytes) {
        Ok(decode_utf8(bytes))
    } else {
        Err("invalid utf8 in signature"@)
    }
}

/// The text in base64, or the message of the error.
pub open spec fn text_in_base64(value: Seq<char>) -> Result<Seq<char>, Seq<char>> {
    match base64_decoding(value) {
        Ok(bytes) => text_in(bytes),
        Err(detail) => Err(step_prefix(IntegrityStep::Base64) + detail),
    }
}

/// The text in decoded bytes, which have to be UTF-8.
pub fn decoded_text(decoded: Result<Vec<u8>, String>) -> (result: Result<
    String,
    NativeUpdateError,
>)
    ensures
        match decoded {
            Ok(bytes) => match result {
                Ok(text) => text_in(bytes@) == Ok::<Seq<char>, Seq<char>>(text@),
                Err(error) => text_in(bytes@) is Err && error@ == UpdateErrorView::Integrity(
                    text_in(bytes@)->Err_0,
                ),
            },
            Err(detail) => (result matches Err(error) && error@ == UpdateErrorView::Integrity(
                step_prefix(IntegrityStep::Base64) + detail@,
            )),
        },
        match decoded {
            Ok(bytes) => if valid_utf8(bytes@) {
                result matches Ok(text) && text@ == decode_utf8(bytes@)
            } else {
                result matches Err(NativeUpdateError::Integrity(message)) && message@
                    == "invalid utf8 in signature"@
            },
            Err(detail) => (result matches Err(NativeUpdateError::Integrity(message)) && message@
                == "base64 decode failed: "@ + detail@),
        },
{
    match step_result(IntegrityStep::Base64, decoded) {
        Ok(bytes) => match text_from_utf8(bytes.as_slice()) {
            Ok(text) => Ok(text),
            Err(_) => Err(NativeUpdateError::Integrity("invalid utf8 in signature".to_owned())),
        },
        Err(error) => Err(error),
    }
}

/// Decodes base64 to text.
pub fn base64_to_string(value: &str) -> (result: Result<String, NativeUpdateError>)
    ensures
        match base64_decoding(value@) {
            Ok(bytes) => if valid_utf8(bytes) {
                result matches Ok(text) && text@ == decode_utf8(bytes)
            } else {
                result matches Err(NativeUpdateError::Integrity(message)) && message@
                    == "invalid utf8 in signature"@
            },
            Err(detail) => (result matches Err(NativeUpdateError::Integrity(message)) && message@
                == "base64 decode failed: "@ + detail),
        },
        match result {
            Ok(text) => text_in_base64(value@) == Ok::<Seq<char>, Seq<char>>(text@),
            Err(error) => text_in_base64(value@) is Err && error@ == UpdateErrorView::Integrity(
                text_in_base64(value@)->Err_0,
            ),
        },
{
    decoded_text(base64_decode(value))
}

/// The verdict on a release under a key: acceptance, or the message of the first
/// step that fails. The key is decoded before the signature is looked at.
pub open spec fn release_verdict(
    encoded_key: Seq<char>,
    data: Seq<u8>,
    release_signature: Seq<char>,
) -> Result<(), Seq<char>> {
    match text_in_base64(encoded_key) {
        Err(message) => Err(message),
        Ok(key_text) => match minisign_public_key(key_text) {
            Err(detail) => Err(step_prefix(IntegrityStep::PublicKey) + detail),
            Ok(key) => match text_in_base64(release_signature) {
                Err(message) => Err(message),
                Ok(signature_text) => match minisign_signature(signature_text) {
                    Err(detail) => Err(step_prefix(IntegrityStep::ReleaseSignature) + detail),
                    Ok(signature) => match minisign_verification(key, data, signature, true) {
                        Err(detail) => Err(step_prefix(IntegrityStep::Verification) + detail),
                        Ok(_) => Ok(()),
                    },
                },
            },
        },
    }
}

/// Verifies the signature of a release under a key. Both are minisign files in
/// base64. Signatures of older minisign versions are accepted.
pub fn verify_signature_with_key(
    encoded_key: &str,
    data: &[u8],
    release_signature: &str,
) -> (result: Result<(), NativeUpdateError>)
    ensures
        match result {
            Ok(_) => release_verdict(encoded_key@, data@, release_signature@) is Ok,
            Err(error) => release_verdict(encoded_key@, data@, release_signature@) is Err && error@
                == UpdateErrorView::Integrity(
                release_verdict(encoded_key@, data@, release_signature@)->Err_0,
            ),
        },
        result is Ok <==> {
            &&& base64_decoding(encoded_key@) matches Ok(key_bytes)
            &&& base64_decoding(release_signature@) matches Ok(signature_bytes)
            &&& valid_utf8(key_bytes)
            &&& valid_utf8(signature_bytes)
            &&& minisign_public_key(decode_utf8(key_bytes)) matches Ok(key)
            &&& minisign_signature(decode_utf8(signature_bytes)) matches Ok(signature)
            &&& minisign_verification(key, data@, signature, true) is Ok
        },
{
    proof {
        lemma_accepted_means_verified(encoded_key@, data@, release_signature@);
    }
    let key_text = base64_to_string(encoded_key)?;
    let key = step_result(IntegrityStep::PublicKey, public_key_decode(key_text.as_str()))?;
    let signature_text = base64_to_string(release_signature)?;
    let signature = step_result(
        IntegrityStep::ReleaseSignature,
        signature_decode(signature_text.as_str()),
    )?;
    step_result(IntegrityStep::Verification, public_key_verify(&key, data, &signature, true))?;
    Ok(())
}

/// Verifies the signature of a release under the application's own key.
pub fn verify_minisign_signature(data: &[u8], release_signature: &str) -> (result: Result<
    (),
    NativeUpdateError,
>)
    ensures
        match result {
            Ok(_) => release_verdict(OXIDETERM_UPDATER_PUBKEY@, data@, release_signature@) is Ok,
            Err(error) => release_verdict(
                OXIDETERM_UPDATER_PUBKEY@,
                data@,
                release_signature@,
            ) is Err && error@ == UpdateErrorView::Integrity(
                release_verdict(OXIDETERM_UPDATER_PUBKEY@, data@, release_signature@)->Err_0,
            ),
        },
        result is Ok <==> {
            &&& base64_decoding(
                "dW50cnVzdGVkIGNvbW1lbnQ6IG1pbmlzaWduIHB1YmxpYyBrZXkgRDgyODVEQ0Q5M0FFOTBEMApSV1RRa0s2VHpWMG8ySnltNENtMkVvOFc5Y1J4SkJrNjIyUkNBTU5Kejgyd3hQSHRtRGkvRU5MQgo="@,
            ) matches Ok(key_bytes)
            &&& base64_decoding(release_signature@) matches Ok(signature_bytes)
            &&& valid_utf8(key_bytes)
            &&& valid_utf8(signature_bytes)
            &&& minisign_public_key(decode_utf8(key_bytes)) matches Ok(key)
            &&& minisign_signature(decode_utf8(signature_bytes)) matches Ok(signature)
            &&& minisign_verification(key, data@, signature, true) is Ok
        },
{
    verify_signature_with_key(OXIDETERM_UPDATER_PUBKEY, data, release_signature)
}

/// A release is accepted if and only if key and signature can be decoded and
/// minisign accepts the signature of exactly this data under exactly this key.
pub proof fn lemma_accepted_means_verified(
    encoded_key: Seq<char>,
    data: Seq<u8>,
    release_signature: Seq<char>,
)
    ensures
        release_verdict(encoded_key, data, release_signature) is Ok <==> {
            &&& base64_decoding(encoded_key) matches Ok(key_bytes)
            &&& base64_decoding(release_signature) matches Ok(signature_bytes)
            &&& valid_utf8(key_bytes)
            &&& valid_utf8(signature_bytes)
            &&& minisign_public_key(decode_utf8(key_bytes)) matches Ok(key)
            &&& minisign_signature(decode_utf8(signature_bytes)) matches Ok(signature)
            &&& minisign_verification(key, data, signature, true) is Ok
        },
{
}

/// Base64 holds a text if and only if it can be decoded and its bytes are UTF-8,
/// however many there are, and the text is what they encode: encoding the text
/// again gives the bytes back.
pub proof fn lemma_text_in_base64_is_what_the_bytes_encode(value: Seq<char>)
    ensures
        text_in_base64(value) is Ok <==> (base64_decoding(value) matches Ok(bytes) && valid_utf8(
            bytes,
        )),
        text_in_base64(value) matches Ok(text) ==> base64_decoding(value) == Ok::<
            Seq<u8>,
            Seq<char>,
        >(encode_utf8(text)),
        text_in_base64(value) matches Err(message) ==> (match base64_decoding(value) {
            Ok(_) => message == "invalid utf8 in signature"@,
            Err(detail) => message == "base64 decode failed: "@ + detail,
        }),
{
    broadcast use decode_utf8_encode_utf8;

}

/// A release that is refused is refused with the message of the first step that
/// fails: the text of the key, the key, the text of the signature, the signature,
/// then the verification.
pub proof fn lemma_refusal_names_the_first_failure(
    encoded_key: Seq<char>,
    data: Seq<u8>,
    release_signature: Seq<char>,
    message: Seq<char>,
)
    requires
        release_verdict(encoded_key, data, release_signature) == Err::<(), Seq<char>>(message),
    ensures
        match base64_decoding(encoded_key) {
            Err(detail) => message == "base64 decode failed: "@ + detail,
            Ok(key_bytes) => if !valid_utf8(key_bytes) {
                message == "invalid utf8 in signature"@
            } else {
                match minisign_public_key(decode_utf8(key_bytes)) {
                    Err(detail) => message == "decode public key failed: "@ + detail,
                    Ok(key) => match base64_decoding(release_signature) {
                        Err(detail) => message == "base64 decode failed: "@ + detail,
                        Ok(signature_bytes) => if !valid_utf8(signature_bytes) {
                            message == "invalid utf8 in signature"@
                        } else {
                            match minisign_signature(decode_utf8(signature_bytes)) {
                                Err(detail) => message == "decode release signature failed: "@
                                    + detail,
                                Ok(signature) => (minisign_verification(
                                    key,
                                    data,
                                    signature,
                                    true,
                                ) matches Err(detail) && message
                                    == "signature verification failed: "@ + detail),
                            }
                        },
                    },
                }
            },
        },
{
}

} // verus!
