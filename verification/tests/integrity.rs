use base64::engine::general_purpose::STANDARD;
use base64::Engine;
use oxideterm::update::integrity::{
    base64_to_string, decoded_text, step_result, verify_minisign_signature,
    verify_signature_with_key, IntegrityStep, NativeUpdateError, OXIDETERM_UPDATER_PUBKEY,
};

const KEY: &str = "untrusted comment: minisign public key E7620F1842B4E81F
RWQf6LRCGA9i53mlYecO4IzT51TGPpvWucNSCh1CBM0QTaLn73Y7GFO3
";

const LEGACY_SIGNATURE: &str = "untrusted comment: signature from minisign secret key
RWQf6LRCGA9i59SLOFxz6NxvASXDJeRtuZykwQepbDEGt87ig1BNpWaVWuNrm73YiIiJbq71Wi+dP9eKL8OC351vwIasSSbXxwA=
trusted comment: timestamp:1555779966\tfile:test
QtKMXWyYcwdpZAlPF7tE2ENJkRd1ujvKjlj1m9RtHTBnZPa5WKU5uWRs5GoP5M/VqE81QFuMKI5k/SfNQUaOAA==
";

const SIGNATURE: &str = "untrusted comment: signature from minisign secret key
RUQf6LRCGA9i559r3g7V1qNyJDApGip8MfqcadIgT9CuhV3EMhHoN1mGTkUidF/z7SrlQgXdy8ofjb7bNJJylDOocrCo8KLzZwo=
trusted comment: timestamp:1556193335\tfile:test
y/rUw2y8/hOUYjZU71eHp/Wo1KZ40fGy2VJEDl34XMJM+TX48Ss/17u3IvIfbVR1FkZZSNCisQbuQY+bHwhEBg==
";

fn integrity<T>(text: &str) -> Result<T, NativeUpdateError> {
    Err(NativeUpdateError::Integrity(String::from(text)))
}

#[test]
fn a_signature_is_accepted_under_its_key() {
    let key = STANDARD.encode(KEY);
    assert_eq!(verify_signature_with_key(&key, b"test", &STANDARD.encode(SIGNATURE)), Ok(()));
    assert_eq!(
        verify_signature_with_key(&key, b"test", &STANDARD.encode(LEGACY_SIGNATURE)),
        Ok(())
    );
}

#[test]
fn other_data_is_refused() {
    let key = STANDARD.encode(KEY);
    assert_eq!(
        verify_signature_with_key(&key, b"Test", &STANDARD.encode(SIGNATURE)),
        integrity("signature verification failed: The signature verification failed")
    );
}

#[test]
fn a_signature_of_another_key_is_refused() {
    assert_eq!(
        verify_minisign_signature(b"test", &STANDARD.encode(SIGNATURE)),
        integrity(
            "signature verification failed: The signature was created with a different key than the one provided"
        )
    );
}

#[test]
fn the_key_of_the_application_is_a_minisign_key() {
    let text = base64_to_string(OXIDETERM_UPDATER_PUBKEY).unwrap();
    assert!(text.starts_with("untrusted comment: minisign public key D8285DCD93AE90D0\n"));
}

#[test]
fn unreadable_signatures_are_refused() {
    assert_eq!(
        verify_minisign_signature(b"test", "!!!!"),
        integrity("base64 decode failed: Invalid symbol 33, offset 0.")
    );
    assert_eq!(
        verify_minisign_signature(b"test", "AA"),
        integrity("base64 decode failed: Invalid padding")
    );
    assert_eq!(
        verify_minisign_signature(b"test", &STANDARD.encode([0xffu8])),
        integrity("invalid utf8 in signature")
    );
    assert_eq!(
        verify_minisign_signature(b"test", &STANDARD.encode("not a signature")),
        integrity("decode release signature failed: Invalid encoding in minisign data")
    );
    assert_eq!(
        verify_minisign_signature(b"test", ""),
        integrity("decode release signature failed: Invalid encoding in minisign data")
    );
}

#[test]
fn an_unreadable_key_is_reported_before_the_signature() {
    assert_eq!(
        verify_signature_with_key(&STANDARD.encode("no key"), b"test", "!!!!"),
        integrity("decode public key failed: Invalid encoding in minisign data")
    );
    assert_eq!(
        verify_signature_with_key("?", b"test", "!!!!"),
        integrity("base64 decode failed: Invalid symbol 63, offset 0.")
    );
}

#[test]
fn base64_is_decoded_to_text() {
    assert_eq!(base64_to_string("w6RiYw=="), Ok(String::from("äbc")));
    assert_eq!(base64_to_string(""), Ok(String::new()));
    assert_eq!(base64_to_string("/w=="), integrity("invalid utf8 in signature"));
    assert_eq!(decoded_text(Ok(vec![97, 98])), Ok(String::from("ab")));
    assert_eq!(decoded_text(Ok(vec![0xc3])), integrity("invalid utf8 in signature"));
    assert_eq!(
        decoded_text(Err(String::from("why"))),
        integrity("base64 decode failed: why")
    );
}

#[test]
fn steps_are_reported_in_the_librarys_words() {
    assert_eq!(step_result(IntegrityStep::PublicKey, Ok(3)), Ok(3));
    for (step, text) in [
        (IntegrityStep::Base64, "base64 decode failed: x"),
        (IntegrityStep::PublicKey, "decode public key failed: x"),
        (IntegrityStep::ReleaseSignature, "decode release signature failed: x"),
        (IntegrityStep::Verification, "signature verification failed: x"),
    ] {
        assert_eq!(step_result::<u8>(step, Err(String::from("x"))), integrity(text));
    }
}
