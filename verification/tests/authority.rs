use oxideterm::secret::SecretBytes;
use oxideterm::x11::authority::{
    managed_authority_bytes, parse_xauthority_file, push_authority_field, X11AuthCookie,
    X11AuthorityFamily,
};
use oxideterm::x11::error::X11ForwardingError;

#[test]
fn managed_authority_is_a_redactable_wildcard_record() {
    let cookie = X11AuthCookie::from_hex("00112233445566778899aabbccddeeff").unwrap();

    let bytes = managed_authority_bytes(7, &cookie).unwrap();
    let entries = parse_xauthority_file(bytes.as_slice()).unwrap();

    assert_eq!(entries.len(), 1);
    assert_eq!(entries[0].family, X11AuthorityFamily::Wild);
    assert!(entries[0].address.is_empty());
    assert_eq!(entries[0].display_number, "7");
    assert_eq!(entries[0].cookie, cookie);
}

#[test]
fn managed_authority_has_the_exact_bytes() {
    let cookie = X11AuthCookie::from_hex("0aFf").unwrap();
    let bytes = managed_authority_bytes(65535, &cookie).unwrap();
    let mut expected: Vec<u8> = vec![0xff, 0xff, 0, 0, 0, 5];
    expected.extend_from_slice(b"65535");
    expected.extend_from_slice(&[0, 18]);
    expected.extend_from_slice(b"MIT-MAGIC-COOKIE-1");
    expected.extend_from_slice(&[0, 2, 0x0a, 0xff]);
    assert_eq!(bytes.as_slice(), expected.as_slice());
}

#[test]
fn the_cookie_does_not_show_in_debug_output() {
    let cookie = X11AuthCookie::from_hex("00112233445566778899aabbccddeeff").unwrap();
    let bytes = managed_authority_bytes(7, &cookie).unwrap();
    assert!(!format!("{:?}", cookie).contains("17"));
    assert!(!format!("{:?}", cookie).contains("255"));
    assert!(!format!("{:?}", bytes).contains("255"));
}

#[test]
fn a_field_of_the_largest_size_is_written() {
    let value = vec![9u8; 65535];
    let mut output = vec![1u8, 2];
    assert_eq!(push_authority_field(&mut output, &value), Ok(()));
    assert_eq!(output.len(), 2 + 2 + 65535);
    assert_eq!(&output[..5], &[1, 2, 0xff, 0xff, 9]);
}

#[test]
fn a_larger_field_is_refused_and_nothing_is_written() {
    let value = vec![9u8; 65536];
    let mut output = vec![1u8, 2];
    assert_eq!(
        push_authority_field(&mut output, &value),
        Err(X11ForwardingError::InvalidXauthRecord("managed xauthority field is too large"))
    );
    assert_eq!(output, vec![1, 2]);
}

#[test]
fn an_oversized_cookie_is_refused() {
    let cookie = X11AuthCookie::from_bytes(&vec![0u8; 65536]);
    assert_eq!(
        managed_authority_bytes(0, &cookie),
        Err(X11ForwardingError::InvalidXauthRecord("managed xauthority field is too large"))
    );
    let cookie = X11AuthCookie::from_bytes(&vec![3u8; 65535]);
    let bytes = managed_authority_bytes(0, &cookie).unwrap();
    assert_eq!(parse_xauthority_file(bytes.as_slice()).unwrap()[0].cookie, cookie);
}

#[test]
fn every_display_number_reads_back() {
    let cookie = X11AuthCookie::from_hex("ff").unwrap();
    for display in 0..=65535u16 {
        let bytes = managed_authority_bytes(display, &cookie).unwrap();
        let entries = parse_xauthority_file(bytes.as_slice()).unwrap();
        assert_eq!(entries[0].display_number, display.to_string());
        assert_eq!(entries[0].protocol, "MIT-MAGIC-COOKIE-1");
    }
}

#[test]
fn several_records_are_read_in_order() {
    let mut bytes: Vec<u8> = Vec::new();
    for (family, number) in [(256u16, "0"), (0xffff, "12"), (0, "")] {
        bytes.extend_from_slice(&family.to_be_bytes());
        push_authority_field(&mut bytes, b"host").unwrap();
        push_authority_field(&mut bytes, number.as_bytes()).unwrap();
        push_authority_field(&mut bytes, b"P").unwrap();
        push_authority_field(&mut bytes, &[1, 2, 3]).unwrap();
    }
    let entries = parse_xauthority_file(&bytes).unwrap();
    assert_eq!(entries.len(), 3);
    assert_eq!(entries[0].family, X11AuthorityFamily::Other(256));
    assert_eq!(entries[1].family, X11AuthorityFamily::Wild);
    assert_eq!(entries[2].family, X11AuthorityFamily::Other(0));
    assert_eq!(entries[0].address, b"host");
    assert_eq!(entries[1].display_number, "12");
    assert_eq!(entries[2].display_number, "");
    assert_eq!(entries[2].protocol, "P");
    assert_eq!(entries[2].cookie.as_bytes(), &[1, 2, 3]);
}

#[test]
fn an_empty_file_has_no_entries() {
    assert_eq!(parse_xauthority_file(&[]), Ok(Vec::new()));
}

#[test]
fn cut_off_or_unreadable_records_are_refused() {
    let cookie = X11AuthCookie::from_hex("00ff").unwrap();
    let bytes = managed_authority_bytes(7, &cookie).unwrap();
    let malformed = X11ForwardingError::InvalidXauthRecord("xauthority file is malformed");
    for end in 1..bytes.as_slice().len() {
        assert_eq!(parse_xauthority_file(&bytes.as_slice()[..end]), Err(malformed.clone()));
    }
    let mut not_text: Vec<u8> = vec![0, 0];
    push_authority_field(&mut not_text, &[]).unwrap();
    push_authority_field(&mut not_text, &[0xff]).unwrap();
    push_authority_field(&mut not_text, b"P").unwrap();
    push_authority_field(&mut not_text, &[]).unwrap();
    assert_eq!(parse_xauthority_file(&not_text), Err(malformed));
}

#[test]
fn cookies_are_written_in_hexadecimal() {
    let cookie = X11AuthCookie::from_hex("00aAfF19").unwrap();
    assert_eq!(cookie.as_bytes(), &[0x00, 0xaa, 0xff, 0x19]);
    assert_eq!(X11AuthCookie::from_hex("").unwrap().as_bytes().len(), 0);
    let invalid = X11ForwardingError::InvalidXauthRecord("X11 cookie is not hexadecimal");
    for text in ["0", "0g", "g0", "00 1", "/0", ":0", "@0", "G0", "`0", "00é"] {
        assert_eq!(X11AuthCookie::from_hex(text), Err(invalid.clone()));
    }
}

#[test]
fn families_have_codes() {
    assert_eq!(X11AuthorityFamily::Wild.code(), 65535);
    assert_eq!(X11AuthorityFamily::Other(256).code(), 256);
    assert_eq!(X11AuthorityFamily::from_code(65535), X11AuthorityFamily::Wild);
    assert_eq!(X11AuthorityFamily::from_code(6), X11AuthorityFamily::Other(6));
}

#[test]
fn a_secret_is_written_in_place() {
    let mut secret = SecretBytes::new();
    assert!(secret.as_slice().is_empty());
    secret.bytes_mut().push(4);
    secret.bytes_mut().push(5);
    assert_eq!(secret.as_slice(), &[4, 5]);
}

#[test]
fn entries_that_were_read_are_written_as_the_same_file() {
    let mut file: Vec<u8> = Vec::new();
    for (family, address) in [(0u16, &[192u8, 168, 0, 1][..]), (0xffff, &[]), (256, b"host")] {
        file.extend_from_slice(&family.to_be_bytes());
        push_authority_field(&mut file, address).unwrap();
        push_authority_field(&mut file, b"10").unwrap();
        push_authority_field(&mut file, "MIT-MAGIC-COOKIE-1".as_bytes()).unwrap();
        push_authority_field(&mut file, &[0xff; 16]).unwrap();
    }
    let mut written: Vec<u8> = Vec::new();
    for entry in parse_xauthority_file(&file).unwrap() {
        written.extend_from_slice(&entry.family.code().to_be_bytes());
        push_authority_field(&mut written, &entry.address).unwrap();
        push_authority_field(&mut written, entry.display_number.as_bytes()).unwrap();
        push_authority_field(&mut written, entry.protocol.as_bytes()).unwrap();
        push_authority_field(&mut written, entry.cookie.as_bytes()).unwrap();
    }
    assert_eq!(written, file);
}
