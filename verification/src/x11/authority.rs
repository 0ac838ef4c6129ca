//! Xauthority records: the file format, and the record of the managed server.

use vstd::prelude::*;

use vstd::slice::*;
use vstd::utf8::*;

use crate::secret::SecretBytes;
use crate::text;
use crate::text::{decimal_text, text_from_utf8};
use crate::x11::authority_laws;
use crate::x11::error::{X11ErrorView, X11ForwardingError, X11Result};

verus! {

/// A sixteen-bit number in network byte order.
pub open spec fn be16(number: nat) -> Seq<u8> {
    seq![(number / 256) as u8, (number % 256) as u8]
}

/// A field of a record: the length of the value, then the value.
pub open spec fn authority_field(value: Seq<u8>) -> Seq<u8> {
    be16(value.len()) + value
}

/// The error for a value that no field can hold.
pub open spec fn field_too_large() -> X11ErrorView {
    X11ErrorView::InvalidXauthRecord("managed xauthority field is too large"@)
}

/// Appends a number in network byte order.
fn push_be16(output: &mut Vec<u8>, number: u16)
    ensures
        final(output)@ == old(output)@ + be16(number as nat),
{
    output.push((number / 256) as u8);
    output.push((number % 256) as u8);
}

/// Appends bytes.
fn push_bytes(output: &mut Vec<u8>, bytes: &[u8])
    ensures
        final(output)@ == old(output)@ + bytes@,
{
    output.extend_from_slice(bytes);
    assert(output@ =~= old(output)@ + bytes@);
}

/// Appends a field. A value of more than 65535 bytes is refused, and nothing is
/// appended.
pub fn push_authority_field(output: &mut Vec<u8>, value: &[u8]) -> (result: X11Result<()>)
    ensures
        match result {
            Ok(_) => value@.len() <= 0xffff && final(output)@ == old(output)@ + authority_field(
                value@,
            ),
            Err(error) => value@.len() > 0xffff && error@ == field_too_large() && final(output)@
                == old(output)@,
        },
        result is Ok <==> value@.len() <= 0xffff,
        result is Ok ==> final(output)@ == old(output)@ + seq![
            (value@.len() / 256) as u8,
            (value@.len() % 256) as u8,
        ] + value@,
        result matches Err(error) ==> (error matches X11ForwardingError::InvalidXauthRecord(text)
            && text@ == "managed xauthority field is too large"@),
{
    let len: usize = value.len();
    if len > 0xffff {
        return Err(
            X11ForwardingError::InvalidXauthRecord("managed xauthority field is too large"),
        );
    }
    push_be16(output, len as u16);
    push_bytes(output, value);
    assert(output@ =~= old(output)@ + authority_field(value@));
    assert(output@ =~= old(output)@ + seq![
        (value@.len() / 256) as u8,
        (value@.len() % 256) as u8,
    ] + value@);
    Ok(())
}

/// The family of addresses that a record is for.
#[derive(Clone, Copy, Debug, PartialEq, Eq, Structural)]
pub enum X11AuthorityFamily {
    /// Matches every address.
    Wild,
    /// Any other family, by its code.
    Other(u16),
}

/// The code that stands for a family in a record.
pub open spec fn family_code(family: X11AuthorityFamily) -> u16 {
    match family {
        X11AuthorityFamily::Wild => 0xffff,
        X11AuthorityFamily::Other(code) => code,
    }
}

/// The family that a code stands for.
pub open spec fn family_of_code(code: u16) -> X11AuthorityFamily {
    if code == 0xffff {
        X11AuthorityFamily::Wild
    } else {
        X11AuthorityFamily::Other(code)
    }
}

impl X11AuthorityFamily {
    /// The code of this family.
    pub fn code(&self) -> (code: u16)
        ensures
            code == family_code(*self),
            *self == X11AuthorityFamily::Wild ==> code == 0xffff,
            *self matches X11AuthorityFamily::Other(other) ==> code == other,
    {
        match self {
            X11AuthorityFamily::Wild => 0xffff,
            X11AuthorityFamily::Other(code) => *code,
        }
    }

    /// The family of a code.
    pub fn from_code(code: u16) -> (family: Self)
        ensures
            family == family_of_code(code),
            family == X11AuthorityFamily::Wild <==> code == 0xffff,
            code != 0xffff ==> family == X11AuthorityFamily::Other(code),
    {
        if code == 0xffff {
            X11AuthorityFamily::Wild
        } else {
            X11AuthorityFamily::Other(code)
        }
    }
}

/// The value of a hexadecimal digit, in either case.
pub open spec fn hex_value(digit: u8) -> Option<u8> {
    if 48 <= digit <= 57 {
        Some((digit - 48) as u8)
    } else if 65 <= digit <= 70 {
        Some((digit - 55) as u8)
    } else if 97 <= digit <= 102 {
        Some((digit - 87) as u8)
    } else {
        None
    }
}

/// Whether a text is made of hexadecimal digits, two for each byte.
pub open spec fn is_hex(digits: Seq<u8>) -> bool {
    &&& digits.len() % 2 == 0
    &&& forall|i: int| 0 <= i < digits.len() ==> hex_value(#[trigger] digits[i]) is Some
}

/// The bytes that hexadecimal digits stand for.
pub open spec fn hex_bytes(digits: Seq<u8>) -> Seq<u8> {
    Seq::new(
        digits.len() / 2,
        |i: int| (hex_value(digits[2 * i])->0 * 16 + hex_value(digits[2 * i + 1])->0) as u8,
    )
}

/// Whether a digit stands for a value: `0` to `9` for themselves, `A` to `F` and
/// `a` to `f` for ten to fifteen.
pub open spec fn stands_for(digit: u8, value: u8) -> bool {
    if value < 10 {
        digit == 48 + value
    } else {
        value < 16 && (digit == 55 + value || digit == 87 + value)
    }
}

/// A text is hexadecimal if and only if it has an even number of characters and
/// each is a digit, and its bytes are those whose halves the digits stand for.
pub proof fn lemma_hex_is_made_of_digits(digits: Seq<u8>)
    ensures
        forall|digit: u8, value: u8|
            #![trigger stands_for(digit, value)]
            hex_value(digit) == Some(value) <==> stands_for(digit, value),
        is_hex(digits) <==> digits.len() % 2 == 0 && forall|i: int|
            0 <= i < digits.len() ==> {
                let digit = #[trigger] digits[i];
                48 <= digit <= 57 || 65 <= digit <= 70 || 97 <= digit <= 102
            },
        is_hex(digits) ==> 2 * hex_bytes(digits).len() == digits.len() && forall|i: int|
            0 <= i < hex_bytes(digits).len() ==> stands_for(
                digits[2 * i],
                (#[trigger] hex_bytes(digits)[i]) / 16,
            ) && stands_for(digits[2 * i + 1], hex_bytes(digits)[i] % 16),
{
    if is_hex(digits) {
        assert forall|i: int| 0 <= i < hex_bytes(digits).len() implies stands_for(
            digits[2 * i],
            (#[trigger] hex_bytes(digits)[i]) / 16,
        ) && stands_for(digits[2 * i + 1], hex_bytes(digits)[i] % 16) by {
            assert(hex_value(digits[2 * i]) is Some);
            assert(hex_value(digits[2 * i + 1]) is Some);
            let high = hex_value(digits[2 * i])->0;
            let low = hex_value(digits[2 * i + 1])->0;
            assert(high < 16 && low < 16);
            assert(hex_bytes(digits)[i] == high * 16 + low);
        }
    }
    if digits.len() % 2 == 0 && forall|i: int|
        0 <= i < digits.len() ==> {
            let digit = #[trigger] digits[i];
            48 <= digit <= 57 || 65 <= digit <= 70 || 97 <= digit <= 102
        } {
        assert(is_hex(digits));
    }
}

/// Reads a hexadecimal digit.
fn hex_digit(digit: u8) -> (value: Option<u8>)
    ensures
        value == hex_value(digit),
        value matches Some(value) ==> value < 16,
{
    if 48 <= digit && digit <= 57 {
        Some(digit - 48)
    } else if 65 <= digit && digit <= 70 {
        Some(digit - 55)
    } else if 97 <= digit && digit <= 102 {
        Some(digit - 87)
    } else {
        None
    }
}

/// The error for a cookie that is not written in hexadecimal digits.
pub open spec fn invalid_cookie() -> X11ErrorView {
    X11ErrorView::InvalidXauthRecord("X11 cookie is not hexadecimal"@)
}

/// An authentication cookie. Its bytes are wiped when it is dropped.
#[derive(Debug, PartialEq, Eq)]
pub struct X11AuthCookie {
    bytes: SecretBytes,
}

impl View for X11AuthCookie {
    type V = Seq<u8>;

    closed spec fn view(&self) -> Seq<u8> {
        self.bytes@
    }
}

impl X11AuthCookie {
    /// A cookie of the given bytes.
    pub fn from_bytes(bytes: &[u8]) -> (cookie: Self)
        ensures
            cookie@ == bytes@,
    {
        let mut secret = SecretBytes::new();
        push_bytes(secret.bytes_mut(), bytes);
        X11AuthCookie { bytes: secret }
    }

    /// A cookie written in hexadecimal digits, two for each byte.
    pub fn from_hex(text: &str) -> (result: X11Result<Self>)
        ensures
            match result {
                Ok(cookie) => is_hex(encode_utf8(text@)) && cookie@ == hex_bytes(
                    encode_utf8(text@),
                ),
                Err(error) => !is_hex(encode_utf8(text@)) && error@ == invalid_cookie(),
            },
            result is Ok <==> encode_utf8(text@).len() % 2 == 0 && forall|i: int|
                0 <= i < encode_utf8(text@).len() ==> {
                    let digit = #[trigger] encode_utf8(text@)[i];
                    48 <= digit <= 57 || 65 <= digit <= 70 || 97 <= digit <= 102
                },
            result matches Ok(cookie) ==> 2 * cookie@.len() == encode_utf8(text@).len()
                && forall|i: int|
                0 <= i < cookie@.len() ==> stands_for(
                    encode_utf8(text@)[2 * i],
                    (#[trigger] cookie@[i]) / 16,
                ) && stands_for(encode_utf8(text@)[2 * i + 1], cookie@[i] % 16),
            result matches Err(error) ==> (error matches X11ForwardingError::InvalidXauthRecord(
                message,
            ) && message@ == "X11 cookie is not hexadecimal"@),
    {
        proof {
            lemma_hex_is_made_of_digits(encode_utf8(text@));
        }
        let digits = text.as_bytes();
        let len: usize = digits.len();
        if len % 2 != 0 {
            return Err(X11ForwardingError::InvalidXauthRecord("X11 cookie is not hexadecimal"));
        }
        let mut secret = SecretBytes::new();
        let mut at: usize = 0;
        while at < len
            invariant
                digits@ == encode_utf8(text@),
                len == digits@.len(),
                len % 2 == 0,
                at % 2 == 0,
                at <= len,
                forall|i: int| 0 <= i < at ==> hex_value(#[trigger] digits@[i]) is Some,
                secret@.len() == at / 2,
                secret@ =~= hex_bytes(digits@).take(at as int / 2),
            decreases len - at,
        {
            match (hex_digit(digits[at]), hex_digit(digits[at + 1])) {
                (Some(high), Some(low)) => {
                    secret.bytes_mut().push(high * 16 + low);
                    at += 2;
                },
                _ => {
                    return Err(
                        X11ForwardingError::InvalidXauthRecord("X11 cookie is not hexadecimal"),
                    );
                },
            }
        }
        Ok(X11AuthCookie { bytes: secret })
    }

    /// The bytes of the cookie.
    pub fn as_bytes(&self) -> (bytes: &[u8])
        ensures
            bytes@ == self@,
    {
        self.bytes.as_slice()
    }
}

/// The name of the only authentication protocol that the managed server uses.
pub const MIT_MAGIC_COOKIE: &'static str = "MIT-MAGIC-COOKIE-1";

/// An entry of an Xauthority file.
#[derive(Debug, PartialEq, Eq)]
pub struct X11AuthorityEntry {
    pub family: X11AuthorityFamily,
    pub address: Vec<u8>,
    pub display_number: String,
    pub protocol: String,
    pub cookie: X11AuthCookie,
}

/// An entry as a mathematical value.
#[verifier::ext_equal]
pub struct AuthorityEntryView {
    pub family: X11AuthorityFamily,
    pub address: Seq<u8>,
    pub display_number: Seq<char>,
    pub protocol: Seq<char>,
    pub cookie: Seq<u8>,
}

impl View for X11AuthorityEntry {
    type V = AuthorityEntryView;

    open spec fn view(&self) -> AuthorityEntryView {
        AuthorityEntryView {
            family: self.family,
            address: self.address@,
            display_number: self.display_number@,
            protocol: self.protocol@,
            cookie: self.cookie@,
        }
    }
}

/// An entry shows each of its fields.
pub proof fn lemma_entry_shows_its_fields(entry: X11AuthorityEntry)
    ensures
        entry@.family == entry.family,
        entry@.address == entry.address@,
        entry@.display_number == entry.display_number@,
        entry@.protocol == entry.protocol@,
        entry@.cookie == entry.cookie@,
{
}

/// The record of an entry: the code of its family, then its four fields.
pub open spec fn entry_record(entry: AuthorityEntryView) -> Seq<u8> {
    be16(family_code(entry.family) as nat) + authority_field(entry.address) + authority_field(
        encode_utf8(entry.display_number),
    ) + authority_field(encode_utf8(entry.protocol)) + authority_field(entry.cookie)
}

/// The entry of the managed server: one cookie for every address of a display.
pub open spec fn managed_entry(display: u16, cookie: Seq<u8>) -> AuthorityEntryView {
    AuthorityEntryView {
        family: X11AuthorityFamily::Wild,
        address: Seq::empty(),
        display_number: text::decimal(display as nat),
        protocol: MIT_MAGIC_COOKIE@,
        cookie,
    }
}

/// Writes the Xauthority file of the managed server: a single record, which
/// holds the cookie for every address of the display. A cookie that does not
/// fit into a field is refused.
pub fn managed_authority_bytes(display: u16, cookie: &X11AuthCookie) -> (result: X11Result<
    SecretBytes,
>)
    ensures
        match result {
            Ok(bytes) => cookie@.len() <= 0xffff && bytes@ == entry_record(
                managed_entry(display, cookie@),
            ),
            Err(error) => cookie@.len() > 0xffff && error@ == field_too_large(),
        },
        result is Ok <==> cookie@.len() <= 0xffff,
        result matches Ok(bytes) ==> {
            let number = encode_utf8(text::decimal(display as nat));
            bytes@ == seq![0xffu8, 0xff] + seq![0u8, 0] + (seq![0u8, number.len() as u8] + number)
                + (seq![0u8, 18] + encode_utf8("MIT-MAGIC-COOKIE-1"@)) + (seq![
                (cookie@.len() / 256) as u8,
                (cookie@.len() % 256) as u8,
            ] + cookie@)
        },
        result matches Ok(bytes) ==> {
            &&& entries_from(bytes@, 0) matches Some(entries)
            &&& entries.len() == 1
            &&& entries[0].family == X11AuthorityFamily::Wild
            &&& entries[0].address.len() == 0
            &&& entries[0].display_number == text::decimal(display as nat)
            &&& entries[0].protocol == "MIT-MAGIC-COOKIE-1"@
            &&& entries[0].cookie == cookie@
        },
        result matches Err(error) ==> (error matches X11ForwardingError::InvalidXauthRecord(text)
            && text@ == "managed xauthority field is too large"@),
{
    let mut output = SecretBytes::new();
    push_be16(output.bytes_mut(), X11AuthorityFamily::Wild.code());
    let address: Vec<u8> = Vec::new();
    push_authority_field(output.bytes_mut(), address.as_slice())?;
    let number = decimal_text(display);
    proof {
        text::lemma_decimal_is_short(display as nat);
        lemma_protocol_is_short();
    }
    push_authority_field(output.bytes_mut(), number.as_str().as_bytes())?;
    push_authority_field(output.bytes_mut(), MIT_MAGIC_COOKIE.as_bytes())?;
    push_authority_field(output.bytes_mut(), cookie.as_bytes())?;
    assert(output@ =~= entry_record(managed_entry(display, cookie@)));
    proof {
        authority_laws::lemma_managed_authority_reads_back(display, cookie@);
        authority_laws::lemma_managed_authority_layout(display, cookie@);
    }
    Ok(output)
}

/// The name of the protocol fits into a field.
pub proof fn lemma_protocol_is_short()
    ensures
        encode_utf8(MIT_MAGIC_COOKIE@).len() == 18,
{
    reveal_strlit("MIT-MAGIC-COOKIE-1");
    is_ascii_chars_encode_utf8(MIT_MAGIC_COOKIE@);
}

/// The error for bytes that are not an Xauthority file.
pub open spec fn malformed_file() -> X11ErrorView {
    X11ErrorView::InvalidXauthRecord("xauthority file is malformed"@)
}

/// The field that starts at a position, and the position behind it.
pub open spec fn field_at(bytes: Seq<u8>, at: int) -> Option<(Seq<u8>, int)> {
    if at + 2 > bytes.len() {
        None
    } else {
        let end = at + 2 + bytes[at] * 256 + bytes[at + 1];
        if end > bytes.len() {
            None
        } else {
            Some((bytes.subrange(at + 2, end), end))
        }
    }
}

/// The entry whose record starts at a position, and the position behind it. The
/// display number and the protocol are texts.
pub open spec fn entry_at(bytes: Seq<u8>, at: int) -> Option<(AuthorityEntryView, int)> {
    match field_at(bytes, at + 2) {
        None => None,
        Some((address, number_at)) => match field_at(bytes, number_at) {
            None => None,
            Some((number, protocol_at)) => match field_at(bytes, protocol_at) {
                None => None,
                Some((protocol, cookie_at)) => match field_at(bytes, cookie_at) {
                    None => None,
                    Some((cookie, end)) => if valid_utf8(number) && valid_utf8(protocol) {
                        Some(
                            (
                                AuthorityEntryView {
                                    family: family_of_code(
                                        (bytes[at] * 256 + bytes[at + 1]) as u16,
                                    ),
                                    address,
                                    display_number: decode_utf8(number),
                                    protocol: decode_utf8(protocol),
                                    cookie,
                                },
                                end,
                            ),
                        )
                    } else {
                        None
                    },
                },
            },
        },
    }
}

/// The entries whose records fill the bytes from a position to their end.
pub open spec fn entries_from(bytes: Seq<u8>, at: int) -> Option<Seq<AuthorityEntryView>>
    decreases bytes.len() - at,
{
    if at >= bytes.len() {
        Some(Seq::empty())
    } else {
        match entry_at(bytes, at) {
            None => None,
            Some((entry, next)) => if next <= at {
                None
            } else {
                match entries_from(bytes, next) {
                    None => None,
                    Some(rest) => Some(seq![entry] + rest),
                }
            },
        }
    }
}

/// The entries as mathematical values.
pub open spec fn entry_views(entries: Seq<X11AuthorityEntry>) -> Seq<AuthorityEntryView> {
    entries.map_values(|entry: X11AuthorityEntry| entry@)
}

/// Reads the field at a position.
fn read_field<'a>(bytes: &'a [u8], at: usize) -> (result: Option<(&'a [u8], usize)>)
    requires
        at <= bytes@.len(),
    ensures
        match result {
            Some((value, end)) => field_at(bytes@, at as int) == Some((value@, end as int)) && at
                + 2 <= end <= bytes@.len(),
            None => field_at(bytes@, at as int) is None,
        },
{
    let len: usize = bytes.len();
    if len - at < 2 {
        return None;
    }
    let size: usize = bytes[at] as usize * 256 + bytes[at + 1] as usize;
    if len - at - 2 < size {
        return None;
    }
    let end: usize = at + 2 + size;
    Some((slice_subrange(bytes, at + 2, end), end))
}

/// Reads the entry at a position.
fn read_entry(bytes: &[u8], at: usize) -> (result: Option<(X11AuthorityEntry, usize)>)
    requires
        at <= bytes@.len(),
    ensures
        match result {
            Some((entry, end)) => entry_at(bytes@, at as int) == Some((entry@, end as int)) && at
                < end <= bytes@.len(),
            None => entry_at(bytes@, at as int) is None,
        },
{
    if bytes.len() - at < 2 {
        return None;
    }
    let code: u16 = bytes[at] as u16 * 256 + bytes[at + 1] as u16;
    let (address, number_at) = read_field(bytes, at + 2)?;
    let (number, protocol_at) = read_field(bytes, number_at)?;
    let (protocol, cookie_at) = read_field(bytes, protocol_at)?;
    let (cookie, end) = read_field(bytes, cookie_at)?;
    match (text_from_utf8(number), text_from_utf8(protocol)) {
        (Ok(display_number), Ok(protocol)) => Some(
            (
                X11AuthorityEntry {
                    family: X11AuthorityFamily::from_code(code),
                    address: slice_to_vec(address),
                    display_number,
                    protocol,
                    cookie: X11AuthCookie::from_bytes(cookie),
                },
                end,
            ),
        ),
        _ => None,
    }
}

/// Reads an Xauthority file: the entries of its records, in order. Bytes that
/// are not a sequence of whole records are refused.
pub fn parse_xauthority_file(bytes: &[u8]) -> (result: X11Result<Vec<X11AuthorityEntry>>)
    ensures
        match result {
            Ok(entries) => entries_from(bytes@, 0) == Some(entry_views(entries@)),
            Err(error) => entries_from(bytes@, 0) is None && error@ == malformed_file(),
        },
        result matches Err(error) ==> (error matches X11ForwardingError::InvalidXauthRecord(text)
            && text@ == "xauthority file is malformed"@),
{
    let mut entries: Vec<X11AuthorityEntry> = Vec::new();
    let mut at: usize = 0;
    while at < bytes.len()
        invariant
            at <= bytes@.len(),
            entries_from(bytes@, 0) == match entries_from(bytes@, at as int) {
                Some(rest) => Some(entry_views(entries@) + rest),
                None => None,
            },
        decreases bytes@.len() - at,
    {
        match read_entry(bytes, at) {
            Some((entry, next)) => {
                let ghost before = entries@;
                entries.push(entry);
                proof {
                    if entries_from(bytes@, next as int) is Some {
                        let rest = entries_from(bytes@, next as int)->0;
                        assert(entry_views(before) + (seq![entry@] + rest) =~= entry_views(
                            entries@,
                        ) + rest);
                    }
                }
                at = next;
            },
            None => {
                return Err(
                    X11ForwardingError::InvalidXauthRecord("xauthority file is malformed"),
                );
            },
        }
    }
    assert(entry_views(entries@) + Seq::<AuthorityEntryView>::empty() =~= entry_views(entries@));
    Ok(entries)
}

} // verus!
