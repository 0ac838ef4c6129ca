//! What writing and reading Xauthority records have to do with each other.

use vstd::prelude::*;
use vstd::utf8::*;

use crate::text;
use crate::x11::authority;
use crate::x11::authority::{AuthorityEntryView, X11AuthorityFamily};

verus! {

/// Whether an entry can be written: each field fits, and a family that has a
/// name of its own is not given by its code.
pub open spec fn is_writable(entry: AuthorityEntryView) -> bool {
    &&& entry.family != X11AuthorityFamily::Other(0xffff)
    &&& entry.address.len() <= 0xffff
    &&& encode_utf8(entry.display_number).len() <= 0xffff
    &&& encode_utf8(entry.protocol).len() <= 0xffff
    &&& entry.cookie.len() <= 0xffff
}

/// A file of several entries: their records one after the other.
pub open spec fn file_of(entries: Seq<AuthorityEntryView>) -> Seq<u8>
    decreases entries.len(),
{
    if entries.len() == 0 {
        Seq::empty()
    } else {
        authority::entry_record(entries[0]) + file_of(entries.drop_first())
    }
}

/// A sixteen-bit number is read back from its two bytes.
pub proof fn lemma_be16_reads_back(number: nat)
    requires
        number <= 0xffff,
    ensures
        ({
            let bytes = authority::be16(number);
            bytes.len() == 2 && bytes[0] * 256 + bytes[1] == number
        }),
{
}

/// A field is read back wherever it stands.
proof fn lemma_field_reads_back(bytes: Seq<u8>, at: int, value: Seq<u8>)
    requires
        0 <= at,
        at + 2 + value.len() <= bytes.len(),
        value.len() <= 0xffff,
        bytes.subrange(at, at + 2 + value.len()) == authority::authority_field(value),
    ensures
        authority::field_at(bytes, at) == Some((value, at + 2 + value.len())),
{
    let field = bytes.subrange(at, at + 2 + value.len());
    lemma_be16_reads_back(value.len());
    assert(bytes[at] == field[0]);
    assert(bytes[at + 1] == field[1]);
    assert(bytes.subrange(at + 2, at + 2 + value.len()) =~= value) by {
        assert forall|i: int| 0 <= i < value.len() implies bytes[at + 2 + i] == value[i] by {
            assert(field[2 + i] == value[i]);
        }
    }
}

/// Where the parts of a record stand.
proof fn lemma_parts(
    head: Seq<u8>,
    code: Seq<u8>,
    f1: Seq<u8>,
    f2: Seq<u8>,
    f3: Seq<u8>,
    f4: Seq<u8>,
    tail: Seq<u8>,
)
    ensures
        ({
            let bytes = head + (code + f1 + f2 + f3 + f4) + tail;
            let b0 = head.len() as int;
            let b1 = b0 + code.len();
            let b2 = b1 + f1.len();
            let b3 = b2 + f2.len();
            let b4 = b3 + f3.len();
            let end = b4 + f4.len();
            &&& end <= bytes.len()
            &&& bytes.subrange(b0, b1) == code
            &&& bytes.subrange(b1, b2) == f1
            &&& bytes.subrange(b2, b3) == f2
            &&& bytes.subrange(b3, b4) == f3
            &&& bytes.subrange(b4, end) == f4
        }),
{
    let bytes = head + (code + f1 + f2 + f3 + f4) + tail;
    let b0 = head.len() as int;
    let b1 = b0 + code.len();
    let b2 = b1 + f1.len();
    let b3 = b2 + f2.len();
    let b4 = b3 + f3.len();
    assert(bytes.subrange(b0, b1) =~= code);
    assert(bytes.subrange(b1, b2) =~= f1);
    assert(bytes.subrange(b2, b3) =~= f2);
    assert(bytes.subrange(b3, b4) =~= f3);
    assert(bytes.subrange(b4, b4 + f4.len()) =~= f4);
}

/// Whether the record of an entry stands at a position.
#[verifier::opaque]
spec fn record_stands_at(bytes: Seq<u8>, at: int, entry: AuthorityEntryView) -> bool {
    let number = encode_utf8(entry.display_number);
    let protocol = encode_utf8(entry.protocol);
    let b1 = at + 2;
    let b2 = b1 + 2 + entry.address.len();
    let b3 = b2 + 2 + number.len();
    let b4 = b3 + 2 + protocol.len();
    let end = b4 + 2 + entry.cookie.len();
    &&& 0 <= at
    &&& end <= bytes.len()
    &&& bytes.subrange(at, b1) == authority::be16(authority::family_code(entry.family) as nat)
    &&& bytes.subrange(b1, b2) == authority::authority_field(entry.address)
    &&& bytes.subrange(b2, b3) == authority::authority_field(number)
    &&& bytes.subrange(b3, b4) == authority::authority_field(protocol)
    &&& bytes.subrange(b4, end) == authority::authority_field(entry.cookie)
}

/// An entry is read back where its record stands.
proof fn lemma_record_reads_back(bytes: Seq<u8>, at: int, entry: AuthorityEntryView)
    requires
        is_writable(entry),
        record_stands_at(bytes, at, entry),
    ensures
        authority::entry_at(bytes, at) == Some(
            (
                entry,
                at + 10 + entry.address.len() + encode_utf8(entry.display_number).len()
                    + encode_utf8(entry.protocol).len() + entry.cookie.len(),
            ),
        ),
{
    reveal(record_stands_at);
    let number = encode_utf8(entry.display_number);
    let protocol = encode_utf8(entry.protocol);
    let b1 = at + 2;
    let b2 = b1 + 2 + entry.address.len();
    let b3 = b2 + 2 + number.len();
    let b4 = b3 + 2 + protocol.len();
    lemma_text_reads_back(entry.display_number);
    lemma_text_reads_back(entry.protocol);
    lemma_be16_reads_back(authority::family_code(entry.family) as nat);
    assert(bytes[at] == bytes.subrange(at, b1)[0]);
    assert(bytes[at + 1] == bytes.subrange(at, b1)[1]);
    lemma_field_reads_back(bytes, b1, entry.address);
    lemma_field_reads_back(bytes, b2, number);
    lemma_field_reads_back(bytes, b3, protocol);
    lemma_field_reads_back(bytes, b4, entry.cookie);
}

/// The record of an entry stands between what was put before and behind it.
proof fn lemma_record_stands(head: Seq<u8>, entry: AuthorityEntryView, tail: Seq<u8>)
    ensures
        record_stands_at(
            head + authority::entry_record(entry) + tail,
            head.len() as int,
            entry,
        ),
        authority::entry_record(entry).len() == 10 + entry.address.len() + encode_utf8(
            entry.display_number,
        ).len() + encode_utf8(entry.protocol).len() + entry.cookie.len(),
{
    reveal(record_stands_at);
    let code = authority::be16(authority::family_code(entry.family) as nat);
    let f1 = authority::authority_field(entry.address);
    let f2 = authority::authority_field(encode_utf8(entry.display_number));
    let f3 = authority::authority_field(encode_utf8(entry.protocol));
    let f4 = authority::authority_field(entry.cookie);
    assert(code.len() == 2);
    assert(f1.len() == 2 + entry.address.len());
    assert(f2.len() == 2 + encode_utf8(entry.display_number).len());
    assert(f3.len() == 2 + encode_utf8(entry.protocol).len());
    assert(f4.len() == 2 + entry.cookie.len());
    lemma_parts(head, code, f1, f2, f3, f4, tail);
}

/// A text is read back from the bytes that encode it.
proof fn lemma_text_reads_back(text: Seq<char>)
    ensures
        valid_utf8(encode_utf8(text)),
        decode_utf8(encode_utf8(text)) == text,
{
    encode_utf8_valid_utf8(text);
    encode_utf8_decode_utf8(text);
}

/// What follows the record of the first entry of a file is the file of the
/// others.
proof fn lemma_file_splits(bytes: Seq<u8>, at: int, entries: Seq<AuthorityEntryView>)
    requires
        0 <= at <= bytes.len(),
        entries.len() > 0,
        bytes.subrange(at, bytes.len() as int) == file_of(entries),
    ensures
        ({
            let next = at + authority::entry_record(entries[0]).len();
            &&& next <= bytes.len()
            &&& record_stands_at(bytes, at, entries[0])
            &&& bytes.subrange(next, bytes.len() as int) == file_of(entries.drop_first())
        }),
{
    let record = authority::entry_record(entries[0]);
    let rest = file_of(entries.drop_first());
    let head = bytes.subrange(0, at);
    let file = bytes.subrange(at, bytes.len() as int);
    assert(file == record + rest);
    assert(bytes =~= head + file);
    assert(head + (record + rest) =~= head + record + rest);
    assert(bytes.subrange(at + record.len(), bytes.len() as int) =~= rest);
    lemma_record_stands(head, entries[0], rest);
}

/// Reading gives back what writing wrote: where the rest of some bytes is a file
/// of writable entries, it is read as those entries.
pub proof fn lemma_file_reads_back(bytes: Seq<u8>, at: int, entries: Seq<AuthorityEntryView>)
    requires
        0 <= at <= bytes.len(),
        bytes.subrange(at, bytes.len() as int) == file_of(entries),
        forall|i: int| 0 <= i < entries.len() ==> is_writable(#[trigger] entries[i]),
    ensures
        authority::entries_from(bytes, at) == Some(entries),
    decreases entries.len(),
{
    if entries.len() == 0 {
        assert(bytes.subrange(at, bytes.len() as int).len() == 0);
        assert(entries =~= Seq::empty());
    } else {
        let rest = entries.drop_first();
        let next = at + authority::entry_record(entries[0]).len();
        lemma_file_splits(bytes, at, entries);
        lemma_record_stands(Seq::empty(), entries[0], Seq::empty());
        lemma_record_reads_back(bytes, at, entries[0]);
        lemma_file_reads_back(bytes, next, rest);
        assert(seq![entries[0]] + rest =~= entries);
    }
}

/// The file of the managed server is read as the one entry that it was written
/// for: the cookie, for every address of the display.
pub proof fn lemma_managed_authority_reads_back(display: u16, cookie: Seq<u8>)
    requires
        cookie.len() <= 0xffff,
    ensures
        authority::entries_from(
            authority::entry_record(
                authority::managed_entry(display, cookie),
            ),
            0,
        ) == Some(seq![authority::managed_entry(display, cookie)]),
        ({
            let file = authority::entry_record(authority::managed_entry(display, cookie));
            &&& authority::entries_from(file, 0) matches Some(entries)
            &&& entries.len() == 1
            &&& entries[0].family == X11AuthorityFamily::Wild
            &&& entries[0].address.len() == 0
            &&& entries[0].display_number == text::decimal(display as nat)
            &&& text::digits_value(entries[0].display_number) == display
            &&& entries[0].protocol == "MIT-MAGIC-COOKIE-1"@
            &&& entries[0].cookie == cookie
        }),
{
    text::lemma_decimal_has_the_value(display as nat);
    let entry = authority::managed_entry(display, cookie);
    text::lemma_decimal_is_short(display as nat);
    authority::lemma_protocol_is_short();
    let entries = seq![entry];
    let record = authority::entry_record(entry);
    assert(file_of(entries) =~= record) by {
        assert(entries.drop_first() =~= Seq::empty());
        assert(file_of(entries.drop_first()) =~= Seq::empty());
    }
    assert(record.subrange(0, record.len() as int) =~= record);
    lemma_file_reads_back(record, 0, entries);
}

/// A record is laid out in big-endian numbers: the code of the family, which is
/// 65535 for the wildcard, and then, each behind its length, the address, the
/// display number, the protocol and the cookie.
pub proof fn lemma_record_layout(entry: AuthorityEntryView)
    ensures
        ({
            let code: u16 = match entry.family {
                X11AuthorityFamily::Wild => 0xffff,
                X11AuthorityFamily::Other(code) => code,
            };
            let number = encode_utf8(entry.display_number);
            let protocol = encode_utf8(entry.protocol);
            authority::entry_record(entry) == seq![(code / 256) as u8, (code % 256) as u8] + (seq![
                (entry.address.len() / 256) as u8,
                (entry.address.len() % 256) as u8,
            ] + entry.address) + (seq![(number.len() / 256) as u8, (number.len() % 256) as u8]
                + number) + (seq![(protocol.len() / 256) as u8, (protocol.len() % 256) as u8]
                + protocol) + (seq![
                (entry.cookie.len() / 256) as u8,
                (entry.cookie.len() % 256) as u8,
            ] + entry.cookie)
        }),
{
}

/// The bytes of the managed server's file, for every display and every cookie that
/// fits.
pub proof fn lemma_managed_authority_layout(display: u16, cookie: Seq<u8>)
    requires
        cookie.len() <= 0xffff,
    ensures
        ({
            let number = encode_utf8(text::decimal(display as nat));
            &&& number.len() <= 5
            &&& authority::entry_record(authority::managed_entry(display, cookie)) == seq![
                0xffu8,
                0xff,
            ] + seq![0u8, 0] + (seq![0u8, number.len() as u8] + number) + (seq![0u8, 18]
                + encode_utf8("MIT-MAGIC-COOKIE-1"@)) + (seq![
                (cookie.len() / 256) as u8,
                (cookie.len() % 256) as u8,
            ] + cookie)
        }),
{
    text::lemma_decimal_is_short(display as nat);
    authority::lemma_protocol_is_short();
    let number = encode_utf8(text::decimal(display as nat));
    let none = Seq::<u8>::empty();
    assert(seq![0u8, 0] + none =~= seq![0u8, 0]);
    lemma_record_layout(authority::managed_entry(display, cookie));
}

/// Bytes are read as some entries if and only if they are the file of those
/// entries, and the entries can be written. So every file of whole records is
/// read, and nothing else is.
pub proof fn lemma_read_means_written(bytes: Seq<u8>, entries: Seq<AuthorityEntryView>)
    ensures
        authority::entries_from(bytes, 0) == Some(entries) <==> {
            &&& bytes == file_of(entries)
            &&& forall|i: int|
                0 <= i < entries.len() ==> {
                    let entry = #[trigger] entries[i];
                    &&& entry.family != X11AuthorityFamily::Other(0xffff)
                    &&& entry.address.len() <= 0xffff
                    &&& encode_utf8(entry.display_number).len() <= 0xffff
                    &&& encode_utf8(entry.protocol).len() <= 0xffff
                    &&& entry.cookie.len() <= 0xffff
                }
        },
{
    assert(bytes.subrange(0, bytes.len() as int) =~= bytes);
    if authority::entries_from(bytes, 0) == Some(entries) {
        lemma_file_writes_back(bytes, 0);
    }
    if bytes == file_of(entries) && forall|i: int|
        0 <= i < entries.len() ==> is_writable(#[trigger] entries[i]) {
        lemma_file_reads_back(bytes, 0, entries);
    }
}

/// A file is its records one after the other: no entries make an empty file, and
/// the record of a first entry stands before the file of the others.
pub proof fn lemma_file_is_its_records(
    entry: AuthorityEntryView,
    others: Seq<AuthorityEntryView>,
)
    ensures
        file_of(Seq::empty()) == Seq::<u8>::empty(),
        file_of(seq![entry] + others) == authority::entry_record(entry) + file_of(others),
{
    assert((seq![entry] + others).drop_first() =~= others);
}

/// The two bytes of a number are written again from the number.
proof fn lemma_be16_writes_back(high: u8, low: u8)
    ensures
        authority::be16((high * 256 + low) as nat) =~= seq![high, low],
{
}

/// A field that was read is written as the bytes it was read from.
proof fn lemma_field_writes_back(bytes: Seq<u8>, at: int)
    requires
        0 <= at,
        authority::field_at(bytes, at) is Some,
    ensures
        ({
            let (value, end) = authority::field_at(bytes, at)->0;
            &&& at + 2 <= end <= bytes.len()
            &&& value.len() <= 0xffff
            &&& authority::authority_field(value) == bytes.subrange(at, end)
        }),
{
    let (value, end) = authority::field_at(bytes, at)->0;
    lemma_be16_writes_back(bytes[at], bytes[at + 1]);
    assert(authority::authority_field(value) =~= bytes.subrange(at, end));
}

/// Writing the entries of a file gives the file back: reading loses nothing, and
/// no two files have the same entries.
pub proof fn lemma_file_writes_back(bytes: Seq<u8>, at: int)
    requires
        0 <= at <= bytes.len(),
        authority::entries_from(bytes, at) is Some,
    ensures
        file_of(authority::entries_from(bytes, at)->0) == bytes.subrange(
            at,
            bytes.len() as int,
        ),
        forall|i: int|
            0 <= i < authority::entries_from(bytes, at)->0.len() ==> is_writable(
                #[trigger] authority::entries_from(bytes, at)->0[i],
            ),
    decreases bytes.len() - at,
{
    broadcast use decode_utf8_encode_utf8;

    let entries = authority::entries_from(bytes, at)->0;
    if at >= bytes.len() {
        assert(file_of(entries) =~= bytes.subrange(at, bytes.len() as int));
    } else {
        let (entry, next) = authority::entry_at(bytes, at)->0;
        let (address, p2) = authority::field_at(bytes, at + 2)->0;
        let (number, p3) = authority::field_at(bytes, p2)->0;
        let (protocol, p4) = authority::field_at(bytes, p3)->0;
        lemma_be16_writes_back(bytes[at], bytes[at + 1]);
        lemma_field_writes_back(bytes, at + 2);
        lemma_field_writes_back(bytes, p2);
        lemma_field_writes_back(bytes, p3);
        lemma_field_writes_back(bytes, p4);
        assert(authority::entry_record(entry) =~= bytes.subrange(at, next));
        lemma_file_writes_back(bytes, next);
        let rest = authority::entries_from(bytes, next)->0;
        assert(entries.drop_first() =~= rest);
        assert(file_of(entries) =~= bytes.subrange(at, bytes.len() as int));
        assert forall|i: int| 0 <= i < entries.len() implies is_writable(#[trigger] entries[i]) by {
            if i > 0 {
                assert(entries[i] == rest[i - 1]);
            }
        }
    }
}

} // verus!
