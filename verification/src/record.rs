//! Identifiers of stored records and the file names made from them.
use crate::digest;
use crate::text;
use uuid::Uuid;
use vstd::prelude::*;
use vstd::string::*;
use vstd::utf8::*;

verus! {

/// The identifier of a record: the 128 bits of a UUID.
#[derive(Debug, Clone, Copy, PartialEq, Eq, Hash, Structural)]
pub struct RecordId {
    pub bits: u128,
}

/// A number in so many lower-case hexadecimal digits, the most significant first.
pub open spec fn hex_digits(value: nat, length: nat) -> Seq<char>
    decreases length,
{
    if length == 0 {
        Seq::empty()
    } else {
        hex_digits(value / 16, (length - 1) as nat).push(digest::hex_digit((value % 16) as int))
    }
}

/// The hyphenated lower-case text of a UUID: its hexadecimal digits in groups of 8, 4, 4, 4 and 12.
pub open spec fn uuid_text(bits: u128) -> Seq<char> {
    let digits = hex_digits(bits as nat, 32);
    digits.subrange(0, 8).push('-') + digits.subrange(8, 12).push('-') + digits.subrange(
        12,
        16,
    ).push('-') + digits.subrange(16, 20).push('-') + digits.subrange(20, 32)
}

/// The bits of the UUID that a text writes, in one of the forms that `Uuid` reads.
pub uninterp spec fn uuid_bits(text: Seq<char>) -> Option<u128>;

proof fn lemma_hex_digits(value: nat, length: nat)
    ensures
        hex_digits(value, length).len() == length,
        forall|i: int| 0 <= i < length ==> text::is_ascii_hex(#[trigger] hex_digits(value, length)[i]),
    decreases length,
{
    if length > 0 {
        lemma_hex_digits(value / 16, (length - 1) as nat);
    }
}

/// The text of a UUID has 36 characters, hexadecimal digits and hyphens.
pub proof fn uuid_texts_are_plain(bits: u128)
    ensures
        uuid_text(bits).len() == 36,
        forall|i: int|
            0 <= i < 36 ==> text::is_ascii_hex(#[trigger] uuid_text(bits)[i]) || uuid_text(bits)[i]
                == '-',
{
    lemma_hex_digits(bits as nat, 32);
}

/// The `Display` text of `uuid::Uuid`. It is read back as the same UUID.
#[verifier::external_body]
fn display_uuid(bits: u128) -> (text: String)
    ensures
        text@ == uuid_text(bits),
        uuid_bits(text@) == Some(bits),
{
    Uuid::from_u128(bits).to_string()
}

/// `Uuid::parse_str`, which accepts the hyphenated form and some others.
#[verifier::external_body]
fn parse_uuid(text: &str) -> (bits: Option<u128>)
    ensures
        bits == uuid_bits(text@),
{
    match Uuid::parse_str(text) {
        Ok(id) => Some(id.as_u128()),
        Err(_) => None,
    }
}

/// The number that bytes write, the most significant first.
pub open spec fn big_endian(bytes: Seq<u8>) -> nat
    decreases bytes.len(),
{
    if bytes.len() == 0 {
        0
    } else {
        256 * big_endian(bytes.drop_last()) + bytes.last() as nat
    }
}

pub open spec fn power_of_256(exponent: nat) -> nat
    decreases exponent,
{
    if exponent == 0 {
        1
    } else {
        256 * power_of_256((exponent - 1) as nat)
    }
}

/// A number of some bytes is less than the first one that takes more.
pub proof fn big_endian_is_bounded(bytes: Seq<u8>)
    ensures
        big_endian(bytes) < power_of_256(bytes.len()),
    decreases bytes.len(),
{
    if bytes.len() > 0 {
        big_endian_is_bounded(bytes.drop_last());
    }
}

/// The identifier of the device with a given Apple UDID: the first 16 bytes of its digest.
pub open spec fn device_bits(udid: Seq<char>) -> nat {
    big_endian(digest::sha256_of(encode_utf8(udid)).take(16))
}

/// The internal identifier of a device. The Apple UDID itself stays private.
pub fn device_id_for_udid(udid: &str) -> (id: RecordId)
    ensures
        id.bits == device_bits(udid@),
{
    let digest: Vec<u8> = digest::sha256(udid.as_bytes());
    let ghost head = digest@.take(16);
    let mut bits: u128 = 0;
    let mut i: usize = 0;
    proof {
        assert(head.take(0) == Seq::<u8>::empty());
    }
    while i < 16
        invariant
            i <= 16,
            digest@.len() == 32,
            head == digest@.take(16),
            bits == big_endian(head.take(i as int)),
        decreases 16 - i,
    {
        let ghost part = head.take(i as int);
        let ghost more = head.take(i + 1);
        proof {
            assert(more.drop_last() == part);
            assert(more.last() == digest@[i as int]);
            big_endian_is_bounded(part);
            assert(power_of_256(i as nat) <= power_of_256(15)) by {
                reveal_with_fuel(power_of_256, 17);
            }
            assert(power_of_256(15) == 0x1_0000_0000_0000_0000_0000_0000_0000_00nat) by {
                reveal_with_fuel(power_of_256, 17);
            }
        }
        bits = bits * 256 + digest[i] as u128;
        i = i + 1;
    }
    proof {
        assert(head.take(16) == head);
    }
    RecordId { bits }
}

impl RecordId {
    /// The text of the identifier, which is read back as it.
    pub fn text(self) -> (text: String)
        ensures
            text@ == uuid_text(self.bits),
            uuid_bits(text@) == Some(self.bits),
            text@.len() == 36,
    {
        proof {
            uuid_texts_are_plain(self.bits);
        }
        display_uuid(self.bits)
    }

    /// The identifier that a text writes.
    pub fn parse(text: &str) -> (id: Option<RecordId>)
        ensures
            id == match uuid_bits(text@) {
                Some(bits) => Some(RecordId { bits }),
                None => None::<RecordId>,
            },
    {
        match parse_uuid(text) {
            Some(bits) => Some(RecordId { bits }),
            None => None,
        }
    }
}

/// The name that an upload has while it is received: `.{id}.upload`.
pub open spec fn upload_name_of(id: RecordId) -> Seq<char> {
    "."@ + uuid_text(id.bits) + ".upload"@
}

/// The name of a stored IPA: `{id}.ipa`.
pub open spec fn stored_name_of(id: RecordId) -> Seq<char> {
    uuid_text(id.bits) + ".ipa"@
}

/// The name that a release asset has while it is received: `.source-{source}-{fresh}.upload`.
pub open spec fn source_upload_name_of(source: RecordId, fresh: RecordId) -> Seq<char> {
    ".source-"@ + uuid_text(source.bits) + "-"@ + uuid_text(fresh.bits) + ".upload"@
}

/// The name of an IPA that replaces another: its identifier and the start of its digest.
pub open spec fn replacement_name_of(app: RecordId, sha256: Seq<char>) -> Seq<char> {
    uuid_text(app.bits) + "-"@ + (if sha256.len() > 12 {
        sha256.take(12)
    } else {
        sha256
    }) + ".ipa"@
}

pub fn upload_name(id: RecordId) -> (name: String)
    ensures
        name@ == upload_name_of(id),
{
    let mut name: String = ".".to_owned();
    name.append(id.text().as_str());
    name.append(".upload");
    name
}

pub fn stored_name(id: RecordId) -> (name: String)
    ensures
        name@ == stored_name_of(id),
{
    let mut name: String = id.text();
    name.append(".ipa");
    name
}

pub fn source_upload_name(source: RecordId, fresh: RecordId) -> (name: String)
    ensures
        name@ == source_upload_name_of(source, fresh),
{
    let mut name: String = ".source-".to_owned();
    name.append(source.text().as_str());
    name.append("-");
    name.append(fresh.text().as_str());
    name.append(".upload");
    name
}

pub fn replacement_name(app: RecordId, sha256: &str) -> (name: String)
    ensures
        name@ == replacement_name_of(app, sha256@),
{
    let mut name: String = app.text();
    name.append("-");
    if sha256.unicode_len() > 12 {
        let start: &str = sha256.substring_char(0, 12);
        proof {
            assert(start@ == sha256@.take(12));
        }
        name.append(start);
    } else {
        name.append(sha256);
    }
    name.append(".ipa");
    name
}

/// A replacement never takes the name that an upload of the same app has.
pub proof fn replacement_names_differ_from_stored_names(app: RecordId, sha256: Seq<char>)
    ensures
        replacement_name_of(app, sha256) != stored_name_of(app),
{
    let replacement = replacement_name_of(app, sha256);
    let stored = stored_name_of(app);
    reveal_strlit("-");
    reveal_strlit(".ipa");
    assert(replacement.len() > stored.len());
}

proof fn lemma_digits_differ(a: nat, b: nat, length: nat)
    requires
        hex_digits(a, length) == hex_digits(b, length),
    ensures
        a % power_of_16(length) == b % power_of_16(length),
    decreases length,
{
    if length == 0 {
        assert(a % 1 == 0 && b % 1 == 0);
    } else {
        let rest = (length - 1) as nat;
        let left = hex_digits(a, length);
        let right = hex_digits(b, length);
        assert(left.drop_last() =~= hex_digits(a / 16, rest));
        assert(right.drop_last() =~= hex_digits(b / 16, rest));
        assert(left.last() == right.last());
        lemma_digits_differ(a / 16, b / 16, rest);
        if a % 16 != b % 16 {
            digest::hex_digits_are_told_apart((a % 16) as int, (b % 16) as int);
        }
        lemma_last_digit(a, rest);
        lemma_last_digit(b, rest);
    }
}

pub open spec fn power_of_16(exponent: nat) -> nat
    decreases exponent,
{
    if exponent == 0 {
        1
    } else {
        16 * power_of_16((exponent - 1) as nat)
    }
}

proof fn lemma_power_is_positive(exponent: nat)
    ensures
        power_of_16(exponent) > 0,
    decreases exponent,
{
    if exponent > 0 {
        lemma_power_is_positive((exponent - 1) as nat);
    }
}

proof fn lemma_last_digit(value: nat, rest: nat)
    ensures
        value % power_of_16(rest + 1) == 16 * ((value / 16) % power_of_16(rest)) + value % 16,
{
    lemma_power_is_positive(rest);
    let p = power_of_16(rest) as int;
    assert(power_of_16(rest + 1) == 16 * p);
    vstd::arithmetic::div_mod::lemma_mod_breakdown(value as int, 16, p);
}

/// Different identifiers have different texts.
pub proof fn identifiers_have_their_own_texts(a: u128, b: u128)
    requires
        uuid_text(a) == uuid_text(b),
    ensures
        a == b,
{
    let left = hex_digits(a as nat, 32);
    let right = hex_digits(b as nat, 32);
    lemma_hex_digits(a as nat, 32);
    lemma_hex_digits(b as nat, 32);
    hyphens_stand_between_the_digits(a);
    hyphens_stand_between_the_digits(b);
    assert forall|i: int| 0 <= i < 32 implies left[i] == right[i] by {
        let at = i + if i < 8 {
            0int
        } else if i < 12 {
            1int
        } else if i < 16 {
            2int
        } else if i < 20 {
            3int
        } else {
            4int
        };
        assert(uuid_text(a)[at] == left[i]);
        assert(uuid_text(b)[at] == right[i]);
    }
    assert(left =~= right);
    lemma_digits_differ(a as nat, b as nat, 32);
    reveal_with_fuel(power_of_16, 33);
    assert(power_of_16(32) == 0x1_0000_0000_0000_0000_0000_0000_0000_0000);
    vstd::arithmetic::div_mod::lemma_small_mod(a as nat, power_of_16(32));
    vstd::arithmetic::div_mod::lemma_small_mod(b as nat, power_of_16(32));
}

/// The text of an identifier is its 32 digits with a hyphen behind the eighth, the twelfth, the
/// sixteenth and the twentieth.
pub proof fn hyphens_stand_between_the_digits(bits: u128)
    ensures
        ({
            let text = uuid_text(bits);
            let digits = hex_digits(bits as nat, 32);
            &&& text.len() == 36
            &&& text[8] == '-' && text[13] == '-' && text[18] == '-' && text[23] == '-'
            &&& forall|i: int| 0 <= i < 8 ==> text[i] == digits[i]
            &&& forall|i: int| 8 <= i < 12 ==> text[i + 1] == digits[i]
            &&& forall|i: int| 12 <= i < 16 ==> text[i + 2] == digits[i]
            &&& forall|i: int| 16 <= i < 20 ==> text[i + 3] == digits[i]
            &&& forall|i: int| 20 <= i < 32 ==> text[i + 4] == digits[i]
        }),
{
    lemma_hex_digits(bits as nat, 32);
}

/// A digit more behind a number is the last of its digits, and the others are those of the number.
pub proof fn digits_write_their_number(value: nat, digit: nat, length: nat)
    requires
        digit < 16,
    ensures
        hex_digits(16 * value + digit, length + 1) == hex_digits(value, length).push(
            digest::hex_digit(digit as int),
        ),
        hex_digits(value, 0).len() == 0,
{
    assert((16 * value + digit) / 16 == value && (16 * value + digit) % 16 == digit);
}

/// The number that bytes write has the digits of the bytes, and each byte more makes it 256 times
/// as large and adds the byte.
pub proof fn bytes_write_the_digits_of_their_number(bytes: Seq<u8>, byte: u8)
    ensures
        hex_digits(big_endian(bytes), 2 * bytes.len()) == digest::hex_text(bytes),
        big_endian(bytes.push(byte)) == 256 * big_endian(bytes) + byte,
        big_endian(Seq::empty()) == 0,
    decreases bytes.len(),
{
    assert(bytes.push(byte).drop_last() =~= bytes);
    if bytes.len() > 0 {
        let rest = bytes.drop_last();
        let last = bytes.last();
        bytes_write_the_digits_of_their_number(rest, last);
        let value = big_endian(rest);
        digits_write_their_number(value, (last / 16) as nat, 2 * rest.len());
        digits_write_their_number(
            16 * value + (last / 16) as nat,
            (last % 16) as nat,
            2 * rest.len() + 1,
        );
        assert(big_endian(bytes) == 16 * (16 * value + (last / 16) as nat) + (last % 16) as nat);
        digest::bytes_are_written_one_by_one(rest, last, seq![last]);
        assert(rest + seq![last] =~= bytes);
        assert(hex_digits(big_endian(bytes), 2 * bytes.len()) =~= digest::hex_text(bytes));
    } else {
        assert(digest::hex_text(bytes) =~= Seq::<char>::empty());
    }
}

/// The identifier of a device has the first 32 digits of the digest of its UDID, so that devices of
/// the same identifier have digests that begin alike.
pub proof fn devices_are_identified_by_their_digests(udid: Seq<char>)
    requires
        digest::sha256_of(encode_utf8(udid)).len() == 32,
    ensures
        hex_digits(device_bits(udid), 32) == digest::hex_text(
            digest::sha256_of(encode_utf8(udid)),
        ).take(32),
{
    let whole = digest::sha256_of(encode_utf8(udid));
    let bytes = whole.take(16);
    bytes_write_the_digits_of_their_number(bytes, 0);
    digest::bytes_are_written_one_by_one(bytes, 0, whole.skip(16));
    assert(bytes + whole.skip(16) =~= whole);
    assert(digest::hex_text(whole).take(32) =~= digest::hex_text(bytes));
}

/// Different records have different files, and a file that is being received is never one that is
/// stored: its name begins with a dot.
pub proof fn records_have_their_own_files(a: RecordId, b: RecordId, sha256: Seq<char>)
    ensures
        a != b ==> stored_name_of(a) != stored_name_of(b),
        a != b ==> upload_name_of(a) != upload_name_of(b),
        upload_name_of(a)[0] == '.',
        source_upload_name_of(a, b)[0] == '.',
        stored_name_of(a)[0] != '.',
        replacement_name_of(a, sha256)[0] != '.',
        upload_name_of(a) != source_upload_name_of(a, b),
{
    reveal_strlit(".");
    reveal_strlit(".upload");
    reveal_strlit(".ipa");
    reveal_strlit(".source-");
    reveal_strlit("-");
    uuid_texts_are_plain(a.bits);
    uuid_texts_are_plain(b.bits);
    assert(text::is_ascii_hex(uuid_text(a.bits)[0]) || uuid_text(a.bits)[0] == '-');
    if stored_name_of(a) == stored_name_of(b) {
        assert(stored_name_of(a).take(36) =~= uuid_text(a.bits));
        assert(stored_name_of(b).take(36) =~= uuid_text(b.bits));
        identifiers_have_their_own_texts(a.bits, b.bits);
    }
    if upload_name_of(a) == upload_name_of(b) {
        assert(upload_name_of(a).subrange(1, 37) =~= uuid_text(a.bits));
        assert(upload_name_of(b).subrange(1, 37) =~= uuid_text(b.bits));
        identifiers_have_their_own_texts(a.bits, b.bits);
    }
    assert(upload_name_of(a).len() == 44);
    assert(source_upload_name_of(a, b).len() == 88);
}

/// The names are the texts of the identifiers between their parts. A replacement takes no more than
/// twelve characters of the digest.
pub proof fn names_are_made_of_identifiers(id: RecordId, other: RecordId, sha256: Seq<char>)
    ensures
        upload_name_of(id) == "."@ + uuid_text(id.bits) + ".upload"@,
        stored_name_of(id) == uuid_text(id.bits) + ".ipa"@,
        source_upload_name_of(id, other) == ".source-"@ + uuid_text(id.bits) + "-"@ + uuid_text(
            other.bits,
        ) + ".upload"@,
        sha256.len() >= 12 ==> replacement_name_of(id, sha256) == uuid_text(id.bits) + "-"@
            + sha256.take(12) + ".ipa"@,
        sha256.len() < 12 ==> replacement_name_of(id, sha256) == uuid_text(id.bits) + "-"@ + sha256
            + ".ipa"@,
{
    if sha256.len() == 12 {
        assert(sha256.take(12) =~= sha256);
    }
}

} // verus!
