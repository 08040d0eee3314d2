//! Dates in property lists that lie outside the years that can be read or written.
use crate::record;
use vstd::prelude::*;
use vstd::string::*;

verus! {

pub const LESS: u8 = 60;

pub const GREATER: u8 = 62;

pub const AMPERSAND: u8 = 38;

pub const EXCLAMATION: u8 = 33;

pub const QUESTION: u8 = 63;

pub const COLON: u8 = 58;

pub const QUOTE: u8 = 34;

pub const APOSTROPHE: u8 = 39;

pub const HYPHEN: u8 = 45;

pub const PLUS: u8 = 43;

pub const ZERO: u8 = 48;

pub const NINE: u8 = 57;

/// The bytes spell a word of ASCII characters at a position.
pub open spec fn spells(bytes: Seq<u8>, at: int, word: Seq<char>) -> bool {
    &&& 0 <= at
    &&& at + word.len() <= bytes.len()
    &&& forall|i: int| 0 <= i < word.len() ==> bytes[at + i] as char == #[trigger] word[i]
}

/// White space: a tab, an end of line or a space.
pub open spec fn is_space(byte: u8) -> bool {
    byte == 9 || byte == 10 || byte == 13 || byte == 32
}

/// A byte behind the start of a tag that can belong to its name. The tag ends with the first `>` that
/// is not quoted.
pub open spec fn is_name_byte(bytes: Seq<u8>, open: int, at: int) -> bool {
    &&& !is_space(bytes[at])
    &&& bytes[at] != LESS
    &&& bytes[at] == GREATER ==> has_quote(bytes, open, at)
}

/// A quote stands between two positions.
pub open spec fn has_quote(bytes: Seq<u8>, open: int, at: int) -> bool {
    exists|i: int| open < i < at && (#[trigger] bytes[i] == QUOTE || bytes[i] == APOSTROPHE)
}

/// The word `date` ends a name here: behind it comes the end of the tag, or white space.
pub open spec fn is_date_word(bytes: Seq<u8>, name: int) -> bool {
    &&& spells(bytes, name, "date"@)
    &&& name + 4 < bytes.len()
    &&& bytes[name + 4] == GREATER || is_space(bytes[name + 4])
}

/// A tag begins at `open` whose name, behind any prefix, is `date` and stands at `name`.
pub open spec fn is_date_tag(bytes: Seq<u8>, open: int, name: int) -> bool {
    &&& 0 <= open < name
    &&& is_date_word(bytes, name)
    &&& bytes[open] == LESS
    &&& name == open + 1 || bytes[name - 1] == COLON
    &&& forall|i: int| open < i < name ==> #[trigger] is_name_byte(bytes, open, i)
}

/// Where a tag ends: at the next `>` that is not quoted. It ends too with the next `<`, or with the
/// bytes. `quote` is the quote that is open, or 0.
pub open spec fn tag_end(bytes: Seq<u8>, from: int, quote: u8) -> int
    decreases bytes.len() - from,
{
    if from >= bytes.len() || bytes[from] == LESS || bytes[from] == GREATER && quote == 0 {
        from
    } else {
        tag_end(bytes, from + 1, quote_behind(bytes[from], quote))
    }
}

/// The quote that is open behind a byte.
pub open spec fn quote_behind(byte: u8, quote: u8) -> u8 {
    if quote == 0 && (byte == QUOTE || byte == APOSTROPHE) {
        byte
    } else if byte == quote {
        0
    } else {
        quote
    }
}

/// Where plain text ends: at the next markup or reference, or with the bytes.
pub open spec fn text_end(bytes: Seq<u8>, from: int) -> int
    decreases bytes.len() - from,
{
    if from >= bytes.len() || bytes[from] == LESS || bytes[from] == AMPERSAND {
        from
    } else {
        text_end(bytes, from + 1)
    }
}

/// The number that two digits write.
pub open spec fn two_digits(text: Seq<u8>, at: int) -> int {
    10 * (text[at] - ZERO) + (text[at + 1] - ZERO)
}

/// The time of the day in seconds that a date tells. A leap second counts as the one before it.
pub open spec fn second_of_day(text: Seq<u8>) -> int {
    let second = two_digits(text, 17);
    3600 * two_digits(text, 11) + 60 * two_digits(text, 14) + if second > 59 {
        59
    } else {
        second
    }
}

/// How far the time of a date is from UTC, in seconds.
pub open spec fn offset_seconds(text: Seq<u8>) -> int {
    3600 * two_digits(text, text.len() - 5) + 60 * two_digits(text, text.len() - 2)
}

/// A text begins with the day.
pub open spec fn is_of_day(text: Seq<u8>, year_digit: u8, month: u8, day: u8) -> bool {
    &&& text[0] == year_digit
    &&& text[1] == year_digit
    &&& text[2] == year_digit
    &&& text[3] == year_digit
    &&& text[4] == HYPHEN
    &&& two_digits(text, 5) == month
    &&& text[7] == HYPHEN
    &&& two_digits(text, 8) == day
}

/// A date, as RFC 3339 writes it, that lies in UTC behind the year 9999: a late time of its last day,
/// west of UTC.
pub open spec fn is_late_text(text: Seq<u8>) -> bool {
    &&& text.len() >= 25
    &&& is_of_day(text, NINE, 12, 31)
    &&& text[text.len() - 6] == HYPHEN
    &&& second_of_day(text) + offset_seconds(text) >= 86_400
}

/// A date that lies in UTC before the year 0: an early time of its first day, east of UTC.
pub open spec fn is_early_text(text: Seq<u8>) -> bool {
    &&& text.len() >= 25
    &&& is_of_day(text, ZERO, 1, 1)
    &&& text[text.len() - 6] == PLUS
    &&& second_of_day(text) < offset_seconds(text)
}

/// A date behind the year 9999, or one before the year 0.
pub open spec fn is_outside(text: Seq<u8>, late: bool) -> bool {
    if late {
        is_late_text(text)
    } else {
        is_early_text(text)
    }
}

/// The text of a date, behind its tag, lies outside the years. One that is put together across
/// references, comments, sections or instructions counts as one that does.
pub open spec fn is_outside_at(bytes: Seq<u8>, from: int, late: bool) -> bool {
    let end = text_end(bytes, from);
    ||| end < bytes.len() && (bytes[end] == AMPERSAND || is_outside(bytes.subrange(from, end), late))
    ||| end + 1 < bytes.len() && (bytes[end + 1] == EXCLAMATION || bytes[end + 1] == QUESTION)
}

/// A tag of a date begins at `open` and the date lies outside the years. A date whose tag holds a
/// `<`, or has both a quote in its prefix and attributes, counts as one that does.
pub open spec fn is_outside_tag(bytes: Seq<u8>, open: int, name: int, late: bool) -> bool {
    let close = tag_end(bytes, name + 4, 0);
    &&& is_date_tag(bytes, open, name)
    &&& {
        ||| is_space(bytes[name + 4]) && has_quote(bytes, open, name)
        ||| close < bytes.len() && (bytes[close] == LESS || is_outside_at(bytes, close + 1, late))
    }
}

/// The bytes begin as a binary property list does.
pub open spec fn is_binary(bytes: Seq<u8>) -> bool {
    spells(bytes, 0, "bplist00"@)
}

/// The number that some bytes write, the most significant first.
pub open spec fn number_at(bytes: Seq<u8>, at: int, size: int) -> nat {
    record::big_endian(bytes.subrange(at, at + size))
}

/// The bits of the last number of seconds, before the first day of 2001, that lies in the year 0. The
/// bits of a number that is less are greater.
pub const YEAR_ZERO_BITS: u64 = 0xc22d_6788_8900_0000;

/// An object of a binary property list is a date before the year 0. Its position stands in the table
/// that the end of the list names.
pub open spec fn is_early_object(bytes: Seq<u8>, index: int) -> bool {
    let length = bytes.len() as int;
    let size = bytes[length - 26] as int;
    let entry = number_at(bytes, length - 8, 8) + index * size;
    let at = number_at(bytes, entry, size) as int;
    &&& 0 <= index < number_at(bytes, length - 24, 8)
    &&& 1 <= size <= 8
    &&& entry + size <= length
    &&& at + 9 <= length
    &&& bytes[at] == 0x33
    &&& number_at(bytes, at + 1, 8) > YEAR_ZERO_BITS
}

/// A property list in XML may hold a date behind the year 9999.
pub open spec fn has_late_date(bytes: Seq<u8>) -> bool {
    !is_binary(bytes) && exists|open: int, name: int| is_outside_tag(bytes, open, name, true)
}

/// A property list may hold a date before the year 0.
pub open spec fn has_early_date(bytes: Seq<u8>) -> bool {
    if is_binary(bytes) {
        bytes.len() >= 32 && exists|index: int| is_early_object(bytes, index)
    } else {
        exists|open: int, name: int| is_outside_tag(bytes, open, name, false)
    }
}

/// Behind a start that lies in the same plain text the text ends at the same place.
proof fn lemma_text_end(bytes: Seq<u8>, start: int, from: int)
    requires
        0 <= start <= from <= text_end(bytes, start),
    ensures
        text_end(bytes, from) == text_end(bytes, start),
    decreases from - start,
{
    if start < from {
        lemma_text_end(bytes, start + 1, from);
    }
}

/// Whether the bytes spell a word of ASCII characters at a position.
fn spelled(bytes: &[u8], at: usize, word: &str) -> (result: bool)
    ensures
        result == spells(bytes@, at as int, word@),
{
    let length: usize = word.unicode_len();
    if at > bytes.len() || length > bytes.len() - at {
        return false;
    }
    let mut i: usize = 0;
    while i < length
        invariant
            i <= length,
            length == word@.len(),
            at + length <= bytes@.len(),
            at + length <= usize::MAX,
            forall|k: int| 0 <= k < i ==> bytes@[at + k] as char == #[trigger] word@[k],
        decreases length - i,
    {
        if bytes[at + i] as char != word.get_char(i) {
            proof {
                assert(bytes@[at + i] as char != word@[i as int]);
            }
            return false;
        }
        i = i + 1;
    }
    true
}

fn is_white(byte: u8) -> (result: bool)
    ensures
        result == is_space(byte),
{
    byte == 9 || byte == 10 || byte == 13 || byte == 32
}

fn find_text_end(bytes: &[u8], from: usize) -> (end: usize)
    requires
        from <= bytes@.len(),
    ensures
        end == text_end(bytes@, from as int),
        from <= end <= bytes@.len(),
{
    let mut end: usize = from;
    while end < bytes.len() && bytes[end] != LESS && bytes[end] != AMPERSAND
        invariant
            from <= end <= bytes@.len(),
            text_end(bytes@, from as int) == text_end(bytes@, end as int),
        decreases bytes@.len() - end,
    {
        end = end + 1;
    }
    end
}

fn find_tag_end(bytes: &[u8], from: usize) -> (end: usize)
    requires
        from <= bytes@.len(),
    ensures
        end == tag_end(bytes@, from as int, 0),
        from <= end <= bytes@.len(),
        end < bytes@.len() ==> bytes@[end as int] == LESS || bytes@[end as int] == GREATER,
{
    let mut end: usize = from;
    let mut quote: u8 = 0;
    while end < bytes.len() && bytes[end] != LESS && (bytes[end] != GREATER || quote != 0)
        invariant
            from <= end <= bytes@.len(),
            tag_end(bytes@, from as int, 0) == tag_end(bytes@, end as int, quote),
        decreases bytes@.len() - end,
    {
        if quote == 0 && (bytes[end] == QUOTE || bytes[end] == APOSTROPHE) {
            quote = bytes[end];
        } else if bytes[end] == quote {
            quote = 0;
        }
        end = end + 1;
    }
    end
}

/// The number that two digits between two positions of the bytes write.
fn read_two(bytes: &[u8], at: usize) -> (number: i64)
    requires
        at + 1 < bytes@.len(),
    ensures
        number == two_digits(bytes@, at as int),
        -1000 <= number <= 3000,
{
    10 * (bytes[at] as i64 - 48) + (bytes[at + 1] as i64 - 48)
}

/// Whether the text of a date between two positions lies outside the years.
fn outside(bytes: &[u8], from: usize, end: usize, late: bool) -> (result: bool)
    requires
        from <= end <= bytes@.len(),
    ensures
        result == is_outside(bytes@.subrange(from as int, end as int), late),
{
    let ghost text = bytes@.subrange(from as int, end as int);
    if end - from < 25 {
        return false;
    }
    proof {
        assert forall|i: int| 0 <= i < text.len() implies text[i] == bytes@[from + i] by {}
    }
    let digit: u8 = if late {
        NINE
    } else {
        ZERO
    };
    let (month, day): (i64, i64) = if late {
        (12, 31)
    } else {
        (1, 1)
    };
    if !(bytes[from] == digit && bytes[from + 1] == digit && bytes[from + 2] == digit && bytes[from
        + 3] == digit && bytes[from + 4] == HYPHEN && bytes[from + 7] == HYPHEN) {
        return false;
    }
    if read_two(bytes, from + 5) != month || read_two(bytes, from + 8) != day {
        return false;
    }
    let told: i64 = read_two(bytes, from + 17);
    let second: i64 = if told > 59 {
        59
    } else {
        told
    };
    let time: i64 = 3600 * read_two(bytes, from + 11) + 60 * read_two(bytes, from + 14) + second;
    let offset: i64 = 3600 * read_two(bytes, end - 5) + 60 * read_two(bytes, end - 2);
    if late {
        bytes[end - 6] == HYPHEN && time + offset >= 86_400
    } else {
        bytes[end - 6] == PLUS && time < offset
    }
}

/// Whether the word `date` ends a name at a position.
fn date_word(bytes: &[u8], name: usize) -> (result: bool)
    ensures
        result == is_date_word(bytes@, name as int),
{
    proof {
        reveal_strlit("date");
    }
    bytes.len() > 4 && name < bytes.len() - 4 && spelled(bytes, name, "date") && (bytes[name + 4]
        == GREATER || is_white(bytes[name + 4]))
}

/// Whether a property list in XML may hold a date outside the years. Each byte is read a few times at
/// most.
fn outside_date(bytes: &[u8], late: bool) -> (found: bool)
    ensures
        found == exists|open: int, name: int| is_outside_tag(bytes@, open, name, late),
{
    let mut tag: Option<usize> = None;
    let mut quoted: bool = false;
    let mut start: usize = 0;
    let mut end: usize = find_text_end(bytes, 0);
    let mut i: usize = 0;
    while i < bytes.len()
        invariant
            i <= bytes@.len(),
            start <= end <= bytes@.len(),
            end == text_end(bytes@, start as int),
            tag matches Some(open) ==> {
                &&& open < i
                &&& bytes@[open as int] == LESS
                &&& forall|k: int| open < k < i ==> #[trigger] is_name_byte(bytes@, open as int, k)
                &&& quoted == has_quote(bytes@, open as int, i as int)
            },
            forall|open: int|
                0 <= open < i && #[trigger] bytes@[open] == LESS && (forall|k: int|
                    open < k < i ==> #[trigger] is_name_byte(bytes@, open, k)) ==> tag == Some(
                    open as usize,
                ),
            forall|open: int, name: int|
                name < i ==> !#[trigger] is_outside_tag(bytes@, open, name, late),
        decreases bytes@.len() - i,
    {
        let byte: u8 = bytes[i];
        if let Some(open) = tag {
            if (i == open + 1 || bytes[i - 1] == COLON) && date_word(bytes, i) {
                let close: usize = find_tag_end(bytes, i + 4);
                if (is_white(bytes[i + 4]) && quoted) || (close < bytes.len() && bytes[close]
                    == LESS) {
                    proof {
                        assert(is_outside_tag(bytes@, open as int, i as int, late));
                    }
                    return true;
                }
                if close < bytes.len() {
                    let from: usize = close + 1;
                    if from < start || from > end {
                        start = from;
                        end = find_text_end(bytes, from);
                    } else {
                        proof {
                            lemma_text_end(bytes@, start as int, from as int);
                        }
                    }
                    if (end < bytes.len() && (bytes[end] == AMPERSAND || outside(
                        bytes,
                        from,
                        end,
                        late,
                    ))) || (end < bytes.len() - 1 && (bytes[end + 1] == EXCLAMATION || bytes[end + 1]
                        == QUESTION)) {
                        proof {
                            assert(is_outside_tag(bytes@, open as int, i as int, late));
                        }
                        return true;
                    }
                }
            }
        }
        proof {
            assert forall|open: int, name: int| name < i + 1 implies !#[trigger] is_outside_tag(
                bytes@,
                open,
                name,
                late,
            ) by {
                if name == i && is_date_tag(bytes@, open, name) {
                    assert(bytes@[open] == LESS);
                    assert(tag == Some(open as usize));
                }
            }
        }
        let ghost before = tag;
        if byte == LESS {
            tag = Some(i);
            quoted = false;
        } else if is_white(byte) || (byte == GREATER && !quoted) {
            tag = None;
        } else if byte == QUOTE || byte == APOSTROPHE {
            quoted = true;
        }
        proof {
            if let Some(open) = tag {
                let open = open as int;
                if open < i {
                    assert(before == tag);
                    assert(is_name_byte(bytes@, open, i as int));
                    if has_quote(bytes@, open, i as int) {
                        let q = choose|q: int|
                            open < q < i && (#[trigger] bytes@[q] == QUOTE || bytes@[q] == APOSTROPHE);
                        assert(bytes@[q] == QUOTE || bytes@[q] == APOSTROPHE);
                    }
                    if byte == QUOTE || byte == APOSTROPHE {
                        assert(bytes@[i as int] == QUOTE || bytes@[i as int] == APOSTROPHE);
                    }
                    assert(quoted == has_quote(bytes@, open, i + 1));
                }
            }
            assert forall|open: int|
                0 <= open < i + 1 && #[trigger] bytes@[open] == LESS && (forall|k: int|
                    open < k < i + 1 ==> #[trigger] is_name_byte(bytes@, open, k)) implies tag
                == Some(open as usize) by {
                if open < i {
                    assert(before == Some(open as usize));
                    assert(is_name_byte(bytes@, open, i as int));
                }
            }
        }
        i = i + 1;
    }
    proof {
        assert forall|open: int, name: int| !#[trigger] is_outside_tag(bytes@, open, name, late) by {
            if is_outside_tag(bytes@, open, name, late) {
                assert(name < i);
            }
        }
    }
    false
}

fn begins_binary(bytes: &[u8]) -> (result: bool)
    ensures
        result == is_binary(bytes@),
{
    spelled(bytes, 0, "bplist00")
}

/// Whether a property list in XML may hold a date behind the year 9999.
pub fn late_date(bytes: &[u8]) -> (found: bool)
    ensures
        found == has_late_date(bytes@),
{
    !begins_binary(bytes) && outside_date(bytes, true)
}

/// The number that up to eight bytes write.
fn read_number(bytes: &[u8], at: usize, size: usize) -> (number: u64)
    requires
        at + size <= bytes@.len(),
        size <= 8,
    ensures
        number == number_at(bytes@, at as int, size as int),
{
    let ghost part = bytes@.subrange(at as int, at + size);
    let length: usize = bytes.len();
    let mut number: u64 = 0;
    let mut i: usize = 0;
    proof {
        assert(part.take(0) == Seq::<u8>::empty());
    }
    while i < size
        invariant
            i <= size <= 8,
            length == bytes@.len(),
            at + size <= length,
            part == bytes@.subrange(at as int, at + size),
            number == record::big_endian(part.take(i as int)),
        decreases size - i,
    {
        proof {
            assert(part.take(i + 1).drop_last() == part.take(i as int));
            assert(part.take(i + 1).last() == bytes@[at + i]);
            record::big_endian_is_bounded(part.take(i as int));
            assert(record::power_of_256(i as nat) <= record::power_of_256(7)) by {
                reveal_with_fuel(record::power_of_256, 9);
            }
            assert(record::power_of_256(7) == 0x100_0000_0000_0000nat) by {
                reveal_with_fuel(record::power_of_256, 9);
            }
        }
        number = number * 256 + bytes[at + i] as u64;
        i = i + 1;
    }
    proof {
        assert(part.take(size as int) == part);
    }
    number
}

/// Whether a binary property list holds a date before the year 0 among its objects.
fn early_object(bytes: &[u8]) -> (found: bool)
    ensures
        found == (bytes@.len() >= 32 && exists|index: int| is_early_object(bytes@, index)),
{
    if bytes.len() < 32 {
        return false;
    }
    let length: usize = bytes.len();
    let size: usize = bytes[length - 26] as usize;
    let count: u64 = read_number(bytes, length - 24, 8);
    let table: u64 = read_number(bytes, length - 8, 8);
    if size < 1 || size > 8 || table > length as u64 {
        proof {
            assert forall|index: int| !is_early_object(bytes@, index) by {
                if is_early_object(bytes@, index) {
                    assert(index * size >= 0) by (nonlinear_arith)
                        requires
                            index >= 0,
                            size >= 0,
                    ;
                }
            }
        }
        return false;
    }
    let mut entry: usize = table as usize;
    let mut index: u64 = 0;
    proof {
        assert(0 * size == 0) by (nonlinear_arith);
    }
    while index < count && size <= length - entry
        invariant
            length == bytes@.len(),
            length >= 32,
            1 <= size <= 8,
            size == bytes@[length - 26],
            count == number_at(bytes@, length - 24, 8),
            table == number_at(bytes@, length - 8, 8),
            entry <= length,
            index <= count,
            entry == table + index * size,
            forall|k: int| 0 <= k < index ==> !is_early_object(bytes@, k),
        decreases length - entry,
    {
        let at: u64 = read_number(bytes, entry, size);
        if length >= 9 && at <= (length - 9) as u64 && bytes[at as usize] == 0x33 && read_number(
            bytes,
            at as usize + 1,
            8,
        ) > YEAR_ZERO_BITS {
            proof {
                assert(is_early_object(bytes@, index as int));
            }
            return true;
        }
        proof {
            assert(!is_early_object(bytes@, index as int));
            assert((index + 1) * size == index * size + size) by (nonlinear_arith);
        }
        entry = entry + size;
        index = index + 1;
    }
    proof {
        assert forall|k: int| !is_early_object(bytes@, k) by {
            if k >= index {
                assert(k * size >= index * size) by (nonlinear_arith)
                    requires
                        k >= index,
                        size >= 0,
                ;
            }
        }
    }
    false
}

/// Whether a property list may hold a date before the year 0.
pub fn early_date(bytes: &[u8]) -> (found: bool)
    ensures
        found == has_early_date(bytes@),
{
    if begins_binary(bytes) {
        early_object(bytes)
    } else {
        outside_date(bytes, false)
    }
}

/// The bytes of a text of ASCII characters.
pub open spec fn ascii(text: Seq<char>) -> Seq<u8> {
    text.map_values(|c: char| c as u8)
}

/// A date whose text lies outside the years is found wherever it stands in a list of XML: behind its
/// tag, and before the next markup.
pub proof fn dates_outside_the_years_are_found(front: Seq<u8>, text: Seq<u8>, back: Seq<u8>)
    requires
        forall|i: int| 0 <= i < text.len() ==> #[trigger] text[i] != LESS && text[i] != AMPERSAND,
    ensures
        ({
            let bytes = front + ascii("<date>"@) + text + ascii("<"@) + back;
            &&& is_late_text(text) && !is_binary(bytes) ==> has_late_date(bytes)
            &&& is_early_text(text) && !is_binary(bytes) ==> has_early_date(bytes)
        }),
{
    reveal_strlit("<date>");
    reveal_strlit("<");
    reveal_strlit("date");
    let bytes = front + ascii("<date>"@) + text + ascii("<"@) + back;
    let open = front.len() as int;
    let name = open + 1;
    let from = open + 6;
    let end = from + text.len();
    assert(bytes[open] == LESS);
    assert(bytes[open + 1] == 100 && bytes[open + 2] == 97 && bytes[open + 3] == 116 && bytes[open
        + 4] == 101);
    assert(bytes[open + 5] == GREATER);
    assert(bytes[end] == LESS);
    assert(spells(bytes, name, "date"@)) by {
        assert forall|i: int| 0 <= i < 4 implies bytes[name + i] as char
            == #[trigger] "date"@[i] by {}
    }
    assert(is_date_tag(bytes, open, name));
    assert(tag_end(bytes, name + 4, 0) == name + 4);
    assert forall|i: int| from <= i < end implies #[trigger] bytes[i] == text[i - from] by {}
    lemma_plain_until(bytes, from, end);
    assert(bytes.subrange(from, end) =~= text);
    if is_late_text(text) {
        assert(is_outside_at(bytes, from, true));
        assert(is_outside_tag(bytes, open, name, true));
    }
    if is_early_text(text) {
        assert(is_outside_at(bytes, from, false));
        assert(is_outside_tag(bytes, open, name, false));
    }
}

proof fn lemma_plain_until(bytes: Seq<u8>, from: int, end: int)
    requires
        0 <= from <= end < bytes.len(),
        bytes[end] == LESS,
        forall|i: int| from <= i < end ==> #[trigger] bytes[i] != LESS && bytes[i] != AMPERSAND,
    ensures
        text_end(bytes, from) == end,
    decreases end - from,
{
    if from < end {
        lemma_plain_until(bytes, from + 1, end);
    }
}

/// A list of XML that holds no tag of a date holds no date outside the years.
pub proof fn lists_without_dates_are_read(bytes: Seq<u8>)
    requires
        forall|name: int| !#[trigger] spells(bytes, name, "date"@),
    ensures
        !has_late_date(bytes),
        !is_binary(bytes) ==> !has_early_date(bytes),
{
    assert forall|open: int, name: int, late: bool| !is_outside_tag(bytes, open, name, late) by {
        assert(!spells(bytes, name, "date"@));
    }
}

/// A date is late where it is of the last day of the year 9999, west of UTC, and its time and the
/// distance from UTC make up a day or more. It is early where it is of the first day of the year 0,
/// east of UTC, and less time has passed than the distance.
pub proof fn dates_are_outside_by_their_distance(
    text: Seq<u8>,
    hours: int,
    minutes: int,
    seconds: int,
)
    requires
        text.len() == 25,
        hours == 10 * (text[11] - 48) + (text[12] - 48),
        minutes == 10 * (text[14] - 48) + (text[15] - 48),
        seconds == 10 * (text[17] - 48) + (text[18] - 48),
        seconds <= 59,
    ensures
        ({
            let away = 3600 * (10 * (text[20] - 48) + (text[21] - 48)) + 60 * (10 * (text[23] - 48)
                + (text[24] - 48));
            let time = 3600 * hours + 60 * minutes + seconds;
            &&& text.take(10) == ascii("9999-12-31"@) && text[19] == 45 ==> (is_late_text(text)
                <==> time + away >= 86_400)
            &&& text.take(10) == ascii("0000-01-01"@) && text[19] == 43 ==> (is_early_text(text)
                <==> time < away)
        }),
{
    reveal_strlit("9999-12-31");
    reveal_strlit("0000-01-01");
    let day = text.take(10);
    assert(day[0] == text[0] && day[1] == text[1] && day[2] == text[2] && day[3] == text[3]);
    assert(day[4] == text[4] && day[5] == text[5] && day[6] == text[6] && day[7] == text[7]);
    assert(day[8] == text[8] && day[9] == text[9]);
    if day == ascii("9999-12-31"@) {
        assert(day[0] == 57 && day[1] == 57 && day[2] == 57 && day[3] == 57 && day[4] == 45
            && day[5] == 49 && day[6] == 50 && day[7] == 45 && day[8] == 51 && day[9] == 49);
    }
    if day == ascii("0000-01-01"@) {
        assert(day[0] == 48 && day[1] == 48 && day[2] == 48 && day[3] == 48 && day[4] == 45
            && day[5] == 48 && day[6] == 49 && day[7] == 45 && day[8] == 48 && day[9] == 49);
    }
}

/// A quote hides the end of a tag until the same quote closes it; the other kind of quote does not
/// close it.
pub proof fn quotes_hide_the_end_of_a_tag(byte: u8, quote: u8)
    ensures
        byte == QUOTE || byte == APOSTROPHE ==> quote_behind(byte, 0) == byte,
        byte != QUOTE && byte != APOSTROPHE ==> quote_behind(byte, 0) == 0,
        quote != 0 && byte == quote ==> quote_behind(byte, quote) == 0,
        quote != 0 && byte != quote ==> quote_behind(byte, quote) == quote,
        QUOTE as char == '"',
        APOSTROPHE as char == '\'',
        LESS as char == '<',
        GREATER as char == '>',
        AMPERSAND as char == '&',
{
}

/// Plain bytes of a tag do not end it, and the next `>` outside quotes does.
pub proof fn tags_end_at_the_next_bracket(bytes: Seq<u8>, from: int, end: int)
    requires
        0 <= from <= end < bytes.len(),
        forall|i: int|
            from <= i < end ==> #[trigger] bytes[i] != LESS && bytes[i] != GREATER && bytes[i]
                != QUOTE && bytes[i] != APOSTROPHE,
        bytes[end] == GREATER || bytes[end] == LESS,
    ensures
        tag_end(bytes, from, 0) == end,
    decreases end - from,
{
    if from < end {
        assert(bytes[from] != LESS && bytes[from] != GREATER);
        assert(quote_behind(bytes[from], 0) == 0) by {
            assert(bytes[from] != QUOTE && bytes[from] != APOSTROPHE);
        }
        tags_end_at_the_next_bracket(bytes, from + 1, end);
    }
}

} // verus!
