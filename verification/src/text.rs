//! Text as sequences of characters: trimming, splitting, searching and ordering.
use vstd::prelude::*;
use vstd::string::*;
use vstd::utf8::*;

verus! {

/// `String::push` appends the given character to the end of the string.
pub assume_specification[ std::string::String::push ](string: &mut std::string::String, c: char)
    ensures
        final(string)@ == old(string)@.push(c),
;

/// The Unicode property `White_Space`.
pub open spec fn is_white_space(c: char) -> bool {
    ||| '\u{9}' <= c <= '\u{d}'
    ||| c == '\u{20}'
    ||| c == '\u{85}'
    ||| c == '\u{a0}'
    ||| c == '\u{1680}'
    ||| '\u{2000}' <= c <= '\u{200a}'
    ||| c == '\u{2028}'
    ||| c == '\u{2029}'
    ||| c == '\u{202f}'
    ||| c == '\u{205f}'
    ||| c == '\u{3000}'
}

/// The Unicode general category `Cc`.
pub open spec fn is_control(c: char) -> bool {
    c <= '\u{1f}' || '\u{7f}' <= c <= '\u{9f}'
}

/// The control characters of ASCII.
pub open spec fn is_ascii_control(c: char) -> bool {
    c <= '\u{1f}' || c == '\u{7f}'
}

pub open spec fn is_ascii_digit(c: char) -> bool {
    '0' <= c <= '9'
}

pub open spec fn is_ascii_letter(c: char) -> bool {
    'a' <= c <= 'z' || 'A' <= c <= 'Z'
}

pub open spec fn is_ascii_hex(c: char) -> bool {
    is_ascii_digit(c) || 'a' <= c <= 'f' || 'A' <= c <= 'F'
}

/// The text without its leading white space.
pub open spec fn without_leading_space(text: Seq<char>) -> Seq<char>
    decreases text.len(),
{
    if text.len() > 0 && is_white_space(text[0]) {
        without_leading_space(text.skip(1))
    } else {
        text
    }
}

/// The text without its trailing white space.
pub open spec fn without_trailing_space(text: Seq<char>) -> Seq<char>
    decreases text.len(),
{
    if text.len() > 0 && is_white_space(text.last()) {
        without_trailing_space(text.drop_last())
    } else {
        text
    }
}

/// The text without the white space at its two ends.
pub open spec fn trimmed(text: Seq<char>) -> Seq<char> {
    without_trailing_space(without_leading_space(text))
}

/// The lower-case form of an ASCII letter; every other character is kept.
pub open spec fn ascii_lower(c: char) -> char {
    if 'A' <= c <= 'Z' {
        ((c as u8) + 32) as char
    } else {
        c
    }
}

pub open spec fn lowered(text: Seq<char>) -> Seq<char> {
    text.map_values(|c: char| ascii_lower(c))
}

/// The parts of a text between the occurrences of a separator, empty parts among them.
pub open spec fn split_on(text: Seq<char>, separator: char) -> Seq<Seq<char>>
    decreases text.len(),
{
    if text.len() == 0 {
        seq![Seq::empty()]
    } else {
        let before = split_on(text.drop_last(), separator);
        if text.last() == separator {
            before.push(Seq::empty())
        } else {
            before.drop_last().push(before.last().push(text.last()))
        }
    }
}

/// A text made of parts with a separator between each two of them.
pub open spec fn joined(parts: Seq<Seq<char>>, separator: char) -> Seq<char>
    decreases parts.len(),
{
    if parts.len() == 0 {
        Seq::empty()
    } else if parts.len() == 1 {
        parts[0]
    } else {
        joined(parts.drop_last(), separator).push(separator) + parts.last()
    }
}

/// `part` stands in `text` from position `at` on.
pub open spec fn occurs_at(text: Seq<char>, part: Seq<char>, at: int) -> bool {
    &&& 0 <= at
    &&& at + part.len() <= text.len()
    &&& text.subrange(at, at + part.len()) == part
}

pub open spec fn begins_with(text: Seq<char>, prefix: Seq<char>) -> bool {
    occurs_at(text, prefix, 0)
}

pub open spec fn finishes_with(text: Seq<char>, suffix: Seq<char>) -> bool {
    occurs_at(text, suffix, text.len() - suffix.len())
}

/// The text behind a prefix that it begins with.
pub open spec fn after_prefix(text: Seq<char>, prefix: Seq<char>) -> Option<Seq<char>> {
    if begins_with(text, prefix) {
        Some(text.skip(prefix.len() as int))
    } else {
        None
    }
}

/// The order of a dictionary, character by character; a proper prefix comes first.
pub open spec fn text_less(a: Seq<char>, b: Seq<char>) -> bool
    decreases b.len(),
{
    if b.len() == 0 {
        false
    } else if a.len() == 0 {
        true
    } else {
        a[0] < b[0] || (a[0] == b[0] && text_less(a.skip(1), b.skip(1)))
    }
}

pub open spec fn text_at_most(a: Seq<char>, b: Seq<char>) -> bool {
    !text_less(b, a)
}

/// The text of an optional string, nothing where there is none.
pub open spec fn text_view(text: Option<String>) -> Option<Seq<char>> {
    match text {
        Some(text) => Some(text@),
        None => None,
    }
}

/// The text of an optional borrowed string.
pub open spec fn str_view(text: Option<&str>) -> Option<Seq<char>> {
    match text {
        Some(text) => Some(text@),
        None => None,
    }
}

pub open spec fn text_views(texts: Seq<String>) -> Seq<Seq<char>> {
    texts.map_values(|text: String| text@)
}

pub open spec fn char_views(texts: Seq<Vec<char>>) -> Seq<Seq<char>> {
    texts.map_values(|text: Vec<char>| text@)
}

/// Text order is strict: nothing comes before itself.
pub proof fn text_order_is_irreflexive(a: Seq<char>)
    ensures
        !text_less(a, a),
    decreases a.len(),
{
    if a.len() > 0 {
        text_order_is_irreflexive(a.skip(1));
    }
}

/// Text order is transitive.
pub proof fn text_order_is_transitive(a: Seq<char>, b: Seq<char>, c: Seq<char>)
    requires
        text_less(a, b),
        text_less(b, c),
    ensures
        text_less(a, c),
    decreases a.len(),
{
    if a.len() > 0 && a[0] == b[0] && b[0] == c[0] {
        text_order_is_transitive(a.skip(1), b.skip(1), c.skip(1));
    }
}

/// Of two different texts one comes before the other.
pub proof fn text_order_is_total(a: Seq<char>, b: Seq<char>)
    ensures
        a == b || text_less(a, b) || text_less(b, a),
    decreases a.len(),
{
    if a.len() == 0 || b.len() == 0 {
        if a.len() == b.len() {
            assert(a == b);
        }
    } else if a[0] == b[0] {
        text_order_is_total(a.skip(1), b.skip(1));
        if a.skip(1) == b.skip(1) {
            assert(a == seq![a[0]] + a.skip(1));
            assert(b == seq![b[0]] + b.skip(1));
        }
    }
}

/// Of two texts no more than one comes before the other.
pub proof fn text_order_is_asymmetric(a: Seq<char>, b: Seq<char>)
    requires
        text_less(a, b),
    ensures
        !text_less(b, a),
{
    if text_less(b, a) {
        text_order_is_transitive(a, b, a);
        text_order_is_irreflexive(a);
    }
}

/// The text order with equality is transitive.
pub proof fn text_at_most_is_transitive(a: Seq<char>, b: Seq<char>, c: Seq<char>)
    requires
        text_at_most(a, b),
        text_at_most(b, c),
    ensures
        text_at_most(a, c),
{
    text_order_is_total(a, b);
    text_order_is_total(b, c);
    text_order_is_irreflexive(a);
    if text_less(c, a) {
        if a != b {
            text_order_is_transitive(c, a, b);
        }
        text_order_is_irreflexive(c);
        if b != c && a != b {
            text_order_is_transitive(b, c, b);
            text_order_is_irreflexive(b);
        } else if b != c {
            text_order_is_transitive(b, c, a);
            text_order_is_irreflexive(a);
        }
    }
}

/// Two texts with the same encoding are the same text.
pub proof fn same_encoding_same_text(a: Seq<char>, b: Seq<char>)
    requires
        encode_utf8(a) == encode_utf8(b),
    ensures
        a == b,
{
    encode_utf8_decode_utf8(a);
    encode_utf8_decode_utf8(b);
}

/// There is always a first part.
pub proof fn split_is_never_empty(text: Seq<char>, separator: char)
    ensures
        split_on(text, separator).len() > 0,
    decreases text.len(),
{
    if text.len() > 0 {
        split_is_never_empty(text.drop_last(), separator);
    }
}

/// Splitting a text loses nothing: joining the parts gives it back.
pub proof fn joining_undoes_splitting(text: Seq<char>, separator: char)
    ensures
        joined(split_on(text, separator), separator) == text,
    decreases text.len(),
{
    if text.len() > 0 {
        let before = split_on(text.drop_last(), separator);
        joining_undoes_splitting(text.drop_last(), separator);
        split_is_never_empty(text.drop_last(), separator);
        assert(text == text.drop_last().push(text.last()));
        if text.last() == separator {
            let parts = before.push(Seq::empty());
            assert(parts.drop_last() == before);
            assert(joined(parts, separator) == joined(before, separator).push(separator));
        } else {
            let parts = before.drop_last().push(before.last().push(text.last()));
            assert(parts.drop_last() == before.drop_last());
            if before.len() > 1 {
                assert(joined(parts, separator) == (joined(before.drop_last(), separator).push(
                    separator,
                ) + before.last()).push(text.last()));
            }
        }
    }
}

/// No part of a split text holds the separator.
pub proof fn parts_hold_no_separator(text: Seq<char>, separator: char, part: int)
    requires
        0 <= part < split_on(text, separator).len(),
    ensures
        !split_on(text, separator)[part].contains(separator),
    decreases text.len(),
{
    if text.len() > 0 {
        let before = split_on(text.drop_last(), separator);
        split_is_never_empty(text.drop_last(), separator);
        if part < before.len() {
            parts_hold_no_separator(text.drop_last(), separator, part);
        }
        if text.last() != separator && part == before.len() - 1 {
            let longer = before.last().push(text.last());
            assert(split_on(text, separator)[part] == longer);
            assert forall|i: int| 0 <= i < longer.len() implies longer[i] != separator by {
                if i < before.last().len() {
                    assert(before[part].contains(before[part][i]));
                }
            }
        }
    }
}

/// The first difference of two texts decides their order: the one with the smaller character comes
/// first, and one that ends where the other goes on comes before it.
pub proof fn the_first_difference_decides(a: Seq<char>, b: Seq<char>, at: int)
    requires
        0 <= at <= a.len(),
        at <= b.len(),
        a.take(at) == b.take(at),
    ensures
        at < a.len() && at < b.len() && a[at] < b[at] ==> text_less(a, b) && !text_less(b, a),
        at == a.len() && at < b.len() ==> text_less(a, b) && !text_less(b, a),
    decreases at,
{
    if at > 0 {
        assert(a[0] == a.take(at)[0] && b[0] == b.take(at)[0]);
        assert(a.skip(1).take(at - 1) == a.take(at).skip(1));
        assert(b.skip(1).take(at - 1) == b.take(at).skip(1));
        the_first_difference_decides(a.skip(1), b.skip(1), at - 1);
    }
}

proof fn lemma_leading_space(left: Seq<char>, rest: Seq<char>)
    requires
        forall|i: int| 0 <= i < left.len() ==> is_white_space(#[trigger] left[i]),
    ensures
        without_leading_space(left + rest) == without_leading_space(rest),
    decreases left.len(),
{
    if left.len() > 0 {
        assert((left + rest)[0] == left[0]);
        assert((left + rest).skip(1) == left.skip(1) + rest);
        lemma_leading_space(left.skip(1), rest);
    } else {
        assert(left + rest == rest);
    }
}

proof fn lemma_trailing_space(rest: Seq<char>, right: Seq<char>)
    requires
        forall|i: int| 0 <= i < right.len() ==> is_white_space(#[trigger] right[i]),
    ensures
        without_trailing_space(rest + right) == without_trailing_space(rest),
    decreases right.len(),
{
    if right.len() > 0 {
        assert((rest + right).last() == right[right.len() - 1]);
        assert((rest + right).drop_last() == rest + right.drop_last());
        lemma_trailing_space(rest, right.drop_last());
    } else {
        assert(rest + right == rest);
    }
}

/// Trimming removes the white space around a text and nothing else.
pub proof fn trimming_removes_the_space_around(left: Seq<char>, core: Seq<char>, right: Seq<char>)
    requires
        forall|i: int| 0 <= i < left.len() ==> is_white_space(#[trigger] left[i]),
        forall|i: int| 0 <= i < right.len() ==> is_white_space(#[trigger] right[i]),
        core.len() > 0 ==> !is_white_space(core[0]) && !is_white_space(core.last()),
    ensures
        trimmed(left + core + right) == core,
{
    assert(left + core + right == left + (core + right));
    lemma_leading_space(left, core + right);
    if core.len() > 0 {
        assert((core + right)[0] == core[0]);
        lemma_trailing_space(core, right);
    } else {
        assert(core + right == right);
        assert(right == right + Seq::<char>::empty());
        lemma_leading_space(right, Seq::empty());
        assert(core == Seq::<char>::empty());
    }
}

/// The characters that are typed as space are white space, and no visible character of ASCII is.
pub proof fn typed_space_is_white_space(c: char)
    ensures
        c == ' ' || c == '\t' || c == '\n' || c == '\r' ==> is_white_space(c),
        '!' <= c <= '~' ==> !is_white_space(c),
{
}

/// Lowering changes the capital letters of ASCII alone, each to the small letter in the same place
/// of the alphabet, and a second time nothing.
pub proof fn lowering_changes_capitals_only(text: Seq<char>, at: int)
    requires
        0 <= at < text.len(),
    ensures
        lowered(text).len() == text.len(),
        'A' <= text[at] <= 'Z' ==> lowered(text)[at] as int - 'a' as int == text[at] as int
            - 'A' as int,
        !('A' <= text[at] <= 'Z') ==> lowered(text)[at] == text[at],
        lowered(lowered(text)) == lowered(text),
{
    assert(lowered(lowered(text)) =~= lowered(text));
}

/// Splitting finds the parts that a text was joined of, where none of them holds the separator.
pub proof fn splitting_undoes_joining(parts: Seq<Seq<char>>, separator: char)
    requires
        parts.len() > 0,
        forall|i: int| 0 <= i < parts.len() ==> !(#[trigger] parts[i]).contains(separator),
    ensures
        split_on(joined(parts, separator), separator) == parts,
    decreases parts.len(),
{
    if parts.len() == 1 {
        lemma_unsplit(parts[0], separator);
        assert(seq![parts[0]] == parts);
    } else {
        let before = parts.drop_last();
        assert forall|i: int| 0 <= i < before.len() implies !(#[trigger] before[i]).contains(
            separator,
        ) by {
            assert(before[i] == parts[i]);
        }
        splitting_undoes_joining(before, separator);
        assert(!parts[parts.len() - 1].contains(separator));
        lemma_split_behind(joined(before, separator), parts.last(), separator);
        assert(before.push(parts.last()) == parts);
    }
}

/// Joining one run of parts behind another puts the separator between the two texts.
pub proof fn joining_is_associative(front: Seq<Seq<char>>, back: Seq<Seq<char>>, separator: char)
    requires
        front.len() > 0,
        back.len() > 0,
    ensures
        joined(front + back, separator) == joined(front, separator).push(separator) + joined(
            back,
            separator,
        ),
    decreases back.len(),
{
    let all = front + back;
    assert(all.drop_last() == front + back.drop_last());
    assert(all.last() == back.last());
    if back.len() == 1 {
        assert(front + back.drop_last() == front);
        assert(back.last() == back[0]);
    } else {
        joining_is_associative(front, back.drop_last(), separator);
        assert(joined(all, separator) == joined(front, separator).push(separator) + joined(
            back,
            separator,
        ));
    }
}

proof fn lemma_unsplit(text: Seq<char>, separator: char)
    requires
        !text.contains(separator),
    ensures
        split_on(text, separator) == seq![text],
    decreases text.len(),
{
    if text.len() > 0 {
        let before = text.drop_last();
        assert(text[text.len() - 1] != separator);
        assert forall|i: int| 0 <= i < before.len() implies before[i] != separator by {
            assert(text[i] != separator);
        }
        lemma_unsplit(before, separator);
        assert(seq![before].drop_last() == Seq::<Seq<char>>::empty());
        assert(before.push(text.last()) == text);
        assert(split_on(text, separator) == seq![text]);
    } else {
        assert(text == Seq::<char>::empty());
    }
}

proof fn lemma_split_behind(front: Seq<char>, part: Seq<char>, separator: char)
    requires
        !part.contains(separator),
    ensures
        split_on(front.push(separator) + part, separator) == split_on(front, separator).push(part),
    decreases part.len(),
{
    let text = front.push(separator) + part;
    if part.len() == 0 {
        assert(text == front.push(separator));
        assert(text.drop_last() == front);
        assert(part == Seq::<char>::empty());
    } else {
        let shorter = part.drop_last();
        assert(part[part.len() - 1] != separator);
        assert forall|i: int| 0 <= i < shorter.len() implies shorter[i] != separator by {
            assert(part[i] != separator);
        }
        lemma_split_behind(front, shorter, separator);
        assert(text.drop_last() == front.push(separator) + shorter);
        assert(text.last() == part.last());
        let before = split_on(front, separator).push(shorter);
        assert(before.drop_last() == split_on(front, separator));
        assert(shorter.push(part.last()) == part);
    }
}

/// Whether a character is white space.
pub fn white_space(c: char) -> (result: bool)
    ensures
        result == is_white_space(c),
{
    ('\u{9}' <= c && c <= '\u{d}') || c == '\u{20}' || c == '\u{85}' || c == '\u{a0}' || c
        == '\u{1680}' || ('\u{2000}' <= c && c <= '\u{200a}') || c == '\u{2028}' || c == '\u{2029}'
        || c == '\u{202f}' || c == '\u{205f}' || c == '\u{3000}'
}

/// The characters of a text.
pub fn chars_of(text: &str) -> (chars: Vec<char>)
    ensures
        chars@ == text@,
{
    let mut chars: Vec<char> = Vec::new();
    for c in iter: text.chars()
        invariant
            iter.seq() == text@,
            chars@ == text@.take(iter.index() as int),
    {
        chars.push(c);
    }
    chars
}

/// A text made of the given characters.
pub fn text_of(chars: &Vec<char>) -> (text: String)
    ensures
        text@ == chars@,
{
    let mut text: String = String::new();
    let mut i: usize = 0;
    while i < chars.len()
        invariant
            i <= chars.len(),
            text@ == chars@.take(i as int),
        decreases chars.len() - i,
    {
        text.push(chars[i]);
        i = i + 1;
    }
    text
}

/// Whether two texts are the same.
pub fn same_text(a: &str, b: &str) -> (same: bool)
    ensures
        same == (a@ == b@),
{
    let left: &[u8] = a.as_bytes();
    let right: &[u8] = b.as_bytes();
    if left.len() != right.len() {
        return false;
    }
    let mut i: usize = 0;
    while i < left.len()
        invariant
            i <= left.len(),
            left.len() == right.len(),
            left@ == encode_utf8(a@),
            right@ == encode_utf8(b@),
            left@.take(i as int) == right@.take(i as int),
        decreases left.len() - i,
    {
        if left[i] != right[i] {
            return false;
        }
        proof {
            assert(left@.take(i + 1) == left@.take(i as int).push(left@[i as int]));
            assert(right@.take(i + 1) == right@.take(i as int).push(right@[i as int]));
        }
        i = i + 1;
    }
    proof {
        assert(left@.take(i as int) == left@);
        assert(right@.take(i as int) == right@);
        same_encoding_same_text(a@, b@);
    }
    true
}

/// Whether an optional text is exactly the given one.
pub fn is_text(text: Option<&str>, expected: &str) -> (same: bool)
    ensures
        same == (str_view(text) == Some(expected@)),
{
    match text {
        Some(text) => same_text(text, expected),
        None => false,
    }
}

/// The text without the white space at its two ends.
pub fn trim(text: &str) -> (result: &str)
    ensures
        result@ == trimmed(text@),
{
    let chars: Vec<char> = chars_of(text);
    let mut from: usize = 0;
    proof {
        assert(text@.skip(0) == text@);
    }
    while from < chars.len() && white_space(chars[from])
        invariant
            from <= chars.len(),
            chars@ == text@,
            without_leading_space(text@) == without_leading_space(text@.skip(from as int)),
        decreases chars.len() - from,
    {
        proof {
            assert(text@.skip(from as int).skip(1) == text@.skip(from + 1));
        }
        from = from + 1;
    }
    let ghost rest = text@.skip(from as int);
    proof {
        assert(without_leading_space(text@) == rest);
    }
    let mut to: usize = chars.len();
    while to > from && white_space(chars[to - 1])
        invariant
            from <= to <= chars.len(),
            chars@ == text@,
            rest == text@.skip(from as int),
            without_trailing_space(rest) == without_trailing_space(
                text@.subrange(from as int, to as int),
            ),
        decreases to,
    {
        proof {
            assert(text@.subrange(from as int, to as int).drop_last() == text@.subrange(
                from as int,
                to - 1,
            ));
        }
        to = to - 1;
    }
    proof {
        assert(without_trailing_space(rest) == text@.subrange(from as int, to as int));
    }
    text.substring_char(from, to)
}

/// Whether a text holds the given character.
pub fn holds(chars: &Vec<char>, c: char) -> (found: bool)
    ensures
        found == chars@.contains(c),
{
    let mut i: usize = 0;
    while i < chars.len()
        invariant
            i <= chars.len(),
            forall|k: int| 0 <= k < i ==> chars@[k] != c,
        decreases chars.len() - i,
    {
        if chars[i] == c {
            return true;
        }
        i = i + 1;
    }
    false
}

/// Whether `part` stands in `text` from position `at` on.
pub fn part_at(text: &Vec<char>, part: &Vec<char>, at: usize) -> (found: bool)
    requires
        at <= text.len(),
    ensures
        found == occurs_at(text@, part@, at as int),
{
    if part.len() > text.len() - at {
        return false;
    }
    let mut i: usize = 0;
    while i < part.len()
        invariant
            i <= part.len(),
            at + part.len() <= text.len(),
            forall|k: int| 0 <= k < i ==> text@[at + k] == part@[k],
        decreases part.len() - i,
    {
        if text[at + i] != part[i] {
            proof {
                assert(text@.subrange(at as int, at + part@.len())[i as int] != part@[i as int]);
            }
            return false;
        }
        i = i + 1;
    }
    proof {
        assert(text@.subrange(at as int, at + part@.len()) == part@);
    }
    true
}

/// Whether a text begins with a prefix.
pub fn starts_with(text: &Vec<char>, prefix: &str) -> (result: bool)
    ensures
        result == begins_with(text@, prefix@),
{
    let prefix: Vec<char> = chars_of(prefix);
    part_at(text, &prefix, 0)
}

/// Whether a text ends with a suffix.
pub fn ends_with(text: &Vec<char>, suffix: &Vec<char>) -> (result: bool)
    ensures
        result == finishes_with(text@, suffix@),
{
    if suffix.len() > text.len() {
        return false;
    }
    part_at(text, suffix, text.len() - suffix.len())
}

/// The text behind a prefix that it begins with.
pub fn strip_prefix<'a>(text: &'a str, prefix: &str) -> (rest: Option<&'a str>)
    ensures
        str_view(rest) == after_prefix(text@, prefix@),
{
    let chars: Vec<char> = chars_of(text);
    if starts_with(&chars, prefix) {
        let from: usize = prefix.unicode_len();
        let rest: &str = text.substring_char(from, chars.len());
        proof {
            assert(rest@ == text@.skip(prefix@.len() as int));
        }
        Some(rest)
    } else {
        None
    }
}

/// The first position from `from` on where `part` stands in `text`.
pub fn find_from(text: &Vec<char>, part: &Vec<char>, from: usize) -> (at: Option<usize>)
    requires
        from <= text.len(),
    ensures
        match at {
            Some(at) => {
                &&& from <= at
                &&& occurs_at(text@, part@, at as int)
                &&& forall|k: int| from <= k < at ==> !occurs_at(text@, part@, k)
            },
            None => forall|k: int| from <= k ==> !occurs_at(text@, part@, k),
        },
{
    let mut at: usize = from;
    loop
        invariant
            from <= at <= text.len(),
            forall|k: int| from <= k < at ==> !occurs_at(text@, part@, k),
        decreases text.len() - at,
    {
        if part_at(text, part, at) {
            return Some(at);
        }
        if at == text.len() {
            return None;
        }
        at = at + 1;
    }
}

/// The lower-case form of an ASCII letter; every other character is kept.
pub fn lower_char(c: char) -> (result: char)
    ensures
        result == ascii_lower(c),
{
    if 'A' <= c && c <= 'Z' {
        ((c as u8) + 32) as char
    } else {
        c
    }
}

/// The text with its ASCII letters in lower case.
pub fn lowercase(text: &str) -> (result: Vec<char>)
    ensures
        result@ == lowered(text@),
{
    let chars: Vec<char> = chars_of(text);
    let mut result: Vec<char> = Vec::new();
    let mut i: usize = 0;
    while i < chars.len()
        invariant
            i <= chars.len(),
            chars@ == text@,
            result@ == lowered(text@).take(i as int),
        decreases chars.len() - i,
    {
        result.push(lower_char(chars[i]));
        proof {
            assert(result@ == lowered(text@).take(i + 1));
        }
        i = i + 1;
    }
    proof {
        assert(lowered(text@).take(i as int) == lowered(text@));
    }
    result
}

/// The parts of a text between the occurrences of a separator.
pub fn split(text: &Vec<char>, separator: char) -> (parts: Vec<Vec<char>>)
    ensures
        char_views(parts@) == split_on(text@, separator),
        parts@.len() > 0,
{
    let mut parts: Vec<Vec<char>> = Vec::new();
    let mut current: Vec<char> = Vec::new();
    let mut i: usize = 0;
    proof {
        assert(text@.take(0) == Seq::<char>::empty());
        assert(char_views(parts@).push(current@) == split_on(text@.take(0), separator));
    }
    while i < text.len()
        invariant
            i <= text.len(),
            char_views(parts@).push(current@) == split_on(text@.take(i as int), separator),
        decreases text.len() - i,
    {
        let ghost done = text@.take(i as int);
        let ghost more = text@.take(i + 1);
        proof {
            assert(more.drop_last() == done);
            assert(more.last() == text@[i as int]);
            split_is_never_empty(done, separator);
        }
        let ghost before = char_views(parts@).push(current@);
        if text[i] == separator {
            let ghost earlier = parts@;
            let ghost finished = current@;
            parts.push(current);
            current = Vec::new();
            proof {
                assert(char_views(parts@) == char_views(earlier).push(finished));
                assert(split_on(more, separator) == before.push(Seq::empty()));
                assert(char_views(parts@).push(current@) == split_on(more, separator));
            }
        } else {
            let ghost finished = current@;
            current.push(text[i]);
            proof {
                assert(before.drop_last() == char_views(parts@));
                assert(before.last() == finished);
                assert(char_views(parts@).push(current@) == split_on(more, separator));
            }
        }
        i = i + 1;
    }
    proof {
        assert(text@.take(i as int) == text@);
    }
    let ghost earlier = parts@;
    let ghost finished = current@;
    parts.push(current);
    proof {
        assert(char_views(parts@) == char_views(earlier).push(finished));
    }
    parts
}

/// Whether one text comes before another.
pub fn comes_before(a: &str, b: &str) -> (result: bool)
    ensures
        result == text_less(a@, b@),
{
    let left: Vec<char> = chars_of(a);
    let right: Vec<char> = chars_of(b);
    let mut i: usize = 0;
    proof {
        assert(a@.skip(0) == a@);
        assert(b@.skip(0) == b@);
    }
    while i < left.len() && i < right.len() && left[i] == right[i]
        invariant
            i <= left.len(),
            i <= right.len(),
            left@ == a@,
            right@ == b@,
            text_less(a@, b@) == text_less(a@.skip(i as int), b@.skip(i as int)),
        decreases left.len() - i,
    {
        proof {
            assert(a@.skip(i as int).skip(1) == a@.skip(i + 1));
            assert(b@.skip(i as int).skip(1) == b@.skip(i + 1));
        }
        i = i + 1;
    }
    i < right.len() && (i == left.len() || left[i] < right[i])
}

/// Printable characters of ASCII are no control characters, those below the space and the delete
/// character are.
pub proof fn printable_characters_are_no_controls(c: char)
    ensures
        ' ' <= c <= '~' ==> !is_control(c) && !is_ascii_control(c),
        c < ' ' || c == '\u{7f}' ==> is_control(c) && is_ascii_control(c),
        c > '\u{9f}' ==> !is_control(c),
        c > '\u{7f}' ==> !is_ascii_control(c),
{
}

/// The views of texts are the texts, one for one.
pub proof fn views_are_the_texts(
    texts: Seq<String>,
    lines: Seq<Vec<char>>,
    text: Option<String>,
    part: Option<&str>,
    at: int,
)
    ensures
        text_views(texts).len() == texts.len(),
        0 <= at < texts.len() ==> text_views(texts)[at] == texts[at]@,
        char_views(lines).len() == lines.len(),
        0 <= at < lines.len() ==> char_views(lines)[at] == lines[at]@,
        text is None ==> text_view(text) is None,
        text matches Some(value) ==> text_view(text) == Some(value@),
        part is None ==> str_view(part) is None,
        part matches Some(value) ==> str_view(part) == Some(value@),
{
}

} // verus!
