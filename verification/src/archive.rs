//! ZIP archives and property lists as plain values.
use crate::dates;
use crate::text;
use plist::Value;
use std::io::{Cursor, Read};
use vstd::prelude::*;
use zip::ZipArchive;

verus! {

/// An entry of a ZIP archive as its central directory describes it.
#[derive(Debug)]
pub struct ArchiveEntry {
    pub name: String,
    pub size: u64,
    pub compressed_size: u64,
}

/// What an archive entry says of itself.
pub struct EntryView {
    pub name: Seq<char>,
    pub size: int,
    pub compressed_size: int,
}

impl View for ArchiveEntry {
    type V = EntryView;

    open spec fn view(&self) -> EntryView {
        EntryView {
            name: self.name@,
            size: self.size as int,
            compressed_size: self.compressed_size as int,
        }
    }
}

/// `std::io::Cursor`, through which an archive reads bytes.
#[verifier::external_type_specification]
#[verifier::external_body]
#[verifier::reject_recursive_types(T)]
pub struct ExCursor<T>(Cursor<T>);

/// `zip::ZipArchive`, an archive whose central directory was read.
#[verifier::external_type_specification]
#[verifier::external_body]
#[verifier::reject_recursive_types(R)]
pub struct ExZipArchive<R>(ZipArchive<R>);

/// The bytes that an archive is read from.
pub uninterp spec fn archive_bytes(archive: ZipArchive<Cursor<&[u8]>>) -> Seq<u8>;

/// The number of the entries of a ZIP archive; nothing where the bytes are no archive.
pub uninterp spec fn zip_length(bytes: Seq<u8>) -> Option<nat>;

/// The entry of a ZIP archive with the given number, where it can be opened.
pub uninterp spec fn zip_entry(bytes: Seq<u8>, index: int) -> Option<EntryView>;

/// The unpacked contents of the entry with the given number, where it can be read.
pub uninterp spec fn zip_contents(bytes: Seq<u8>, index: int) -> Option<Seq<u8>>;

/// A property list that is a dictionary: its keys, each with its value where that is a string.
/// `Some(None)` is a property list of another shape, `None` no property list.
pub uninterp spec fn plist_dictionary(bytes: Seq<u8>) -> Option<
    Option<Seq<(Seq<char>, Option<Seq<char>>)>>,
>;

/// The entries of a ZIP archive in the order of its central directory, nothing for an entry that
/// cannot be opened; nothing at all where the bytes are no archive.
pub open spec fn zip_listing(bytes: Seq<u8>) -> Option<Seq<Option<EntryView>>> {
    match zip_length(bytes) {
        Some(length) => Some(Seq::new(length, |index: int| zip_entry(bytes, index))),
        None => None,
    }
}

/// `ZipArchive::new` over a cursor on the bytes. It succeeds on the bytes that have a length as an
/// archive, and the archive is read from them.
#[verifier::external_body]
pub(crate) fn open_archive<'a>(bytes: &'a [u8]) -> (archive: Option<ZipArchive<Cursor<&'a [u8]>>>)
    ensures
        archive is Some == zip_length(bytes@) is Some,
        archive is Some ==> archive_bytes(archive->0) == bytes@,
{
    ZipArchive::new(Cursor::new(bytes)).ok()
}

/// `ZipArchive::len`: the number of the archive's entries.
#[verifier::external_body]
pub(crate) fn archive_length(archive: &ZipArchive<Cursor<&[u8]>>) -> (length: usize)
    ensures
        zip_length(archive_bytes(*archive)) == Some(length as nat),
{
    archive.len()
}

/// `ZipArchive::by_index`: the name, the size and the compressed size that the entry reports. The
/// archive stays one of the same bytes.
#[verifier::external_body]
pub(crate) fn archive_entry(archive: &mut ZipArchive<Cursor<&[u8]>>, index: usize) -> (entry: Option<
    ArchiveEntry,
>)
    ensures
        archive_bytes(*final(archive)) == archive_bytes(*old(archive)),
        match entry {
            Some(entry) => zip_entry(archive_bytes(*old(archive)), index as int) == Some(entry@),
            None => zip_entry(archive_bytes(*old(archive)), index as int) is None,
        },
{
    archive.by_index(index).ok().map(|entry| ArchiveEntry {
        name: entry.name().to_owned(),
        size: entry.size(),
        compressed_size: entry.compressed_size(),
    })
}

/// `read_to_end` of the entry that `ZipArchive::by_index` opens. The archive stays one of the same
/// bytes.
#[verifier::external_body]
pub(crate) fn archive_contents(archive: &mut ZipArchive<Cursor<&[u8]>>, index: usize) -> (contents:
    Option<Vec<u8>>)
    ensures
        archive_bytes(*final(archive)) == archive_bytes(*old(archive)),
        match contents {
            Some(contents) => zip_contents(archive_bytes(*old(archive)), index as int) == Some(
                contents@,
            ),
            None => zip_contents(archive_bytes(*old(archive)), index as int) is None,
        },
{
    let mut contents = Vec::new();
    archive.by_index(index).ok()?.read_to_end(&mut contents).ok()?;
    Some(contents)
}

/// A key of a property list dictionary with its value where that is a string.
#[derive(Debug)]
pub struct PlistEntry {
    pub key: String,
    pub text: Option<String>,
}

pub open spec fn plist_views(entries: Seq<PlistEntry>) -> Seq<(Seq<char>, Option<Seq<char>>)> {
    entries.map_values(|entry: PlistEntry| (entry.key@, text::text_view(entry.text)))
}

/// What a property list holds at its top.
#[derive(Debug)]
pub enum PlistDocument {
    Unreadable,
    NotDictionary,
    Dictionary(Vec<PlistEntry>),
}

pub open spec fn document_view(document: PlistDocument) -> Option<
    Option<Seq<(Seq<char>, Option<Seq<char>>)>>,
> {
    match document {
        PlistDocument::Unreadable => None,
        PlistDocument::NotDictionary => Some(None),
        PlistDocument::Dictionary(entries) => Some(Some(plist_views(entries@))),
    }
}

/// `plist::Value::from_reader` over the bytes; of a dictionary each key with its value's
/// `as_string`. It panics on a date in XML that lies in UTC behind the year 9999. It bounds no
/// nesting: a list that is nested deeply enough exhausts the stack, as a long one can exhaust the
/// memory.
#[verifier::external_body]
fn parse_plist(bytes: &[u8]) -> (document: PlistDocument)
    requires
        !dates::has_late_date(bytes@),
    ensures
        document_view(document) == plist_dictionary(bytes@),
{
    let Ok(value) = Value::from_reader(Cursor::new(bytes)) else {
        return PlistDocument::Unreadable;
    };
    let Some(dictionary) = value.as_dictionary() else {
        return PlistDocument::NotDictionary;
    };
    PlistDocument::Dictionary(dictionary.iter().map(|(key, value)| PlistEntry {
        key: key.clone(),
        text: value.as_string().map(str::to_owned),
    }).collect())
}

/// What a property list holds at its top. One that may hold a date behind the year 9999 cannot be
/// read.
pub open spec fn plist_document(bytes: Seq<u8>) -> Option<
    Option<Seq<(Seq<char>, Option<Seq<char>>)>>,
> {
    if dates::has_late_date(bytes) {
        None
    } else {
        plist_dictionary(bytes)
    }
}

/// What a property list holds at its top.
pub fn read_plist(bytes: &[u8]) -> (document: PlistDocument)
    ensures
        document_view(document) == plist_document(bytes@),
{
    if dates::late_date(bytes) {
        PlistDocument::Unreadable
    } else {
        parse_plist(bytes)
    }
}

/// The string behind a key: that of the first entry with the key.
pub open spec fn plist_string_of(
    entries: Seq<(Seq<char>, Option<Seq<char>>)>,
    key: Seq<char>,
) -> Option<Seq<char>>
    decreases entries.len(),
{
    if entries.len() == 0 {
        None
    } else if entries[0].0 == key {
        entries[0].1
    } else {
        plist_string_of(entries.skip(1), key)
    }
}

/// The string behind a key of a dictionary.
pub fn plist_string(entries: &Vec<PlistEntry>, key: &str) -> (text: Option<String>)
    ensures
        text::text_view(text) == plist_string_of(plist_views(entries@), key@),
{
    let ghost views = plist_views(entries@);
    let mut i: usize = 0;
    proof {
        assert(views.skip(0) == views);
    }
    while i < entries.len()
        invariant
            i <= entries.len(),
            views == plist_views(entries@),
            plist_string_of(views, key@) == plist_string_of(views.skip(i as int), key@),
        decreases entries.len() - i,
    {
        if text::same_text(entries[i].key.as_str(), key) {
            return match &entries[i].text {
                Some(text) => Some(text.clone()),
                None => None,
            };
        }
        proof {
            assert(views.skip(i as int).skip(1) == views.skip(i + 1));
        }
        i = i + 1;
    }
    None
}

/// The first entry with a key tells its string; what stands behind it tells nothing, nor do the
/// entries with other keys.
pub proof fn the_first_entry_tells(
    front: Seq<(Seq<char>, Option<Seq<char>>)>,
    key: Seq<char>,
    value: Option<Seq<char>>,
    back: Seq<(Seq<char>, Option<Seq<char>>)>,
)
    requires
        forall|i: int| 0 <= i < front.len() ==> (#[trigger] front[i]).0 != key,
    ensures
        plist_string_of(front + seq![(key, value)] + back, key) == value,
        plist_string_of(front, key) is None,
    decreases front.len(),
{
    let all = front + seq![(key, value)] + back;
    if front.len() > 0 {
        assert(all[0] == front[0]);
        assert(all.skip(1) =~= front.skip(1) + seq![(key, value)] + back);
        assert forall|i: int| 0 <= i < front.skip(1).len() implies (#[trigger] front.skip(1)[i]).0
            != key by {
            assert(front.skip(1)[i] == front[i + 1]);
        }
        the_first_entry_tells(front.skip(1), key, value, back);
    } else {
        assert(all[0] == (key, value));
    }
}

/// The view of a property list is its entries, one for one.
pub proof fn views_are_the_entries(entries: Vec<PlistEntry>, at: int)
    ensures
        document_view(PlistDocument::Unreadable) is None,
        document_view(PlistDocument::NotDictionary) == Some(
            None::<Seq<(Seq<char>, Option<Seq<char>>)>>,
        ),
        document_view(PlistDocument::Dictionary(entries)) == Some(Some(plist_views(entries@))),
        plist_views(entries@).len() == entries@.len(),
        0 <= at < entries@.len() ==> plist_views(entries@)[at] == (
            entries@[at].key@,
            text::text_view(entries@[at].text),
        ),
{
}

/// A list that may hold a date behind the year 9999 is not read; any other is what it holds.
pub proof fn late_dates_are_not_read(bytes: Seq<u8>)
    ensures
        dates::has_late_date(bytes) ==> plist_document(bytes) is None,
        !dates::has_late_date(bytes) ==> plist_document(bytes) == plist_dictionary(bytes),
{
}

/// A listing has an entry for each number of the archive, in their order.
pub proof fn listings_are_the_entries(bytes: Seq<u8>, at: int)
    ensures
        zip_listing(bytes) is Some <==> zip_length(bytes) is Some,
        zip_listing(bytes) matches Some(listing) ==> listing.len() == zip_length(bytes)->0,
        zip_listing(bytes) matches Some(listing) ==> 0 <= at < listing.len() ==> listing[at]
            == zip_entry(bytes, at),
{
}

} // verus!
