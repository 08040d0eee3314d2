//! Inspection of an uploaded IPA before it enters a signing job.
use crate::archive;
use crate::archive::{ArchiveEntry, EntryView, PlistDocument};
use crate::digest;
use crate::text;
use std::io::Cursor;
use vstd::prelude::*;
use vstd::string::*;
use zip::ZipArchive;

verus! {

pub const MAX_COMPRESSED_BYTES: u64 = 2_147_483_648;

pub const MAX_EXPANDED_BYTES: u64 = 4_294_967_296;

pub const MAX_ENTRIES: usize = 20_000;

pub const MAX_COMPRESSION_RATIO: u64 = 200;

pub const MAX_INFO_PLIST_BYTES: u64 = 16_777_216;

/// What is known of an accepted IPA.
#[derive(Debug)]
pub struct UploadMetadata {
    pub sha256: String,
    pub size_bytes: u64,
    pub app_bundle_path: String,
    pub bundle_id: String,
    pub display_name: String,
    pub app_version: Option<String>,
    pub info_plist_present: bool,
}

#[derive(Debug, Clone, Copy, PartialEq, Eq, Structural)]
pub enum UploadError {
    TooLarge,
    InvalidArchive,
    UnsafePath,
    TooManyEntries,
    ExpansionLimit,
    InvalidPayload,
    MissingInfoPlist,
    InvalidBundleIdentifier,
}

impl UploadError {
    pub open spec fn sentence(self) -> &'static str {
        match self {
            UploadError::TooLarge => "upload exceeds the configured size limit",
            UploadError::InvalidArchive => "upload is not a readable IPA archive",
            UploadError::UnsafePath => "archive contains an unsafe path",
            UploadError::TooManyEntries => "archive contains too many entries",
            UploadError::ExpansionLimit => "archive expansion exceeds the configured limit",
            UploadError::InvalidPayload => {
                "archive does not contain exactly one application bundle"
            },
            UploadError::MissingInfoPlist => "application Info.plist is missing",
            UploadError::InvalidBundleIdentifier => {
                "application Info.plist does not contain a valid bundle identifier"
            },
        }
    }

    /// The error as a sentence.
    pub fn message(self) -> (message: &'static str)
        ensures
            message == self.sentence(),
    {
        match self {
            UploadError::TooLarge => "upload exceeds the configured size limit",
            UploadError::InvalidArchive => "upload is not a readable IPA archive",
            UploadError::UnsafePath => "archive contains an unsafe path",
            UploadError::TooManyEntries => "archive contains too many entries",
            UploadError::ExpansionLimit => "archive expansion exceeds the configured limit",
            UploadError::InvalidPayload => {
                "archive does not contain exactly one application bundle"
            },
            UploadError::MissingInfoPlist => "application Info.plist is missing",
            UploadError::InvalidBundleIdentifier => {
                "application Info.plist does not contain a valid bundle identifier"
            },
        }
    }
}

/// A path that could lead out of the directory it is unpacked in: an absolute one, one with a
/// backslash, or one that steps to a parent.
pub open spec fn is_unsafe_path(name: Seq<char>) -> bool {
    ||| (name.len() > 0 && name[0] == '/')
    ||| name.contains('\\')
    ||| text::split_on(name, '/').contains(".."@)
}

/// The application bundle that an entry belongs to: `Payload/` and a name that ends in `.app`.
pub open spec fn bundle_of_entry(name: Seq<char>) -> Option<Seq<char>> {
    let parts = text::split_on(name, '/');
    if parts.len() >= 2 && parts[0] == "Payload"@ && text::finishes_with(parts[1], ".app"@) {
        Some("Payload/"@ + parts[1])
    } else {
        None
    }
}

/// A text that is more than white space.
pub open spec fn not_blank(value: Option<Seq<char>>) -> Option<Seq<char>> {
    match value {
        Some(value) => if text::trimmed(value).len() > 0 {
            Some(value)
        } else {
            None
        },
        None => None,
    }
}

pub open spec fn first_of(
    first: Option<Seq<char>>,
    second: Option<Seq<char>>,
) -> Option<Seq<char>> {
    match first {
        Some(value) => Some(value),
        None => second,
    }
}

/// What the entries seen so far have told.
pub struct Findings {
    pub expanded: int,
    pub bundle: Option<Seq<char>>,
    pub info_plist: bool,
    pub bundle_id: Option<Seq<char>>,
    pub display_name: Option<Seq<char>>,
    pub app_version: Option<Seq<char>>,
}

/// The expansion that is counted for the entries together; a count past the machine's range stays
/// at its end.
pub open spec fn counted(expanded: int, size: int) -> int {
    if expanded + size > u64::MAX {
        u64::MAX as int
    } else {
        expanded + size
    }
}

/// What the application's own property list adds.
pub open spec fn informed(
    found: Findings,
    document: Option<Option<Seq<(Seq<char>, Option<Seq<char>>)>>>,
) -> Result<Findings, UploadError> {
    match document {
        Some(Some(entries)) => Ok(
            Findings {
                info_plist: true,
                bundle_id: archive::plist_string_of(entries, "CFBundleIdentifier"@),
                display_name: first_of(
                    archive::plist_string_of(entries, "CFBundleDisplayName"@),
                    archive::plist_string_of(entries, "CFBundleName"@),
                ),
                app_version: not_blank(
                    first_of(
                        archive::plist_string_of(entries, "CFBundleShortVersionString"@),
                        archive::plist_string_of(entries, "CFBundleVersion"@),
                    ),
                ),
                ..found
            },
        ),
        _ => Err(UploadError::InvalidBundleIdentifier),
    }
}

/// What the directory line of one more entry adds, and whether the entry is the application's
/// property list; or why it refuses the archive.
pub open spec fn admitted(found: Findings, entry: EntryView) -> Result<
    (Findings, bool),
    UploadError,
> {
    let expanded = counted(found.expanded, entry.size);
    let bundle = bundle_of_entry(entry.name);
    if is_unsafe_path(entry.name) {
        Err(UploadError::UnsafePath)
    } else if expanded > MAX_EXPANDED_BYTES {
        Err(UploadError::ExpansionLimit)
    } else if entry.compressed_size > 0 && entry.size / entry.compressed_size
        > MAX_COMPRESSION_RATIO {
        Err(UploadError::ExpansionLimit)
    } else if bundle is Some && found.bundle is Some && bundle != found.bundle {
        Err(UploadError::InvalidPayload)
    } else {
        let main = first_of(found.bundle, bundle);
        let info_plist = main is Some && entry.name == main->0 + "/Info.plist"@;
        if info_plist && entry.size > MAX_INFO_PLIST_BYTES {
            Err(UploadError::ExpansionLimit)
        } else {
            Ok((Findings { expanded, bundle: main, ..found }, info_plist))
        }
    }
}

/// What one more entry adds, or why it refuses the archive.
pub open spec fn with_entry(
    found: Findings,
    entry: Option<EntryView>,
    contents: Option<Seq<u8>>,
) -> Result<Findings, UploadError> {
    match entry {
        None => Err(UploadError::InvalidArchive),
        Some(entry) => match admitted(found, entry) {
            Err(error) => Err(error),
            Ok((grown, false)) => Ok(grown),
            Ok((grown, true)) => match contents {
                None => Err(UploadError::InvalidArchive),
                Some(contents) => informed(grown, archive::plist_document(contents)),
            },
        },
    }
}

pub open spec fn nothing_found() -> Findings {
    Findings {
        expanded: 0,
        bundle: None,
        info_plist: false,
        bundle_id: None,
        display_name: None,
        app_version: None,
    }
}

/// What the first entries tell, one after the other; the first that refuses the archive decides.
pub open spec fn after_entries(
    listing: Seq<Option<EntryView>>,
    contents: spec_fn(int) -> Option<Seq<u8>>,
    count: nat,
) -> Result<Findings, UploadError>
    decreases count,
{
    if count == 0 {
        Ok(nothing_found())
    } else {
        match after_entries(listing, contents, (count - 1) as nat) {
            Ok(found) => with_entry(found, listing[count - 1], contents(count - 1)),
            Err(error) => Err(error),
        }
    }
}

/// An accepted application: its bundle, identifier, shown name and version.
pub struct Application {
    pub bundle: Seq<char>,
    pub bundle_id: Seq<char>,
    pub display_name: Seq<char>,
    pub app_version: Option<Seq<char>>,
}

/// The application that all entries together describe.
pub open spec fn concluded(found: Findings) -> Result<Application, UploadError> {
    if found.bundle is None {
        Err(UploadError::InvalidPayload)
    } else if !found.info_plist {
        Err(UploadError::MissingInfoPlist)
    } else {
        match not_blank(found.bundle_id) {
            None => Err(UploadError::InvalidBundleIdentifier),
            Some(bundle_id) => Ok(
                Application {
                    bundle: found.bundle->0,
                    bundle_id,
                    display_name: match not_blank(found.display_name) {
                        Some(name) => name,
                        None => bundle_id,
                    },
                    app_version: found.app_version,
                },
            ),
        }
    }
}

/// The application that a listing describes.
pub open spec fn listed_application(
    listing: Seq<Option<EntryView>>,
    contents: spec_fn(int) -> Option<Seq<u8>>,
) -> Result<Application, UploadError> {
    if listing.len() > MAX_ENTRIES {
        Err(UploadError::TooManyEntries)
    } else {
        match after_entries(listing, contents, listing.len()) {
            Ok(found) => concluded(found),
            Err(error) => Err(error),
        }
    }
}

/// The application that the bytes of an IPA hold.
pub open spec fn application_of(bytes: Seq<u8>) -> Result<Application, UploadError> {
    if bytes.len() > MAX_COMPRESSED_BYTES {
        Err(UploadError::TooLarge)
    } else {
        match archive::zip_listing(bytes) {
            None => Err(UploadError::InvalidArchive),
            Some(listing) => listed_application(
                listing,
                |index: int| archive::zip_contents(bytes, index),
            ),
        }
    }
}

/// The unpacked size of the first entries together.
pub open spec fn total_size(listing: Seq<Option<EntryView>>, count: nat) -> int
    decreases count,
{
    if count == 0 {
        0
    } else {
        total_size(listing, (count - 1) as nat) + (match listing[count - 1] {
            Some(entry) => entry.size,
            None => 0,
        })
    }
}

/// An entry that an accepted archive may hold.
pub open spec fn is_sound_entry(entry: Option<EntryView>, bundle: Option<Seq<char>>) -> bool {
    &&& entry is Some
    &&& !is_unsafe_path(entry->0.name)
    &&& entry->0.compressed_size > 0 ==> entry->0.size / entry->0.compressed_size
        <= MAX_COMPRESSION_RATIO
    &&& bundle_of_entry(entry->0.name) is Some ==> bundle_of_entry(entry->0.name) == bundle
}

/// An accepted archive has a bounded number of entries, all of them readable, on safe paths and
/// within the compression ratio; it unpacks to no more than the limit; and all entries that
/// belong to an application belong to the one that was found.
pub proof fn accepted_archives_are_sound(
    listing: Seq<Option<EntryView>>,
    contents: spec_fn(int) -> Option<Seq<u8>>,
)
    requires
        listed_application(listing, contents) is Ok,
    ensures
        listing.len() <= MAX_ENTRIES,
        total_size(listing, listing.len()) <= MAX_EXPANDED_BYTES,
        forall|i: int|
            0 <= i < listing.len() ==> is_sound_entry(
                #[trigger] listing[i],
                Some(listed_application(listing, contents)->Ok_0.bundle),
            ),
        not_blank(Some(listed_application(listing, contents)->Ok_0.bundle_id)) is Some,
        not_blank(Some(listed_application(listing, contents)->Ok_0.display_name)) is Some,
{
    let found = after_entries(listing, contents, listing.len())->Ok_0;
    entries_so_far_are_sound(listing, contents, listing.len());
    assert forall|i: int| 0 <= i < listing.len() implies is_sound_entry(
        #[trigger] listing[i],
        Some(listed_application(listing, contents)->Ok_0.bundle),
    ) by {
        assert(is_sound_entry(listing[i], found.bundle));
    }
}

proof fn entries_so_far_are_sound(
    listing: Seq<Option<EntryView>>,
    contents: spec_fn(int) -> Option<Seq<u8>>,
    count: nat,
)
    requires
        count <= listing.len(),
        after_entries(listing, contents, count) is Ok,
    ensures
        after_entries(listing, contents, count)->Ok_0.expanded <= MAX_EXPANDED_BYTES,
        total_size(listing, count) == after_entries(listing, contents, count)->Ok_0.expanded,
        forall|i: int|
            0 <= i < count ==> is_sound_entry(
                #[trigger] listing[i],
                after_entries(listing, contents, count)->Ok_0.bundle,
            ),
    decreases count,
{
    if count > 0 {
        let before = (count - 1) as nat;
        entries_so_far_are_sound(listing, contents, before);
        let known = after_entries(listing, contents, before)->Ok_0.bundle;
        let now = after_entries(listing, contents, count)->Ok_0.bundle;
        assert(known is Some ==> now == known);
        assert forall|i: int| 0 <= i < count implies is_sound_entry(#[trigger] listing[i], now) by {
            if i < before {
                assert(is_sound_entry(listing[i], known));
            }
        }
    }
}

/// A path is unsafe exactly where it is absolute, holds a backslash or has a step to the parent among
/// its parts.
pub proof fn steps_to_the_parent_are_unsafe(parts: Seq<Seq<char>>, at: int)
    requires
        parts.len() > 0,
        forall|i: int| 0 <= i < parts.len() ==> !(#[trigger] parts[i]).contains('/'),
    ensures
        0 <= at < parts.len() && parts[at] == ".."@ ==> is_unsafe_path(text::joined(parts, '/')),
        is_unsafe_path(text::joined(parts, '/')) ==> {
            let name = text::joined(parts, '/');
            ||| name.len() > 0 && name[0] == '/'
            ||| name.contains('\\')
            ||| parts.contains(".."@)
        },
{
    text::splitting_undoes_joining(parts, '/');
    if 0 <= at < parts.len() && parts[at] == ".."@ {
        assert(parts.contains(".."@));
    }
}

/// An absolute path, and one with a backslash, is unsafe. Any other without two dots in a row is
/// safe.
pub proof fn plain_paths_are_safe(name: Seq<char>)
    ensures
        name.len() > 0 && name[0] == '/' ==> is_unsafe_path(name),
        name.contains('\\') ==> is_unsafe_path(name),
        (name.len() > 0 ==> name[0] != '/') && !name.contains('\\') && (forall|i: int|
            0 <= i < name.len() - 1 && #[trigger] name[i] == '.' ==> name[i + 1] != '.')
            ==> !is_unsafe_path(name),
{
    let parts = text::split_on(name, '/');
    if parts.contains(".."@) && (forall|i: int|
        0 <= i < name.len() - 1 && #[trigger] name[i] == '.' ==> name[i + 1] != '.') {
        let at = choose|at: int| 0 <= at < parts.len() && parts[at] == ".."@;
        reveal_strlit("..");
        lemma_part_stands_in(name, parts, at);
        let from = choose|from: int| #[trigger] text::occurs_at(name, ".."@, from);
        assert(name.subrange(from, from + 2)[0] == '.');
        assert(name.subrange(from, from + 2)[1] == '.');
        assert(name[from] == '.');
    }
}

proof fn lemma_part_stands_in(name: Seq<char>, parts: Seq<Seq<char>>, at: int)
    requires
        0 <= at < parts.len(),
        text::split_on(name, '/') == parts,
    ensures
        exists|from: int| #[trigger] text::occurs_at(name, parts[at], from),
{
    text::joining_undoes_splitting(name, '/');
    let front = parts.take(at);
    let back = parts.skip(at);
    assert(front + back == parts);
    let tail = text::joined(back, '/');
    if back.len() > 1 {
        assert(back == seq![parts[at]] + back.skip(1));
        text::joining_is_associative(seq![parts[at]], back.skip(1), '/');
        assert(text::joined(seq![parts[at]], '/') == parts[at]);
    } else {
        assert(back == seq![parts[at]]);
    }
    assert(tail.subrange(0, parts[at].len() as int) == parts[at]);
    if at > 0 {
        text::joining_is_associative(front, back, '/');
        let from = (text::joined(front, '/').len() + 1) as int;
        assert(name.subrange(from, from + parts[at].len()) == tail.subrange(
            0,
            parts[at].len() as int,
        ));
        assert(text::occurs_at(name, parts[at], from));
    } else {
        assert(front + back == back);
        assert(text::occurs_at(name, parts[at], 0));
    }
}

/// An entry belongs to the application whose directory it stands in: `Payload/`, a name that ends in
/// `.app`, and anything below.
pub proof fn entries_belong_to_their_application(base: Seq<char>, rest: Seq<char>)
    requires
        !base.contains('/'),
    ensures
        ({
            let bundle = "Payload/"@ + base + ".app"@;
            &&& bundle_of_entry(bundle) == Some(bundle)
            &&& bundle_of_entry(bundle.push('/') + rest) == Some(bundle)
        }),
{
    reveal_strlit("Payload");
    reveal_strlit("Payload/");
    reveal_strlit(".app");
    let stem = base + ".app"@;
    let bundle = "Payload/"@ + base + ".app"@;
    assert forall|i: int| 0 <= i < stem.len() implies stem[i] != '/' by {
        if i < base.len() {
            assert(base.contains(base[i]));
        }
    }
    assert(!"Payload"@.contains('/'));
    assert("Payload"@.push('/') == "Payload/"@);
    let front = seq!["Payload"@, stem];
    assert(front.drop_last() == seq!["Payload"@]);
    assert(text::joined(front.drop_last(), '/') == "Payload"@);
    assert(text::joined(front, '/') == bundle);
    text::splitting_undoes_joining(front, '/');
    assert(stem.subrange(stem.len() - 4, stem.len() as int) == ".app"@);
    assert("Payload/"@ + stem == bundle);
    let tail = text::split_on(rest, '/');
    text::split_is_never_empty(rest, '/');
    text::joining_undoes_splitting(rest, '/');
    text::joining_is_associative(front, tail, '/');
    let all = front + tail;
    assert forall|i: int| 0 <= i < all.len() implies !(#[trigger] all[i]).contains('/') by {
        if i >= 2 {
            text::parts_hold_no_separator(rest, '/', i - 2);
            assert(all[i] == tail[i - 2]);
        }
    }
    text::splitting_undoes_joining(all, '/');
    assert(all[0] == "Payload"@ && all[1] == stem);
}

/// An entry that belongs to an application stands in its directory, or is that directory.
pub proof fn applications_hold_their_entries(name: Seq<char>)
    requires
        bundle_of_entry(name) is Some,
    ensures
        ({
            let bundle = bundle_of_entry(name)->0;
            &&& text::begins_with(bundle, "Payload/"@)
            &&& text::finishes_with(bundle, ".app"@)
            &&& name == bundle || text::begins_with(name, bundle.push('/'))
            &&& !bundle.skip("Payload/"@.len() as int).contains('/')
        }),
{
    reveal_strlit("Payload");
    reveal_strlit("Payload/");
    reveal_strlit(".app");
    let parts = text::split_on(name, '/');
    let bundle = bundle_of_entry(name)->0;
    text::joining_undoes_splitting(name, '/');
    text::parts_hold_no_separator(name, '/', 1);
    assert("Payload"@.push('/') == "Payload/"@);
    let front = parts.take(2);
    assert(front.drop_last() == seq![parts[0]]);
    assert(text::joined(front.drop_last(), '/') == parts[0]);
    assert(text::joined(front, '/') == bundle);
    assert(bundle.subrange(0, "Payload/"@.len() as int) == "Payload/"@);
    assert(bundle.skip("Payload/"@.len() as int) == parts[1]);
    let from = bundle.len() - 4;
    assert(bundle.subrange(from, bundle.len() as int) == parts[1].subrange(
        parts[1].len() - 4,
        parts[1].len() as int,
    ));
    if parts.len() > 2 {
        let back = parts.skip(2);
        assert(front + back == parts);
        text::joining_is_associative(front, back, '/');
        assert(name.subrange(0, bundle.len() as int + 1) == bundle.push('/'));
    } else {
        assert(front == parts);
    }
}

proof fn lemma_sizes_add_up(listing: Seq<Option<EntryView>>, count: nat, all: nat)
    requires
        count <= all <= listing.len(),
        forall|i: int|
            0 <= i < listing.len() && (#[trigger] listing[i]) is Some ==> listing[i]->0.size >= 0,
    ensures
        0 <= total_size(listing, count) <= total_size(listing, all),
    decreases all,
{
    if count < all {
        lemma_sizes_add_up(listing, count, (all - 1) as nat);
    } else if all > 0 {
        lemma_sizes_add_up(listing, (all - 1) as nat, (all - 1) as nat);
    }
}

/// The entry is the property list of an application, and can be read: it is not too large, and a
/// dictionary.
pub open spec fn is_readable_list(
    listing: Seq<Option<EntryView>>,
    contents: spec_fn(int) -> Option<Seq<u8>>,
    at: int,
) -> bool {
    &&& listing[at]->0.size <= 16_777_216
    &&& contents(at) is Some
    &&& archive::plist_document(contents(at)->0) is Some
    &&& archive::plist_document(contents(at)->0)->0 is Some
}

/// The listing is one of a single application: no more than 20,000 entries of no more than 4 GiB
/// together, each readable, on a safe path and compressed no more than 200 times. Whatever belongs to
/// an application belongs to this one, and every property list of it can be read. Other entries may
/// stand beside it.
pub open spec fn holds_one_application(
    listing: Seq<Option<EntryView>>,
    contents: spec_fn(int) -> Option<Seq<u8>>,
    bundle: Seq<char>,
) -> bool {
    &&& listing.len() <= 20_000
    &&& total_size(listing, listing.len()) <= 4_294_967_296
    &&& forall|i: int|
        0 <= i < listing.len() ==> {
            let entry = (#[trigger] listing[i])->0;
            &&& listing[i] is Some
            &&& entry.size >= 0
            &&& !is_unsafe_path(entry.name)
            &&& entry.compressed_size > 0 ==> entry.size / entry.compressed_size <= 200
            &&& bundle_of_entry(entry.name) is Some ==> bundle_of_entry(entry.name) == Some(bundle)
            &&& entry.name == bundle + "/Info.plist"@ ==> is_readable_list(listing, contents, i)
        }
}

proof fn lemma_found_so_far(
    listing: Seq<Option<EntryView>>,
    contents: spec_fn(int) -> Option<Seq<u8>>,
    bundle: Seq<char>,
    last: int,
    count: nat,
)
    requires
        holds_one_application(listing, contents, bundle),
        count <= listing.len(),
        0 <= last < listing.len(),
        listing[last]->0.name == bundle + "/Info.plist"@,
        bundle_of_entry(listing[last]->0.name) == Some(bundle),
        forall|i: int|
            last < i < listing.len() ==> (#[trigger] listing[i])->0.name != bundle + "/Info.plist"@,
    ensures
        after_entries(listing, contents, count) matches Ok(found) && {
            let entries = archive::plist_document(contents(last)->0)->0->0;
            &&& found.expanded == total_size(listing, count)
            &&& found.bundle is Some ==> found.bundle == Some(bundle)
            &&& last < count ==> {
                &&& found.bundle == Some(bundle)
                &&& found.info_plist
                &&& found.bundle_id == archive::plist_string_of(entries, "CFBundleIdentifier"@)
                &&& found.display_name == first_of(
                    archive::plist_string_of(entries, "CFBundleDisplayName"@),
                    archive::plist_string_of(entries, "CFBundleName"@),
                )
                &&& found.app_version == not_blank(
                    first_of(
                        archive::plist_string_of(entries, "CFBundleShortVersionString"@),
                        archive::plist_string_of(entries, "CFBundleVersion"@),
                    ),
                )
            }
        },
    decreases count,
{
    if count > 0 {
        let at = count - 1;
        lemma_found_so_far(listing, contents, bundle, last, at as nat);
        lemma_sizes_add_up(listing, count, listing.len());
        lemma_sizes_add_up(listing, at as nat, listing.len());
        let entry = listing[at]->0;
        assert(listing[at] is Some);
        if entry.name == bundle + "/Info.plist"@ {
            assert(bundle_of_entry(entry.name) == Some(bundle));
        }
    }
}

/// An archive of a single application whose property list tells an identifier is accepted, whatever
/// entries stand outside the application. Its identifier, name and version are those of the list, the
/// name being the identifier where the list tells none.
pub proof fn archives_of_one_application_are_accepted(
    listing: Seq<Option<EntryView>>,
    contents: spec_fn(int) -> Option<Seq<u8>>,
    bundle: Seq<char>,
    last: int,
)
    requires
        holds_one_application(listing, contents, bundle),
        0 <= last < listing.len(),
        listing[last]->0.name == bundle + "/Info.plist"@,
        bundle_of_entry(listing[last]->0.name) == Some(bundle),
        forall|i: int|
            last < i < listing.len() ==> (#[trigger] listing[i])->0.name != bundle + "/Info.plist"@,
        archive::plist_string_of(
            archive::plist_document(contents(last)->0)->0->0,
            "CFBundleIdentifier"@,
        ) is Some,
        text::trimmed(
            archive::plist_string_of(
                archive::plist_document(contents(last)->0)->0->0,
                "CFBundleIdentifier"@,
            )->0,
        ).len() > 0,
    ensures
        listed_application(listing, contents) matches Ok(app) && {
            let entries = archive::plist_document(contents(last)->0)->0->0;
            let told = |key: Seq<char>| archive::plist_string_of(entries, key);
            &&& app.bundle == bundle
            &&& Some(app.bundle_id) == told("CFBundleIdentifier"@)
            &&& told("CFBundleDisplayName"@) is Some && text::trimmed(
                told("CFBundleDisplayName"@)->0,
            ).len() > 0 ==> Some(app.display_name) == told("CFBundleDisplayName"@)
            &&& told("CFBundleDisplayName"@) is None && told("CFBundleName"@) is Some
                && text::trimmed(told("CFBundleName"@)->0).len() > 0 ==> Some(app.display_name)
                == told("CFBundleName"@)
            &&& told("CFBundleDisplayName"@) is None && told("CFBundleName"@) is None
                ==> app.display_name == app.bundle_id
            &&& told("CFBundleShortVersionString"@) is Some && text::trimmed(
                told("CFBundleShortVersionString"@)->0,
            ).len() > 0 ==> app.app_version == told("CFBundleShortVersionString"@)
            &&& told("CFBundleShortVersionString"@) is None && told("CFBundleVersion"@) is Some
                && text::trimmed(told("CFBundleVersion"@)->0).len() > 0 ==> app.app_version == told(
                "CFBundleVersion"@,
            )
            &&& told("CFBundleShortVersionString"@) is None && told("CFBundleVersion"@) is None
                ==> app.app_version is None
        },
{
    lemma_found_so_far(listing, contents, bundle, last, listing.len());
}

/// The entry is the property list of the application that it belongs to.
pub open spec fn is_info_plist(entry: EntryView) -> bool {
    bundle_of_entry(entry.name) is Some && entry.name == bundle_of_entry(entry.name)->0
        + "/Info.plist"@
}

/// There is a reason in the listing for which it can be refused with an error.
pub open spec fn is_reason(
    listing: Seq<Option<EntryView>>,
    contents: spec_fn(int) -> Option<Seq<u8>>,
    error: UploadError,
) -> bool {
    match error {
        UploadError::TooLarge => false,
        UploadError::TooManyEntries => listing.len() > 20_000,
        UploadError::UnsafePath => exists|i: int|
            0 <= i < listing.len() && (#[trigger] listing[i]) is Some && is_unsafe_path(
                listing[i]->0.name,
            ),
        UploadError::ExpansionLimit => exists|i: int|
            0 <= i < listing.len() && (#[trigger] listing[i]) is Some && (total_size(
                listing,
                (i + 1) as nat,
            ) > 4_294_967_296 || (listing[i]->0.compressed_size > 0 && listing[i]->0.size
                / listing[i]->0.compressed_size > 200) || listing[i]->0.size > 16_777_216),
        UploadError::InvalidArchive => exists|i: int|
            0 <= i < listing.len() && ((#[trigger] listing[i]) is None || contents(i) is None),
        UploadError::InvalidPayload => {
            ||| forall|i: int|
                0 <= i < listing.len() && (#[trigger] listing[i]) is Some ==> bundle_of_entry(
                    listing[i]->0.name,
                ) is None
            ||| exists|i: int, j: int|
                0 <= i < j < listing.len() && bundle_of_entry((#[trigger] listing[i])->0.name)
                    is Some && bundle_of_entry((#[trigger] listing[j])->0.name) is Some
                    && bundle_of_entry(listing[i]->0.name) != bundle_of_entry(listing[j]->0.name)
        },
        UploadError::MissingInfoPlist => forall|i: int|
            0 <= i < listing.len() && (#[trigger] listing[i]) is Some ==> !is_info_plist(
                listing[i]->0,
            ),
        UploadError::InvalidBundleIdentifier => exists|i: int|
            0 <= i < listing.len() && contents(i) is Some && {
                let document = #[trigger] archive::plist_document(contents(i)->0);
                ||| document is None
                ||| document->0 is None
                ||| not_blank(
                    archive::plist_string_of(document->0->0, "CFBundleIdentifier"@),
                ) is None
            },
    }
}

proof fn lemma_reasons_so_far(
    listing: Seq<Option<EntryView>>,
    contents: spec_fn(int) -> Option<Seq<u8>>,
    count: nat,
)
    requires
        count <= listing.len(),
        listing.len() <= 20_000,
        forall|i: int|
            0 <= i < listing.len() && (#[trigger] listing[i]) is Some ==> listing[i]->0.size >= 0,
    ensures
        match after_entries(listing, contents, count) {
            Err(error) => is_reason(listing, contents, error),
            Ok(found) => {
                &&& found.expanded == total_size(listing, count)
                &&& found.expanded <= 4_294_967_296
                &&& found.bundle is None ==> forall|i: int|
                    0 <= i < count ==> (#[trigger] listing[i]) is Some && bundle_of_entry(
                        listing[i]->0.name,
                    ) is None
                &&& found.bundle is Some ==> exists|i: int|
                    0 <= i < count && (#[trigger] listing[i]) is Some && bundle_of_entry(
                        listing[i]->0.name,
                    ) == found.bundle
                &&& !found.info_plist ==> forall|i: int|
                    0 <= i < count ==> (#[trigger] listing[i]) is Some && !is_info_plist(
                        listing[i]->0,
                    )
                &&& found.info_plist ==> exists|i: int|
                    0 <= i < count && contents(i) is Some && {
                        let document = #[trigger] archive::plist_document(contents(i)->0);
                        &&& document is Some
                        &&& document->0 is Some
                        &&& found.bundle_id == archive::plist_string_of(
                            document->0->0,
                            "CFBundleIdentifier"@,
                        )
                    }
            },
        },
    decreases count,
{
    if count > 0 {
        let at = count - 1;
        lemma_reasons_so_far(listing, contents, at as nat);
        if let Ok(found) = after_entries(listing, contents, at as nat) {
            if listing[at] is Some {
                let entry = listing[at]->0;
                assert(total_size(listing, (at + 1) as nat) == found.expanded + entry.size);
                if bundle_of_entry(entry.name) is Some && found.bundle is Some && bundle_of_entry(
                    entry.name,
                ) != found.bundle {
                    let i = choose|i: int|
                        0 <= i < at && (#[trigger] listing[i]) is Some && bundle_of_entry(
                            listing[i]->0.name,
                        ) == found.bundle;
                    assert(bundle_of_entry(listing[i]->0.name) != bundle_of_entry(
                        listing[at]->0.name,
                    ));
                }
                if contents(at) is Some {
                    let document = archive::plist_document(contents(at)->0);
                }
            }
        }
    }
}

/// An archive is refused only for what it holds: each error names something that is wrong with it.
pub proof fn refusals_have_their_reason(
    listing: Seq<Option<EntryView>>,
    contents: spec_fn(int) -> Option<Seq<u8>>,
)
    requires
        listed_application(listing, contents) is Err,
        forall|i: int|
            0 <= i < listing.len() && (#[trigger] listing[i]) is Some ==> listing[i]->0.size >= 0,
    ensures
        is_reason(listing, contents, listed_application(listing, contents)->Err_0),
{
    if listing.len() <= 20_000 {
        lemma_reasons_so_far(listing, contents, listing.len());
    }
}

/// An archive that was refused after some entries stays refused after more.
proof fn refusal_is_final(
    listing: Seq<Option<EntryView>>,
    contents: spec_fn(int) -> Option<Seq<u8>>,
    early: nat,
    late: nat,
)
    requires
        early <= late,
        after_entries(listing, contents, early) is Err,
    ensures
        after_entries(listing, contents, late) == after_entries(listing, contents, early),
    decreases late,
{
    if early < late {
        refusal_is_final(listing, contents, early, (late - 1) as nat);
    }
}

/// Accepts an archive path that cannot lead out of its directory.
pub fn validate_archive_path(name: &str) -> (result: Result<(), UploadError>)
    ensures
        result == if is_unsafe_path(name@) {
            Err::<(), UploadError>(UploadError::UnsafePath)
        } else {
            Ok(())
        },
{
    let chars: Vec<char> = text::chars_of(name);
    if chars.len() > 0 && chars[0] == '/' {
        return Err(UploadError::UnsafePath);
    }
    if text::holds(&chars, '\\') {
        return Err(UploadError::UnsafePath);
    }
    let parts: Vec<Vec<char>> = text::split(&chars, '/');
    let ghost views = text::split_on(name@, '/');
    let mut i: usize = 0;
    while i < parts.len()
        invariant
            i <= parts.len(),
            text::char_views(parts@) == views,
            views == text::split_on(name@, '/'),
            !(name@.len() > 0 && name@[0] == '/'),
            !name@.contains('\\'),
            forall|k: int| 0 <= k < i ==> #[trigger] views[k] != ".."@,
        decreases parts.len() - i,
    {
        proof {
            reveal_strlit("..");
            assert(views[i as int] == parts@[i as int]@);
            assert(".."@ == seq!['.', '.']);
        }
        if parts[i].len() == 2 && parts[i][0] == '.' && parts[i][1] == '.' {
            proof {
                assert(views[i as int] == ".."@);
            }
            return Err(UploadError::UnsafePath);
        }
        i = i + 1;
    }
    Ok(())
}

/// The application bundle that an entry belongs to.
pub fn main_bundle_from_entry(name: &str) -> (bundle: Option<String>)
    ensures
        text::text_view(bundle) == bundle_of_entry(name@),
{
    let chars: Vec<char> = text::chars_of(name);
    let parts: Vec<Vec<char>> = text::split(&chars, '/');
    let ghost views = text::split_on(name@, '/');
    if parts.len() < 2 {
        return None;
    }
    proof {
        assert(views[0] == parts@[0]@);
        assert(views[1] == parts@[1]@);
    }
    let payload: Vec<char> = text::chars_of("Payload");
    let suffix: Vec<char> = text::chars_of(".app");
    let same: bool = parts[0].len() == payload.len() && text::part_at(&parts[0], &payload, 0);
    proof {
        assert(parts@[0]@.subrange(0, parts@[0]@.len() as int) == parts@[0]@);
    }
    if same && text::ends_with(&parts[1], &suffix) {
        let mut bundle: String = "Payload/".to_owned();
        let second: String = text::text_of(&parts[1]);
        bundle.append(second.as_str());
        Some(bundle)
    } else {
        None
    }
}

fn keep_not_blank(value: Option<String>) -> (kept: Option<String>)
    ensures
        text::text_view(kept) == not_blank(text::text_view(value)),
{
    match value {
        Some(value) => if text::trim(value.as_str()).is_empty() {
            None
        } else {
            Some(value)
        },
        None => None,
    }
}

/// An inspection that goes through the entries of an archive one by one.
#[derive(Debug)]
pub struct Inspection {
    pub expanded: u64,
    pub bundle: Option<String>,
    pub info_plist: bool,
    pub bundle_id: Option<String>,
    pub display_name: Option<String>,
    pub app_version: Option<String>,
}

impl View for Inspection {
    type V = Findings;

    open spec fn view(&self) -> Findings {
        Findings {
            expanded: self.expanded as int,
            bundle: text::text_view(self.bundle),
            info_plist: self.info_plist,
            bundle_id: text::text_view(self.bundle_id),
            display_name: text::text_view(self.display_name),
            app_version: text::text_view(self.app_version),
        }
    }
}

/// What an accepted archive describes.
#[derive(Debug)]
pub struct ApplicationInfo {
    pub bundle: String,
    pub bundle_id: String,
    pub display_name: String,
    pub app_version: Option<String>,
}

impl View for ApplicationInfo {
    type V = Application;

    open spec fn view(&self) -> Application {
        Application {
            bundle: self.bundle@,
            bundle_id: self.bundle_id@,
            display_name: self.display_name@,
            app_version: text::text_view(self.app_version),
        }
    }
}

impl Inspection {
    /// An inspection that has seen no entry.
    pub fn new() -> (inspection: Inspection)
        ensures
            inspection@ == nothing_found(),
    {
        Inspection {
            expanded: 0,
            bundle: None,
            info_plist: false,
            bundle_id: None,
            display_name: None,
            app_version: None,
        }
    }

    /// Takes in the directory line of the next entry, and tells whether the entry is the
    /// application's property list, which is then to be read.
    pub fn accept(self, entry: &ArchiveEntry) -> (result: Result<(Inspection, bool), UploadError>)
        ensures
            match result {
                Ok((grown, info_plist)) => admitted(self@, entry@) == Ok::<_, UploadError>(
                    (grown@, info_plist),
                ),
                Err(error) => admitted(self@, entry@) == Err::<(Findings, bool), _>(error),
            },
    {
        match validate_archive_path(entry.name.as_str()) {
            Ok(()) => {},
            Err(error) => {
                return Err(error);
            },
        }
        let expanded: u64 = self.expanded.saturating_add(entry.size);
        if expanded > MAX_EXPANDED_BYTES {
            return Err(UploadError::ExpansionLimit);
        }
        if entry.compressed_size > 0 && entry.size / entry.compressed_size
            > MAX_COMPRESSION_RATIO {
            return Err(UploadError::ExpansionLimit);
        }
        let bundle: Option<String> = match main_bundle_from_entry(entry.name.as_str()) {
            Some(found) => match self.bundle {
                Some(known) => {
                    if !text::same_text(known.as_str(), found.as_str()) {
                        return Err(UploadError::InvalidPayload);
                    }
                    Some(known)
                },
                None => Some(found),
            },
            None => self.bundle,
        };
        let info_plist: bool = match &bundle {
            Some(bundle) => {
                let mut path: String = bundle.clone();
                path.append("/Info.plist");
                text::same_text(entry.name.as_str(), path.as_str())
            },
            None => false,
        };
        if info_plist && entry.size > MAX_INFO_PLIST_BYTES {
            return Err(UploadError::ExpansionLimit);
        }
        Ok(
            (
                Inspection {
                    expanded,
                    bundle,
                    info_plist: self.info_plist,
                    bundle_id: self.bundle_id,
                    display_name: self.display_name,
                    app_version: self.app_version,
                },
                info_plist,
            ),
        )
    }

    /// Takes in the application's property list.
    pub fn inform(self, document: &PlistDocument) -> (result: Result<Inspection, UploadError>)
        ensures
            match result {
                Ok(grown) => informed(self@, archive::document_view(*document)) == Ok::<
                    _,
                    UploadError,
                >(grown@),
                Err(error) => informed(self@, archive::document_view(*document)) == Err::<
                    Findings,
                    _,
                >(error),
            },
    {
        match document {
            PlistDocument::Dictionary(entries) => {
                let display_name: Option<String> = match archive::plist_string(
                    entries,
                    "CFBundleDisplayName",
                ) {
                    Some(name) => Some(name),
                    None => archive::plist_string(entries, "CFBundleName"),
                };
                let version: Option<String> = match archive::plist_string(
                    entries,
                    "CFBundleShortVersionString",
                ) {
                    Some(version) => Some(version),
                    None => archive::plist_string(entries, "CFBundleVersion"),
                };
                Ok(
                    Inspection {
                        expanded: self.expanded,
                        bundle: self.bundle,
                        info_plist: true,
                        bundle_id: archive::plist_string(entries, "CFBundleIdentifier"),
                        display_name,
                        app_version: keep_not_blank(version),
                    },
                )
            },
            _ => Err(UploadError::InvalidBundleIdentifier),
        }
    }

    /// The application that all entries together describe.
    pub fn conclude(self) -> (result: Result<ApplicationInfo, UploadError>)
        ensures
            match result {
                Ok(application) => concluded(self@) == Ok::<_, UploadError>(application@),
                Err(error) => concluded(self@) == Err::<Application, _>(error),
            },
    {
        let bundle: String = match self.bundle {
            Some(bundle) => bundle,
            None => {
                return Err(UploadError::InvalidPayload);
            },
        };
        if !self.info_plist {
            return Err(UploadError::MissingInfoPlist);
        }
        let bundle_id: String = match keep_not_blank(self.bundle_id) {
            Some(bundle_id) => bundle_id,
            None => {
                return Err(UploadError::InvalidBundleIdentifier);
            },
        };
        let display_name: String = match keep_not_blank(self.display_name) {
            Some(name) => name,
            None => bundle_id.clone(),
        };
        Ok(ApplicationInfo { bundle, bundle_id, display_name, app_version: self.app_version })
    }
}

/// Inspects the bytes of an IPA.
pub fn inspect_ipa(bytes: &[u8]) -> (result: Result<UploadMetadata, UploadError>)
    ensures
        match result {
            Ok(metadata) => {
                &&& application_of(bytes@) matches Ok(application)
                &&& metadata.app_bundle_path@ == application.bundle
                &&& metadata.bundle_id@ == application.bundle_id
                &&& metadata.display_name@ == application.display_name
                &&& text::text_view(metadata.app_version) == application.app_version
                &&& metadata.sha256@ == digest::hex_text(digest::sha256_of(bytes@))
                &&& metadata.size_bytes == bytes@.len()
                &&& metadata.info_plist_present
            },
            Err(error) => application_of(bytes@) == Err::<Application, _>(error),
        },
{
    if bytes.len() as u64 > MAX_COMPRESSED_BYTES {
        return Err(UploadError::TooLarge);
    }
    let mut archive: ZipArchive<Cursor<&[u8]>> = match archive::open_archive(bytes) {
        Some(archive) => archive,
        None => {
            return Err(UploadError::InvalidArchive);
        },
    };
    let length: usize = archive::archive_length(&archive);
    if length > MAX_ENTRIES {
        return Err(UploadError::TooManyEntries);
    }
    let ghost listing = archive::zip_listing(bytes@)->0;
    let ghost contents = |index: int| archive::zip_contents(bytes@, index);
    let mut inspection: Inspection = Inspection::new();
    let mut i: usize = 0;
    while i < length
        invariant
            i <= length <= MAX_ENTRIES,
            bytes@.len() <= MAX_COMPRESSED_BYTES,
            archive::archive_bytes(archive) == bytes@,
            archive::zip_listing(bytes@) == Some(listing),
            listing.len() == length,
            contents == (|index: int| archive::zip_contents(bytes@, index)),
            after_entries(listing, contents, i as nat) == Ok::<_, UploadError>(inspection@),
        decreases length - i,
    {
        let ghost so_far = after_entries(listing, contents, (i + 1) as nat);
        proof {
            assert(so_far is Err ==> application_of(bytes@) == Err::<Application, _>(so_far->Err_0))
                by {
                if so_far is Err {
                    refusal_is_final(listing, contents, (i + 1) as nat, listing.len());
                }
            }
        }
        let entry: ArchiveEntry = match archive::archive_entry(&mut archive, i) {
            Some(entry) => entry,
            None => {
                return Err(UploadError::InvalidArchive);
            },
        };
        let (grown, info_plist): (Inspection, bool) = match inspection.accept(&entry) {
            Ok(step) => step,
            Err(error) => {
                return Err(error);
            },
        };
        if info_plist {
            let document: PlistDocument = match archive::archive_contents(
                &mut archive,
                i,
            ) {
                Some(contents) => archive::read_plist(contents.as_slice()),
                None => {
                    return Err(UploadError::InvalidArchive);
                },
            };
            inspection = match grown.inform(&document) {
                Ok(informed) => informed,
                Err(error) => {
                    return Err(error);
                },
            };
        } else {
            inspection = grown;
        }
        i = i + 1;
    }
    match inspection.conclude() {
        Ok(application) => Ok(
            UploadMetadata {
                sha256: digest::hex(digest::sha256(bytes).as_slice()),
                size_bytes: bytes.len() as u64,
                app_bundle_path: application.bundle,
                bundle_id: application.bundle_id,
                display_name: application.display_name,
                app_version: application.app_version,
                info_plist_present: true,
            },
        ),
        Err(error) => Err(error),
    }
}

/// The bundle identifier of an IPA.
pub fn bundle_identifier(bytes: &[u8]) -> (result: Result<String, UploadError>)
    ensures
        match result {
            Ok(bundle_id) => application_of(bytes@) matches Ok(application)
                && bundle_id@ == application.bundle_id,
            Err(error) => application_of(bytes@) == Err::<Application, _>(error),
        },
{
    match inspect_ipa(bytes) {
        Ok(metadata) => Ok(metadata.bundle_id),
        Err(error) => Err(error),
    }
}

/// The sentences of the errors.
pub proof fn upload_errors_are_told()
    ensures
        UploadError::TooLarge.sentence()@ == "upload exceeds the configured size limit"@,
        UploadError::InvalidArchive.sentence()@ == "upload is not a readable IPA archive"@,
        UploadError::UnsafePath.sentence()@ == "archive contains an unsafe path"@,
        UploadError::TooManyEntries.sentence()@ == "archive contains too many entries"@,
        UploadError::ExpansionLimit.sentence()@ == "archive expansion exceeds the configured limit"@,
        UploadError::InvalidPayload.sentence()@ == "archive does not contain exactly one application bundle"@,
        UploadError::MissingInfoPlist.sentence()@ == "application Info.plist is missing"@,
        UploadError::InvalidBundleIdentifier.sentence()@ == "application Info.plist does not contain a valid bundle identifier"@,
{
}

/// An accepted archive has no more than 20000 entries of no more than four gibibytes together. Each
/// of its entries can be read, is on a safe path and is compressed no more than 200 times, and the
/// property list of the application has no more than 16 mebibytes.
pub proof fn accepted_archives_keep_the_limits(
    listing: Seq<Option<EntryView>>,
    contents: spec_fn(int) -> Option<Seq<u8>>,
    at: int,
)
    requires
        listed_application(listing, contents) is Ok,
        0 <= at < listing.len(),
    ensures
        listing.len() <= 20_000,
        total_size(listing, listing.len()) <= 4_294_967_296,
        listing[at] is Some,
        !is_unsafe_path(listing[at]->0.name),
        listing[at]->0.compressed_size > 0 ==> listing[at]->0.size / listing[at]->0.compressed_size
            <= 200,
        bundle_of_entry(listing[at]->0.name) is Some ==> bundle_of_entry(listing[at]->0.name)
            == Some(listed_application(listing, contents)->Ok_0.bundle),
        is_info_plist(listing[at]->0) ==> listing[at]->0.size <= 16_777_216 && contents(at)
            is Some && archive::plist_document(contents(at)->0) is Some,
{
    accepted_archives_are_sound(listing, contents);
    let bundle = Some(listed_application(listing, contents)->Ok_0.bundle);
    assert(is_sound_entry(listing[at], bundle));
    let next = (at + 1) as nat;
    if after_entries(listing, contents, next) is Err {
        refusal_is_final(listing, contents, next, listing.len());
    }
    assert(after_entries(listing, contents, at as nat) is Ok);
}

/// An IPA has no more than two gibibytes, and is what its listing describes.
pub proof fn ipas_are_limited(bytes: Seq<u8>)
    ensures
        bytes.len() > 2_147_483_648 ==> application_of(bytes) == Err::<Application, UploadError>(
            UploadError::TooLarge,
        ),
        bytes.len() <= 2_147_483_648 && archive::zip_listing(bytes) is None ==> application_of(
            bytes,
        ) == Err::<Application, UploadError>(UploadError::InvalidArchive),
        bytes.len() <= 2_147_483_648 && archive::zip_listing(bytes) is Some ==> application_of(
            bytes,
        ) == listed_application(
            archive::zip_listing(bytes)->0,
            |index: int| archive::zip_contents(bytes, index),
        ),
{
}

/// An application whose names are blank is shown by its identifier, and a blank version is none. An
/// archive without a bundle, without a property list or without an identifier has none.
pub proof fn blank_names_do_not_count(found: Findings)
    ensures
        found.bundle is None ==> concluded(found) == Err::<Application, UploadError>(
            UploadError::InvalidPayload,
        ),
        found.bundle is Some && !found.info_plist ==> concluded(found) == Err::<
            Application,
            UploadError,
        >(UploadError::MissingInfoPlist),
        found.bundle is Some && found.info_plist && (found.bundle_id is None || text::trimmed(
            found.bundle_id->0,
        ).len() == 0) ==> concluded(found) == Err::<Application, UploadError>(
            UploadError::InvalidBundleIdentifier,
        ),
        found.bundle is Some && found.info_plist && found.bundle_id is Some && text::trimmed(
            found.bundle_id->0,
        ).len() > 0 ==> {
            let app = concluded(found)->Ok_0;
            &&& concluded(found) is Ok
            &&& app.bundle == found.bundle->0
            &&& app.bundle_id == found.bundle_id->0
            &&& app.app_version == found.app_version
            &&& found.display_name is None || text::trimmed(found.display_name->0).len() == 0
                ==> app.display_name == found.bundle_id->0
            &&& found.display_name is Some && text::trimmed(found.display_name->0).len() > 0
                ==> app.display_name == found.display_name->0
        },
{
}

/// The sizes of entries are counted together, whatever their order.
pub proof fn sizes_are_counted_together(
    listing: Seq<Option<EntryView>>,
    entry: EntryView,
    count: nat,
)
    requires
        count <= listing.len(),
    ensures
        total_size(listing.push(Some(entry)), listing.len() + 1) == total_size(
            listing,
            listing.len(),
        ) + entry.size,
        total_size(listing.push(None), listing.len() + 1) == total_size(listing, listing.len()),
        total_size(listing, 0) == 0,
        total_size(listing.push(Some(entry)), count) == total_size(listing, count),
        total_size(listing.push(None), count) == total_size(listing, count),
{
    lemma_size_of_front(listing, Some(entry), count);
    lemma_size_of_front(listing, None, count);
    lemma_size_of_front(listing, Some(entry), listing.len());
    lemma_size_of_front(listing, None, listing.len());
}

proof fn lemma_size_of_front(
    listing: Seq<Option<EntryView>>,
    entry: Option<EntryView>,
    count: nat,
)
    requires
        count <= listing.len(),
    ensures
        total_size(listing.push(entry), count) == total_size(listing, count),
    decreases count,
{
    if count > 0 {
        lemma_size_of_front(listing, entry, (count - 1) as nat);
    }
}

/// The views of an inspection and of what it came to tell all that they hold.
pub proof fn views_tell_the_whole_application(inspection: Inspection, info: ApplicationInfo)
    ensures
        inspection@.expanded == inspection.expanded,
        inspection@.bundle == text::text_view(inspection.bundle),
        inspection@.info_plist == inspection.info_plist,
        inspection@.bundle_id == text::text_view(inspection.bundle_id),
        inspection@.display_name == text::text_view(inspection.display_name),
        inspection@.app_version == text::text_view(inspection.app_version),
        info@.bundle == info.bundle@,
        info@.bundle_id == info.bundle_id@,
        info@.display_name == info.display_name@,
        info@.app_version == text::text_view(info.app_version),
{
}

} // verus!
