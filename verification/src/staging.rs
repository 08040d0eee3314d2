//! Copying a signed app to the device: the plan of what is copied, the task's own directory on the
//! device, the steps of the copy, and its removal.
use vstd::prelude::*;
use vstd::string::*;

use crate::digest;
use crate::digest::RunningDigest;
use crate::faults::DeviceFault;
use crate::record;
use crate::record::RecordId;
use crate::signing::PathKind;
use crate::sorting;
use crate::sorting::Ranked;
use crate::stages::RsdStagingCleanup;
use crate::text;

verus! {

/// The most entries that are copied.
pub const RSD_INSTALL_FILE_LIMIT: usize = 20_000;

/// The most bytes that are copied.
pub const RSD_INSTALL_BYTE_LIMIT: u64 = 2_147_483_648;

/// The most bytes that are read or sent at once.
pub const RSD_INSTALL_TRANSFER_CHUNK: usize = 65_536;

/// Why no plan is made.
#[derive(Debug, Clone, Copy, PartialEq, Eq, Structural)]
pub enum UploadPlanFailure {
    /// The app is no directory.
    SourceNotDirectory,
    /// There is a symbolic link.
    SourceSymlink,
    /// There is something that is neither a file nor a directory.
    UnsupportedFileType,
    /// A name is no Unicode text.
    NonUnicodePath,
    /// A path leads out of the app.
    UnsafePath,
    /// There are too many entries.
    TooManyEntries,
    /// There are too many bytes.
    TooManyBytes,
    /// A file could not be read, or has changed.
    LocalIo,
    /// The time ran out.
    Timeout,
}

impl UploadPlanFailure {
    /// The failure's name.
    pub open spec fn text(self) -> &'static str {
        match self {
            UploadPlanFailure::SourceNotDirectory => "source_not_directory",
            UploadPlanFailure::SourceSymlink => "source_symlink",
            UploadPlanFailure::UnsupportedFileType => "unsupported_file_type",
            UploadPlanFailure::NonUnicodePath => "non_unicode_path",
            UploadPlanFailure::UnsafePath => "unsafe_path",
            UploadPlanFailure::TooManyEntries => "entry_limit",
            UploadPlanFailure::TooManyBytes => "byte_limit",
            UploadPlanFailure::LocalIo => "local_io",
            UploadPlanFailure::Timeout => "timeout",
        }
    }

    /// The failure's name.
    pub fn kind(self) -> (text: &'static str)
        ensures
            text == self.text(),
    {
        match self {
            UploadPlanFailure::SourceNotDirectory => "source_not_directory",
            UploadPlanFailure::SourceSymlink => "source_symlink",
            UploadPlanFailure::UnsupportedFileType => "unsupported_file_type",
            UploadPlanFailure::NonUnicodePath => "non_unicode_path",
            UploadPlanFailure::UnsafePath => "unsafe_path",
            UploadPlanFailure::TooManyEntries => "entry_limit",
            UploadPlanFailure::TooManyBytes => "byte_limit",
            UploadPlanFailure::LocalIo => "local_io",
            UploadPlanFailure::Timeout => "timeout",
        }
    }
}

/// What a file was when it was planned: its file system, its number there, and its last change.
#[derive(Debug, Clone, Copy, PartialEq, Eq, Structural)]
pub struct FileIdentity {
    pub volume: u64,
    pub file: u64,
    pub version: u64,
}

/// The number that stands for the moment of a last change: the seconds with their halves exchanged,
/// and the nanoseconds in the lower half.
pub open spec fn change_number(seconds: i64, nanoseconds: i64) -> u64 {
    (((seconds as u64) << 32) | ((seconds as u64) >> 32)) ^ (nanoseconds as u64)
}

impl FileIdentity {
    /// The identity of a file of a Unix system.
    pub fn of_inode(device: u64, inode: u64, seconds: i64, nanoseconds: i64) -> (identity: Self)
        ensures
            identity == (FileIdentity {
                volume: device,
                file: inode,
                version: change_number(seconds, nanoseconds),
            }),
    {
        FileIdentity {
            volume: device,
            file: inode,
            version: (((seconds as u64) << 32) | ((seconds as u64) >> 32)) ^ (nanoseconds as u64),
        }
    }
}

/// One part of a path inside the app.
#[derive(Debug)]
pub enum PathComponent {
    /// A name.
    Normal(String),
    /// A name that is no Unicode text.
    NonUnicode,
    /// A root, or a step to the same or the upper directory.
    Special,
}

/// A name under which an entry can stand on the device.
pub open spec fn is_safe_name(name: Seq<char>) -> bool {
    &&& name.len() > 0
    &&& name != "."@
    &&& name != ".."@
    &&& !name.contains('/')
    &&& !name.contains('\\')
    &&& !name.contains('\0')
}

/// Why a part of a path is refused.
pub open spec fn component_failure(component: PathComponent) -> Option<UploadPlanFailure> {
    match component {
        PathComponent::Normal(name) => if is_safe_name(name@) {
            None
        } else {
            Some(UploadPlanFailure::UnsafePath)
        },
        PathComponent::NonUnicode => Some(UploadPlanFailure::NonUnicodePath),
        PathComponent::Special => Some(UploadPlanFailure::UnsafePath),
    }
}

/// The names of the parts of a path.
pub open spec fn names(components: Seq<PathComponent>) -> Seq<Seq<char>> {
    components.map_values(
        |component: PathComponent|
            match component {
                PathComponent::Normal(name) => name@,
                _ => Seq::empty(),
            },
    )
}

/// The path on the device for a path inside the app, or why there is none: the first part that is
/// refused decides, and a path without parts is refused.
pub open spec fn remote_path(components: Seq<PathComponent>) -> Result<
    Seq<char>,
    UploadPlanFailure,
> {
    if components.len() == 0 {
        Err(UploadPlanFailure::UnsafePath)
    } else {
        match (first_failure(components), names(components)) {
            (Some(failure), _) => Err(failure),
            (None, names) => Ok(text::joined(names, '/')),
        }
    }
}

/// Why the first refused part of a path is refused.
pub open spec fn first_failure(components: Seq<PathComponent>) -> Option<UploadPlanFailure>
    decreases components.len(),
{
    if components.len() == 0 {
        None
    } else {
        match first_failure(components.drop_last()) {
            Some(failure) => Some(failure),
            None => component_failure(components.last()),
        }
    }
}

fn name_is_safe(name: &str) -> (safe: bool)
    ensures
        safe == is_safe_name(name@),
{
    let chars: Vec<char> = text::chars_of(name);
    chars.len() > 0 && !text::same_text(name, ".") && !text::same_text(name, "..") && !text::holds(
        &chars,
        '/',
    ) && !text::holds(&chars, '\\') && !text::holds(&chars, '\0')
}

/// A refused part stays the first one, whatever follows it.
proof fn refusals_stay(components: Seq<PathComponent>, count: int)
    requires
        0 <= count <= components.len(),
        first_failure(components.take(count)) is Some,
    ensures
        first_failure(components) == first_failure(components.take(count)),
    decreases components.len() - count,
{
    if count < components.len() {
        assert(components.take(count + 1).drop_last() == components.take(count));
        refusals_stay(components, count + 1);
    } else {
        assert(components.take(count) == components);
    }
}

/// The path on the device for a path inside the app.
pub fn safe_remote_relative_path(components: &Vec<PathComponent>) -> (path: Result<
    String,
    UploadPlanFailure,
>)
    ensures
        match path {
            Ok(path) => remote_path(components@) == Ok::<Seq<char>, UploadPlanFailure>(path@),
            Err(failure) => remote_path(components@) == Err::<Seq<char>, UploadPlanFailure>(
                failure,
            ),
        },
{
    if components.len() == 0 {
        return Err(UploadPlanFailure::UnsafePath);
    }
    let mut path: String = String::new();
    let mut i: usize = 0;
    proof {
        assert(names(components@.take(0)) == Seq::<Seq<char>>::empty());
    }
    while i < components.len()
        invariant
            i <= components.len(),
            first_failure(components@.take(i as int)) is None,
            path@ == text::joined(names(components@.take(i as int)), '/'),
        decreases components.len() - i,
    {
        let ghost seen = components@.take(i as int);
        let ghost more = components@.take(i + 1);
        proof {
            assert(more.drop_last() == seen);
            assert(more.last() == components@[i as int]);
            assert(names(more).drop_last() == names(seen));
        }
        let failure: Option<UploadPlanFailure> = match &components[i] {
            PathComponent::Normal(name) => if name_is_safe(name.as_str()) {
                if i > 0 {
                    path.push('/');
                }
                path.append(name.as_str());
                None
            } else {
                Some(UploadPlanFailure::UnsafePath)
            },
            PathComponent::NonUnicode => Some(UploadPlanFailure::NonUnicodePath),
            PathComponent::Special => Some(UploadPlanFailure::UnsafePath),
        };
        if let Some(failure) = failure {
            proof {
                refusals_stay(components@, i + 1);
            }
            return Err(failure);
        }
        proof {
            let name = names(more).last();
            if i == 0 {
                assert(names(more) == seq![name]);
                assert(path@ == name);
            } else {
                assert(path@ == text::joined(names(seen), '/').push('/') + name);
            }
        }
        i = i + 1;
    }
    proof {
        assert(components@.take(i as int) == components@);
    }
    Ok(path)
}

/// The bounds of a plan.
pub open spec fn bounds_failure(entry_count: int, byte_count: int) -> Option<UploadPlanFailure> {
    if entry_count > RSD_INSTALL_FILE_LIMIT {
        Some(UploadPlanFailure::TooManyEntries)
    } else if byte_count > RSD_INSTALL_BYTE_LIMIT {
        Some(UploadPlanFailure::TooManyBytes)
    } else {
        None
    }
}

/// Refuses more entries or bytes than are copied.
pub fn validate_upload_bounds(entry_count: usize, byte_count: u64) -> (result: Result<
    (),
    UploadPlanFailure,
>)
    ensures
        result == match bounds_failure(entry_count as int, byte_count as int) {
            Some(failure) => Err::<(), UploadPlanFailure>(failure),
            None => Ok::<(), UploadPlanFailure>(()),
        },
{
    if entry_count > RSD_INSTALL_FILE_LIMIT {
        Err(UploadPlanFailure::TooManyEntries)
    } else if byte_count > RSD_INSTALL_BYTE_LIMIT {
        Err(UploadPlanFailure::TooManyBytes)
    } else {
        Ok(())
    }
}

/// Refuses to go on behind a deadline.
pub fn ensure_plan_deadline(deadline: Option<u64>, now: u64) -> (result: Result<
    (),
    UploadPlanFailure,
>)
    ensures
        result == if deadline is Some && now >= deadline->0 {
            Err::<(), UploadPlanFailure>(UploadPlanFailure::Timeout)
        } else {
            Ok::<(), UploadPlanFailure>(())
        },
{
    match deadline {
        Some(deadline) if now >= deadline => Err(UploadPlanFailure::Timeout),
        _ => Ok(()),
    }
}

/// Where the real path of an entry lies.
#[derive(Debug, Clone, Copy, PartialEq, Eq, Structural)]
pub enum Place {
    /// Inside the app.
    Inside,
    /// Elsewhere.
    Outside,
    /// It could not be found out.
    Unresolved,
}

/// Refuses an app that is no directory of its own.
pub fn check_root(kind: PathKind) -> (result: Result<(), UploadPlanFailure>)
    ensures
        result == match kind {
            PathKind::Directory => Ok::<(), UploadPlanFailure>(()),
            PathKind::Symlink => Err::<(), UploadPlanFailure>(UploadPlanFailure::SourceSymlink),
            _ => Err::<(), UploadPlanFailure>(UploadPlanFailure::SourceNotDirectory),
        },
{
    match kind {
        PathKind::Directory => Ok(()),
        PathKind::Symlink => Err(UploadPlanFailure::SourceSymlink),
        _ => Err(UploadPlanFailure::SourceNotDirectory),
    }
}

/// Refuses a directory that was replaced since it was seen, or that lies elsewhere.
pub fn check_directory(kind: PathKind, place: Place) -> (result: Result<(), UploadPlanFailure>)
    ensures
        result == if kind != PathKind::Directory {
            Err::<(), UploadPlanFailure>(UploadPlanFailure::SourceSymlink)
        } else {
            place_check(place)
        },
{
    match kind {
        PathKind::Directory => check_place(place),
        _ => Err(UploadPlanFailure::SourceSymlink),
    }
}

/// Refuses an entry that does not lie inside the app.
pub open spec fn place_check(place: Place) -> Result<(), UploadPlanFailure> {
    match place {
        Place::Inside => Ok(()),
        Place::Outside => Err(UploadPlanFailure::UnsafePath),
        Place::Unresolved => Err(UploadPlanFailure::LocalIo),
    }
}

/// Refuses an entry that does not lie inside the app.
pub fn check_place(place: Place) -> (result: Result<(), UploadPlanFailure>)
    ensures
        result == place_check(place),
{
    match place {
        Place::Inside => Ok(()),
        Place::Outside => Err(UploadPlanFailure::UnsafePath),
        Place::Unresolved => Err(UploadPlanFailure::LocalIo),
    }
}

/// What an entry of the app is: its path on the device, and whether it is a directory.
#[derive(Debug)]
pub struct Sighting {
    pub remote_relative_path: String,
    pub directory: bool,
}

/// Examines an entry of the app: symbolic links and what is neither a file nor a directory are
/// refused, and so is an entry that lies elsewhere or whose path cannot stand on the device.
pub fn examine(kind: PathKind, place: Place, components: &Vec<PathComponent>) -> (sighting: Result<
    Sighting,
    UploadPlanFailure,
>)
    ensures
        match sighting {
            Ok(sighting) => {
                &&& place == Place::Inside
                &&& remote_path(components@) == Ok::<Seq<char>, UploadPlanFailure>(
                    sighting.remote_relative_path@,
                )
                &&& sighting.directory == (kind == PathKind::Directory)
                &&& kind == PathKind::Directory || kind == PathKind::File
            },
            Err(failure) => failure == if kind == PathKind::Symlink {
                UploadPlanFailure::SourceSymlink
            } else if place_check(place) is Err {
                place_check(place)->Err_0
            } else if remote_path(components@) is Err {
                remote_path(components@)->Err_0
            } else {
                UploadPlanFailure::UnsupportedFileType
            } && (kind == PathKind::Symlink || place_check(place) is Err || remote_path(
                components@,
            ) is Err || kind == PathKind::Other),
        },
{
    if kind == PathKind::Symlink {
        return Err(UploadPlanFailure::SourceSymlink);
    }
    match check_place(place) {
        Ok(()) => {},
        Err(failure) => {
            return Err(failure);
        },
    }
    match safe_remote_relative_path(components) {
        Ok(remote_relative_path) => match kind {
            PathKind::Directory => Ok(Sighting { remote_relative_path, directory: true }),
            PathKind::File => Ok(Sighting { remote_relative_path, directory: false }),
            _ => Err(UploadPlanFailure::UnsupportedFileType),
        },
        Err(failure) => Err(failure),
    }
}

/// What a planned entry is.
#[derive(Debug)]
pub enum UploadEntryKind {
    Directory { identity: FileIdentity },
    File { size: u64, identity: FileIdentity, digest: Vec<u8> },
}

/// An entry of the plan.
#[derive(Debug)]
pub struct UploadEntry {
    pub local_path: String,
    pub remote_relative_path: String,
    pub kind: UploadEntryKind,
}

impl UploadEntry {
    /// The bytes of the entry's content.
    pub open spec fn bytes(self) -> int {
        match self.kind {
            UploadEntryKind::Directory { .. } => 0,
            UploadEntryKind::File { size, .. } => size as int,
        }
    }

    fn size(&self) -> (size: u64)
        ensures
            size == self.bytes(),
    {
        match &self.kind {
            UploadEntryKind::Directory { .. } => 0,
            UploadEntryKind::File { size, .. } => *size,
        }
    }
}

impl Ranked for UploadEntry {
    open spec fn precedes(self, other: Self) -> bool {
        text::text_less(self.remote_relative_path@, other.remote_relative_path@)
    }

    proof fn precedence_is_asymmetric(a: Self, b: Self) {
        text::text_order_is_asymmetric(a.remote_relative_path@, b.remote_relative_path@);
    }

    proof fn precedence_is_transitive(a: Self, b: Self, c: Self) {
        text::text_at_most_is_transitive(a.remote_relative_path@, b.remote_relative_path@, c.remote_relative_path@);
    }

    fn comes_first(&self, other: &Self) -> (before: bool) {
        text::comes_before(self.remote_relative_path.as_str(), other.remote_relative_path.as_str())
    }
}

/// The bytes of some entries.
pub open spec fn total_bytes(entries: Seq<UploadEntry>) -> int
    decreases entries.len(),
{
    if entries.len() == 0 {
        0
    } else {
        total_bytes(entries.drop_last()) + entries.last().bytes()
    }
}

proof fn lemma_inserted_bytes(entries: Seq<UploadEntry>, at: int, entry: UploadEntry)
    requires
        0 <= at <= entries.len(),
    ensures
        total_bytes(entries.insert(at, entry)) == total_bytes(entries) + entry.bytes(),
    decreases entries.len(),
{
    let grown = entries.insert(at, entry);
    if at == entries.len() {
        assert(grown.drop_last() == entries);
    } else {
        lemma_inserted_bytes(entries.drop_last(), at, entry);
        assert(grown.drop_last() == entries.drop_last().insert(at, entry));
        assert(grown.last() == entries.last());
    }
}

proof fn lemma_place_is_within(entries: Seq<UploadEntry>, entry: UploadEntry)
    ensures
        0 <= sorting::place(entries, entry) <= entries.len(),
    decreases entries.len(),
{
    if entries.len() > 0 {
        lemma_place_is_within(entries.drop_last(), entry);
    }
}

proof fn lemma_sorting_keeps_bytes(entries: Seq<UploadEntry>)
    ensures
        total_bytes(sorting::stable_sorted(entries)) == total_bytes(entries),
    decreases entries.len(),
{
    if entries.len() > 0 {
        let before = sorting::stable_sorted(entries.drop_last());
        lemma_sorting_keeps_bytes(entries.drop_last());
        lemma_place_is_within(before, entries.last());
        lemma_inserted_bytes(before, sorting::place(before, entries.last()), entries.last());
    }
}

/// The plan of what is copied.
#[derive(Debug)]
pub struct SignedBundleUploadPlan {
    pub entries: Vec<UploadEntry>,
    pub byte_count: u64,
}

impl SignedBundleUploadPlan {
    /// The plan counts its bytes and keeps its bounds.
    pub open spec fn well_formed(self) -> bool {
        &&& self.byte_count == total_bytes(self.entries@)
        &&& bounds_failure(self.entries@.len() as int, self.byte_count as int) is None
    }

    /// A plan without entries.
    pub fn new() -> (plan: Self)
        ensures
            plan.entries@.len() == 0,
            plan.byte_count == 0,
            plan.well_formed(),
    {
        SignedBundleUploadPlan { entries: Vec::new(), byte_count: 0 }
    }

    /// Why there is no room for the content of a file. Its entry is not counted yet.
    pub open spec fn lack_of_room(self, size: int) -> Option<UploadPlanFailure> {
        if self.byte_count + size > u64::MAX {
            Some(UploadPlanFailure::TooManyBytes)
        } else {
            bounds_failure(self.entries@.len() as int, self.byte_count + size)
        }
    }

    /// Refuses a file for whose content there is no room, before it is read.
    pub fn make_room(&self, size: u64) -> (result: Result<(), UploadPlanFailure>)
        ensures
            result == match self.lack_of_room(size as int) {
                Some(failure) => Err::<(), UploadPlanFailure>(failure),
                None => Ok::<(), UploadPlanFailure>(()),
            },
    {
        match self.byte_count.checked_add(size) {
            Some(byte_count) => validate_upload_bounds(self.entries.len(), byte_count),
            None => Err(UploadPlanFailure::TooManyBytes),
        }
    }

    /// Adds an entry. One that does not fit leaves the plan as it was.
    pub fn add_entry(&mut self, entry: UploadEntry) -> (result: Result<(), UploadPlanFailure>)
        requires
            old(self).well_formed(),
        ensures
            final(self).well_formed(),
            match result {
                Ok(()) => {
                    &&& final(self).entries@ == old(self).entries@.push(entry)
                    &&& final(self).byte_count == old(self).byte_count + entry.bytes()
                },
                Err(failure) => {
                    &&& final(self).entries@ == old(self).entries@
                    &&& final(self).byte_count == old(self).byte_count
                },
            },
            result == match old(self).lack_of_room(entry.bytes()) {
                Some(failure) => Err::<(), UploadPlanFailure>(failure),
                None => match bounds_failure(
                    (old(self).entries@.len() + 1) as int,
                    old(self).byte_count + entry.bytes(),
                ) {
                    Some(failure) => Err::<(), UploadPlanFailure>(failure),
                    None => Ok::<(), UploadPlanFailure>(()),
                },
            },
    {
        let size: u64 = entry.size();
        match self.make_room(size) {
            Ok(()) => {},
            Err(failure) => {
                return Err(failure);
            },
        }
        let byte_count: u64 = self.byte_count + size;
        match validate_upload_bounds(self.entries.len() + 1, byte_count) {
            Ok(()) => {},
            Err(failure) => {
                return Err(failure);
            },
        }
        self.entries.push(entry);
        self.byte_count = byte_count;
        proof {
            assert(self.entries@.drop_last() == old(self).entries@);
        }
        Ok(())
    }

    /// The plan with its entries in the order of their paths, so that a directory comes before what
    /// it holds.
    pub fn finish(self) -> (plan: Self)
        requires
            self.well_formed(),
        ensures
            plan.entries@ == sorting::stable_sorted(self.entries@),
            plan.byte_count == self.byte_count,
            plan.entries@.to_multiset() == self.entries@.to_multiset(),
            plan.byte_count == total_bytes(plan.entries@),
            plan.entries@.len() <= RSD_INSTALL_FILE_LIMIT,
            plan.byte_count <= RSD_INSTALL_BYTE_LIMIT,
    {
        proof {
            sorting::sorting_keeps_values(self.entries@);
            lemma_sorting_keeps_bytes(self.entries@);
        }
        SignedBundleUploadPlan {
            entries: sorting::sort(self.entries),
            byte_count: self.byte_count,
        }
    }
}

/// A path comes before every path that it is a proper prefix of, such as a directory's before those
/// of its entries.
pub proof fn directories_come_first(directory: Seq<char>, name: Seq<char>)
    requires
        name.len() > 0,
    ensures
        text::text_less(directory, directory + name),
    decreases directory.len(),
{
    if directory.len() > 0 {
        assert((directory + name).skip(1) == directory.skip(1) + name);
        directories_come_first(directory.skip(1), name);
    }
}

// ---------------------------------------------------------------------------------------------
// Sources that must not change.
// ---------------------------------------------------------------------------------------------

/// What a source is when it is looked at again.
#[derive(Debug, Clone, Copy, PartialEq, Eq, Structural)]
pub struct SourceFacts {
    pub kind: PathKind,
    pub place: Place,
    pub size: u64,
    pub identity: Option<FileIdentity>,
}

/// The directory is still the one that was planned.
pub fn is_planned_directory(facts: SourceFacts, identity: FileIdentity) -> (same: bool)
    ensures
        same == (facts.kind == PathKind::Directory && facts.place == Place::Inside
            && facts.identity == Some(identity)),
{
    let known: bool = match facts.identity {
        Some(found) => found == identity,
        None => false,
    };
    facts.kind == PathKind::Directory && facts.place == Place::Inside && known
}

/// A file is still the one that was planned.
pub open spec fn is_unchanged(facts: SourceFacts, size: u64, identity: FileIdentity) -> bool {
    &&& facts.kind == PathKind::File
    &&& facts.place == Place::Inside
    &&& facts.size == size
    &&& facts.identity == Some(identity)
}

/// A file is still the one that was planned.
pub fn is_planned_file(facts: SourceFacts, size: u64, identity: FileIdentity) -> (same: bool)
    ensures
        same == is_unchanged(facts, size, identity),
{
    let known: bool = match facts.identity {
        Some(found) => found == identity,
        None => false,
    };
    facts.kind == PathKind::File && facts.place == Place::Inside && facts.size == size && known
}

/// Why the content of a file was not copied.
#[derive(Debug, Clone, Copy, PartialEq, Eq, Structural)]
pub enum TransferFault {
    /// The source could not be read.
    Unreadable,
    /// The source is not what was planned.
    Changed,
    /// The device did not take it.
    Unwritten,
}

/// The copy of a file: what was read of it so far.
pub struct FileTransfer {
    pub size: u64,
    pub written: u64,
    pub digest: RunningDigest,
}

impl FileTransfer {
    /// The bytes that were read are counted, and no more than were planned.
    pub open spec fn well_formed(self) -> bool {
        self.written == digest::absorbed(self.digest).len() && self.written <= self.size
    }

    /// A copy of which nothing was read.
    pub fn new(size: u64) -> (transfer: FileTransfer)
        ensures
            transfer.size == size,
            digest::absorbed(transfer.digest) == Seq::<u8>::empty(),
            transfer.well_formed(),
    {
        FileTransfer { size, written: 0, digest: RunningDigest::new() }
    }

    /// Counts a piece that was read; refused where the file has grown since it was planned.
    pub fn receive(&mut self, piece: &[u8]) -> (result: Result<(), TransferFault>)
        requires
            old(self).well_formed(),
        ensures
            final(self).well_formed(),
            final(self).size == old(self).size,
            match result {
                Ok(()) => digest::absorbed(final(self).digest) == digest::absorbed(
                    old(self).digest,
                ) + piece@,
                Err(error) => {
                    &&& error == TransferFault::Changed
                    &&& old(self).written + piece@.len() > old(self).size
                    &&& final(self).digest == old(self).digest
                },
            },
    {
        if piece.len() as u64 > self.size - self.written {
            return Err(TransferFault::Changed);
        }
        self.digest.update(piece);
        self.written = self.written + piece.len() as u64;
        Ok(())
    }

    /// Whether the whole file was copied as it was planned: with its size, unchanged to the end, and
    /// with its digest.
    pub fn finish(
        self,
        facts: SourceFacts,
        identity: FileIdentity,
        planned: &Vec<u8>,
    ) -> (result: Result<(), TransferFault>)
        requires
            self.well_formed(),
        ensures
            result == if self.written == self.size && facts.size == self.size && facts.identity
                == Some(identity) && digest::sha256_of(digest::absorbed(self.digest)) == planned@ {
                Ok::<(), TransferFault>(())
            } else {
                Err::<(), TransferFault>(TransferFault::Changed)
            },
    {
        let known: bool = match facts.identity {
            Some(found) => found == identity,
            None => false,
        };
        let complete: bool = self.written == self.size && facts.size == self.size;
        let actual: Vec<u8> = self.digest.finalize();
        if complete && known && digest::same_bytes(&actual, planned) {
            Ok(())
        } else {
            Err(TransferFault::Changed)
        }
    }
}

// ---------------------------------------------------------------------------------------------
// Planning.
// ---------------------------------------------------------------------------------------------

/// There is no time left to plan.
pub open spec fn is_late(deadline: Option<u64>, now: u64) -> bool {
    deadline is Some && now >= deadline->0
}

/// The digest of a file that is planned: what was read of it so far.
pub struct FileHash {
    pub deadline: Option<u64>,
    pub size: u64,
    pub identity: FileIdentity,
    pub digest: RunningDigest,
}

impl FileHash {
    /// Begins to read a file, which has to be the one that was seen. `facts` is nothing where it
    /// could not be opened.
    pub fn begin(
        deadline: Option<u64>,
        now: u64,
        facts: Option<SourceFacts>,
        size: u64,
        identity: FileIdentity,
    ) -> (hash: Result<FileHash, UploadPlanFailure>)
        ensures
            match hash {
                Ok(hash) => {
                    &&& !is_late(deadline, now)
                    &&& facts is Some && is_unchanged(facts->0, size, identity)
                    &&& hash.deadline == deadline
                    &&& hash.size == size
                    &&& hash.identity == identity
                    &&& digest::absorbed(hash.digest) == Seq::<u8>::empty()
                },
                Err(failure) => if is_late(deadline, now) {
                    failure == UploadPlanFailure::Timeout
                } else {
                    &&& failure == UploadPlanFailure::LocalIo
                    &&& facts is None || !is_unchanged(facts->0, size, identity)
                },
            },
    {
        match ensure_plan_deadline(deadline, now) {
            Ok(()) => {},
            Err(failure) => {
                return Err(failure);
            },
        }
        match facts {
            Some(facts) => if is_planned_file(facts, size, identity) {
                Ok(FileHash { deadline, size, identity, digest: RunningDigest::new() })
            } else {
                Err(UploadPlanFailure::LocalIo)
            },
            None => Err(UploadPlanFailure::LocalIo),
        }
    }

    /// Takes in a piece that was read, where it could be read. `now` is the time before that.
    pub fn receive(&mut self, now: u64, piece: Option<&[u8]>) -> (result: Result<
        (),
        UploadPlanFailure,
    >)
        ensures
            final(self).deadline == old(self).deadline,
            final(self).size == old(self).size,
            final(self).identity == old(self).identity,
            result == if is_late(old(self).deadline, now) {
                Err::<(), UploadPlanFailure>(UploadPlanFailure::Timeout)
            } else if piece is None {
                Err::<(), UploadPlanFailure>(UploadPlanFailure::LocalIo)
            } else {
                Ok::<(), UploadPlanFailure>(())
            },
            match result {
                Ok(()) => digest::absorbed(final(self).digest) == digest::absorbed(
                    old(self).digest,
                ) + piece->0@,
                Err(_) => final(self).digest == old(self).digest,
            },
    {
        match ensure_plan_deadline(self.deadline, now) {
            Ok(()) => {},
            Err(failure) => {
                return Err(failure);
            },
        }
        match piece {
            Some(piece) => {
                self.digest.update(piece);
                Ok(())
            },
            None => Err(UploadPlanFailure::LocalIo),
        }
    }

    /// The digest of all that was read, where the file is still the one that was seen.
    pub fn finish(self, now: u64, facts: Option<SourceFacts>) -> (digest: Result<
        Vec<u8>,
        UploadPlanFailure,
    >)
        ensures
            match digest {
                Ok(digest) => {
                    &&& !is_late(self.deadline, now)
                    &&& facts is Some && facts->0.size == self.size && facts->0.identity == Some(
                        self.identity,
                    )
                    &&& digest@ == digest::sha256_of(digest::absorbed(self.digest))
                },
                Err(failure) => if is_late(self.deadline, now) {
                    failure == UploadPlanFailure::Timeout
                } else {
                    &&& failure == UploadPlanFailure::LocalIo
                    &&& facts is None || facts->0.size != self.size || facts->0.identity != Some(
                        self.identity,
                    )
                },
            },
    {
        match ensure_plan_deadline(self.deadline, now) {
            Ok(()) => {},
            Err(failure) => {
                return Err(failure);
            },
        }
        let facts: SourceFacts = match facts {
            Some(facts) => facts,
            None => {
                return Err(UploadPlanFailure::LocalIo);
            },
        };
        let known: bool = match facts.identity {
            Some(found) => found == self.identity,
            None => false,
        };
        if facts.size == self.size && known {
            Ok(self.digest.finalize())
        } else {
            Err(UploadPlanFailure::LocalIo)
        }
    }
}

/// The steps by which a copy is planned.
#[derive(Debug, Clone, Copy, PartialEq, Eq, Structural)]
pub enum PlanStep {
    /// The app is looked at.
    Root,
    /// Only the server may enter the app.
    RestrictRoot,
    /// The real path of the app is found out.
    ResolveRoot,
    /// The next directory that waits is looked at.
    Directory,
    /// Only the server may enter the directory.
    RestrictDirectory,
    /// The real path of the directory is found out.
    PlaceDirectory,
    /// The entries of the directory are listed.
    List,
    /// The next entry of the directory is examined.
    Child,
    /// Only the server may enter the directory that is the entry.
    RestrictFolder,
    /// Only the server may read the file that is the entry.
    RestrictFile,
    /// There is room for the file.
    Room,
    /// The digest of the file is computed.
    Hash,
    /// The entry is planned; a directory waits from then on.
    Add,
}

/// What happens at a step of the planning.
#[derive(Debug, Clone, Copy, PartialEq, Eq, Structural)]
pub enum PlanEvent {
    Done,
    /// The entry is a directory, or else a file.
    Seen { directory: bool },
    /// The directory has no more entries.
    Exhausted,
    Failed(UploadPlanFailure),
}

/// What comes after a step of the planning.
#[derive(Debug, Clone, Copy, PartialEq, Eq, Structural)]
pub enum PlanTurn {
    Next(PlanStep),
    Refuse(UploadPlanFailure),
    Planned,
}

impl PlanStep {
    /// The time is looked at before the step, even before a failure of the step counts.
    pub open spec fn is_timed(self) -> bool {
        self is Root || self is Directory || self is Child
    }

    /// What comes after the step where it did what it is for.
    pub open spec fn onward(self) -> PlanStep {
        match self {
            PlanStep::Root => PlanStep::RestrictRoot,
            PlanStep::RestrictRoot => PlanStep::ResolveRoot,
            PlanStep::ResolveRoot => PlanStep::Directory,
            PlanStep::Directory => PlanStep::RestrictDirectory,
            PlanStep::RestrictDirectory => PlanStep::PlaceDirectory,
            PlanStep::PlaceDirectory => PlanStep::List,
            PlanStep::List => PlanStep::Child,
            PlanStep::Child => PlanStep::Child,
            PlanStep::RestrictFolder => PlanStep::Add,
            PlanStep::RestrictFile => PlanStep::Room,
            PlanStep::Room => PlanStep::Hash,
            PlanStep::Hash => PlanStep::Add,
            PlanStep::Add => PlanStep::Child,
        }
    }

    /// What comes after the step. `waiting` is the number of directories that wait, and `late` says
    /// that there was no time left before the step. Behind the last entry the time is looked at once
    /// more. An event that is not awaited changes nothing.
    pub open spec fn turn(self, waiting: usize, late: bool, event: PlanEvent) -> PlanTurn {
        match event {
            PlanEvent::Failed(failure) => PlanTurn::Refuse(
                if late && self.is_timed() {
                    UploadPlanFailure::Timeout
                } else {
                    failure
                },
            ),
            PlanEvent::Exhausted => if self is Child {
                if waiting > 0 {
                    PlanTurn::Next(PlanStep::Directory)
                } else if late {
                    PlanTurn::Refuse(UploadPlanFailure::Timeout)
                } else {
                    PlanTurn::Planned
                }
            } else {
                PlanTurn::Next(self)
            },
            PlanEvent::Seen { directory } => if self is Child {
                if late {
                    PlanTurn::Refuse(UploadPlanFailure::Timeout)
                } else if directory {
                    PlanTurn::Next(PlanStep::RestrictFolder)
                } else {
                    PlanTurn::Next(PlanStep::RestrictFile)
                }
            } else {
                PlanTurn::Next(self)
            },
            PlanEvent::Done => if self is Child {
                PlanTurn::Next(self)
            } else if late && self.is_timed() {
                PlanTurn::Refuse(UploadPlanFailure::Timeout)
            } else {
                PlanTurn::Next(self.onward())
            },
        }
    }

    /// What comes after the step.
    pub fn advance(self, waiting: usize, late: bool, event: PlanEvent) -> (turn: PlanTurn)
        ensures
            turn == self.turn(waiting, late, event),
    {
        let timed: bool = match self {
            PlanStep::Root | PlanStep::Directory | PlanStep::Child => true,
            _ => false,
        };
        match (self, event) {
            (_, PlanEvent::Failed(failure)) => if late && timed {
                PlanTurn::Refuse(UploadPlanFailure::Timeout)
            } else {
                PlanTurn::Refuse(failure)
            },
            (PlanStep::Child, PlanEvent::Exhausted) => if waiting > 0 {
                PlanTurn::Next(PlanStep::Directory)
            } else if late {
                PlanTurn::Refuse(UploadPlanFailure::Timeout)
            } else {
                PlanTurn::Planned
            },
            (PlanStep::Child, PlanEvent::Seen { directory }) => if late {
                PlanTurn::Refuse(UploadPlanFailure::Timeout)
            } else if directory {
                PlanTurn::Next(PlanStep::RestrictFolder)
            } else {
                PlanTurn::Next(PlanStep::RestrictFile)
            },
            (PlanStep::Child, PlanEvent::Done)
            | (_, PlanEvent::Exhausted)
            | (_, PlanEvent::Seen { .. }) => PlanTurn::Next(self),
            (_, PlanEvent::Done) => if late && timed {
                PlanTurn::Refuse(UploadPlanFailure::Timeout)
            } else {
                PlanTurn::Next(
                    match self {
                        PlanStep::Root => PlanStep::RestrictRoot,
                        PlanStep::RestrictRoot => PlanStep::ResolveRoot,
                        PlanStep::ResolveRoot => PlanStep::Directory,
                        PlanStep::Directory => PlanStep::RestrictDirectory,
                        PlanStep::RestrictDirectory => PlanStep::PlaceDirectory,
                        PlanStep::PlaceDirectory => PlanStep::List,
                        PlanStep::List => PlanStep::Child,
                        PlanStep::Child => PlanStep::Child,
                        PlanStep::RestrictFolder => PlanStep::Add,
                        PlanStep::RestrictFile => PlanStep::Room,
                        PlanStep::Room => PlanStep::Hash,
                        PlanStep::Hash => PlanStep::Add,
                        PlanStep::Add => PlanStep::Child,
                    },
                )
            },
        }
    }
}

/// An entry is planned only once nobody else can change it, and a file only where there was room for
/// it and its digest was computed; the entries of a directory are looked at only once it was found
/// inside the app; and a plan is made only in time, when no directory waits.
pub proof fn plans_are_made_in_order(step: PlanStep, waiting: usize, late: bool, event: PlanEvent)
    ensures
        ({
            let turn = step.turn(waiting, late, event);
            &&& turn == PlanTurn::Next(PlanStep::Add) && !(step is Add) ==> event is Done && (
            step is RestrictFolder || step is Hash)
            &&& turn == PlanTurn::Next(PlanStep::Hash) && !(step is Hash) ==> event is Done
                && step is Room
            &&& turn == PlanTurn::Next(PlanStep::Room) && !(step is Room) ==> event is Done
                && step is RestrictFile
            &&& turn == PlanTurn::Next(PlanStep::List) && !(step is List) ==> event is Done
                && step is PlaceDirectory
            &&& turn is Planned ==> step is Child && event is Exhausted && waiting == 0 && !late
        }),
{
}

// ---------------------------------------------------------------------------------------------
// The task's directory on the device.
// ---------------------------------------------------------------------------------------------

pub const PUBLIC_STAGING: &'static str = "PublicStaging";

pub const TASK_PREFIX: &'static str = "PublicStaging/iphoneloadly-spike-";

/// The task's directory on the device, and the app's place in it.
#[derive(Debug)]
pub struct TaskStagingPath {
    pub root: String,
    pub app: String,
}

/// The directory of a task.
pub open spec fn is_task_root(root: Seq<char>, task: RecordId) -> bool {
    &&& text::begins_with(root, TASK_PREFIX@)
    &&& record::uuid_bits(root.skip(TASK_PREFIX@.len() as int)) == Some(task.bits)
}

impl TaskStagingPath {
    /// The directory of a task.
    pub fn new(task: RecordId) -> (path: TaskStagingPath)
        ensures
            path.root@ == TASK_PREFIX@ + record::uuid_text(task.bits),
            path.app@ == path.root@ + "/Signed.app"@,
            is_task_root(path.root@, task),
            path.is_exact(path.root@),
    {
        let mut root: String = TASK_PREFIX.to_owned();
        let id: String = task.text();
        root.append(id.as_str());
        proof {
            assert(root@.subrange(0, TASK_PREFIX@.len() as int) == TASK_PREFIX@);
            assert(root@.skip(TASK_PREFIX@.len() as int) == id@);
        }
        let mut app: String = root.clone();
        app.append("/Signed.app");
        TaskStagingPath { root, app }
    }

    /// The candidate is the task's directory, and names a task.
    pub open spec fn is_exact(self, candidate: Seq<char>) -> bool {
        &&& candidate == self.root@
        &&& text::begins_with(candidate, TASK_PREFIX@)
        &&& record::uuid_bits(candidate.skip(TASK_PREFIX@.len() as int)) is Some
    }

    /// Whether a candidate is the task's directory: nothing else may be removed.
    pub fn is_exact_task_root(&self, candidate: &str) -> (result: bool)
        ensures
            result == self.is_exact(candidate@),
    {
        if !text::same_text(candidate, self.root.as_str()) {
            return false;
        }
        match text::strip_prefix(candidate, TASK_PREFIX) {
            Some(suffix) => match RecordId::parse(suffix) {
                Some(_) => true,
                None => false,
            },
            None => false,
        }
    }

    /// The place of an entry on the device.
    pub fn entry_path(&self, entry: &UploadEntry) -> (path: String)
        ensures
            path@ == self.app@ + "/"@ + entry.remote_relative_path@,
    {
        let mut path: String = self.app.clone();
        path.append("/");
        path.append(entry.remote_relative_path.as_str());
        path
    }
}

/// Different tasks have different directories.
pub proof fn tasks_have_their_own_directories(
    first: Seq<char>,
    second: Seq<char>,
    one: RecordId,
    other: RecordId,
)
    requires
        is_task_root(first, one),
        is_task_root(second, other),
        one != other,
    ensures
        first != second,
{
}

/// What is done with the task's directory in the end.
#[derive(Debug, Clone, Copy, PartialEq, Eq, Structural)]
pub enum StagingRemoval {
    /// It was never created, or must not be removed: this is the outcome.
    Settled(RsdStagingCleanup),
    /// It is to be removed with all that it holds.
    Remove,
}

/// What is done with the task's directory in the end.
pub fn staging_removal(staging: &TaskStagingPath, root_created: bool) -> (removal: StagingRemoval)
    ensures
        removal == if !root_created {
            StagingRemoval::Settled(RsdStagingCleanup::NotNeeded)
        } else if !staging.is_exact(staging.root@) {
            StagingRemoval::Settled(RsdStagingCleanup::Failed)
        } else {
            StagingRemoval::Remove
        },
{
    if !root_created {
        StagingRemoval::Settled(RsdStagingCleanup::NotNeeded)
    } else if !staging.is_exact_task_root(staging.root.as_str()) {
        StagingRemoval::Settled(RsdStagingCleanup::Failed)
    } else {
        StagingRemoval::Remove
    }
}

/// How a removal has ended.
#[derive(Debug, Clone, Copy, PartialEq, Eq, Structural)]
pub enum RemovalOutcome {
    /// The file service could not be used.
    Unavailable,
    Removed,
    Faulted(DeviceFault),
    TimedOut,
}

/// The outcome of a removal: what is not there does not have to be removed.
pub open spec fn removal_result(outcome: RemovalOutcome) -> RsdStagingCleanup {
    match outcome {
        RemovalOutcome::Removed => RsdStagingCleanup::Succeeded,
        RemovalOutcome::Faulted(DeviceFault::ObjectNotFound) => RsdStagingCleanup::Succeeded,
        _ => RsdStagingCleanup::Failed,
    }
}

/// The outcome of a removal.
pub fn removal_cleanup(outcome: RemovalOutcome) -> (cleanup: RsdStagingCleanup)
    ensures
        cleanup == removal_result(outcome),
{
    match outcome {
        RemovalOutcome::Removed => RsdStagingCleanup::Succeeded,
        RemovalOutcome::Faulted(DeviceFault::ObjectNotFound) => RsdStagingCleanup::Succeeded,
        _ => RsdStagingCleanup::Failed,
    }
}

// ---------------------------------------------------------------------------------------------
// The steps of the copy.
// ---------------------------------------------------------------------------------------------

/// The steps of the copy. Those from `Source` on are taken for each entry.
#[derive(Debug, Clone, Copy, PartialEq, Eq, Structural)]
pub enum StageStep {
    /// The public staging directory is asked for.
    Query,
    /// The task's directory does not exist.
    Absent,
    /// The task's directory is created.
    CreateRoot,
    /// The app's directory is created.
    CreateApp,
    /// The next entry is still what was planned.
    Source,
    /// A directory is created.
    MakeDirectory,
    /// A file is opened on the device.
    OpenFile,
    /// Its content is copied.
    Transfer,
    /// It is closed on the device.
    CloseFile,
}

/// How a step has ended.
#[derive(Debug, Clone, Copy, PartialEq, Eq, Structural)]
pub enum StageOutcome {
    /// It succeeded; of a question, the answer is the wanted one.
    Done,
    /// Of a question, the answer is another one.
    Unwanted,
    /// It failed.
    Failed,
    /// The content could not be copied.
    Broken(TransferFault),
}

/// Why a copy failed.
#[derive(Debug, Clone, Copy, PartialEq, Eq, Structural)]
pub enum CopyFailure {
    /// A step failed.
    Step(StageStep),
    /// A question had another answer than the wanted one.
    Unwanted(StageStep),
    /// The content of a file was not copied.
    Transfer(TransferFault),
    /// The file service is not there.
    Unavailable,
    /// The time ran out.
    TimedOut,
}

/// Where a copy stands: at a step, for one of the entries by its position, with the error of a
/// content that could not be copied while its file is still open.
#[derive(Debug, Clone, Copy, PartialEq, Eq)]
pub struct StageState {
    pub step: StageStep,
    pub entry: usize,
    pub broken: Option<CopyFailure>,
}

/// What comes after a step.
#[derive(Debug, Clone, Copy, PartialEq, Eq)]
pub enum StageTurn {
    /// The copy goes on.
    Next(StageState),
    /// Every entry is on the device.
    Staged,
    /// The copy failed.
    Failed(CopyFailure),
}

impl CopyFailure {
    /// The kind of the error.
    pub open spec fn text(self) -> &'static str {
        match self {
            CopyFailure::Step(step) => step.failure_kind(),
            CopyFailure::Unwanted(step) => step.unwanted_kind(),
            CopyFailure::Transfer(TransferFault::Unreadable) => "source_read",
            CopyFailure::Transfer(TransferFault::Changed) => "source_changed",
            CopyFailure::Transfer(TransferFault::Unwritten) => "staging_file_write",
            CopyFailure::Unavailable => "afc_service",
            CopyFailure::TimedOut => "timeout",
        }
    }

    /// The kind of the error.
    pub fn kind(self) -> (kind: &'static str)
        ensures
            kind == self.text(),
    {
        match self {
            CopyFailure::Step(step) => step.error_kind(),
            CopyFailure::Unwanted(step) => match step {
                StageStep::Query => "public_staging_invalid",
                StageStep::Absent => "staging_root_exists",
                _ => step.error_kind(),
            },
            CopyFailure::Transfer(TransferFault::Unreadable) => "source_read",
            CopyFailure::Transfer(TransferFault::Changed) => "source_changed",
            CopyFailure::Transfer(TransferFault::Unwritten) => "staging_file_write",
            CopyFailure::Unavailable => "afc_service",
            CopyFailure::TimedOut => "timeout",
        }
    }
}

/// Every failure of a copy has a kind.
pub proof fn copy_failures_are_named(failure: CopyFailure)
    ensures
        failure.text()@.len() > 0,
{
    reveal_strlit("public_staging_query");
    reveal_strlit("public_staging_invalid");
    reveal_strlit("staging_precheck");
    reveal_strlit("staging_root_exists");
    reveal_strlit("staging_root_create");
    reveal_strlit("staging_app_create");
    reveal_strlit("source_changed");
    reveal_strlit("source_read");
    reveal_strlit("staging_directory_create");
    reveal_strlit("staging_file_open");
    reveal_strlit("staging_file_write");
    reveal_strlit("staging_file_close");
    reveal_strlit("afc_service");
    reveal_strlit("timeout");
}

impl StageStep {
    /// The kind of the error where the step fails.
    pub open spec fn failure_kind(self) -> &'static str {
        match self {
            StageStep::Query => "public_staging_query",
            StageStep::Absent => "staging_precheck",
            StageStep::CreateRoot => "staging_root_create",
            StageStep::CreateApp => "staging_app_create",
            StageStep::Source => "source_changed",
            StageStep::MakeDirectory => "staging_directory_create",
            StageStep::OpenFile => "staging_file_open",
            StageStep::Transfer => "source_read",
            StageStep::CloseFile => "staging_file_close",
        }
    }

    fn error_kind(self) -> (kind: &'static str)
        ensures
            kind == self.failure_kind(),
    {
        match self {
            StageStep::Query => "public_staging_query",
            StageStep::Absent => "staging_precheck",
            StageStep::CreateRoot => "staging_root_create",
            StageStep::CreateApp => "staging_app_create",
            StageStep::Source => "source_changed",
            StageStep::MakeDirectory => "staging_directory_create",
            StageStep::OpenFile => "staging_file_open",
            StageStep::Transfer => "source_read",
            StageStep::CloseFile => "staging_file_close",
        }
    }

    /// The kind of the error where a question has another answer than the wanted one.
    pub open spec fn unwanted_kind(self) -> &'static str {
        match self {
            StageStep::Query => "public_staging_invalid",
            StageStep::Absent => "staging_root_exists",
            _ => self.failure_kind(),
        }
    }

    /// Whether the task's directory may exist when the step is taken.
    pub open spec fn may_have_created(self) -> bool {
        self != StageStep::Query && self != StageStep::Absent
    }

    /// Whether the task's directory may exist when the step is taken, so that it has to be removed.
    pub fn root_created(self) -> (created: bool)
        ensures
            created == self.may_have_created(),
    {
        match self {
            StageStep::Query | StageStep::Absent => false,
            _ => true,
        }
    }
}

/// The copy of the entry at a position begins, or all is copied.
pub open spec fn entry_turn(entries: Seq<UploadEntry>, entry: int) -> StageTurn {
    if entry < entries.len() {
        StageTurn::Next(
            StageState { step: StageStep::Source, entry: entry as usize, broken: None },
        )
    } else {
        StageTurn::Staged
    }
}

fn begin_entry(entries: &Vec<UploadEntry>, entry: usize) -> (turn: StageTurn)
    ensures
        turn == entry_turn(entries@, entry as int),
{
    if entry < entries.len() {
        StageTurn::Next(StageState { step: StageStep::Source, entry, broken: None })
    } else {
        StageTurn::Staged
    }
}

fn begin_entry_behind(entries: &Vec<UploadEntry>, entry: usize) -> (turn: StageTurn)
    ensures
        turn == entry_turn(entries@, entry + 1),
{
    if entry < entries.len() {
        begin_entry(entries, entry + 1)
    } else {
        StageTurn::Staged
    }
}

impl StageState {
    /// The beginning of a copy.
    pub open spec fn first() -> StageState {
        StageState { step: StageStep::Query, entry: 0, broken: None }
    }

    /// The beginning of a copy.
    pub fn begin() -> (state: StageState)
        ensures
            state == StageState::first(),
    {
        StageState { step: StageStep::Query, entry: 0, broken: None }
    }

    /// The step behind the one that succeeded.
    pub open spec fn following(self, entries: Seq<UploadEntry>) -> StageTurn {
        match self.step {
            StageStep::Query => StageTurn::Next(StageState { step: StageStep::Absent, ..self }),
            StageStep::Absent => StageTurn::Next(
                StageState { step: StageStep::CreateRoot, ..self },
            ),
            StageStep::CreateRoot => StageTurn::Next(
                StageState { step: StageStep::CreateApp, ..self },
            ),
            StageStep::CreateApp => entry_turn(entries, 0),
            StageStep::Source => if self.entry < entries.len() && entries[self.entry as int].kind
                is Directory {
                StageTurn::Next(StageState { step: StageStep::MakeDirectory, ..self })
            } else {
                StageTurn::Next(StageState { step: StageStep::OpenFile, ..self })
            },
            StageStep::MakeDirectory => entry_turn(entries, self.entry + 1),
            StageStep::OpenFile => StageTurn::Next(
                StageState { step: StageStep::Transfer, ..self },
            ),
            StageStep::Transfer => StageTurn::Next(
                StageState { step: StageStep::CloseFile, ..self },
            ),
            StageStep::CloseFile => match self.broken {
                Some(failure) => StageTurn::Failed(failure),
                None => entry_turn(entries, self.entry + 1),
            },
        }
    }

    /// What comes after the step. A file whose content could not be copied is closed nevertheless,
    /// and its error comes before that of closing it.
    pub open spec fn turn(self, entries: Seq<UploadEntry>, outcome: StageOutcome) -> StageTurn {
        match outcome {
            StageOutcome::Done => self.following(entries),
            _ => {
                let failure = match outcome {
                    StageOutcome::Unwanted => CopyFailure::Unwanted(self.step),
                    StageOutcome::Broken(fault) => CopyFailure::Transfer(fault),
                    _ => CopyFailure::Step(self.step),
                };
                match (self.step, self.broken) {
                    (StageStep::Transfer, _) => StageTurn::Next(
                        StageState { step: StageStep::CloseFile, broken: Some(failure), ..self },
                    ),
                    (StageStep::CloseFile, Some(failure)) => StageTurn::Failed(failure),
                    _ => StageTurn::Failed(failure),
                }
            },
        }
    }

    /// What comes after the step.
    pub fn advance(self, entries: &Vec<UploadEntry>, outcome: StageOutcome) -> (turn: StageTurn)
        ensures
            turn == self.turn(entries@, outcome),
    {
        let entry: usize = self.entry;
        let broken: Option<CopyFailure> = self.broken;
        let failure: CopyFailure = match outcome {
            StageOutcome::Done => {
                return match self.step {
                    StageStep::Query => StageTurn::Next(
                        StageState { step: StageStep::Absent, entry, broken },
                    ),
                    StageStep::Absent => StageTurn::Next(
                        StageState { step: StageStep::CreateRoot, entry, broken },
                    ),
                    StageStep::CreateRoot => StageTurn::Next(
                        StageState { step: StageStep::CreateApp, entry, broken },
                    ),
                    StageStep::CreateApp => begin_entry(entries, 0),
                    StageStep::Source => {
                        let directory: bool = entry < entries.len() && match &entries[entry].kind {
                            UploadEntryKind::Directory { .. } => true,
                            _ => false,
                        };
                        if directory {
                            StageTurn::Next(
                                StageState { step: StageStep::MakeDirectory, entry, broken },
                            )
                        } else {
                            StageTurn::Next(StageState { step: StageStep::OpenFile, entry, broken })
                        }
                    },
                    StageStep::MakeDirectory => begin_entry_behind(entries, entry),
                    StageStep::OpenFile => StageTurn::Next(
                        StageState { step: StageStep::Transfer, entry, broken },
                    ),
                    StageStep::Transfer => StageTurn::Next(
                        StageState { step: StageStep::CloseFile, entry, broken },
                    ),
                    StageStep::CloseFile => match broken {
                        Some(failure) => StageTurn::Failed(failure),
                        None => begin_entry_behind(entries, entry),
                    },
                };
            },
            StageOutcome::Unwanted => CopyFailure::Unwanted(self.step),
            StageOutcome::Broken(fault) => CopyFailure::Transfer(fault),
            StageOutcome::Failed => CopyFailure::Step(self.step),
        };
        match self.step {
            StageStep::Transfer => StageTurn::Next(
                StageState { step: StageStep::CloseFile, entry, broken: Some(failure) },
            ),
            StageStep::CloseFile => match broken {
                Some(earlier) => StageTurn::Failed(earlier),
                None => StageTurn::Failed(failure),
            },
            _ => StageTurn::Failed(failure),
        }
    }
}

/// Where a copy stands after some steps.
pub open spec fn copy_after(entries: Seq<UploadEntry>, outcomes: Seq<StageOutcome>) -> StageTurn
    decreases outcomes.len(),
{
    if outcomes.len() == 0 {
        StageTurn::Next(StageState::first())
    } else {
        match copy_after(entries, outcomes.drop_last()) {
            StageTurn::Next(state) => state.turn(entries, outcomes.last()),
            turn => turn,
        }
    }
}

/// A state that a copy can be in.
pub open spec fn is_copying(entries: Seq<UploadEntry>, state: StageState) -> bool {
    &&& state.step is MakeDirectory || state.step is OpenFile || state.step is Transfer
        || state.step is CloseFile || state.step is Source ==> state.entry < entries.len()
    &&& state.step is MakeDirectory ==> entries[state.entry as int].kind is Directory
    &&& state.step is OpenFile || state.step is Transfer || state.step is CloseFile
        ==> entries[state.entry as int].kind is File
    &&& state.broken is Some ==> state.step is CloseFile
}

/// Every state of a copy is one that it can be in: a directory is created for each directory of the
/// plan, a file is opened for each of its files, and an error is only kept while a file is open.
pub proof fn copies_follow_the_plan(entries: Seq<UploadEntry>, outcomes: Seq<StageOutcome>)
    requires
        entries.len() <= usize::MAX,
    ensures
        copy_after(entries, outcomes) matches StageTurn::Next(state) ==> is_copying(entries, state),
    decreases outcomes.len(),
{
    if outcomes.len() > 0 {
        copies_follow_the_plan(entries, outcomes.drop_last());
    }
}

/// The steps that the copy of some entries takes: two for a directory, four for a file.
pub open spec fn steps_of(entries: Seq<UploadEntry>) -> int
    decreases entries.len(),
{
    if entries.len() == 0 {
        0
    } else {
        steps_of(entries.drop_last()) + if entries.last().kind is Directory {
            2int
        } else {
            4int
        }
    }
}

/// The steps that lie before a state.
pub open spec fn steps_before(entries: Seq<UploadEntry>, state: StageState) -> int {
    match state.step {
        StageStep::Query => 0,
        StageStep::Absent => 1,
        StageStep::CreateRoot => 2,
        StageStep::CreateApp => 3,
        StageStep::Source => 4 + steps_of(entries.take(state.entry as int)),
        StageStep::MakeDirectory => 5 + steps_of(entries.take(state.entry as int)),
        StageStep::OpenFile => 5 + steps_of(entries.take(state.entry as int)),
        StageStep::Transfer => 6 + steps_of(entries.take(state.entry as int)),
        StageStep::CloseFile => 7 + steps_of(entries.take(state.entry as int)),
    }
}

/// The first steps succeeded, as many as given.
pub open spec fn all_done(outcomes: Seq<StageOutcome>, count: int) -> bool {
    &&& 0 <= count <= outcomes.len()
    &&& forall|i: int| 0 <= i < count ==> (#[trigger] outcomes[i]) is Done
}

/// An app is on the device only where every step succeeded that its copy takes: the task's
/// directory was created, every directory was created, and every file was opened, copied and
/// closed.
pub proof fn staged_apps_are_complete(entries: Seq<UploadEntry>, outcomes: Seq<StageOutcome>)
    requires
        entries.len() <= usize::MAX,
    ensures
        copy_after(entries, outcomes) matches StageTurn::Next(state) ==> (state.broken is None
            ==> steps_before(entries, state) == outcomes.len() && all_done(
            outcomes,
            outcomes.len() as int,
        )),
        copy_after(entries, outcomes) is Staged ==> all_done(outcomes, 4 + steps_of(entries)),
    decreases outcomes.len(),
{
    if outcomes.len() > 0 {
        let before = outcomes.drop_last();
        staged_apps_are_complete(entries, before);
        copies_follow_the_plan(entries, before);
        assert forall|i: int| 0 <= i < before.len() && before[i] is Done implies (
        #[trigger] outcomes[i]) is Done by {}
        assert(entries.take(0) == Seq::<UploadEntry>::empty());
        assert(entries.take(entries.len() as int) == entries);
        if let StageTurn::Next(state) = copy_after(entries, before) {
            if state.entry < entries.len() {
                let more = entries.take(state.entry + 1);
                assert(more.drop_last() == entries.take(state.entry as int));
                assert(more.last() == entries[state.entry as int]);
            }
        } else if copy_after(entries, before) is Staged {
            assert forall|i: int| 0 <= i < 4 + steps_of(entries) implies (#[trigger] outcomes[i])
                is Done by {
                assert(before[i] is Done);
            }
        }
    }
}

/// More entries never take fewer steps.
proof fn lemma_steps_grow(entries: Seq<UploadEntry>, count: int)
    requires
        0 <= count <= entries.len(),
    ensures
        0 <= steps_of(entries.take(count)) <= steps_of(entries),
    decreases entries.len() - count, entries.len(),
{
    if count == entries.len() {
        assert(entries.take(count) == entries);
        if entries.len() > 0 {
            let rest = entries.drop_last();
            lemma_steps_grow(rest, rest.len() as int);
            assert(rest.take(rest.len() as int) == rest);
        }
    } else {
        lemma_steps_grow(entries, count + 1);
        let more = entries.take(count + 1);
        assert(more.drop_last() == entries.take(count));
        lemma_steps_of_any(entries.take(count));
    }
}

proof fn lemma_steps_of_any(entries: Seq<UploadEntry>)
    ensures
        steps_of(entries) >= 0,
    decreases entries.len(),
{
    if entries.len() > 0 {
        lemma_steps_of_any(entries.drop_last());
    }
}

/// An app whose steps all succeed is on the device after four steps and two for each directory and
/// four for each file, and no sooner.
pub proof fn complete_copies_are_staged(entries: Seq<UploadEntry>, outcomes: Seq<StageOutcome>)
    requires
        entries.len() <= usize::MAX,
        forall|i: int| 0 <= i < outcomes.len() ==> (#[trigger] outcomes[i]) is Done,
    ensures
        outcomes.len() < 4 + steps_of(entries) ==> copy_after(entries, outcomes) is Next,
        outcomes.len() >= 4 + steps_of(entries) ==> copy_after(entries, outcomes) is Staged,
        copy_after(entries, outcomes) matches StageTurn::Next(state) ==> state.broken is None,
    decreases outcomes.len(),
{
    lemma_steps_of_any(entries);
    if outcomes.len() > 0 {
        let before = outcomes.drop_last();
        assert forall|i: int| 0 <= i < before.len() implies (#[trigger] before[i]) is Done by {
            assert(before[i] == outcomes[i]);
        }
        complete_copies_are_staged(entries, before);
        staged_apps_are_complete(entries, before);
        copies_follow_the_plan(entries, before);
        assert(outcomes.last() is Done);
        assert(entries.take(0) == Seq::<UploadEntry>::empty());
        assert(entries.take(entries.len() as int) == entries);
        if let StageTurn::Next(state) = copy_after(entries, before) {
            if state.entry < entries.len() {
                let more = entries.take(state.entry + 1);
                assert(more.drop_last() == entries.take(state.entry as int));
                assert(more.last() == entries[state.entry as int]);
                lemma_steps_grow(entries, state.entry + 1);
                lemma_steps_grow(entries, state.entry as int);
                if state.entry + 1 < entries.len() {
                    let next = entries.take(state.entry + 2);
                    assert(next.drop_last() == more);
                    lemma_steps_grow(entries, state.entry + 2);
                }
            }
            if entries.len() > 0 {
                let one = entries.take(1);
                assert(one.drop_last() == entries.take(0));
                assert(steps_of(entries.take(0)) == 0);
                assert(steps_of(one) >= 2);
                lemma_steps_grow(entries, 1);
            }
            if outcomes.len() >= 4 + steps_of(entries) {
                assert(before.len() < 4 + steps_of(entries));
                assert(steps_before(entries, state) == 3 + steps_of(entries));
                assert(!(state.step is Query || state.step is Absent || state.step is CreateRoot));
                assert(!(state.step is Source));
                assert(!(state.step is OpenFile));
                assert(!(state.step is Transfer));
                assert(state.step is CreateApp ==> entries.len() == 0);
                assert(state.step is MakeDirectory ==> state.entry + 1 == entries.len());
                assert(state.step is CloseFile ==> state.entry + 1 == entries.len());
            }
        }
    }
}

/// The steps of a copy do not depend on where an entry stands: a directory takes two and a file
/// four.
pub proof fn directories_take_two_steps_and_files_four(
    front: Seq<UploadEntry>,
    entry: UploadEntry,
    back: Seq<UploadEntry>,
)
    ensures
        steps_of(Seq::empty()) == 0,
        entry.kind is Directory ==> steps_of(front + seq![entry] + back) == steps_of(front + back)
            + 2,
        entry.kind is File ==> steps_of(front + seq![entry] + back) == steps_of(front + back) + 4,
    decreases back.len(),
{
    let all = front + seq![entry] + back;
    if back.len() == 0 {
        assert(all.drop_last() =~= front);
        assert(all.last() == entry);
        assert(front + back =~= front);
    } else {
        directories_take_two_steps_and_files_four(front, entry, back.drop_last());
        assert(all.drop_last() =~= front + seq![entry] + back.drop_last());
        assert(all.last() == back.last());
        assert((front + back).drop_last() =~= front + back.drop_last());
        assert((front + back).last() == back.last());
    }
}

/// A copy first makes sure of the public directory, then that the task's directory does not exist,
/// and only then creates it. Each directory of the plan is created and each file opened, copied and
/// closed, once its source was looked at.
pub proof fn copies_take_their_steps_in_order(entries: Seq<UploadEntry>, state: StageState)
    requires
        is_copying(entries, state),
    ensures
        ({
            let turn = state.turn(entries, StageOutcome::Done);
            let next = turn->Next_0;
            &&& state.step is Query ==> turn is Next && next.step is Absent
            &&& state.step is Absent ==> turn is Next && next.step is CreateRoot
            &&& state.step is CreateRoot ==> turn is Next && next.step is CreateApp
            &&& state.step is CreateApp && entries.len() > 0 ==> turn is Next && next.step is Source
                && next.entry == 0
            &&& state.step is CreateApp && entries.len() == 0 ==> turn is Staged
            &&& state.step is Source && entries[state.entry as int].kind is Directory ==> turn
                is Next && next.step is MakeDirectory && next.entry == state.entry
            &&& state.step is Source && entries[state.entry as int].kind is File ==> turn is Next
                && next.step is OpenFile && next.entry == state.entry
            &&& state.step is OpenFile ==> turn is Next && next.step is Transfer && next.entry
                == state.entry
            &&& state.step is Transfer ==> turn is Next && next.step is CloseFile && next.entry
                == state.entry && next.broken is None
        }),
{
}

/// A step that fails ends the copy with its own name. A file whose content could not be copied is
/// closed before the copy ends with that failure, whatever comes of closing it.
pub proof fn failed_copies_tell_their_step(
    entries: Seq<UploadEntry>,
    state: StageState,
    fault: TransferFault,
    outcome: StageOutcome,
)
    requires
        is_copying(entries, state),
    ensures
        !(state.step is Transfer) && state.broken is None ==> state.turn(
            entries,
            StageOutcome::Failed,
        ) == StageTurn::Failed(CopyFailure::Step(state.step)),
        !(state.step is Transfer) && state.broken is None ==> state.turn(
            entries,
            StageOutcome::Unwanted,
        ) == StageTurn::Failed(CopyFailure::Unwanted(state.step)),
        state.step is Transfer ==> (state.turn(entries, StageOutcome::Broken(fault))
            matches StageTurn::Next(next) && next.step is CloseFile && next.entry == state.entry
            && next.turn(entries, outcome) == StageTurn::Failed(CopyFailure::Transfer(fault))),
{
}

/// The kinds by which the failures of a copy are told.
pub proof fn copy_failures_are_told()
    ensures
        CopyFailure::Step(StageStep::Query).text()@ == "public_staging_query"@,
        CopyFailure::Step(StageStep::Absent).text()@ == "staging_precheck"@,
        CopyFailure::Step(StageStep::CreateRoot).text()@ == "staging_root_create"@,
        CopyFailure::Step(StageStep::CreateApp).text()@ == "staging_app_create"@,
        CopyFailure::Step(StageStep::Source).text()@ == "source_changed"@,
        CopyFailure::Step(StageStep::MakeDirectory).text()@ == "staging_directory_create"@,
        CopyFailure::Step(StageStep::OpenFile).text()@ == "staging_file_open"@,
        CopyFailure::Step(StageStep::CloseFile).text()@ == "staging_file_close"@,
        CopyFailure::Unwanted(StageStep::Query).text()@ == "public_staging_invalid"@,
        CopyFailure::Unwanted(StageStep::Absent).text()@ == "staging_root_exists"@,
        CopyFailure::Transfer(TransferFault::Unreadable).text()@ == "source_read"@,
        CopyFailure::Transfer(TransferFault::Changed).text()@ == "source_changed"@,
        CopyFailure::Transfer(TransferFault::Unwritten).text()@ == "staging_file_write"@,
        CopyFailure::Unavailable.text()@ == "afc_service"@,
        CopyFailure::TimedOut.text()@ == "timeout"@,
{
}

/// The task's directory may exist once its creation was asked for, and not before.
pub proof fn directories_exist_once_asked_for(step: StageStep)
    ensures
        step is Query || step is Absent ==> !step.may_have_created(),
        step is CreateRoot || step is CreateApp || step is Source || step is MakeDirectory
            || step is OpenFile || step is Transfer || step is CloseFile
            ==> step.may_have_created(),
{
}

/// A removal has succeeded where the directory was removed or was not there, and else failed.
pub proof fn removals_succeed_where_nothing_is_left(outcome: RemovalOutcome)
    ensures
        outcome is Removed ==> removal_result(outcome) is Succeeded,
        outcome == RemovalOutcome::Faulted(DeviceFault::ObjectNotFound) ==> removal_result(outcome)
            is Succeeded,
        outcome is Unavailable || outcome is TimedOut ==> removal_result(outcome) is Failed,
        outcome matches RemovalOutcome::Faulted(fault) ==> fault != DeviceFault::ObjectNotFound
            ==> removal_result(outcome) is Failed,
{
}

/// Nothing but the task's own directory is removed, and that lies in the public staging directory
/// under the server's prefix.
pub proof fn only_the_own_directory_is_removed(staging: TaskStagingPath, candidate: Seq<char>)
    ensures
        staging.is_exact(candidate) ==> candidate == staging.root@,
        staging.is_exact(candidate) ==> exists|tail: Seq<char>|
            candidate == "PublicStaging/iphoneloadly-spike-"@ + tail && record::uuid_bits(tail)
                is Some,
        forall|tail: Seq<char>|
            staging.root@ == #[trigger] ("PublicStaging/iphoneloadly-spike-"@ + tail)
                && record::uuid_bits(tail) is Some && candidate == staging.root@
                ==> staging.is_exact(candidate),
{
    let prefix = "PublicStaging/iphoneloadly-spike-"@;
    if staging.is_exact(candidate) {
        let tail = candidate.skip(prefix.len() as int);
        assert(candidate =~= prefix + tail) by {
            assert(candidate.subrange(0, prefix.len() as int) == prefix);
        }
    }
    assert forall|tail: Seq<char>|
        staging.root@ == #[trigger] (prefix + tail) && record::uuid_bits(tail) is Some && candidate
            == staging.root@ implies staging.is_exact(candidate) by {
        assert(candidate.skip(prefix.len() as int) =~= tail);
        assert(candidate.subrange(0, prefix.len() as int) =~= prefix);
    }
}

/// The kinds by which the failures of a plan are told.
pub proof fn plan_failures_are_told()
    ensures
        UploadPlanFailure::SourceNotDirectory.text()@ == "source_not_directory"@,
        UploadPlanFailure::SourceSymlink.text()@ == "source_symlink"@,
        UploadPlanFailure::UnsupportedFileType.text()@ == "unsupported_file_type"@,
        UploadPlanFailure::NonUnicodePath.text()@ == "non_unicode_path"@,
        UploadPlanFailure::UnsafePath.text()@ == "unsafe_path"@,
        UploadPlanFailure::TooManyEntries.text()@ == "entry_limit"@,
        UploadPlanFailure::TooManyBytes.text()@ == "byte_limit"@,
        UploadPlanFailure::LocalIo.text()@ == "local_io"@,
        UploadPlanFailure::Timeout.text()@ == "timeout"@,
{
}

/// A name is safe unless it is empty, a step to the same or the upper directory, or holds a
/// separator or a null character anywhere.
pub proof fn separators_make_names_unsafe(front: Seq<char>, c: char, back: Seq<char>)
    ensures
        c == '/' || c == '\\' || c == '\0' ==> !is_safe_name(front + seq![c] + back),
        !is_safe_name(""@),
        !is_safe_name("."@),
        !is_safe_name(".."@),
        front.len() > 0 && front[0] != '.' && (forall|i: int|
            0 <= i < front.len() ==> #[trigger] front[i] != '/' && front[i] != '\\' && front[i]
                != '\0') ==> is_safe_name(front),
        front.len() > 2 && (forall|i: int|
            0 <= i < front.len() ==> #[trigger] front[i] != '/' && front[i] != '\\' && front[i]
                != '\0') ==> is_safe_name(front),
{
    let name = front + seq![c] + back;
    assert(name[front.len() as int] == c);
    reveal_strlit("");
    reveal_strlit(".");
    reveal_strlit("..");
    assert("."@[0] == '.' && ".."@[0] == '.');
}

/// A path of safe names is copied to the path of the same names; it has no other parts, so it
/// cannot lead out of the app.
pub proof fn safe_paths_keep_their_names(components: Seq<PathComponent>)
    requires
        components.len() > 0,
        forall|i: int|
            0 <= i < components.len() ==> ((#[trigger] components[i]) matches PathComponent::Normal(
                name,
            ) && is_safe_name(name@)),
    ensures
        remote_path(components) is Ok,
        text::split_on(remote_path(components)->Ok_0, '/').len() == components.len(),
        forall|i: int|
            0 <= i < components.len() ==> text::split_on(remote_path(components)->Ok_0, '/')[i] == (
            #[trigger] components[i])->Normal_0@,
{
    lemma_no_failure(components);
    let parts = names(components);
    assert forall|i: int| 0 <= i < parts.len() implies !(#[trigger] parts[i]).contains('/') by {
        assert(components[i] matches PathComponent::Normal(name) && is_safe_name(name@));
    }
    text::splitting_undoes_joining(parts, '/');
}

proof fn lemma_no_failure(components: Seq<PathComponent>)
    requires
        forall|i: int|
            0 <= i < components.len() ==> ((#[trigger] components[i]) matches PathComponent::Normal(
                name,
            ) && is_safe_name(name@)),
    ensures
        first_failure(components) is None,
    decreases components.len(),
{
    if components.len() > 0 {
        let before = components.drop_last();
        assert forall|i: int| 0 <= i < before.len() implies ((#[trigger] before[i])
            matches PathComponent::Normal(name) && is_safe_name(name@)) by {
            assert(before[i] == components[i]);
        }
        lemma_no_failure(before);
        assert(components[components.len() - 1] == components.last());
    }
}

/// The first part that is refused decides what a path is refused for: a name that is no text, or
/// else an unsafe part. A path without parts is unsafe.
pub proof fn the_first_unsafe_part_decides(
    front: Seq<PathComponent>,
    part: PathComponent,
    back: Seq<PathComponent>,
)
    requires
        forall|i: int|
            0 <= i < front.len() ==> ((#[trigger] front[i]) matches PathComponent::Normal(name)
                && is_safe_name(name@)),
    ensures
        part is NonUnicode ==> remote_path(front + seq![part] + back) == Err::<
            Seq<char>,
            UploadPlanFailure,
        >(UploadPlanFailure::NonUnicodePath),
        part is Special ==> remote_path(front + seq![part] + back) == Err::<
            Seq<char>,
            UploadPlanFailure,
        >(UploadPlanFailure::UnsafePath),
        part matches PathComponent::Normal(name) ==> !is_safe_name(name@) ==> remote_path(
            front + seq![part] + back,
        ) == Err::<Seq<char>, UploadPlanFailure>(UploadPlanFailure::UnsafePath),
        remote_path(Seq::empty()) == Err::<Seq<char>, UploadPlanFailure>(
            UploadPlanFailure::UnsafePath,
        ),
{
    let all = front + seq![part] + back;
    lemma_no_failure(front);
    let count = front.len() as int + 1;
    assert(all.take(count) =~= front.push(part));
    assert(front.push(part).drop_last() =~= front);
    if first_failure(all.take(count)) is Some {
        refusals_stay(all, count);
    }
}

/// No more than 20000 entries and two gibibytes are copied; too many entries come first.
pub proof fn plans_are_bounded(entry_count: int, byte_count: int)
    ensures
        entry_count <= 20_000 && byte_count <= 2_147_483_648 ==> bounds_failure(
            entry_count,
            byte_count,
        ) is None,
        entry_count > 20_000 ==> bounds_failure(entry_count, byte_count) == Some(
            UploadPlanFailure::TooManyEntries,
        ),
        entry_count <= 20_000 && byte_count > 2_147_483_648 ==> bounds_failure(
            entry_count,
            byte_count,
        ) == Some(UploadPlanFailure::TooManyBytes),
{
}

/// There is room for a file where the plan has no more than two gibibytes with it.
pub proof fn files_need_room(plan: SignedBundleUploadPlan, size: int)
    requires
        plan.well_formed(),
        size >= 0,
    ensures
        total_bytes(plan.entries@) + size <= 2_147_483_648 ==> plan.lack_of_room(size) is None,
        total_bytes(plan.entries@) + size > 2_147_483_648 ==> plan.lack_of_room(size) == Some(
            UploadPlanFailure::TooManyBytes,
        ),
{
}

/// A file counts with its size and a directory with nothing, wherever they stand in the plan.
pub proof fn files_count_with_their_size(
    front: Seq<UploadEntry>,
    entry: UploadEntry,
    back: Seq<UploadEntry>,
)
    ensures
        total_bytes(Seq::empty()) == 0,
        entry.kind is Directory ==> total_bytes(front + seq![entry] + back) == total_bytes(
            front + back,
        ),
        entry.kind matches UploadEntryKind::File { size, .. } ==> total_bytes(
            front + seq![entry] + back,
        ) == total_bytes(front + back) + size,
{
    let rest = front + back;
    assert(rest.insert(front.len() as int, entry) =~= front + seq![entry] + back);
    lemma_inserted_bytes(rest, front.len() as int, entry);
}

/// The entries of a plan are in the order of their paths.
pub proof fn plans_are_in_the_order_of_paths(entries: Seq<UploadEntry>, i: int, j: int)
    requires
        0 <= i < j < entries.len(),
    ensures
        sorting::stable_sorted(entries).len() == entries.len(),
        !text::text_less(
            sorting::stable_sorted(entries)[j].remote_relative_path@,
            sorting::stable_sorted(entries)[i].remote_relative_path@,
        ),
{
    sorting::sorting_orders(entries);
    sorting::sorting_keeps_values(entries);
    let sorted = sorting::stable_sorted(entries);
    assert(!sorted[j].precedes(sorted[i]));
}

/// Only an entry whose real path lies inside the app is copied.
pub proof fn entries_outside_are_refused(place: Place)
    ensures
        place_check(place) is Ok <==> place is Inside,
        place is Outside ==> place_check(place)->Err_0.text()@ == "unsafe_path"@,
        place is Unresolved ==> place_check(place)->Err_0.text()@ == "local_io"@,
{
}

/// A file is the planned one only where nothing of it has changed.
pub proof fn changed_files_are_noticed(facts: SourceFacts, size: u64, identity: FileIdentity)
    ensures
        is_unchanged(facts, size, identity) ==> facts.kind is File && facts.place is Inside
            && facts.size == size && facts.identity is Some,
        is_unchanged(facts, size, identity) ==> facts.identity->0.volume == identity.volume
            && facts.identity->0.file == identity.file && facts.identity->0.version
            == identity.version,
        facts.kind is File && facts.place is Inside && facts.size == size && facts.identity
            == Some(identity) ==> is_unchanged(facts, size, identity),
{
}

/// Two changes of a file at different moments have different numbers, where they are at different
/// seconds but the same part of one, or within one second.
pub proof fn moments_have_their_own_numbers(
    seconds: i64,
    nanoseconds: i64,
    other_seconds: i64,
    other_nanoseconds: i64,
)
    ensures
        seconds == other_seconds && nanoseconds != other_nanoseconds ==> change_number(
            seconds,
            nanoseconds,
        ) != change_number(other_seconds, other_nanoseconds),
        seconds != other_seconds && nanoseconds == other_nanoseconds ==> change_number(
            seconds,
            nanoseconds,
        ) != change_number(other_seconds, other_nanoseconds),
        change_number(0, nanoseconds) == nanoseconds as u64,
        change_number(1, 0) == 4_294_967_296,
{
    let a = #[verifier::truncate] (seconds as u64);
    let b = #[verifier::truncate] (other_seconds as u64);
    let c = #[verifier::truncate] (nanoseconds as u64);
    let d = #[verifier::truncate] (other_nanoseconds as u64);
    assert(seconds != other_seconds ==> #[verifier::truncate] (seconds as u64)
        != #[verifier::truncate] (other_seconds as u64)) by (bit_vector);
    assert(nanoseconds != other_nanoseconds ==> #[verifier::truncate] (nanoseconds as u64)
        != #[verifier::truncate] (other_nanoseconds as u64)) by (bit_vector);
    assert(a == b && c != d ==> ((a << 32) | (a >> 32)) ^ c != ((b << 32) | (b >> 32)) ^ d)
        by (bit_vector);
    assert(a != b && c == d ==> ((a << 32) | (a >> 32)) ^ c != ((b << 32) | (b >> 32)) ^ d)
        by (bit_vector);
    assert(((0u64 << 32) | (0u64 >> 32)) ^ c == c) by (bit_vector);
    assert(((1u64 << 32) | (1u64 >> 32)) ^ 0u64 == 4_294_967_296u64) by (bit_vector);
}

/// A time that has come to the deadline or passed it is late; without a deadline none is.
pub proof fn deadlines_are_kept(deadline: Option<u64>, now: u64)
    ensures
        deadline is None ==> !is_late(deadline, now),
        deadline matches Some(end) ==> (is_late(deadline, now) <==> end <= now),
{
}

/// In time, each step of the planning leads to the one that it prepares, and each entry is
/// restricted before it is planned; behind the last entry the next directory that waits is looked
/// at, and the plan is made where none waits.
pub proof fn plans_go_on_in_time(waiting: usize, directory: bool)
    ensures
        PlanStep::Root.turn(waiting, false, PlanEvent::Done) == PlanTurn::Next(
            PlanStep::RestrictRoot,
        ),
        PlanStep::RestrictRoot.turn(waiting, false, PlanEvent::Done) == PlanTurn::Next(
            PlanStep::ResolveRoot,
        ),
        PlanStep::ResolveRoot.turn(waiting, false, PlanEvent::Done) == PlanTurn::Next(
            PlanStep::Directory,
        ),
        PlanStep::Directory.turn(waiting, false, PlanEvent::Done) == PlanTurn::Next(
            PlanStep::RestrictDirectory,
        ),
        PlanStep::RestrictDirectory.turn(waiting, false, PlanEvent::Done) == PlanTurn::Next(
            PlanStep::PlaceDirectory,
        ),
        PlanStep::PlaceDirectory.turn(waiting, false, PlanEvent::Done) == PlanTurn::Next(
            PlanStep::List,
        ),
        PlanStep::List.turn(waiting, false, PlanEvent::Done) == PlanTurn::Next(PlanStep::Child),
        PlanStep::Child.turn(waiting, false, PlanEvent::Seen { directory }) == if directory {
            PlanTurn::Next(PlanStep::RestrictFolder)
        } else {
            PlanTurn::Next(PlanStep::RestrictFile)
        },
        PlanStep::RestrictFolder.turn(waiting, false, PlanEvent::Done) == PlanTurn::Next(
            PlanStep::Add,
        ),
        PlanStep::RestrictFile.turn(waiting, false, PlanEvent::Done) == PlanTurn::Next(
            PlanStep::Room,
        ),
        PlanStep::Room.turn(waiting, false, PlanEvent::Done) == PlanTurn::Next(PlanStep::Hash),
        PlanStep::Hash.turn(waiting, false, PlanEvent::Done) == PlanTurn::Next(PlanStep::Add),
        PlanStep::Add.turn(waiting, false, PlanEvent::Done) == PlanTurn::Next(PlanStep::Child),
        PlanStep::Child.turn(waiting, false, PlanEvent::Exhausted) == if waiting == 0 {
            PlanTurn::Planned
        } else {
            PlanTurn::Next(PlanStep::Directory)
        },
{
}

/// A failure of a step is what the plan is refused for. Where the time ran out before the app, a
/// directory or an entry was looked at, or behind the last entry, the plan is refused for that.
pub proof fn late_plans_are_refused(
    step: PlanStep,
    waiting: usize,
    failure: UploadPlanFailure,
    directory: bool,
)
    ensures
        step.turn(waiting, false, PlanEvent::Failed(failure)) == PlanTurn::Refuse(failure),
        step is Root || step is Directory || step is Child ==> step.turn(
            waiting,
            true,
            PlanEvent::Failed(failure),
        ) == PlanTurn::Refuse(UploadPlanFailure::Timeout),
        step is Root || step is Directory ==> step.turn(waiting, true, PlanEvent::Done)
            == PlanTurn::Refuse(UploadPlanFailure::Timeout),
        PlanStep::Child.turn(waiting, true, PlanEvent::Seen { directory }) == PlanTurn::Refuse(
            UploadPlanFailure::Timeout,
        ),
        PlanStep::Child.turn(0, true, PlanEvent::Exhausted) == PlanTurn::Refuse(
            UploadPlanFailure::Timeout,
        ),
{
}

/// A copy begins with the question for the public directory and the first entry.
pub proof fn copies_begin_with_the_public_directory()
    ensures
        StageState::first().step is Query,
        StageState::first().entry == 0,
        StageState::first().broken is None,
{
}

} // verus!
