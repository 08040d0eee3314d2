//! Updates of iPhoneLoadly itself: which official release is offered, and how it is requested.
use crate::github;
use crate::github::{Release, ReleaseAsset};
use crate::reply;
use crate::reply::Reply;
use crate::text;
use crate::version;
use crate::version::ReleaseVersion;
use vstd::prelude::*;
use vstd::string::*;

verus! {

/// What is told of an update.
#[derive(Debug)]
pub struct UpdateInfo {
    pub current_version: String,
    pub latest_version: Option<String>,
    pub available: bool,
    pub release_tag: Option<String>,
    pub prerelease: bool,
    pub message: &'static str,
}

/// What the updater is asked for.
#[derive(Debug)]
pub struct UpdateRequest {
    pub target_version: String,
    pub expected_archive_sha256: String,
    pub created_at: String,
}

/// The file name of the release archive of a version.
pub open spec fn archive_name(version: Seq<char>) -> Seq<char> {
    "iphoneloadly-v"@ + version + "-linux-amd64.tar.gz"@
}

/// The file name of the release archive of a version.
pub fn release_archive(version: &str) -> (name: String)
    ensures
        name@ == archive_name(version@),
{
    let mut name: String = "iphoneloadly-v".to_owned();
    name.append(version);
    name.append("-linux-amd64.tar.gz");
    name
}

/// The first asset with a name.
pub open spec fn first_named(assets: Seq<ReleaseAsset>, name: Seq<char>) -> Option<ReleaseAsset>
    decreases assets.len(),
{
    if assets.len() == 0 {
        None
    } else if assets[0].name@ == name {
        Some(assets[0])
    } else {
        first_named(assets.skip(1), name)
    }
}

/// Sixty-four hexadecimal digits.
pub open spec fn is_sha256_text(value: Seq<char>) -> bool {
    value.len() == 64 && forall|i: int|
        0 <= i < value.len() ==> text::is_ascii_hex(#[trigger] value[i])
}

/// The digest that a release vouches for: that of its archive, where the release also holds the
/// archive's checksum file.
pub open spec fn vouched_digest(release: Release, version: Seq<char>) -> Option<Seq<char>> {
    match first_named(release.assets@, archive_name(version)) {
        Some(archive) => match archive.digest {
            Some(digest) => match text::after_prefix(digest@, "sha256:"@) {
                Some(value) => if is_sha256_text(value) && first_named(
                    release.assets@,
                    archive_name(version) + ".sha256"@,
                ) is Some {
                    Some(value)
                } else {
                    None
                },
                None => None,
            },
            None => None,
        },
        None => None,
    }
}

/// The version that a release has by its tag.
pub open spec fn release_version(release: Release) -> Seq<char> {
    github::tag_version(release.tag_name@)
}

/// A release that the current version may be updated to: no draft, a pre-release only for a
/// pre-release, newer, and with a digest that it vouches for.
pub open spec fn is_candidate(release: Release, current: ReleaseVersion) -> bool {
    &&& !release.draft
    &&& !release.prerelease || current.prerelease
    &&& version::is_newer(release_version(release), current.text@)
    &&& vouched_digest(release, release_version(release)) is Some
}

/// The newest candidate; of several with the same precedence, the first.
pub open spec fn is_best(releases: Seq<Release>, current: ReleaseVersion, at: int) -> bool {
    &&& 0 <= at < releases.len()
    &&& is_candidate(releases[at], current)
    &&& forall|i: int|
        0 <= i < releases.len() && is_candidate(#[trigger] releases[i], current)
            ==> !version::is_newer(release_version(releases[i]), release_version(releases[at]))
    &&& forall|i: int|
        0 <= i < at && is_candidate(#[trigger] releases[i], current) ==> version::is_newer(
            release_version(releases[at]),
            release_version(releases[i]),
        )
}

/// There is one best candidate: what is announced is what is requested.
pub proof fn the_best_candidate_is_unique(
    releases: Seq<Release>,
    current: ReleaseVersion,
    one: int,
    other: int,
)
    requires
        is_best(releases, current, one),
        is_best(releases, current, other),
    ensures
        one == other,
{
    assert(is_candidate(releases[one], current));
    assert(is_candidate(releases[other], current));
}

/// The digest of a release is the one that its archive has, where the archive's checksum file is
/// beside it.
pub proof fn archives_with_a_checksum_are_vouched_for(
    release: Release,
    version: Seq<char>,
    digest: Seq<char>,
    archive: int,
    checksum: int,
)
    requires
        0 <= archive < release.assets@.len(),
        0 <= checksum < release.assets@.len(),
        release.assets@[archive].name@ == "iphoneloadly-v"@ + version + "-linux-amd64.tar.gz"@,
        forall|i: int|
            0 <= i < archive ==> (#[trigger] release.assets@[i]).name@
                != release.assets@[archive].name@,
        release.assets@[checksum].name@ == release.assets@[archive].name@ + ".sha256"@,
        release.assets@[archive].digest is Some,
        release.assets@[archive].digest->0@ == "sha256:"@ + digest,
        digest.len() == 64,
        forall|i: int|
            0 <= i < 64 ==> {
                let c = #[trigger] digest[i];
                '0' <= c <= '9' || 'a' <= c <= 'f' || 'A' <= c <= 'F'
            },
    ensures
        vouched_digest(release, version) == Some(digest),
{
    let assets = release.assets@;
    lemma_first_named(assets, archive_name(version), archive);
    lemma_some_named(assets, archive_name(version) + ".sha256"@, checksum);
    let told = "sha256:"@ + digest;
    assert(told.subrange(0, "sha256:"@.len() as int) == "sha256:"@);
    assert(told.skip("sha256:"@.len() as int) == digest);
}

proof fn lemma_first_named(assets: Seq<ReleaseAsset>, name: Seq<char>, at: int)
    requires
        0 <= at < assets.len(),
        assets[at].name@ == name,
        forall|i: int| 0 <= i < at ==> (#[trigger] assets[i]).name@ != name,
    ensures
        first_named(assets, name) == Some(assets[at]),
    decreases at,
{
    if at > 0 {
        assert(assets[0].name@ != name);
        let rest = assets.skip(1);
        assert forall|i: int| 0 <= i < at - 1 implies (#[trigger] rest[i]).name@ != name by {
            assert(rest[i] == assets[i + 1]);
        }
        lemma_first_named(rest, name, at - 1);
    }
}

proof fn lemma_some_named(assets: Seq<ReleaseAsset>, name: Seq<char>, at: int)
    requires
        0 <= at < assets.len(),
        assets[at].name@ == name,
    ensures
        first_named(assets, name) is Some,
    decreases assets.len(),
{
    if assets[0].name@ != name {
        lemma_some_named(assets.skip(1), name, at - 1);
    }
}

proof fn lemma_named(assets: Seq<ReleaseAsset>, name: Seq<char>) -> (at: int)
    requires
        first_named(assets, name) is Some,
    ensures
        0 <= at < assets.len(),
        assets[at].name@ == name,
        first_named(assets, name) == Some(assets[at]),
    decreases assets.len(),
{
    if assets[0].name@ == name {
        0
    } else {
        let at = lemma_named(assets.skip(1), name);
        at + 1
    }
}

/// A release is offered exactly where it is no draft, is newer than the current version, and vouches
/// for its archive; a pre-release is offered to those who run a pre-release, and to no one else.
pub proof fn newer_vouched_releases_are_offered(
    release: Release,
    current: ReleaseVersion,
    version: Seq<char>,
)
    requires
        release.tag_name@ == "v"@ + version,
        version::is_newer(version, current.text@),
        vouched_digest(release, version) is Some,
    ensures
        !release.draft && !release.prerelease ==> is_candidate(release, current),
        !release.draft && release.prerelease && current.prerelease ==> is_candidate(
            release,
            current,
        ),
        release.prerelease && !current.prerelease ==> !is_candidate(release, current),
        release.draft ==> !is_candidate(release, current),
{
    reveal_strlit("v");
    assert(release.tag_name@.subrange(0, 1) == "v"@);
    assert(release.tag_name@.skip(1) == version);
}

/// What is offered is newer, and has an archive under its own version with a digest of sixty-four
/// hexadecimal digits and a checksum file beside it.
pub proof fn offers_are_newer_and_vouched_for(release: Release, current: ReleaseVersion)
    requires
        is_candidate(release, current),
    ensures
        !release.draft,
        release.prerelease ==> current.prerelease,
        exists|version: Seq<char>, archive: int, checksum: int|
            {
                &&& release.tag_name@ == "v"@ + version || release.tag_name@ == version
                &&& #[trigger] version::is_newer(version, current.text@)
                &&& 0 <= archive < release.assets@.len()
                &&& 0 <= checksum < release.assets@.len()
                &&& (#[trigger] release.assets@[archive]).name@ == "iphoneloadly-v"@ + version
                    + "-linux-amd64.tar.gz"@
                &&& (#[trigger] release.assets@[checksum]).name@ == "iphoneloadly-v"@ + version
                    + "-linux-amd64.tar.gz"@ + ".sha256"@
                &&& release.assets@[archive].digest is Some
                &&& release.assets@[archive].digest->0@ == "sha256:"@ + vouched_digest(
                    release,
                    version,
                )->0
                &&& vouched_digest(release, version)->0.len() == 64
            },
{
    let version = release_version(release);
    let archive = lemma_named(release.assets@, archive_name(version));
    let checksum = lemma_named(release.assets@, archive_name(version) + ".sha256"@);
    let told = release.assets@[archive].digest->0@;
    assert(told == "sha256:"@ + told.skip("sha256:"@.len() as int));
    if text::begins_with(release.tag_name@, "v"@) {
        assert(release.tag_name@ == "v"@ + release.tag_name@.skip("v"@.len() as int));
    }
    assert(version::is_newer(version, current.text@));
}

/// Of the releases that are offered the newest is chosen: no other is newer, and of several with the
/// same precedence the first is.
pub proof fn the_newest_offer_is_chosen(
    releases: Seq<Release>,
    current: ReleaseVersion,
    chosen: int,
    other: int,
)
    requires
        is_best(releases, current, chosen),
        0 <= other < releases.len(),
        is_candidate(releases[other], current),
    ensures
        is_candidate(releases[chosen], current),
        !version::is_newer(release_version(releases[other]), release_version(releases[chosen])),
        other < chosen ==> version::is_newer(
            release_version(releases[chosen]),
            release_version(releases[other]),
        ),
{
}

/// An update that was chosen.
#[derive(Debug)]
pub struct SelectedUpdate {
    pub version: String,
    pub digest: String,
    pub release_tag: String,
    pub prerelease: bool,
}

/// The selection describes the release.
pub open spec fn describes(selected: SelectedUpdate, release: Release) -> bool {
    &&& selected.version@ == release_version(release)
    &&& vouched_digest(release, release_version(release)) == Some(selected.digest@)
    &&& selected.release_tag@ == release.tag_name@
    &&& selected.prerelease == release.prerelease
}

/// What is told of an update is what its release says: the version of its tag, the tag itself, whether
/// it is a pre-release, and the digest that it vouches for.
pub proof fn selections_tell_their_release(
    selected: SelectedUpdate,
    release: Release,
    version: Seq<char>,
    digest: Seq<char>,
)
    requires
        describes(selected, release),
        release.tag_name@ == "v"@ + version,
        vouched_digest(release, version) == Some(digest),
    ensures
        selected.version@ == version,
        selected.digest@ == digest,
        selected.release_tag@ == "v"@ + version,
        selected.prerelease == release.prerelease,
{
    reveal_strlit("v");
    assert(release.tag_name@.subrange(0, 1) == "v"@);
    assert(release.tag_name@.skip(1) == version);
}

fn find_named<'a>(assets: &'a Vec<ReleaseAsset>, name: &str) -> (found: Option<&'a ReleaseAsset>)
    ensures
        match found {
            Some(asset) => first_named(assets@, name@) == Some(*asset),
            None => first_named(assets@, name@) is None,
        },
{
    let mut i: usize = 0;
    proof {
        assert(assets@.skip(0) == assets@);
    }
    while i < assets.len()
        invariant
            i <= assets.len(),
            first_named(assets@, name@) == first_named(assets@.skip(i as int), name@),
        decreases assets.len() - i,
    {
        if text::same_text(assets[i].name.as_str(), name) {
            return Some(&assets[i]);
        }
        proof {
            assert(assets@.skip(i as int).skip(1) == assets@.skip(i + 1));
        }
        i = i + 1;
    }
    None
}

fn is_digest(value: &str) -> (result: bool)
    ensures
        result == is_sha256_text(value@),
{
    let chars: Vec<char> = text::chars_of(value);
    if chars.len() != 64 {
        return false;
    }
    let mut i: usize = 0;
    while i < chars.len()
        invariant
            i <= chars.len(),
            chars@ == value@,
            chars@.len() == 64,
            forall|k: int| 0 <= k < i ==> text::is_ascii_hex(#[trigger] chars@[k]),
        decreases chars.len() - i,
    {
        let c: char = chars[i];
        if !(('0' <= c && c <= '9') || ('a' <= c && c <= 'f') || ('A' <= c && c <= 'F')) {
            proof {
                assert(!text::is_ascii_hex(value@[i as int]));
            }
            return false;
        }
        i = i + 1;
    }
    true
}

/// The digest that a release vouches for as an archive of the given version.
pub fn verified_digest(release: &Release, version: &str) -> (digest: Option<String>)
    ensures
        text::text_view(digest) == vouched_digest(*release, version@),
{
    let name: String = release_archive(version);
    let archive: &ReleaseAsset = match find_named(&release.assets, name.as_str()) {
        Some(archive) => archive,
        None => {
            return None;
        },
    };
    let digest: &String = match &archive.digest {
        Some(digest) => digest,
        None => {
            return None;
        },
    };
    let value: &str = match text::strip_prefix(digest.as_str(), "sha256:") {
        Some(value) => value,
        None => {
            return None;
        },
    };
    let mut checksum: String = name;
    checksum.append(".sha256");
    if is_digest(value) && find_named(&release.assets, checksum.as_str()).is_some() {
        Some(value.to_owned())
    } else {
        None
    }
}

/// The official release that the current version is updated to.
pub fn select_update(releases: &Vec<Release>, current: &ReleaseVersion) -> (selected: Option<
    SelectedUpdate,
>)
    ensures
        match selected {
            Some(selected) => exists|at: int| #[trigger]
                is_best(releases@, *current, at) && describes(selected, releases@[at]),
            None => forall|i: int|
                0 <= i < releases@.len() ==> !is_candidate(#[trigger] releases@[i], *current),
        },
{
    let mut best: Option<(ReleaseVersion, SelectedUpdate)> = None;
    let ghost mut at: int = 0;
    let mut i: usize = 0;
    while i < releases.len()
        invariant
            i <= releases.len(),
            match best {
                Some((version, selected)) => {
                    &&& at < i
                    &&& is_best(releases@.take(i as int), *current, at)
                    &&& describes(selected, releases@[at])
                    &&& version.text@ == release_version(releases@[at])
                },
                None => forall|j: int|
                    0 <= j < i ==> !is_candidate(#[trigger] releases@[j], *current),
            },
        decreases releases.len() - i,
    {
        let ghost seen = releases@.take(i as int);
        let ghost more = releases@.take(i + 1);
        proof {
            assert(forall|j: int| 0 <= j < i ==> #[trigger] more[j] == seen[j]);
            assert(more[i as int] == releases@[i as int]);
            version::newer_is_irreflexive(release_version(releases@[i as int]));
        }
        let release: &Release = &releases[i];
        let found: Option<(ReleaseVersion, String)> = if release.draft || (release.prerelease
            && !current.prerelease) {
            None
        } else {
            match github::official_version(release.tag_name.as_str()) {
                Ok(version) => if version.is_newer_than(current) {
                    match verified_digest(release, version.text.as_str()) {
                        Some(digest) => Some((version, digest)),
                        None => None,
                    }
                } else {
                    None
                },
                Err(_) => None,
            }
        };
        proof {
            assert(found is Some == is_candidate(*release, *current));
        }
        if let Some((version, digest)) = found {
            let better: bool = match &best {
                Some((known, _)) => version.is_newer_than(known),
                None => true,
            };
            if better {
                proof {
                    if best is Some {
                        assert forall|j: int|
                            0 <= j < more.len() && is_candidate(#[trigger] more[j], *current)
                            implies !version::is_newer(
                            release_version(more[j]),
                            release_version(more[i as int]),
                        ) && (j < i ==> version::is_newer(
                            release_version(more[i as int]),
                            release_version(more[j]),
                        )) by {
                            if j < i {
                                let (new, old, other) = (
                                    release_version(more[i as int]),
                                    release_version(more[at]),
                                    release_version(more[j]),
                                );
                                assert(!version::is_newer(
                                    release_version(seen[j]),
                                    release_version(seen[at]),
                                ));
                                version::newer_than_at_most(new, old, other);
                                if version::is_newer(other, new) {
                                    version::newer_is_transitive(other, new, other);
                                    version::newer_is_irreflexive(other);
                                }
                            }
                        }
                    } else {
                        assert(forall|j: int|
                            0 <= j < i ==> !is_candidate(#[trigger] more[j], *current));
                    }
                    at = i as int;
                }
                let selected: SelectedUpdate = SelectedUpdate {
                    version: version.text.clone(),
                    digest,
                    release_tag: release.tag_name.clone(),
                    prerelease: release.prerelease,
                };
                best = Some((version, selected));
            }
        }
        i = i + 1;
    }
    proof {
        assert(releases@.take(i as int) == releases@);
    }
    match best {
        Some((_, selected)) => Some(selected),
        None => None,
    }
}

/// What is told of an update. `releases` is nothing where GitHub could not be asked.
pub fn info(current: &ReleaseVersion, releases: Option<&Vec<Release>>) -> (info: UpdateInfo)
    ensures
        info.current_version@ == current.text@,
        info.available == info.latest_version is Some,
        info.available == info.release_tag is Some,
        info.available ==> releases is Some && info.message
            == "A verified official iPhoneLoadly update is available." && exists|at: int|
            #[trigger]
            is_best(releases->0@, *current, at) && info.latest_version->0@ == release_version(
                releases->0@[at],
            ) && info.release_tag->0@ == releases->0@[at].tag_name@ && info.prerelease
                == releases->0@[at].prerelease,
        !info.available ==> !info.prerelease,
        !info.available && releases is None ==> info.message
            == "The official GitHub release information is temporarily unavailable.",
        !info.available && releases is Some ==> info.message == "iPhoneLoadly is up to date."
            && forall|i: int|
            0 <= i < releases->0@.len() ==> !is_candidate(#[trigger] releases->0@[i], *current),
{
    match releases {
        None => UpdateInfo {
            current_version: current.text.clone(),
            latest_version: None,
            available: false,
            release_tag: None,
            prerelease: false,
            message: "The official GitHub release information is temporarily unavailable.",
        },
        Some(releases) => match select_update(releases, current) {
            None => UpdateInfo {
                current_version: current.text.clone(),
                latest_version: None,
                available: false,
                release_tag: None,
                prerelease: false,
                message: "iPhoneLoadly is up to date.",
            },
            Some(selected) => UpdateInfo {
                current_version: current.text.clone(),
                latest_version: Some(selected.version),
                available: true,
                release_tag: Some(selected.release_tag),
                prerelease: selected.prerelease,
                message: "A verified official iPhoneLoadly update is available.",
            },
        },
    }
}

/// The steps by which an update is requested, in their order. Each has to succeed before the next
/// is taken.
#[derive(Debug, Clone, Copy, PartialEq, Eq, Structural)]
pub enum RequestStep {
    /// The request may change something.
    Action,
    /// No source is being synchronized.
    Exclusive,
    /// No installation is active.
    Idle,
    /// The official releases were read.
    Releases,
    /// One of them is an update.
    Candidate,
    /// No other update is requested.
    Vacant,
    /// The directory of the request exists.
    Directory,
    /// The request is encoded.
    Encode,
    /// The request is written to a temporary file.
    Write,
    /// Only the owner can read that file.
    Protect,
    /// The file has taken its final name.
    Publish,
}

/// What comes after a step.
#[derive(Debug, Clone, Copy)]
pub enum RequestTurn {
    /// The next step is to be taken.
    Next(RequestStep),
    /// The request is answered. Where `discard` is set the temporary file is removed first.
    Refuse { reply: Reply, discard: bool },
    /// The update is requested: status 202.
    Accepted,
}

impl RequestStep {
    /// The step's number in the order.
    pub open spec fn number(self) -> int {
        match self {
            RequestStep::Action => 0,
            RequestStep::Exclusive => 1,
            RequestStep::Idle => 2,
            RequestStep::Releases => 3,
            RequestStep::Candidate => 4,
            RequestStep::Vacant => 5,
            RequestStep::Directory => 6,
            RequestStep::Encode => 7,
            RequestStep::Write => 8,
            RequestStep::Protect => 9,
            RequestStep::Publish => 10,
        }
    }

    /// The answer where the step fails.
    pub open spec fn refusal(self) -> Reply {
        match self {
            RequestStep::Action => reply::action_reply(),
            RequestStep::Exclusive => reply::told(
                409,
                "Source synchronization is active; try the update again later.",
            ),
            RequestStep::Idle => reply::told(
                409,
                "An installation is active; wait before updating iPhoneLoadly.",
            ),
            RequestStep::Releases => reply::told(502, "Unable to resolve the official update."),
            RequestStep::Candidate => reply::told(
                409,
                "No newer verified official release is available.",
            ),
            RequestStep::Vacant => reply::told(409, "An update is already requested or running."),
            RequestStep::Directory => reply::told(500, "Unable to prepare the updater request."),
            RequestStep::Encode => reply::told(500, "Unable to serialize the updater request."),
            RequestStep::Write => reply::told(500, "Unable to queue the updater request."),
            RequestStep::Protect => reply::told(500, "Unable to secure the updater request."),
            RequestStep::Publish => reply::told(500, "Unable to queue the updater request."),
        }
    }

    /// What comes after the step.
    pub open spec fn turn(self, succeeded: bool) -> RequestTurn {
        if !succeeded {
            RequestTurn::Refuse {
                reply: self.refusal(),
                discard: self.number() >= RequestStep::Write.number(),
            }
        } else {
            match self {
                RequestStep::Action => RequestTurn::Next(RequestStep::Exclusive),
                RequestStep::Exclusive => RequestTurn::Next(RequestStep::Idle),
                RequestStep::Idle => RequestTurn::Next(RequestStep::Releases),
                RequestStep::Releases => RequestTurn::Next(RequestStep::Candidate),
                RequestStep::Candidate => RequestTurn::Next(RequestStep::Vacant),
                RequestStep::Vacant => RequestTurn::Next(RequestStep::Directory),
                RequestStep::Directory => RequestTurn::Next(RequestStep::Encode),
                RequestStep::Encode => RequestTurn::Next(RequestStep::Write),
                RequestStep::Write => RequestTurn::Next(RequestStep::Protect),
                RequestStep::Protect => RequestTurn::Next(RequestStep::Publish),
                RequestStep::Publish => RequestTurn::Accepted,
            }
        }
    }

    /// What comes after the step.
    pub fn advance(self, succeeded: bool) -> (turn: RequestTurn)
        ensures
            turn == self.turn(succeeded),
    {
        if succeeded {
            return match self {
                RequestStep::Action => RequestTurn::Next(RequestStep::Exclusive),
                RequestStep::Exclusive => RequestTurn::Next(RequestStep::Idle),
                RequestStep::Idle => RequestTurn::Next(RequestStep::Releases),
                RequestStep::Releases => RequestTurn::Next(RequestStep::Candidate),
                RequestStep::Candidate => RequestTurn::Next(RequestStep::Vacant),
                RequestStep::Vacant => RequestTurn::Next(RequestStep::Directory),
                RequestStep::Directory => RequestTurn::Next(RequestStep::Encode),
                RequestStep::Encode => RequestTurn::Next(RequestStep::Write),
                RequestStep::Write => RequestTurn::Next(RequestStep::Protect),
                RequestStep::Protect => RequestTurn::Next(RequestStep::Publish),
                RequestStep::Publish => RequestTurn::Accepted,
            };
        }
        let reply: Reply = match self {
            RequestStep::Action => reply::action_required(),
            RequestStep::Exclusive => Reply::told(
                409,
                "Source synchronization is active; try the update again later.",
            ),
            RequestStep::Idle => Reply::told(
                409,
                "An installation is active; wait before updating iPhoneLoadly.",
            ),
            RequestStep::Releases => Reply::told(502, "Unable to resolve the official update."),
            RequestStep::Candidate => Reply::told(
                409,
                "No newer verified official release is available.",
            ),
            RequestStep::Vacant => Reply::told(409, "An update is already requested or running."),
            RequestStep::Directory => Reply::told(500, "Unable to prepare the updater request."),
            RequestStep::Encode => Reply::told(500, "Unable to serialize the updater request."),
            RequestStep::Write => Reply::told(500, "Unable to queue the updater request."),
            RequestStep::Protect => Reply::told(500, "Unable to secure the updater request."),
            RequestStep::Publish => Reply::told(500, "Unable to queue the updater request."),
        };
        let discard: bool = match self {
            RequestStep::Write | RequestStep::Protect | RequestStep::Publish => true,
            _ => false,
        };
        RequestTurn::Refuse { reply, discard }
    }
}

/// Where a request stands after some steps: the turn that the last one gave.
pub open spec fn request_after(outcomes: Seq<bool>) -> RequestTurn
    decreases outcomes.len(),
{
    if outcomes.len() == 0 {
        RequestTurn::Next(RequestStep::Action)
    } else {
        match request_after(outcomes.drop_last()) {
            RequestTurn::Next(step) => step.turn(outcomes.last()),
            turn => turn,
        }
    }
}

proof fn request_position(outcomes: Seq<bool>)
    ensures
        request_after(outcomes) is Next ==> request_after(outcomes)->Next_0.number()
            == outcomes.len() && forall|i: int| 0 <= i < outcomes.len() ==> outcomes[i],
        request_after(outcomes) is Accepted ==> outcomes.len() >= 11 && forall|i: int|
            0 <= i < 11 ==> outcomes[i],
    decreases outcomes.len(),
{
    if outcomes.len() > 0 {
        let before = outcomes.drop_last();
        request_position(before);
        assert forall|i: int| 0 <= i < before.len() && before[i] implies outcomes[i] by {}
    }
}

/// An update is requested only after every step has succeeded: the request was an action, nothing
/// else was running, an official candidate was found, and no other update was requested.
pub proof fn updates_take_every_step(outcomes: Seq<bool>)
    requires
        request_after(outcomes) is Accepted,
    ensures
        outcomes.len() >= 11,
        forall|i: int| 0 <= i < 11 ==> outcomes[i],
{
    request_position(outcomes);
}

/// An update is requested once every step has succeeded, and one step that fails refuses it with a
/// status of an error.
pub proof fn complete_requests_are_accepted(outcomes: Seq<bool>, step: RequestStep)
    requires
        outcomes.len() == 11,
        forall|i: int| 0 <= i < 11 ==> outcomes[i],
    ensures
        request_after(outcomes) is Accepted,
        step.turn(false) matches RequestTurn::Refuse { reply, .. } && reply.status >= 400
            && reply.message is Some,
        !(step.turn(true) is Refuse),
{
    reveal_with_fuel(request_after, 12);
    let o = outcomes;
    assert(o.drop_last().drop_last().drop_last().drop_last().drop_last().drop_last().drop_last().drop_last().drop_last().drop_last().drop_last().len()
        == 0);
}

/// The file of a request is written before it is made private, and made private before it takes its
/// final name: nobody else reads it under that name. It is written only where an update was found, no
/// installation was active and no other update was requested.
pub proof fn requests_are_private_before_they_are_published(step: RequestStep, succeeded: bool)
    ensures
        step.turn(succeeded) is Accepted ==> step is Publish && succeeded,
        step.turn(succeeded) == RequestTurn::Next(RequestStep::Publish) ==> step is Protect
            && succeeded,
        step.turn(succeeded) == RequestTurn::Next(RequestStep::Protect) ==> step is Write
            && succeeded,
        step.turn(succeeded) == RequestTurn::Next(RequestStep::Write) ==> step is Encode
            && succeeded,
        step.turn(succeeded) == RequestTurn::Next(RequestStep::Candidate) ==> step is Releases
            && succeeded,
        step.turn(succeeded) == RequestTurn::Next(RequestStep::Exclusive) ==> step is Action
            && succeeded,
{
}

/// A request that fails once its file was written leaves no temporary file behind.
pub proof fn failed_requests_leave_no_file(step: RequestStep)
    requires
        step.number() >= RequestStep::Write.number(),
    ensures
        step.turn(false) matches RequestTurn::Refuse { discard, .. } && discard,
{
}

/// The content of the request for a selected update.
pub fn update_request(selected: SelectedUpdate, created_at: String) -> (request: UpdateRequest)
    ensures
        request.target_version == selected.version,
        request.expected_archive_sha256 == selected.digest,
        request.created_at == created_at,
{
    UpdateRequest {
        target_version: selected.version,
        expected_archive_sha256: selected.digest,
        created_at,
    }
}

// ---------------------------------------------------------------------------------------------
// The status of an update.
// ---------------------------------------------------------------------------------------------

/// The compact text of the JSON value that a text writes, where it writes one.
pub uninterp spec fn json_text(text: Seq<char>) -> Option<Seq<char>>;

/// `from_str` of serde_json to its `Value`, and the `Display` of that value.
#[verifier::external_body]
fn parse_json(text: &str) -> (json: Option<String>)
    ensures
        text::text_view(json) == json_text(text@),
{
    let value = serde_json::from_str::<serde_json::Value>(text).ok()?;
    Some(value.to_string())
}

/// What is told of the update that was requested last.
#[derive(Debug)]
pub enum UpdateStatus {
    /// The updater has told nothing.
    Idle,
    /// What the updater told cannot be read.
    Unknown,
    /// The JSON value that the updater told.
    Told(String),
}

impl UpdateStatus {
    /// The text of the answer, with status 200.
    pub open spec fn text(self) -> Seq<char> {
        match self {
            UpdateStatus::Idle => "{\"status\":\"idle\"}"@,
            UpdateStatus::Unknown => "{\"status\":\"unknown\"}"@,
            UpdateStatus::Told(json) => json@,
        }
    }

    /// The text of the answer.
    pub fn body(self) -> (body: String)
        ensures
            body@ == self.text(),
    {
        match self {
            UpdateStatus::Idle => "{\"status\":\"idle\"}".to_owned(),
            UpdateStatus::Unknown => "{\"status\":\"unknown\"}".to_owned(),
            UpdateStatus::Told(json) => json,
        }
    }
}

/// What is told of an update, where the updater left a text and its JSON value is known.
pub fn told_status(left: bool, json: Option<String>) -> (status: UpdateStatus)
    ensures
        status == if !left {
            UpdateStatus::Idle
        } else {
            match json {
                Some(json) => UpdateStatus::Told(json),
                None => UpdateStatus::Unknown,
            }
        },
{
    if !left {
        return UpdateStatus::Idle;
    }
    match json {
        Some(json) => UpdateStatus::Told(json),
        None => UpdateStatus::Unknown,
    }
}

/// What is told of an update, from the text that the updater left.
pub fn status(read: Option<&str>) -> (told: UpdateStatus)
    ensures
        match read {
            None => told is Idle,
            Some(value) => match json_text(value@) {
                None => told is Unknown,
                Some(json) => told matches UpdateStatus::Told(value) && value@ == json,
            },
        },
{
    match read {
        Some(value) => told_status(true, parse_json(value)),
        None => told_status(false, None),
    }
}

/// The steps of a request, in their order.
pub open spec fn request_steps() -> Seq<RequestStep> {
    seq![
        RequestStep::Action,
        RequestStep::Exclusive,
        RequestStep::Idle,
        RequestStep::Releases,
        RequestStep::Candidate,
        RequestStep::Vacant,
        RequestStep::Directory,
        RequestStep::Encode,
        RequestStep::Write,
        RequestStep::Protect,
        RequestStep::Publish,
    ]
}

/// A step that succeeds leads to the next one. One that fails refuses the request, and the temporary
/// file is removed from the ninth step on, where it may have been written, and never before.
pub proof fn requests_go_step_by_step(at: int)
    requires
        0 <= at < 11,
    ensures
        at < 10 ==> request_steps()[at].turn(true) == RequestTurn::Next(request_steps()[at + 1]),
        at == 10 ==> request_steps()[at].turn(true) is Accepted,
        request_steps()[at].turn(false) is Refuse,
        request_steps()[at].turn(false)->discard <==> at >= 8,
{
}

/// A request that is refused tells why: what is in its way with 409, that GitHub cannot be asked with
/// 502, and what the server failed to do with 500.
pub proof fn refused_requests_are_told(step: RequestStep)
    ensures
        step.turn(false) is Refuse,
        step is Action ==> reply::says(
            step.turn(false)->reply,
            400,
            "JSON action header required."@,
        ),
        step is Exclusive ==> reply::says(
            step.turn(false)->reply,
            409,
            "Source synchronization is active; try the update again later."@,
        ),
        step is Idle ==> reply::says(
            step.turn(false)->reply,
            409,
            "An installation is active; wait before updating iPhoneLoadly."@,
        ),
        step is Releases ==> reply::says(
            step.turn(false)->reply,
            502,
            "Unable to resolve the official update."@,
        ),
        step is Candidate ==> reply::says(
            step.turn(false)->reply,
            409,
            "No newer verified official release is available."@,
        ),
        step is Vacant ==> reply::says(
            step.turn(false)->reply,
            409,
            "An update is already requested or running."@,
        ),
        step is Directory ==> reply::says(
            step.turn(false)->reply,
            500,
            "Unable to prepare the updater request."@,
        ),
        step is Encode ==> reply::says(
            step.turn(false)->reply,
            500,
            "Unable to serialize the updater request."@,
        ),
        step is Write || step is Publish ==> reply::says(
            step.turn(false)->reply,
            500,
            "Unable to queue the updater request."@,
        ),
        step is Protect ==> reply::says(
            step.turn(false)->reply,
            500,
            "Unable to secure the updater request."@,
        ),
{
}

/// The status of an update is told as JSON: its own, where the updater has told one.
pub proof fn statuses_are_told(json: String)
    ensures
        UpdateStatus::Idle.text() == "{\"status\":\"idle\"}"@,
        UpdateStatus::Unknown.text() == "{\"status\":\"unknown\"}"@,
        UpdateStatus::Told(json).text() == json@,
{
}

/// A release without the archive of its version, without the archive's checksum file, or whose
/// archive has no digest of sixty-four hexadecimal digits, vouches for nothing.
pub proof fn incomplete_releases_vouch_for_nothing(release: Release, version: Seq<char>)
    ensures
        (forall|i: int|
            0 <= i < release.assets@.len() ==> (#[trigger] release.assets@[i]).name@
                != "iphoneloadly-v"@ + version + "-linux-amd64.tar.gz"@) ==> vouched_digest(
            release,
            version,
        ) is None,
        (forall|i: int|
            0 <= i < release.assets@.len() ==> (#[trigger] release.assets@[i]).name@
                != "iphoneloadly-v"@ + version + "-linux-amd64.tar.gz"@ + ".sha256"@)
            ==> vouched_digest(release, version) is None,
        (forall|i: int|
            0 <= i < release.assets@.len() ==> (#[trigger] release.assets@[i]).digest is None)
            ==> vouched_digest(release, version) is None,
{
    let name = "iphoneloadly-v"@ + version + "-linux-amd64.tar.gz"@;
    if vouched_digest(release, version) is Some {
        let archive = lemma_named(release.assets@, name);
        let checksum = lemma_named(release.assets@, name + ".sha256"@);
        assert(release.assets@[archive].name@ == name);
        assert(release.assets@[checksum].name@ == name + ".sha256"@);
    }
}

} // verus!
