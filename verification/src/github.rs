//! Public GitHub repositories, their releases and the choice of an asset.
use crate::ipa::MAX_COMPRESSED_BYTES;
use crate::text;
use crate::version;
use crate::version::ReleaseVersion;
use reqwest::{StatusCode, Url};
use vstd::prelude::*;
use vstd::string::*;
use vstd::utf8::*;

verus! {

pub const GITHUB_API: &'static str = "https://api.github.com";

pub const OFFICIAL_OWNER: &'static str = "lemehavit";

pub const OFFICIAL_REPO: &'static str = "iPhoneLoadly";

/// A repository by its owner and its name.
#[derive(Debug, Clone)]
pub struct RepositoryRef {
    pub owner: String,
    pub repo: String,
}

#[derive(Debug)]
pub struct Release {
    pub id: i64,
    pub tag_name: String,
    pub name: String,
    pub draft: bool,
    pub prerelease: bool,
    pub published_at: Option<String>,
    pub assets: Vec<ReleaseAsset>,
}

#[derive(Debug)]
pub struct ReleaseAsset {
    pub id: i64,
    pub name: String,
    pub size: u64,
    pub digest: Option<String>,
    pub browser_download_url: String,
}

/// What an asset holds.
pub struct AssetView {
    pub id: int,
    pub name: Seq<char>,
    pub size: int,
    pub digest: Option<Seq<char>>,
    pub browser_download_url: Seq<char>,
}

/// What a release holds.
pub struct ReleaseView {
    pub id: int,
    pub tag_name: Seq<char>,
    pub name: Seq<char>,
    pub draft: bool,
    pub prerelease: bool,
    pub published_at: Option<Seq<char>>,
    pub assets: Seq<AssetView>,
}

impl View for ReleaseAsset {
    type V = AssetView;

    open spec fn view(&self) -> AssetView {
        AssetView {
            id: self.id as int,
            name: self.name@,
            size: self.size as int,
            digest: text::text_view(self.digest),
            browser_download_url: self.browser_download_url@,
        }
    }
}

impl View for Release {
    type V = ReleaseView;

    open spec fn view(&self) -> ReleaseView {
        ReleaseView {
            id: self.id as int,
            tag_name: self.tag_name@,
            name: self.name@,
            draft: self.draft,
            prerelease: self.prerelease,
            published_at: text::text_view(self.published_at),
            assets: asset_views(self.assets@),
        }
    }
}

pub open spec fn asset_views(assets: Seq<ReleaseAsset>) -> Seq<AssetView> {
    assets.map_values(|asset: ReleaseAsset| asset@)
}

impl Clone for ReleaseAsset {
    fn clone(&self) -> (copy: Self)
        ensures
            copy@ == self@,
    {
        ReleaseAsset {
            id: self.id,
            name: self.name.clone(),
            size: self.size,
            digest: match &self.digest {
                Some(digest) => Some(digest.clone()),
                None => None,
            },
            browser_download_url: self.browser_download_url.clone(),
        }
    }
}

impl Clone for Release {
    fn clone(&self) -> (copy: Self)
        ensures
            copy@ == self@,
    {
        let mut assets: Vec<ReleaseAsset> = Vec::new();
        let mut i: usize = 0;
        while i < self.assets.len()
            invariant
                i <= self.assets.len(),
                asset_views(assets@) == asset_views(self.assets@).take(i as int),
            decreases self.assets.len() - i,
        {
            let ghost earlier = assets@;
            assets.push(self.assets[i].clone());
            proof {
                assert(asset_views(assets@) == asset_views(earlier).push(self.assets@[i as int]@));
                assert(asset_views(self.assets@).take(i + 1) == asset_views(self.assets@).take(
                    i as int,
                ).push(self.assets@[i as int]@));
            }
            i = i + 1;
        }
        proof {
            assert(asset_views(self.assets@).take(i as int) == asset_views(self.assets@));
        }
        Release {
            id: self.id,
            tag_name: self.tag_name.clone(),
            name: self.name.clone(),
            draft: self.draft,
            prerelease: self.prerelease,
            published_at: match &self.published_at {
                Some(published) => Some(published.clone()),
                None => None,
            },
            assets,
        }
    }
}

/// Why a GitHub operation failed. `Http` carries the status that GitHub answered.
#[derive(Debug, Clone, Copy, PartialEq, Eq, Structural)]
pub enum GitHubError {
    InvalidRepository,
    InvalidPattern,
    Http(u16),
    InvalidResponse,
    TooLarge,
    InvalidDownloadUrl,
    NoMatchingAsset,
    AmbiguousAsset,
    InvalidVersion,
}

impl GitHubError {
    pub open spec fn text(self) -> Seq<char> {
        match self {
            GitHubError::InvalidRepository => {
                "repository must be a public canonical GitHub repository"@
            },
            GitHubError::InvalidPattern => {
                "asset pattern must not be empty and may contain only '*' wildcards"@
            },
            GitHubError::Http(status) => "GitHub request failed with status "@ + http_status_text(
                status,
            ),
            GitHubError::InvalidResponse => "GitHub response was invalid"@,
            GitHubError::TooLarge => "GitHub download exceeded the IPA size limit"@,
            GitHubError::InvalidDownloadUrl => {
                "GitHub download URL is not an allowed release asset URL"@
            },
            GitHubError::NoMatchingAsset => {
                "release has no eligible IPA asset matching the pattern"@
            },
            GitHubError::AmbiguousAsset => {
                "release has more than one eligible IPA asset matching the pattern"@
            },
            GitHubError::InvalidVersion => "release tag is not a valid version"@,
        }
    }

    /// The error as a sentence. GitHub answers with a status of three digits.
    pub fn message(self) -> (message: String)
        requires
            self matches GitHubError::Http(status) ==> 100 <= status <= 999,
        ensures
            message@ == self.text(),
    {
        match self {
            GitHubError::InvalidRepository => {
                "repository must be a public canonical GitHub repository".to_string()
            },
            GitHubError::InvalidPattern => {
                "asset pattern must not be empty and may contain only '*' wildcards".to_string()
            },
            GitHubError::Http(status) => {
                let mut message: String = "GitHub request failed with status ".to_string();
                let shown: String = status_text(status);
                message.append(shown.as_str());
                message
            },
            GitHubError::InvalidResponse => "GitHub response was invalid".to_string(),
            GitHubError::TooLarge => "GitHub download exceeded the IPA size limit".to_string(),
            GitHubError::InvalidDownloadUrl => {
                "GitHub download URL is not an allowed release asset URL".to_string()
            },
            GitHubError::NoMatchingAsset => {
                "release has no eligible IPA asset matching the pattern".to_string()
            },
            GitHubError::AmbiguousAsset => {
                "release has more than one eligible IPA asset matching the pattern".to_string()
            },
            GitHubError::InvalidVersion => "release tag is not a valid version".to_string(),
        }
    }
}

/// What `reqwest::StatusCode` displays for a status: its number and its reason.
pub uninterp spec fn http_status_text(status: u16) -> Seq<char>;

/// `StatusCode::from_u16`, which takes three digits, then the `Display` text of the status.
#[verifier::external_body]
fn status_text(status: u16) -> (text: String)
    requires
        100 <= status <= 999,
    ensures
        text@ == http_status_text(status),
{
    StatusCode::from_u16(status).map(|status| status.to_string()).unwrap_or_default()
}

pub open spec fn owner_char(c: char) -> bool {
    text::is_ascii_letter(c) || text::is_ascii_digit(c) || c == '-' || c == '_'
}

pub open spec fn repo_char(c: char) -> bool {
    owner_char(c) || c == '.'
}

pub open spec fn is_owner(owner: Seq<char>) -> bool {
    owner.len() > 0 && forall|i: int| 0 <= i < owner.len() ==> owner_char(#[trigger] owner[i])
}

pub open spec fn is_repo(repo: Seq<char>) -> bool {
    repo.len() > 0 && forall|i: int| 0 <= i < repo.len() ==> repo_char(#[trigger] repo[i])
}

/// The part of an address that names the repository: what follows `https://github.com/` without
/// one closing slash, or the whole text where it does not begin so.
pub open spec fn repository_path(text: Seq<char>) -> Seq<char> {
    match text::after_prefix(text, "https://github.com/"@) {
        Some(path) => if path.len() > 0 && path.last() == '/' {
            path.drop_last()
        } else {
            path
        },
        None => text,
    }
}

/// The input names the repository `owner/repo`, by itself or as an address on github.com.
pub open spec fn names_repository(input: Seq<char>, owner: Seq<char>, repo: Seq<char>) -> bool {
    let text = text::trimmed(input);
    &&& !text.contains('\0')
    &&& !text.contains('?')
    &&& !text.contains('#')
    &&& !text::begins_with(text, "http://"@)
    &&& is_owner(owner)
    &&& is_repo(repo)
    &&& repository_path(text) == owner.push('/') + repo
}

/// A pattern that may be matched against asset names.
pub open spec fn is_asset_pattern(pattern: Seq<char>) -> bool {
    &&& text::trimmed(pattern).len() > 0
    &&& forall|i: int|
        0 <= i < pattern.len() ==> !text::is_control(#[trigger] pattern[i]) && pattern[i] != '/'
            && pattern[i] != '\\'
}

/// The parts stand in the value one behind the other, the first at `from` or later.
pub open spec fn parts_follow(value: Seq<char>, parts: Seq<Seq<char>>, from: int) -> bool
    decreases parts.len(),
{
    parts.len() == 0 || exists|at: int|
        from <= at && #[trigger] text::occurs_at(value, parts[0], at) && parts_follow(
            value,
            parts.skip(1),
            at + parts[0].len(),
        )
}

/// A pattern without `*` matches its own text; else the text before the first `*` begins the
/// value, the text behind the last one ends it, and the texts between them follow one another
/// behind the beginning. The ending may overlap what stands before it. Letter case does not
/// count.
pub open spec fn wildcard_matches(pattern: Seq<char>, value: Seq<char>) -> bool {
    let parts = text::split_on(text::lowered(pattern), '*');
    let text = text::lowered(value);
    if parts.len() == 1 {
        text == text::lowered(pattern)
    } else {
        &&& text::begins_with(text, parts[0])
        &&& text::finishes_with(text, parts.last())
        &&& parts_follow(text, parts.subrange(1, parts.len() - 1), parts[0].len() as int)
    }
}

/// An asset that the pattern picks: an IPA whose name matches.
pub open spec fn is_matching_ipa(asset: ReleaseAsset, pattern: Seq<char>) -> bool {
    text::finishes_with(text::lowered(asset.name@), ".ipa"@) && wildcard_matches(pattern, asset.name@)
}

/// A release that may be offered.
pub open spec fn is_eligible(release: Release, include_prereleases: bool) -> bool {
    !release.draft && (include_prereleases || !release.prerelease)
}

/// The time of publication, empty where a release has none.
pub open spec fn published(release: Release) -> Seq<char> {
    match release.published_at {
        Some(text) => text@,
        None => Seq::empty(),
    }
}

/// Releases are ordered by their time of publication, then by their number.
pub open spec fn released_before(a: Release, b: Release) -> bool {
    text::text_less(published(a), published(b)) || (published(a) == published(b) && a.id < b.id)
}

/// The eligible release that no eligible one follows in time; of several such, the last.
pub open spec fn is_latest(releases: Seq<Release>, at: int, include_prereleases: bool) -> bool {
    &&& 0 <= at < releases.len()
    &&& is_eligible(releases[at], include_prereleases)
    &&& forall|i: int|
        0 <= i < releases.len() && is_eligible(#[trigger] releases[i], include_prereleases)
            ==> !released_before(releases[at], releases[i])
    &&& forall|i: int|
        at < i < releases.len() && is_eligible(#[trigger] releases[i], include_prereleases)
            ==> released_before(releases[i], releases[at])
}

/// The version that a tag writes, behind an optional leading `v`.
pub open spec fn tag_version(tag: Seq<char>) -> Seq<char> {
    match text::after_prefix(tag, "v"@) {
        Some(rest) => rest,
        None => tag,
    }
}

/// The order of releases is transitive where one of the two steps may be a tie.
proof fn released_before_at_most(a: Release, b: Release, c: Release)
    requires
        !released_before(b, a),
        !released_before(c, b),
    ensures
        !released_before(c, a),
{
    text::text_at_most_is_transitive(published(a), published(b), published(c));
    text::text_order_is_total(published(a), published(b));
    text::text_order_is_total(published(b), published(c));
    text::text_order_is_irreflexive(published(a));
    if published(a) == published(c) && published(a) != published(b) {
        text::text_order_is_transitive(published(a), published(b), published(c));
    }
}

proof fn released_before_is_strict(a: Release, b: Release)
    requires
        released_before(a, b),
    ensures
        !released_before(b, a),
{
    text::text_order_is_irreflexive(published(a));
    if text::text_less(published(a), published(b)) && text::text_less(published(b), published(a)) {
        text::text_order_is_transitive(published(a), published(b), published(a));
    }
}

/// Parts that follow one another behind a later position do so behind an earlier one.
proof fn parts_follow_from_earlier(value: Seq<char>, parts: Seq<Seq<char>>, early: int, late: int)
    requires
        early <= late,
        parts_follow(value, parts, late),
    ensures
        parts_follow(value, parts, early),
{
    if parts.len() > 0 {
        let at = choose|at: int|
            late <= at && #[trigger] text::occurs_at(value, parts[0], at) && parts_follow(
                value,
                parts.skip(1),
                at + parts[0].len(),
            );
        assert(text::occurs_at(value, parts[0], at));
    }
}

/// Taking the first occurrence of a part leaves at least as much room for the rest as any other.
proof fn first_occurrence_suffices(
    value: Seq<char>,
    parts: Seq<Seq<char>>,
    from: int,
    first: int,
)
    requires
        parts.len() > 0,
        from <= first,
        text::occurs_at(value, parts[0], first),
        forall|k: int| from <= k < first ==> !text::occurs_at(value, parts[0], k),
    ensures
        parts_follow(value, parts, from) == parts_follow(
            value,
            parts.skip(1),
            first + parts[0].len(),
        ),
{
    if parts_follow(value, parts, from) {
        let at = choose|at: int|
            from <= at && #[trigger] text::occurs_at(value, parts[0], at) && parts_follow(
                value,
                parts.skip(1),
                at + parts[0].len(),
            );
        assert(first <= at);
        parts_follow_from_earlier(
            value,
            parts.skip(1),
            first + parts[0].len(),
            at + parts[0].len(),
        );
    }
}

/// An address names at most one repository.
pub proof fn an_address_names_one_repository(
    input: Seq<char>,
    owner: Seq<char>,
    repo: Seq<char>,
    other_owner: Seq<char>,
    other_repo: Seq<char>,
)
    requires
        names_repository(input, owner, repo),
        names_repository(input, other_owner, other_repo),
    ensures
        owner == other_owner,
        repo == other_repo,
{
    let path = repository_path(text::trimmed(input));
    assert(path[owner.len() as int] == '/');
    assert(path[other_owner.len() as int] == '/');
    if owner.len() < other_owner.len() {
        assert(owner_char(other_owner[owner.len() as int]));
    }
    if other_owner.len() < owner.len() {
        assert(owner_char(owner[other_owner.len() as int]));
    }
    assert(owner == path.take(owner.len() as int));
    assert(other_owner == path.take(owner.len() as int));
    assert(repo == path.skip(owner.len() as int + 1));
    assert(other_repo == path.skip(owner.len() as int + 1));
}

proof fn lemma_addresses_name_it(owner: Seq<char>, repo: Seq<char>, closed: bool)
    requires
        is_owner(owner),
        is_repo(repo),
    ensures
        ({
            let address = "https://github.com/"@ + owner.push('/') + repo;
            names_repository(
                if closed {
                    address.push('/')
                } else {
                    address
                },
                owner,
                repo,
            )
        }),
{
    reveal_strlit("http://");
    reveal_strlit("https://github.com/");
    let prefix = "https://github.com/"@;
    let name = owner.push('/') + repo;
    let path = if closed {
        name.push('/')
    } else {
        name
    };
    let address = prefix + owner.push('/') + repo;
    let text = if closed {
        address.push('/')
    } else {
        address
    };
    assert(text == prefix + path);
    assert(prefix.len() == 19);
    assert forall|i: int| 0 <= i < path.len() implies (repo_char(path[i]) || path[i] == '/') by {
        if i < owner.len() {
            assert(path[i] == owner[i]);
            assert(owner_char(owner[i]));
        } else if owner.len() < i < name.len() {
            assert(path[i] == repo[i - owner.len() - 1]);
        }
    }
    assert forall|i: int| 0 <= i < text.len() implies text[i] != '\0' && text[i] != '?' && text[i]
        != '#' by {
        if i < 19 {
            assert(text[i] == prefix[i]);
        } else {
            assert(text[i] == path[i - 19]);
        }
    }
    assert(text[0] == 'h');
    assert(text.last() == path.last());
    assert(name.last() == repo.last());
    assert(repo_char(repo.last()));
    assert(text::trimmed(text) == text);
    assert(text[4] == 's');
    if text::begins_with(text, "http://"@) {
        assert(text.subrange(0, 7)[4] == ':');
    }
    assert(text.subrange(0, 19) == prefix);
    assert(text.skip(19) == path);
    if closed {
        assert(path.drop_last() == name);
    }
}

/// Naming is canonical: each form of a named repository names it again, the bare one and its address
/// with a slash behind it or without.
pub proof fn a_named_repository_names_itself(input: Seq<char>, owner: Seq<char>, repo: Seq<char>)
    requires
        names_repository(input, owner, repo),
    ensures
        names_repository(owner.push('/') + repo, owner, repo),
        names_repository("https://github.com/"@ + owner.push('/') + repo, owner, repo),
        names_repository(("https://github.com/"@ + owner.push('/') + repo).push('/'), owner, repo),
{
    lemma_addresses_name_it(owner, repo, false);
    lemma_addresses_name_it(owner, repo, true);
    lemma_bare_names_it(owner, repo);
}

proof fn lemma_bare_names_it(owner: Seq<char>, repo: Seq<char>)
    requires
        is_owner(owner),
        is_repo(repo),
    ensures
        names_repository(owner.push('/') + repo, owner, repo),
{
    let text = owner.push('/') + repo;
    let slash = owner.len() as int;
    assert forall|i: int| 0 <= i < text.len() implies (repo_char(text[i]) || i == slash) by {
        if i < slash {
            assert(text[i] == owner[i]);
            assert(owner_char(owner[i]));
        } else if i > slash {
            assert(text[i] == repo[i - slash - 1]);
        }
    }
    assert(text[slash] == '/');
    assert(text.last() == repo.last());
    assert(repo_char(repo.last()));
    assert(text::trimmed(text) == text);
    reveal_strlit("http://");
    reveal_strlit("https://github.com/");
    if text::begins_with(text, "http://"@) {
        assert(text.subrange(0, 7)[4] == ':');
        assert(text[4] == ':');
    }
    if text::begins_with(text, "https://github.com/"@) {
        assert(text.subrange(0, 19)[5] == ':');
        assert(text[5] == ':');
    }
}

/// Every repository of an owner of letters, digits, hyphens and underscores, whose own name may hold
/// dots too, is named by `owner/repo` and by its address on github.com, with a slash behind it or
/// without.
pub proof fn public_repositories_are_named(owner: Seq<char>, repo: Seq<char>)
    requires
        owner.len() > 0,
        repo.len() > 0,
        forall|i: int|
            0 <= i < owner.len() ==> {
                let c = #[trigger] owner[i];
                'a' <= c <= 'z' || 'A' <= c <= 'Z' || '0' <= c <= '9' || c == '-' || c == '_'
            },
        forall|i: int|
            0 <= i < repo.len() ==> {
                let c = #[trigger] repo[i];
                'a' <= c <= 'z' || 'A' <= c <= 'Z' || '0' <= c <= '9' || c == '-' || c == '_' || c
                    == '.'
            },
    ensures
        names_repository(owner.push('/') + repo, owner, repo),
        names_repository("https://github.com/"@ + owner.push('/') + repo, owner, repo),
        names_repository(("https://github.com/"@ + owner.push('/') + repo).push('/'), owner, repo),
{
    lemma_bare_names_it(owner, repo);
    lemma_addresses_name_it(owner, repo, false);
    lemma_addresses_name_it(owner, repo, true);
}

/// Nothing else names a repository: without the space around it, a text that does is `owner/repo` or
/// the address on github.com, and both names are made of the characters that GitHub allows.
pub proof fn only_public_repositories_are_named(
    input: Seq<char>,
    owner: Seq<char>,
    repo: Seq<char>,
    at: int,
)
    requires
        names_repository(input, owner, repo),
    ensures
        ({
            let text = text::trimmed(input);
            ||| text == owner.push('/') + repo
            ||| text == "https://github.com/"@ + (owner.push('/') + repo)
            ||| text == "https://github.com/"@ + (owner.push('/') + repo).push('/')
        }),
        owner.len() > 0,
        repo.len() > 0,
        0 <= at < owner.len() ==> {
            let c = owner[at];
            'a' <= c <= 'z' || 'A' <= c <= 'Z' || '0' <= c <= '9' || c == '-' || c == '_'
        },
        0 <= at < repo.len() ==> {
            let c = repo[at];
            'a' <= c <= 'z' || 'A' <= c <= 'Z' || '0' <= c <= '9' || c == '-' || c == '_' || c
                == '.'
        },
{
    let text = text::trimmed(input);
    let prefix = "https://github.com/"@;
    let name = owner.push('/') + repo;
    if text::begins_with(text, prefix) {
        let path = text.skip(prefix.len() as int);
        assert(text == prefix + path);
        if path.len() > 0 && path.last() == '/' {
            assert(path == path.drop_last().push('/'));
        }
    }
}

/// A pattern is accepted exactly where it is more than white space and holds neither a control
/// character nor a slash of either kind.
pub proof fn patterns_are_plain(pattern: Seq<char>, at: int)
    ensures
        is_asset_pattern(pattern) && 0 <= at < pattern.len() ==> pattern[at] != '/' && pattern[at]
            != '\\' && pattern[at] > '\u{1f}' && !('\u{7f}' <= pattern[at] <= '\u{9f}'),
        is_asset_pattern(pattern) ==> text::trimmed(pattern).len() > 0,
        text::trimmed(pattern).len() > 0 && (forall|i: int|
            0 <= i < pattern.len() ==> {
                let c = #[trigger] pattern[i];
                c != '/' && c != '\\' && c > '\u{1f}' && !('\u{7f}' <= c <= '\u{9f}')
            }) ==> is_asset_pattern(pattern),
{
}

proof fn lemma_lowered_parts(parts: Seq<Seq<char>>, lower: Seq<Seq<char>>)
    requires
        parts.len() > 0,
        lower.len() == parts.len(),
        forall|i: int| 0 <= i < parts.len() ==> #[trigger] lower[i] == text::lowered(parts[i]),
    ensures
        text::lowered(text::joined(parts, '*')) == text::joined(lower, '*'),
    decreases parts.len(),
{
    if parts.len() > 1 {
        let (before, low) = (parts.drop_last(), lower.drop_last());
        assert forall|i: int| 0 <= i < before.len() implies #[trigger] low[i] == text::lowered(
            before[i],
        ) by {
            assert(lower[i] == text::lowered(parts[i]));
        }
        lemma_lowered_parts(before, low);
        assert(lower[lower.len() - 1] == text::lowered(parts[parts.len() - 1]));
        let front = text::joined(before, '*');
        assert(text::lowered(front.push('*') + parts.last()) =~= text::lowered(front).push('*')
            + text::lowered(parts.last()));
    } else {
        assert(lower[0] == text::lowered(parts[0]));
    }
}

proof fn lemma_pattern_parts(parts: Seq<Seq<char>>, lower: Seq<Seq<char>>)
    requires
        parts.len() > 0,
        lower.len() == parts.len(),
        forall|i: int| 0 <= i < parts.len() ==> #[trigger] lower[i] == text::lowered(parts[i]),
        forall|i: int| 0 <= i < parts.len() ==> !(#[trigger] parts[i]).contains('*'),
    ensures
        text::split_on(text::lowered(text::joined(parts, '*')), '*') == lower,
{
    lemma_lowered_parts(parts, lower);
    assert forall|i: int| 0 <= i < lower.len() implies !(#[trigger] lower[i]).contains('*') by {
        assert(lower[i] == text::lowered(parts[i]));
        if lower[i].contains('*') {
            let k = choose|k: int| 0 <= k < lower[i].len() && lower[i][k] == '*';
            assert(parts[i][k] == '*');
            assert(parts[i].contains('*'));
        }
    }
    text::splitting_undoes_joining(lower, '*');
}

/// A pattern without a star matches its own text alone, whatever the case of its letters.
pub proof fn plain_patterns_match_themselves(pattern: Seq<char>, value: Seq<char>)
    requires
        !pattern.contains('*'),
    ensures
        wildcard_matches(pattern, value) <==> text::lowered(pattern) == text::lowered(value),
{
    let parts = seq![pattern];
    lemma_pattern_parts(parts, seq![text::lowered(pattern)]);
    assert(text::joined(parts, '*') == pattern);
}

/// A star stands for any text: a pattern with one matches exactly the texts that begin as it does
/// before the star and end as it does behind it, whatever the case of their letters.
pub proof fn a_star_stands_for_any_text(front: Seq<char>, back: Seq<char>, value: Seq<char>)
    requires
        !front.contains('*'),
        !back.contains('*'),
    ensures
        wildcard_matches(front.push('*') + back, value) <==> text::begins_with(
            text::lowered(value),
            text::lowered(front),
        ) && text::finishes_with(text::lowered(value), text::lowered(back)),
        wildcard_matches(front.push('*') + back, front + value + back),
        wildcard_matches("*"@, value),
{
    let parts = seq![front, back];
    let lower = seq![text::lowered(front), text::lowered(back)];
    lemma_pattern_parts(parts, lower);
    assert(parts.drop_last() == seq![front]);
    assert(text::joined(seq![front], '*') == front);
    assert(text::joined(parts, '*') == front.push('*') + back);
    assert(lower.subrange(1, 1) == Seq::<Seq<char>>::empty());
    let whole = front + value + back;
    let low = text::lowered(whole);
    assert(low.subrange(0, front.len() as int) =~= text::lowered(front));
    assert(low.subrange(low.len() - back.len(), low.len() as int) =~= text::lowered(back));
    reveal_strlit("*");
    let none = Seq::<char>::empty();
    let empty = seq![none, none];
    assert(text::lowered(none) =~= none);
    lemma_pattern_parts(empty, empty);
    assert(empty.drop_last() == seq![none]);
    assert(text::joined(seq![none], '*') == none);
    assert(text::joined(empty, '*') =~= "*"@);
    assert(empty.subrange(1, 1) == Seq::<Seq<char>>::empty());
    let told = text::lowered(value);
    assert(told.subrange(0, 0) =~= none);
    assert(told.subrange(told.len() as int, told.len() as int) =~= none);
}

/// With two stars the text between them stands anywhere between the beginning and the end.
pub proof fn stars_leave_the_middle_free(
    front: Seq<char>,
    middle: Seq<char>,
    back: Seq<char>,
    one: Seq<char>,
    two: Seq<char>,
)
    requires
        !front.contains('*'),
        !middle.contains('*'),
        !back.contains('*'),
    ensures
        wildcard_matches(
            front.push('*') + middle.push('*') + back,
            front + one + middle + two + back,
        ),
{
    let parts = seq![front, middle, back];
    let lower = seq![text::lowered(front), text::lowered(middle), text::lowered(back)];
    lemma_pattern_parts(parts, lower);
    assert(parts.drop_last() == seq![front, middle]);
    assert(seq![front, middle].drop_last() == seq![front]);
    assert(text::joined(seq![front], '*') == front);
    assert(text::joined(seq![front, middle], '*') == front.push('*') + middle);
    assert(text::joined(parts, '*') =~= front.push('*') + middle.push('*') + back);
    let whole = front + one + middle + two + back;
    let low = text::lowered(whole);
    let between = lower.subrange(1, 2);
    assert(between == seq![text::lowered(middle)]);
    let at = (front.len() + one.len()) as int;
    assert(low.subrange(0, front.len() as int) =~= text::lowered(front));
    assert(low.subrange(low.len() - back.len(), low.len() as int) =~= text::lowered(back));
    assert(low.subrange(at, at + middle.len()) =~= text::lowered(middle));
    assert(text::occurs_at(low, between[0], at));
    assert(between.skip(1) == Seq::<Seq<char>>::empty());
    assert(parts_follow(low, between.skip(1), at + between[0].len()));
}

/// Letter case counts neither in a pattern nor in a name.
pub proof fn letter_case_does_not_count(
    pattern: Seq<char>,
    other_pattern: Seq<char>,
    value: Seq<char>,
    other_value: Seq<char>,
)
    requires
        text::lowered(pattern) == text::lowered(other_pattern),
        text::lowered(value) == text::lowered(other_value),
    ensures
        wildcard_matches(pattern, value) == wildcard_matches(other_pattern, other_value),
{
}

/// An asset is an IPA exactly where its name ends in `.ipa`, in letters of either case; the pattern
/// decides among these.
pub proof fn ipas_are_known_by_their_names(asset: ReleaseAsset, base: Seq<char>, ending: Seq<char>)
    requires
        asset.name@ == base + ending,
        ending.len() == 4,
    ensures
        is_matching_ipa(asset, "*"@) <==> text::lowered(ending) == ".ipa"@,
        is_matching_ipa(asset, asset.name@) && !asset.name@.contains('*') ==> text::lowered(ending)
            == ".ipa"@,
{
    reveal_strlit(".ipa");
    a_star_stands_for_any_text(Seq::empty(), Seq::empty(), asset.name@);
    let low = text::lowered(asset.name@);
    assert(low.subrange(low.len() - 4, low.len() as int) =~= text::lowered(ending));
}

/// A release is matched by what it holds: where one asset matches it is picked, with none there is
/// nothing to pick, and with two the pattern is ambiguous.
pub proof fn one_matching_asset_is_picked(
    release: Release,
    pattern: Seq<char>,
    result: Result<ReleaseAsset, GitHubError>,
    one: int,
    two: int,
)
    requires
        is_match(release, pattern, result),
        is_asset_pattern(pattern),
        0 <= one < release.assets@.len(),
        is_matching_ipa(release.assets@[one], pattern),
    ensures
        (forall|i: int|
            0 <= i < release.assets@.len() && i != one ==> !is_matching_ipa(
                #[trigger] release.assets@[i],
                pattern,
            )) ==> result == Ok::<ReleaseAsset, GitHubError>(release.assets@[one]),
        0 <= two < release.assets@.len() && two != one && is_matching_ipa(
            release.assets@[two],
            pattern,
        ) ==> result == Err::<ReleaseAsset, GitHubError>(GitHubError::AmbiguousAsset),
{
    if result is Ok {
        let at = choose|at: int| #[trigger]
            picks(release, pattern, at) && release.assets@[at] == result->Ok_0;
        assert(at == one);
    }
}

/// Where nothing matches, or the pattern is none, nothing is picked.
pub proof fn nothing_is_picked_without_a_match(
    release: Release,
    pattern: Seq<char>,
    result: Result<ReleaseAsset, GitHubError>,
)
    requires
        is_match(release, pattern, result),
        forall|i: int|
            0 <= i < release.assets@.len() ==> !is_matching_ipa(
                #[trigger] release.assets@[i],
                pattern,
            ),
    ensures
        is_asset_pattern(pattern) ==> result == Err::<ReleaseAsset, GitHubError>(
            GitHubError::NoMatchingAsset,
        ),
        !is_asset_pattern(pattern) ==> result == Err::<ReleaseAsset, GitHubError>(
            GitHubError::InvalidPattern,
        ),
{
}

/// The latest release is the one that was published last among those that may be offered: a draft
/// never is, and a pre-release only where they are included. Of releases that were published at the
/// same time the one with the greater number is later.
pub proof fn the_latest_release_was_published_last(
    releases: Seq<Release>,
    latest: int,
    other: int,
    include_prereleases: bool,
)
    requires
        is_latest(releases, latest, include_prereleases),
        0 <= other < releases.len(),
        !releases[other].draft,
        include_prereleases || !releases[other].prerelease,
    ensures
        !releases[latest].draft,
        include_prereleases || !releases[latest].prerelease,
        releases[other].published_at is Some && releases[latest].published_at is Some
            ==> !text::text_less(
            releases[latest].published_at->0@,
            releases[other].published_at->0@,
        ),
        releases[other].published_at is Some && releases[latest].published_at is Some
            && releases[other].published_at->0@ == releases[latest].published_at->0@
            ==> releases[other].id <= releases[latest].id,
{
}

/// The version of a tag stands behind its `v`, or is the tag itself where it has none.
pub proof fn tags_write_versions(version: Seq<char>)
    ensures
        tag_version("v"@ + version) == version,
        version.len() == 0 || version[0] != 'v' ==> tag_version(version) == version,
{
    reveal_strlit("v");
    assert(("v"@ + version).subrange(0, 1) == "v"@);
    assert(("v"@ + version).skip(1) == version);
    if text::begins_with(version, "v"@) {
        assert(version.subrange(0, 1)[0] == 'v');
    }
}

/// Releases are read from GitHub's interface, from the repository that is asked for.
pub proof fn releases_are_read_from_github(owner: Seq<char>, repo: Seq<char>)
    ensures
        text::begins_with(
            releases_address(owner, repo),
            "https://api.github.com/repos/"@ + owner + "/"@ + repo + "/releases"@,
        ),
{
    reveal_strlit("https://api.github.com");
    reveal_strlit("https://api.github.com/repos/");
    reveal_strlit("/repos/");
    reveal_strlit("/releases");
    reveal_strlit("/releases?per_page=100");
    let start = "https://api.github.com/repos/"@ + owner + "/"@ + repo + "/releases"@;
    assert(GITHUB_API@ + "/repos/"@ =~= "https://api.github.com/repos/"@);
    assert("/releases?per_page=100"@.subrange(0, 9) =~= "/releases"@);
    assert(releases_address(owner, repo).subrange(0, start.len() as int) =~= start);
}

/// Downloads lead to GitHub only: every host that one may be redirected to is github.com, or lies
/// under it or under the domain of its contents.
pub proof fn redirects_stay_on_github(host: Seq<char>)
    requires
        is_github_host(host),
    ensures
        host == "github.com"@ || text::finishes_with(host, ".github.com"@) || text::finishes_with(
            host,
            ".githubusercontent.com"@,
        ),
{
    reveal_strlit("api.github.com");
    reveal_strlit(".github.com");
    reveal_strlit("objects.githubusercontent.com");
    reveal_strlit("release-assets.githubusercontent.com");
    reveal_strlit(".githubusercontent.com");
    assert("api.github.com"@.subrange(3, 14) =~= ".github.com"@);
    assert("objects.githubusercontent.com"@.subrange(7, 29) =~= ".githubusercontent.com"@);
    assert("release-assets.githubusercontent.com"@.subrange(14, 36) =~= ".githubusercontent.com"@);
}

/// A download may be of two gibibytes and no more, however it is cut into chunks.
pub proof fn downloads_are_limited(chunks: Seq<u64>, status: u16)
    ensures
        after_chunks(chunks) is Some <==> chunk_total(chunks) <= 2_147_483_648,
        is_success(status) <==> 200 <= status < 300,
{
    downloads_stop_at_the_limit(chunks);
}

fn is_owner_char(c: char) -> (result: bool)
    ensures
        result == owner_char(c),
{
    ('a' <= c && c <= 'z') || ('A' <= c && c <= 'Z') || ('0' <= c && c <= '9') || c == '-' || c
        == '_'
}

/// The repository that an input names.
pub fn parse_public_repository(input: &str) -> (result: Result<RepositoryRef, GitHubError>)
    ensures
        match result {
            Ok(repository) => names_repository(input@, repository.owner@, repository.repo@),
            Err(error) => error == GitHubError::InvalidRepository && forall|
                owner: Seq<char>,
                repo: Seq<char>,
            |
                !names_repository(input@, owner, repo),
        },
{
    let text: &str = text::trim(input);
    let chars: Vec<char> = text::chars_of(text);
    if text::holds(&chars, '\0') || text::starts_with(&chars, "http://") || text::holds(&chars, '?') || text::holds(
        &chars,
        '#',
    ) {
        return Err(GitHubError::InvalidRepository);
    }
    let path: &str = match text::strip_prefix(text, "https://github.com/") {
        Some(path) => {
            let length: usize = path.unicode_len();
            if length > 0 && path.get_char(length - 1) == '/' {
                let shorter: &str = path.substring_char(0, length - 1);
                proof {
                    assert(shorter@ == path@.drop_last());
                }
                shorter
            } else {
                path
            }
        },
        None => text,
    };
    let letters: Vec<char> = text::chars_of(path);
    proof {
        assert(letters@ == repository_path(text::trimmed(input@)));
    }
    let mut slash: usize = 0;
    while slash < letters.len() && is_owner_char(letters[slash])
        invariant
            slash <= letters.len(),
            forall|i: int| 0 <= i < slash ==> owner_char(#[trigger] letters@[i]),
        decreases letters.len() - slash,
    {
        slash = slash + 1;
    }
    proof {
        assert forall|owner: Seq<char>, repo: Seq<char>|
            names_repository(input@, owner, repo) implies slash == owner.len() && slash
            < letters.len() by {
            let whole = owner.push('/') + repo;
            assert(whole[owner.len() as int] == '/');
            if slash < owner.len() {
                assert(letters@[slash as int] == owner[slash as int]);
            } else if slash > owner.len() {
                assert(owner_char(letters@[owner.len() as int]));
            }
        }
    }
    if slash == 0 || slash >= letters.len() || letters[slash] != '/' || slash + 1 == letters.len() {
        proof {
            assert forall|owner: Seq<char>, repo: Seq<char>|
                !names_repository(input@, owner, repo) by {
                if names_repository(input@, owner, repo) {
                    let whole = owner.push('/') + repo;
                    assert(whole[slash as int] == '/');
                    assert(whole.len() > slash + 1);
                }
            }
        }
        return Err(GitHubError::InvalidRepository);
    }
    let mut at: usize = slash + 1;
    while at < letters.len()
        invariant
            slash < at <= letters.len(),
            letters@ == repository_path(text::trimmed(input@)),
            forall|i: int| slash < i < at ==> repo_char(#[trigger] letters@[i]),
            forall|owner: Seq<char>, repo: Seq<char>|
                names_repository(input@, owner, repo) ==> slash == owner.len(),
        decreases letters.len() - at,
    {
        let c: char = letters[at];
        if !is_owner_char(c) && c != '.' {
            proof {
                assert forall|owner: Seq<char>, repo: Seq<char>|
                    !names_repository(input@, owner, repo) by {
                    if names_repository(input@, owner, repo) {
                        assert((owner.push('/') + repo)[at as int] == repo[at - slash - 1]);
                        assert(repo_char(repo[at - slash - 1]));
                    }
                }
            }
            return Err(GitHubError::InvalidRepository);
        }
        at = at + 1;
    }
    let owner: &str = path.substring_char(0, slash);
    let repo: &str = path.substring_char(slash + 1, letters.len());
    proof {
        assert(owner@.push('/') + repo@ == letters@);
        assert forall|i: int| 0 <= i < owner@.len() implies owner_char(#[trigger] owner@[i]) by {
            assert(owner@[i] == letters@[i]);
        }
        assert forall|i: int| 0 <= i < repo@.len() implies repo_char(#[trigger] repo@[i]) by {
            assert(repo@[i] == letters@[i + slash + 1]);
        }
    }
    Ok(RepositoryRef { owner: owner.to_owned(), repo: repo.to_owned() })
}

/// Accepts a pattern that is not blank and holds no control character and no path separator.
pub fn validate_asset_pattern(pattern: &str) -> (result: Result<(), GitHubError>)
    ensures
        result == if is_asset_pattern(pattern@) {
            Ok::<(), GitHubError>(())
        } else {
            Err(GitHubError::InvalidPattern)
        },
{
    if text::trim(pattern).is_empty() {
        return Err(GitHubError::InvalidPattern);
    }
    let chars: Vec<char> = text::chars_of(pattern);
    let mut i: usize = 0;
    while i < chars.len()
        invariant
            i <= chars.len(),
            chars@ == pattern@,
            forall|k: int|
                0 <= k < i ==> !text::is_control(#[trigger] chars@[k]) && chars@[k] != '/' && chars@[k]
                    != '\\',
        decreases chars.len() - i,
    {
        let c: char = chars[i];
        if c <= '\u{1f}' || ('\u{7f}' <= c && c <= '\u{9f}') || c == '/' || c == '\\' {
            proof {
                assert(text::is_control(pattern@[i as int]) || pattern@[i as int] == '/'
                    || pattern@[i as int] == '\\');
            }
            return Err(GitHubError::InvalidPattern);
        }
        i = i + 1;
    }
    Ok(())
}

/// Whether a value matches a pattern.
pub fn wildcard_match(pattern: &str, value: &str) -> (matched: bool)
    ensures
        matched == wildcard_matches(pattern@, value@),
{
    let pattern_text: Vec<char> = text::lowercase(pattern);
    let text: Vec<char> = text::lowercase(value);
    let parts: Vec<Vec<char>> = text::split(&pattern_text, '*');
    let ghost views = text::split_on(text::lowered(pattern@), '*');
    let count: usize = parts.len();
    if count == 1 {
        proof {
            text::joining_undoes_splitting(text::lowered(pattern@), '*');
            assert(views[0] == text::lowered(pattern@));
        }
        let whole: bool = text.len() == parts[0].len() && text::part_at(&text, &parts[0], 0);
        proof {
            assert(parts@[0]@ == views[0]);
            assert(text@.subrange(0, text@.len() as int) == text@);
        }
        return whole;
    }
    proof {
        assert(parts@[0]@ == views[0]);
        assert(parts@[count - 1]@ == views[count - 1]);
    }
    if !text::part_at(&text, &parts[0], 0) || !text::ends_with(&text, &parts[count - 1]) {
        return false;
    }
    let ghost between = views.subrange(1, count - 1);
    let mut from: usize = parts[0].len();
    let mut i: usize = 1;
    proof {
        assert(between.skip(0) == between);
    }
    while i < count - 1
        invariant
            1 <= i <= count - 1,
            count == parts.len(),
            text::char_views(parts@) == views,
            between == views.subrange(1, count - 1),
            from <= text.len(),
            wildcard_matches(pattern@, value@) == parts_follow(
                text@,
                between.skip(i - 1),
                from as int,
            ),
        decreases count - i,
    {
        let ghost rest = between.skip(i - 1);
        proof {
            assert(rest[0] == parts@[i as int]@);
        }
        match text::find_from(&text, &parts[i], from) {
            Some(at) => {
                proof {
                    first_occurrence_suffices(text@, rest, from as int, at as int);
                    assert(rest.skip(1) == between.skip(i as int));
                }
                from = at + parts[i].len();
            },
            None => {
                proof {
                    assert(!parts_follow(text@, rest, from as int));
                }
                return false;
            },
        }
        i = i + 1;
    }
    true
}

fn is_ipa_match(asset: &ReleaseAsset, pattern: &str) -> (result: bool)
    ensures
        result == is_matching_ipa(*asset, pattern@),
{
    let suffix: Vec<char> = text::chars_of(".ipa");
    let name: Vec<char> = text::lowercase(asset.name.as_str());
    text::ends_with(&name, &suffix) && wildcard_match(pattern, asset.name.as_str())
}

/// The asset at a position is the one that the pattern picks.
pub open spec fn picks(release: Release, pattern: Seq<char>, at: int) -> bool {
    &&& is_asset_pattern(pattern)
    &&& 0 <= at < release.assets@.len()
    &&& is_matching_ipa(release.assets@[at], pattern)
    &&& forall|j: int|
        0 <= j < release.assets@.len() && j != at ==> !is_matching_ipa(
            #[trigger] release.assets@[j],
            pattern,
        )
}

/// What matching a pattern against a release comes to: the one asset that it picks, or the error
/// of a pattern that is none, that picks nothing, or that picks more than one.
pub open spec fn is_match(
    release: Release,
    pattern: Seq<char>,
    result: Result<ReleaseAsset, GitHubError>,
) -> bool {
    match result {
        Ok(asset) => exists|at: int| #[trigger]
            picks(release, pattern, at) && release.assets@[at] == asset,
        Err(GitHubError::InvalidPattern) => !is_asset_pattern(pattern),
        Err(GitHubError::NoMatchingAsset) => is_asset_pattern(pattern) && forall|j: int|
            0 <= j < release.assets@.len() ==> !is_matching_ipa(
                #[trigger] release.assets@[j],
                pattern,
            ),
        Err(GitHubError::AmbiguousAsset) => is_asset_pattern(pattern) && exists|i: int, j: int|
            {
                &&& 0 <= i < j < release.assets@.len()
                &&& is_matching_ipa(#[trigger] release.assets@[i], pattern)
                &&& is_matching_ipa(#[trigger] release.assets@[j], pattern)
            },
        Err(_) => false,
    }
}

/// The one IPA of a release that the pattern picks.
pub fn match_ipa_asset<'a>(release: &'a Release, pattern: &str) -> (result: Result<
    &'a ReleaseAsset,
    GitHubError,
>)
    ensures
        is_match(
            *release,
            pattern@,
            match result {
                Ok(asset) => Ok(*asset),
                Err(error) => Err(error),
            },
        ),
{
    match validate_asset_pattern(pattern) {
        Ok(()) => {},
        Err(error) => {
            return Err(error);
        },
    }
    let mut found: Option<usize> = None;
    let mut i: usize = 0;
    while i < release.assets.len()
        invariant
            i <= release.assets.len(),
            is_asset_pattern(pattern@),
            match found {
                Some(at) => {
                    &&& at < i
                    &&& is_matching_ipa(release.assets@[at as int], pattern@)
                    &&& forall|j: int|
                        0 <= j < i && j != at ==> !is_matching_ipa(
                            #[trigger] release.assets@[j],
                            pattern@,
                        )
                },
                None => forall|j: int|
                    0 <= j < i ==> !is_matching_ipa(#[trigger] release.assets@[j], pattern@),
            },
        decreases release.assets.len() - i,
    {
        if is_ipa_match(&release.assets[i], pattern) {
            if found.is_some() {
                return Err(GitHubError::AmbiguousAsset);
            }
            found = Some(i);
        }
        i = i + 1;
    }
    match found {
        Some(at) => {
            proof {
                assert(picks(*release, pattern@, at as int));
            }
            Ok(&release.assets[at])
        },
        None => Err(GitHubError::NoMatchingAsset),
    }
}

fn is_released_before(a: &Release, b: &Release) -> (result: bool)
    ensures
        result == released_before(*a, *b),
{
    let first: &str = match &a.published_at {
        Some(text) => text.as_str(),
        None => "",
    };
    let second: &str = match &b.published_at {
        Some(text) => text.as_str(),
        None => "",
    };
    proof {
        reveal_strlit("");
        assert(""@ == Seq::<char>::empty());
    }
    text::comes_before(first, second) || (text::same_text(first, second) && a.id < b.id)
}

/// The latest release that may be offered.
pub fn latest_eligible_release(releases: &[Release], include_prereleases: bool) -> (result: Option<
    Release,
>)
    ensures
        match result {
            Some(release) => exists|at: int| #[trigger]
                is_latest(releases@, at, include_prereleases) && release@ == releases@[at]@,
            None => forall|i: int|
                0 <= i < releases@.len() ==> !is_eligible(
                    #[trigger] releases@[i],
                    include_prereleases,
                ),
        },
{
    let mut best: Option<usize> = None;
    let mut i: usize = 0;
    while i < releases.len()
        invariant
            i <= releases.len(),
            match best {
                Some(at) => at < i && is_latest(
                    releases@.take(i as int),
                    at as int,
                    include_prereleases,
                ),
                None => forall|j: int|
                    0 <= j < i ==> !is_eligible(#[trigger] releases@[j], include_prereleases),
            },
        decreases releases.len() - i,
    {
        let ghost seen = releases@.take(i as int);
        let ghost more = releases@.take(i + 1);
        proof {
            assert(forall|j: int| 0 <= j < i ==> #[trigger] more[j] == seen[j]);
            assert(more[i as int] == releases@[i as int]);
        }
        let release: &Release = &releases[i];
        if !release.draft && (include_prereleases || !release.prerelease) {
            match best {
                Some(at) => {
                    if !is_released_before(release, &releases[at]) {
                        proof {
                            assert forall|j: int|
                                0 <= j < more.len() && is_eligible(
                                    #[trigger] more[j],
                                    include_prereleases,
                                ) implies !released_before(more[i as int], more[j]) by {
                                if j < i {
                                    assert(!released_before(seen[at as int], seen[j]));
                                    released_before_at_most(
                                        more[j],
                                        more[at as int],
                                        more[i as int],
                                    );
                                } else {
                                    text::text_order_is_irreflexive(published(more[i as int]));
                                }
                            }
                        }
                        best = Some(i);
                    } else {
                        proof {
                            released_before_is_strict(more[i as int], more[at as int]);
                        }
                    }
                },
                None => {
                    proof {
                        text::text_order_is_irreflexive(published(more[i as int]));
                        assert(forall|j: int|
                            0 <= j < i ==> !is_eligible(#[trigger] more[j], include_prereleases));
                    }
                    best = Some(i);
                },
            }
        }
        i = i + 1;
    }
    proof {
        assert(releases@.take(i as int) == releases@);
    }
    match best {
        Some(at) => Some(releases[at].clone()),
        None => None,
    }
}

/// The latest release that may be offered, or the error of a repository without one.
pub fn latest_release(releases: &[Release], include_prereleases: bool) -> (result: Result<
    Release,
    GitHubError,
>)
    ensures
        match result {
            Ok(release) => exists|at: int| #[trigger]
                is_latest(releases@, at, include_prereleases) && release@ == releases@[at]@,
            Err(error) => error == GitHubError::NoMatchingAsset && forall|i: int|
                0 <= i < releases@.len() ==> !is_eligible(
                    #[trigger] releases@[i],
                    include_prereleases,
                ),
        },
{
    match latest_eligible_release(releases, include_prereleases) {
        Some(release) => Ok(release),
        None => Err(GitHubError::NoMatchingAsset),
    }
}

/// The repository that iPhoneLoadly itself is released from.
pub fn official_repository() -> (repository: RepositoryRef)
    ensures
        repository.owner@ == OFFICIAL_OWNER@,
        repository.repo@ == OFFICIAL_REPO@,
{
    RepositoryRef { owner: OFFICIAL_OWNER.to_owned(), repo: OFFICIAL_REPO.to_owned() }
}

/// The version that a release tag writes.
pub fn official_version(tag: &str) -> (result: Result<ReleaseVersion, GitHubError>)
    ensures
        match result {
            Ok(version) => {
                &&& version::semver_rank(tag_version(tag@)) is Some
                &&& version.text@ == tag_version(tag@)
                &&& version.prerelease == version::marks_prerelease(tag_version(tag@))
            },
            Err(error) => error == GitHubError::InvalidVersion && version::semver_rank(
                tag_version(tag@),
            ) is None,
        },
{
    let text: &str = match text::strip_prefix(tag, "v") {
        Some(rest) => rest,
        None => tag,
    };
    match ReleaseVersion::parse(text) {
        Some(version) => Ok(version),
        None => Err(GitHubError::InvalidVersion),
    }
}

/// The normal form of an absolute URL, as `Url::parse` and `Url::as_str` give it; nothing for a
/// text that is none.
pub uninterp spec fn url_normal_form(text: Seq<char>) -> Option<Seq<char>>;

/// The normal form of a URL with path segments added, as `PathSegmentsMut::extend` and
/// `Url::as_str` give it; nothing where the base is no URL with a path.
pub uninterp spec fn url_with_segments(base: Seq<char>, segments: Seq<Seq<char>>) -> Option<
    Seq<char>,
>;

/// `reqwest::Url::parse`, then the text of the URL. Two URLs are equal exactly if their texts are.
#[verifier::external_body]
fn normalize_url(text: &str) -> (normal: Option<String>)
    ensures
        text::text_view(normal) == url_normal_form(text@),
{
    Url::parse(text).ok().map(|url| url.as_str().to_owned())
}

pub open spec fn str_views(texts: Seq<&str>) -> Seq<Seq<char>> {
    texts.map_values(|text: &str| text@)
}

/// The bytes of all segments together.
pub open spec fn segment_bytes(segments: Seq<&str>) -> nat
    decreases segments.len(),
{
    if segments.len() == 0 {
        0
    } else {
        segment_bytes(segments.drop_last()) + segments.last().spec_bytes().len()
    }
}

/// `Url::path_segments_mut` on the parsed base, then `PathSegmentsMut::extend` with the segments.
/// A URL of more than four gibibytes panics there; each byte of a segment becomes at most three.
#[verifier::external_body]
fn extend_url(base: &str, segments: Vec<&str>) -> (extended: Option<String>)
    requires
        base.spec_bytes().len() <= 100,
        segments@.len() <= 100,
        segment_bytes(segments@) <= 1_400_000_000,
    ensures
        text::text_view(extended) == url_with_segments(base@, str_views(segments@)),
{
    let mut url = Url::parse(base).ok()?;
    url.path_segments_mut().ok()?.extend(segments);
    Some(url.as_str().to_owned())
}

/// The path of a release asset on github.com.
pub open spec fn asset_segments(
    repository: RepositoryRef,
    release: Release,
    asset: ReleaseAsset,
) -> Seq<Seq<char>> {
    seq![
        repository.owner@,
        repository.repo@,
        "releases"@,
        "download"@,
        release.tag_name@,
        asset.name@,
    ]
}

/// The URL that an asset may be downloaded from: its own, where that is the address that
/// github.com gives to an asset of that name, release and repository.
pub fn asset_download_url(
    repository: &RepositoryRef,
    release: &Release,
    asset: &ReleaseAsset,
) -> (result: Result<String, GitHubError>)
    requires
        encode_utf8(repository.owner@).len() + encode_utf8(repository.repo@).len() + encode_utf8(
            release.tag_name@,
        ).len() + encode_utf8(asset.name@).len() <= 1_300_000_000,
    ensures
        ({
            let own = url_normal_form(asset.browser_download_url@);
            let expected = url_with_segments(
                "https://github.com"@,
                asset_segments(*repository, *release, *asset),
            );
            match result {
                Ok(url) => own == Some(url@) && expected == Some(url@),
                Err(error) => error == GitHubError::InvalidDownloadUrl && (own is None || expected
                    is None || own != expected),
            }
        }),
{
    let own: String = match normalize_url(asset.browser_download_url.as_str()) {
        Some(own) => own,
        None => {
            return Err(GitHubError::InvalidDownloadUrl);
        },
    };
    let segments: Vec<&str> = vec![
        repository.owner.as_str(),
        repository.repo.as_str(),
        "releases",
        "download",
        release.tag_name.as_str(),
        asset.name.as_str(),
    ];
    proof {
        let s = segments@;
        reveal_with_fuel(segment_bytes, 7);
        reveal_strlit("releases");
        reveal_strlit("download");
        reveal_strlit("https://github.com");
        is_ascii_chars_encode_utf8("releases"@);
        is_ascii_chars_encode_utf8("download"@);
        is_ascii_chars_encode_utf8("https://github.com"@);
        assert(s.drop_last().drop_last().drop_last().drop_last().drop_last().drop_last()
            =~= Seq::<&str>::empty());
        assert(str_views(s) == asset_segments(*repository, *release, *asset));
    }
    let expected: String = match extend_url("https://github.com", segments) {
        Some(expected) => expected,
        None => {
            return Err(GitHubError::InvalidDownloadUrl);
        },
    };
    if text::same_text(own.as_str(), expected.as_str()) {
        Ok(own)
    } else {
        Err(GitHubError::InvalidDownloadUrl)
    }
}

/// The address of a repository's newest hundred releases.
pub open spec fn releases_address(owner: Seq<char>, repo: Seq<char>) -> Seq<char> {
    GITHUB_API@ + "/repos/"@ + owner + "/"@ + repo + "/releases?per_page=100"@
}

/// The address of a repository's newest hundred releases.
pub fn releases_url(repository: &RepositoryRef) -> (url: String)
    ensures
        url@ == releases_address(repository.owner@, repository.repo@),
{
    let mut url: String = GITHUB_API.to_owned();
    url.append("/repos/");
    url.append(repository.owner.as_str());
    url.append("/");
    url.append(repository.repo.as_str());
    url.append("/releases?per_page=100");
    url
}

/// The name under which this server of the given version asks.
pub fn user_agent(version: &str) -> (agent: String)
    ensures
        agent@ == "iPhoneLoadly/"@ + version@,
{
    let mut agent: String = "iPhoneLoadly/".to_owned();
    agent.append(version);
    agent
}

/// A host that GitHub serves releases from.
pub open spec fn is_github_host(host: Seq<char>) -> bool {
    ||| host == "github.com"@
    ||| host == "api.github.com"@
    ||| host == "objects.githubusercontent.com"@
    ||| host == "release-assets.githubusercontent.com"@
}

/// Whether a redirect may be followed: over https, to one of GitHub's hosts.
pub fn redirect_allowed(scheme: &str, host: Option<&str>) -> (allowed: bool)
    ensures
        allowed == (scheme@ == "https"@ && host is Some && is_github_host(host->0@)),
{
    text::same_text(scheme, "https") && match host {
        Some(host) => text::same_text(host, "github.com") || text::same_text(
            host,
            "api.github.com",
        ) || text::same_text(host, "objects.githubusercontent.com") || text::same_text(
            host,
            "release-assets.githubusercontent.com",
        ),
        None => false,
    }
}

/// A status that tells of success.
pub open spec fn is_success(status: u16) -> bool {
    200 <= status <= 299
}

/// Whether GitHub's answer may be read: a success status.
pub fn accept_status(status: u16) -> (result: Result<(), GitHubError>)
    ensures
        result == if is_success(status) {
            Ok::<(), GitHubError>(())
        } else {
            Err(GitHubError::Http(status))
        },
{
    if 200 <= status && status <= 299 {
        Ok(())
    } else {
        Err(GitHubError::Http(status))
    }
}

/// A download that counts what it has received.
#[derive(Debug, Clone, Copy, PartialEq, Eq, Structural)]
pub struct Download {
    pub received: u64,
}

/// The bytes of the chunks together.
pub open spec fn chunk_total(chunks: Seq<u64>) -> int
    decreases chunks.len(),
{
    if chunks.len() == 0 {
        0
    } else {
        chunk_total(chunks.drop_last()) + chunks.last()
    }
}

/// What a download has come to after some chunks.
pub open spec fn after_chunks(chunks: Seq<u64>) -> Option<Download>
    decreases chunks.len(),
{
    if chunks.len() == 0 {
        Some(Download { received: 0 })
    } else {
        match after_chunks(chunks.drop_last()) {
            Some(download) => download.with_chunk(chunks.last()),
            None => None,
        }
    }
}

impl Download {
    /// The download with one more chunk, unless that passes the limit.
    pub open spec fn with_chunk(self, length: u64) -> Option<Download> {
        if self.received + length > MAX_COMPRESSED_BYTES {
            None
        } else {
            Some(Download { received: (self.received + length) as u64 })
        }
    }

    /// Begins to read an answer: it must be a success that does not announce more than the limit.
    pub fn begin(status: u16, content_length: Option<u64>) -> (result: Result<
        Download,
        GitHubError,
    >)
        ensures
            result == if !is_success(status) {
                Err::<Download, GitHubError>(GitHubError::Http(status))
            } else if content_length is Some && content_length->0 > MAX_COMPRESSED_BYTES {
                Err(GitHubError::TooLarge)
            } else {
                Ok(Download { received: 0 })
            },
    {
        match accept_status(status) {
            Ok(()) => {},
            Err(error) => {
                return Err(error);
            },
        }
        match content_length {
            Some(length) => if length > MAX_COMPRESSED_BYTES {
                return Err(GitHubError::TooLarge);
            },
            None => {},
        }
        Ok(Download { received: 0 })
    }

    /// Counts one more chunk before it is stored.
    pub fn receive(self, length: u64) -> (result: Result<Download, GitHubError>)
        ensures
            match result {
                Ok(download) => self.with_chunk(length) == Some(download),
                Err(error) => error == GitHubError::TooLarge && self.with_chunk(length) is None,
            },
    {
        let received: u64 = self.received.saturating_add(length);
        if received > MAX_COMPRESSED_BYTES {
            Err(GitHubError::TooLarge)
        } else {
            Ok(Download { received })
        }
    }
}

/// A download accepts its chunks exactly as long as they are together within the limit.
pub proof fn downloads_stop_at_the_limit(chunks: Seq<u64>)
    ensures
        after_chunks(chunks) is Some <==> chunk_total(chunks) <= MAX_COMPRESSED_BYTES,
        after_chunks(chunks) is Some ==> after_chunks(chunks)->0.received == chunk_total(chunks),
        chunk_total(chunks) >= 0,
    decreases chunks.len(),
{
    if chunks.len() > 0 {
        downloads_stop_at_the_limit(chunks.drop_last());
    }
}

/// The sentences of the errors; a failed request tells the status that GitHub answered.
pub proof fn github_errors_are_told(status: u16)
    ensures
        GitHubError::InvalidRepository.text()
            == "repository must be a public canonical GitHub repository"@,
        GitHubError::InvalidPattern.text()
            == "asset pattern must not be empty and may contain only '*' wildcards"@,
        GitHubError::Http(status).text() == "GitHub request failed with status "@
            + http_status_text(status),
        GitHubError::InvalidResponse.text() == "GitHub response was invalid"@,
        GitHubError::TooLarge.text() == "GitHub download exceeded the IPA size limit"@,
        GitHubError::InvalidDownloadUrl.text()
            == "GitHub download URL is not an allowed release asset URL"@,
        GitHubError::NoMatchingAsset.text()
            == "release has no eligible IPA asset matching the pattern"@,
        GitHubError::AmbiguousAsset.text()
            == "release has more than one eligible IPA asset matching the pattern"@,
        GitHubError::InvalidVersion.text() == "release tag is not a valid version"@,
{
}

/// The parts stand in the value at the given positions, one behind the other without overlap.
pub open spec fn stand_at(
    value: Seq<char>,
    parts: Seq<Seq<char>>,
    from: int,
    positions: Seq<int>,
) -> bool {
    &&& positions.len() == parts.len()
    &&& positions.len() > 0 ==> from <= positions[0]
    &&& forall|i: int|
        0 <= i < parts.len() ==> #[trigger] text::occurs_at(value, parts[i], positions[i])
    &&& forall|i: int|
        0 <= i < parts.len() - 1 ==> positions[i] + (#[trigger] parts[i]).len() <= positions[i + 1]
}

proof fn lemma_following_parts_stand(value: Seq<char>, parts: Seq<Seq<char>>, from: int)
    requires
        parts_follow(value, parts, from),
    ensures
        exists|positions: Seq<int>| stand_at(value, parts, from, positions),
    decreases parts.len(),
{
    if parts.len() == 0 {
        assert(stand_at(value, parts, from, Seq::empty()));
    } else {
        let rest = parts.skip(1);
        let at = choose|at: int|
            from <= at && #[trigger] text::occurs_at(value, parts[0], at) && parts_follow(
                value,
                rest,
                at + parts[0].len(),
            );
        let behind = at + parts[0].len();
        lemma_following_parts_stand(value, rest, behind);
        let tail = choose|positions: Seq<int>| stand_at(value, rest, behind, positions);
        let positions = seq![at] + tail;
        assert forall|i: int| 0 <= i < parts.len() implies #[trigger] text::occurs_at(
            value,
            parts[i],
            positions[i],
        ) by {
            if i > 0 {
                assert(parts[i] == rest[i - 1]);
                assert(text::occurs_at(value, rest[i - 1], tail[i - 1]));
            }
        }
        assert forall|i: int| 0 <= i < parts.len() - 1 implies positions[i] + (
        #[trigger] parts[i]).len() <= positions[i + 1] by {
            if i > 0 {
                assert(parts[i] == rest[i - 1]);
                assert(tail[i - 1] + rest[i - 1].len() <= tail[i]);
            }
        }
        assert(stand_at(value, parts, from, positions));
    }
}

proof fn lemma_standing_parts_follow(
    value: Seq<char>,
    parts: Seq<Seq<char>>,
    from: int,
    positions: Seq<int>,
)
    requires
        stand_at(value, parts, from, positions),
    ensures
        parts_follow(value, parts, from),
    decreases parts.len(),
{
    if parts.len() > 0 {
        let rest = parts.skip(1);
        let tail = positions.skip(1);
        let at = positions[0];
        assert(text::occurs_at(value, parts[0], positions[0]));
        assert forall|i: int| 0 <= i < rest.len() implies #[trigger] text::occurs_at(
            value,
            rest[i],
            tail[i],
        ) by {
            assert(rest[i] == parts[i + 1]);
            assert(text::occurs_at(value, parts[i + 1], positions[i + 1]));
        }
        assert forall|i: int| 0 <= i < rest.len() - 1 implies tail[i] + (#[trigger] rest[i]).len()
            <= tail[i + 1] by {
            assert(rest[i] == parts[i + 1]);
        }
        if rest.len() > 0 {
            assert(positions[0] + parts[0].len() <= positions[1]);
        }
        lemma_standing_parts_follow(value, rest, at + parts[0].len(), tail);
    }
}

/// A pattern of several texts with stars between them matches exactly the values that begin with the
/// first text, end with the last, and hold the others behind the first one after the other, whatever
/// the case of the letters.
pub proof fn stars_divide_a_pattern(parts: Seq<Seq<char>>, value: Seq<char>)
    requires
        parts.len() >= 2,
        forall|i: int| 0 <= i < parts.len() ==> !(#[trigger] parts[i]).contains('*'),
    ensures
        ({
            let lower = Seq::new(parts.len(), |i: int| text::lowered(parts[i]));
            let text = text::lowered(value);
            let middle = lower.subrange(1, lower.len() - 1);
            let from = lower[0].len() as int;
            wildcard_matches(text::joined(parts, '*'), value) <==> {
                &&& text::begins_with(text, lower[0])
                &&& text::finishes_with(text, lower.last())
                &&& exists|positions: Seq<int>| #[trigger] stand_at(text, middle, from, positions)
            }
        }),
{
    let lower = Seq::new(parts.len(), |i: int| text::lowered(parts[i]));
    let text = text::lowered(value);
    let middle = lower.subrange(1, lower.len() - 1);
    let from = lower[0].len() as int;
    lemma_pattern_parts(parts, lower);
    if parts_follow(text, middle, from) {
        lemma_following_parts_stand(text, middle, from);
    }
    if exists|positions: Seq<int>| stand_at(text, middle, from, positions) {
        let positions = choose|positions: Seq<int>| stand_at(text, middle, from, positions);
        lemma_standing_parts_follow(text, middle, from, positions);
    }
}

/// A release without a time of publication is never later than one that has one, and of releases
/// that were published at the same time under the same number the last one counts.
pub proof fn unpublished_releases_come_first(
    releases: Seq<Release>,
    latest: int,
    other: int,
    include_prereleases: bool,
)
    requires
        is_latest(releases, latest, include_prereleases),
        0 <= other < releases.len(),
        !releases[other].draft,
        include_prereleases || !releases[other].prerelease,
    ensures
        releases[latest].published_at is None ==> releases[other].published_at is None
            || releases[other].published_at->0@.len() == 0,
        releases[latest].published_at is Some && releases[other].published_at is Some
            && releases[latest].published_at->0@ == releases[other].published_at->0@
            && releases[latest].id == releases[other].id ==> other <= latest,
{
    let a = releases[latest];
    let b = releases[other];
    assert(is_eligible(b, include_prereleases));
    assert(!released_before(a, b));
    if other > latest {
        assert(released_before(b, a));
        text::text_order_is_irreflexive(published(a));
    }
}

/// GitHub serves releases from four hosts.
pub proof fn github_has_four_hosts(host: Seq<char>)
    ensures
        is_github_host("github.com"@),
        is_github_host("api.github.com"@),
        is_github_host("objects.githubusercontent.com"@),
        is_github_host("release-assets.githubusercontent.com"@),
        is_github_host(host) ==> host == "github.com"@ || host == "api.github.com"@ || host
            == "objects.githubusercontent.com"@ || host == "release-assets.githubusercontent.com"@,
{
}

/// The newest hundred releases of a repository are asked for, and an asset lies under its repository,
/// its release and its own name.
pub proof fn addresses_name_the_repository(
    repository: RepositoryRef,
    release: Release,
    asset: ReleaseAsset,
)
    ensures
        releases_address(repository.owner@, repository.repo@) == "https://api.github.com/repos/"@
            + repository.owner@ + "/"@ + repository.repo@ + "/releases?per_page=100"@,
        asset_segments(repository, release, asset).len() == 6,
        asset_segments(repository, release, asset)[0] == repository.owner@,
        asset_segments(repository, release, asset)[1] == repository.repo@,
        asset_segments(repository, release, asset)[2] == "releases"@,
        asset_segments(repository, release, asset)[3] == "download"@,
        asset_segments(repository, release, asset)[4] == release.tag_name@,
        asset_segments(repository, release, asset)[5] == asset.name@,
        OFFICIAL_OWNER@ == "lemehavit"@,
        OFFICIAL_REPO@ == "iPhoneLoadly"@,
{
    reveal_strlit("https://api.github.com/repos/");
    reveal_strlit("https://api.github.com");
    reveal_strlit("/repos/");
    assert("https://api.github.com"@ + "/repos/"@ =~= "https://api.github.com/repos/"@);
}

/// The bytes of chunks are counted together, whatever the chunks are.
pub proof fn chunks_are_counted_together(front: Seq<u64>, chunk: u64, back: Seq<u64>)
    ensures
        chunk_total(Seq::empty()) == 0,
        chunk_total(front + seq![chunk] + back) == chunk_total(front) + chunk + chunk_total(back),
    decreases back.len(),
{
    let all = front + seq![chunk] + back;
    if back.len() == 0 {
        assert(all.drop_last() =~= front);
        assert(all.last() == chunk);
    } else {
        chunks_are_counted_together(front, chunk, back.drop_last());
        assert(all.drop_last() =~= front + seq![chunk] + back.drop_last());
        assert(all.last() == back.last());
    }
}

/// A release may be offered unless it is a draft, and a pre-release only where they are included.
/// Where one may be, there is a latest one.
pub proof fn eligible_releases_are_offered(
    releases: Seq<Release>,
    at: int,
    include_prereleases: bool,
)
    requires
        0 <= at < releases.len(),
    ensures
        is_eligible(releases[at], include_prereleases) <==> !releases[at].draft && (
        !releases[at].prerelease || include_prereleases),
        !releases[at].draft && (!releases[at].prerelease || include_prereleases) ==> exists|
            latest: int,
        | is_latest(releases, latest, include_prereleases),
{
    if is_eligible(releases[at], include_prereleases) {
        lemma_latest_exists(releases, at, include_prereleases);
    }
}

proof fn lemma_latest_exists(releases: Seq<Release>, at: int, include_prereleases: bool)
    requires
        0 <= at < releases.len(),
        is_eligible(releases[at], include_prereleases),
    ensures
        exists|latest: int| is_latest(releases, latest, include_prereleases),
    decreases releases.len(),
{
    let rest = releases.drop_last();
    let end = releases.len() - 1;
    if exists|i: int| 0 <= i < rest.len() && is_eligible(#[trigger] rest[i], include_prereleases) {
        let i = choose|i: int|
            0 <= i < rest.len() && is_eligible(#[trigger] rest[i], include_prereleases);
        lemma_latest_exists(rest, i, include_prereleases);
        let best = choose|latest: int| is_latest(rest, latest, include_prereleases);
        assert(rest[best] == releases[best]);
        if is_eligible(releases[end], include_prereleases) && !released_before(
            releases[end],
            releases[best],
        ) {
            assert forall|i: int|
                0 <= i < releases.len() && is_eligible(
                    #[trigger] releases[i],
                    include_prereleases,
                ) implies !released_before(releases[end], releases[i]) by {
                if i < end {
                    assert(rest[i] == releases[i]);
                    released_before_at_most(releases[i], releases[best], releases[end]);
                } else {
                    text::text_order_is_irreflexive(published(releases[end]));
                }
            }
            assert(is_latest(releases, end, include_prereleases));
        } else {
            assert forall|i: int|
                0 <= i < releases.len() && is_eligible(
                    #[trigger] releases[i],
                    include_prereleases,
                ) implies !released_before(releases[best], releases[i]) by {
                if i < end {
                    assert(rest[i] == releases[i]);
                } else {
                    released_before_is_strict(releases[end], releases[best]);
                }
            }
            assert forall|i: int|
                best < i < releases.len() && is_eligible(
                    #[trigger] releases[i],
                    include_prereleases,
                ) implies released_before(releases[i], releases[best]) by {
                if i < end {
                    assert(rest[i] == releases[i]);
                }
            }
            assert(is_latest(releases, best, include_prereleases));
        }
    } else {
        assert(at == end) by {
            if at < end {
                assert(rest[at] == releases[at]);
            }
        }
        assert forall|i: int|
            0 <= i < releases.len() && is_eligible(
                #[trigger] releases[i],
                include_prereleases,
            ) implies !released_before(releases[end], releases[i]) by {
            if i < end {
                assert(rest[i] == releases[i]);
            } else {
                text::text_order_is_irreflexive(published(releases[end]));
            }
        }
        assert(is_latest(releases, end, include_prereleases));
    }
}

/// The view of a release tells all that it holds, and so does that of an asset.
pub proof fn views_tell_the_whole_release(release: Release, at: int)
    ensures
        release@.id == release.id,
        release@.tag_name == release.tag_name@,
        release@.name == release.name@,
        release@.draft == release.draft,
        release@.prerelease == release.prerelease,
        release@.published_at == text::text_view(release.published_at),
        release@.assets.len() == release.assets@.len(),
        0 <= at < release.assets@.len() ==> {
            let asset = release.assets@[at];
            &&& release@.assets[at].id == asset.id
            &&& release@.assets[at].name == asset.name@
            &&& release@.assets[at].size == asset.size
            &&& release@.assets[at].digest == text::text_view(asset.digest)
            &&& release@.assets[at].browser_download_url == asset.browser_download_url@
        },
{
}

} // verus!
