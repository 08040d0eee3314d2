//! GitHub sources: their configuration, checks and downloads.
use crate::github;
use crate::github::{GitHubError, Release, ReleaseAsset, RepositoryRef};
use crate::ipa::UploadMetadata;
use crate::record;
use crate::record::RecordId;
use crate::reply;
use crate::reply::Reply;
use crate::store::GitHubSource;
use crate::text;
use vstd::prelude::*;
use vstd::string::*;

verus! {

/// The configuration of a source as it is requested.
#[derive(Debug)]
pub struct SourceConfig {
    pub repository: String,
    pub asset_pattern: String,
    pub include_prereleases: bool,
    pub app_id: Option<RecordId>,
}

/// A configuration that is to be tried out.
#[derive(Debug)]
pub struct PreviewRequest {
    pub config: SourceConfig,
}

#[derive(Debug, Clone, Copy, PartialEq, Eq, Structural)]
pub struct AutomationRequest {
    pub enabled: bool,
    pub acknowledged_security_warning: bool,
}

pub open spec fn error_code(error: GitHubError) -> &'static str {
    match error {
        GitHubError::InvalidRepository => "invalid_repository",
        GitHubError::InvalidPattern => "invalid_asset_pattern",
        GitHubError::Http(status) => if status == 403 || status == 429 {
            "github_rate_limited"
        } else {
            "github_unavailable"
        },
        GitHubError::NoMatchingAsset => "no_ipa_asset",
        GitHubError::AmbiguousAsset => "ambiguous_asset",
        GitHubError::TooLarge => "asset_too_large",
        GitHubError::InvalidDownloadUrl => "invalid_download_url",
        GitHubError::InvalidResponse => "github_unavailable",
        GitHubError::InvalidVersion => "github_unavailable",
    }
}

/// The code under which an error is recorded and answered.
pub fn github_error_code(error: GitHubError) -> (code: &'static str)
    ensures
        code == error_code(error),
{
    match error {
        GitHubError::InvalidRepository => "invalid_repository",
        GitHubError::InvalidPattern => "invalid_asset_pattern",
        GitHubError::Http(status) => if status == 403 || status == 429 {
            "github_rate_limited"
        } else {
            "github_unavailable"
        },
        GitHubError::NoMatchingAsset => "no_ipa_asset",
        GitHubError::AmbiguousAsset => "ambiguous_asset",
        GitHubError::TooLarge => "asset_too_large",
        GitHubError::InvalidDownloadUrl => "invalid_download_url",
        GitHubError::InvalidResponse => "github_unavailable",
        GitHubError::InvalidVersion => "github_unavailable",
    }
}

/// The sentence for a code.
pub open spec fn message_of_code(code: Seq<char>) -> &'static str {
    if code == "ambiguous_asset"@ {
        "The asset pattern matches more than one IPA; refine it before downloading."
    } else if code == "no_ipa_asset"@ {
        "No eligible IPA asset matches this source pattern."
    } else if code == "github_rate_limited"@ {
        "GitHub rate-limited this request; try again later."
    } else if code == "asset_too_large"@ {
        "The selected IPA exceeds the upload size limit."
    } else if code == "invalid_repository"@ {
        "Only public canonical GitHub repositories are supported."
    } else if code == "invalid_asset_pattern"@ {
        "The IPA asset pattern is invalid."
    } else {
        "The GitHub source could not be processed."
    }
}

/// The sentence for a code.
pub fn code_message(code: &str) -> (message: &'static str)
    ensures
        message == message_of_code(code@),
{
    if text::same_text(code, "ambiguous_asset") {
        "The asset pattern matches more than one IPA; refine it before downloading."
    } else if text::same_text(code, "no_ipa_asset") {
        "No eligible IPA asset matches this source pattern."
    } else if text::same_text(code, "github_rate_limited") {
        "GitHub rate-limited this request; try again later."
    } else if text::same_text(code, "asset_too_large") {
        "The selected IPA exceeds the upload size limit."
    } else if text::same_text(code, "invalid_repository") {
        "Only public canonical GitHub repositories are supported."
    } else if text::same_text(code, "invalid_asset_pattern") {
        "The IPA asset pattern is invalid."
    } else {
        "The GitHub source could not be processed."
    }
}

/// The answer to a failed operation on a source: the caller's fault where the configuration is
/// wrong, else GitHub's.
pub open spec fn error_answer(error: GitHubError) -> Reply {
    reply::coded(
        if error is InvalidRepository || error is InvalidPattern {
            400
        } else {
            502
        },
        error_code(error),
        message_of_code(error_code(error)@),
    )
}

/// The answer to a failed operation on a source.
pub fn error_response(error: GitHubError) -> (reply: Reply)
    ensures
        reply == error_answer(error),
{
    let status: u16 = match error {
        GitHubError::InvalidRepository | GitHubError::InvalidPattern => 400,
        _ => 502,
    };
    let code: &'static str = github_error_code(error);
    Reply::coded(status, code, code_message(code))
}

/// The name `owner/repo`.
pub fn repository_name(owner: &str, repo: &str) -> (name: String)
    ensures
        name@ == owner@ + "/"@ + repo@,
{
    let mut name: String = owner.to_owned();
    name.append("/");
    name.append(repo);
    name
}

// ---------------------------------------------------------------------------------------------
// Configuration.
// ---------------------------------------------------------------------------------------------

/// The app that a configuration is linked to.
#[derive(Debug, Clone, Copy, PartialEq, Eq, Structural)]
pub enum AppLink {
    Unlinked,
    Known,
    Unknown,
}

pub open spec fn unlinked_answer() -> Reply {
    reply::told(404, "The linked IPA was not found.")
}

/// Why a configuration is refused by itself.
pub open spec fn config_refusal(repository: Seq<char>, pattern: Seq<char>) -> Option<Reply> {
    if forall|owner: Seq<char>, repo: Seq<char>| !github::names_repository(repository, owner, repo) {
        Some(error_answer(GitHubError::InvalidRepository))
    } else if !github::is_asset_pattern(pattern) {
        Some(error_answer(GitHubError::InvalidPattern))
    } else {
        None
    }
}

/// Why a new source is refused: its action mark, its configuration, then its link.
pub open spec fn creation_refusal(
    allowed: bool,
    repository: Seq<char>,
    pattern: Seq<char>,
    link: AppLink,
) -> Option<Reply> {
    if !allowed {
        Some(reply::action_reply())
    } else if config_refusal(repository, pattern) is Some {
        config_refusal(repository, pattern)
    } else if link is Unknown {
        Some(unlinked_answer())
    } else {
        None
    }
}

/// Why a change of a source is refused: its action mark, its link, then its configuration.
pub open spec fn change_refusal(
    allowed: bool,
    repository: Seq<char>,
    pattern: Seq<char>,
    link: AppLink,
) -> Option<Reply> {
    if !allowed {
        Some(reply::action_reply())
    } else if link is Unknown {
        Some(unlinked_answer())
    } else {
        config_refusal(repository, pattern)
    }
}

fn checked_config(config: &SourceConfig) -> (result: Result<RepositoryRef, Reply>)
    ensures
        match result {
            Ok(repository) => config_refusal(config.repository@, config.asset_pattern@) is None
                && github::names_repository(
                config.repository@,
                repository.owner@,
                repository.repo@,
            ),
            Err(reply) => config_refusal(config.repository@, config.asset_pattern@) == Some(reply),
        },
{
    let repository: RepositoryRef = match github::parse_public_repository(
        config.repository.as_str(),
    ) {
        Ok(repository) => repository,
        Err(error) => {
            return Err(error_response(error));
        },
    };
    match github::validate_asset_pattern(config.asset_pattern.as_str()) {
        Ok(()) => Ok(repository),
        Err(error) => Err(error_response(error)),
    }
}

/// The repository of a source that is to be created.
pub fn accept_new_source(allowed: bool, config: &SourceConfig, link: AppLink) -> (result: Result<
    RepositoryRef,
    Reply,
>)
    ensures
        ({
            let refusal = creation_refusal(
                allowed,
                config.repository@,
                config.asset_pattern@,
                link,
            );
            match result {
                Ok(repository) => refusal is None && github::names_repository(
                    config.repository@,
                    repository.owner@,
                    repository.repo@,
                ),
                Err(reply) => refusal == Some(reply),
            }
        }),
{
    if !allowed {
        return Err(reply::action_required());
    }
    match checked_config(config) {
        Ok(repository) => if link == AppLink::Unknown {
            Err(Reply::told(404, "The linked IPA was not found."))
        } else {
            Ok(repository)
        },
        Err(reply) => Err(reply),
    }
}

/// The repository of a source that is to be changed.
pub fn accept_changed_source(allowed: bool, config: &SourceConfig, link: AppLink) -> (result:
    Result<RepositoryRef, Reply>)
    ensures
        ({
            let refusal = change_refusal(
                allowed,
                config.repository@,
                config.asset_pattern@,
                link,
            );
            match result {
                Ok(repository) => refusal is None && github::names_repository(
                    config.repository@,
                    repository.owner@,
                    repository.repo@,
                ),
                Err(reply) => refusal == Some(reply),
            }
        }),
{
    if !allowed {
        return Err(reply::action_required());
    }
    if link == AppLink::Unknown {
        return Err(Reply::told(404, "The linked IPA was not found."));
    }
    checked_config(config)
}

/// The answer to a source that could not be stored.
pub fn source_exists() -> (reply: Reply)
    ensures
        reply == reply::coded(
            409,
            "source_exists",
            "This source configuration already exists.",
        ),
{
    Reply::coded(409, "source_exists", "This source configuration already exists.")
}

/// The answer to a request for a source that is not stored.
pub fn source_missing() -> (reply: Reply)
    ensures
        reply == reply::told(404, "GitHub source was not found."),
{
    Reply::told(404, "GitHub source was not found.")
}

/// Why automatic downloads are not switched: they need an action mark, and to be enabled the
/// acknowledgement of the warning.
pub open spec fn automation_refusal_of(allowed: bool, request: AutomationRequest) -> Option<Reply> {
    if !allowed {
        Some(reply::action_reply())
    } else if request.enabled && !request.acknowledged_security_warning {
        Some(
            reply::coded(
                400,
                "security_acknowledgement_required",
                "Read and acknowledge the source security warning before enabling automatic downloads.",
            ),
        )
    } else {
        None
    }
}

pub fn automation_refusal(allowed: bool, request: AutomationRequest) -> (refusal: Option<Reply>)
    ensures
        refusal == automation_refusal_of(allowed, request),
{
    if !allowed {
        Some(reply::action_required())
    } else if request.enabled && !request.acknowledged_security_warning {
        Some(
            Reply::coded(
                400,
                "security_acknowledgement_required",
                "Read and acknowledge the source security warning before enabling automatic downloads.",
            ),
        )
    } else {
        None
    }
}

/// A rate limit is told as one exactly where GitHub answers with the statuses of one. The caller is at
/// fault, with status 400, exactly where the configuration is wrong, and GitHub otherwise, with status
/// 502.
pub proof fn errors_are_told_by_their_cause(error: GitHubError, status: u16)
    ensures
        error_code(GitHubError::Http(status))@ == "github_rate_limited"@ <==> status == 403 || status
            == 429,
        error is InvalidRepository || error is InvalidPattern ==> error_answer(error).status == 400,
        !(error is InvalidRepository || error is InvalidPattern) ==> error_answer(error).status
            == 502,
        error_answer(error).code == Some(error_code(error)),
        error_answer(error).message is Some,
{
    reveal_strlit("github_rate_limited");
    reveal_strlit("github_unavailable");
    assert("github_rate_limited"@.len() == 19);
    assert("github_unavailable"@.len() == 18);
}

/// What is wrong with a source is told by a code of its own, so that the user can mend it.
pub proof fn faults_of_a_source_are_told_apart(one: GitHubError, other: GitHubError)
    requires
        one is InvalidRepository || one is InvalidPattern || one is NoMatchingAsset
            || one is AmbiguousAsset || one is TooLarge || one is InvalidDownloadUrl,
        error_code(one)@ == error_code(other)@,
    ensures
        one == other,
{
    reveal_strlit("invalid_repository");
    reveal_strlit("invalid_asset_pattern");
    reveal_strlit("github_rate_limited");
    reveal_strlit("github_unavailable");
    reveal_strlit("no_ipa_asset");
    reveal_strlit("ambiguous_asset");
    reveal_strlit("asset_too_large");
    reveal_strlit("invalid_download_url");
    assert("invalid_repository"@.len() == 18 && "invalid_repository"@[0] == 'i');
    assert("invalid_asset_pattern"@.len() == 21);
    assert("github_rate_limited"@.len() == 19);
    assert("github_unavailable"@.len() == 18 && "github_unavailable"@[0] == 'g');
    assert("no_ipa_asset"@.len() == 12);
    assert("ambiguous_asset"@.len() == 15 && "ambiguous_asset"@[1] == 'm');
    assert("asset_too_large"@.len() == 15 && "asset_too_large"@[1] == 's');
    assert("invalid_download_url"@.len() == 20);
}

/// A source with an action mark, a repository that is named, a pattern that may be matched and no
/// unknown app is accepted, new or changed; without any one of these it is refused.
pub proof fn sound_sources_are_accepted(
    allowed: bool,
    repository: Seq<char>,
    pattern: Seq<char>,
    link: AppLink,
    owner: Seq<char>,
    repo: Seq<char>,
)
    ensures
        allowed && github::names_repository(repository, owner, repo) && github::is_asset_pattern(
            pattern,
        ) && !(link is Unknown) ==> creation_refusal(allowed, repository, pattern, link) is None
            && change_refusal(allowed, repository, pattern, link) is None,
        !allowed ==> creation_refusal(allowed, repository, pattern, link) is Some
            && change_refusal(allowed, repository, pattern, link) is Some,
        link is Unknown ==> creation_refusal(allowed, repository, pattern, link) is Some
            && change_refusal(allowed, repository, pattern, link) is Some,
        !github::is_asset_pattern(pattern) ==> creation_refusal(allowed, repository, pattern, link)
            is Some && change_refusal(allowed, repository, pattern, link) is Some,
        (forall|o: Seq<char>, r: Seq<char>| !github::names_repository(repository, o, r))
            ==> creation_refusal(allowed, repository, pattern, link) is Some && change_refusal(
            allowed,
            repository,
            pattern,
            link,
        ) is Some,
        allowed && link is Unknown && github::names_repository(repository, owner, repo)
            && github::is_asset_pattern(pattern) ==> creation_refusal(
            allowed,
            repository,
            pattern,
            link,
        )->0.status == 404,
{
}

/// Automatic downloads are switched off by any action, and on by one that acknowledges the warning.
pub proof fn acknowledged_automation_is_switched(request: AutomationRequest)
    ensures
        automation_refusal_of(true, request) is None <==> !request.enabled
            || request.acknowledged_security_warning,
        automation_refusal_of(false, request) is Some,
        automation_refusal_of(true, request) is Some ==> automation_refusal_of(true, request)->0.status
            == 400,
{
}

/// Automatic downloads are never enabled without the acknowledgement.
pub proof fn automation_needs_acknowledgement(allowed: bool, request: AutomationRequest)
    requires
        automation_refusal_of(allowed, request) is None,
        request.enabled,
    ensures
        allowed,
        request.acknowledged_security_warning,
{
}

// ---------------------------------------------------------------------------------------------
// Preview and check.
// ---------------------------------------------------------------------------------------------

/// An asset as a preview shows it.
#[derive(Debug)]
pub struct PreviewAsset {
    pub id: i64,
    pub name: String,
    pub size: u64,
}

#[derive(Debug)]
pub struct Preview {
    pub assets: Vec<PreviewAsset>,
    pub matching: Option<i64>,
}

pub open spec fn is_ipa_name(name: Seq<char>) -> bool {
    text::finishes_with(text::lowered(name), ".ipa"@)
}

pub open spec fn shows(shown: PreviewAsset, asset: ReleaseAsset) -> bool {
    shown.id == asset.id && shown.name@ == asset.name@ && shown.size == asset.size
}

/// The IPAs among the assets, in their order.
pub open spec fn ipa_assets(assets: Seq<ReleaseAsset>) -> Seq<ReleaseAsset> {
    assets.filter(|asset: ReleaseAsset| is_ipa_name(asset.name@))
}

/// What a source would find in a release.
pub fn preview(release: &Release, pattern: &str) -> (preview: Preview)
    ensures
        preview.assets@.len() == ipa_assets(release.assets@).len(),
        forall|k: int|
            0 <= k < preview.assets@.len() ==> shows(
                #[trigger] preview.assets@[k],
                ipa_assets(release.assets@)[k],
            ),
        match preview.matching {
            Some(id) => exists|at: int| #[trigger]
                github::picks(*release, pattern@, at) && id == release.assets@[at].id,
            None => forall|at: int| !github::picks(*release, pattern@, at),
        },
{
    let ghost is_ipa = |asset: ReleaseAsset| is_ipa_name(asset.name@);
    let mut assets: Vec<PreviewAsset> = Vec::new();
    let mut i: usize = 0;
    proof {
        assert(release.assets@.take(0) == Seq::<ReleaseAsset>::empty());
        reveal(Seq::filter);
    }
    while i < release.assets.len()
        invariant
            i <= release.assets.len(),
            is_ipa == (|asset: ReleaseAsset| is_ipa_name(asset.name@)),
            assets@.len() == release.assets@.take(i as int).filter(is_ipa).len(),
            forall|k: int|
                0 <= k < assets@.len() ==> shows(
                    #[trigger] assets@[k],
                    release.assets@.take(i as int).filter(is_ipa)[k],
                ),
        decreases release.assets.len() - i,
    {
        let asset: &ReleaseAsset = &release.assets[i];
        proof {
            reveal(Seq::filter);
            assert(release.assets@.take(i + 1).drop_last() == release.assets@.take(i as int));
            assert(release.assets@.take(i + 1).last() == *asset);
        }
        let suffix: Vec<char> = text::chars_of(".ipa");
        let name: Vec<char> = text::lowercase(asset.name.as_str());
        if text::ends_with(&name, &suffix) {
            assets.push(PreviewAsset { id: asset.id, name: asset.name.clone(), size: asset.size });
        }
        i = i + 1;
    }
    proof {
        assert(release.assets@.take(i as int) == release.assets@);
    }
    let matching: Option<i64> = match github::match_ipa_asset(release, pattern) {
        Ok(asset) => Some(asset.id),
        Err(_) => None,
    };
    Preview { assets, matching }
}

/// A release that a source has already taken: the same release and asset, and the last check found
/// it downloaded or up to date.
pub open spec fn is_taken(
    last_release_id: Option<i64>,
    last_asset_id: Option<i64>,
    last_status: Option<Seq<char>>,
    release_id: i64,
    asset_id: i64,
) -> bool {
    &&& last_release_id == Some(release_id)
    &&& last_asset_id == Some(asset_id)
    &&& last_status == Some("downloaded"@) || last_status == Some("unchanged"@) || last_status
        == Some("up_to_date"@)
}

/// The word for what a check finds.
pub open spec fn check_word(taken: bool) -> &'static str {
    if taken {
        "up_to_date"
    } else {
        "update_available"
    }
}

/// What a check finds: an update stays available until it was downloaded.
pub fn source_check_status(
    last_release_id: Option<i64>,
    last_asset_id: Option<i64>,
    last_status: Option<&str>,
    release_id: i64,
    asset_id: i64,
) -> (status: &'static str)
    ensures
        status == check_word(
            is_taken(
                last_release_id,
                last_asset_id,
                text::str_view(last_status),
                release_id,
                asset_id,
            ),
        ),
{
    let same_release: bool = match last_release_id {
        Some(id) => id == release_id,
        None => false,
    };
    let same_asset: bool = match last_asset_id {
        Some(id) => id == asset_id,
        None => false,
    };
    if same_release && same_asset && (text::is_text(last_status, "downloaded") || text::is_text(
        last_status,
        "unchanged",
    ) || text::is_text(last_status, "up_to_date")) {
        "up_to_date"
    } else {
        "update_available"
    }
}

/// What a check of a source finds in its latest release.
#[derive(Debug)]
pub struct SourceCheck<'a> {
    pub asset: &'a ReleaseAsset,
    pub status: &'static str,
    pub current: bool,
}

/// Checks a source against its latest release.
pub fn check_source<'a>(source: &GitHubSource, release: &'a Release) -> (result: Result<
    SourceCheck<'a>,
    GitHubError,
>)
    ensures
        github::is_match(
            *release,
            source.asset_pattern@,
            match result {
                Ok(check) => Ok(*check.asset),
                Err(error) => Err(error),
            },
        ),
        result matches Ok(check) ==> {
            &&& check.current == is_taken(
                source.last_release_id,
                source.last_asset_id,
                text::text_view(source.last_status),
                release.id,
                check.asset.id,
            )
            &&& check.status == check_word(check.current)
        },
{
    match github::match_ipa_asset(release, source.asset_pattern.as_str()) {
        Ok(asset) => {
            let last_status: Option<&str> = match &source.last_status {
                Some(status) => Some(status.as_str()),
                None => None,
            };
            let status: &'static str = source_check_status(
                source.last_release_id,
                source.last_asset_id,
                last_status,
                release.id,
                asset.id,
            );
            proof {
                reveal_strlit("up_to_date");
                reveal_strlit("update_available");
                assert("up_to_date"@.len() != "update_available"@.len());
            }
            Ok(SourceCheck { asset, status, current: text::same_text(status, "up_to_date") })
        },
        Err(error) => Err(error),
    }
}

/// A check that finds an update does not use it up: the next check of the same release and asset
/// finds it again.
pub proof fn updates_stay_available(release_id: i64, asset_id: i64)
    ensures
        !is_taken(
            Some(release_id),
            Some(asset_id),
            Some("update_available"@),
            release_id,
            asset_id,
        ),
{
    reveal_strlit("update_available");
    reveal_strlit("downloaded");
    reveal_strlit("unchanged");
    reveal_strlit("up_to_date");
    assert("update_available"@.len() == 16);
}

/// What a source has downloaded, or found to be what is stored, is up to date at the next check.
pub proof fn downloads_are_up_to_date(source: GitHubSource, release_id: i64, asset_id: i64)
    requires
        source.last_release_id == Some(release_id),
        source.last_asset_id == Some(asset_id),
        text::text_view(source.last_status) == Some("downloaded"@) || text::text_view(
            source.last_status,
        ) == Some("unchanged"@),
    ensures
        is_taken(
            source.last_release_id,
            source.last_asset_id,
            text::text_view(source.last_status),
            release_id,
            asset_id,
        ),
{
}

/// A release or an asset that is new, and one whose check or download failed, counts as not yet taken.
pub proof fn new_releases_are_not_taken(
    last_release_id: Option<i64>,
    last_asset_id: Option<i64>,
    last_status: Option<Seq<char>>,
    release_id: i64,
    asset_id: i64,
)
    ensures
        last_release_id != Some(release_id) ==> !is_taken(
            last_release_id,
            last_asset_id,
            last_status,
            release_id,
            asset_id,
        ),
        last_asset_id != Some(asset_id) ==> !is_taken(
            last_release_id,
            last_asset_id,
            last_status,
            release_id,
            asset_id,
        ),
        last_status is None || last_status == Some("error"@) ==> !is_taken(
            last_release_id,
            last_asset_id,
            last_status,
            release_id,
            asset_id,
        ),
{
    reveal_strlit("error");
    reveal_strlit("downloaded");
    reveal_strlit("unchanged");
    reveal_strlit("up_to_date");
    assert("error"@.len() == 5);
}

/// The assets that a preview shows are exactly those whose names end in `.ipa`.
pub proof fn previews_show_ipas(assets: Seq<ReleaseAsset>, asset: ReleaseAsset)
    ensures
        ipa_assets(assets).contains(asset) <==> assets.contains(asset) && text::finishes_with(
            text::lowered(asset.name@),
            ".ipa"@,
        ),
    decreases assets.len(),
{
    reveal(Seq::filter);
    if assets.len() > 0 {
        let rest = assets.drop_last();
        let before = ipa_assets(rest);
        let now = ipa_assets(assets);
        previews_show_ipas(rest, asset);
        assert(assets == rest.push(assets.last()));
        if before.contains(asset) {
            let k = choose|k: int| 0 <= k < before.len() && before[k] == asset;
            assert(now[k] == asset);
        }
        if rest.contains(asset) {
            let k = choose|k: int| 0 <= k < rest.len() && rest[k] == asset;
            assert(assets[k] == asset);
        }
        if assets.contains(asset) && !rest.contains(asset) {
            let k = choose|k: int| 0 <= k < assets.len() && assets[k] == asset;
            if k < rest.len() {
                assert(rest[k] == asset);
            }
        }
        assert(assets[assets.len() - 1] == assets.last());
        if is_ipa_name(assets.last().name@) {
            assert(now == before.push(assets.last()));
            assert(now[before.len() as int] == assets.last());
        }
        if now.contains(asset) && !before.contains(asset) {
            let k = choose|k: int| 0 <= k < now.len() && now[k] == asset;
            if k < before.len() {
                assert(before[k] == asset);
            }
        }
    }
}

/// A source that is up to date stays so as long as the release does not change.
pub proof fn taken_releases_stay_taken(
    last_release_id: Option<i64>,
    last_asset_id: Option<i64>,
    last_status: Option<Seq<char>>,
    release_id: i64,
    asset_id: i64,
)
    requires
        is_taken(last_release_id, last_asset_id, last_status, release_id, asset_id),
    ensures
        is_taken(
            Some(release_id),
            Some(asset_id),
            Some("up_to_date"@),
            release_id,
            asset_id,
        ),
{
}

// ---------------------------------------------------------------------------------------------
// Download.
// ---------------------------------------------------------------------------------------------

/// What is recorded of a source after an operation.
#[derive(Debug)]
pub struct SourceRecord {
    pub release_id: Option<i64>,
    pub release_tag: Option<String>,
    pub asset_id: Option<i64>,
    pub asset_name: Option<String>,
    pub sha256: Option<String>,
    pub status: &'static str,
    pub error_code: Option<&'static str>,
}

/// The record of an error that left no release behind.
pub fn error_record(error: GitHubError) -> (record: SourceRecord)
    ensures
        record.release_id is None,
        record.release_tag is None,
        record.asset_id is None,
        record.asset_name is None,
        record.sha256 is None,
        record.status == "error",
        record.error_code == Some(error_code(error)),
{
    SourceRecord {
        release_id: None,
        release_tag: None,
        asset_id: None,
        asset_name: None,
        sha256: None,
        status: "error",
        error_code: Some(github_error_code(error)),
    }
}

/// The record of an asset with its outcome.
pub fn asset_record(
    release: &Release,
    asset: &ReleaseAsset,
    sha256: Option<String>,
    status: &'static str,
    code: Option<&'static str>,
) -> (record: SourceRecord)
    ensures
        record.release_id == Some(release.id),
        text::text_view(record.release_tag) == Some(release.tag_name@),
        record.asset_id == Some(asset.id),
        text::text_view(record.asset_name) == Some(asset.name@),
        record.sha256 == sha256,
        record.status == status,
        record.error_code == code,
{
    SourceRecord {
        release_id: Some(release.id),
        release_tag: Some(release.tag_name.clone()),
        asset_id: Some(asset.id),
        asset_name: Some(asset.name.clone()),
        sha256,
        status,
        error_code: code,
    }
}

/// The record of a check that was made. What was downloaded last stays recorded.
pub fn check_record(source: &GitHubSource, release: &Release, check: &SourceCheck) -> (record:
    SourceRecord)
    ensures
        record.release_id == Some(release.id),
        text::text_view(record.release_tag) == Some(release.tag_name@),
        record.asset_id == Some(check.asset.id),
        text::text_view(record.asset_name) == Some(check.asset.name@),
        text::text_view(record.sha256) == text::text_view(source.last_download_sha256),
        record.status == check.status,
        record.error_code is None,
{
    let sha256: Option<String> = match &source.last_download_sha256 {
        Some(sha256) => Some(sha256.clone()),
        None => None,
    };
    asset_record(release, check.asset, sha256, check.status, None)
}

/// The steps of a check, in their order.
#[derive(Debug, Clone, Copy, PartialEq, Eq, Structural)]
pub enum CheckStep {
    /// The request may change something.
    Action,
    /// The source is stored.
    Source,
    /// The latest release was read.
    Release,
    /// It holds one asset that the pattern picks.
    Asset,
}

/// What comes after a step of a check.
#[derive(Debug, Clone, Copy)]
pub enum CheckTurn {
    Next(CheckStep),
    /// The check is answered. An error is recorded on the source.
    Refuse { reply: Reply, record: Option<GitHubError> },
    /// What was found is recorded and told, with status 200.
    Checked,
}

impl CheckStep {
    /// What comes after the step.
    pub open spec fn turn(self, result: Result<(), GitHubError>) -> CheckTurn {
        match (self, result) {
            (CheckStep::Action, Ok(())) => CheckTurn::Next(CheckStep::Source),
            (CheckStep::Source, Ok(())) => CheckTurn::Next(CheckStep::Release),
            (CheckStep::Release, Ok(())) => CheckTurn::Next(CheckStep::Asset),
            (CheckStep::Asset, Ok(())) => CheckTurn::Checked,
            (CheckStep::Action, Err(_)) => CheckTurn::Refuse {
                reply: reply::action_reply(),
                record: None,
            },
            (CheckStep::Source, Err(_)) => CheckTurn::Refuse {
                reply: reply::told(404, "GitHub source was not found."),
                record: None,
            },
            (_, Err(error)) => CheckTurn::Refuse {
                reply: error_answer(error),
                record: Some(error),
            },
        }
    }

    /// What comes after the step.
    pub fn advance(self, result: Result<(), GitHubError>) -> (turn: CheckTurn)
        ensures
            turn == self.turn(result),
    {
        match (self, result) {
            (CheckStep::Action, Ok(())) => CheckTurn::Next(CheckStep::Source),
            (CheckStep::Source, Ok(())) => CheckTurn::Next(CheckStep::Release),
            (CheckStep::Release, Ok(())) => CheckTurn::Next(CheckStep::Asset),
            (CheckStep::Asset, Ok(())) => CheckTurn::Checked,
            (CheckStep::Action, Err(_)) => CheckTurn::Refuse {
                reply: reply::action_required(),
                record: None,
            },
            (CheckStep::Source, Err(_)) => CheckTurn::Refuse {
                reply: source_missing(),
                record: None,
            },
            (_, Err(error)) => CheckTurn::Refuse {
                reply: error_response(error),
                record: Some(error),
            },
        }
    }
}

/// The app that a source is linked to, as the store knows it when a download is settled.
#[derive(Debug)]
pub enum LinkedApp {
    /// The source has no app yet.
    Unlinked,
    /// The app could not be read, or is not stored.
    Missing,
    /// The app with what is installed from it; `active` is nothing where that could not be read.
    Present { active: Option<bool>, bundle_id: Option<String>, sha256: String },
}

/// What becomes of a downloaded IPA.
#[derive(Debug, Clone, Copy, PartialEq, Eq, Structural)]
pub enum Settlement {
    /// It may not replace what is stored.
    Refused,
    /// It is what is stored.
    Unchanged,
    /// It replaces the IPA of the linked app.
    Replace,
    /// It becomes the IPA of a new app.
    Store,
}

/// The source is still configured as it was when the download began.
pub open spec fn same_config(now: GitHubSource, then_source: GitHubSource) -> bool {
    &&& now.app_id == then_source.app_id
    &&& now.owner@ == then_source.owner@
    &&& now.repo@ == then_source.repo@
    &&& now.asset_pattern@ == then_source.asset_pattern@
    &&& now.include_prereleases == then_source.include_prereleases
}

pub open spec fn settlement_of(
    now: Option<GitHubSource>,
    source: GitHubSource,
    app: LinkedApp,
    bundle_id: Seq<char>,
    sha256: Seq<char>,
) -> Settlement {
    if now is None || !same_config(now->0, source) {
        Settlement::Refused
    } else if source.app_id is None {
        Settlement::Store
    } else {
        match app {
            LinkedApp::Present { active, bundle_id: known, sha256: stored } => {
                if active != Some(false) || text::text_view(known) != Some(bundle_id) {
                    Settlement::Refused
                } else if stored@ == sha256 {
                    Settlement::Unchanged
                } else {
                    Settlement::Replace
                }
            },
            _ => Settlement::Refused,
        }
    }
}

/// What becomes of a downloaded IPA.
pub fn settle_download(
    now: Option<&GitHubSource>,
    source: &GitHubSource,
    app: &LinkedApp,
    metadata: &UploadMetadata,
) -> (settlement: Settlement)
    ensures
        settlement == settlement_of(
            match now {
                Some(now) => Some(*now),
                None => None,
            },
            *source,
            *app,
            metadata.bundle_id@,
            metadata.sha256@,
        ),
{
    let current: &GitHubSource = match now {
        Some(current) => current,
        None => {
            return Settlement::Refused;
        },
    };
    if current.app_id != source.app_id || !text::same_text(
        current.owner.as_str(),
        source.owner.as_str(),
    ) || !text::same_text(current.repo.as_str(), source.repo.as_str()) || !text::same_text(
        current.asset_pattern.as_str(),
        source.asset_pattern.as_str(),
    ) || current.include_prereleases != source.include_prereleases {
        return Settlement::Refused;
    }
    if source.app_id.is_none() {
        return Settlement::Store;
    }
    match app {
        LinkedApp::Present { active, bundle_id, sha256 } => {
            let idle: bool = match active {
                Some(active) => !*active,
                None => false,
            };
            let same_app: bool = match bundle_id {
                Some(known) => text::same_text(known.as_str(), metadata.bundle_id.as_str()),
                None => false,
            };
            if !idle || !same_app {
                Settlement::Refused
            } else if text::same_text(sha256.as_str(), metadata.sha256.as_str()) {
                Settlement::Unchanged
            } else {
                Settlement::Replace
            }
        },
        _ => Settlement::Refused,
    }
}

/// A download replaces an app only by an IPA of the same bundle, while no job uses the app and the
/// source is still configured as it was.
pub proof fn replacements_keep_the_bundle(
    now: Option<GitHubSource>,
    source: GitHubSource,
    app: LinkedApp,
    bundle_id: Seq<char>,
    sha256: Seq<char>,
)
    requires
        settlement_of(now, source, app, bundle_id, sha256) is Replace,
    ensures
        now is Some && same_config(now->0, source),
        app matches LinkedApp::Present { active, bundle_id: known, sha256: stored } && active
            == Some(false) && text::text_view(known) == Some(bundle_id) && stored@ != sha256,
{
}

/// What was downloaded for a source whose configuration did not change is taken in: for a source
/// without an app it is stored, and for one with an idle app of the same bundle it replaces the IPA
/// unless it is the same. Nothing else is.
pub proof fn downloads_are_settled_by_what_is_stored(
    now: GitHubSource,
    source: GitHubSource,
    known: Option<String>,
    active: Option<bool>,
    stored: String,
    bundle_id: Seq<char>,
    sha256: Seq<char>,
)
    requires
        now.app_id == source.app_id,
        now.owner@ == source.owner@,
        now.repo@ == source.repo@,
        now.asset_pattern@ == source.asset_pattern@,
        now.include_prereleases == source.include_prereleases,
    ensures
        ({
            let app = LinkedApp::Present { active, bundle_id: known, sha256: stored };
            let settled = settlement_of(Some(now), source, app, bundle_id, sha256);
            let fits = active == Some(false) && known is Some && known->0@ == bundle_id;
            &&& source.app_id is None ==> settled is Store
            &&& source.app_id is Some && fits && stored@ == sha256 ==> settled is Unchanged
            &&& source.app_id is Some && fits && stored@ != sha256 ==> settled is Replace
            &&& source.app_id is Some && !fits ==> settled is Refused
            &&& source.app_id is Some ==> settlement_of(
                Some(now),
                source,
                LinkedApp::Missing,
                bundle_id,
                sha256,
            ) is Refused
        }),
{
}

/// A source that was removed or configured anew while its download ran takes nothing in.
pub proof fn changed_sources_take_nothing_in(
    now: Option<GitHubSource>,
    source: GitHubSource,
    app: LinkedApp,
    bundle_id: Seq<char>,
    sha256: Seq<char>,
)
    requires
        now is None || now->0.app_id != source.app_id || now->0.owner@ != source.owner@
            || now->0.repo@ != source.repo@ || now->0.asset_pattern@ != source.asset_pattern@
            || now->0.include_prereleases != source.include_prereleases,
    ensures
        settlement_of(now, source, app, bundle_id, sha256) is Refused,
{
}

/// The steps by which a download is taken in.
#[derive(Debug, Clone, Copy, PartialEq, Eq, Structural)]
pub enum DownloadStep {
    /// The request may change something.
    Action,
    /// The source is stored.
    Source,
    /// The latest release was read.
    Release,
    /// It holds one asset that the pattern picks.
    Asset,
    /// The asset was received in a temporary file.
    Receive,
    /// It is an IPA.
    Inspect,
    /// The store allows one of the settlements.
    Settle,
    /// That nothing changed is recorded.
    RecordUnchanged,
    /// The file has taken its final name.
    MoveFile,
    /// The app's row, and with it the record of the source, is replaced.
    ReplaceRow,
    /// A row for a new app is stored.
    InsertRow,
    /// The source is linked to the new app.
    LinkSource,
    /// The download is recorded.
    RecordDownload,
}

/// What went wrong in a step.
#[derive(Debug, Clone, Copy, PartialEq, Eq, Structural)]
pub enum DownloadFault {
    /// GitHub or the configuration.
    GitHub(GitHubError),
    /// Anything else.
    Other,
}

/// What comes after a step of a download.
#[derive(Debug, Clone, Copy)]
pub enum DownloadTurn {
    Next(DownloadStep),
    /// The download is answered. `record` tells whether the failure is recorded on the source:
    /// without the release, or with it.
    Refuse { reply: Reply, record: FailureRecord, drop_temporary: bool, drop_final: bool },
    /// The download is done: with status 208 where nothing changed, else 200. `drop_temporary`
    /// tells whether the received file is removed, `retire` which stored one.
    Done { status: u16, word: &'static str, drop_temporary: bool, retire: Retired },
}

/// How a failed download is recorded.
#[derive(Debug, Clone, Copy, PartialEq, Eq, Structural)]
pub enum FailureRecord {
    Nothing,
    /// With the error's code alone.
    Code,
    /// As `invalid_ipa`, with the release and the asset.
    InvalidIpa,
}

/// The record of a failed download, where one is made. `found` is the release with the asset, where
/// they were found.
pub fn failure_record(
    failure: FailureRecord,
    fault: DownloadFault,
    found: Option<(&Release, &ReleaseAsset)>,
) -> (record: Option<SourceRecord>)
    ensures
        record is Some == match failure {
            FailureRecord::Nothing => false,
            FailureRecord::Code => true,
            FailureRecord::InvalidIpa => found is Some,
        },
        record matches Some(record) ==> {
            &&& record.status == "error"
            &&& record.sha256 is None
            &&& record.error_code == Some(
                match (failure, fault) {
                    (FailureRecord::InvalidIpa, _) => "invalid_ipa",
                    (_, DownloadFault::GitHub(error)) => error_code(error),
                    (_, DownloadFault::Other) => error_code(GitHubError::InvalidResponse),
                },
            )
            &&& failure == FailureRecord::Code ==> record.release_id is None
                && record.release_tag is None && record.asset_id is None && record.asset_name
                is None
            &&& failure == FailureRecord::InvalidIpa ==> {
                &&& found matches Some((release, asset))
                &&& record.release_id == Some(release.id)
                &&& text::text_view(record.release_tag) == Some(release.tag_name@)
                &&& record.asset_id == Some(asset.id)
                &&& text::text_view(record.asset_name) == Some(asset.name@)
            }
        },
{
    match failure {
        FailureRecord::Nothing => None,
        FailureRecord::Code => match fault {
            DownloadFault::GitHub(error) => Some(error_record(error)),
            DownloadFault::Other => Some(error_record(GitHubError::InvalidResponse)),
        },
        FailureRecord::InvalidIpa => match found {
            Some((release, asset)) => Some(
                asset_record(release, asset, None, "error", Some("invalid_ipa")),
            ),
            None => None,
        },
    }
}

/// The word that a step of a download records on the source, where it records the download.
pub open spec fn recorded_word(step: DownloadStep) -> Option<&'static str> {
    match step {
        DownloadStep::RecordUnchanged => Some("unchanged"),
        DownloadStep::ReplaceRow | DownloadStep::RecordDownload => Some("downloaded"),
        _ => None,
    }
}

/// What a step of a download records on the source. Once it is recorded, the release counts as
/// taken.
pub fn download_record(
    step: DownloadStep,
    release: &Release,
    asset: &ReleaseAsset,
    sha256: &str,
) -> (record: Option<SourceRecord>)
    ensures
        record is Some == recorded_word(step) is Some,
        record matches Some(record) ==> {
            &&& Some(record.status) == recorded_word(step)
            &&& record.release_id == Some(release.id)
            &&& text::text_view(record.release_tag) == Some(release.tag_name@)
            &&& record.asset_id == Some(asset.id)
            &&& text::text_view(record.asset_name) == Some(asset.name@)
            &&& text::text_view(record.sha256) == Some(sha256@)
            &&& record.error_code is None
            &&& is_taken(
                record.release_id,
                record.asset_id,
                Some(record.status@),
                release.id,
                asset.id,
            )
        },
{
    let word: &'static str = match step {
        DownloadStep::RecordUnchanged => "unchanged",
        DownloadStep::ReplaceRow | DownloadStep::RecordDownload => "downloaded",
        _ => {
            return None;
        },
    };
    Some(asset_record(release, asset, Some(sha256.to_owned()), word, None))
}

/// Where a download is stored: the app that it becomes, and the name of its file.
#[derive(Debug)]
pub struct StoredPlace {
    pub app_id: RecordId,
    pub name: String,
}

/// Where a download is stored. It replaces the file of a linked app under a name of its own, or else
/// becomes a new app.
pub fn stored_place(linked: Option<RecordId>, fresh: RecordId, sha256: &str) -> (place: StoredPlace)
    ensures
        match linked {
            Some(app_id) => {
                &&& place.app_id == app_id
                &&& place.name@ == record::replacement_name_of(app_id, sha256@)
            },
            None => {
                &&& place.app_id == fresh
                &&& place.name@ == record::stored_name_of(fresh)
            },
        },
{
    match linked {
        Some(app_id) => StoredPlace { app_id, name: record::replacement_name(app_id, sha256) },
        None => StoredPlace { app_id: fresh, name: record::stored_name(fresh) },
    }
}

/// The stored file that is removed after a download.
#[derive(Debug, Clone, Copy, PartialEq, Eq, Structural)]
pub enum Retired {
    Nothing,
    /// The one that the linked app had before.
    Earlier,
    /// The one that the download was moved to: after a download that was stored as a new app, for a
    /// source that had none.
    Moved,
}

pub open spec fn failed_download_answer() -> Reply {
    reply::coded(
        409,
        "source_download_failed",
        "The source could not replace the server IPA; it may have an active job or bundle mismatch.",
    )
}

/// The steps of settling, one after the other.
pub open spec fn first_settling_step(settlement: Settlement) -> Option<DownloadStep> {
    match settlement {
        Settlement::Refused => None,
        Settlement::Unchanged => Some(DownloadStep::RecordUnchanged),
        Settlement::Replace => Some(DownloadStep::MoveFile),
        Settlement::Store => Some(DownloadStep::MoveFile),
    }
}

impl DownloadStep {
    /// What comes after the step where it succeeds.
    pub open spec fn onward(self, settlement: Settlement) -> DownloadTurn {
        match self {
            DownloadStep::Action => DownloadTurn::Next(DownloadStep::Source),
            DownloadStep::Source => DownloadTurn::Next(DownloadStep::Release),
            DownloadStep::Release => DownloadTurn::Next(DownloadStep::Asset),
            DownloadStep::Asset => DownloadTurn::Next(DownloadStep::Receive),
            DownloadStep::Receive => DownloadTurn::Next(DownloadStep::Inspect),
            DownloadStep::Inspect => DownloadTurn::Next(DownloadStep::Settle),
            DownloadStep::Settle => match first_settling_step(settlement) {
                Some(step) => DownloadTurn::Next(step),
                None => self.failed(DownloadFault::Other),
            },
            DownloadStep::RecordUnchanged => DownloadTurn::Done {
                status: 208,
                word: "unchanged",
                drop_temporary: true,
                retire: Retired::Nothing,
            },
            DownloadStep::MoveFile => DownloadTurn::Next(
                if settlement is Replace {
                    DownloadStep::ReplaceRow
                } else {
                    DownloadStep::InsertRow
                },
            ),
            DownloadStep::ReplaceRow => DownloadTurn::Done {
                status: 200,
                word: "downloaded",
                drop_temporary: false,
                retire: Retired::Earlier,
            },
            DownloadStep::InsertRow => DownloadTurn::Next(DownloadStep::LinkSource),
            DownloadStep::LinkSource => DownloadTurn::Next(DownloadStep::RecordDownload),
            DownloadStep::RecordDownload => DownloadTurn::Done {
                status: 200,
                word: "downloaded",
                drop_temporary: false,
                retire: Retired::Moved,
            },
        }
    }

    /// The file has been moved to its final name before the step.
    pub open spec fn has_moved(self) -> bool {
        ||| self is ReplaceRow
        ||| self is InsertRow
        ||| self is LinkSource
        ||| self is RecordDownload
    }

    /// The answer and the cleaning up where the step fails.
    pub open spec fn failed(self, fault: DownloadFault) -> DownloadTurn {
        match self {
            DownloadStep::Action => DownloadTurn::Refuse {
                reply: reply::action_reply(),
                record: FailureRecord::Nothing,
                drop_temporary: false,
                drop_final: false,
            },
            DownloadStep::Source => DownloadTurn::Refuse {
                reply: reply::told(404, "GitHub source was not found."),
                record: FailureRecord::Nothing,
                drop_temporary: false,
                drop_final: false,
            },
            DownloadStep::Release | DownloadStep::Asset | DownloadStep::Receive => {
                DownloadTurn::Refuse {
                    reply: error_answer(
                        match fault {
                            DownloadFault::GitHub(error) => error,
                            DownloadFault::Other => GitHubError::InvalidResponse,
                        },
                    ),
                    record: FailureRecord::Code,
                    drop_temporary: self is Receive,
                    drop_final: false,
                }
            },
            DownloadStep::Inspect => DownloadTurn::Refuse {
                reply: reply::coded(
                    400,
                    "invalid_ipa",
                    "The downloaded release asset is not a valid IPA.",
                ),
                record: FailureRecord::InvalidIpa,
                drop_temporary: true,
                drop_final: false,
            },
            _ => DownloadTurn::Refuse {
                reply: failed_download_answer(),
                record: FailureRecord::Nothing,
                drop_temporary: true,
                drop_final: self.has_moved(),
            },
        }
    }

    /// What comes after the step.
    pub fn advance(self, settlement: Settlement) -> (turn: DownloadTurn)
        ensures
            turn == self.onward(settlement),
    {
        match self {
            DownloadStep::Action => DownloadTurn::Next(DownloadStep::Source),
            DownloadStep::Source => DownloadTurn::Next(DownloadStep::Release),
            DownloadStep::Release => DownloadTurn::Next(DownloadStep::Asset),
            DownloadStep::Asset => DownloadTurn::Next(DownloadStep::Receive),
            DownloadStep::Receive => DownloadTurn::Next(DownloadStep::Inspect),
            DownloadStep::Inspect => DownloadTurn::Next(DownloadStep::Settle),
            DownloadStep::Settle => match settlement {
                Settlement::Refused => self.fail(DownloadFault::Other),
                Settlement::Unchanged => DownloadTurn::Next(DownloadStep::RecordUnchanged),
                Settlement::Replace => DownloadTurn::Next(DownloadStep::MoveFile),
                Settlement::Store => DownloadTurn::Next(DownloadStep::MoveFile),
            },
            DownloadStep::RecordUnchanged => DownloadTurn::Done {
                status: 208,
                word: "unchanged",
                drop_temporary: true,
                retire: Retired::Nothing,
            },
            DownloadStep::MoveFile => DownloadTurn::Next(
                if settlement == Settlement::Replace {
                    DownloadStep::ReplaceRow
                } else {
                    DownloadStep::InsertRow
                },
            ),
            DownloadStep::ReplaceRow => DownloadTurn::Done {
                status: 200,
                word: "downloaded",
                drop_temporary: false,
                retire: Retired::Earlier,
            },
            DownloadStep::InsertRow => DownloadTurn::Next(DownloadStep::LinkSource),
            DownloadStep::LinkSource => DownloadTurn::Next(DownloadStep::RecordDownload),
            DownloadStep::RecordDownload => DownloadTurn::Done {
                status: 200,
                word: "downloaded",
                drop_temporary: false,
                retire: Retired::Moved,
            },
        }
    }

    /// What comes after the step where it fails.
    pub fn fail(self, fault: DownloadFault) -> (turn: DownloadTurn)
        ensures
            turn == self.failed(fault),
    {
        match self {
            DownloadStep::Action => DownloadTurn::Refuse {
                reply: reply::action_required(),
                record: FailureRecord::Nothing,
                drop_temporary: false,
                drop_final: false,
            },
            DownloadStep::Source => DownloadTurn::Refuse {
                reply: Reply::told(404, "GitHub source was not found."),
                record: FailureRecord::Nothing,
                drop_temporary: false,
                drop_final: false,
            },
            DownloadStep::Release | DownloadStep::Asset | DownloadStep::Receive => {
                DownloadTurn::Refuse {
                    reply: error_response(
                        match fault {
                            DownloadFault::GitHub(error) => error,
                            DownloadFault::Other => GitHubError::InvalidResponse,
                        },
                    ),
                    record: FailureRecord::Code,
                    drop_temporary: self == DownloadStep::Receive,
                    drop_final: false,
                }
            },
            DownloadStep::Inspect => DownloadTurn::Refuse {
                reply: Reply::coded(
                    400,
                    "invalid_ipa",
                    "The downloaded release asset is not a valid IPA.",
                ),
                record: FailureRecord::InvalidIpa,
                drop_temporary: true,
                drop_final: false,
            },
            _ => DownloadTurn::Refuse {
                reply: Reply::coded(
                    409,
                    "source_download_failed",
                    "The source could not replace the server IPA; it may have an active job or bundle mismatch.",
                ),
                record: FailureRecord::Nothing,
                drop_temporary: true,
                drop_final: self == DownloadStep::ReplaceRow || self == DownloadStep::InsertRow
                    || self == DownloadStep::LinkSource || self == DownloadStep::RecordDownload,
            },
        }
    }
}

/// A download that fails after it began to receive leaves neither its temporary file nor a moved
/// one behind.
pub proof fn failed_downloads_leave_no_file(step: DownloadStep, fault: DownloadFault)
    requires
        !(step is Action || step is Source || step is Release || step is Asset),
    ensures
        step.failed(fault) matches DownloadTurn::Refuse { drop_temporary, drop_final, .. }
            && drop_temporary && (step.has_moved() ==> drop_final),
{
}

/// A download that fails is answered with the status of an error, and drops the file that it has
/// moved. Before anything was received there is nothing to drop.
pub proof fn failed_downloads_are_told(step: DownloadStep, fault: DownloadFault)
    ensures
        step.failed(fault) matches DownloadTurn::Refuse {
            reply,
            drop_temporary,
            drop_final,
            record,
        } && {
            &&& reply.status >= 400
            &&& drop_final <==> step is ReplaceRow || step is InsertRow || step is LinkSource
                || step is RecordDownload
            &&& drop_temporary <==> !(step is Action || step is Source || step is Release
                || step is Asset)
            &&& record is Code <==> step is Release || step is Asset || step is Receive
            &&& record is InvalidIpa <==> step is Inspect
        },
{
}

/// A file is moved into place, and a row changed, only for what was received, found to be an IPA and
/// settled to be stored; an app is replaced only where the settlement says so, and its earlier file is
/// removed only then.
pub proof fn downloads_are_taken_in_order(step: DownloadStep, settlement: Settlement)
    ensures
        step.onward(settlement) == DownloadTurn::Next(DownloadStep::Settle) ==> step is Inspect,
        step.onward(settlement) == DownloadTurn::Next(DownloadStep::Inspect) ==> step is Receive,
        step.onward(settlement) == DownloadTurn::Next(DownloadStep::Receive) ==> step is Asset,
        step.onward(settlement) == DownloadTurn::Next(DownloadStep::MoveFile) ==> step is Settle && (
        settlement is Replace || settlement is Store),
        step.onward(settlement) == DownloadTurn::Next(DownloadStep::RecordUnchanged) ==> step
            is Settle && settlement is Unchanged,
        step is Settle && settlement is Refused ==> step.onward(settlement) is Refuse,
        step.onward(settlement) == DownloadTurn::Next(DownloadStep::ReplaceRow) ==> step is MoveFile
            && settlement is Replace,
        step is MoveFile && settlement is Store ==> step.onward(settlement) == DownloadTurn::Next(
            DownloadStep::InsertRow,
        ),
        step.onward(settlement) matches DownloadTurn::Done { status, word, retire, .. } ==> {
            &&& retire is Earlier <==> step is ReplaceRow
            &&& step is RecordUnchanged <==> status == 208
            &&& step is RecordUnchanged <==> word@ == "unchanged"@
            &&& !(step is RecordUnchanged) ==> status == 200 && word@ == "downloaded"@
            &&& step is RecordUnchanged || step is ReplaceRow || step is RecordDownload
        },
{
    reveal_strlit("unchanged");
    reveal_strlit("downloaded");
    assert("unchanged"@.len() == 9);
    assert("downloaded"@.len() == 10);
}

/// A download that finds nothing new changes no stored file.
pub proof fn unchanged_downloads_retire_nothing(settlement: Settlement)
    ensures
        DownloadStep::RecordUnchanged.onward(settlement) matches DownloadTurn::Done {
            status,
            retire,
            ..
        } && status == 208 && retire is Nothing,
{
}

// ---------------------------------------------------------------------------------------------
// Synchronization.
// ---------------------------------------------------------------------------------------------

/// The answer while another synchronization runs.
pub fn sync_busy() -> (reply: Reply)
    ensures
        reply == reply::told(409, "Source synchronization is already running."),
{
    Reply::told(409, "Source synchronization is already running.")
}

/// The sources that download by themselves, in their order.
pub open spec fn automatic(sources: Seq<GitHubSource>) -> Seq<RecordId>
    decreases sources.len(),
{
    if sources.len() == 0 {
        Seq::empty()
    } else {
        let before = automatic(sources.drop_last());
        if sources.last().auto_download {
            before.push(sources.last().id)
        } else {
            before
        }
    }
}

/// The sources that download by themselves.
pub fn automatic_sources(sources: &Vec<GitHubSource>) -> (ids: Vec<RecordId>)
    ensures
        ids@ == automatic(sources@),
{
    let mut ids: Vec<RecordId> = Vec::new();
    let mut i: usize = 0;
    proof {
        assert(sources@.take(0) == Seq::<GitHubSource>::empty());
    }
    while i < sources.len()
        invariant
            i <= sources.len(),
            ids@ == automatic(sources@.take(i as int)),
        decreases sources.len() - i,
    {
        proof {
            assert(sources@.take(i + 1).drop_last() == sources@.take(i as int));
        }
        if sources[i].auto_download {
            ids.push(sources[i].id);
        }
        i = i + 1;
    }
    proof {
        assert(sources@.take(i as int) == sources@);
    }
    ids
}

/// A synchronization downloads for exactly the sources that download by themselves.
pub proof fn only_automatic_sources_are_synchronized(sources: Seq<GitHubSource>, id: RecordId)
    ensures
        automatic(sources).contains(id) <==> exists|i: int|
            0 <= i < sources.len() && (#[trigger] sources[i]).auto_download && sources[i].id == id,
    decreases sources.len(),
{
    if sources.len() > 0 {
        let rest = sources.drop_last();
        let before = automatic(rest);
        let now = automatic(sources);
        only_automatic_sources_are_synchronized(rest, id);
        if before.contains(id) {
            let k = choose|k: int| 0 <= k < before.len() && before[k] == id;
            assert(now[k] == id);
            let i = choose|i: int|
                0 <= i < rest.len() && (#[trigger] rest[i]).auto_download && rest[i].id == id;
            assert(sources[i] == rest[i]);
        }
        if sources.last().auto_download && sources.last().id == id {
            assert(now[before.len() as int] == id);
            assert(sources[sources.len() - 1].auto_download);
        }
        if now.contains(id) && !before.contains(id) {
            let k = choose|k: int| 0 <= k < now.len() && now[k] == id;
            if k < before.len() {
                assert(before[k] == id);
            }
            assert(sources[sources.len() - 1] == sources.last());
        }
        if exists|i: int|
            0 <= i < sources.len() && (#[trigger] sources[i]).auto_download && sources[i].id == id {
            let i = choose|i: int|
                0 <= i < sources.len() && (#[trigger] sources[i]).auto_download && sources[i].id
                    == id;
            if i < rest.len() {
                assert(rest[i] == sources[i]);
            }
        }
    }
}

/// How the downloads of a synchronization ended.
#[derive(Debug, Clone, Copy, PartialEq, Eq, Structural)]
pub struct SyncTally {
    pub checked: usize,
    pub updated: usize,
    pub unchanged: usize,
    pub failed: usize,
}

pub open spec fn count_of(statuses: Seq<u16>, class: spec_fn(u16) -> bool) -> nat {
    statuses.filter(class).len()
}

pub open spec fn is_unchanged_status(status: u16) -> bool {
    status == 208
}

pub open spec fn is_updated_status(status: u16) -> bool {
    github::is_success(status) && status != 208
}

/// One more download counts once: as unchanged with status 208, as updated with any other success,
/// and as failed otherwise.
pub proof fn every_download_counts_once(statuses: Seq<u16>, status: u16)
    ensures
        ({
            let all = statuses.push(status);
            let unchanged = |status: u16| is_unchanged_status(status);
            let updated = |status: u16| is_updated_status(status);
            let failed = |status: u16| !github::is_success(status);
            &&& count_of(all, unchanged) == count_of(statuses, unchanged) + if status == 208 {
                1nat
            } else {
                0
            }
            &&& count_of(all, updated) == count_of(statuses, updated) + if 200 <= status < 300
                && status != 208 {
                1nat
            } else {
                0
            }
            &&& count_of(all, failed) == count_of(statuses, failed) + if 200 <= status < 300 {
                0nat
            } else {
                1
            }
        }),
{
    reveal(Seq::filter);
    let all = statuses.push(status);
    assert(all.drop_last() == statuses);
}

/// Counts the statuses that the downloads were answered with.
pub fn tally(statuses: &Vec<u16>) -> (tally: SyncTally)
    ensures
        tally.unchanged == count_of(statuses@, |status: u16| is_unchanged_status(status)),
        tally.updated == count_of(statuses@, |status: u16| is_updated_status(status)),
        tally.failed == count_of(statuses@, |status: u16| !github::is_success(status)),
        tally.checked == statuses@.len(),
        tally.checked == tally.updated + tally.unchanged + tally.failed,
{
    let mut updated: usize = 0;
    let mut unchanged: usize = 0;
    let mut failed: usize = 0;
    let mut i: usize = 0;
    proof {
        assert(statuses@.take(0) == Seq::<u16>::empty());
        reveal(Seq::filter);
    }
    while i < statuses.len()
        invariant
            i <= statuses.len(),
            unchanged == count_of(
                statuses@.take(i as int),
                |status: u16| is_unchanged_status(status),
            ),
            updated == count_of(statuses@.take(i as int), |status: u16| is_updated_status(status)),
            failed == count_of(statuses@.take(i as int), |status: u16| !github::is_success(status)),
            updated + unchanged + failed == i,
        decreases statuses.len() - i,
    {
        proof {
            reveal(Seq::filter);
            assert(statuses@.take(i + 1).drop_last() == statuses@.take(i as int));
            assert(statuses@.take(i + 1).last() == statuses@[i as int]);
        }
        let status: u16 = statuses[i];
        if status == 208 {
            unchanged = unchanged + 1;
        } else if 200 <= status && status <= 299 {
            updated = updated + 1;
        } else {
            failed = failed + 1;
        }
        i = i + 1;
    }
    proof {
        assert(statuses@.take(i as int) == statuses@);
    }
    SyncTally { checked: statuses.len(), updated, unchanged, failed }
}

/// Each error is told by the code and the sentence of what went wrong.
pub proof fn source_errors_are_told(error: GitHubError)
    ensures
        ({
            let code = error_answer(error).code->0@;
            let told = error_answer(error).message->0@;
            &&& error is InvalidRepository ==> code == "invalid_repository"@ && told
                == "Only public canonical GitHub repositories are supported."@
            &&& error is InvalidPattern ==> code == "invalid_asset_pattern"@ && told
                == "The IPA asset pattern is invalid."@
            &&& error is NoMatchingAsset ==> code == "no_ipa_asset"@ && told
                == "No eligible IPA asset matches this source pattern."@
            &&& error is AmbiguousAsset ==> code == "ambiguous_asset"@ && told
                == "The asset pattern matches more than one IPA; refine it before downloading."@
            &&& error is TooLarge ==> code == "asset_too_large"@ && told
                == "The selected IPA exceeds the upload size limit."@
            &&& error is InvalidDownloadUrl ==> code == "invalid_download_url"@ && told
                == "The GitHub source could not be processed."@
            &&& error == GitHubError::Http(403) || error == GitHubError::Http(429) ==> code
                == "github_rate_limited"@ && told
                == "GitHub rate-limited this request; try again later."@
            &&& error is Http && error != GitHubError::Http(403) && error != GitHubError::Http(429)
                || error is InvalidResponse || error is InvalidVersion ==> code
                == "github_unavailable"@ && told == "The GitHub source could not be processed."@
        }),
{
    reveal_strlit("invalid_repository");
    reveal_strlit("invalid_asset_pattern");
    reveal_strlit("no_ipa_asset");
    reveal_strlit("ambiguous_asset");
    reveal_strlit("asset_too_large");
    reveal_strlit("invalid_download_url");
    reveal_strlit("github_rate_limited");
    reveal_strlit("github_unavailable");
    assert("invalid_repository"@.len() == 18 && "invalid_repository"@[0] == 'i');
    assert("invalid_asset_pattern"@.len() == 21);
    assert("no_ipa_asset"@.len() == 12);
    assert("ambiguous_asset"@.len() == 15 && "ambiguous_asset"@[1] == 'm');
    assert("asset_too_large"@.len() == 15 && "asset_too_large"@[1] == 's');
    assert("invalid_download_url"@.len() == 20);
    assert("github_rate_limited"@.len() == 19);
    assert("github_unavailable"@.len() == 18 && "github_unavailable"@[0] == 'g');
}

/// A source is refused for the first fault, and its answer tells which: a new one for its
/// configuration before its link, and a changed one for its link before its configuration.
pub proof fn refused_sources_are_told(
    repository: Seq<char>,
    pattern: Seq<char>,
    link: AppLink,
    owner: Seq<char>,
    repo: Seq<char>,
)
    ensures
        creation_refusal(false, repository, pattern, link) == Some(reply::action_reply()),
        change_refusal(false, repository, pattern, link) == Some(reply::action_reply()),
        (forall|o: Seq<char>, r: Seq<char>| !github::names_repository(repository, o, r))
            ==> creation_refusal(true, repository, pattern, link) == Some(
            error_answer(GitHubError::InvalidRepository),
        ),
        github::names_repository(repository, owner, repo) && !github::is_asset_pattern(pattern)
            ==> creation_refusal(true, repository, pattern, link) == Some(
            error_answer(GitHubError::InvalidPattern),
        ),
        link is Unknown ==> {
            let refusal = change_refusal(true, repository, pattern, link);
            refusal is Some && reply::says(refusal->0, 404, "The linked IPA was not found."@)
        },
        link is Unknown && github::names_repository(repository, owner, repo)
            && github::is_asset_pattern(pattern) ==> {
            let refusal = creation_refusal(true, repository, pattern, link);
            refusal is Some && reply::says(refusal->0, 404, "The linked IPA was not found."@)
        },
        !(link is Unknown) ==> change_refusal(true, repository, pattern, link) == creation_refusal(
            true,
            repository,
            pattern,
            link,
        ),
{
}

/// Automatic downloads that are not switched tell why.
pub proof fn refused_automation_is_told(request: AutomationRequest)
    ensures
        automation_refusal_of(false, request) == Some(reply::action_reply()),
        request.enabled && !request.acknowledged_security_warning ==> {
            let refusal = automation_refusal_of(true, request);
            &&& refusal is Some
            &&& refusal->0.code is Some && refusal->0.code->0@
                == "security_acknowledgement_required"@
            &&& refusal->0.message is Some && refusal->0.message->0@
                == "Read and acknowledge the source security warning before enabling automatic downloads."@
        },
{
}

/// A preview shows the IPAs in the order of the assets.
pub proof fn previews_keep_the_order(assets: Seq<ReleaseAsset>, asset: ReleaseAsset)
    ensures
        text::finishes_with(text::lowered(asset.name@), ".ipa"@) ==> ipa_assets(assets.push(asset))
            == ipa_assets(assets).push(asset),
        !text::finishes_with(text::lowered(asset.name@), ".ipa"@) ==> ipa_assets(
            assets.push(asset),
        ) == ipa_assets(assets),
        ipa_assets(Seq::empty()).len() == 0,
{
    reveal(Seq::filter);
    assert(assets.push(asset).drop_last() =~= assets);
}

/// A shown asset is the one of the release, by its number, its name and its size.
pub proof fn shown_assets_are_those_of_the_release(shown: PreviewAsset, asset: ReleaseAsset)
    ensures
        shows(shown, asset) <==> shown.id == asset.id && shown.name@ == asset.name@ && shown.size
            == asset.size,
{
}

/// A check takes its steps in their order. An error of GitHub is answered and recorded on the
/// source; what is wrong with the request itself is not recorded.
pub proof fn checks_take_their_steps_in_order(step: CheckStep, error: GitHubError)
    ensures
        CheckStep::Action.turn(Ok(())) == CheckTurn::Next(CheckStep::Source),
        CheckStep::Source.turn(Ok(())) == CheckTurn::Next(CheckStep::Release),
        CheckStep::Release.turn(Ok(())) == CheckTurn::Next(CheckStep::Asset),
        step.turn(Ok(())) is Checked <==> step is Asset,
        step.turn(Err(error)) is Refuse,
        step is Action ==> step.turn(Err(error))->reply == reply::action_reply(),
        step is Source ==> reply::says(
            step.turn(Err(error))->reply,
            404,
            "GitHub source was not found."@,
        ),
        step is Action || step is Source ==> step.turn(Err(error))->record is None,
        step is Release || step is Asset ==> step.turn(Err(error))->record == Some(error)
            && step.turn(Err(error))->reply == error_answer(error),
{
}

/// A download goes from its request over the release and its asset to the file that was received and
/// inspected, and from there as it is settled: nothing new is recorded as such, a replacement is moved
/// into place and changes the row of the app, and a new app is moved, stored, linked and recorded.
pub proof fn downloads_go_step_by_step(settlement: Settlement)
    ensures
        DownloadStep::Action.onward(settlement) == DownloadTurn::Next(DownloadStep::Source),
        DownloadStep::Source.onward(settlement) == DownloadTurn::Next(DownloadStep::Release),
        DownloadStep::Release.onward(settlement) == DownloadTurn::Next(DownloadStep::Asset),
        DownloadStep::Asset.onward(settlement) == DownloadTurn::Next(DownloadStep::Receive),
        DownloadStep::Receive.onward(settlement) == DownloadTurn::Next(DownloadStep::Inspect),
        DownloadStep::Inspect.onward(settlement) == DownloadTurn::Next(DownloadStep::Settle),
        settlement is Unchanged ==> DownloadStep::Settle.onward(settlement) == DownloadTurn::Next(
            DownloadStep::RecordUnchanged,
        ),
        settlement is Replace || settlement is Store ==> DownloadStep::Settle.onward(settlement)
            == DownloadTurn::Next(DownloadStep::MoveFile),
        settlement is Replace ==> DownloadStep::MoveFile.onward(settlement) == DownloadTurn::Next(
            DownloadStep::ReplaceRow,
        ),
        settlement is Store ==> DownloadStep::MoveFile.onward(settlement) == DownloadTurn::Next(
            DownloadStep::InsertRow,
        ),
        DownloadStep::InsertRow.onward(settlement) == DownloadTurn::Next(DownloadStep::LinkSource),
        DownloadStep::LinkSource.onward(settlement) == DownloadTurn::Next(
            DownloadStep::RecordDownload,
        ),
        DownloadStep::ReplaceRow.onward(settlement) is Done,
        DownloadStep::RecordDownload.onward(settlement) is Done,
        DownloadStep::RecordUnchanged.onward(settlement) is Done,
{
}

/// A file that was received and brings nothing new is removed. A replacement retires the file that
/// the app had before, and a download that became a new app the one that it was moved to.
pub proof fn finished_downloads_clean_up(settlement: Settlement)
    ensures
        DownloadStep::RecordUnchanged.onward(settlement) matches DownloadTurn::Done {
            drop_temporary,
            retire,
            ..
        } && drop_temporary && retire is Nothing,
        DownloadStep::ReplaceRow.onward(settlement) matches DownloadTurn::Done {
            drop_temporary,
            retire,
            ..
        } && !drop_temporary && retire is Earlier,
        DownloadStep::RecordDownload.onward(settlement) matches DownloadTurn::Done {
            drop_temporary,
            retire,
            ..
        } && !drop_temporary && retire is Moved,
{
}

/// A download that fails tells why: that its source is missing, what GitHub answered, that the asset
/// is no IPA, or that the server's IPA could not be replaced.
pub proof fn failed_downloads_tell_why(step: DownloadStep, error: GitHubError)
    ensures
        ({
            let told = step.failed(DownloadFault::GitHub(error))->reply;
            let other = step.failed(DownloadFault::Other)->reply;
            &&& step is Action ==> told == reply::action_reply()
            &&& step is Source ==> reply::says(told, 404, "GitHub source was not found."@)
            &&& step is Release || step is Asset || step is Receive ==> told == error_answer(error)
                && other == error_answer(GitHubError::InvalidResponse)
            &&& step is Inspect ==> told.status == 400 && told.code is Some && told.code->0@
                == "invalid_ipa"@ && told.message is Some && told.message->0@
                == "The downloaded release asset is not a valid IPA."@
            &&& step is Settle || step is RecordUnchanged || step is MoveFile || step is ReplaceRow
                || step is InsertRow || step is LinkSource || step is RecordDownload
                ==> told.status == 409 && told.code is Some && told.code->0@
                == "source_download_failed"@ && told.message is Some && told.message->0@
                == "The source could not replace the server IPA; it may have an active job or bundle mismatch."@
        }),
{
}

/// What a download came to is recorded under the word that it is told by, and nothing is recorded
/// before.
pub proof fn downloads_are_recorded_as_they_are_told(step: DownloadStep, settlement: Settlement)
    ensures
        step is RecordUnchanged ==> recorded_word(step) is Some && recorded_word(step)->0@
            == "unchanged"@,
        step is ReplaceRow || step is RecordDownload ==> recorded_word(step) is Some
            && recorded_word(step)->0@ == "downloaded"@,
        recorded_word(step) is Some <==> step.onward(settlement) is Done,
        step.onward(settlement) is Done ==> recorded_word(step)->0@ == step.onward(
            settlement,
        )->word@,
{
}

/// A check tells an update where the release was not taken, and else that the source is up to date.
pub proof fn checks_tell_what_they_find()
    ensures
        check_word(true)@ == "up_to_date"@,
        check_word(false)@ == "update_available"@,
{
}

} // verus!
