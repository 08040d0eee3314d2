use iphoneloadly_api::github::{
    accept_status, asset_download_url, latest_eligible_release, latest_release, match_ipa_asset,
    official_repository, official_version, parse_public_repository, redirect_allowed, releases_url,
    user_agent, validate_asset_pattern, wildcard_match, Download, GitHubError, Release,
    ReleaseAsset, RepositoryRef,
};
use iphoneloadly_api::ipa::MAX_COMPRESSED_BYTES;
use iphoneloadly_api::version::ReleaseVersion;

fn release(id: i64, tag_name: &str, prerelease: bool, names: &[&str]) -> Release {
    Release {
        id,
        tag_name: tag_name.into(),
        name: tag_name.into(),
        draft: false,
        prerelease,
        published_at: Some(format!("{id}")),
        assets: names
            .iter()
            .enumerate()
            .map(|(index, name)| ReleaseAsset {
                id: index as i64,
                name: (*name).into(),
                size: 1,
                digest: None,
                browser_download_url: String::new(),
            })
            .collect(),
    }
}

#[test]
fn repository_parser_rejects_noncanonical_inputs() {
    assert_eq!(parse_public_repository("owner/repo").unwrap().repo, "repo");
    assert!(parse_public_repository("http://github.com/owner/repo").is_err());
    assert!(parse_public_repository("https://evil.example/owner/repo").is_err());
    assert!(parse_public_repository("https://github.com/owner/repo/issues").is_err());
    assert!(parse_public_repository("https://github.com/owner/repo?x=1").is_err());
}

#[test]
fn asset_matching_is_case_insensitive_and_deterministic() {
    let first = release(1, "v1", false, &["other.zip", "MyApp.IPA"]);
    assert_eq!(
        match_ipa_asset(&first, "myapp.ipa").unwrap().name,
        "MyApp.IPA"
    );
    assert!(match_ipa_asset(&first, "*.ipa").is_ok());
    let ambiguous = release(2, "v2", false, &["a.ipa", "b.ipa"]);
    assert!(matches!(
        match_ipa_asset(&ambiguous, "*.ipa"),
        Err(GitHubError::AmbiguousAsset)
    ));
}

#[test]
fn release_selection_excludes_drafts_and_prereleases_by_default() {
    let releases = vec![
        release(1, "v1", false, &[]),
        release(2, "v2", true, &[]),
        Release {
            draft: true,
            ..release(3, "v3", false, &[])
        },
    ];
    assert_eq!(latest_eligible_release(&releases, false).unwrap().id, 1);
    assert_eq!(latest_eligible_release(&releases, true).unwrap().id, 2);
}

#[test]
fn addresses_and_names_give_the_same_repository() {
    let by_name = parse_public_repository("owner/repo").unwrap();
    let by_address = parse_public_repository("https://github.com/owner/repo").unwrap();
    assert_eq!(by_name.owner, by_address.owner);
    assert_eq!(by_name.repo, by_address.repo);
    assert_eq!(
        parse_public_repository("owner").err(),
        Some(GitHubError::InvalidRepository)
    );
    assert_eq!(
        parse_public_repository("").err(),
        Some(GitHubError::InvalidRepository)
    );
    assert_eq!(
        parse_public_repository("https://github.com/owner/repo#x").err(),
        Some(GitHubError::InvalidRepository)
    );
    assert_eq!(
        parse_public_repository("https://user@github.com/owner/repo").err(),
        Some(GitHubError::InvalidRepository)
    );
}

#[test]
fn asset_patterns_are_bounded() {
    assert!(validate_asset_pattern("*.ipa").is_ok());
    assert_eq!(
        validate_asset_pattern("").err(),
        Some(GitHubError::InvalidPattern)
    );
    assert_eq!(
        validate_asset_pattern("a/b.ipa").err(),
        Some(GitHubError::InvalidPattern)
    );
}

#[test]
fn wildcards_stand_for_any_text() {
    assert!(wildcard_match("*.ipa", "app.ipa"));
    assert!(wildcard_match("app-*.ipa", "app-1.2.ipa"));
    assert!(!wildcard_match("app-*.ipa", "other-1.2.ipa"));
    assert!(wildcard_match("app.ipa", "app.ipa"));
    assert!(!wildcard_match("app.ipa", "app.ipa2"));
}

#[test]
fn a_release_without_a_matching_asset_is_told() {
    let none = release(1, "v1", false, &["notes.txt"]);
    assert_eq!(
        match_ipa_asset(&none, "*.ipa").err(),
        Some(GitHubError::NoMatchingAsset)
    );
    assert_eq!(
        match_ipa_asset(&none, "").err(),
        Some(GitHubError::InvalidPattern)
    );
}

#[test]
fn no_eligible_release_has_no_asset() {
    let drafts = vec![Release {
        draft: true,
        ..release(1, "v1", false, &[])
    }];
    assert!(latest_eligible_release(&drafts, true).is_none());
    assert_eq!(
        latest_release(&drafts, true).err(),
        Some(GitHubError::NoMatchingAsset)
    );
    let found = latest_release(&vec![release(4, "v4", false, &[])], false).unwrap();
    assert_eq!(found.id, 4);
}

#[test]
fn official_versions_are_semantic_versions() {
    let version = official_version("v1.2.3").unwrap();
    assert_eq!(version.text, "1.2.3");
    assert!(!version.prerelease);
    assert!(official_version("v1.2.3-rc.1").unwrap().prerelease);
    assert_eq!(
        official_version("version one").err(),
        Some(GitHubError::InvalidVersion)
    );
}

#[test]
fn versions_are_ordered_by_their_numbers() {
    let older = ReleaseVersion::parse("1.9.0").unwrap();
    let newer = ReleaseVersion::parse("1.10.0").unwrap();
    let candidate = ReleaseVersion::parse("1.10.0-rc.1").unwrap();
    assert!(newer.is_newer_than(&older));
    assert!(!older.is_newer_than(&newer));
    assert!(newer.is_newer_than(&candidate));
    assert!(candidate.is_newer_than(&older));
    assert!(!newer.is_newer_than(&newer));
    assert!(ReleaseVersion::parse("one").is_none());
}

#[test]
fn the_official_repository_is_fixed() {
    let repository = official_repository();
    assert_eq!(repository.owner, "lemehavit");
    assert_eq!(repository.repo, "iPhoneLoadly");
    assert_eq!(
        releases_url(&repository),
        "https://api.github.com/repos/lemehavit/iPhoneLoadly/releases?per_page=100"
    );
    assert!(user_agent("0.2.0").contains("0.2.0"));
}

#[test]
fn downloads_come_from_the_release_itself() {
    let repository = RepositoryRef {
        owner: "owner".into(),
        repo: "repo".into(),
    };
    let mut found = release(7, "v1 beta", false, &["My App.ipa"]);
    found.assets[0].browser_download_url =
        "https://github.com/owner/repo/releases/download/v1%20beta/My%20App.ipa".into();
    let url = asset_download_url(&repository, &found, &found.assets[0]).unwrap();
    assert_eq!(
        url,
        "https://github.com/owner/repo/releases/download/v1%20beta/My%20App.ipa"
    );
    found.assets[0].browser_download_url = "https://evil.example/My%20App.ipa".into();
    assert_eq!(
        asset_download_url(&repository, &found, &found.assets[0]).err(),
        Some(GitHubError::InvalidDownloadUrl)
    );
}

#[test]
fn redirects_stay_on_secure_hosts() {
    assert!(redirect_allowed("https", Some("github.com")));
    assert!(redirect_allowed("https", Some("objects.githubusercontent.com")));
    assert!(!redirect_allowed("http", Some("github.com")));
    assert!(!redirect_allowed("https", Some("evil.example")));
    assert!(!redirect_allowed("https", None));
}

#[test]
fn statuses_other_than_success_are_refused() {
    assert!(accept_status(200).is_ok());
    assert_eq!(accept_status(404).err(), Some(GitHubError::Http(404)));
}

#[test]
fn downloads_end_at_the_limit() {
    let started = Download::begin(200, Some(10)).unwrap();
    assert_eq!(started.receive(10).unwrap().received, 10);
    assert_eq!(
        Download::begin(200, Some(MAX_COMPRESSED_BYTES + 1)).err(),
        Some(GitHubError::TooLarge)
    );
    assert_eq!(
        Download::begin(500, None).err(),
        Some(GitHubError::Http(500))
    );
    let full = Download::begin(200, None)
        .unwrap()
        .receive(MAX_COMPRESSED_BYTES)
        .unwrap();
    assert_eq!(full.receive(1).err(), Some(GitHubError::TooLarge));
}

#[test]
fn every_error_has_its_sentence() {
    let mut sentences = Vec::new();
    for error in [
        GitHubError::InvalidRepository,
        GitHubError::InvalidPattern,
        GitHubError::Http(500),
        GitHubError::InvalidResponse,
        GitHubError::TooLarge,
        GitHubError::InvalidDownloadUrl,
        GitHubError::NoMatchingAsset,
        GitHubError::AmbiguousAsset,
        GitHubError::InvalidVersion,
    ] {
        assert!(!error.message().is_empty());
        sentences.push(error.message());
    }
    sentences.sort();
    sentences.dedup();
    assert_eq!(sentences.len(), 9);
    assert_eq!(
        GitHubError::Http(404).message(),
        "GitHub request failed with status 404 Not Found"
    );
    assert_eq!(
        GitHubError::Http(599).message(),
        "GitHub request failed with status 599 <unknown status code>"
    );
}
