use iphoneloadly_api::github::{GitHubError, Release, ReleaseAsset};
use iphoneloadly_api::ipa::UploadMetadata;
use iphoneloadly_api::record::RecordId;
use iphoneloadly_api::reply::{
    action_allowed, read_failure, store_reply, ReadRequest, StoreAnswer, StoreRequest,
};
use iphoneloadly_api::sources::{
    accept_changed_source, accept_new_source, asset_record, automatic_sources, automation_refusal,
    check_record, check_source, code_message, download_record, error_record, error_response, failure_record,
    github_error_code, preview, repository_name, settle_download, source_check_status,
    source_exists, source_missing, stored_place, sync_busy, tally, AppLink, AutomationRequest,
    CheckStep, CheckTurn, DownloadFault, DownloadStep, DownloadTurn, FailureRecord, LinkedApp,
    Retired, Settlement, SourceConfig,
};
use iphoneloadly_api::store::GitHubSource;

fn asset(id: i64, name: &str) -> ReleaseAsset {
    ReleaseAsset {
        id,
        name: name.into(),
        size: 10,
        digest: None,
        browser_download_url: String::new(),
    }
}

fn release(id: i64, assets: Vec<ReleaseAsset>) -> Release {
    Release {
        id,
        tag_name: "v1".into(),
        name: "v1".into(),
        draft: false,
        prerelease: false,
        published_at: None,
        assets,
    }
}

fn source() -> GitHubSource {
    GitHubSource {
        id: RecordId { bits: 1 },
        app_id: Some(RecordId { bits: 2 }),
        owner: "owner".into(),
        repo: "repo".into(),
        asset_pattern: "*.ipa".into(),
        include_prereleases: false,
        auto_download: true,
        auto_acknowledged_at: Some("2026-01-01T00:00:00Z".into()),
        last_checked_at: None,
        last_release_id: None,
        last_release_tag: None,
        last_asset_id: None,
        last_asset_name: None,
        last_download_sha256: None,
        last_status: None,
        last_error_code: None,
        created_at: "2026-01-01T00:00:00Z".into(),
        updated_at: "2026-01-01T00:00:00Z".into(),
    }
}

fn metadata(bundle_id: &str, sha256: &str) -> UploadMetadata {
    UploadMetadata {
        sha256: sha256.into(),
        size_bytes: 10,
        app_bundle_path: "Payload/Example.app".into(),
        bundle_id: bundle_id.into(),
        display_name: "Example".into(),
        app_version: None,
        info_plist_present: true,
    }
}

fn config(repository: &str, asset_pattern: &str) -> SourceConfig {
    SourceConfig {
        repository: repository.into(),
        asset_pattern: asset_pattern.into(),
        include_prereleases: false,
        app_id: None,
    }
}

#[test]
fn repeated_checks_keep_pending_release_available_until_downloaded() {
    assert_eq!(
        source_check_status(None, None, None, 1, 10),
        "update_available"
    );
    assert_eq!(
        source_check_status(Some(1), Some(10), Some("downloaded"), 2, 20),
        "update_available"
    );
    assert_eq!(
        source_check_status(Some(2), Some(20), Some("update_available"), 2, 20),
        "update_available"
    );
    assert_eq!(
        source_check_status(Some(2), Some(20), Some("downloaded"), 2, 20),
        "up_to_date"
    );
    assert_eq!(
        source_check_status(Some(2), Some(20), Some("unchanged"), 2, 20),
        "up_to_date"
    );
}

#[test]
fn new_sources_are_checked_before_they_are_stored() {
    let accepted = accept_new_source(true, &config("owner/repo", "*.ipa"), AppLink::Unlinked);
    assert_eq!(accepted.unwrap().repo, "repo");
    let forbidden = accept_new_source(false, &config("owner/repo", "*.ipa"), AppLink::Unlinked);
    assert_eq!(forbidden.unwrap_err().status, 400);
    let invalid = accept_new_source(true, &config("owner", "*.ipa"), AppLink::Unlinked).unwrap_err();
    assert_eq!(invalid.code, Some("invalid_repository"));
    let pattern = accept_new_source(true, &config("owner/repo", ""), AppLink::Unlinked).unwrap_err();
    assert_eq!(pattern.code, Some("invalid_asset_pattern"));
    assert!(accept_new_source(true, &config("owner/repo", "*.ipa"), AppLink::Unknown).is_err());
    assert!(accept_changed_source(true, &config("owner/repo", "*.ipa"), AppLink::Known).is_ok());
    assert_eq!(source_exists().status, 409);
    assert_eq!(source_missing().status, 404);
}

#[test]
fn automation_needs_its_warning_acknowledged() {
    let enabled = AutomationRequest {
        enabled: true,
        acknowledged_security_warning: false,
    };
    assert!(automation_refusal(true, enabled).is_some());
    let acknowledged = AutomationRequest {
        enabled: true,
        acknowledged_security_warning: true,
    };
    assert!(automation_refusal(true, acknowledged).is_none());
    assert!(automation_refusal(false, acknowledged).is_some());
    let disabled = AutomationRequest {
        enabled: false,
        acknowledged_security_warning: false,
    };
    assert!(automation_refusal(true, disabled).is_none());
}

#[test]
fn errors_have_their_codes_and_sentences() {
    assert_eq!(github_error_code(GitHubError::Http(403)), "github_rate_limited");
    assert_eq!(github_error_code(GitHubError::Http(500)), "github_unavailable");
    assert_eq!(github_error_code(GitHubError::AmbiguousAsset), "ambiguous_asset");
    assert_eq!(
        code_message("no_ipa_asset"),
        "No eligible IPA asset matches this source pattern."
    );
    assert_eq!(
        code_message("anything"),
        "The GitHub source could not be processed."
    );
    assert_eq!(error_response(GitHubError::InvalidPattern).status, 400);
    assert_eq!(error_response(GitHubError::TooLarge).status, 502);
    assert_eq!(repository_name("owner", "repo"), "owner/repo");
    let record = error_record(GitHubError::TooLarge);
    assert_eq!(record.error_code, Some("asset_too_large"));
}

#[test]
fn previews_mark_the_matching_asset() {
    let found = preview(
        &release(1, vec![asset(1, "notes.txt"), asset(2, "app.ipa")]),
        "*.ipa",
    );
    assert_eq!(found.matching, Some(2));
    let ambiguous = preview(
        &release(1, vec![asset(1, "a.ipa"), asset(2, "b.ipa")]),
        "*.ipa",
    );
    assert_eq!(ambiguous.matching, None);
}

#[test]
fn checks_compare_with_what_was_downloaded() {
    let mut known = source();
    let found = release(5, vec![asset(7, "app.ipa")]);
    let check = check_source(&known, &found).unwrap();
    let record = check_record(&known, &found, &check);
    assert_eq!(record.status, check.status);
    assert_eq!(record.release_id, Some(found.id));
    assert_eq!(record.asset_id, Some(check.asset.id));
    assert_eq!(record.sha256, known.last_download_sha256);
    assert_eq!(check.status, "update_available");
    known.last_release_id = Some(5);
    known.last_asset_id = Some(7);
    known.last_status = Some("downloaded".into());
    assert_eq!(check_source(&known, &found).unwrap().status, "up_to_date");
    assert_eq!(
        check_source(&known, &release(5, vec![])).err(),
        Some(GitHubError::NoMatchingAsset)
    );
    let record = asset_record(&found, &found.assets[0], None, "update_available", None);
    assert_eq!(record.release_id, Some(5));
    assert_eq!(record.asset_name.as_deref(), Some("app.ipa"));
}

#[test]
fn replacements_keep_the_bundle_of_their_app() {
    let known = source();
    let fitting = LinkedApp::Present {
        active: Some(false),
        bundle_id: Some("com.example.app".into()),
        sha256: "old".into(),
    };
    assert_eq!(
        settle_download(Some(&source()), &known, &fitting, &metadata("com.example.app", "new")),
        Settlement::Replace
    );
    assert_eq!(
        settle_download(Some(&source()), &known, &fitting, &metadata("com.example.app", "old")),
        Settlement::Unchanged
    );
    assert_eq!(
        settle_download(Some(&source()), &known, &fitting, &metadata("com.example.other", "new")),
        Settlement::Refused
    );
    let busy = LinkedApp::Present {
        active: Some(true),
        bundle_id: Some("com.example.app".into()),
        sha256: "old".into(),
    };
    assert_eq!(
        settle_download(Some(&source()), &known, &busy, &metadata("com.example.app", "new")),
        Settlement::Refused
    );
    assert_eq!(
        settle_download(None, &known, &fitting, &metadata("com.example.app", "new")),
        Settlement::Refused
    );
}

#[test]
fn downloads_go_step_by_step() {
    let mut step = DownloadStep::Action;
    let mut steps = 1;
    loop {
        match step.advance(Settlement::Replace) {
            DownloadTurn::Next(next) => {
                step = next;
                steps += 1;
            }
            DownloadTurn::Done { status, word, retire, .. } => {
                assert_eq!(status, 200);
                assert_eq!(word, "downloaded");
                assert_eq!(retire, Retired::Earlier);
                break;
            }
            DownloadTurn::Refuse { .. } => panic!("nothing has failed"),
        }
    }
    assert_eq!(steps, 9);
    let DownloadTurn::Refuse {
        reply,
        record,
        drop_temporary,
        drop_final,
    } = DownloadStep::Receive.fail(DownloadFault::GitHub(GitHubError::TooLarge))
    else {
        panic!("a failed step is refused");
    };
    assert_eq!(reply.code, Some("asset_too_large"));
    assert_eq!(record, FailureRecord::Code);
    assert!(drop_temporary);
    assert!(!drop_final);
    let DownloadTurn::Refuse { drop_final, .. } =
        DownloadStep::LinkSource.fail(DownloadFault::Other)
    else {
        panic!("a failed step is refused");
    };
    assert!(drop_final);
}

#[test]
fn synchronisation_takes_the_automatic_sources() {
    let mut manual = source();
    manual.auto_download = false;
    let mut second = source();
    second.id = RecordId { bits: 9 };
    assert_eq!(
        automatic_sources(&vec![source(), manual, second]),
        vec![RecordId { bits: 1 }, RecordId { bits: 9 }]
    );
    let counted = tally(&vec![200, 208, 502]);
    assert_eq!(counted.checked, 3);
    assert_eq!(counted.updated, 1);
    assert_eq!(counted.unchanged, 1);
    assert_eq!(counted.failed, 1);
    assert_eq!(sync_busy().status, 409);
}

#[test]
fn actions_carry_their_header() {
    assert!(action_allowed(Some("1"), Some("application/json")));
    assert!(!action_allowed(None, Some("application/json")));
    assert!(!action_allowed(Some("1"), None));
    assert!(!action_allowed(Some("1"), Some("text/plain")));
}

#[test]
fn statements_are_answered() {
    assert_eq!(
        store_reply(StoreRequest::RenameApp, StoreAnswer::Done).status,
        204
    );
    assert_eq!(
        store_reply(StoreRequest::RenameApp, StoreAnswer::Absent).message,
        Some("Uploaded IPA was not found.")
    );
    assert_eq!(
        store_reply(StoreRequest::UpdateSource, StoreAnswer::Failed).status,
        409
    );
    assert_eq!(read_failure(ReadRequest::Apps).status, 200);
    assert_eq!(read_failure(ReadRequest::Sources).status, 500);
}

#[test]
fn checks_record_their_errors() {
    let error = GitHubError::NoMatchingAsset;
    let refused = |step: CheckStep| match step.advance(Err(error)) {
        CheckTurn::Refuse { reply, record } => (reply.status, record),
        _ => panic!("a step that fails ends the check"),
    };
    assert_eq!(refused(CheckStep::Action).1, None);
    assert_eq!(refused(CheckStep::Source), (404, None));
    assert_eq!(refused(CheckStep::Release).1, Some(error));
    assert_eq!(refused(CheckStep::Asset).1, Some(error));
    assert!(matches!(
        CheckStep::Release.advance(Ok(())),
        CheckTurn::Next(CheckStep::Asset)
    ));
    assert!(matches!(CheckStep::Asset.advance(Ok(())), CheckTurn::Checked));
}

#[test]
fn failed_downloads_are_recorded() {
    let other = DownloadFault::Other;
    assert!(failure_record(FailureRecord::Nothing, other, None).is_none());
    let record = failure_record(FailureRecord::Code, other, None).unwrap();
    assert_eq!(
        record.error_code,
        Some(github_error_code(GitHubError::InvalidResponse))
    );
    let fault = DownloadFault::GitHub(GitHubError::NoMatchingAsset);
    let record = failure_record(FailureRecord::Code, fault, None).unwrap();
    assert_eq!(
        record.error_code,
        Some(github_error_code(GitHubError::NoMatchingAsset))
    );
    assert!(record.release_id.is_none());
    assert!(failure_record(FailureRecord::InvalidIpa, other, None).is_none());
    let release = release(7, vec![asset(8, "App.ipa")]);
    let found = Some((&release, &release.assets[0]));
    let record = failure_record(FailureRecord::InvalidIpa, other, found).unwrap();
    assert_eq!(record.error_code, Some("invalid_ipa"));
    assert_eq!(record.release_id, Some(7));
    assert_eq!(record.asset_id, Some(8));
    assert_eq!(record.status, "error");
}

#[test]
fn downloads_are_stored_under_names_of_their_own() {
    let (app, fresh) = (RecordId { bits: 1 }, RecordId { bits: 2 });
    let place = stored_place(Some(app), fresh, "0123456789abcdef");
    assert_eq!(place.app_id, app);
    assert_eq!(
        place.name,
        "00000000-0000-0000-0000-000000000001-0123456789ab.ipa"
    );
    let place = stored_place(None, fresh, "0123456789abcdef");
    assert_eq!(place.app_id, fresh);
    assert_eq!(place.name, "00000000-0000-0000-0000-000000000002.ipa");
}

#[test]
fn downloads_are_recorded_by_their_steps() {
    let release = release(7, vec![asset(8, "App.ipa")]);
    let record = |step| download_record(step, &release, &release.assets[0], "abc");
    for (step, word) in [
        (DownloadStep::RecordUnchanged, "unchanged"),
        (DownloadStep::ReplaceRow, "downloaded"),
        (DownloadStep::RecordDownload, "downloaded"),
    ] {
        let record = record(step).unwrap();
        assert_eq!(record.status, word);
        assert_eq!(record.release_id, Some(7));
        assert_eq!(record.asset_id, Some(8));
        assert_eq!(record.sha256.as_deref(), Some("abc"));
        assert_eq!(
            source_check_status(Some(7), Some(8), Some(record.status), 7, 8),
            "up_to_date"
        );
    }
    assert!(record(DownloadStep::MoveFile).is_none());
    assert!(record(DownloadStep::InsertRow).is_none());
}
