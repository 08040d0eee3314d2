use iphoneloadly_api::github::RepositoryRef;
use iphoneloadly_api::ipa::UploadMetadata;
use iphoneloadly_api::record::RecordId;
use iphoneloadly_api::sources::{error_record, SourceRecord};
use iphoneloadly_api::store::{
    active_job_exists, active_job_exists_for_app, active_phase, any_active_phase, app_migrations,
    app_path, end_source_automation, final_phase, find_job, forget_managed_installation,
    insert_app, insert_github_source, insert_job, installation_validity, job_migrations,
    link_github_source_app, list_apps, list_managed_installations, managed_app_identities,
    mark_app_deleted, record_source_check, refresh_after_days, refresh_attention,
    refresh_due_targets, remaining_days, replace_app_from_source, restore_app,
    restore_managed_installation, set_job_failure, set_refresh_after_days, set_source_automation,
    update_github_source, update_job_status, AppDeletion, AppRow, GitHubSource, Installation,
    JobRow, StoredApp, StoredJob, DEFAULT_REFRESH_AFTER_DAYS, MILLISECONDS_PER_DAY,
};

fn id(bits: u128) -> RecordId {
    RecordId { bits }
}

fn row(app: u128, device: u128, phase: &str, completed: Option<&str>, age: Option<i64>) -> JobRow {
    JobRow {
        target: Installation {
            app_id: id(app),
            device_id: id(device),
        },
        phase: phase.into(),
        device_label: "iPhone".into(),
        created_at: "2026-01-01T00:00:00Z".into(),
        completed_at: completed.map(str::to_owned),
        age,
        installed_bundle_id: None,
        app_bundle_id: Some("com.example.app".into()),
        app_display_name: "Example".into(),
        app_version: Some("1.0".into()),
        storage_path: "apps/example.ipa".into(),
        app_deleted: false,
    }
}

#[test]
fn initialize_adds_managed_app_columns_to_existing_database() {
    let present: Vec<String> = [
        "id",
        "sha256",
        "storage_path",
        "size_bytes",
        "uploaded_at",
        "deleted_at",
    ]
    .iter()
    .map(|name| (*name).to_owned())
    .collect();
    assert!(app_migrations(&present)
        .iter()
        .any(|statement| statement.contains("bundle_id")));
    let jobs: Vec<String> = [
        "id",
        "app_id",
        "device_id",
        "phase",
        "created_at",
        "completed_at",
        "progress_percent",
        "device_label",
        "failure_code",
    ]
    .iter()
    .map(|name| (*name).to_owned())
    .collect();
    assert!(job_migrations(&jobs)
        .iter()
        .any(|statement| statement.contains("installed_bundle_id")));

    let mut rows = vec![row(1, 2, "succeeded", None, None)];
    let legacy = managed_app_identities(&rows, &vec![], id(2));
    assert_eq!(legacy.len(), 1);
    assert!(legacy[0].installed_bundle_id.is_none());
    let mut exact = row(1, 2, "succeeded", None, None);
    exact.installed_bundle_id = Some("com.example.app.TEAM".into());
    rows.push(exact);
    let identities = managed_app_identities(&rows, &vec![], id(2));
    assert_eq!(identities.len(), 1);
    assert_eq!(
        identities[0].installed_bundle_id.as_deref(),
        Some("com.example.app.TEAM")
    );
}

#[test]
fn refresh_day_setting_persists_and_controls_due_targets() {
    assert_eq!(refresh_after_days(None), DEFAULT_REFRESH_AFTER_DAYS);
    let stored = set_refresh_after_days(4).expect("save refresh day");
    assert_eq!(refresh_after_days(Some(&stored)), 4);
    assert!(set_refresh_after_days(7).is_none());
    let rows = vec![row(
        1,
        2,
        "succeeded",
        Some("2026-01-01T00:00:00Z"),
        Some(5 * MILLISECONDS_PER_DAY),
    )];
    assert_eq!(refresh_due_targets(&rows, &vec![], 4).len(), 1);
    assert!(refresh_due_targets(&rows, &vec![], 6).is_empty());
}

#[test]
fn forgotten_installation_is_hidden_and_restored_after_success() {
    let rows = vec![row(
        1,
        2,
        "succeeded",
        Some("2026-01-01T00:00:00Z"),
        Some(0),
    )];
    assert_eq!(list_managed_installations(&rows, &vec![]).len(), 1);
    let mut unmanaged = vec![];
    assert!(forget_managed_installation(&rows, &mut unmanaged, id(1), id(2)));
    assert!(managed_app_identities(&rows, &unmanaged, id(2)).is_empty());
    assert!(list_managed_installations(&rows, &unmanaged).is_empty());
    let unmanaged = restore_managed_installation(&unmanaged, id(1), id(2));
    assert_eq!(list_managed_installations(&rows, &unmanaged).len(), 1);
}

#[test]
fn settings_that_are_no_day_give_the_default() {
    for text in ["0", "7", "256", "day", "", "-1", "4 "] {
        assert_eq!(refresh_after_days(Some(text)), DEFAULT_REFRESH_AFTER_DAYS);
    }
    assert_eq!(refresh_after_days(Some("+3")), 3);
    assert_eq!(refresh_after_days(Some("003")), 3);
}

#[test]
fn active_jobs_block_their_installation() {
    let rows = vec![row(1, 2, "signing", None, None)];
    assert!(active_job_exists(&rows, id(1), id(2)));
    assert!(!active_job_exists(&rows, id(1), id(3)));
    assert!(active_job_exists_for_app(&rows, id(1)));
    let mut unmanaged = vec![];
    assert!(!forget_managed_installation(&rows, &mut unmanaged, id(1), id(2)));
    assert!(unmanaged.is_empty());
    let mut apps = vec![AppRow {
        app: insert_app(id(1), &metadata("a", "com.example.app", None), "App", "apps/1.ipa"),
        deleted_at: None,
    }];
    let mut remove = |jobs: &Vec<JobRow>, app| {
        mark_app_deleted(jobs, &mut apps, &mut vec![], app, "now".into())
    };
    assert!(matches!(remove(&rows, id(1)), AppDeletion::ActiveJob));
    assert!(matches!(remove(&vec![], id(2)), AppDeletion::NotFound));
    let AppDeletion::Ready { storage_path } = remove(&vec![], id(1)) else {
        panic!("an idle app can be removed");
    };
    assert_eq!(storage_path, "apps/1.ipa");
}

#[test]
fn phases_are_active_or_final() {
    for phase in ["queued", "connecting", "signing", "transferring", "installing"] {
        assert!(active_phase(phase));
        assert!(!final_phase(phase));
    }
    for phase in ["succeeded", "failed"] {
        assert!(final_phase(phase));
        assert!(!active_phase(phase));
    }
}

#[test]
fn refreshes_are_announced_a_day_before() {
    let rows = vec![row(
        1,
        2,
        "succeeded",
        Some("2026-01-01T00:00:00Z"),
        Some(3 * MILLISECONDS_PER_DAY),
    )];
    let items = refresh_attention(&rows, &vec![], 4);
    assert_eq!(items.len(), 1);
    assert_eq!(items[0].age_hours, 72);
    assert!(!items[0].retry_failed);
    assert!(refresh_attention(&rows, &vec![], 5).is_empty());
}

#[test]
fn validity_counts_down_the_days() {
    assert_eq!(remaining_days(0), 7);
    let rows = vec![row(
        1,
        2,
        "succeeded",
        Some("2026-01-01T00:00:00Z"),
        Some(0),
    )];
    let items = installation_validity(&rows, &vec![]).expect("ages are known");
    assert_eq!(items.len(), 1);
    assert_eq!(items[0].remaining_days, remaining_days(0));
}

#[test]
fn complete_tables_need_no_column() {
    let columns: Vec<String> = app_migrations(&vec![])
        .iter()
        .map(|statement| {
            statement
                .split("ADD COLUMN ")
                .nth(1)
                .and_then(|rest| rest.split(' ').next())
                .unwrap_or("")
                .to_owned()
        })
        .collect();
    assert!(app_migrations(&columns).is_empty());
}

#[test]
fn installations_are_listed_by_device_and_app() {
    let mut rows = Vec::new();
    for (app, label, name, completed) in [
        (1, "Phone B", "Alpha", "2026-01-01 00:00:00"),
        (2, "Phone A", "Zeta", "2026-01-03 00:00:00"),
        (3, "Phone A", "Beta", "2026-01-02 00:00:00"),
    ] {
        let mut job = row(app, 9, "succeeded", Some(completed), Some(0));
        job.device_label = label.into();
        job.app_display_name = name.into();
        rows.push(job);
    }
    let listed: Vec<RecordId> = list_managed_installations(&rows, &vec![])
        .iter()
        .map(|item| item.app_id)
        .collect();
    assert_eq!(listed, [id(3), id(2), id(1)]);
    let valid: Vec<RecordId> = installation_validity(&rows, &vec![])
        .expect("ages are known")
        .iter()
        .map(|item| item.app_id)
        .collect();
    assert_eq!(valid, [id(2), id(3), id(1)]);
}

fn metadata(sha256: &str, bundle_id: &str, version: Option<&str>) -> UploadMetadata {
    UploadMetadata {
        sha256: sha256.into(),
        size_bytes: 1,
        app_bundle_path: "Payload/Example.app".into(),
        bundle_id: bundle_id.into(),
        display_name: "Example".into(),
        app_version: version.map(str::to_owned),
        info_plist_present: true,
    }
}

fn job_of(app: &StoredApp, job: u128, device: u128, label: &str) -> StoredJob {
    let now = "2026-01-01 00:00:00".into();
    insert_job(Some(app), false, id(job), id(device), label, now).expect("a job of a stored app")
}

#[test]
fn jobs_are_found_by_their_identifiers() {
    let app = insert_app(id(1), &metadata("a", "com.example.app", None), "App", "1.ipa");
    let jobs = |count: u128| (2..2 + count).map(|job| job_of(&app, job, 9, "iPhone")).collect();
    assert_eq!(find_job(jobs(3), id(3)).map(|job| job.id), Some(id(3)));
    assert!(find_job(jobs(3), id(5)).is_none());
    assert!(find_job(jobs(0), id(2)).is_none());
    let now = || "2026-01-01 00:00:00".to_owned();
    assert!(insert_job(Some(&app), true, id(2), id(9), "iPhone", now()).is_none());
    assert!(insert_job(None, false, id(2), id(9), "iPhone", now()).is_none());
}

#[test]
fn insert_job_snapshots_historical_app_version() {
    let first = metadata("version-hash", "com.example.version", Some("0.4.3"));
    let mut app = insert_app(id(1), &first, "Versioned App", "version.ipa");
    let stored = vec![job_of(&app, 2, 7, "Test iPhone")];
    app.app_version = Some("0.4.4".into());
    let job = find_job(stored, id(2)).expect("job exists");
    assert_eq!(job.app_version.as_deref(), Some("0.4.3"));
    assert_eq!(job.app_display_name, "Versioned App");
    assert_eq!(job.phase, "queued");

    let unversioned = metadata("unversioned-hash", "com.example.unversioned", None);
    let app = insert_app(id(3), &unversioned, "Unversioned App", "unversioned.ipa");
    let stored = vec![job_of(&app, 4, 7, "Test iPhone")];
    let job = find_job(stored, id(4)).expect("unversioned job exists");
    assert!(job.app_version.is_none());
}

#[test]
fn replaced_apps_keep_their_names() {
    let first = metadata("first", "com.example.app", Some("1.0"));
    let mut app = insert_app(id(1), &first, "My App", "1.ipa");
    let second = metadata("second", "com.example.app", Some("2.0"));
    replace_app_from_source(&mut app, &second, "1-second.ipa");
    assert_eq!(app.id, id(1));
    assert_eq!(app.display_name, "My App");
    assert_eq!(app.sha256, "second");
    assert_eq!(app.storage_path, "1-second.ipa");
    assert_eq!(app.app_version.as_deref(), Some("2.0"));
}

#[test]
fn final_phases_complete_a_job() {
    let app = insert_app(id(1), &metadata("a", "com.example.app", None), "App", "1.ipa");
    let mut job = job_of(&app, 2, 3, "iPhone");
    update_job_status(&mut job, "signing", Some(1), "2026-01-01 00:00:01".into());
    assert_eq!(job.phase, "signing");
    assert_eq!(job.progress_percent, Some(1));
    assert!(job.completed_at.is_none());
    set_job_failure(&mut job, "ipa_signing_failed");
    update_job_status(&mut job, "failed", None, "2026-01-01 00:00:02".into());
    assert_eq!(job.completed_at.as_deref(), Some("2026-01-01 00:00:02"));
    assert_eq!(job.failure_code.as_deref(), Some("ipa_signing_failed"));
    assert_eq!(job.created_at, "2026-01-01 00:00:00");
}

fn repository() -> RepositoryRef {
    RepositoryRef {
        owner: "owner".into(),
        repo: "repo".into(),
    }
}

fn source() -> GitHubSource {
    insert_github_source(id(1), None, repository(), "*.ipa".into(), false, "first".into())
}

#[test]
fn automatic_downloads_are_acknowledged() {
    let mut source = source();
    assert!(!source.auto_download);
    assert!(!set_source_automation(&mut source, true, false, "second".into()));
    assert!(!source.auto_download);
    assert_eq!(source.updated_at, "first");
    assert!(set_source_automation(&mut source, true, true, "second".into()));
    assert!(source.auto_download);
    assert_eq!(source.auto_acknowledged_at.as_deref(), Some("second"));
    link_github_source_app(&mut source, id(9), "third".into());
    assert_eq!(source.app_id, Some(id(9)));
    assert!(source.auto_download);
    update_github_source(&mut source, None, repository(), "App*.ipa".into(), true, "fourth".into());
    assert!(!source.auto_download);
    assert!(source.auto_acknowledged_at.is_none());
    assert_eq!(source.asset_pattern, "App*.ipa");
    assert_eq!(source.created_at, "first");
    assert!(set_source_automation(&mut source, true, true, "fifth".into()));
    end_source_automation(&mut source, "sixth".into());
    assert!(!source.auto_download);
    assert!(source.auto_acknowledged_at.is_none());
    assert!(set_source_automation(&mut source, false, false, "seventh".into()));
    assert_eq!(source.updated_at, "seventh");
}

#[test]
fn checks_are_recorded_on_their_source() {
    let mut source = source();
    let record = SourceRecord {
        release_id: Some(2),
        release_tag: Some("v1".into()),
        asset_id: Some(20),
        asset_name: Some("App.ipa".into()),
        sha256: Some("digest".into()),
        status: "downloaded",
        error_code: None,
    };
    record_source_check(&mut source, record, "second".into());
    assert_eq!(source.last_release_id, Some(2));
    assert_eq!(source.last_status.as_deref(), Some("downloaded"));
    assert_eq!(source.last_checked_at.as_deref(), Some("second"));
    let failed = error_record(iphoneloadly_api::github::GitHubError::NoMatchingAsset);
    record_source_check(&mut source, failed, "third".into());
    assert_eq!(source.last_release_id, None);
    assert_eq!(source.last_status.as_deref(), Some("error"));
    assert_eq!(source.last_error_code.as_deref(), Some("no_ipa_asset"));
}

#[test]
fn removed_apps_stop_their_sources() {
    let linked = |bits, app_id| GitHubSource {
        id: id(bits),
        app_id,
        auto_download: true,
        auto_acknowledged_at: Some("first".into()),
        ..source()
    };
    let app = |bits: u128| {
        let metadata = metadata("a", "com.example.app", None);
        AppRow {
            app: insert_app(id(bits), &metadata, "App", &format!("{bits}.ipa")),
            deleted_at: None,
        }
    };
    let mut rows = vec![app(6), app(7)];
    let mut sources = vec![linked(1, Some(id(7))), linked(2, None), linked(3, Some(id(6)))];
    let jobs = vec![row(7, 1, "succeeded", None, None)];
    assert_eq!(app_path(&rows, id(7)).as_deref(), Some("7.ipa"));
    let removed = mark_app_deleted(&jobs, &mut rows, &mut sources, id(7), "now".into());
    assert!(matches!(removed, AppDeletion::Ready { storage_path } if storage_path == "7.ipa"));
    assert_eq!(app_path(&rows, id(7)), None);
    assert_eq!(app_path(&rows, id(6)).as_deref(), Some("6.ipa"));
    assert_eq!(rows[1].deleted_at.as_deref(), Some("now"));
    assert!(!sources[0].auto_download);
    assert!(sources[0].auto_acknowledged_at.is_none());
    assert_eq!(sources[0].updated_at, "now");
    assert!(sources[1].auto_download && sources[2].auto_download);
    assert_eq!(sources[2].updated_at, "first");
    let again = mark_app_deleted(&jobs, &mut rows, &mut sources, id(7), "later".into());
    assert!(matches!(again, AppDeletion::NotFound));
    assert_eq!(rows[1].deleted_at.as_deref(), Some("now"));
    restore_app(&mut rows, id(7));
    assert_eq!(app_path(&rows, id(7)).as_deref(), Some("7.ipa"));
    rows[0].deleted_at = Some("now".into());
    let listed: Vec<RecordId> = list_apps(rows).iter().map(|app| app.id).collect();
    assert_eq!(listed, [id(7)]);
    assert!(any_active_phase(&vec!["failed".into(), "signing".into()]));
    assert!(!any_active_phase(&vec!["failed".into(), "succeeded".into()]));
}
