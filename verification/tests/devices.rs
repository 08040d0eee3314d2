use iphoneloadly_api::apps::{
    accept_rename, begin_removal, end_removal, validate_display_name, RemovalTurn, Upload,
    UploadFault, UploadField, UploadStep, UploadTurn,
};
use iphoneloadly_api::archive::PlistEntry;
use iphoneloadly_api::devices::{
    candidates, describe_device, find_device, find_udid, installed_apps, ipv4_addresses, managed_app,
    managed_apps, network_candidates, pairing_record_name, pairing_record_udids, summarize_app,
    AnnouncedAddress, CandidateWalk, DiscoverySource, DiscoveryTurn, InstalledAppSummary,
    MuxConnection, MuxDevice, TransportError,
};
use iphoneloadly_api::ipa::{UploadError, UploadMetadata, MAX_COMPRESSED_BYTES};
use iphoneloadly_api::jobs::{
    failure_code, install_job_json, job_message, job_updates, queued_job, JobEvent, JobRequestStep,
    JobRequestTurn, JobUpdate, RefreshAnswer, RefreshAsk, RefreshRun, RefreshStep, RefreshTurn,
    TargetOutcome,
};
use iphoneloadly_api::record::{
    device_id_for_udid, replacement_name, source_upload_name, stored_name, upload_name, RecordId,
};
use iphoneloadly_api::signing::SigningError;
use iphoneloadly_api::store::{AppDeletion, ManagedAppIdentity, RefreshTarget, StoredJob};

#[test]
fn device_id_is_stable_for_non_uuid_apple_udids() {
    let first = device_id_for_udid("00008110-001A2B3C00000000");
    assert_eq!(first, device_id_for_udid("00008110-001A2B3C00000000"));
    assert_ne!(first, device_id_for_udid("00008110-001A2B3C00000001"));
}

#[test]
fn device_ids_are_the_first_half_of_a_digest() {
    let id = device_id_for_udid("00008110-001A2B3C00000000");
    assert_eq!(id.bits, 101652386009327701553039031512776413281);
    assert_eq!(id.text(), "4c798993-ec50-8230-ed4a-cb84c0399061");
    assert_eq!(
        RecordId::parse("4c798993-ec50-8230-ed4a-cb84c0399061"),
        Some(id)
    );
    assert_eq!(RecordId::parse("no identifier"), None);
}

#[test]
fn files_are_named_by_their_identifiers() {
    let id = RecordId { bits: 1 };
    assert_eq!(
        upload_name(id),
        ".00000000-0000-0000-0000-000000000001.upload"
    );
    assert_eq!(stored_name(id), "00000000-0000-0000-0000-000000000001.ipa");
    assert_ne!(
        source_upload_name(id, RecordId { bits: 2 }),
        source_upload_name(id, RecordId { bits: 3 })
    );
    assert_ne!(replacement_name(id, "abc"), stored_name(id));
}

#[test]
fn managed_apps_require_service_install_history() {
    let identities = vec![
        ManagedAppIdentity {
            installed_bundle_id: Some("com.example.current.TEAM123".into()),
            source_bundle_id: Some("com.example.current".into()),
        },
        ManagedAppIdentity {
            installed_bundle_id: None,
            source_bundle_id: Some("com.example.legacy".into()),
        },
    ];

    assert!(managed_app("com.example.current.TEAM123", &identities));
    assert!(!managed_app("com.example.current.OTHERTEAM", &identities));
    assert!(managed_app("com.example.legacy.OLDTEAM", &identities));
    assert!(!managed_app(
        "com.example.legacymalicious.OLDTEAM",
        &identities
    ));
    assert!(!managed_app("com.apple.Pages", &identities));
}

#[test]
fn install_job_json_preserves_live_progress_and_safe_fields() {
    let id = RecordId { bits: 1 };
    let app_id = RecordId { bits: 2 };
    let device_id = RecordId { bits: 3 };
    let value = install_job_json(StoredJob {
        id,
        app_id,
        device_id,
        phase: "signing".into(),
        progress_percent: Some(18),
        device_label: "Test iPhone".into(),
        created_at: "2026-08-28T12:00:00Z".into(),
        completed_at: None,
        failure_code: None,
        app_display_name: "Example".into(),
        app_version: Some("1.2.3".into()),
    });

    assert_eq!(value.id, id);
    assert_eq!(value.app_id, app_id);
    assert_eq!(value.device_id, device_id);
    assert_eq!(value.device_label, "Test iPhone");
    assert_eq!(value.progress_percent, Some(18));
    assert_eq!(value.app_display_name, "Example");
    assert_eq!(value.app_version.as_deref(), Some("1.2.3"));
    assert_eq!(value.created_at, "2026-08-28T12:00:00Z");
    assert!(value.completed_at.is_none());
    assert_eq!(value.public_message, "Signing the IPA.");
}

#[test]
fn devices_are_described_by_what_they_tell() {
    let told = describe_device("udid", Some("Phone".into()), None, Some("18.0".into()));
    assert_eq!(told.display_name, "Phone");
    assert_eq!(told.product_type, "unknown");
    assert_eq!(told.ios_version, "18.0");
    assert_eq!(told.id, device_id_for_udid("udid"));
    assert!(told.install_eligible);
    let silent = describe_device("udid", None, None, None);
    assert_eq!(silent.display_name, "iPhone");
    assert_eq!(
        find_device(&vec![told], device_id_for_udid("udid")),
        Some(0)
    );
    assert_eq!(find_device(&vec![silent], RecordId { bits: 0 }), None);
}

#[test]
fn candidates_are_tried_once() {
    let found = candidates(
        &vec!["a".into(), "b".into()],
        &vec!["192.0.2.1".into(), "192.0.2.2".into()],
    );
    assert_eq!(found.len(), 4);
    assert_eq!(found[0].udid, "a");
    assert_eq!(found[1].address, "192.0.2.2");
    let mut walk = CandidateWalk::new();
    assert!(walk.attempt("a", "192.0.2.1"));
    assert!(!walk.attempt("a", "192.0.2.1"));
    assert!(walk.attempt("a", "192.0.2.2"));
    walk.identify("a");
    assert!(!walk.attempt("a", "192.0.2.3"));
    assert!(walk.attempt("b", "192.0.2.1"));
}

#[test]
fn pairing_records_are_named_by_their_device() {
    assert_eq!(pairing_record_name("udid"), "udid.plist");
    assert_eq!(
        pairing_record_udids(&vec![
            "udid.plist".into(),
            "SystemConfiguration.plist".into(),
            "notes.txt".into(),
        ]),
        vec!["udid".to_owned()]
    );
}

fn app_entries(entries: &[(&str, &str)]) -> Vec<PlistEntry> {
    entries
        .iter()
        .map(|(key, text)| PlistEntry {
            key: (*key).into(),
            text: Some((*text).into()),
        })
        .collect()
}

#[test]
fn installed_apps_need_an_identifier() {
    let named = app_entries(&[
        ("CFBundleIdentifier", "com.example.app"),
        ("CFBundleName", "Example"),
        ("CFBundleVersion", "7"),
    ]);
    let summary = summarize_app(&named).unwrap();
    assert_eq!(summary.display_name, "Example");
    assert_eq!(summary.version, "7");
    let bare = app_entries(&[("CFBundleIdentifier", "com.example.app")]);
    let summary = summarize_app(&bare).unwrap();
    assert_eq!(summary.display_name, "com.example.app");
    assert_eq!(summary.version, "\u{2014}");
    assert!(summarize_app(&app_entries(&[("CFBundleName", "Example")])).is_none());
    assert_eq!(installed_apps(&vec![named, vec![], bare]).len(), 2);
}

#[test]
fn managed_apps_are_sorted_by_their_names() {
    let app = |name: &str, bundle_id: &str| InstalledAppSummary {
        display_name: name.into(),
        bundle_id: bundle_id.into(),
        version: "1".into(),
    };
    let identities = vec![ManagedAppIdentity {
        installed_bundle_id: None,
        source_bundle_id: Some("com.example".into()),
    }];
    let kept = managed_apps(
        vec![
            app("Zebra", "com.example.z"),
            app("Other", "com.other"),
            app("Apple", "com.example.a"),
        ],
        &identities,
    );
    let names: Vec<&str> = kept.iter().map(|app| app.display_name.as_str()).collect();
    assert_eq!(names, vec!["Apple", "Zebra"]);
}

#[test]
fn transport_errors_have_codes_and_sentences() {
    assert_eq!(
        TransportError::from_signing(SigningError::NotReady),
        TransportError::DeviceInstallFailed
    );
    assert_eq!(
        TransportError::from_signing(SigningError::DeveloperTeamFailed),
        TransportError::DeveloperTeamFailed
    );
    assert_eq!(
        TransportError::Unavailable.message(),
        "network device transport is not configured"
    );
    assert_eq!(failure_code(TransportError::Unavailable), "iphone_unavailable");
    assert_eq!(
        job_message("failed", Some("iphone_unavailable")),
        "The selected trusted iPhone is not reachable over Wi-Fi."
    );
    assert_eq!(job_message("failed", None), "Installation failed.");
    assert_eq!(
        job_message("unheard", None),
        "Installation job status is unavailable."
    );
}

#[test]
fn jobs_are_queued_and_recorded() {
    let job = queued_job(RecordId { bits: 1 }, RecordId { bits: 2 });
    assert_eq!(
        job.public_message,
        "Signing and installation job queued for app 00000000-0000-0000-0000-000000000002."
    );
    assert!(matches!(
        JobRequestStep::Store.advance(true),
        JobRequestTurn::Accepted
    ));
    let JobRequestTurn::Refuse(reply) = JobRequestStep::Device.advance(false) else {
        panic!("an unknown device is refused");
    };
    assert_eq!(reply.status, 404);
    let updates = job_updates(JobEvent::Progress(45));
    assert!(matches!(
        updates.as_slice(),
        [JobUpdate::Status {
            phase: "transferring",
            progress: Some(45)
        }]
    ));
    let failed = job_updates(JobEvent::Failed(TransportError::IpaSigningFailed));
    assert_eq!(failed.len(), 2);
}

#[test]
fn refreshes_reach_only_idle_present_devices() {
    let devices = vec![
        describe_device("other", Some("Other".into()), None, None),
        describe_device("udid", Some("Phone".into()), None, None),
    ];
    let here = device_id_for_udid("udid");
    let gone = RecordId { bits: 0 };
    let targets = vec![
        target(1, gone),
        target(2, here),
        target(3, here),
        target(4, gone),
        target(5, here),
        target(6, here),
        target(7, gone),
    ];
    let mut run = RefreshRun::new(devices, targets);
    assert_eq!(run.ask(), RefreshAsk::Active { target: 1 });
    run.answer(RefreshAnswer::Inserted(true));
    assert_eq!(run.ask(), RefreshAsk::Active { target: 1 });
    run.answer(RefreshAnswer::Active(Some(false)));
    assert_eq!(
        run.ask(),
        RefreshAsk::Insert {
            target: 1,
            device: 1
        }
    );
    assert_eq!(run.devices[1].display_name, "Phone");
    run.answer(RefreshAnswer::Inserted(true));
    run.answer(RefreshAnswer::Active(Some(true)));
    assert_eq!(run.ask(), RefreshAsk::Active { target: 4 });
    run.answer(RefreshAnswer::Active(None));
    run.answer(RefreshAnswer::Active(Some(false)));
    run.answer(RefreshAnswer::Inserted(false));
    assert_eq!(run.ask(), RefreshAsk::Told { queued: 1 });
    assert_eq!(
        run.outcomes,
        [
            TargetOutcome::Unreachable,
            TargetOutcome::Queued,
            TargetOutcome::Busy,
            TargetOutcome::Unreachable,
            TargetOutcome::Busy,
            TargetOutcome::Unstored,
            TargetOutcome::Unreachable,
        ]
    );
}

fn target(app: u128, device_id: RecordId) -> RefreshTarget {
    RefreshTarget {
        app_id: RecordId { bits: app },
        device_id,
        storage_path: String::new(),
    }
}

#[test]
fn refreshes_need_a_session_and_the_devices() {
    let expected = [
        (RefreshStep::Session, 409),
        (RefreshStep::Devices, 503),
        (RefreshStep::Targets, 500),
    ];
    for (step, status) in expected {
        let RefreshTurn::Refuse(reply) = step.advance(false) else {
            panic!("a step that fails ends the request");
        };
        assert_eq!(reply.status, status);
    }
    assert!(matches!(
        RefreshStep::Session.advance(true),
        RefreshTurn::Next(RefreshStep::Devices)
    ));
    assert!(matches!(
        RefreshStep::Devices.advance(true),
        RefreshTurn::Next(RefreshStep::Targets)
    ));
    assert!(matches!(
        RefreshStep::Targets.advance(true),
        RefreshTurn::Queue
    ));
    let run = RefreshRun::new(Vec::new(), Vec::new());
    assert_eq!(run.ask(), RefreshAsk::Told { queued: 0 });
}

#[test]
fn devices_are_found_by_their_udids() {
    let udids = vec!["first".to_owned(), "second".to_owned()];
    assert_eq!(find_udid(&udids, device_id_for_udid("second")), Some(1));
    assert_eq!(find_udid(&udids, device_id_for_udid("third")), None);
}

#[test]
fn only_networked_devices_are_candidates() {
    let device = |udid: &str, connection| MuxDevice {
        udid: udid.into(),
        connection,
    };
    let devices = vec![
        device("usb", MuxConnection::Usb),
        device("first", MuxConnection::Network("192.0.2.1".into())),
        device("unknown", MuxConnection::Unknown),
        device("second", MuxConnection::Network("192.0.2.2".into())),
    ];
    let found: Vec<(String, String)> = network_candidates(&devices)
        .into_iter()
        .map(|candidate| (candidate.udid, candidate.address))
        .collect();
    assert_eq!(
        found,
        [
            ("first".to_owned(), "192.0.2.1".to_owned()),
            ("second".to_owned(), "192.0.2.2".to_owned()),
        ]
    );
}

#[test]
fn announced_ipv4_addresses_are_kept_once() {
    let address = |text: &str, ipv4| AnnouncedAddress {
        text: text.into(),
        ipv4,
    };
    let announced = vec![
        address("fe80::1", false),
        address("192.0.2.1", true),
        address("192.0.2.2", true),
        address("192.0.2.1", true),
    ];
    assert_eq!(
        ipv4_addresses(&announced).unwrap(),
        ["192.0.2.1", "192.0.2.2"]
    );
    assert_eq!(
        ipv4_addresses(&vec![address("fe80::1", false)]).err(),
        Some(TransportError::Unavailable)
    );
}

#[test]
fn display_names_are_trimmed_and_bounded() {
    assert_eq!(validate_display_name("  App  ").unwrap(), "App");
    assert!(validate_display_name(&"x".repeat(120)).is_ok());
    assert!(validate_display_name(&"x".repeat(121)).is_err());
    assert!(validate_display_name("a\nb").is_err());
    assert_eq!(
        accept_rename("   ").unwrap_err().message,
        Some("Display name cannot be empty when renaming.")
    );
    assert_eq!(
        accept_rename("a\u{0}").unwrap_err().message,
        Some("Invalid display name.")
    );
    assert_eq!(accept_rename(" App ").unwrap(), "App");
}

#[test]
fn uploads_take_one_file_and_one_name() {
    let mut upload = Upload::new();
    assert_eq!(
        upload.begin_field(Some("displayName")).unwrap(),
        UploadField::DisplayName
    );
    assert!(upload.name(Some(" ")).is_ok());
    assert_eq!(upload.begin_field(Some("file")).unwrap(), UploadField::File);
    assert!(upload.chunk(10).is_ok());
    assert_eq!(
        upload.begin_field(Some("file")).err(),
        Some(UploadFault::Field)
    );
    assert_eq!(
        upload.begin_field(Some("displayName")).err(),
        Some(UploadFault::Field)
    );
    assert_eq!(
        upload.begin_field(None).err(),
        Some(UploadFault::FieldName)
    );
    assert!(upload.end().is_ok());
    let metadata = UploadMetadata {
        sha256: String::new(),
        size_bytes: 10,
        app_bundle_path: "Payload/Example.app".into(),
        bundle_id: "com.example.app".into(),
        display_name: "Example".into(),
        app_version: None,
        info_plist_present: true,
    };
    assert_eq!(upload.stored_name(&metadata), "Example");
    assert_eq!(Upload::new().end().err(), Some(UploadFault::NoFile));
}

#[test]
fn uploads_end_at_the_limit() {
    let mut upload = Upload::new();
    upload.begin_field(Some("file")).unwrap();
    assert!(upload.chunk(MAX_COMPRESSED_BYTES).is_ok());
    assert_eq!(upload.chunk(1).err(), Some(UploadFault::TooLarge));
    let UploadTurn::Refuse(refusal) = UploadStep::Receive.advance(Err(UploadFault::TooLarge))
    else {
        panic!("an upload that is too large is refused");
    };
    assert_eq!(refusal.reply.status, 413);
    assert!(refusal.drop_temporary);
    let rejected = UploadFault::Rejected(UploadError::UnsafePath).reply();
    assert_eq!(rejected.code, Some("archive contains an unsafe path"));
}

#[test]
fn uploads_take_their_steps_and_leave_no_file() {
    let expected = [
        (UploadStep::Create, UploadFault::Create, false, false),
        (UploadStep::Receive, UploadFault::NoFile, true, false),
        (UploadStep::Flush, UploadFault::Flush, true, false),
        (
            UploadStep::Inspect,
            UploadFault::Rejected(UploadError::InvalidArchive),
            true,
            false,
        ),
        (UploadStep::Move, UploadFault::Move, true, false),
        (UploadStep::Record, UploadFault::Record, false, true),
    ];
    let mut next = Some(UploadStep::Create);
    for (step, fault, drop_temporary, drop_final) in expected {
        assert_eq!(next, Some(step));
        let UploadTurn::Refuse(refusal) = step.advance(Err(fault)) else {
            panic!("a step that fails ends the upload");
        };
        assert_eq!(refusal.drop_temporary, drop_temporary);
        assert_eq!(refusal.drop_final, drop_final);
        next = match step.advance(Ok(())) {
            UploadTurn::Next(next) => Some(next),
            _ => None,
        };
    }
    assert!(matches!(
        UploadStep::Record.advance(Ok(())),
        UploadTurn::Stored
    ));
}

#[test]
fn apps_are_restored_where_their_file_stays() {
    let RemovalTurn::RemoveFile(path) = begin_removal(Some(AppDeletion::Ready {
        storage_path: "apps/1.ipa".into(),
    })) else {
        panic!("an idle app is removed");
    };
    assert_eq!(path, "apps/1.ipa");
    assert!(matches!(
        begin_removal(Some(AppDeletion::ActiveJob)),
        RemovalTurn::Refuse(reply) if reply.status == 409
    ));
    assert!(matches!(
        begin_removal(None),
        RemovalTurn::Refuse(reply) if reply.status == 500
    ));
    assert_eq!(end_removal(true).reply.status, 204);
    assert!(end_removal(false).restore);
}

#[test]
fn announcements_are_asked_after_netmuxd() {
    assert_eq!(DiscoverySource::Netmuxd.advance(1), DiscoveryTurn::Reached);
    assert_eq!(
        DiscoverySource::Netmuxd.advance(0),
        DiscoveryTurn::Next(DiscoverySource::Bonjour)
    );
    assert_eq!(DiscoverySource::Bonjour.advance(2), DiscoveryTurn::Reached);
    assert_eq!(
        DiscoverySource::Bonjour.advance(0),
        DiscoveryTurn::Unavailable
    );
}
