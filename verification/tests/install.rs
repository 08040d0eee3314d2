use iphoneloadly_api::afc::{
    descriptor_of, is_directory, number_bytes, open_request, path_exists, PacketCounter,
};
use iphoneloadly_api::digest::sha256;
use iphoneloadly_api::faults::{CallOutcome, DeviceFault, IoFault};
use iphoneloadly_api::install::{
    certificate_pressure, install_cleanup_reserve, install_command_deadline,
    install_command_result, install_error_kind, install_verification_deadline,
    install_work_deadline, installation_proxy_install_mutation, merge_session_cleanup,
    outcome_after_install_failure, outcome_after_install_result, record_session_cleanup,
    rsd_install_failure, signing_error_kind, Ending, Execution, ExecutionEvent, ExecutionTurn,
    FirstInstall, FirstInstallEvent, FirstInstallTurn, InstallCommandFailure, PlanOutcome,
    SpikeInstallMutation, RSD_INSTALL_VERIFICATION_TIMEOUT,
};
use iphoneloadly_api::probe::{
    complete_read_only_probe, out_of_time, unopened, CloseOutcome, ProbeDiagnostic, ProbeStep,
    ProbeTurn,
};
use iphoneloadly_api::record::RecordId;
use iphoneloadly_api::session::{
    abandoned_session, core_device_appservice_port, core_device_probe_failure,
    exact_rsd_service_port, parsed_rsd_service_summary, segment_size, validate_rsd_identity,
    CoreDeviceServiceFailure, CoreDeviceTurn, DirectoryService, IdentityStep, IdentityTurn,
    OpenStep, OpenTurn, ParsedRsdServiceSummary, ValidationWalk, WalkStep, WalkTurn,
    AFC_SERVICE_NAME, CORE_DEVICE_APP_SERVICE_NAME, CORE_DEVICE_INFO_SERVICE_NAME,
    INSTALLATION_PROXY_SERVICE_NAME, MOBILE_IMAGE_MOUNTER_SERVICE_NAME, TUNNEL_SERVICE_NAME,
};
use iphoneloadly_api::signing::{
    AppleAccountPreflight, DeviceRegistrationState, PathKind, SigningDeviceIdentity, SigningError,
};
use iphoneloadly_api::stages::{
    CoreDeviceServiceOperation, ReadOnlyProbeFailure, ReadOnlyProbeService, ReadOnlyProbeStage,
    RsdIdentityFailure, RsdInstallOutcome, RsdInstallReport, RsdInstallStage, RsdProbeFailure,
    RsdProbeStage, RsdSessionCleanup, RsdStagingCleanup,
};
use iphoneloadly_api::staging::{
    check_directory, check_root, ensure_plan_deadline, examine, is_planned_directory,
    is_planned_file, removal_cleanup, safe_remote_relative_path, staging_removal,
    validate_upload_bounds, CopyFailure, FileHash, FileIdentity, FileTransfer, PathComponent, Place, PlanEvent,
    PlanStep, PlanTurn, RemovalOutcome, SignedBundleUploadPlan, SourceFacts, StageOutcome,
    StageState, StageStep, StageTurn, StagingRemoval, TransferFault, TaskStagingPath, UploadEntry, UploadEntryKind, UploadPlanFailure,
    RSD_INSTALL_BYTE_LIMIT, RSD_INSTALL_FILE_LIMIT,
};
use std::path::{Component, Path};

const SECOND: u64 = 1_000_000_000;

fn components(path: &Path) -> Vec<PathComponent> {
    path.components()
        .map(|component| match component {
            Component::Normal(name) => match name.to_str() {
                Some(name) => PathComponent::Normal(name.to_owned()),
                None => PathComponent::NonUnicode,
            },
            _ => PathComponent::Special,
        })
        .collect()
}

fn services(entries: &[(&str, u16)]) -> Vec<DirectoryService> {
    entries
        .iter()
        .map(|(name, port)| DirectoryService {
            name: (*name).to_owned(),
            port: *port,
        })
        .collect()
}

fn summary_values(summary: ParsedRsdServiceSummary) -> [bool; 6] {
    [
        summary.parsed_appservice_present,
        summary.parsed_deviceinfo_present,
        summary.parsed_untrusted_tunnelservice_present,
        summary.parsed_image_mounter_present,
        summary.parsed_installation_proxy_present,
        summary.parsed_afc_present,
    ]
}

#[test]
fn rsd_identity_requires_matching_bounded_lockdown_values() {
    let handshake = plist::Value::String("device-identity".into());
    let lockdown = plist::Value::String("device-identity".into());
    let name = plist::Value::String("Test iPhone".into());
    assert!(
        validate_rsd_identity(handshake.as_string(), lockdown.as_string(), name.as_string())
            .is_ok()
    );

    assert_eq!(
        validate_rsd_identity(None, lockdown.as_string(), name.as_string()).err(),
        Some(RsdIdentityFailure::HandshakeIdentity)
    );
    assert_eq!(
        validate_rsd_identity(
            handshake.as_string(),
            plist::Value::Integer(1_u64.into()).as_string(),
            name.as_string(),
        )
        .err(),
        Some(RsdIdentityFailure::LockdownIdentity)
    );
    assert_eq!(
        validate_rsd_identity(
            handshake.as_string(),
            plist::Value::String("other-device".into()).as_string(),
            name.as_string(),
        )
        .err(),
        Some(RsdIdentityFailure::IdentityMismatch)
    );
    assert_eq!(
        validate_rsd_identity(
            handshake.as_string(),
            lockdown.as_string(),
            plist::Value::String(String::new()).as_string(),
        )
        .err(),
        Some(RsdIdentityFailure::DeviceName)
    );
}

#[test]
fn task_staging_path_is_fixed_unique_and_cleanup_scoped() {
    let first = TaskStagingPath::new(
        RecordId::parse("00000000-0000-0000-0000-000000000001").unwrap(),
    );
    let second = TaskStagingPath::new(
        RecordId::parse("00000000-0000-0000-0000-000000000002").unwrap(),
    );
    assert_eq!(
        first.root,
        "PublicStaging/iphoneloadly-spike-00000000-0000-0000-0000-000000000001"
    );
    assert_eq!(first.app, format!("{}/Signed.app", first.root));
    assert_ne!(first.root, second.root);
    assert!(first.is_exact_task_root(&first.root));
    assert!(!first.is_exact_task_root("PublicStaging"));
    assert!(!first.is_exact_task_root("PublicStaging/iphoneloadly-spike-../../escape"));
}

#[test]
fn upload_paths_and_resource_bounds_reject_unsafe_or_oversized_trees() {
    assert_eq!(
        safe_remote_relative_path(&components(Path::new("Frameworks/Library.dylib"))).unwrap(),
        "Frameworks/Library.dylib"
    );
    assert_eq!(
        safe_remote_relative_path(&components(Path::new("../escape"))),
        Err(UploadPlanFailure::UnsafePath)
    );
    assert!(validate_upload_bounds(RSD_INSTALL_FILE_LIMIT, RSD_INSTALL_BYTE_LIMIT).is_ok());
    assert_eq!(
        validate_upload_bounds(RSD_INSTALL_FILE_LIMIT + 1, 0),
        Err(UploadPlanFailure::TooManyEntries)
    );
    assert_eq!(
        validate_upload_bounds(0, RSD_INSTALL_BYTE_LIMIT + 1),
        Err(UploadPlanFailure::TooManyBytes)
    );
}

#[test]
fn upload_plan_honors_expired_deadline() {
    assert_eq!(
        ensure_plan_deadline(Some(5), 5),
        Err(UploadPlanFailure::Timeout)
    );
    assert!(ensure_plan_deadline(Some(5), 4).is_ok());
    assert!(ensure_plan_deadline(None, u64::MAX).is_ok());
}

#[test]
fn upload_plan_rejects_symlinks() {
    assert_eq!(
        check_root(PathKind::Symlink),
        Err(UploadPlanFailure::SourceSymlink)
    );
    assert_eq!(
        check_root(PathKind::File),
        Err(UploadPlanFailure::SourceNotDirectory)
    );
    assert_eq!(
        check_directory(PathKind::Symlink, Place::Inside),
        Err(UploadPlanFailure::SourceSymlink)
    );
    assert_eq!(
        check_directory(PathKind::Directory, Place::Outside),
        Err(UploadPlanFailure::UnsafePath)
    );
    let path = components(Path::new("Link"));
    assert_eq!(
        examine(PathKind::Symlink, Place::Inside, &path).err(),
        Some(UploadPlanFailure::SourceSymlink)
    );
    assert_eq!(
        examine(PathKind::File, Place::Unresolved, &path).err(),
        Some(UploadPlanFailure::LocalIo)
    );
    assert_eq!(
        examine(PathKind::Other, Place::Inside, &path).err(),
        Some(UploadPlanFailure::UnsupportedFileType)
    );
    assert!(examine(PathKind::Directory, Place::Inside, &path).unwrap().directory);
}

#[test]
fn names_that_are_no_text_are_refused() {
    assert_eq!(
        safe_remote_relative_path(&vec![PathComponent::NonUnicode]),
        Err(UploadPlanFailure::NonUnicodePath)
    );
    assert_eq!(
        safe_remote_relative_path(&vec![]),
        Err(UploadPlanFailure::UnsafePath)
    );
    for name in ["", ".", "..", "a/b", "a\\b", "a\0"] {
        assert_eq!(
            safe_remote_relative_path(&vec![PathComponent::Normal(name.into())]),
            Err(UploadPlanFailure::UnsafePath)
        );
    }
    assert_eq!(UploadPlanFailure::TooManyBytes.kind(), "byte_limit");
}

#[test]
fn spike_install_mutation_is_install_only_and_developer_typed() {
    let mutation =
        installation_proxy_install_mutation("PublicStaging/iphoneloadly-spike-task/Signed.app");
    let SpikeInstallMutation::Install {
        package_path,
        options,
    } = mutation;
    assert_eq!(
        package_path,
        "PublicStaging/iphoneloadly-spike-task/Signed.app"
    );
    assert_eq!(
        options
            .iter()
            .find(|option| option.key == "PackageType")
            .map(|option| option.value),
        Some("Developer")
    );
}

#[test]
fn possible_install_acceptance_is_classified_without_retry() {
    assert_eq!(
        outcome_after_install_failure(InstallCommandFailure::PossiblyAccepted, Ok(true)),
        RsdInstallOutcome::Installed
    );
    assert_eq!(
        outcome_after_install_failure(InstallCommandFailure::PossiblyAccepted, Ok(false)),
        RsdInstallOutcome::OutcomeUnknown
    );
    assert_eq!(
        outcome_after_install_failure(InstallCommandFailure::PossiblyAccepted, Err(())),
        RsdInstallOutcome::OutcomeUnknown
    );
    assert_eq!(
        outcome_after_install_failure(InstallCommandFailure::Definitive, Ok(false)),
        RsdInstallOutcome::NotInstalled
    );
    let failure = rsd_install_failure(RsdInstallStage::Install, "send_failed", false, None);
    assert_eq!(failure.install_command_count, 0);
}

#[test]
fn every_install_result_requires_exact_bundle_verification() {
    assert_eq!(
        outcome_after_install_result(Ok(()), Ok(true)),
        RsdInstallOutcome::Installed
    );
    assert_eq!(
        outcome_after_install_result(Ok(()), Ok(false)),
        RsdInstallOutcome::NotInstalled
    );
    assert_eq!(
        outcome_after_install_result(Ok(()), Err(())),
        RsdInstallOutcome::OutcomeUnknown
    );
    assert_eq!(
        outcome_after_install_result(Err(InstallCommandFailure::Definitive), Ok(true)),
        RsdInstallOutcome::Installed
    );
    assert_eq!(
        outcome_after_install_result(Err(InstallCommandFailure::PossiblyAccepted), Ok(true)),
        RsdInstallOutcome::Installed
    );
}

#[test]
fn post_install_verification_deadline_is_bounded_by_timeout_and_reserve() {
    let start = 1_000 * SECOND;
    assert_eq!(install_cleanup_reserve(), 20 * SECOND);

    let bounded = install_verification_deadline(start + 60 * SECOND, start);
    assert_eq!(bounded, start + RSD_INSTALL_VERIFICATION_TIMEOUT);

    let reserve_limited = install_verification_deadline(start + 28 * SECOND, start);
    assert_eq!(reserve_limited, start + 8 * SECOND);

    let no_safe_window = install_verification_deadline(start + 15 * SECOND, start);
    assert!(no_safe_window < start);

    let delayed_start = start + 5 * SECOND;
    let delayed = install_verification_deadline(start + 60 * SECOND, delayed_start);
    assert_eq!(delayed, delayed_start + RSD_INSTALL_VERIFICATION_TIMEOUT);
}

#[test]
fn commands_leave_time_for_their_verification() {
    let overall = 1_000 * SECOND;
    assert_eq!(install_work_deadline(overall, 0), 980 * SECOND);
    assert_eq!(install_command_deadline(overall, 0), 960 * SECOND);
    assert_eq!(install_work_deadline(SECOND, 7), 7);
    assert_eq!(install_command_deadline(SECOND, 7), 7);
}

#[test]
fn session_cleanup_failure_preserves_staging_cleanup_diagnostic() {
    let mut report = RsdInstallReport {
        outcome: RsdInstallOutcome::Installed,
        stage: RsdInstallStage::Cleanup,
        cleanup: RsdStagingCleanup::Failed,
        session_cleanup: RsdSessionCleanup::NotNeeded,
        install_command_count: 1,
        error_kind: "staging_cleanup",
        bundle_id: Some("com.example.test".into()),
        certificate_pressure: false,
    };
    record_session_cleanup(&mut report, RsdSessionCleanup::Failed);
    assert_eq!(report.outcome, RsdInstallOutcome::Installed);
    assert_eq!(report.cleanup, RsdStagingCleanup::Failed);
    assert_eq!(report.session_cleanup, RsdSessionCleanup::Failed);
    assert_eq!(report.error_kind, "staging_cleanup");
}

#[test]
fn multiple_session_cleanup_attempts_preserve_any_failure() {
    assert_eq!(
        merge_session_cleanup(RsdSessionCleanup::Succeeded, RsdSessionCleanup::NotNeeded),
        RsdSessionCleanup::Succeeded
    );
    assert_eq!(
        merge_session_cleanup(RsdSessionCleanup::Succeeded, RsdSessionCleanup::Failed),
        RsdSessionCleanup::Failed
    );
    assert_eq!(
        merge_session_cleanup(RsdSessionCleanup::NotNeeded, RsdSessionCleanup::NotNeeded),
        RsdSessionCleanup::NotNeeded
    );
}

#[test]
fn parsed_rsd_service_summary_uses_only_six_exact_names() {
    let service_names = [
        CORE_DEVICE_APP_SERVICE_NAME,
        CORE_DEVICE_INFO_SERVICE_NAME,
        TUNNEL_SERVICE_NAME,
        MOBILE_IMAGE_MOUNTER_SERVICE_NAME,
        INSTALLATION_PROXY_SERVICE_NAME,
        AFC_SERVICE_NAME,
    ];

    assert_eq!(
        summary_values(parsed_rsd_service_summary(&vec![])),
        [false; 6]
    );

    for (index, service_name) in service_names.iter().enumerate() {
        let handshake = services(&[(service_name, 62_000 + index as u16)]);
        let mut expected = [false; 6];
        expected[index] = true;
        assert_eq!(
            summary_values(parsed_rsd_service_summary(&handshake)),
            expected,
            "incorrect projection for {service_name}"
        );
    }

    let all: Vec<DirectoryService> = service_names
        .iter()
        .enumerate()
        .map(|(index, name)| DirectoryService {
            name: (*name).to_owned(),
            port: 62_100 + index as u16,
        })
        .collect();
    assert_eq!(summary_values(parsed_rsd_service_summary(&all)), [true; 6]);

    let unexpected = format!("{CORE_DEVICE_APP_SERVICE_NAME}.unexpected");
    let mixed = services(&[
        (service_names[0], 62_200),
        (service_names[2], 62_202),
        (service_names[5], 62_205),
        (&unexpected, 62_300),
        ("sentinel-unknown-service", 62_301),
    ]);
    assert_eq!(
        summary_values(parsed_rsd_service_summary(&mixed)),
        [true, false, true, false, false, true]
    );
}

#[test]
fn core_device_service_lookup_requires_exact_appservice_name() {
    let near = format!("{CORE_DEVICE_APP_SERVICE_NAME}.unexpected");
    let handshake = services(&[(&near, 62_078)]);
    let missing = core_device_appservice_port(&handshake)
        .expect_err("near-match must not satisfy exact AppService lookup");
    assert_eq!(missing.operation, CoreDeviceServiceOperation::ServiceLookup);
    assert_eq!(missing.operation.as_str(), "service_lookup");
    assert_eq!(missing.result, "missing");
    assert_eq!(missing.error_kind, "service_not_found");
    assert!(!missing.appservice_present);

    let handshake = services(&[(&near, 62_078), (CORE_DEVICE_APP_SERVICE_NAME, 62_079)]);
    assert_eq!(
        core_device_appservice_port(&handshake).expect("exact AppService name"),
        62_079
    );
}

#[test]
fn core_device_service_failures_are_classified_and_secret_free() {
    let CoreDeviceTurn::Failed(connect_timeout) =
        CoreDeviceServiceOperation::ServiceConnect.advance(CallOutcome::TimedOut)
    else {
        panic!("pending service connection must time out");
    };
    assert_eq!(
        connect_timeout,
        CoreDeviceServiceFailure {
            operation: CoreDeviceServiceOperation::ServiceConnect,
            result: "timeout",
            error_kind: "timeout",
            appservice_present: true,
        }
    );
    let CoreDeviceTurn::Failed(client_init) = CoreDeviceServiceOperation::ClientInit
        .advance(CallOutcome::Faulted(DeviceFault::UnexpectedResponse))
    else {
        panic!("client initialization error must fail closed");
    };
    assert_eq!(client_init.operation.as_str(), "client_init");
    assert_eq!(client_init.result, "error");
    assert_eq!(client_init.error_kind, "unexpected_response");
    let CoreDeviceTurn::Failed(list_apps) =
        CoreDeviceServiceOperation::ListApps.advance(CallOutcome::Faulted(DeviceFault::CoreDevice))
    else {
        panic!("list_apps error must fail closed");
    };
    assert_eq!(list_apps.operation.as_str(), "list_apps");
    assert_eq!(list_apps.error_kind, "core_device");
    assert_eq!(
        core_device_probe_failure().stage,
        RsdProbeStage::CoreDeviceService
    );
    assert_eq!(
        CoreDeviceServiceOperation::ListApps.advance(CallOutcome::Completed),
        CoreDeviceTurn::Answered
    );
}

#[test]
fn read_only_service_lookup_requires_exact_nonzero_entries() {
    for (service_name, near_match) in [
        (AFC_SERVICE_NAME, "com.apple.afc.shim.remote.unexpected"),
        (
            INSTALLATION_PROXY_SERVICE_NAME,
            "com.apple.mobile.installation_proxy.shim.remote.unexpected",
        ),
    ] {
        let handshake = services(&[(near_match, 62_000)]);
        assert_eq!(exact_rsd_service_port(&handshake, service_name), None);

        let handshake = services(&[(near_match, 62_000), (service_name, 0)]);
        assert_eq!(exact_rsd_service_port(&handshake, service_name), None);

        let handshake = services(&[(near_match, 62_000), (service_name, 62_001)]);
        assert_eq!(
            exact_rsd_service_port(&handshake, service_name),
            Some(62_001)
        );
    }
}

#[test]
fn read_only_probe_stages_are_static_and_service_specific() {
    assert_eq!(
        [
            ReadOnlyProbeStage::Discovery.as_str(),
            ReadOnlyProbeStage::ValidatePairing.as_str(),
            ReadOnlyProbeStage::Tunnel.as_str(),
            ReadOnlyProbeStage::RsdHandshake.as_str(),
            ReadOnlyProbeStage::ServiceLookup.as_str(),
            ReadOnlyProbeStage::ServiceConnect.as_str(),
            ReadOnlyProbeStage::ClientInit.as_str(),
            ReadOnlyProbeStage::AfcQuery.as_str(),
            ReadOnlyProbeStage::AppLookup.as_str(),
            ReadOnlyProbeStage::Cleanup.as_str(),
        ],
        [
            "discovery",
            "validatePairing",
            "tunnel",
            "rsdHandshake",
            "serviceLookup",
            "serviceConnect",
            "clientInit",
            "afcQuery",
            "appLookup",
            "cleanup",
        ]
    );
}

#[test]
fn read_only_probe_preserves_existing_setup_stages() {
    for (setup, read_only) in [
        (RsdProbeStage::Discovery, ReadOnlyProbeStage::Discovery),
        (
            RsdProbeStage::ValidatePairing,
            ReadOnlyProbeStage::ValidatePairing,
        ),
        (RsdProbeStage::Tunnel, ReadOnlyProbeStage::Tunnel),
        (
            RsdProbeStage::RsdHandshake,
            ReadOnlyProbeStage::RsdHandshake,
        ),
    ] {
        assert_eq!(ReadOnlyProbeStage::from(setup), read_only);
    }
    assert_eq!(
        RsdInstallStage::from(RsdProbeStage::CoreDeviceService),
        RsdInstallStage::RsdHandshake
    );
    assert_eq!(
        RsdInstallStage::from(ReadOnlyProbeStage::AfcQuery),
        RsdInstallStage::Staging
    );
}

#[test]
fn approved_reporter_uses_only_bounded_static_fields() {
    let ProbeTurn::Failed(diagnostic) = ProbeStep::Init.advance(
        ReadOnlyProbeService::Afc,
        CallOutcome::Faulted(DeviceFault::UnexpectedResponse),
    ) else {
        panic!("a fault ends the probe");
    };
    assert_eq!(
        diagnostic,
        ProbeDiagnostic {
            service: ReadOnlyProbeService::Afc,
            stage: ReadOnlyProbeStage::ClientInit,
            operation: "client_init",
            result: "error",
            error_kind: "unexpected_response",
        }
    );
    assert!(!format!("{diagnostic:?}").contains("device-controlled-secret"));
}

#[test]
fn read_only_step_timeouts_map_to_the_active_stage() {
    for (service, step, stage) in [
        (
            ReadOnlyProbeService::Afc,
            ProbeStep::Connect,
            ReadOnlyProbeStage::ServiceConnect,
        ),
        (
            ReadOnlyProbeService::Afc,
            ProbeStep::Init,
            ReadOnlyProbeStage::ClientInit,
        ),
        (
            ReadOnlyProbeService::Afc,
            ProbeStep::Query,
            ReadOnlyProbeStage::AfcQuery,
        ),
        (
            ReadOnlyProbeService::InstallationProxy,
            ProbeStep::Connect,
            ReadOnlyProbeStage::ServiceConnect,
        ),
        (
            ReadOnlyProbeService::InstallationProxy,
            ProbeStep::Init,
            ReadOnlyProbeStage::ClientInit,
        ),
        (
            ReadOnlyProbeService::InstallationProxy,
            ProbeStep::Query,
            ReadOnlyProbeStage::AppLookup,
        ),
    ] {
        let ProbeTurn::Failed(failure) = step.advance(service, CallOutcome::TimedOut) else {
            panic!("pending operation must time out");
        };
        assert_eq!(failure.failure().stage, stage);
        assert_eq!(failure.operation, stage.operation());
    }
}

#[test]
fn cleanup_is_bounded_and_preserves_primary_failures() {
    let service = ReadOnlyProbeService::Afc;
    assert_eq!(
        complete_read_only_probe(service, Ok(()), CloseOutcome::Closed),
        (Ok(()), None)
    );
    let (result, diagnostic) =
        complete_read_only_probe(service, Ok(()), CloseOutcome::Failed(IoFault::Other));
    assert_eq!(result.unwrap_err().stage, ReadOnlyProbeStage::Cleanup);
    assert_eq!(diagnostic.unwrap().error_kind, "other");
    let primary = ReadOnlyProbeFailure {
        stage: ReadOnlyProbeStage::AfcQuery,
    };
    for closed in [
        CloseOutcome::Closed,
        CloseOutcome::Failed(IoFault::Other),
        CloseOutcome::TimedOut,
    ] {
        assert_eq!(
            complete_read_only_probe(service, Err(primary), closed).0,
            Err(primary)
        );
    }
    assert_eq!(
        complete_read_only_probe(service, Ok(()), CloseOutcome::TimedOut)
            .0
            .unwrap_err()
            .stage,
        ReadOnlyProbeStage::Cleanup
    );
}

#[test]
fn probes_look_their_service_up_first() {
    let service = ReadOnlyProbeService::InstallationProxy;
    assert_eq!(
        ProbeStep::Lookup.advance(service, CallOutcome::Completed),
        ProbeTurn::Next(ProbeStep::Connect)
    );
    let ProbeTurn::Failed(missing) = ProbeStep::Lookup.advance(service, CallOutcome::TimedOut)
    else {
        panic!("a missing service ends the probe");
    };
    assert_eq!(missing.error_kind, "service_not_found");
    let unopened = unopened(
        service,
        RsdProbeFailure {
            stage: RsdProbeStage::CoreDeviceService,
            session_cleanup: RsdSessionCleanup::NotNeeded,
        },
    );
    assert_eq!(unopened.stage, ReadOnlyProbeStage::ServiceConnect);
    assert_eq!(unopened.operation, "setup");
    assert_eq!(
        out_of_time(service, ReadOnlyProbeStage::Tunnel).operation,
        "setup"
    );
}

#[test]
fn sessions_open_step_by_step() {
    let mut step = OpenStep::Material;
    let mut stages = vec![step.current_stage()];
    while let OpenTurn::Next(next) = step.advance(true) {
        step = next;
        stages.push(step.current_stage());
    }
    assert_eq!(step.advance(true), OpenTurn::Opened);
    assert_eq!(stages.len(), 11);
    assert_eq!(stages[4], ReadOnlyProbeStage::ValidatePairing);
    assert_eq!(
        OpenStep::Peer.advance(false),
        OpenTurn::Failed(RsdProbeFailure {
            stage: RsdProbeStage::Discovery,
            session_cleanup: RsdSessionCleanup::NotNeeded,
        })
    );
    assert_eq!(OpenStep::Handshake.advance(false), OpenTurn::Close);
    assert_eq!(
        abandoned_session(false).session_cleanup,
        RsdSessionCleanup::Failed
    );
    assert_eq!(segment_size(1_500), 1_440);
    assert_eq!(segment_size(59), 0);
}

#[test]
fn validation_gives_up_one_address_at_a_time() {
    assert!(matches!(ValidationWalk::begin(0), WalkTurn::Failed(_)));
    let walk = ValidationWalk {
        target: 0,
        step: WalkStep::Attempt,
    };
    assert_eq!(
        walk.advance(2, false),
        WalkTurn::Next(ValidationWalk {
            target: 1,
            step: WalkStep::Connect
        })
    );
    let last = ValidationWalk {
        target: 1,
        step: WalkStep::Validate,
    };
    assert_eq!(last.advance(2, true), WalkTurn::Validated(1));
    let WalkTurn::Failed(failure) = last.advance(2, false) else {
        panic!("no address is left");
    };
    assert_eq!(failure.stage, RsdProbeStage::ValidatePairing);
}

#[test]
fn devices_are_identified_step_by_step() {
    assert_eq!(
        IdentityStep::Lookup.advance(true),
        IdentityTurn::Next(IdentityStep::Connect)
    );
    assert_eq!(IdentityStep::ReadName.advance(true), IdentityTurn::Validate);
    assert_eq!(
        IdentityStep::ReadIdentity.advance(false),
        IdentityTurn::Failed(RsdIdentityFailure::LockdownIdentity)
    );
    assert_eq!(
        RsdIdentityFailure::ServiceLookup.kind(),
        "lockdown_service_lookup"
    );
}

#[test]
fn file_service_numbers_are_little_endian() {
    assert_eq!(number_bytes(0x0102), vec![2, 1, 0, 0, 0, 0, 0, 0]);
    assert_eq!(descriptor_of(&number_bytes(u64::MAX)), Some(u64::MAX));
    assert_eq!(descriptor_of(&[1, 2, 3]), None);
    assert_eq!(
        descriptor_of(&[5, 0, 0, 0, 0, 0, 0, 0, 9]),
        Some(5)
    );
    let request = open_request("a/b");
    assert_eq!(request[..8], [4, 0, 0, 0, 0, 0, 0, 0]);
    assert_eq!(&request[8..], b"a/b");
    let mut counter = PacketCounter::new();
    let first = counter.frame(10, 5);
    assert_eq!(first.header_payload_len, 50);
    assert_eq!(first.entire_len, 55);
    assert_eq!(first.packet_num, 0);
    assert_eq!(counter.frame(0, 0).packet_num, 1);
    let mut last = PacketCounter {
        packet_number: u64::MAX,
    };
    last.frame(0, 0);
    assert_eq!(last.packet_number, 0);
}

#[test]
fn directories_are_told_by_their_kind() {
    assert!(is_directory(b"st_size\0128\0st_ifmt\0S_IFDIR\0"));
    assert!(is_directory(b"\0\0st_ifmt\0S_IFDIR"));
    assert!(!is_directory(b"st_size\0128\0st_ifmt\0S_IFREG\0"));
    assert!(!is_directory(b"x\0st_ifmt\0S_IFDIR\0y"));
    assert!(!is_directory(b"st_ifmt"));
    assert!(!is_directory(b""));
    assert_eq!(path_exists(Ok(())), Ok(true));
    assert_eq!(path_exists(Err(DeviceFault::ObjectNotFound)), Ok(false));
    assert_eq!(
        path_exists(Err(DeviceFault::Timeout)),
        Err(DeviceFault::Timeout)
    );
}

fn file_entry(path: &str, content: &[u8]) -> UploadEntry {
    UploadEntry {
        local_path: format!("local/{path}"),
        remote_relative_path: path.into(),
        kind: UploadEntryKind::File {
            size: content.len() as u64,
            identity: FileIdentity::of_inode(1, 2, 3, 4),
            digest: sha256(content),
        },
    }
}

fn directory_entry(path: &str) -> UploadEntry {
    UploadEntry {
        local_path: format!("local/{path}"),
        remote_relative_path: path.into(),
        kind: UploadEntryKind::Directory {
            identity: FileIdentity::of_inode(1, 2, 3, 4),
        },
    }
}

#[test]
fn plans_are_bounded_and_ordered() {
    let mut plan = SignedBundleUploadPlan::new();
    assert!(plan.add_entry(file_entry("Frameworks/Library", b"abc")).is_ok());
    assert!(plan.add_entry(directory_entry("Frameworks")).is_ok());
    assert_eq!(plan.byte_count, 3);
    assert_eq!(
        plan.make_room(RSD_INSTALL_BYTE_LIMIT),
        Err(UploadPlanFailure::TooManyBytes)
    );
    assert_eq!(
        plan.make_room(u64::MAX),
        Err(UploadPlanFailure::TooManyBytes)
    );
    let plan = plan.finish();
    let paths: Vec<&str> = plan
        .entries
        .iter()
        .map(|entry| entry.remote_relative_path.as_str())
        .collect();
    assert_eq!(paths, vec!["Frameworks", "Frameworks/Library"]);
}

#[test]
fn upload_plan_rejects_a_replaced_file_before_follow_open() {
    let identity = FileIdentity::of_inode(1, 2, 3, 4);
    let facts = SourceFacts {
        kind: PathKind::File,
        place: Place::Inside,
        size: 8,
        identity: Some(identity),
    };
    assert!(is_planned_file(facts, 8, identity));
    assert!(!is_planned_file(
        SourceFacts { size: 11, ..facts },
        8,
        identity
    ));
    let replaced = FileIdentity::of_inode(1, 9, 3, 4);
    assert!(!is_planned_file(
        SourceFacts {
            identity: Some(replaced),
            ..facts
        },
        8,
        identity
    ));
    assert!(!is_planned_file(
        SourceFacts {
            kind: PathKind::Symlink,
            ..facts
        },
        8,
        identity
    ));
    assert!(!is_planned_directory(facts, identity));
    assert_eq!(
        FileIdentity::of_inode(1, 2, 1, 5).version,
        1_u64.rotate_left(32) ^ 5
    );
}

#[test]
fn copies_are_those_that_were_planned() {
    let identity = FileIdentity::of_inode(1, 2, 3, 4);
    let facts = SourceFacts {
        kind: PathKind::File,
        place: Place::Inside,
        size: 8,
        identity: Some(identity),
    };
    let planned = sha256(b"original");
    let mut transfer = FileTransfer::new(8);
    assert!(transfer.receive(b"orig").is_ok());
    assert!(transfer.receive(b"inal").is_ok());
    assert_eq!(transfer.receive(b"x").err(), Some(TransferFault::Changed));
    assert!(transfer.finish(facts, identity, &planned).is_ok());
    let mut other = FileTransfer::new(8);
    other.receive(b"Original").unwrap();
    assert_eq!(
        other.finish(facts, identity, &planned).err(),
        Some(TransferFault::Changed)
    );
    let mut short = FileTransfer::new(8);
    short.receive(b"orig").unwrap();
    assert_eq!(
        short.finish(facts, identity, &planned).err(),
        Some(TransferFault::Changed)
    );
}

#[test]
fn copies_close_what_they_opened() {
    let entries = vec![directory_entry("Frameworks"), file_entry("Frameworks/a", b"abc")];
    let mut state = StageState::begin();
    let mut steps = 1;
    loop {
        match state.advance(&entries, StageOutcome::Done) {
            StageTurn::Next(next) => {
                state = next;
                steps += 1;
            }
            StageTurn::Staged => break,
            StageTurn::Failed(_) => panic!("nothing has failed"),
        }
    }
    assert_eq!(steps, 10);
    let transfer = StageState {
        step: StageStep::Transfer,
        entry: 1,
        broken: None,
    };
    let StageTurn::Next(closing) = transfer.advance(&entries, StageOutcome::Broken(TransferFault::Changed))
    else {
        panic!("an open file is closed");
    };
    assert_eq!(closing.step, StageStep::CloseFile);
    assert_eq!(
        closing.advance(&entries, StageOutcome::Failed),
        StageTurn::Failed(CopyFailure::Transfer(TransferFault::Changed))
    );
    assert_eq!(
        StageState::begin().advance(&entries, StageOutcome::Unwanted),
        StageTurn::Failed(CopyFailure::Unwanted(StageStep::Query))
    );
    assert!(!StageStep::Absent.root_created());
    assert!(StageStep::CreateRoot.root_created());
}

#[test]
fn only_the_tasks_own_directory_is_removed() {
    let staging = TaskStagingPath::new(RecordId { bits: 7 });
    assert_eq!(
        staging_removal(&staging, false),
        StagingRemoval::Settled(RsdStagingCleanup::NotNeeded)
    );
    assert_eq!(staging_removal(&staging, true), StagingRemoval::Remove);
    let foreign = TaskStagingPath {
        root: "PublicStaging".into(),
        app: "PublicStaging/Signed.app".into(),
    };
    assert_eq!(
        staging_removal(&foreign, true),
        StagingRemoval::Settled(RsdStagingCleanup::Failed)
    );
    assert_eq!(
        removal_cleanup(RemovalOutcome::Faulted(DeviceFault::ObjectNotFound)),
        RsdStagingCleanup::Succeeded
    );
    assert_eq!(
        removal_cleanup(RemovalOutcome::TimedOut),
        RsdStagingCleanup::Failed
    );
    assert_eq!(
        staging.entry_path(&directory_entry("Frameworks")),
        format!("{}/Frameworks", staging.app)
    );
}

fn run_execution(events: &[ExecutionEvent]) -> ExecutionTurn {
    let mut turn = ExecutionTurn::Next(Execution::OpenProxy);
    for event in events {
        if let ExecutionTurn::Next(execution) = turn {
            turn = execution.advance(*event);
        }
    }
    turn
}

#[test]
fn installations_command_once_and_clean_up() {
    let events = [
        ExecutionEvent::Opened(true),
        ExecutionEvent::LookedUp(Ok(false)),
        ExecutionEvent::Planned(PlanOutcome::Planned),
        ExecutionEvent::Opened(true),
        ExecutionEvent::Copied(Ok(())),
        ExecutionEvent::InTime(true),
        ExecutionEvent::Opened(true),
        ExecutionEvent::Commanded(Err(InstallCommandFailure::PossiblyAccepted)),
        ExecutionEvent::Opened(true),
        ExecutionEvent::LookedUp(Ok(true)),
        ExecutionEvent::Cleaned(RsdStagingCleanup::Failed),
    ];
    let ExecutionTurn::Ended(ending) = run_execution(&events) else {
        panic!("the installation has ended");
    };
    assert_eq!(ending.outcome, RsdInstallOutcome::Installed);
    assert_eq!(ending.install_command_count, 1);
    assert_eq!(ending.stage, RsdInstallStage::Cleanup);
    assert_eq!(ending.error_kind, "staging_cleanup");
    let ExecutionTurn::Ended(present) = run_execution(&[
        ExecutionEvent::Opened(true),
        ExecutionEvent::LookedUp(Ok(true)),
    ]) else {
        panic!("an installed app is left alone");
    };
    assert_eq!(present.error_kind, "app_already_installed");
    assert_eq!(present.install_command_count, 0);
    let ExecutionTurn::Ended(unsent) = run_execution(&[
        ExecutionEvent::Opened(true),
        ExecutionEvent::LookedUp(Ok(false)),
        ExecutionEvent::Planned(PlanOutcome::Failed(UploadPlanFailure::TooManyBytes)),
    ]) else {
        panic!("a plan that fails ends the installation");
    };
    assert_eq!(unsent.error_kind, "byte_limit");
    let ExecutionTurn::Ended(uncopied) = run_execution(&[
        ExecutionEvent::Opened(true),
        ExecutionEvent::LookedUp(Ok(false)),
        ExecutionEvent::Planned(PlanOutcome::Planned),
        ExecutionEvent::Opened(true),
        ExecutionEvent::Copied(Err(CopyFailure::Transfer(TransferFault::Unwritten))),
        ExecutionEvent::Cleaned(RsdStagingCleanup::Succeeded),
    ]) else {
        panic!("a copy that fails is cleaned up");
    };
    assert_eq!(uncopied.outcome, RsdInstallOutcome::NotInstalled);
    assert_eq!(uncopied.cleanup, RsdStagingCleanup::Succeeded);
}

#[test]
fn unawaited_events_change_nothing() {
    assert_eq!(
        Execution::Command.advance(ExecutionEvent::Opened(true)),
        ExecutionTurn::Next(Execution::Command)
    );
}

fn identity(name: &str) -> SigningDeviceIdentity {
    SigningDeviceIdentity::new(name.into(), "udid".into()).unwrap()
}

fn run_install(events: Vec<FirstInstallEvent>) -> FirstInstallTurn {
    let mut turn = FirstInstallTurn::Next(FirstInstall::OpenFirst);
    for event in events {
        turn = match turn {
            FirstInstallTurn::Next(state) => state.advance(event),
            reported => reported,
        };
    }
    turn
}

fn preflight(count: usize) -> AppleAccountPreflight {
    AppleAccountPreflight {
        device_registration: DeviceRegistrationState::AlreadyPresent,
        development_certificate_count: count,
        development_certificate_capacity: Some(2),
        machine_certificate_present: false,
    }
}

#[test]
fn first_installations_identify_the_device_twice() {
    let signed = || FirstInstallEvent::Signed {
        preflight: preflight(2),
        bundle_id: Some("com.example.app".into()),
    };
    let FirstInstallTurn::Reported(report) = run_install(vec![
        FirstInstallEvent::Opened,
        FirstInstallEvent::Identified(identity("Phone")),
        FirstInstallEvent::Closed(true),
        signed(),
        FirstInstallEvent::Opened,
        FirstInstallEvent::Identified(identity("Phone")),
        FirstInstallEvent::Executed(Ending {
            outcome: RsdInstallOutcome::Installed,
            stage: RsdInstallStage::Complete,
            cleanup: RsdStagingCleanup::Succeeded,
            install_command_count: 1,
            error_kind: "",
        }),
        FirstInstallEvent::Closed(false),
    ]) else {
        panic!("the installation is reported");
    };
    assert_eq!(report.outcome, RsdInstallOutcome::Installed);
    assert_eq!(report.session_cleanup, RsdSessionCleanup::Failed);
    assert_eq!(report.error_kind, "session_cleanup");
    assert_eq!(report.stage, RsdInstallStage::SessionCleanup);
    assert!(report.certificate_pressure);
    let FirstInstallTurn::Reported(changed) = run_install(vec![
        FirstInstallEvent::Opened,
        FirstInstallEvent::Identified(identity("Phone")),
        FirstInstallEvent::Closed(true),
        signed(),
        FirstInstallEvent::Opened,
        FirstInstallEvent::Identified(identity("Other")),
        FirstInstallEvent::Closed(true),
    ]) else {
        panic!("another device is reported");
    };
    assert_eq!(changed.error_kind, "identity_changed");
    assert_eq!(changed.outcome, RsdInstallOutcome::NotStarted);
    assert_eq!(changed.session_cleanup, RsdSessionCleanup::Succeeded);
    assert_eq!(changed.bundle_id.as_deref(), Some("com.example.app"));
}

#[test]
fn early_failures_are_reported_with_their_stage() {
    let FirstInstallTurn::Reported(unopened) = run_install(vec![FirstInstallEvent::OpenFailed(
        RsdProbeFailure {
            stage: RsdProbeStage::Discovery,
            session_cleanup: RsdSessionCleanup::NotNeeded,
        },
    )]) else {
        panic!("no session is reported");
    };
    assert_eq!(unopened.stage, RsdInstallStage::Discovery);
    assert_eq!(unopened.error_kind, "session_open");
    let FirstInstallTurn::Reported(late) = run_install(vec![FirstInstallEvent::OpenTimedOut(
        ReadOnlyProbeStage::RsdHandshake,
    )]) else {
        panic!("no session is reported");
    };
    assert_eq!(late.error_kind, "timeout");
    assert_eq!(late.session_cleanup, RsdSessionCleanup::Failed);
    let FirstInstallTurn::Reported(unclosed) = run_install(vec![
        FirstInstallEvent::Opened,
        FirstInstallEvent::Identified(identity("Phone")),
        FirstInstallEvent::Closed(false),
    ]) else {
        panic!("an open session is reported");
    };
    assert_eq!(unclosed.error_kind, "session_cleanup");
    let FirstInstallTurn::Reported(unsigned) = run_install(vec![
        FirstInstallEvent::Opened,
        FirstInstallEvent::Identified(identity("Phone")),
        FirstInstallEvent::Closed(true),
        FirstInstallEvent::SigningFailed {
            asking: true,
            error: SigningError::NotReady,
        },
    ]) else {
        panic!("an unsigned app is reported");
    };
    assert_eq!(unsigned.stage, RsdInstallStage::AccountPreflight);
    assert_eq!(unsigned.error_kind, "signing_not_ready");
    let FirstInstallTurn::Reported(unregistered) = run_install(vec![
        FirstInstallEvent::Opened,
        FirstInstallEvent::Identified(identity("Phone")),
        FirstInstallEvent::Closed(true),
        FirstInstallEvent::Signed {
            preflight: preflight(1),
            bundle_id: None,
        },
    ]) else {
        panic!("an unregistered device is reported");
    };
    assert_eq!(unregistered.error_kind, "device_registration_required");
    assert!(!unregistered.certificate_pressure);
}

#[test]
fn commands_are_definite_only_where_they_are_refused() {
    assert_eq!(install_command_result(CallOutcome::Completed), Ok(()));
    assert_eq!(
        install_command_result(CallOutcome::Faulted(DeviceFault::OperationFailed)),
        Err(InstallCommandFailure::Definitive)
    );
    assert_eq!(
        install_command_result(CallOutcome::TimedOut),
        Err(InstallCommandFailure::PossiblyAccepted)
    );
    assert_eq!(
        install_error_kind(Ok(()), RsdInstallOutcome::NotInstalled),
        "install_not_verified"
    );
    assert_eq!(
        install_error_kind(
            Err(InstallCommandFailure::Definitive),
            RsdInstallOutcome::NotInstalled
        ),
        "install_rejected"
    );
    assert_eq!(
        install_error_kind(Ok(()), RsdInstallOutcome::OutcomeUnknown),
        "install_result_ambiguous"
    );
    assert_eq!(
        signing_error_kind(SigningError::IpaSigningFailed),
        "signing_failed"
    );
    assert!(certificate_pressure(preflight(2)));
    assert!(!certificate_pressure(preflight(1)));
}

#[test]
fn planned_files_are_hashed_while_they_stay_the_same() {
    let identity = FileIdentity::of_inode(1, 2, 3, 4);
    let facts = SourceFacts {
        kind: PathKind::File,
        place: Place::Inside,
        size: 3,
        identity: Some(identity),
    };
    let mut hash = FileHash::begin(Some(10), 1, Some(facts), 3, identity).ok().unwrap();
    assert_eq!(hash.receive(2, Some(b"ab")), Ok(()));
    assert_eq!(hash.receive(3, Some(b"c")), Ok(()));
    assert_eq!(hash.finish(4, Some(facts)), Ok(sha256(b"abc")));

    let begin = |deadline, facts| FileHash::begin(deadline, 1, facts, 3, identity);
    assert_eq!(
        begin(Some(1), None).err(),
        Some(UploadPlanFailure::Timeout)
    );
    assert_eq!(begin(None, None).err(), Some(UploadPlanFailure::LocalIo));
    let grown = SourceFacts { size: 4, ..facts };
    assert_eq!(
        begin(None, Some(grown)).err(),
        Some(UploadPlanFailure::LocalIo)
    );
    let mut hash = begin(Some(5), Some(facts)).ok().unwrap();
    assert_eq!(hash.receive(2, None), Err(UploadPlanFailure::LocalIo));
    assert_eq!(hash.receive(5, Some(b"a")), Err(UploadPlanFailure::Timeout));
    assert_eq!(hash.finish(4, Some(grown)), Err(UploadPlanFailure::LocalIo));
    let hash = begin(Some(5), Some(facts)).ok().unwrap();
    assert_eq!(hash.finish(5, Some(facts)), Err(UploadPlanFailure::Timeout));
}

#[test]
fn plans_go_through_every_directory() {
    let next = |step: PlanStep, event| match step.advance(1, false, event) {
        PlanTurn::Next(next) => next,
        turn => panic!("{step:?} leads to {turn:?}"),
    };
    let order = [
        PlanStep::Root,
        PlanStep::RestrictRoot,
        PlanStep::ResolveRoot,
        PlanStep::Directory,
        PlanStep::RestrictDirectory,
        PlanStep::PlaceDirectory,
        PlanStep::List,
        PlanStep::Child,
    ];
    for pair in order.windows(2) {
        assert_eq!(next(pair[0], PlanEvent::Done), pair[1]);
    }
    assert_eq!(
        next(PlanStep::Child, PlanEvent::Seen { directory: true }),
        PlanStep::RestrictFolder
    );
    assert_eq!(next(PlanStep::RestrictFolder, PlanEvent::Done), PlanStep::Add);
    let file = [
        PlanStep::RestrictFile,
        PlanStep::Room,
        PlanStep::Hash,
        PlanStep::Add,
        PlanStep::Child,
    ];
    assert_eq!(
        next(PlanStep::Child, PlanEvent::Seen { directory: false }),
        file[0]
    );
    for pair in file.windows(2) {
        assert_eq!(next(pair[0], PlanEvent::Done), pair[1]);
    }
    assert_eq!(next(PlanStep::Child, PlanEvent::Exhausted), PlanStep::Directory);
    let last = PlanStep::Child;
    assert_eq!(last.advance(0, false, PlanEvent::Exhausted), PlanTurn::Planned);
    assert_eq!(
        last.advance(0, true, PlanEvent::Exhausted),
        PlanTurn::Refuse(UploadPlanFailure::Timeout)
    );
    let failed = PlanEvent::Failed(UploadPlanFailure::LocalIo);
    assert_eq!(
        last.advance(0, true, failed),
        PlanTurn::Refuse(UploadPlanFailure::Timeout)
    );
    assert_eq!(
        PlanStep::Room.advance(0, true, failed),
        PlanTurn::Refuse(UploadPlanFailure::LocalIo)
    );
}

#[test]
fn failed_copies_are_named() {
    let expected = [
        (CopyFailure::Step(StageStep::Query), "public_staging_query"),
        (CopyFailure::Unwanted(StageStep::Query), "public_staging_invalid"),
        (CopyFailure::Step(StageStep::Absent), "staging_precheck"),
        (CopyFailure::Unwanted(StageStep::Absent), "staging_root_exists"),
        (CopyFailure::Step(StageStep::CloseFile), "staging_file_close"),
        (CopyFailure::Transfer(TransferFault::Unreadable), "source_read"),
        (CopyFailure::Transfer(TransferFault::Changed), "source_changed"),
        (CopyFailure::Transfer(TransferFault::Unwritten), "staging_file_write"),
        (CopyFailure::Unavailable, "afc_service"),
        (CopyFailure::TimedOut, "timeout"),
    ];
    for (failure, kind) in expected {
        assert_eq!(failure.kind(), kind);
    }
}
