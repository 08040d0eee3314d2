use iphoneloadly_api::number::parse_number;
use iphoneloadly_api::pairing::{
    ConfigError, PairingError, WirelessPairingConfig, WirelessPairingMode, DEFAULT_PAIRING_PORT,
};
use iphoneloadly_api::requests::{
    afc_probe_reply, api_address, data_directory, effective_pairing, is_install_body,
    is_login_request, login_refusal, may_bind, pairing_refusal, pairing_request_refusal,
    read_only_probe_reply, refresh_day_refusal, rsd_probe_reply, spike_install_response,
    spike_install_status, spike_route_paths, spike_target_allowed, two_factor_reply,
    AfcProbeResponse, InstallRequestStep, InstallRequestTurn, LoginRequestStep, LoginRequestTurn,
    PairingRequest,
    ReadOnlyProbeFailureResponse, ReadOnlyProbeSuccessResponse, RequestFailure,
    RsdProbeFailureResponse, RsdProbeSuccessResponse, SPIKE_AFC_PROBE_PATH,
    SPIKE_DIAGNOSTICS_TARGET, SPIKE_INSTALLATION_PROXY_PROBE_PATH, SPIKE_REMOTE_AFC_PROBE_PATH,
    SPIKE_RSD_INSTALL_PATH, SPIKE_RSD_PROBE_PATH,
};
use iphoneloadly_api::signing::SigningError;
use iphoneloadly_api::stages::{
    ReadOnlyProbeFailure, ReadOnlyProbeService, ReadOnlyProbeStage, RsdInstallOutcome,
    RsdInstallReport, RsdInstallStage, RsdProbeFailure, RsdProbeStage, RsdSessionCleanup,
    RsdStagingCleanup,
};

#[test]
fn afc_probe_response_contains_only_non_secret_status() {
    let (status, value) = afc_probe_reply(true);
    assert_eq!(status, 200);
    assert_eq!(
        value,
        AfcProbeResponse {
            transport: "lockdown",
            afc: "ok",
        }
    );
    let (status, value) = afc_probe_reply(false);
    assert_eq!(status, 503);
    assert_eq!(value.afc, "unavailable");
}

#[test]
fn rsd_probe_success_response_is_non_secret() {
    let value = rsd_probe_reply(Ok(())).expect("a probe that succeeded");
    assert_eq!(
        value,
        RsdProbeSuccessResponse {
            transport: "rsdCoreDevice",
            remote_pairing: "ok",
            rsd: "ok",
            core_device: "ok",
        }
    );
    let encoded = format!("{value:?}");
    for secret_name in [
        "pairingFile",
        "privateKey",
        "altIrk",
        "authTag",
        "encryptionKey",
        "identifier",
    ] {
        assert!(
            !encoded.contains(secret_name),
            "response leaked {secret_name}"
        );
    }
}

#[test]
fn rsd_probe_failure_response_is_non_secret() {
    for (told, stage) in [
        (RsdProbeStage::ValidatePairing, "validatePairing"),
        (RsdProbeStage::CoreDeviceService, "coreDeviceService"),
    ] {
        let value = rsd_probe_reply(Err(RsdProbeFailure {
            stage: told,
            session_cleanup: RsdSessionCleanup::NotNeeded,
        }))
        .expect_err("a probe that failed");
        assert_eq!(
            value,
            RsdProbeFailureResponse {
                transport: "rsdCoreDevice",
                status: "unavailable",
                stage,
            }
        );
        let encoded = format!("{value:?}");
        assert!(!encoded.contains("auth"));
        assert!(!encoded.contains("key"));
        assert!(!encoded.contains("secret"));
    }
}

#[test]
fn read_only_probe_responses_are_bounded() {
    for (told, service) in [
        (ReadOnlyProbeService::Afc, "afc"),
        (ReadOnlyProbeService::InstallationProxy, "installationProxy"),
    ] {
        let success = read_only_probe_reply(told, Ok(())).expect("a probe that succeeded");
        assert_eq!(
            success,
            ReadOnlyProbeSuccessResponse {
                transport: "rsd",
                service,
                status: "ok",
            }
        );

        for (at, stage) in [
            (ReadOnlyProbeStage::Discovery, "discovery"),
            (ReadOnlyProbeStage::ValidatePairing, "validatePairing"),
            (ReadOnlyProbeStage::Tunnel, "tunnel"),
            (ReadOnlyProbeStage::RsdHandshake, "rsdHandshake"),
            (ReadOnlyProbeStage::ServiceLookup, "serviceLookup"),
            (ReadOnlyProbeStage::ServiceConnect, "serviceConnect"),
            (ReadOnlyProbeStage::ClientInit, "clientInit"),
            if service == "afc" {
                (ReadOnlyProbeStage::AfcQuery, "afcQuery")
            } else {
                (ReadOnlyProbeStage::AppLookup, "appLookup")
            },
            (ReadOnlyProbeStage::Cleanup, "cleanup"),
        ] {
            let failure = read_only_probe_reply(told, Err(ReadOnlyProbeFailure { stage: at }))
                .expect_err("a probe that failed");
            assert_eq!(
                failure,
                ReadOnlyProbeFailureResponse {
                    transport: "rsd",
                    service,
                    status: "unavailable",
                    stage,
                }
            );
            let encoded = format!("{failure:?}");
            for sentinel in [
                "device-controlled-secret",
                "00008110-001A2B3C00000000",
                "127.0.0.1",
                "62000",
                "/private/var/mobile",
            ] {
                assert!(!encoded.contains(sentinel));
            }
        }
    }
}

#[test]
fn rsd_probe_routes_are_registered_only_in_spike_mode() {
    for path in [
        SPIKE_RSD_PROBE_PATH,
        SPIKE_REMOTE_AFC_PROBE_PATH,
        SPIKE_INSTALLATION_PROXY_PROBE_PATH,
        SPIKE_RSD_INSTALL_PATH,
    ] {
        assert!(!spike_route_paths(false).contains(&path));
        assert!(spike_route_paths(true).contains(&path));
    }
}

#[test]
fn the_trial_serves_five_paths() {
    assert_eq!(spike_route_paths(true).len(), 5);
    assert_eq!(spike_route_paths(true)[0], SPIKE_AFC_PROBE_PATH);
    assert!(spike_route_paths(false).is_empty());
}

const TARGETS: [&str; 12] = [
    "iphoneloadly_api::spike_diagnostics::child",
    "revision4_dependency_sentinel",
    "idevice::services::afc::packet",
    "idevice::services::afc",
    "idevice",
    "idevice::remote_pairing::sentinel",
    "jktcp::adapter",
    "jktcp::other",
    "jktcp",
    "iphoneloadly_api::wireless_pairing",
    "iphoneloadly_api",
    "iphoneloadly_api::spike_diagnostics",
];

#[test]
fn spike_subscriber_hard_filter_denies_every_nonapproved_target() {
    let events: Vec<&str> = TARGETS
        .into_iter()
        .filter(|target| spike_target_allowed(true, target))
        .collect();
    assert_eq!(events.len(), 1);
    assert_eq!(events[0], SPIKE_DIAGNOSTICS_TARGET);
}

#[test]
fn non_spike_subscriber_preserves_every_hostile_operator_enabled_event() {
    for target in TARGETS {
        assert!(spike_target_allowed(false, target));
    }
}

fn install_report(
    outcome: RsdInstallOutcome,
    cleanup: RsdStagingCleanup,
    error_kind: &'static str,
) -> RsdInstallReport {
    RsdInstallReport {
        outcome,
        stage: RsdInstallStage::Complete,
        cleanup,
        session_cleanup: RsdSessionCleanup::NotNeeded,
        install_command_count: 1,
        error_kind,
        bundle_id: Some("com.example.test".into()),
        certificate_pressure: false,
    }
}

#[test]
fn verified_installed_status_is_success_despite_ancillary_cleanup_errors() {
    for (cleanup, error_kind) in [
        (RsdStagingCleanup::Failed, "staging_cleanup"),
        (RsdStagingCleanup::Succeeded, "session_cleanup"),
    ] {
        let report = install_report(RsdInstallOutcome::Installed, cleanup, error_kind);
        assert_eq!(spike_install_status(&report), 200);
    }
}

#[test]
fn verified_install_preserves_both_cleanup_failures() {
    let mut report = install_report(
        RsdInstallOutcome::Installed,
        RsdStagingCleanup::Failed,
        "staging_cleanup",
    );
    report.session_cleanup = RsdSessionCleanup::Failed;
    assert_eq!(spike_install_status(&report), 200);

    let response = spike_install_response(report);
    assert_eq!(response.cleanup, "failed");
    assert_eq!(response.session_cleanup, "failed");
    assert_eq!(response.error_kind, Some("staging_cleanup"));
}

#[test]
fn unverified_install_outcomes_remain_failure_class_statuses() {
    for outcome in [
        RsdInstallOutcome::NotInstalled,
        RsdInstallOutcome::OutcomeUnknown,
    ] {
        let report = install_report(outcome, RsdStagingCleanup::NotNeeded, "");
        assert_eq!(spike_install_status(&report), 502);
    }
    let report = install_report(
        RsdInstallOutcome::NotStarted,
        RsdStagingCleanup::NotNeeded,
        "",
    );
    assert_eq!(spike_install_status(&report), 503);
    let report = install_report(
        RsdInstallOutcome::NotStarted,
        RsdStagingCleanup::NotNeeded,
        "app_already_installed",
    );
    assert_eq!(spike_install_status(&report), 409);
}

#[test]
fn reports_without_an_error_tell_none() {
    let response = spike_install_response(install_report(
        RsdInstallOutcome::Installed,
        RsdStagingCleanup::Succeeded,
        "",
    ));
    assert_eq!(response.transport, "rsd");
    assert_eq!(response.outcome, "installed");
    assert_eq!(response.stage, "complete");
    assert_eq!(response.error_kind, None);
    assert_eq!(response.bundle_id.as_deref(), Some("com.example.test"));
    assert_eq!(response.install_command_count, 1);
}

#[test]
fn installations_are_asked_for_step_by_step() {
    let status = |step: InstallRequestStep| match step.advance(false) {
        InstallRequestTurn::Refuse(reply) => reply.status,
        _ => panic!("a step that fails refuses the request"),
    };
    let mut step = InstallRequestStep::Action;
    let mut statuses = vec![status(step)];
    while let InstallRequestTurn::Next(next) = step.advance(true) {
        step = next;
        statuses.push(status(step));
    }
    assert_eq!(statuses, vec![400, 400, 400, 409, 500, 404]);
    assert!(matches!(step.advance(true), InstallRequestTurn::Report));
    assert!(is_install_body(1_024));
    assert!(!is_install_body(1_025));
}

#[test]
fn sign_ins_need_an_account_and_a_password() {
    assert!(is_login_request("person@example.test", " "));
    assert!(!is_login_request("  ", "secret"));
    assert!(!is_login_request("person@example.test", ""));
    let refusal = |step, error| login_refusal(step, error).status;
    assert_eq!(
        refusal(LoginRequestStep::Fields, SigningError::NotReady),
        400
    );
    assert_eq!(refusal(LoginRequestStep::Save, SigningError::NotReady), 500);
    assert_eq!(
        refusal(LoginRequestStep::Begin, SigningError::MissingAnisetteUrl),
        503
    );
    assert_eq!(
        refusal(LoginRequestStep::Begin, SigningError::NotReady),
        500
    );
    assert_eq!(two_factor_reply(Ok(())).status, 202);
    assert_eq!(
        two_factor_reply(Err(SigningError::UnknownSession)).status,
        404
    );
    assert_eq!(
        two_factor_reply(Err(SigningError::NoTwoFactorChallenge)).status,
        409
    );
    assert_eq!(two_factor_reply(Err(SigningError::NotReady)).status, 400);
}

#[test]
fn refreshes_are_due_between_the_first_and_the_sixth_day() {
    for day in 1..=6 {
        assert!(refresh_day_refusal(day).is_none());
    }
    for day in [0, 7, u8::MAX] {
        assert_eq!(refresh_day_refusal(day).unwrap().status, 400);
    }
    assert_eq!(RequestFailure::Devices.reply().status, 503);
    assert_eq!(RequestFailure::Login.reply().status, 404);
    assert_eq!(RequestFailure::SaveRefresh.reply().status, 500);
    assert_eq!(RequestFailure::MissingJob.reply().status, 404);
}

#[test]
fn pairing_requests_are_refused_in_order() {
    assert_eq!(pairing_request_refusal("usb", false).unwrap().status, 400);
    assert_eq!(
        pairing_request_refusal("wireless", false).unwrap().message,
        Some("JSON action header required.")
    );
    assert!(pairing_request_refusal("wireless", true).is_none());
    let refusal = |request, error| pairing_refusal(request, error).status;
    assert_eq!(refusal(PairingRequest::Start, PairingError::Disabled), 404);
    assert_eq!(refusal(PairingRequest::Start, PairingError::Busy), 409);
    assert_eq!(refusal(PairingRequest::Start, PairingError::Storage), 503);
    assert_eq!(refusal(PairingRequest::Read, PairingError::NotFound), 404);
    assert_eq!(refusal(PairingRequest::Read, PairingError::Terminal), 503);
    assert_eq!(refusal(PairingRequest::Cancel, PairingError::Terminal), 409);
    assert_eq!(refusal(PairingRequest::Cancel, PairingError::NotFound), 404);
    assert_eq!(refusal(PairingRequest::Cancel, PairingError::Busy), 503);
}

#[test]
fn refused_configurations_switch_pairing_off() {
    let config = effective_pairing(Err(ConfigError::InvalidPort), true, "state".into());
    assert_eq!(config.mode, WirelessPairingMode::Off);
    assert_eq!(config.pairing_port, DEFAULT_PAIRING_PORT);
    assert_eq!(config.state_dir, "state");
    let on = || {
        WirelessPairingConfig::from_env(Some("60000"), None, None, Some("on"), "state".into())
    };
    assert_eq!(
        effective_pairing(on(), true, "other".into()).mode,
        WirelessPairingMode::On
    );
    assert_eq!(
        effective_pairing(on(), false, "other".into()).mode,
        WirelessPairingMode::Off
    );
    let trial = WirelessPairingConfig::from_env(
        None,
        None,
        None,
        Some("experimental"),
        "state".into(),
    );
    assert_eq!(
        effective_pairing(trial, false, "other".into()).mode,
        WirelessPairingMode::Experimental
    );
}

#[test]
fn only_the_trial_can_be_placed_elsewhere() {
    assert_eq!(data_directory(false, Some("elsewhere".into())), "data");
    assert_eq!(data_directory(true, Some("elsewhere".into())), "elsewhere");
    assert_eq!(data_directory(true, None), "spike-data");
    assert_eq!(api_address(false, Some("0.0.0.0:1".into())), "127.0.0.1:8080");
    assert_eq!(api_address(true, Some("0.0.0.0:1".into())), "0.0.0.0:1");
    assert_eq!(api_address(true, None), "127.0.0.1:18080");
    assert!(may_bind(false, false));
    assert!(may_bind(true, true));
    assert!(!may_bind(true, false));
}

#[test]
fn numbers_are_read_up_to_their_limit() {
    assert_eq!(parse_number("255", 255), Some(255));
    assert_eq!(parse_number("+7", 255), Some(7));
    assert_eq!(parse_number("007", 255), Some(7));
    for text in ["256", "", "+", "-1", " 1", "1 ", "1_0", "99999999999999999999"] {
        assert_eq!(parse_number(text, 255), None, "{text}");
    }
}

#[test]
fn credentials_are_saved_where_asked() {
    for save in [false, true] {
        let mut step = LoginRequestStep::Fields;
        let mut saved = false;
        let remembered = loop {
            saved = saved || step == LoginRequestStep::Save;
            match step.advance(save, Ok(())) {
                LoginRequestTurn::Next(next) => step = next,
                LoginRequestTurn::Begun { remember } => break remember,
                LoginRequestTurn::Refuse(_) => panic!("no step failed"),
            }
        };
        assert_eq!(saved, save);
        assert_eq!(remembered, save);
    }
    let failed = LoginRequestStep::Save.advance(true, Err(SigningError::CredentialStorage));
    let LoginRequestTurn::Refuse(reply) = failed else {
        panic!("credentials that cannot be saved end the request");
    };
    assert_eq!(reply.status, 500);
}
