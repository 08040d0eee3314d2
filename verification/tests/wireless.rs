use base64::engine::general_purpose::STANDARD as BASE64;
use base64::Engine;
use idevice::remote_pairing::errors::RemotePairingError;
use idevice::remote_pairing::PAIRABLE_HOST_SERVICE_TYPE;
use iphoneloadly_api::commitment::{
    discovery_deadline, discovery_failure, inspect_services, inspect_tunnel, CommitOutcome,
    CommitStep, CommitTurn, Commitment, PostPairCommitFailure, TunnelReport,
    POST_PAIR_BOOTSTRAP_STAGE, POST_PAIR_COMMIT_STAGE, POST_PAIR_RSD_STAGE,
    POST_PAIR_TUNNEL_SERVICE_STAGE, POST_PAIR_TUNNEL_STAGE,
};
use iphoneloadly_api::established::{
    call_time, EstablishedPairingVerificationFailure, EstablishedPairingVerificationStage,
    EstablishedPairingVerificationTiming, VerificationTurn, CONNECT_TIME,
};
use iphoneloadly_api::faults::{
    shutdown_outcome, CallOutcome, DeviceFault, IoFault, PairingFault,
};
use iphoneloadly_api::network::{
    add_endpoint, announced_endpoint, authenticated_remote_pairing_endpoint, endpoint_targets,
    found_endpoints, hear_announcement, hear_service, local_hostname, pairing_addresses,
    AddressBits, AnnounceEvent, Announcement, EndpointTarget, InterfaceAddress, NetworkAddress,
    RemotePairingEndpoint, ResolvedService, MDNS_SERVICE_NAME_LIMIT,
};
use iphoneloadly_api::pairing::{
    expiry_text, session_expired, session_time, validate_pairing_port, Conclusion, ConfigError,
    PairingDesk, PairingError, PairingOutcome, PairingPhase, PairingSessionStatus, PairingStep,
    PairingTurn, StartStep, StartTurn, TransportKind, TransportVerificationResult, WirelessPairingConfig,
    WirelessPairingMode, DEFAULT_PAIRING_PORT, LAST_SECOND,
};
use iphoneloadly_api::pairing_store::{
    announced_records, existing_key, fresh_material, load_material, load_pairing_file, load_source, open_state,
    read_state, save_payload, seal_state, stored_key, KeyRead, LoadMode, LoadSource, PairingFile,
    PairingPayload, StateRead, SERVICE_MODEL,
};
use iphoneloadly_api::record::RecordId;
use iphoneloadly_api::stages::{probe_failure, RsdProbeStage};
use iphoneloadly_api::sealing::{
    fingerprint_peer, is_key, new_key, open, pairing_file_bytes, pairing_file_text, seal_with,
    SealedRecord,
};

fn v4(a: u8, b: u8, c: u8, d: u8) -> NetworkAddress {
    NetworkAddress {
        bits: AddressBits::V4(u32::from_be_bytes([a, b, c, d])),
        text: format!("{a}.{b}.{c}.{d}"),
    }
}

fn v6(bits: u128, text: &str) -> NetworkAddress {
    NetworkAddress {
        bits: AddressBits::V6(bits),
        text: text.into(),
    }
}

fn desk_with(phase: PairingPhase) -> PairingDesk {
    let mut desk = PairingDesk::new(WirelessPairingMode::Experimental);
    desk.session = Some(PairingSessionStatus {
        id: RecordId { bits: 1 },
        phase,
        expires_at: 1_300,
        public_message: "",
        setup_code: Some("123456".into()),
    });
    desk
}

fn phase_of(desk: &PairingDesk) -> PairingPhase {
    desk.session.as_ref().expect("a session is there").phase
}

const ID: RecordId = RecordId { bits: 1 };

#[test]
fn missing_or_unknown_mode_is_off() {
    assert_eq!(WirelessPairingMode::parse(None), WirelessPairingMode::Off);
    assert_eq!(
        WirelessPairingMode::parse(Some("unknown")),
        WirelessPairingMode::Off
    );
    assert_eq!(
        WirelessPairingMode::parse(Some("experimental")),
        WirelessPairingMode::Experimental
    );
    assert_eq!(
        WirelessPairingMode::parse(Some("on")),
        WirelessPairingMode::On
    );
}

#[test]
fn invalid_ports_are_rejected_without_binding() {
    assert!(matches!(
        validate_pairing_port(80),
        Err(ConfigError::InvalidPort)
    ));
}

#[test]
fn pairable_host_service_type_fits_configured_mdns_limit() {
    let service_name = PAIRABLE_HOST_SERVICE_TYPE
        .strip_suffix("._tcp.local.")
        .and_then(|value| value.strip_prefix('_'))
        .expect("PairableHost service type has a valid DNS-SD suffix");
    assert!(service_name.len() <= MDNS_SERVICE_NAME_LIMIT as usize);
}

#[test]
fn session_expiry_uses_controlled_time() {
    let now = 1_000;
    let status = PairingSessionStatus {
        id: ID,
        phase: PairingPhase::AwaitingDevice,
        expires_at: 1_300,
        public_message: "",
        setup_code: None,
    };
    assert!(!session_expired(&status, now + 299));
    assert!(session_expired(&status, now + 300));
}

#[test]
fn terminal_phases_are_not_resumable() {
    for phase in [
        PairingPhase::Ready,
        PairingPhase::Failed,
        PairingPhase::Cancelled,
        PairingPhase::Expired,
    ] {
        assert!(phase.is_terminal());
    }
    assert!(!PairingPhase::AwaitingDevice.is_terminal());
    assert!(!PairingPhase::VerifyingTransport.is_terminal());
}

#[test]
fn valid_auth_tag_accepts_discovery_and_invalid_tag_is_rejected() {
    let alt_irk = BASE64
        .decode("Mgp6ZGPzXM2ku9br46vsiw==")
        .expect("decode authTag test altIRK");
    let endpoint = authenticated_remote_pairing_endpoint(
        &alt_irk,
        "2BE6E510-0325-4365-923E-B14C6F57DB3A",
        "kXjlTr2l",
        vec![v4(192, 0, 2, 1)],
        52_345,
    )
    .expect("valid authTag should authenticate discovery");
    assert_eq!(endpoint.port, 52_345);
    assert_eq!(endpoint.addresses.len(), 1);
    assert_eq!(endpoint.addresses[0].bits, v4(192, 0, 2, 1).bits);
    assert!(authenticated_remote_pairing_endpoint(
        &alt_irk,
        "2BE6E510-0325-4365-923E-B14C6F57DB3A",
        "invalid",
        vec![v4(192, 0, 2, 1)],
        52_345,
    )
    .is_none());
}

#[test]
fn validate_pairing_error_diagnostics_are_safe_categories() {
    let unexpected = DeviceFault::UnexpectedResponse;
    assert_eq!(unexpected.kind(), "unexpected_response");
    assert_eq!(unexpected.remote_pairing_subcode(), None);

    let rejected = DeviceFault::RemotePairing {
        fault: PairingFault::PairingRejected,
        subcode: RemotePairingError::PairingRejected("device detail".into()).sub_code(),
    };
    assert_eq!(rejected.kind(), "remote_pairing_rejected");
    assert_eq!(rejected.remote_pairing_subcode(), Some(3));
    assert_eq!(v4(127, 0, 0, 1).bits.address_family(), "ipv4");
}

#[test]
fn established_verification_diagnostics_exclude_device_error_text() {
    let failure = EstablishedPairingVerificationFailure::from_error(
        EstablishedPairingVerificationStage::AttemptPairVerify,
        DeviceFault::UnexpectedResponse,
    );
    let rendered = format!("{failure:?}");
    assert_eq!(failure.stage.as_str(), "attempt_pair_verify");
    assert_eq!(failure.result, "error");
    assert!(!rendered.contains("device-supplied-secret-value"));
}

#[test]
fn status_serialization_contains_no_pairing_material() {
    let status = PairingSessionStatus {
        id: ID,
        phase: PairingPhase::VerifyingTransport,
        expires_at: 1_700_000_000,
        public_message: "Verifying trusted device transport.",
        setup_code: Some("123456".into()),
    };
    assert_eq!(
        expiry_text(status.expires_at).as_deref(),
        Some("2023-11-14T22:13:20Z")
    );
    assert_eq!(status.setup_code.as_deref(), Some("123456"));
    let rendered = format!("{status:?}");
    assert!(!rendered.contains("pairing_file"));
    assert!(!rendered.contains("private_key"));
    assert!(!rendered.contains("alt_irk"));
}

#[test]
fn handshake_failure_detail_is_not_retained() {
    let secret = "unexpected pair-setup state: expected 3, got Some(4)";
    let PairingTurn::Finish {
        phase,
        public_message,
        failure,
    } = PairingStep::Handshake.advance(PairingOutcome::Failed)
    else {
        panic!("a rejected pairing ends the session");
    };
    assert_eq!(failure, Some("rppairing_accept"));
    let mut desk = desk_with(PairingPhase::AwaitingCodeEntry);
    desk.finish(ID, phase, public_message);
    let (status, _) = desk.status(ID, 0).unwrap();
    assert_eq!(status.phase, PairingPhase::Failed);
    assert_eq!(
        status.public_message,
        "The iPhone or iPad rejected wireless pairing."
    );
    let rendered = format!("{status:?}");
    assert!(!rendered.contains(secret));
    assert!(!rendered.contains("rppairing_accept"));
}

#[test]
fn only_one_session_can_be_active() {
    let mut desk = desk_with(PairingPhase::AwaitingDevice);
    assert_eq!(desk.make_room(1_000).err(), Some(PairingError::Busy));
    assert_eq!(desk.make_room(1_300), Ok(true));
    assert_eq!(phase_of(&desk), PairingPhase::Expired);
    assert_eq!(desk.make_room(1_300), Ok(false));
    let mut off = PairingDesk::new(WirelessPairingMode::Off);
    assert_eq!(off.make_room(0).err(), Some(PairingError::Disabled));
}

#[test]
fn sessions_live_five_minutes() {
    let mut desk = PairingDesk::new(WirelessPairingMode::On);
    assert_eq!(desk.make_room(1_000), Ok(false));
    let status = desk.open(ID, 1_000);
    assert_eq!(status.expires_at, 1_300);
    assert_eq!(status.phase, PairingPhase::AwaitingDevice);
    assert_eq!(session_time(status.expires_at, 1_100), 200);
    assert_eq!(session_time(status.expires_at, 1_400), 0);
    let (told, aborted) = desk.status(ID, 1_299).unwrap();
    assert_eq!(told.phase, PairingPhase::AwaitingDevice);
    assert!(!aborted);
    let (told, aborted) = desk.status(ID, 1_300).unwrap();
    assert_eq!(told.phase, PairingPhase::Expired);
    assert!(aborted);
    assert!(!desk.status(ID, 1_301).unwrap().1);
    assert_eq!(
        desk.status(RecordId { bits: 2 }, 0).err(),
        Some(PairingError::NotFound)
    );
}

#[test]
fn codes_are_shown_while_the_device_pairs() {
    let mut desk = PairingDesk::new(WirelessPairingMode::On);
    desk.open(ID, 0);
    assert!(desk.set_pairing_phase(ID));
    desk.set_setup_code(ID, "654321".into());
    let (told, _) = desk.status(ID, 0).unwrap();
    assert_eq!(told.phase, PairingPhase::AwaitingCodeEntry);
    assert_eq!(told.setup_code.as_deref(), Some("654321"));
    assert!(!desk.set_pairing_phase(RecordId { bits: 2 }));
    assert!(desk.finish_if_active(ID, PairingPhase::Failed, "ended"));
    assert!(desk.session.as_ref().unwrap().setup_code.is_none());
    assert!(!desk.finish_if_active(ID, PairingPhase::Expired, "ended again"));
    assert_eq!(phase_of(&desk), PairingPhase::Failed);
}

#[test]
fn cancelled_sessions_have_ended() {
    let mut desk = desk_with(PairingPhase::AwaitingCodeEntry);
    assert_eq!(
        desk.cancel(RecordId { bits: 2 }).err(),
        Some(PairingError::NotFound)
    );
    assert!(desk.cancel(ID).is_ok());
    assert_eq!(phase_of(&desk), PairingPhase::Cancelled);
    assert_eq!(desk.cancel(ID).err(), Some(PairingError::Terminal));
}

#[test]
fn transports_are_recorded_once() {
    let mut desk = desk_with(PairingPhase::VerifyingTransport);
    let verified = TransportVerificationResult::Verified(TransportKind::RsdCoreDevice);
    let told = desk.record_transport_result(ID, verified).unwrap();
    assert_eq!(told.phase, PairingPhase::Ready);
    assert_eq!(
        told.public_message,
        "RemotePairing completed and RSD/CoreDevice transport was verified."
    );
    assert_eq!(
        desk.record_transport_result(ID, verified).err(),
        Some(PairingError::Terminal)
    );
    let mut rejected = desk_with(PairingPhase::VerifyingTransport);
    assert_eq!(
        rejected
            .record_transport_result(ID, TransportVerificationResult::Rejected)
            .unwrap()
            .phase,
        PairingPhase::Failed
    );
}

#[test]
fn pairing_does_not_enter_verifying_before_commitment() {
    let mut desk = desk_with(PairingPhase::AwaitingCodeEntry);
    assert_eq!(desk.conclude(ID, Ok(()), 100, 0), Conclusion::Save);
    assert_eq!(phase_of(&desk), PairingPhase::AwaitingCodeEntry);
    desk.record_save(true);
    assert_eq!(phase_of(&desk), PairingPhase::VerifyingTransport);
}

#[test]
fn expired_commitment_does_not_persist_final_pairing_state() {
    let mut desk = desk_with(PairingPhase::AwaitingCodeEntry);
    assert_eq!(desk.conclude(ID, Ok(()), 100, 100), Conclusion::Withdrawn);
    assert_eq!(phase_of(&desk), PairingPhase::Failed);
}

#[test]
fn every_commitment_stage_failure_blocks_persistence_and_transport() {
    for stage in [
        POST_PAIR_BOOTSTRAP_STAGE,
        POST_PAIR_TUNNEL_STAGE,
        POST_PAIR_RSD_STAGE,
        POST_PAIR_TUNNEL_SERVICE_STAGE,
        POST_PAIR_COMMIT_STAGE,
    ] {
        let mut desk = desk_with(PairingPhase::AwaitingCodeEntry);
        let failure = PostPairCommitFailure::new(stage, "test_failure");
        assert_eq!(
            desk.conclude(ID, Err(failure), 100, 0),
            Conclusion::Withdrawn
        );
        assert_eq!(phase_of(&desk), PairingPhase::Failed);
    }
}

#[test]
fn ended_sessions_are_not_concluded() {
    let mut desk = desk_with(PairingPhase::Cancelled);
    assert_eq!(desk.conclude(ID, Ok(()), 100, 0), Conclusion::Ignored);
    assert_eq!(phase_of(&desk), PairingPhase::Cancelled);
    let mut unsaved = desk_with(PairingPhase::AwaitingCodeEntry);
    assert_eq!(unsaved.conclude(ID, Ok(()), 100, 0), Conclusion::Save);
    unsaved.record_save(false);
    assert_eq!(
        unsaved.session.unwrap().public_message,
        "Wireless pairing completed but its state could not be saved."
    );
}

#[test]
fn pairings_go_step_by_step() {
    assert_eq!(
        PairingStep::Accept.advance(PairingOutcome::Done),
        PairingTurn::Next(PairingStep::Announce)
    );
    assert_eq!(
        PairingStep::Announce.advance(PairingOutcome::Failed),
        PairingTurn::Stop
    );
    assert_eq!(
        PairingStep::Accept.advance(PairingOutcome::TimedOut),
        PairingTurn::Finish {
            phase: PairingPhase::Expired,
            public_message: "The wireless pairing session expired.",
            failure: None,
        }
    );
    assert_eq!(
        PairingStep::Accept.advance(PairingOutcome::Failed),
        PairingTurn::Finish {
            phase: PairingPhase::Expired,
            public_message: "The wireless pairing session expired.",
            failure: Some("tcp_accept"),
        }
    );
}

#[test]
fn configurations_come_from_the_environment() {
    let config = WirelessPairingConfig::from_env(
        Some("60000"),
        Some(" en0 "),
        None,
        Some(" on "),
        "default".into(),
    )
    .unwrap();
    assert_eq!(config.pairing_port, 60_000);
    assert_eq!(config.interface.as_deref(), Some("en0"));
    assert_eq!(config.state_dir, "default");
    assert_eq!(config.mode, WirelessPairingMode::On);
    assert!(config.mode.is_enabled());
    assert_eq!(config.limited(false).mode, WirelessPairingMode::Off);
    let plain =
        WirelessPairingConfig::from_env(None, Some("  "), Some("state"), None, "default".into())
            .unwrap();
    assert_eq!(plain.pairing_port, DEFAULT_PAIRING_PORT);
    assert_eq!(plain.interface, None);
    assert_eq!(plain.state_dir, "state");
    assert!(!plain.mode.is_enabled());
    let port = |text: &str| {
        WirelessPairingConfig::from_env(Some(text), None, None, None, "default".into()).err()
    };
    assert_eq!(port("80"), Some(ConfigError::InvalidPort));
    assert_eq!(port("65536"), Some(ConfigError::InvalidPortNumber));
    assert_eq!(port(" 60000"), Some(ConfigError::InvalidPortNumber));
    assert_eq!(port("port"), Some(ConfigError::InvalidPortNumber));
    assert_eq!(port("+60000"), None);
    let off = WirelessPairingConfig::disabled("state".into());
    assert_eq!(off.mode, WirelessPairingMode::Off);
    assert_eq!(
        ConfigError::InvalidPort.message(),
        "wireless pairing port must be between 1024 and 65535"
    );
    assert_eq!(
        PairingError::Busy.message(),
        "another wireless pairing session is active"
    );
}

#[test]
fn moments_behind_the_last_year_have_no_text() {
    assert_eq!(expiry_text(0).as_deref(), Some("1970-01-01T00:00:00Z"));
    assert_eq!(
        expiry_text(LAST_SECOND).as_deref(),
        Some("9999-12-31T23:59:59Z")
    );
    assert!(expiry_text(LAST_SECOND + 1).is_none());
    assert!(expiry_text(u64::MAX).is_none());
}

#[test]
fn verifications_take_both_stages() {
    let attempt = EstablishedPairingVerificationStage::AttemptPairVerify;
    let validation = EstablishedPairingVerificationStage::ValidatePairing;
    assert_eq!(
        attempt.advance(CallOutcome::Completed),
        VerificationTurn::Next(validation)
    );
    assert_eq!(
        validation.advance(CallOutcome::Completed),
        VerificationTurn::Verified
    );
    assert_eq!(
        attempt.advance(CallOutcome::TimedOut),
        VerificationTurn::Failed(EstablishedPairingVerificationFailure {
            stage: attempt,
            result: "timeout",
            error_kind: "attempt_pair_verify_timeout",
            remote_pairing_subcode: None,
        })
    );
    let deadline = EstablishedPairingVerificationTiming::Deadline(100);
    assert_eq!(deadline.timeout_for(attempt, 40), Ok(60));
    assert_eq!(
        deadline.timeout_for(validation, 100).err().unwrap().error_kind,
        "session_expired"
    );
    assert_eq!(
        EstablishedPairingVerificationTiming::PerStep(7).timeout_for(attempt, 100),
        Ok(7)
    );
    assert_eq!(call_time(u64::MAX, 0), Some(CONNECT_TIME));
    assert_eq!(call_time(5, 5), None);
}

#[test]
fn commitments_verify_the_pairing_twice() {
    let CommitTurn::Next(mut commitment) = Commitment::begin(1) else {
        panic!("there is an address");
    };
    let mut steps = 1;
    loop {
        match commitment.advance(1, CommitOutcome::Completed) {
            CommitTurn::Next(next) => {
                commitment = next;
                steps += 1;
            }
            CommitTurn::Committed => break,
            CommitTurn::Failed(_) => panic!("nothing has failed"),
        }
    }
    assert_eq!(steps, 16);
}

#[test]
fn commitments_try_every_address() {
    assert_eq!(
        Commitment::begin(0),
        CommitTurn::Failed(PostPairCommitFailure::new(
            POST_PAIR_BOOTSTRAP_STAGE,
            "no_candidate"
        ))
    );
    let first = Commitment {
        target: 0,
        step: CommitStep::OpenTunnel,
    };
    assert_eq!(
        first.advance(2, CommitOutcome::TimedOut),
        CommitTurn::Next(Commitment {
            target: 1,
            step: CommitStep::Connect
        })
    );
    let last = Commitment {
        target: 1,
        step: CommitStep::OpenTunnel,
    };
    assert_eq!(
        last.advance(2, CommitOutcome::Device(DeviceFault::Timeout)),
        CommitTurn::Failed(PostPairCommitFailure::new(
            POST_PAIR_TUNNEL_STAGE,
            "timeout"
        ))
    );
    assert_eq!(
        first.advance(2, CommitOutcome::Expired),
        CommitTurn::Failed(PostPairCommitFailure::new(
            POST_PAIR_TUNNEL_STAGE,
            "session_expired"
        ))
    );
    let behind = Commitment {
        target: 0,
        step: CommitStep::XpcRoot,
    };
    assert_eq!(
        behind.advance(2, CommitOutcome::Expired),
        CommitTurn::Next(Commitment {
            target: 1,
            step: CommitStep::Connect
        })
    );
    assert_eq!(behind.time(100, 100), Err(CommitOutcome::Expired));
    assert_eq!(behind.time(100, 90), Ok(10));
    for step in [CommitStep::InspectTunnel, CommitStep::InspectServices] {
        let inspection = Commitment { target: 0, step };
        assert_eq!(inspection.time(100, 100), Ok(0));
        assert_eq!(inspection.time(100, 90), Ok(10));
    }
}

#[test]
fn tunnels_name_a_port_and_two_addresses() {
    let report = TunnelReport {
        rsd_port: 1,
        host_address: true,
        peer_address: true,
    };
    assert_eq!(inspect_tunnel(report), CommitOutcome::Completed);
    assert_eq!(
        inspect_tunnel(TunnelReport {
            rsd_port: 0,
            ..report
        }),
        CommitOutcome::Rejected("missing_rsd_port")
    );
    assert_eq!(
        inspect_tunnel(TunnelReport {
            host_address: false,
            ..report
        }),
        CommitOutcome::Rejected("invalid_host_address")
    );
    assert_eq!(
        inspect_tunnel(TunnelReport {
            peer_address: false,
            ..report
        }),
        CommitOutcome::Rejected("invalid_peer_address")
    );
    assert_eq!(inspect_services(Some(0)), CommitOutcome::Completed);
    assert_eq!(
        inspect_services(None),
        CommitOutcome::Rejected("service_not_found")
    );
}

#[test]
fn discovery_ends_with_the_pairing() {
    assert_eq!(discovery_deadline(5, 0), 5);
    assert_eq!(discovery_deadline(u64::MAX, 0), 10_000_000_000);
    assert_eq!(discovery_failure(5, 4).error_kind, "discovery");
    assert_eq!(discovery_failure(5, 5).error_kind, "discovery_timeout");
}

#[test]
fn faults_are_told_by_their_kinds() {
    assert_eq!(IoFault::ConnectionRefused.kind(), "connection_refused");
    assert_eq!(IoFault::BrokenPipe.kind(), "other");
    assert_eq!(DeviceFault::Socket(IoFault::TimedOut).kind(), "socket");
    assert_eq!(
        DeviceFault::Socket(IoFault::TimedOut).core_device_kind(),
        "timed_out"
    );
    assert_eq!(DeviceFault::Xpc.kind(), "other");
    assert_eq!(DeviceFault::Xpc.core_device_kind(), "xpc");
    assert_eq!(PairingFault::Other.kind(), "remote_pairing_other");
    assert_eq!(
        shutdown_outcome(Ok(()), Err(IoFault::BrokenPipe)),
        Ok(())
    );
    assert_eq!(shutdown_outcome(Ok(()), Ok(())), Err(IoFault::Other));
    assert_eq!(
        shutdown_outcome(Err(IoFault::NotConnected), Err(IoFault::BrokenPipe)),
        Err(IoFault::NotConnected)
    );
    assert_eq!(
        shutdown_outcome(Ok(()), Err(IoFault::TimedOut)),
        Err(IoFault::TimedOut)
    );
}

#[test]
fn pairing_uses_one_local_address_of_each_family() {
    let entry = |name: &str, address: NetworkAddress| InterfaceAddress {
        name: name.into(),
        address,
    };
    let entries = || {
        vec![
            entry("lo", v4(127, 0, 0, 1)),
            entry("en0", v6(0xfe80 << 112 | 1, "fe80::1")),
            entry("en0", v4(192, 168, 1, 20)),
            entry("en1", v4(10, 0, 0, 9)),
            entry("wan", v4(203, 0, 113, 7)),
        ]
    };
    let chosen = pairing_addresses(entries(), None).unwrap();
    let texts: Vec<&str> = chosen.iter().map(|address| address.text.as_str()).collect();
    assert_eq!(texts, vec!["10.0.0.9", "fe80::1"]);
    let named = pairing_addresses(entries(), Some("wan")).unwrap();
    assert_eq!(named[0].text, "203.0.113.7");
    assert!(pairing_addresses(entries(), Some("lo")).is_none());
    assert!(pairing_addresses(vec![entry("wan", v4(203, 0, 113, 7))], None).is_none());
}

#[test]
fn local_addresses_are_private_or_link_local() {
    for address in [
        v4(10, 0, 0, 1),
        v4(172, 16, 0, 1),
        v4(172, 31, 255, 255),
        v4(192, 168, 0, 1),
        v4(169, 254, 0, 1),
        v6(0xfd00 << 112, "fd00::"),
        v6(0xfe80 << 112, "fe80::"),
    ] {
        assert!(address.bits.is_safe_default_address(), "{}", address.text);
    }
    for address in [
        v4(172, 32, 0, 1),
        v4(11, 0, 0, 1),
        v4(8, 8, 8, 8),
        v6(0x2001 << 112, "2001::"),
        v6(0xfec0 << 112, "fec0::"),
    ] {
        assert!(!address.bits.is_safe_default_address(), "{}", address.text);
    }
}

#[test]
fn endpoints_are_kept_once_and_tried_in_order() {
    let endpoint = |last: u8, port: u16| RemotePairingEndpoint {
        addresses: vec![v4(192, 0, 2, last), v6(1, "::1")],
        port,
    };
    let mut endpoints = Vec::new();
    add_endpoint(&mut endpoints, endpoint(1, 80));
    add_endpoint(&mut endpoints, endpoint(1, 80));
    add_endpoint(&mut endpoints, endpoint(1, 81));
    add_endpoint(&mut endpoints, endpoint(2, 80));
    assert_eq!(endpoints.len(), 3);
    let targets = endpoint_targets(&endpoints);
    assert_eq!(targets.len(), 6);
    assert_eq!(
        targets[3],
        EndpointTarget {
            candidate: 1,
            address: 1
        }
    );
    assert!(announced_endpoint(true, vec![], 80).is_none());
    assert!(announced_endpoint(true, vec![v4(192, 0, 2, 1)], 0).is_none());
    assert!(announced_endpoint(false, vec![v4(192, 0, 2, 1)], 80).is_none());
    let sorted = announced_endpoint(
        true,
        vec![v6(1, "::1"), v4(192, 0, 2, 9), v4(192, 0, 2, 10)],
        80,
    )
    .unwrap();
    let texts: Vec<&str> = sorted
        .addresses
        .iter()
        .map(|address| address.text.as_str())
        .collect();
    assert_eq!(texts, vec!["192.0.2.10", "192.0.2.9", "::1"]);
}

#[test]
fn hosts_are_named_without_odd_characters() {
    assert_eq!(local_hostname(None), "iphoneloadly.local.");
    assert_eq!(local_hostname(Some("")), "iphoneloadly.local.");
    assert_eq!(
        local_hostname(Some(" My_Server.local.local ")),
        "my-server.local."
    );
    assert_eq!(local_hostname(Some("host-1")), "host-1.local.");
}

#[test]
fn announcements_are_heard_by_their_name() {
    let announced = AnnounceEvent::Announced("Host._Type._tcp.local.".into());
    assert_eq!(
        hear_announcement(&announced, "host._type._tcp.local."),
        Announcement::Made
    );
    assert_eq!(hear_announcement(&announced, "other"), Announcement::Waiting);
    assert_eq!(
        hear_announcement(&AnnounceEvent::Other, "other"),
        Announcement::Waiting
    );
    assert_eq!(
        hear_announcement(&AnnounceEvent::Failed, "other"),
        Announcement::Failed
    );
}

#[test]
fn sealed_records_are_those_of_aes_gcm() {
    let key = vec![0u8; 32];
    let record = seal_with(&key, &[0u8; 12], &[]).unwrap();
    assert_eq!(record.nonce, "AAAAAAAAAAAAAAAA");
    assert_eq!(record.ciphertext, "Uw+K+8dFNrmpY7TxxMtziw==");
    let record = seal_with(&key, &[0u8; 12], &[0u8; 16]).unwrap();
    assert_eq!(
        record.ciphertext,
        "zqdAPU1ga24HTsXTuvOdGNDRyKeZmWvwJluYtdSKuRk="
    );
    assert_eq!(open(&key, &record), Some(vec![0u8; 16]));
    assert!(seal_with(&[0u8; 31], &[0u8; 12], &[]).is_none());
}

#[test]
fn sealed_states_open_again() {
    let key = new_key();
    assert!(is_key(&key));
    let record = seal_state(&key, b"state").unwrap();
    assert_eq!(open_state(&key, &record).unwrap(), b"state");
    let mut other = key.clone();
    other[0] ^= 1;
    assert_eq!(
        open_state(&other, &record).err(),
        Some(PairingError::CorruptedState)
    );
    assert_eq!(
        seal_state(&[0u8; 3], b"state").err(),
        Some(PairingError::Storage)
    );
}

#[test]
fn corrupted_state_fails_closed() {
    let key = new_key();
    for record in [
        SealedRecord {
            nonce: "not pairing state".into(),
            ciphertext: "AAAA".into(),
        },
        SealedRecord {
            nonce: "AAAA".into(),
            ciphertext: "AAAA".into(),
        },
        SealedRecord {
            nonce: "AAAAAAAAAAAAAAAA".into(),
            ciphertext: "AAAA".into(),
        },
    ] {
        assert!(matches!(
            open_state(&key, &record),
            Err(PairingError::CorruptedState)
        ));
    }
    assert_eq!(
        load_pairing_file(&[0u8; 15], "AAAA").err(),
        Some(PairingError::CorruptedState)
    );
    assert_eq!(
        load_pairing_file(&[0u8; 16], "?").err(),
        Some(PairingError::CorruptedState)
    );
    assert_eq!(
        load_pairing_file(&[0u8; 16], "AAAA").err(),
        Some(PairingError::CorruptedState)
    );
    assert_eq!(
        load_material(None, "host").err(),
        Some(PairingError::CorruptedState)
    );
    assert_eq!(
        read_state(StateRead::Malformed, &key).err(),
        Some(PairingError::CorruptedState)
    );
    assert_eq!(
        read_state(StateRead::Unreadable, &key).err(),
        Some(PairingError::Storage)
    );
}

#[test]
fn material_is_fresh_only_where_there_is_no_state() {
    assert_eq!(
        load_source(LoadMode::OrCreate, false),
        Ok(LoadSource::Fresh)
    );
    assert_eq!(
        load_source(LoadMode::Existing, false),
        Err(PairingError::Storage)
    );
    for mode in [LoadMode::OrCreate, LoadMode::Existing] {
        assert_eq!(load_source(mode, true), Ok(LoadSource::Stored));
    }
    let material = fresh_material("host", RecordId { bits: 1 });
    assert_eq!(
        material.pairing_file.identifier,
        "00000000-0000-0000-0000-000000000001"
    );
    assert_eq!(material.host_info.identifier, material.pairing_file.identifier);
    assert_eq!(material.host_info.name, "host");
    assert_eq!(material.host_info.model, SERVICE_MODEL);
    assert_eq!(material.host_info.alt_irk.len(), 16);
    assert_eq!(material.pairing_file.public_key.len(), 32);
    assert_eq!(material.pairing_file.private_key.len(), 32);
    assert!(material.pairing_file.alt_irk.is_none());
    assert!(material.paired_peer_id.is_none());
    let other = fresh_material("host", RecordId { bits: 1 });
    assert_ne!(
        material.pairing_file.private_key,
        other.pairing_file.private_key
    );
}

/// The text of a state, as a JSON object.
fn state_text(payload: PairingPayload) -> Vec<u8> {
    let mut object = serde_json::Map::new();
    object.insert("host_alt_irk".into(), payload.host_alt_irk.into());
    object.insert("pairing_file".into(), payload.pairing_file.into());
    object.insert("paired_peer_id".into(), payload.paired_peer_id.into());
    serde_json::to_vec(&object).expect("write state")
}

/// The state that a text writes.
fn state_of(text: &[u8]) -> Option<PairingPayload> {
    let object: serde_json::Value = serde_json::from_slice(text).ok()?;
    let key = object.get("host_alt_irk")?.as_array()?;
    Some(PairingPayload {
        host_alt_irk: key
            .iter()
            .filter_map(|byte| byte.as_u64())
            .map(|byte| byte as u8)
            .collect(),
        pairing_file: object.get("pairing_file")?.as_str()?.to_owned(),
        paired_peer_id: object
            .get("paired_peer_id")?
            .as_str()
            .map(|peer| peer.to_owned()),
    })
}

#[test]
fn persistence_round_trip_preserves_verification_inputs_without_plaintext_secrets() {
    let mut material = fresh_material("iphoneloadly", RecordId { bits: 7 });
    material.pairing_file.alt_irk = Some(vec![0x42; 16]);
    material.paired_peer_id = Some(fingerprint_peer("test-peer"));
    let key = new_key();
    let payload = save_payload(&material).expect("persist pairing state");
    let record = seal_state(&key, &state_text(payload)).expect("persist pairing state");
    for text in [&record.nonce, &record.ciphertext] {
        for secret in [
            &material.pairing_file.private_key,
            &material.pairing_file.public_key,
        ] {
            assert!(!text
                .as_bytes()
                .windows(secret.len())
                .any(|window| window == secret.as_slice()));
        }
    }
    let state = read_state(StateRead::Record(record), &key).expect("reload pairing state");
    let reloaded = load_material(state_of(&state), "iphoneloadly").expect("reload pairing state");
    assert_eq!(
        material.pairing_file.identifier,
        reloaded.pairing_file.identifier
    );
    assert_eq!(
        material.pairing_file.private_key,
        reloaded.pairing_file.private_key
    );
    assert_eq!(
        material.pairing_file.public_key,
        reloaded.pairing_file.public_key
    );
    assert_eq!(material.pairing_file.alt_irk, reloaded.pairing_file.alt_irk);
    assert_eq!(material.host_info.alt_irk, reloaded.host_info.alt_irk);
    assert_eq!(
        material.host_info.identifier,
        reloaded.host_info.identifier
    );
    assert_eq!(material.paired_peer_id, reloaded.paired_peer_id);
}

#[test]
fn material_without_keys_is_not_saved() {
    let mut material = fresh_material("host", RecordId { bits: 1 });
    material.pairing_file = PairingFile {
        public_key: material.pairing_file.public_key,
        private_key: vec![0; 31],
        identifier: material.pairing_file.identifier,
        alt_irk: None,
    };
    assert_eq!(
        save_payload(&material).err(),
        Some(PairingError::Storage)
    );
}

#[test]
fn keys_have_their_length() {
    assert_eq!(stored_key(KeyRead::Missing).unwrap(), None);
    assert_eq!(
        stored_key(KeyRead::Bytes(vec![1; 32])).unwrap(),
        Some(vec![1; 32])
    );
    assert_eq!(
        stored_key(KeyRead::Bytes(vec![1; 31])).err(),
        Some(PairingError::CorruptedState)
    );
    assert_eq!(
        stored_key(KeyRead::Unreadable).err(),
        Some(PairingError::Storage)
    );
    assert_eq!(
        existing_key(KeyRead::Missing).err(),
        Some(PairingError::Storage)
    );
}

#[test]
fn peers_are_remembered_by_a_digest() {
    assert_eq!(
        fingerprint_peer("test-peer"),
        "d/8L3EDOs1eO0ptHNN0tTvAUkbEkiOVTLPyrPboP2y8="
    );
    assert_eq!(pairing_file_text(b"hello"), "aGVsbG8=");
    assert_eq!(pairing_file_bytes("aGVsbG8="), Some(b"hello".to_vec()));
    assert_eq!(pairing_file_bytes("*"), None);
}

#[test]
fn announced_hosts_are_recognized() {
    let material = fresh_material("host", RecordId { bits: 1 });
    let records = announced_records(&material.host_info, "identifier").unwrap();
    let keys: Vec<&str> = records.iter().map(|(key, _)| key.as_str()).collect();
    assert_eq!(
        keys,
        ["name", "identifier", "authTag", "model", "flags", "ver", "minVer"]
    );
    let value = |key: &str| {
        let found = records.iter().find(|(name, _)| name == key);
        found.map(|(_, value)| value.clone())
    };
    assert_eq!(value("name").as_deref(), Some("host"));
    assert_eq!(value("identifier").as_deref(), Some("identifier"));
    assert_eq!(value("model").as_deref(), Some(SERVICE_MODEL));
    assert_eq!(value("flags").as_deref(), Some("1"));
    assert_eq!(value("ver").as_deref(), Some("26"));
    assert_eq!(value("minVer").as_deref(), Some("17"));
    let service = |auth_tag: Option<String>| ResolvedService {
        identifier: value("identifier"),
        auth_tag,
        addresses: vec![v4(192, 0, 2, 1)],
        port: 5,
    };
    let mut endpoints = Vec::new();
    let key = &material.host_info.alt_irk;
    hear_service(&mut endpoints, key, service(None));
    hear_service(&mut endpoints, key, service(Some("AAAAAAAA".into())));
    hear_service(&mut endpoints, &[0; 15], service(value("authTag")));
    assert!(endpoints.is_empty());
    assert_eq!(
        found_endpoints(Vec::new()).err(),
        Some(probe_failure(RsdProbeStage::Discovery))
    );
    hear_service(&mut endpoints, key, service(value("authTag")));
    hear_service(&mut endpoints, key, service(value("authTag")));
    let found = found_endpoints(endpoints).unwrap();
    assert_eq!(found.len(), 1);
    assert_eq!(found[0].port, 5);
    let mut host = material.host_info;
    host.alt_irk.pop();
    assert_eq!(
        announced_records(&host, "identifier").err(),
        Some(PairingError::Advertisement)
    );
}

#[test]
fn sessions_start_step_by_step() {
    let order = [
        StartStep::Room,
        StartStep::Material,
        StartStep::Addresses,
        StartStep::Listen,
        StartStep::Advertise,
    ];
    for pair in order.windows(2) {
        assert_eq!(pair[0].advance(Ok(())), StartTurn::Next(pair[1]));
    }
    assert_eq!(StartStep::Advertise.advance(Ok(())), StartTurn::Open);
    for step in order {
        assert_eq!(
            step.advance(Err(PairingError::Busy)),
            StartTurn::Refuse(PairingError::Busy)
        );
    }
}
