use iphoneloadly_api::archive::{PlistDocument, PlistEntry};
use iphoneloadly_api::record::RecordId;
use iphoneloadly_api::sealing::{new_key, SealedRecord};
use iphoneloadly_api::signing::{
    account_preflight, credential_key, credentials_removed, document_bundle_id, install_percent,
    is_registered, may_sign, needs_credential_key, readiness, save_plaintext, saved_plaintext,
    signed_bundle_id, two_factor_response, AppleAccountPreflight, CertificateRow, CredentialRead,
    CredentialRemoval, DeviceRegistrationPolicy, DeviceRegistrationState, LoginAttempt, LoginBook,
    LoginPhase, LoginStep, LoginTurn, PathKind, SavedCredentials, SignStep, SignTurn,
    SignedAppArtifact, SigningAccount, SigningDeviceIdentity, SigningError, SnapshotCleanup, SnapshotOutcome, SnapshotStep, SnapshotTurn, TreeEntry, TreeWalk,
    TwoFactorResponse, MAX_TREE_BYTES,
};

fn identity() -> SigningDeviceIdentity {
    SigningDeviceIdentity::new("Test iPhone".into(), "00008110-001A2B3C00000000".into()).unwrap()
}

#[test]
fn identities_are_present_and_bounded() {
    assert_eq!(identity().name, "Test iPhone");
    assert!(SigningDeviceIdentity::new(" ".into(), "udid".into()).is_err());
    assert!(SigningDeviceIdentity::new("name".into(), String::new()).is_err());
    assert!(SigningDeviceIdentity::new("n".repeat(256), "udid".into()).is_ok());
    assert_eq!(
        SigningDeviceIdentity::new("n".repeat(257), "udid".into()).err(),
        Some(SigningError::DeviceInfoFailed)
    );
}

#[test]
fn sign_ins_move_through_their_phases() {
    let id = RecordId { bits: 1 };
    let mut attempt: LoginAttempt<u8> = LoginAttempt::new(id);
    assert_eq!(attempt.status.phase, LoginPhase::Authenticating);
    assert_eq!(
        attempt.submit(TwoFactorResponse::Abort).err(),
        Some(SigningError::NoTwoFactorChallenge)
    );
    attempt.challenge(7);
    assert_eq!(attempt.status.phase, LoginPhase::AwaitingTwoFactor);
    assert_eq!(attempt.status.two_factor, Some(7));
    assert!(attempt.submit(TwoFactorResponse::ResendCode).is_ok());
    assert!(matches!(
        attempt.take_response(),
        Some(TwoFactorResponse::ResendCode)
    ));
    assert!(attempt.take_response().is_none());
    attempt.ready();
    assert_eq!(attempt.status.phase, LoginPhase::Ready);
    attempt.failed();
    assert_eq!(attempt.status.phase, LoginPhase::Failed);
    assert_eq!(attempt.status.two_factor, None);
}

#[test]
fn sign_ins_are_found_by_their_identifier() {
    let mut book: LoginBook<u8> = LoginBook::new();
    let id = RecordId { bits: 1 };
    assert_eq!(book.status(id).err(), Some(SigningError::UnknownSession));
    book.begin(id);
    assert_eq!(book.status(id).unwrap().id, id);
    assert_eq!(book.find(id), Some(0));
    assert_eq!(book.find(RecordId { bits: 2 }), None);
}

#[test]
fn two_factor_actions_are_exact() {
    assert!(matches!(
        two_factor_response("submitCode", Some("123456".into()), None),
        Ok(TwoFactorResponse::SubmitCode(code)) if code == "123456"
    ));
    assert!(matches!(
        two_factor_response("sendSms", None, Some(3)),
        Ok(TwoFactorResponse::SendSms(3))
    ));
    for action in ["submitCode", "sendSms", "other", ""] {
        assert_eq!(
            two_factor_response(action, None, None).err(),
            Some(SigningError::InvalidTwoFactorAction)
        );
    }
    assert_eq!(
        two_factor_response("submitCode", Some("  ".into()), None).err(),
        Some(SigningError::InvalidTwoFactorAction)
    );
}

#[test]
fn recovery_is_used_up_by_one_sign_in() {
    let mut account = SigningAccount::new(Some("https://anisette.example".into()));
    assert!(account.has_anisette_url());
    account.request_certificate_recovery();
    assert_eq!(
        account.begin_login().unwrap(),
        ("https://anisette.example".to_owned(), true)
    );
    assert!(!account.begin_login().unwrap().1);
    let mut missing = SigningAccount::new(Some("  ".into()));
    assert_eq!(
        missing.begin_login().err(),
        Some(SigningError::MissingAnisetteUrl)
    );
}

#[test]
fn readiness_tells_what_is_missing() {
    assert!(readiness(true, false).available);
    assert_eq!(
        readiness(false, true).message,
        "Sign in with Apple to enable signing."
    );
    assert_eq!(
        readiness(false, false).message,
        "Configure a trusted anisette URL before signing in with Apple."
    );
}

#[test]
fn sign_in_steps_end_in_a_session() {
    assert_eq!(
        LoginStep::Prepare.advance(true),
        LoginTurn::Next(LoginStep::Authenticate)
    );
    assert_eq!(LoginStep::Session.advance(true), LoginTurn::Ready);
    assert_eq!(LoginStep::Authenticate.advance(false), LoginTurn::Failed);
    assert!(LoginStep::Session.message().is_none());
}

#[test]
fn accounts_are_asked_before_signing() {
    let certificate = |status: Option<&str>, machine: Option<&str>, max: Option<i64>| CertificateRow {
        serial_number: Some("1".into()),
        status: status.map(str::to_owned),
        machine_name: machine.map(str::to_owned),
        max_active: max,
    };
    let preflight = account_preflight(
        &vec!["00008110-001A2B3C00000000".into()],
        &vec![
            certificate(Some("Issued"), Some("iPhoneLoadly"), Some(2)),
            certificate(Some("Revoked"), None, None),
        ],
        &identity(),
    );
    assert_eq!(
        preflight.device_registration,
        DeviceRegistrationState::AlreadyPresent
    );
    assert_eq!(preflight.development_certificate_count, 1);
    assert_eq!(preflight.development_certificate_capacity, Some(2));
    assert!(preflight.machine_certificate_present);
    assert!(!is_registered(&vec![], "00008110-001A2B3C00000000"));
}

#[test]
fn signing_steps_follow_the_policy() {
    assert_eq!(
        SignStep::Team.advance(DeviceRegistrationPolicy::RequireExisting, true),
        SignTurn::Next(SignStep::Devices)
    );
    assert_eq!(
        SignStep::Team.advance(DeviceRegistrationPolicy::Ensure, true),
        SignTurn::Next(SignStep::Registration)
    );
    assert_eq!(
        SignStep::Registration.advance(DeviceRegistrationPolicy::RequireExisting, false),
        SignTurn::Failed(SigningError::DeviceRegistrationRequired)
    );
    assert_eq!(
        SignStep::Registration.advance(DeviceRegistrationPolicy::Ensure, false),
        SignTurn::Failed(SigningError::DeviceRegistrationFailed)
    );
    assert_eq!(
        SignStep::Own.advance(DeviceRegistrationPolicy::Ensure, true),
        SignTurn::Done
    );
}

#[test]
fn progress_of_the_device_is_the_second_part() {
    assert_eq!(install_percent(0), 40);
    assert_eq!(install_percent(50), 70);
    assert_eq!(install_percent(100), 100);
    assert_eq!(install_percent(1_000), 100);
}

#[test]
fn signed_apps_are_named_by_their_property_list() {
    let mut dictionary = plist::Dictionary::new();
    dictionary.insert(
        "CFBundleIdentifier".into(),
        plist::Value::String("com.example.app.TEAM".into()),
    );
    let mut bytes = Vec::new();
    plist::Value::Dictionary(dictionary)
        .to_writer_xml(&mut bytes)
        .unwrap();
    assert_eq!(signed_bundle_id(&bytes).unwrap(), "com.example.app.TEAM");
    assert_eq!(
        signed_bundle_id(b"no list").err(),
        Some(SigningError::SignedMetadataFailed)
    );
    let blank = PlistDocument::Dictionary(vec![PlistEntry {
        key: "CFBundleIdentifier".into(),
        text: Some(String::new()),
    }]);
    assert_eq!(
        document_bundle_id(&blank).err(),
        Some(SigningError::SignedMetadataFailed)
    );
}

#[test]
fn artifacts_tell_their_parts() {
    let artifact = SignedAppArtifact::new(
        "work/Signed.app".into(),
        "work".into(),
        "com.example.app".into(),
    );
    assert_eq!(artifact.app_bundle_path(), "work/Signed.app");
    assert_eq!(artifact.cleanup_root(), "work");
    assert_eq!(artifact.bundle_id(), "com.example.app");
}

#[test]
fn signed_trees_hold_only_files_and_directories_inside() {
    let file = |size: u64| TreeEntry {
        kind: PathKind::File,
        size,
        inside: true,
    };
    let walk = TreeWalk::new().visit(file(10)).unwrap();
    assert_eq!(walk.bytes, 10);
    for entry in [
        TreeEntry {
            kind: PathKind::Symlink,
            size: 0,
            inside: true,
        },
        TreeEntry {
            kind: PathKind::Other,
            size: 0,
            inside: true,
        },
        TreeEntry {
            kind: PathKind::File,
            size: 0,
            inside: false,
        },
        file(MAX_TREE_BYTES + 1),
    ] {
        assert!(TreeWalk::new().visit(entry).is_err());
    }
}

#[test]
fn refused_apps_leave_nothing_behind() {
    assert_eq!(
        SnapshotStep::Source.advance(SnapshotOutcome::Failed),
        SnapshotTurn::Failed(SnapshotCleanup::Nothing)
    );
    assert_eq!(
        SnapshotStep::BundleId.advance(SnapshotOutcome::Failed),
        SnapshotTurn::Failed(SnapshotCleanup::Owned)
    );
    assert_eq!(
        SnapshotStep::BundleId.advance(SnapshotOutcome::Done),
        SnapshotTurn::Owned
    );
    assert!(matches!(
        SnapshotStep::Move.advance(SnapshotOutcome::CrossesDevices),
        SnapshotTurn::Next(_)
    ));
}

#[test]
fn signing_errors_have_their_sentences() {
    assert_eq!(
        SigningError::NotReady.message(),
        "Apple signing session is not ready"
    );
    assert_eq!(
        SigningError::DeviceRegistrationRequired.message(),
        "device registration requires explicit authorization"
    );
}

#[test]
fn answers_reach_the_sign_in_that_waits() {
    let mut book: LoginBook<u8> = LoginBook::new();
    let (first, second) = (RecordId { bits: 1 }, RecordId { bits: 2 });
    book.begin(first);
    book.begin(second);
    assert_eq!(
        book.submit_two_factor(first, "submit", None, None).err(),
        Some(SigningError::InvalidTwoFactorAction)
    );
    assert_eq!(
        book.submit_two_factor(RecordId { bits: 3 }, "abort", None, None).err(),
        Some(SigningError::UnknownSession)
    );
    assert_eq!(
        book.submit_two_factor(second, "abort", None, None).err(),
        Some(SigningError::NoTwoFactorChallenge)
    );
    book.attempts[1].challenge(9);
    assert!(book
        .submit_two_factor(second, "submitCode", Some("123456".into()), None)
        .is_ok());
    assert!(book.attempts[0].take_response().is_none());
    match book.attempts[1].take_response() {
        Some(TwoFactorResponse::SubmitCode(code)) => assert_eq!(code, "123456"),
        _ => panic!("the answer was not kept"),
    }
}

#[test]
fn a_sign_in_that_begins_again_starts_over() {
    let mut book: LoginBook<u8> = LoginBook::new();
    let id = RecordId { bits: 1 };
    book.begin(id);
    book.attempts[0].failed();
    book.begin(id);
    assert_eq!(book.attempts.len(), 1);
    assert_eq!(book.status(id).unwrap().phase, LoginPhase::Authenticating);
}

#[test]
fn saved_sign_ins_are_restored() {
    let key = new_key();
    let text = b"{\"email\":\"person@example.test\",\"password\":\"secret\"}";
    let record = save_plaintext(&key, text).expect("save credentials");
    assert!(!record.ciphertext.contains("secret"));
    let read = CredentialRead::Record(record);
    assert!(needs_credential_key(&read));
    assert_eq!(saved_plaintext(read, &key), Ok(Some(text.to_vec())));
    assert!(!needs_credential_key(&CredentialRead::Missing));
    assert_eq!(saved_plaintext(CredentialRead::Missing, &[]), Ok(None));
    assert_eq!(
        saved_plaintext(CredentialRead::Unreadable, &key),
        Err(SigningError::CredentialStorage)
    );
    let read = CredentialRead::Record(save_plaintext(&key, text).expect("save credentials"));
    assert_eq!(
        saved_plaintext(read, &new_key()),
        Err(SigningError::CredentialStorage)
    );
    let record = SealedRecord {
        nonce: "AAAA".into(),
        ciphertext: "AAAA".into(),
    };
    let read = CredentialRead::Record(record);
    assert!(!needs_credential_key(&read));
    assert_eq!(
        saved_plaintext(read, &key),
        Err(SigningError::CredentialStorage)
    );
}

#[test]
fn restored_sign_ins_begin_with_their_credentials() {
    let saved = || {
        Some(SavedCredentials {
            email: "person@example.test".into(),
            password: "secret".into(),
        })
    };
    let id = RecordId { bits: 1 };
    let mut account = SigningAccount::new(Some("http://anisette.test".into()));
    assert_eq!(
        account.restore_login(id, None).err(),
        Some(SigningError::CredentialStorage)
    );
    assert!(account.saved_login.is_none());
    account.request_certificate_recovery();
    let start = account.restore_login(id, saved()).expect("begin sign-in");
    assert_eq!(start.credentials.email, "person@example.test");
    assert_eq!(start.credentials.password, "secret");
    assert_eq!(start.anisette_url, "http://anisette.test");
    assert!(start.revoke);
    assert_eq!(account.saved_login, Some(id));
    account.forget_login();
    assert!(account.saved_login.is_none());
    let mut account = SigningAccount::new(None);
    assert_eq!(
        account.restore_login(id, saved()).err(),
        Some(SigningError::MissingAnisetteUrl)
    );
    assert!(account.saved_login.is_none());
}

#[test]
fn credential_keys_have_their_length() {
    assert_eq!(credential_key(None), Ok(None));
    assert_eq!(credential_key(Some(vec![1; 32])), Ok(Some(vec![1; 32])));
    assert_eq!(
        credential_key(Some(vec![1; 16])),
        Err(SigningError::CredentialStorage)
    );
    assert_eq!(
        save_plaintext(&[0; 31], b"text").err(),
        Some(SigningError::CredentialStorage)
    );
    assert_eq!(credentials_removed(CredentialRemoval::Removed), Ok(()));
    assert_eq!(credentials_removed(CredentialRemoval::Missing), Ok(()));
    assert_eq!(
        credentials_removed(CredentialRemoval::Failed),
        Err(SigningError::CredentialStorage)
    );
}

#[test]
fn apps_are_signed_for_known_devices() {
    let preflight = |device_registration| AppleAccountPreflight {
        device_registration,
        development_certificate_count: 0,
        development_certificate_capacity: None,
        machine_certificate_present: false,
    };
    assert!(may_sign(preflight(DeviceRegistrationState::AlreadyPresent)));
    assert!(!may_sign(preflight(DeviceRegistrationState::NewRequired)));
}
