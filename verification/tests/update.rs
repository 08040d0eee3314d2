use iphoneloadly_api::github::{Release, ReleaseAsset};
use iphoneloadly_api::update::{
    info, release_archive, select_update, status, told_status, update_request, verified_digest,
    RequestStep, RequestTurn, UpdateStatus,
};
use iphoneloadly_api::version::ReleaseVersion;

const DIGEST: &str = "ba7816bf8f01cfea414140de5dae2223b00361a396177a9cb410ff61f20015ad";

fn asset(name: &str, digest: Option<String>) -> ReleaseAsset {
    ReleaseAsset {
        id: 1,
        name: name.into(),
        size: 1,
        digest,
        browser_download_url: String::new(),
    }
}

fn official(tag: &str, prerelease: bool, vouched: bool) -> Release {
    let version = tag.trim_start_matches('v');
    let archive = release_archive(version);
    let checksum = format!("{archive}.sha256");
    Release {
        id: 1,
        tag_name: tag.into(),
        name: tag.into(),
        draft: false,
        prerelease,
        published_at: None,
        assets: vec![
            asset(&archive, vouched.then_some(format!("sha256:{DIGEST}"))),
            asset(&checksum, None),
        ],
    }
}

#[test]
fn the_newest_vouched_release_is_chosen() {
    let current = ReleaseVersion::parse("0.2.0").unwrap();
    let releases = vec![
        official("v0.3.0", false, true),
        official("v0.10.0", false, true),
        official("v0.11.0", false, false),
        official("v0.12.0-rc.1", true, true),
    ];
    let selected = select_update(&releases, &current).expect("an update is there");
    assert_eq!(selected.version, "0.10.0");
    assert_eq!(selected.digest, DIGEST);
    assert_eq!(selected.release_tag, "v0.10.0");
    let told = info(&current, Some(&releases));
    assert!(told.available);
    assert_eq!(told.latest_version.as_deref(), Some("0.10.0"));
    assert_eq!(
        told.message,
        "A verified official iPhoneLoadly update is available."
    );
    let request = update_request(selected, "2026-01-01T00:00:00Z".into());
    assert_eq!(request.target_version, "0.10.0");
    assert_eq!(request.expected_archive_sha256, DIGEST);
}

#[test]
fn nothing_newer_is_told() {
    let current = ReleaseVersion::parse("0.3.0").unwrap();
    let releases = vec![official("v0.3.0", false, true)];
    let told = info(&current, Some(&releases));
    assert!(!told.available);
    assert_eq!(told.message, "iPhoneLoadly is up to date.");
    assert_eq!(
        info(&current, None).message,
        "The official GitHub release information is temporarily unavailable."
    );
}

#[test]
fn archives_are_named_by_their_version() {
    assert_eq!(
        release_archive("0.3.0"),
        "iphoneloadly-v0.3.0-linux-amd64.tar.gz"
    );
    let release = official("v0.3.0", false, true);
    assert_eq!(verified_digest(&release, "0.3.0").as_deref(), Some(DIGEST));
    assert!(verified_digest(&release, "0.4.0").is_none());
}

#[test]
fn requests_take_every_step() {
    let mut step = RequestStep::Action;
    let mut steps = 1;
    while let RequestTurn::Next(next) = step.advance(true) {
        step = next;
        steps += 1;
    }
    assert_eq!(steps, 11);
    assert!(matches!(step.advance(true), RequestTurn::Accepted));
    let RequestTurn::Refuse { reply, discard } = RequestStep::Vacant.advance(false) else {
        panic!("a failed step is refused");
    };
    assert_eq!(reply.status, 409);
    assert!(!discard);
    let RequestTurn::Refuse { discard, .. } = RequestStep::Protect.advance(false) else {
        panic!("a failed step is refused");
    };
    assert!(discard);
}

#[test]
fn the_updater_tells_its_status() {
    assert_eq!(status(None).body(), "{\"status\":\"idle\"}");
    assert_eq!(status(Some("not json")).body(), "{\"status\":\"unknown\"}");
    assert_eq!(
        status(Some(" { \"status\" : \"done\", \"at\": [1, 2] }\n")).body(),
        "{\"at\":[1,2],\"status\":\"done\"}"
    );
    assert!(matches!(
        told_status(true, Some("1".into())),
        UpdateStatus::Told(_)
    ));
    assert!(matches!(told_status(false, None), UpdateStatus::Idle));
    assert!(matches!(told_status(true, None), UpdateStatus::Unknown));
}
