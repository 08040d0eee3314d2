use base64::engine::general_purpose::STANDARD as BASE64;
use base64::Engine;
use iphoneloadly_api::archive::{plist_string, read_plist, PlistDocument};
use iphoneloadly_api::dates::{early_date, late_date};
use iphoneloadly_api::pairing::PairingError;
use iphoneloadly_api::pairing_store::{
    fresh_material, load_material, load_pairing_file, save_payload, PairingPayload,
};
use iphoneloadly_api::record::RecordId;
use iphoneloadly_api::signing::{signed_bundle_id, SigningError};
use std::time::{Duration, UNIX_EPOCH};

const LATE: &str = "9999-12-31T23:59:59-00:01";

fn list_with(element: &str) -> Vec<u8> {
    format!(
        "<?xml version=\"1.0\" encoding=\"UTF-8\"?>\n<plist version=\"1.0\"><dict>\
         <key>CFBundleIdentifier</key><string>com.example.app</string>\
         <key>At</key>{element}</dict></plist>"
    )
    .into_bytes()
}

fn bundle_id(list: &[u8]) -> Option<String> {
    match read_plist(list) {
        PlistDocument::Dictionary(entries) => plist_string(&entries, "CFBundleIdentifier"),
        _ => None,
    }
}

#[test]
fn late_dates_make_a_list_unreadable() {
    for element in [
        format!("<date>{LATE}</date>"),
        "<date>9999-12-31 23:59:59.5-00:01</date>".to_owned(),
        "<date>9999-12-31T00:01:00-23:59</date>".to_owned(),
        format!("<date >{LATE}</date>"),
        format!("<date\n a='>' b=\"'\">{LATE}</date>"),
        format!("<p:date>{LATE}</p:date>"),
        format!("<\"\":date>{LATE}</\"\":date>"),
        format!("<date><!-- x -->{LATE}</date>"),
        "<date>9999-12-31T23:59:59<?x y?>-00:01</date>".to_owned(),
        "<date>9999-12-31T23:59:59<![CDATA[]]>-00:01</date>".to_owned(),
        "<date>9999-12-31T23:59:59&#45;00:01</date>".to_owned(),
        format!("<a<b:date>{LATE}</a<b:date>"),
    ] {
        let list = list_with(&element);
        assert!(late_date(&list), "{element}");
        assert!(matches!(read_plist(&list), PlistDocument::Unreadable));
        assert_eq!(
            signed_bundle_id(&list).err(),
            Some(SigningError::SignedMetadataFailed)
        );
    }
}

#[test]
fn other_dates_are_read() {
    for element in [
        "<date>2024-02-29T12:30:00Z</date>",
        "<date>9999-12-31T23:59:59Z</date>",
        "<date>9999-12-31T23:59:59+00:00</date>",
        "<date>9999-12-31T23:58:59-00:01</date>",
        "<date>9999-12-31T23:59:59+23:59</date>",
        "<date>9999-12-30T23:59:59-23:59</date>",
        "<date>0000-01-01T00:00:00+23:59</date>",
        "<date \t>2024-02-29T12:30:00Z</date>",
        "<date a='>' b=\"'\">2024-02-29T12:30:00Z</date>",
        "<string>&lt;date>9999-12-31T23:59:59-00:01&lt;/date></string>",
        "<string>9999-12-31T23:59:59-00:01</string>",
        "<!-- <date>2024-02-29T12:30:00Z</date> --><true/>",
    ] {
        let list = list_with(element);
        assert!(!late_date(&list), "{element}");
        assert_eq!(bundle_id(&list).as_deref(), Some("com.example.app"), "{element}");
        assert_eq!(signed_bundle_id(&list).unwrap(), "com.example.app");
    }
    assert!(!late_date(b""));
    assert!(!late_date(b"<date"));
    assert!(!late_date(b"<date>"));
    assert!(!late_date(b"bplist00<date>9999-12-31T23:59:59-00:01</date>"));
}

fn saved() -> PairingPayload {
    save_payload(&fresh_material("host", RecordId { bits: 1 })).expect("save material")
}

fn load(payload: &PairingPayload, list: &[u8]) -> Result<(), PairingError> {
    load_pairing_file(&payload.host_alt_irk, &BASE64.encode(list)).map(|_| ())
}

#[test]
fn pairing_files_hold_no_date_outside_the_years() {
    let payload = saved();
    let list = String::from_utf8(BASE64.decode(&payload.pairing_file).unwrap()).unwrap();
    for (date, readable) in [
        ("2024-02-29T12:30:00Z", true),
        (LATE, false),
        ("0000-01-01T00:00:59.9+00:01", false),
        ("0000-01-01T00:00:60+00:01", false),
        ("0000-01-01T00:00:00+23:59", false),
        ("0000-01-01T00:01:00+00:01", true),
        ("0000-01-01T00:00:00Z", true),
        ("0000-01-02T00:00:00+23:59", true),
    ] {
        let dated = list.replace(
            "</dict>",
            &format!("<key>At</key><date>{date}</date></dict>"),
        );
        assert_eq!(
            late_date(dated.as_bytes()) || early_date(dated.as_bytes()),
            !readable,
            "{date}"
        );
        let expected = if readable {
            Ok(())
        } else {
            Err(PairingError::CorruptedState)
        };
        assert_eq!(load(&payload, dated.as_bytes()), expected, "{date}");
    }
}

#[test]
fn binary_pairing_files_hold_no_date_before_the_year_zero() {
    let payload = saved();
    let list = BASE64.decode(&payload.pairing_file).unwrap();
    let year_zero = UNIX_EPOCH - Duration::from_secs(62_167_219_200);
    for (at, readable) in [
        (UNIX_EPOCH, true),
        (year_zero, true),
        (year_zero - Duration::from_millis(1), false),
        (year_zero - Duration::from_secs(86_400), false),
    ] {
        let mut dictionary: plist::Dictionary = plist::from_bytes(&list).unwrap();
        dictionary.insert("At".into(), plist::Value::Date(at.into()));
        let mut binary = Vec::new();
        plist::to_writer_binary(&mut binary, &plist::Value::Dictionary(plist::Dictionary::new()))
            .unwrap();
        assert!(!early_date(&binary));
        binary.clear();
        plist::Value::Dictionary(dictionary)
            .to_writer_binary(&mut binary)
            .unwrap();
        assert_eq!(early_date(&binary), !readable);
        assert!(!late_date(&binary));
        let expected = if readable {
            Ok(())
        } else {
            Err(PairingError::CorruptedState)
        };
        assert_eq!(load(&payload, &binary), expected);
    }
    assert!(!early_date(b"bplist00"));
    assert!(!early_date(&[b"bplist00".as_slice(), &[0xff; 40]].concat()));
}

#[test]
fn every_identifier_is_read_back() {
    for identifier in [
        "",
        "plain-1",
        "  around  ",
        "<date>9999-12-31T23:59:59-00:01</date>",
        "a & b &amp; \"c\" 'd' ]]> <!-- e -->",
        "tab\t line\n return\r both\r\n",
        "\u{1}\u{7f}\u{feff}\u{2603}\u{1f600}",
    ] {
        let mut material = fresh_material("host", RecordId { bits: 1 });
        material.pairing_file.identifier = identifier.into();
        let payload = save_payload(&material).expect("save material");
        let loaded = load_material(Some(payload), "host").expect("load material");
        assert_eq!(loaded.pairing_file.identifier, identifier);
        assert_eq!(
            loaded.pairing_file.private_key,
            material.pairing_file.private_key
        );
    }
}
