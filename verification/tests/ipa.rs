use iphoneloadly_api::archive::{plist_string, ArchiveEntry, PlistDocument, PlistEntry};
use iphoneloadly_api::digest::{hex, same_bytes, sha256, RunningDigest};
use iphoneloadly_api::ipa::{
    bundle_identifier, inspect_ipa, main_bundle_from_entry, validate_archive_path, Inspection,
    UploadError, MAX_EXPANDED_BYTES, MAX_INFO_PLIST_BYTES,
};
use std::io::{Cursor, Write};

fn archive(entries: &[(&str, &[u8])]) -> Vec<u8> {
    let mut writer = zip::ZipWriter::new(Cursor::new(Vec::new()));
    for (name, contents) in entries {
        writer
            .start_file(*name, zip::write::SimpleFileOptions::default())
            .expect("start archive entry");
        writer.write_all(contents).expect("write archive entry");
    }
    writer.finish().expect("finish archive").into_inner()
}

fn info_plist(entries: &[(&str, &str)]) -> Vec<u8> {
    let mut dictionary = plist::Dictionary::new();
    for (key, value) in entries {
        dictionary.insert((*key).to_owned(), plist::Value::String((*value).to_owned()));
    }
    let mut bytes = Vec::new();
    plist::Value::Dictionary(dictionary)
        .to_writer_xml(&mut bytes)
        .expect("write property list");
    bytes
}

#[test]
fn an_application_archive_is_described() {
    let info = info_plist(&[
        ("CFBundleIdentifier", "com.example.app"),
        ("CFBundleDisplayName", "Example"),
        ("CFBundleShortVersionString", "1.2.3"),
    ]);
    let bytes = archive(&[
        ("Payload/Example.app/Info.plist", &info),
        ("Payload/Example.app/Example", b"binary"),
    ]);
    let metadata = inspect_ipa(&bytes).expect("inspect application");
    assert_eq!(metadata.app_bundle_path, "Payload/Example.app");
    assert_eq!(metadata.bundle_id, "com.example.app");
    assert_eq!(metadata.display_name, "Example");
    assert_eq!(metadata.app_version.as_deref(), Some("1.2.3"));
    assert_eq!(metadata.size_bytes, bytes.len() as u64);
    assert_eq!(metadata.sha256, hex(&sha256(&bytes)));
    assert_eq!(metadata.sha256.len(), 64);
    assert!(metadata.info_plist_present);
    assert_eq!(bundle_identifier(&bytes).unwrap(), "com.example.app");
}

#[test]
fn missing_names_fall_back_to_the_bundle_identifier() {
    let info = info_plist(&[("CFBundleIdentifier", "com.example.app")]);
    let bytes = archive(&[("Payload/Example.app/Info.plist", &info)]);
    let metadata = inspect_ipa(&bytes).expect("inspect application");
    assert_eq!(metadata.display_name, "com.example.app");
    assert!(metadata.app_version.is_none());
}

#[test]
fn unfit_archives_are_refused() {
    let info = info_plist(&[("CFBundleIdentifier", "com.example.app")]);
    assert_eq!(
        inspect_ipa(b"no archive").err(),
        Some(UploadError::InvalidArchive)
    );
    assert_eq!(
        inspect_ipa(&archive(&[("notes.txt", b"text")])).err(),
        Some(UploadError::InvalidPayload)
    );
    assert_eq!(
        inspect_ipa(&archive(&[("Payload/Example.app/Example", b"binary")])).err(),
        Some(UploadError::MissingInfoPlist)
    );
    assert_eq!(
        inspect_ipa(&archive(&[
            ("Payload/One.app/Info.plist", &info),
            ("Payload/Two.app/Info.plist", &info),
        ]))
        .err(),
        Some(UploadError::InvalidPayload)
    );
    assert_eq!(
        inspect_ipa(&archive(&[("Payload/Example.app/Info.plist", b"no list")])).err(),
        Some(UploadError::InvalidBundleIdentifier)
    );
    assert_eq!(
        inspect_ipa(&archive(&[(
            "Payload/Example.app/Info.plist",
            &info_plist(&[("CFBundleName", "Example")])
        )]))
        .err(),
        Some(UploadError::InvalidBundleIdentifier)
    );
}

#[test]
fn unsafe_paths_are_refused() {
    assert!(validate_archive_path("Payload/Example.app/Info.plist").is_ok());
    for path in ["/etc/passwd", "../up", "Payload/../../up", "a\\b"] {
        assert_eq!(
            validate_archive_path(path).err(),
            Some(UploadError::UnsafePath)
        );
    }
}

#[test]
fn bundles_stand_in_the_payload() {
    assert_eq!(
        main_bundle_from_entry("Payload/Example.app/Info.plist").as_deref(),
        Some("Payload/Example.app")
    );
    assert!(main_bundle_from_entry("Other/Example.app/Info.plist").is_none());
    assert!(main_bundle_from_entry("Payload/Example/Info.plist").is_none());
}

#[test]
fn expansion_is_bounded() {
    let large = ArchiveEntry {
        name: "Payload/Example.app/Example".into(),
        size: MAX_EXPANDED_BYTES + 1,
        compressed_size: MAX_EXPANDED_BYTES,
    };
    assert_eq!(
        Inspection::new().accept(&large).err(),
        Some(UploadError::ExpansionLimit)
    );
    let dense = ArchiveEntry {
        name: "Payload/Example.app/Example".into(),
        size: 20_100,
        compressed_size: 100,
    };
    assert_eq!(
        Inspection::new().accept(&dense).err(),
        Some(UploadError::ExpansionLimit)
    );
    let fitting = ArchiveEntry {
        name: "Payload/Example.app/Example".into(),
        size: 20_000,
        compressed_size: 100,
    };
    let (inspection, info) = Inspection::new().accept(&fitting).unwrap();
    assert!(!info);
    assert_eq!(inspection.expanded, 20_000);
    let list = ArchiveEntry {
        name: "Payload/Example.app/Info.plist".into(),
        size: MAX_INFO_PLIST_BYTES + 1,
        compressed_size: MAX_INFO_PLIST_BYTES,
    };
    assert_eq!(
        Inspection::new().accept(&list).err(),
        Some(UploadError::ExpansionLimit)
    );
}

#[test]
fn property_lists_without_a_dictionary_name_no_application() {
    assert_eq!(
        Inspection::new().inform(&PlistDocument::NotDictionary).err(),
        Some(UploadError::InvalidBundleIdentifier)
    );
    assert_eq!(
        Inspection::new().inform(&PlistDocument::Unreadable).err(),
        Some(UploadError::InvalidBundleIdentifier)
    );
    let entries = vec![PlistEntry {
        key: "CFBundleIdentifier".into(),
        text: Some("com.example.app".into()),
    }];
    assert_eq!(
        plist_string(&entries, "CFBundleIdentifier").as_deref(),
        Some("com.example.app")
    );
    assert!(plist_string(&entries, "CFBundleName").is_none());
}

#[test]
fn digests_are_those_of_sha256() {
    assert_eq!(
        hex(&sha256(b"abc")),
        "ba7816bf8f01cfea414140de5dae2223b00361a396177a9cb410ff61f20015ad"
    );
    let mut running = RunningDigest::new();
    running.update(b"a");
    running.update(b"bc");
    assert!(same_bytes(&running.finalize(), &sha256(b"abc")));
    assert!(!same_bytes(&sha256(b"abd"), &sha256(b"abc")));
}

#[test]
fn every_upload_error_has_its_sentence() {
    assert_eq!(
        UploadError::TooLarge.message(),
        "upload exceeds the configured size limit"
    );
    assert_eq!(
        UploadError::InvalidArchive.message(),
        "upload is not a readable IPA archive"
    );
    assert_eq!(
        UploadError::TooManyEntries.message(),
        "archive contains too many entries"
    );
    assert_eq!(
        UploadError::MissingInfoPlist.message(),
        "application Info.plist is missing"
    );
}
