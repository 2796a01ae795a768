use sealvault_core::backup::file_name::MetadataFromFileName;
use sealvault_core::backup::metadata::{BackupMetadata, PlainBackupMetadata};
use sealvault_core::backup::scheme::BackupScheme;
use sealvault_core::backup::version::BackupVersion;
use sealvault_core::device::{DeviceIdentifier, DeviceName, OperatingSystem};
use sealvault_core::error::Error;

fn sample() -> BackupMetadata {
    BackupMetadata {
        backup_scheme: BackupScheme::V1,
        backup_version: BackupVersion::try_from(3).unwrap(),
        timestamp: 1700000000,
        device_id: DeviceIdentifier::new("dev123".to_string()),
        device_name: DeviceName::new("Test Phone".to_string()),
        operating_system: OperatingSystem::Ios,
        kdf_nonce: "AAECAwQFBgc=".to_string(),
    }
}

#[test]
fn canonical_encoding_has_sorted_keys_and_plain_numbers() {
    let bytes = sample().canonical_json().unwrap();
    assert_eq!(
        String::from_utf8(bytes).unwrap(),
        "{\"backup_scheme\":\"v1\",\"backup_version\":3,\"device_id\":\"dev123\",\
         \"device_name\":\"Test Phone\",\"kdf_nonce\":\"AAECAwQFBgc=\",\
         \"operating_system\":\"ios\",\"timestamp\":1700000000}"
    );
}

#[test]
fn canonical_encoding_escapes_quote_and_backslash_only() {
    let mut record = sample();
    record.device_name = DeviceName::new("a\"b\\c\nd/e".to_string());
    let bytes = record.canonical_json().unwrap();
    let text = String::from_utf8(bytes).unwrap();
    assert!(text.contains("\"device_name\":\"a\\\"b\\\\c\nd/e\""));
}

#[test]
fn canonical_encoding_of_extreme_numbers() {
    let mut record = sample();
    record.timestamp = i64::MIN;
    record.backup_version = BackupVersion::try_from(i64::MAX).unwrap();
    let text = String::from_utf8(record.canonical_json().unwrap()).unwrap();
    assert!(text.contains("\"backup_version\":9223372036854775807,"));
    assert!(text.ends_with("\"timestamp\":-9223372036854775808}"));
}

#[test]
fn canonical_encoding_is_the_same_for_equal_records() {
    assert_eq!(sample().canonical_json(), sample().canonical_json());
}

#[test]
fn canonical_encoding_changes_with_each_field() {
    let base = sample().canonical_json().unwrap();
    let mut changed = Vec::new();
    let mut record = sample();
    record.backup_version = BackupVersion::try_from(4).unwrap();
    changed.push(record);
    let mut record = sample();
    record.timestamp = 1700000001;
    changed.push(record);
    let mut record = sample();
    record.device_id = DeviceIdentifier::new("dev124".to_string());
    changed.push(record);
    let mut record = sample();
    record.device_name = DeviceName::new("Test phone".to_string());
    changed.push(record);
    let mut record = sample();
    record.operating_system = OperatingSystem::Android;
    changed.push(record);
    let mut record = sample();
    record.kdf_nonce = "AAECAwQFBgg=".to_string();
    changed.push(record);
    let encodings: Vec<Vec<u8>> = changed.iter().map(|r| r.canonical_json().unwrap()).collect();
    for (i, a) in encodings.iter().enumerate() {
        assert_ne!(*a, base);
        for (j, b) in encodings.iter().enumerate() {
            if i != j {
                assert_ne!(a, b);
            }
        }
    }
}

#[test]
fn canonical_encoding_does_not_tell_two_spellings_of_one_letter_apart() {
    let mut composed = sample();
    composed.device_name = DeviceName::new("\u{e9}".to_string());
    let mut decomposed = sample();
    decomposed.device_name = DeviceName::new("e\u{301}".to_string());
    assert_ne!(composed, decomposed);
    assert_eq!(composed.canonical_json(), decomposed.canonical_json());
}

#[test]
fn swapping_two_fields_changes_the_encoding() {
    let mut swapped = sample();
    swapped.device_id = DeviceIdentifier::new("Test Phone".to_string());
    swapped.device_name = DeviceName::new("dev123".to_string());
    assert_ne!(swapped.canonical_json(), sample().canonical_json());
}

#[test]
fn file_name_of_a_record() {
    assert_eq!(
        sample().backup_file_name(),
        "sealvault_backup_v1_ios_1700000000_dev123_3.zip"
    );
}

#[test]
fn file_name_of_a_record_reads_back() {
    let record = sample();
    let parsed = MetadataFromFileName::from_str(&record.backup_file_name()).unwrap();
    assert_eq!(parsed.timestamp, record.timestamp);
    assert_eq!(parsed.os, record.operating_system);
    assert_eq!(parsed.device_id, record.device_id);
    assert_eq!(parsed.backup_version, record.backup_version);
}

#[test]
fn file_name_leaves_device_name_and_nonce_out() {
    let mut other = sample();
    other.device_name = DeviceName::new("Another".to_string());
    other.kdf_nonce = "c2VjcmV0".to_string();
    assert_eq!(other.backup_file_name(), sample().backup_file_name());
}

fn builder() -> sealvault_core::backup::metadata::BackupMetadataBuilder {
    BackupMetadata::builder(
        BackupScheme::V1,
        BackupVersion::try_from(3).unwrap(),
        DeviceIdentifier::new("dev123".to_string()),
        DeviceName::new("Test Phone".to_string()),
        "AAECAwQFBgc=".to_string(),
    )
}

#[test]
fn builder_uses_what_was_set() {
    let record = builder()
        .timestamp(1700000000)
        .operating_system(OperatingSystem::Ios)
        .build(5, OperatingSystem::Linux);
    assert_eq!(record, sample());
}

#[test]
fn builder_defaults_to_now_and_to_the_host() {
    let record = builder().build(1700000000, OperatingSystem::Ios);
    assert_eq!(record, sample());
    let record = builder().timestamp(7).build(1700000000, OperatingSystem::MacOs);
    assert_eq!(record.timestamp, 7);
    assert_eq!(record.operating_system, OperatingSystem::MacOs);
    let record = builder()
        .operating_system(OperatingSystem::Windows)
        .build(1700000000, OperatingSystem::MacOs);
    assert_eq!(record.timestamp, 1700000000);
    assert_eq!(record.operating_system, OperatingSystem::Windows);
}

#[test]
fn order_of_assignment_does_not_matter() {
    let one = builder()
        .timestamp(1700000000)
        .operating_system(OperatingSystem::Ios)
        .build(0, OperatingSystem::Linux);
    let other = builder()
        .operating_system(OperatingSystem::Ios)
        .timestamp(1700000000)
        .build(0, OperatingSystem::Linux);
    assert_eq!(one, other);
    assert_eq!(one.canonical_json(), other.canonical_json());
}

#[test]
fn last_assignment_wins() {
    let record = builder().timestamp(1).timestamp(2).build(0, OperatingSystem::Linux);
    assert_eq!(record.timestamp, 2);
}

#[test]
fn tags_of_schemes_and_operating_systems() {
    assert_eq!(BackupScheme::V1.as_str(), "v1");
    assert_eq!(BackupScheme::from_tag("v1"), Ok(BackupScheme::V1));
    assert_eq!(
        BackupScheme::from_tag("V1"),
        Err(Error::Fatal {
            error: "Unknown backup scheme: 'V1'".to_string()
        })
    );
    let systems = [
        (OperatingSystem::Android, "android"),
        (OperatingSystem::Ios, "ios"),
        (OperatingSystem::Linux, "linux"),
        (OperatingSystem::MacOs, "macos"),
        (OperatingSystem::Windows, "windows"),
    ];
    for (os, tag) in systems {
        assert_eq!(os.as_str(), tag);
        assert_eq!(OperatingSystem::from_tag(tag), Ok(os));
    }
    assert_eq!(
        OperatingSystem::from_tag(""),
        Err(Error::Fatal {
            error: "Unknown operating system: ''".to_string()
        })
    );
    assert!(OperatingSystem::from_tag("iOS").is_err());
}

fn plain_sample() -> PlainBackupMetadata {
    PlainBackupMetadata {
        backup_scheme: "v1".to_string(),
        backup_version: 3,
        timestamp: 1700000000,
        device_id: "dev123".to_string(),
        device_name: "Test Phone".to_string(),
        operating_system: "ios".to_string(),
        kdf_nonce: "AAECAwQFBgc=".to_string(),
    }
}

#[test]
fn record_in_plain_values() {
    assert_eq!(sample().to_plain(), plain_sample());
    assert_eq!(BackupMetadata::from_plain(plain_sample()), Ok(sample()));
}

#[test]
fn record_comes_back_from_plain_values() {
    let mut record = sample();
    record.timestamp = -7;
    record.operating_system = OperatingSystem::Windows;
    record.device_name = DeviceName::new("".to_string());
    assert_eq!(BackupMetadata::from_plain(record.to_plain()), Ok(record));
}

#[test]
fn record_comes_back_from_json() {
    let text = serde_json::to_string(&plain_fields(&sample().to_plain())).unwrap();
    let value: serde_json::Value = serde_json::from_str(&text).unwrap();
    let plain = PlainBackupMetadata {
        backup_scheme: value["backup_scheme"].as_str().unwrap().to_string(),
        backup_version: value["backup_version"].as_i64().unwrap(),
        timestamp: value["timestamp"].as_i64().unwrap(),
        device_id: value["device_id"].as_str().unwrap().to_string(),
        device_name: value["device_name"].as_str().unwrap().to_string(),
        operating_system: value["operating_system"].as_str().unwrap().to_string(),
        kdf_nonce: value["kdf_nonce"].as_str().unwrap().to_string(),
    };
    assert_eq!(BackupMetadata::from_plain(plain), Ok(sample()));
}

fn plain_fields(plain: &PlainBackupMetadata) -> serde_json::Value {
    let mut object = serde_json::Map::new();
    object.insert("backup_scheme".to_string(), plain.backup_scheme.clone().into());
    object.insert("backup_version".to_string(), plain.backup_version.into());
    object.insert("timestamp".to_string(), plain.timestamp.into());
    object.insert("device_id".to_string(), plain.device_id.clone().into());
    object.insert("device_name".to_string(), plain.device_name.clone().into());
    object.insert("operating_system".to_string(), plain.operating_system.clone().into());
    object.insert("kdf_nonce".to_string(), plain.kdf_nonce.clone().into());
    serde_json::Value::Object(object)
}

#[test]
fn canonical_encoding_is_that_of_the_plain_values() {
    let expected = serde_json::to_string(&plain_fields(&sample().to_plain())).unwrap();
    assert_eq!(sample().canonical_json().unwrap(), expected.into_bytes());
}

#[test]
fn plain_values_of_no_record_are_refused_for_good() {
    let mut plain = plain_sample();
    plain.backup_version = -1;
    assert_eq!(
        BackupMetadata::from_plain(plain),
        Err(Error::Fatal {
            error: "Negative backup version".to_string()
        })
    );
    let mut plain = plain_sample();
    plain.backup_scheme = "v2".to_string();
    assert_eq!(
        BackupMetadata::from_plain(plain),
        Err(Error::Fatal {
            error: "Unknown backup scheme: 'v2'".to_string()
        })
    );
    let mut plain = plain_sample();
    plain.operating_system = "".to_string();
    assert_eq!(
        BackupMetadata::from_plain(plain),
        Err(Error::Fatal {
            error: "Unknown operating system: ''".to_string()
        })
    );
    let mut plain = plain_sample();
    plain.backup_scheme = "".to_string();
    plain.backup_version = -1;
    plain.operating_system = "".to_string();
    assert_eq!(
        BackupMetadata::from_plain(plain),
        Err(Error::Fatal {
            error: "Unknown backup scheme: ''".to_string()
        })
    );
}

#[test]
fn version_in_decimal_notation() {
    assert_eq!(BackupVersion::try_from(0).unwrap().to_string(), "0");
    assert_eq!(BackupVersion::try_from(1234).unwrap().to_string(), "1234");
    assert_eq!(
        BackupVersion::try_from(i64::MAX).unwrap().to_string(),
        "9223372036854775807"
    );
}

#[test]
fn every_record_has_a_canonical_encoding() {
    let texts = [
        "",
        " ",
        "\u{0}\u{1}\u{1f}\u{7f}",
        "\"\\/\n\r\t",
        "e\u{301}\u{e9}",
        "\u{10ffff}\u{1f600}",
        "{\"a\":1}",
    ];
    let numbers = [i64::MIN, -1, 0, 1, i64::MAX];
    for text in texts {
        for number in numbers {
            let mut record = sample();
            record.device_id = DeviceIdentifier::new(text.to_string());
            record.device_name = DeviceName::new(text.to_string());
            record.kdf_nonce = text.to_string();
            record.timestamp = number;
            let first = record.canonical_json();
            assert!(first.is_ok());
            assert_eq!(first, record.canonical_json());
        }
    }
}
