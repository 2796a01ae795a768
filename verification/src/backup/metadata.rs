//! The record of one backup: what is kept in plain text beside the encrypted
//! archive and authenticated with it.

use vstd::prelude::*;
use vstd::string::*;

use crate::backup::file_name::{
    file_name_of_backup, get_backup_file_name, lemma_file_name_reads_back,
    metadata_of_file_name, MetadataFromFileNameView,
};
use crate::backup::scheme::BackupScheme;
use crate::backup::version::{version_of_integer, BackupVersion};
use crate::canonical_json::{canonical_json_object, encode_object};
use crate::device::{DeviceIdentifier, DeviceName, OperatingSystem};
use crate::error::{Error, ErrorView};
use crate::text::is_token;

verus! {

/// The record of one backup. It is kept in plain text beside the encrypted
/// archive, and its canonical encoding is authenticated with the archive.
#[derive(Debug, PartialEq)]
pub struct BackupMetadata {
    /// The edition of the backup format.
    pub backup_scheme: BackupScheme,
    pub backup_version: BackupVersion,
    /// When the backup was made, in unix time.
    pub timestamp: i64,
    pub device_id: DeviceIdentifier,
    pub device_name: DeviceName,
    pub operating_system: OperatingSystem,
    /// The nonce of the key derivation, in base 64.
    pub kdf_nonce: String,
}

/// The record of one backup, as contracts speak of it.
pub ghost struct BackupMetadataView {
    pub backup_scheme: BackupScheme,
    pub backup_version: int,
    pub timestamp: i64,
    pub device_id: Seq<char>,
    pub device_name: Seq<char>,
    pub operating_system: OperatingSystem,
    pub kdf_nonce: Seq<char>,
}

impl View for BackupMetadata {
    type V = BackupMetadataView;

    open spec fn view(&self) -> BackupMetadataView {
        BackupMetadataView {
            backup_scheme: self.backup_scheme,
            backup_version: self.backup_version@,
            timestamp: self.timestamp,
            device_id: self.device_id@,
            device_name: self.device_name@,
            operating_system: self.operating_system,
            kdf_nonce: self.kdf_nonce@,
        }
    }
}

impl BackupMetadataView {
    /// What holds of the view of every record: its version is a backup version.
    pub open spec fn valid(self) -> bool {
        0 <= self.backup_version <= i64::MAX
    }

    /// The name of the backup's archive.
    pub open spec fn file_name(self) -> Seq<char> {
        file_name_of_backup(
            self.backup_scheme,
            self.operating_system,
            self.timestamp as int,
            self.device_id,
            self.backup_version,
        )
    }

    /// What the name of the backup's archive says of the backup.
    pub open spec fn in_file_name(self) -> MetadataFromFileNameView {
        MetadataFromFileNameView {
            timestamp: self.timestamp as int,
            os: self.operating_system,
            device_id: self.device_id,
            backup_version: self.backup_version,
        }
    }

    /// The members of the record whose value is a string, in the order of
    /// their keys.
    pub open spec fn texts(self) -> Seq<(Seq<char>, Seq<char>)> {
        seq![
            ("backup_scheme"@, self.backup_scheme.tag()),
            ("device_id"@, self.device_id),
            ("device_name"@, self.device_name),
            ("kdf_nonce"@, self.kdf_nonce),
            ("operating_system"@, self.operating_system.tag()),
        ]
    }

    /// The members of the record whose value is an integer, in the order of
    /// their keys.
    pub open spec fn numbers(self) -> Seq<(Seq<char>, i64)> {
        seq![("backup_version"@, self.backup_version as i64), ("timestamp"@, self.timestamp)]
    }

    /// The canonical encoding of the record.
    pub open spec fn canonical_json(self) -> Seq<u8> {
        canonical_json_object(self.texts(), self.numbers())
    }

    /// The record in plain values.
    pub open spec fn plain(self) -> PlainBackupMetadataView {
        PlainBackupMetadataView {
            backup_scheme: self.backup_scheme.tag(),
            backup_version: self.backup_version as i64,
            timestamp: self.timestamp,
            device_id: self.device_id,
            device_name: self.device_name,
            operating_system: self.operating_system.tag(),
            kdf_nonce: self.kdf_nonce,
        }
    }
}

/// What is said of an encoder that fails.
pub open spec fn not_serialized() -> ErrorView {
    ErrorView::Fatal { error: "Failed to serialize backup metadata."@ }
}

/// The result for what an encoder gave: its bytes, or a fatal error where it
/// gave none.
pub fn canonical_json_or_error(encoded: Option<Vec<u8>>) -> (r: Result<Vec<u8>, Error>)
    ensures
        match encoded {
            Some(bytes) => r matches Ok(returned) && returned@ == bytes@,
            None => r matches Err(e) && e@ == not_serialized(),
        },
{
    match encoded {
        Some(bytes) => Ok(bytes),
        None => Err(Error::fatal("Failed to serialize backup metadata.")),
    }
}

fn text_member(key: &str, value: &str) -> (member: (String, String))
    ensures
        member.deep_view() == (key@, value@),
{
    (String::from_str(key), String::from_str(value))
}

fn number_member(key: &str, value: i64) -> (member: (String, i64))
    ensures
        member.deep_view() == (key@, value),
{
    (String::from_str(key), value)
}

impl BackupMetadata {
    /// The name of the backup's archive.
    pub fn backup_file_name(&self) -> (name: String)
        ensures
            name@ == self@.file_name(),
    {
        get_backup_file_name(
            self.backup_scheme,
            &self.operating_system,
            self.timestamp,
            &self.device_id,
            self.backup_version,
        )
    }

    /// The canonical encoding of the record: the bytes that are authenticated
    /// with the encrypted archive. Every record has one, and records that are
    /// equal field by field have the same. The result is a `Result` for the
    /// sake of an encoder that fails, which this one does not.
    pub fn canonical_json(&self) -> (r: Result<Vec<u8>, Error>)
        ensures
            r matches Ok(bytes) && bytes@ == self@.canonical_json(),
    {
        let mut texts: Vec<(String, String)> = Vec::new();
        texts.push(text_member("backup_scheme", self.backup_scheme.as_str()));
        texts.push(text_member("device_id", self.device_id.as_str()));
        texts.push(text_member("device_name", self.device_name.as_str()));
        texts.push(text_member("kdf_nonce", self.kdf_nonce.as_str()));
        texts.push(text_member("operating_system", self.operating_system.as_str()));
        let mut numbers: Vec<(String, i64)> = Vec::new();
        numbers.push(number_member("backup_version", self.backup_version.value()));
        numbers.push(number_member("timestamp", self.timestamp));
        assert(texts.deep_view() =~= self@.texts());
        assert(numbers.deep_view() =~= self@.numbers());
        canonical_json_or_error(encode_object(&texts, &numbers))
    }
}

/// The record in plain values: what is written to the file beside the
/// archive, where the scheme and the operating system are their tags and the
/// version is an integer.
#[derive(Debug, Clone, PartialEq, Eq)]
pub struct PlainBackupMetadata {
    pub backup_scheme: String,
    pub backup_version: i64,
    pub timestamp: i64,
    pub device_id: String,
    pub device_name: String,
    pub operating_system: String,
    pub kdf_nonce: String,
}

/// The record in plain values, as contracts speak of it.
pub ghost struct PlainBackupMetadataView {
    pub backup_scheme: Seq<char>,
    pub backup_version: i64,
    pub timestamp: i64,
    pub device_id: Seq<char>,
    pub device_name: Seq<char>,
    pub operating_system: Seq<char>,
    pub kdf_nonce: Seq<char>,
}

impl View for PlainBackupMetadata {
    type V = PlainBackupMetadataView;

    open spec fn view(&self) -> PlainBackupMetadataView {
        PlainBackupMetadataView {
            backup_scheme: self.backup_scheme@,
            backup_version: self.backup_version,
            timestamp: self.timestamp,
            device_id: self.device_id@,
            device_name: self.device_name@,
            operating_system: self.operating_system@,
            kdf_nonce: self.kdf_nonce@,
        }
    }
}

impl PlainBackupMetadataView {
    /// The record that plain values stand for. A tag of no scheme or of no
    /// operating system and a negative version are fatal errors; the first
    /// that is found is reported, in the order scheme, version, operating
    /// system.
    pub open spec fn record(self) -> Result<BackupMetadataView, ErrorView> {
        match BackupScheme::of_tag(self.backup_scheme) {
            None => Err(
                ErrorView::Fatal { error: BackupScheme::unknown_tag_message(self.backup_scheme) },
            ),
            Some(backup_scheme) => match version_of_integer(self.backup_version as int) {
                Err(e) => Err(e),
                Ok(backup_version) => match OperatingSystem::of_tag(self.operating_system) {
                    None => Err(
                        ErrorView::Fatal {
                            error: OperatingSystem::unknown_tag_message(self.operating_system),
                        },
                    ),
                    Some(operating_system) => Ok(
                        BackupMetadataView {
                            backup_scheme,
                            backup_version,
                            timestamp: self.timestamp,
                            device_id: self.device_id,
                            device_name: self.device_name,
                            operating_system,
                            kdf_nonce: self.kdf_nonce,
                        },
                    ),
                },
            },
        }
    }
}

impl BackupMetadata {
    /// The record in plain values.
    pub fn to_plain(&self) -> (plain: PlainBackupMetadata)
        ensures
            plain@ == self@.plain(),
    {
        PlainBackupMetadata {
            backup_scheme: String::from_str(self.backup_scheme.as_str()),
            backup_version: self.backup_version.value(),
            timestamp: self.timestamp,
            device_id: String::from_str(self.device_id.as_str()),
            device_name: String::from_str(self.device_name.as_str()),
            operating_system: String::from_str(self.operating_system.as_str()),
            kdf_nonce: self.kdf_nonce.clone(),
        }
    }

    /// The record that plain values stand for.
    pub fn from_plain(plain: PlainBackupMetadata) -> (r: Result<BackupMetadata, Error>)
        ensures
            match plain@.record() {
                Ok(record) => r matches Ok(found) && found@ == record,
                Err(e) => r matches Err(failure) && failure@ == e,
            },
    {
        let backup_scheme = match BackupScheme::from_tag(plain.backup_scheme.as_str()) {
            Ok(backup_scheme) => backup_scheme,
            Err(e) => {
                return Err(e);
            },
        };
        let backup_version = match BackupVersion::try_from(plain.backup_version) {
            Ok(backup_version) => backup_version,
            Err(e) => {
                return Err(e);
            },
        };
        let operating_system = match OperatingSystem::from_tag(plain.operating_system.as_str()) {
            Ok(operating_system) => operating_system,
            Err(e) => {
                return Err(e);
            },
        };
        Ok(
            BackupMetadata {
                backup_scheme,
                backup_version,
                timestamp: plain.timestamp,
                device_id: DeviceIdentifier::new(plain.device_id),
                device_name: DeviceName::new(plain.device_name),
                operating_system,
                kdf_nonce: plain.kdf_nonce,
            },
        )
    }
}

/// A record comes back from its plain values as it was, field by field.
pub proof fn lemma_record_comes_back_from_plain(record: BackupMetadataView)
    requires
        record.valid(),
    ensures
        record.plain().record() == Ok::<BackupMetadataView, ErrorView>(record),
{
    record.backup_scheme.lemma_of_tag_inverts_tag();
    record.operating_system.lemma_of_tag_inverts_tag();
}

/// The name of a backup's archive reads back as what the record says of
/// timestamp, operating system, device id and version, wherever the timestamp
/// is not negative and the device id is a token.
pub proof fn lemma_record_reads_back_from_file_name(record: BackupMetadataView)
    requires
        record.valid(),
        record.timestamp >= 0,
        is_token(record.device_id),
    ensures
        metadata_of_file_name(record.file_name()) == Ok::<MetadataFromFileNameView, ErrorView>(
            record.in_file_name(),
        ),
{
    lemma_file_name_reads_back(
        record.backup_scheme,
        record.operating_system,
        record.timestamp as int,
        record.device_id,
        record.backup_version,
    );
}

/// Two records that are equal field by field have the same canonical
/// encoding.
pub proof fn lemma_equal_records_same_encoding(a: BackupMetadataView, b: BackupMetadataView)
    requires
        a == b,
    ensures
        a.canonical_json() == b.canonical_json(),
{
}

/// Two records that differ in a field differ in a member that is handed to
/// the encoder: no field is dropped or merged on the way to it.
pub proof fn lemma_members_determine_record(a: BackupMetadataView, b: BackupMetadataView)
    requires
        a.valid(),
        b.valid(),
        a.texts() == b.texts(),
        a.numbers() == b.numbers(),
    ensures
        a == b,
{
    a.backup_scheme.lemma_of_tag_inverts_tag();
    b.backup_scheme.lemma_of_tag_inverts_tag();
    a.operating_system.lemma_of_tag_inverts_tag();
    b.operating_system.lemma_of_tag_inverts_tag();
}

/// A record in the making: the fields that every record needs are given at
/// the start, the others may be set in any order, and those that are not set
/// get their default when the record is built.
#[derive(Debug)]
pub struct BackupMetadataBuilder {
    backup_scheme: BackupScheme,
    backup_version: BackupVersion,
    device_id: DeviceIdentifier,
    device_name: DeviceName,
    kdf_nonce: String,
    timestamp: Option<i64>,
    operating_system: Option<OperatingSystem>,
}

/// A record in the making, as contracts speak of it.
pub ghost struct BackupMetadataBuilderView {
    pub backup_scheme: BackupScheme,
    pub backup_version: int,
    pub device_id: Seq<char>,
    pub device_name: Seq<char>,
    pub kdf_nonce: Seq<char>,
    pub timestamp: Option<i64>,
    pub operating_system: Option<OperatingSystem>,
}

impl BackupMetadataBuilderView {
    /// The builder after the timestamp was set.
    pub open spec fn with_timestamp(self, timestamp: i64) -> BackupMetadataBuilderView {
        BackupMetadataBuilderView { timestamp: Some(timestamp), ..self }
    }

    /// The builder after the operating system was set.
    pub open spec fn with_operating_system(
        self,
        operating_system: OperatingSystem,
    ) -> BackupMetadataBuilderView {
        BackupMetadataBuilderView { operating_system: Some(operating_system), ..self }
    }

    /// The record that is built: `now` and `host` stand in for a timestamp
    /// and an operating system that were not set.
    pub open spec fn built(self, now: i64, host: OperatingSystem) -> BackupMetadataView {
        BackupMetadataView {
            backup_scheme: self.backup_scheme,
            backup_version: self.backup_version,
            timestamp: match self.timestamp {
                Some(timestamp) => timestamp,
                None => now,
            },
            device_id: self.device_id,
            device_name: self.device_name,
            operating_system: match self.operating_system {
                Some(operating_system) => operating_system,
                None => host,
            },
            kdf_nonce: self.kdf_nonce,
        }
    }
}

impl View for BackupMetadataBuilder {
    type V = BackupMetadataBuilderView;

    closed spec fn view(&self) -> BackupMetadataBuilderView {
        BackupMetadataBuilderView {
            backup_scheme: self.backup_scheme,
            backup_version: self.backup_version@,
            device_id: self.device_id@,
            device_name: self.device_name@,
            kdf_nonce: self.kdf_nonce@,
            timestamp: self.timestamp,
            operating_system: self.operating_system,
        }
    }
}

impl BackupMetadataBuilder {
    /// Sets the unix time at which the backup was made.
    pub fn timestamp(self, timestamp: i64) -> (builder: BackupMetadataBuilder)
        ensures
            builder@ == self@.with_timestamp(timestamp),
    {
        BackupMetadataBuilder { timestamp: Some(timestamp), ..self }
    }

    /// Sets the operating system of the device.
    pub fn operating_system(self, operating_system: OperatingSystem) -> (builder:
        BackupMetadataBuilder)
        ensures
            builder@ == self@.with_operating_system(operating_system),
    {
        BackupMetadataBuilder { operating_system: Some(operating_system), ..self }
    }

    /// Builds the record. `now` is the current unix time and `host` the
    /// operating system of this device: the defaults of the two fields that
    /// need not be set.
    pub fn build(self, now: i64, host: OperatingSystem) -> (record: BackupMetadata)
        ensures
            record@ == self@.built(now, host),
    {
        BackupMetadata {
            backup_scheme: self.backup_scheme,
            backup_version: self.backup_version,
            timestamp: match self.timestamp {
                Some(timestamp) => timestamp,
                None => now,
            },
            device_id: self.device_id,
            device_name: self.device_name,
            operating_system: match self.operating_system {
                Some(operating_system) => operating_system,
                None => host,
            },
            kdf_nonce: self.kdf_nonce,
        }
    }
}

impl BackupMetadata {
    /// Starts a record with the fields that every record needs.
    pub fn builder(
        backup_scheme: BackupScheme,
        backup_version: BackupVersion,
        device_id: DeviceIdentifier,
        device_name: DeviceName,
        kdf_nonce: String,
    ) -> (builder: BackupMetadataBuilder)
        ensures
            builder@ == (BackupMetadataBuilderView {
                backup_scheme,
                backup_version: backup_version@,
                device_id: device_id@,
                device_name: device_name@,
                kdf_nonce: kdf_nonce@,
                timestamp: None,
                operating_system: None,
            }),
    {
        BackupMetadataBuilder {
            backup_scheme,
            backup_version,
            device_id,
            device_name,
            kdf_nonce,
            timestamp: None,
            operating_system: None,
        }
    }
}

/// The order in which the fields of a record are set does not change the
/// record, nor its canonical encoding.
pub proof fn lemma_assignment_order_is_irrelevant(
    builder: BackupMetadataBuilderView,
    timestamp: i64,
    operating_system: OperatingSystem,
    now: i64,
    host: OperatingSystem,
)
    ensures
        builder.with_timestamp(timestamp).with_operating_system(operating_system)
            == builder.with_operating_system(operating_system).with_timestamp(timestamp),
        builder.with_timestamp(timestamp).with_operating_system(operating_system).built(
            now,
            host,
        ).canonical_json() == builder.with_operating_system(operating_system).with_timestamp(
            timestamp,
        ).built(now, host).canonical_json(),
{
}

} // verus!
