//! Backup file names: how the archive of a backup is named, and what a name
//! says of the backup.

use vstd::prelude::*;
use vstd::string::*;

use crate::backup::grammar::{
    lemma_parts_of_file_name, parts_of, prefix, separator, split_file_name, suffix, FieldBounds,
    FileNameParts,
};
use crate::backup::scheme::BackupScheme;
use crate::backup::version::BackupVersion;
use crate::device::{DeviceIdentifier, OperatingSystem};
use crate::error::{Error, ErrorView};
use crate::text::{
    chars_of, is_digit, is_number, is_token, lemma_decimal_is_number,
    lemma_number_value_of_decimal, number_value, push_signed_decimal, read_number,
    signed_decimal, string_of_range,
};

verus! {

/// The name of the archive of a backup.
pub open spec fn file_name_of_backup(
    scheme: BackupScheme,
    os: OperatingSystem,
    timestamp: int,
    device_id: Seq<char>,
    version: int,
) -> Seq<char> {
    prefix() + scheme.tag() + separator() + os.tag() + separator() + signed_decimal(timestamp)
        + separator() + device_id + separator() + signed_decimal(version) + suffix()
}

/// Names the archive of a backup: the five fields in their notation, between
/// the fixed prefix and suffix.
pub fn get_backup_file_name(
    backup_scheme: BackupScheme,
    os: &OperatingSystem,
    timestamp: i64,
    device_id: &DeviceIdentifier,
    backup_version: BackupVersion,
) -> (name: String)
    ensures
        name@ == file_name_of_backup(
            backup_scheme,
            *os,
            timestamp as int,
            device_id@,
            backup_version@,
        ),
{
    let mut name = String::from_str("sealvault_backup_");
    name.append(backup_scheme.as_str());
    name.append("_");
    name.append(os.as_str());
    name.append("_");
    push_signed_decimal(&mut name, timestamp);
    name.append("_");
    name.append(device_id.as_str());
    name.append("_");
    push_signed_decimal(&mut name, backup_version.value());
    name.append(".zip");
    proof {
        reveal_strlit("_");
    }
    name
}

/// What a backup file name says of the backup.
#[derive(Debug, PartialEq)]
pub struct MetadataFromFileName {
    pub timestamp: i64,
    pub os: OperatingSystem,
    pub device_id: DeviceIdentifier,
    pub backup_version: BackupVersion,
}

/// What a backup file name says of the backup, as contracts speak of it.
pub ghost struct MetadataFromFileNameView {
    pub timestamp: int,
    pub os: OperatingSystem,
    pub device_id: Seq<char>,
    pub backup_version: int,
}

impl View for MetadataFromFileName {
    type V = MetadataFromFileNameView;

    open spec fn view(&self) -> MetadataFromFileNameView {
        MetadataFromFileNameView {
            timestamp: self.timestamp as int,
            os: self.os,
            device_id: self.device_id@,
            backup_version: self.backup_version@,
        }
    }
}

/// What is said of a string that is no backup file name.
pub open spec fn invalid_format_message(name: Seq<char>) -> Seq<char> {
    "Invalid backup file name format: '"@ + name + "'"@
}

/// What is said of a timestamp or version that is too large.
pub open spec fn number_too_large_message(field: Seq<char>) -> Seq<char> {
    "Number too large in backup file name: '"@ + field + "'"@
}

/// The number that a field writes. One above the largest 64-bit signed
/// integer is a fatal error.
pub open spec fn number_of_field(field: Seq<char>) -> Result<i64, ErrorView> {
    if number_value(field) > i64::MAX {
        Err(ErrorView::Fatal { error: number_too_large_message(field) })
    } else {
        Ok(number_value(field) as i64)
    }
}

/// What the fields of a backup file name say of the backup. The scheme is
/// not read: it is a token, and nothing more is asked of it.
pub open spec fn metadata_of_parts(parts: FileNameParts) -> Result<
    MetadataFromFileNameView,
    ErrorView,
> {
    match number_of_field(parts.timestamp) {
        Err(e) => Err(e),
        Ok(timestamp) => match OperatingSystem::of_tag(parts.os) {
            None => Err(ErrorView::Fatal { error: OperatingSystem::unknown_tag_message(parts.os) }),
            Some(os) => match number_of_field(parts.version) {
                Err(e) => Err(e),
                Ok(version) => Ok(
                    MetadataFromFileNameView {
                        timestamp: timestamp as int,
                        os,
                        device_id: parts.device_id,
                        backup_version: version as int,
                    },
                ),
            },
        },
    }
}

/// What a string says of a backup, read as a backup file name. Every failure
/// is fatal: a string that is no backup file name, a timestamp or a version
/// above the largest 64-bit signed integer, a tag of no operating system.
pub open spec fn metadata_of_file_name(name: Seq<char>) -> Result<
    MetadataFromFileNameView,
    ErrorView,
> {
    match parts_of(name) {
        None => Err(ErrorView::Fatal { error: invalid_format_message(name) }),
        Some(parts) => metadata_of_parts(parts),
    }
}

/// A result as contracts speak of it.
pub open spec fn metadata_result_view(r: Result<MetadataFromFileName, Error>) -> Result<
    MetadataFromFileNameView,
    ErrorView,
> {
    match r {
        Ok(metadata) => Ok(metadata@),
        Err(e) => Err(e@),
    }
}

fn quoted(before: &str, text: &str) -> (message: String)
    ensures
        message@ == before@ + text@ + "'"@,
{
    let mut message = String::from_str(before);
    message.append(text);
    message.append("'");
    message
}

/// Reads the number that the digits from `start` up to `end` write.
fn number_field(chars: &Vec<char>, start: usize, end: usize) -> (r: Result<i64, Error>)
    requires
        start <= end <= chars.len(),
        is_number(chars@.subrange(start as int, end as int)),
    ensures
        match number_of_field(chars@.subrange(start as int, end as int)) {
            Ok(value) => r == Ok::<i64, Error>(value),
            Err(e) => r matches Err(failure) && failure@ == e,
        },
{
    let ghost field = chars@.subrange(start as int, end as int);
    assert forall|k: int| start <= k < end implies is_digit(#[trigger] chars@[k]) by {
        assert(chars@[k] == field[k - start]);
    }
    match read_number(chars, start, end, 0x7fff_ffff_ffff_ffffu64) {
        Some(value) => Ok(value as i64),
        None => {
            let text = string_of_range(chars, start, end);
            Err(
                Error::Fatal {
                    error: quoted("Number too large in backup file name: '", text.as_str()),
                },
            )
        },
    }
}

/// Reads what the fields at `bounds` say of the backup.
fn read_fields(chars: &Vec<char>, bounds: &FieldBounds) -> (r: Result<MetadataFromFileName, Error>)
    requires
        bounds@.within(chars@),
        bounds@.cut(chars@).well_formed(),
    ensures
        metadata_result_view(r) == metadata_of_parts(bounds@.cut(chars@)),
{
    let timestamp: i64 = match number_field(chars, bounds.timestamp.0, bounds.timestamp.1) {
        Ok(timestamp) => timestamp,
        Err(e) => {
            return Err(e);
        },
    };
    let os_tag = string_of_range(chars, bounds.os.0, bounds.os.1);
    let os = match OperatingSystem::from_tag(os_tag.as_str()) {
        Ok(os) => os,
        Err(e) => {
            return Err(e);
        },
    };
    let device_id = DeviceIdentifier::new(
        string_of_range(chars, bounds.device_id.0, bounds.device_id.1),
    );
    let version: i64 = match number_field(chars, bounds.version.0, bounds.version.1) {
        Ok(version) => version,
        Err(e) => {
            return Err(e);
        },
    };
    match BackupVersion::try_from(version) {
        Ok(backup_version) => Ok(MetadataFromFileName { timestamp, os, device_id, backup_version }),
        Err(e) => Err(e),
    }
}

impl MetadataFromFileName {
    /// Reads what a backup file name says of the backup.
    pub fn from_str(file_name: &str) -> (r: Result<MetadataFromFileName, Error>)
        ensures
            metadata_result_view(r) == metadata_of_file_name(file_name@),
    {
        let chars = chars_of(file_name);
        match split_file_name(&chars) {
            Some(bounds) => read_fields(&chars, &bounds),
            None => Err(
                Error::Fatal { error: quoted("Invalid backup file name format: '", file_name) },
            ),
        }
    }
}

/// The name of a backup's archive reads back as the backup's timestamp,
/// operating system, device id and version, and carries the scheme's tag,
/// wherever the timestamp is not negative and the device id is a token.
pub proof fn lemma_file_name_reads_back(
    scheme: BackupScheme,
    os: OperatingSystem,
    timestamp: int,
    device_id: Seq<char>,
    version: int,
)
    requires
        0 <= timestamp <= i64::MAX,
        0 <= version <= i64::MAX,
        is_token(device_id),
    ensures
        metadata_of_file_name(file_name_of_backup(scheme, os, timestamp, device_id, version))
            == Ok::<MetadataFromFileNameView, ErrorView>(
            MetadataFromFileNameView { timestamp, os, device_id, backup_version: version },
        ),
        parts_of(file_name_of_backup(scheme, os, timestamp, device_id, version)) matches Some(
            parts,
        ) && parts.scheme == scheme.tag(),
{
    let parts = FileNameParts {
        scheme: scheme.tag(),
        os: os.tag(),
        timestamp: signed_decimal(timestamp),
        device_id,
        version: signed_decimal(version),
    };
    scheme.lemma_tag_is_token();
    os.lemma_tag_is_token();
    os.lemma_of_tag_inverts_tag();
    lemma_decimal_is_number(timestamp as nat);
    lemma_decimal_is_number(version as nat);
    lemma_number_value_of_decimal(timestamp as nat);
    lemma_number_value_of_decimal(version as nat);
    lemma_parts_of_file_name(parts);
}

impl core::str::FromStr for MetadataFromFileName {
    type Err = Error;

    fn from_str(file_name: &str) -> (r: Result<MetadataFromFileName, Error>)
        ensures
            metadata_result_view(r) == metadata_of_file_name(file_name@),
    {
        MetadataFromFileName::from_str(file_name)
    }
}

} // verus!
