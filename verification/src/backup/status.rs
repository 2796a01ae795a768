//! Whether the last backup is safe: recorded on this device and found in
//! storage.

use vstd::prelude::*;

use crate::backup::file_name::{file_name_of_backup, get_backup_file_name};
use crate::backup::scheme::BackupScheme;
use crate::backup::version::BackupVersion;
use crate::device::{DeviceIdentifier, OperatingSystem};
use crate::error::{Error, ErrorView};
use crate::mocks::CoreBackupStorageMock;
use crate::resources::{
    ConnectionPoolI, CoreBackupStorageI, CoreResourcesI, LastBackup, LastBackupView,
    LocalSettingsI,
};
use crate::utils::{parse_rfc3339_timestamp, unix_seconds_of};

verus! {

/// The file that has to be in storage for the last backup to count, with the
/// backup's unix time: `None` where no backup was recorded.
pub open spec fn expected_upload(
    record: LastBackupView,
    device_id: Seq<char>,
    os: OperatingSystem,
) -> Result<Option<(i64, Seq<char>)>, ErrorView> {
    match record.backup_timestamp {
        None => Ok(None),
        Some(datestamp) => match unix_seconds_of(datestamp) {
            Err(e) => Err(e),
            Ok(timestamp) => Ok(
                Some(
                    (
                        timestamp,
                        file_name_of_backup(
                            BackupScheme::V1,
                            os,
                            timestamp as int,
                            device_id,
                            record.backup_version,
                        ),
                    ),
                ),
            ),
        },
    }
}

/// Finds the file that has to be in storage for the last backup to count,
/// and the backup's unix time. The local record is trusted for the name.
pub fn expected_backup_file(
    record: &LastBackup,
    device_id: &DeviceIdentifier,
    os: &OperatingSystem,
) -> (r: Result<Option<(i64, String)>, Error>)
    ensures
        match expected_upload(record@, device_id@, *os) {
            Ok(Some(expected)) => r matches Ok(Some(found)) && found.0 == expected.0 && found.1@
                == expected.1,
            Ok(None) => r matches Ok(None),
            Err(e) => r matches Err(failure) && failure@ == e,
        },
{
    match &record.backup_timestamp {
        None => Ok(None),
        Some(datestamp) => {
            let timestamp: i64 = match parse_rfc3339_timestamp(datestamp.as_str()) {
                Ok(timestamp) => timestamp,
                Err(e) => {
                    return Err(e);
                },
            };
            let backup_file_name = get_backup_file_name(
                BackupScheme::V1,
                os,
                timestamp,
                device_id,
                record.backup_version,
            );
            Ok(Some((timestamp, backup_file_name)))
        },
    }
}

/// Whether the last backup counts: only where storage has its file. The local
/// record is not trusted for that.
pub fn confirmed_backup(timestamp: i64, is_uploaded: bool) -> (r: Option<i64>)
    ensures
        r == if is_uploaded {
            Some(timestamp)
        } else {
            None
        },
{
    if is_uploaded {
        Some(timestamp)
    } else {
        None
    }
}

/// Whether `r` is what reading the last backup through `connection` gives,
/// once the timestamp has been read as `timestamp`: its error, or else the
/// error of reading the version, or else the two values together.
pub open spec fn is_read_after_timestamp<C: LocalSettingsI>(
    connection: &C,
    timestamp: Result<Option<String>, Error>,
    r: Result<LastBackup, Error>,
) -> bool {
    match timestamp {
        Err(e) => r == Err::<LastBackup, Error>(e),
        Ok(backup_timestamp) => exists|version: Result<BackupVersion, Error>|
            #[trigger] call_ensures(C::fetch_backup_version, (connection,), version)
                && match version {
                Err(e) => r == Err::<LastBackup, Error>(e),
                Ok(backup_version) => r == Ok::<LastBackup, Error>(
                    LastBackup { backup_version, backup_timestamp },
                ),
            },
    }
}

/// Whether `r` is what reading the last backup through `connection` gives:
/// the timestamp is read first and the version second, both as the
/// connection answers, and the first error ends the reading.
pub open spec fn is_last_backup_read<C: LocalSettingsI>(
    connection: &C,
    r: Result<LastBackup, Error>,
) -> bool {
    exists|timestamp: Result<Option<String>, Error>|
        #[trigger] call_ensures(C::fetch_backup_timestamp, (connection,), timestamp)
            && is_read_after_timestamp(connection, timestamp, r)
}

/// Reads what the local settings say of the last backup. Both values are
/// read through the same connection: inside one transaction they belong to
/// the same backup, even while another is being recorded.
pub fn fetch_last_backup<C: LocalSettingsI>(connection: &C) -> (r: Result<LastBackup, Error>)
    ensures
        is_last_backup_read(connection, r),
{
    let timestamp = connection.fetch_backup_timestamp();
    let backup_timestamp = match timestamp {
        Ok(backup_timestamp) => backup_timestamp,
        Err(e) => {
            assert(is_read_after_timestamp(connection, timestamp, Err(e)));
            return Err(e);
        },
    };
    let version = connection.fetch_backup_version();
    let r = match version {
        Ok(backup_version) => Ok(LastBackup { backup_version, backup_timestamp }),
        Err(e) => Err(e),
    };
    assert(is_read_after_timestamp(connection, timestamp, r));
    r
}

/// Whether `r` is what the resolver returns once it knows which file has to
/// be in storage: the error of a recorded time that is no date; `None` where
/// no backup was recorded; else what the storage of `resources` answered when
/// it was asked for the file of that name, `Some` with the backup's time
/// where it said yes and `None` where it said no.
pub open spec fn is_confirmed_by_storage<R: CoreResourcesI>(
    resources: &R,
    expected: Result<Option<(i64, Seq<char>)>, ErrorView>,
    r: Result<Option<i64>, Error>,
) -> bool {
    match expected {
        Err(e) => r matches Err(failure) && failure@ == e,
        Ok(None) => r == Ok::<Option<i64>, Error>(None),
        Ok(Some(upload)) => exists|
            storage: &R::BackupStorage,
            backup_file_name: String,
            is_uploaded: bool,
        |
            call_ensures(R::backup_storage, (resources,), storage) && backup_file_name@
                == upload.1 && #[trigger] call_ensures(
                <R::BackupStorage as CoreBackupStorageI>::is_uploaded,
                (storage, backup_file_name),
                is_uploaded,
            ) && r == Ok::<Option<i64>, Error>(
                if is_uploaded {
                    Some(upload.0)
                } else {
                    None
                },
            ),
    }
}

/// Whether `r` is what the resolver returns where the transaction on the
/// local settings gave `fetched`: its error; else what follows from the
/// record, from the device identifier that `resources` gave, and from the
/// answer of its storage.
pub open spec fn is_resolved<R: CoreResourcesI>(
    resources: &R,
    os: OperatingSystem,
    fetched: Result<LastBackup, Error>,
    r: Result<Option<i64>, Error>,
) -> bool {
    match fetched {
        Err(e) => r == Err::<Option<i64>, Error>(e),
        Ok(record) => exists|device_id: &DeviceIdentifier| #[trigger]
            call_ensures(R::device_id, (resources,), device_id) && is_confirmed_by_storage(
                resources,
                expected_upload(record@, device_id@, os),
                r,
            ),
    }
}

/// Whether `fetched` is what one deferred transaction on the connections of
/// `resources` returned for reading the last backup inside it.
pub open spec fn is_fetched_in_one_transaction<R: CoreResourcesI>(
    resources: &R,
    fetched: Result<LastBackup, Error>,
) -> bool {
    exists|pool: &R::ConnectionPool|
        call_ensures(R::connection_pool, (resources,), pool) && #[trigger] call_ensures(
            <R::ConnectionPool as ConnectionPoolI>::deferred_transaction::<LastBackup, _>,
            (pool, fetch_last_backup::<<R::ConnectionPool as ConnectionPoolI>::Connection>),
            fetched,
        )
}

/// The unix time of the last backup, if there is one and it is in storage.
/// `None` where no backup was made or the last one has not reached storage
/// yet. `os` is the operating system of this device: it is part of the file
/// name that storage is asked about.
///
/// The local settings are read inside one deferred transaction. The storage
/// is asked after the transaction has ended: the answer may take long, and
/// no transaction is held open for it.
///
/// The local settings and the storage answer as they please, so the result is
/// stated for what they answered: for what the one transaction returned that
/// ran `fetch_last_backup`, for the device identifier that the resources
/// gave, and for what their storage answered for the expected file.
pub fn last_uploaded_backup<R: CoreResourcesI>(resources: &R, os: &OperatingSystem) -> (r: Result<
    Option<i64>,
    Error,
>)
    ensures
        exists|fetched: Result<LastBackup, Error>|
            is_fetched_in_one_transaction(resources, fetched) && #[trigger] is_resolved(
                resources,
                *os,
                fetched,
                r,
            ),
{
    let pool = resources.connection_pool();
    let fetched = pool.deferred_transaction(
        fetch_last_backup::<<R::ConnectionPool as ConnectionPoolI>::Connection>,
    );
    assert(is_fetched_in_one_transaction(resources, fetched));
    let record = match fetched {
        Ok(record) => record,
        Err(e) => {
            assert(is_resolved(resources, *os, fetched, Err(e)));
            return Err(e);
        },
    };
    let device_id = resources.device_id();
    let ghost expected = expected_upload(record@, device_id@, *os);
    match expected_backup_file(&record, device_id, os) {
        Err(e) => {
            assert(is_confirmed_by_storage(resources, expected, Err(e)));
            assert(is_resolved(resources, *os, fetched, Err(e)));
            Err(e)
        },
        Ok(None) => {
            assert(is_confirmed_by_storage(resources, expected, Ok(None)));
            assert(is_resolved(resources, *os, fetched, Ok(None)));
            Ok(None)
        },
        Ok(Some((timestamp, backup_file_name))) => {
            let storage = resources.backup_storage();
            let ghost asked = backup_file_name;
            let is_uploaded = storage.is_uploaded(backup_file_name);
            let confirmed = confirmed_backup(timestamp, is_uploaded);
            assert(call_ensures(
                <R::BackupStorage as CoreBackupStorageI>::is_uploaded,
                (storage, asked),
                is_uploaded,
            ));
            assert(is_confirmed_by_storage(resources, expected, Ok(confirmed)));
            assert(is_resolved(resources, *os, fetched, Ok(confirmed)));
            Ok(confirmed)
        },
    }
}

/// With a storage that holds nothing the resolver confirms no backup: it
/// returns no time, whatever the local settings say.
pub proof fn lemma_empty_storage_confirms_nothing<
    R: CoreResourcesI<BackupStorage = CoreBackupStorageMock>,
>(resources: &R, os: OperatingSystem, fetched: Result<LastBackup, Error>, r: Result<
    Option<i64>,
    Error,
>)
    requires
        is_resolved(resources, os, fetched, r),
    ensures
        !(r matches Ok(Some(_))),
{
}

} // verus!
