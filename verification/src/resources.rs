//! What the library needs from its surroundings: the local settings, the
//! device and the place where backups are stored.

use vstd::prelude::*;

use crate::backup::version::BackupVersion;
use crate::device::DeviceIdentifier;
use crate::error::Error;

verus! {

/// The place where backups are stored, off the device. Every operation says
/// with `false` that it did not happen: none of them fails in another way.
pub trait CoreBackupStorageI {
    /// Whether backups can be stored at all.
    fn can_backup(&self) -> bool;

    /// Whether a file of that name is in storage.
    fn is_uploaded(&self, backup_file_name: String) -> bool;

    /// The names of the files in storage.
    fn list_backup_file_names(&self) -> Vec<String>;

    /// Copies a local file to storage under the given name.
    fn copy_to_storage(&self, backup_file_name: String, tmp_file_path: String) -> bool;

    /// Copies a file from storage to a local path.
    fn copy_from_storage(&self, backup_file_name: String, to_file_path: String) -> bool;

    /// Deletes a file from storage.
    fn delete_backup(&self, backup_file_name: String) -> bool;
}

/// What the local settings say of the last backup.
#[derive(Debug, Clone, PartialEq, Eq)]
pub struct LastBackup {
    /// The version of the last backup.
    pub backup_version: BackupVersion,
    /// When the last backup was made, as an RFC 3339 date and time; `None`
    /// where no backup was ever made.
    pub backup_timestamp: Option<String>,
}

/// What the local settings say of the last backup, as contracts speak of it.
pub ghost struct LastBackupView {
    pub backup_version: int,
    pub backup_timestamp: Option<Seq<char>>,
}

impl View for LastBackup {
    type V = LastBackupView;

    open spec fn view(&self) -> LastBackupView {
        LastBackupView {
            backup_version: self.backup_version@,
            backup_timestamp: match self.backup_timestamp {
                Some(timestamp) => Some(timestamp@),
                None => None,
            },
        }
    }
}

/// The local settings, read through one connection to the database.
pub trait LocalSettingsI {
    /// When the last backup was made, as an RFC 3339 date and time; `None`
    /// where no backup was ever made.
    fn fetch_backup_timestamp(&self) -> Result<Option<String>, Error>;

    /// The version of the last backup.
    fn fetch_backup_version(&self) -> Result<BackupVersion, Error>;
}

/// The connections to the local database.
pub trait ConnectionPoolI {
    type Connection: LocalSettingsI;

    /// Runs `callback` inside a deferred transaction and returns what it
    /// returned, or the error of the database. The transaction takes its
    /// lock with the first read, so it does not hold up writers before.
    fn deferred_transaction<T, F: FnOnce(&Self::Connection) -> Result<T, Error>>(
        &self,
        callback: F,
    ) -> Result<T, Error>
        requires
            forall|connection: &Self::Connection| callback.requires((connection,)),
    ;
}

/// The surroundings of the library.
pub trait CoreResourcesI {
    type ConnectionPool: ConnectionPoolI;

    type BackupStorage: CoreBackupStorageI;

    /// The connections to the local database.
    fn connection_pool(&self) -> &Self::ConnectionPool;

    /// The identifier of this device.
    fn device_id(&self) -> &DeviceIdentifier;

    /// The place where backups are stored.
    fn backup_storage(&self) -> &Self::BackupStorage;
}

} // verus!
