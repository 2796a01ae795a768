//! Stand-ins for what surrounds the library, for development and for tests: a
//! storage that holds nothing, and callbacks that do nothing.

use vstd::prelude::*;
use vstd::string::*;

use crate::resources::CoreBackupStorageI;

verus! {

/// A receiver of the results that are shown to the user. It drops them.
#[derive(Debug, Default)]
pub struct CoreUICallBackMock {}

impl CoreUICallBackMock {
    /// A receiver that drops what it gets.
    pub fn new() -> (mock: CoreUICallBackMock)
        ensures
            mock == (CoreUICallBackMock {  }),
    {
        CoreUICallBackMock {  }
    }
}

/// A receiver of what is sent back to a page. It drops it.
#[derive(Debug, Clone)]
pub struct CoreInPageCallbackMock {}

impl CoreInPageCallbackMock {
    /// A receiver that drops what it gets.
    pub fn new() -> (mock: CoreInPageCallbackMock)
        ensures
            mock == (CoreInPageCallbackMock {  }),
    {
        CoreInPageCallbackMock {  }
    }
}

/// The page that a request comes from, with the callbacks for the answer.
#[derive(Debug)]
pub struct InPageRequestContextMock {
    pub page_url: String,
    pub callbacks: Box<CoreInPageCallbackMock>,
}

impl InPageRequestContextMock {
    /// A request that comes from the page at `page_url`.
    pub fn new(page_url: &str) -> (mock: InPageRequestContextMock)
        ensures
            mock.page_url@ == page_url@,
            *mock.callbacks == (CoreInPageCallbackMock {  }),
    {
        InPageRequestContextMock {
            page_url: String::from_str(page_url),
            callbacks: Box::new(CoreInPageCallbackMock::new()),
        }
    }

    /// The URL of the page.
    pub fn page_url(&self) -> (url: String)
        ensures
            url@ == self.page_url@,
    {
        self.page_url.clone()
    }

    /// The callbacks for the answer.
    pub fn callbacks(&self) -> (callbacks: Box<CoreInPageCallbackMock>)
        ensures
            *callbacks == (CoreInPageCallbackMock {  }),
    {
        self.callbacks.clone()
    }
}

/// A storage that holds nothing and takes nothing: no file is ever in it, and
/// every operation says that it did not happen.
#[derive(Debug, Clone)]
pub struct CoreBackupStorageMock {}

impl CoreBackupStorageMock {
    /// A storage that holds nothing.
    pub fn new() -> (mock: CoreBackupStorageMock)
        ensures
            mock == (CoreBackupStorageMock {  }),
    {
        CoreBackupStorageMock {  }
    }
}

impl CoreBackupStorageI for CoreBackupStorageMock {
    fn can_backup(&self) -> (able: bool)
        ensures
            !able,
    {
        false
    }

    fn is_uploaded(&self, backup_file_name: String) -> (uploaded: bool)
        ensures
            !uploaded,
    {
        false
    }

    fn list_backup_file_names(&self) -> (names: Vec<String>)
        ensures
            names@.len() == 0,
    {
        Vec::new()
    }

    fn copy_to_storage(&self, backup_file_name: String, tmp_file_path: String) -> (copied: bool)
        ensures
            !copied,
    {
        false
    }

    fn copy_from_storage(&self, backup_file_name: String, to_file_path: String) -> (copied: bool)
        ensures
            !copied,
    {
        false
    }

    fn delete_backup(&self, backup_file_name: String) -> (deleted: bool)
        ensures
            !deleted,
    {
        false
    }
}

} // verus!
