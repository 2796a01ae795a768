//! The device that makes a backup: its identifier, its display name, its operating system.

use vstd::prelude::*;
use vstd::string::*;

use crate::error::{Error, ErrorView};
use crate::text::is_token;

verus! {

/// Identifies one device. Part of a backup's file name.
#[derive(Debug, Clone, PartialEq, Eq, Hash)]
pub struct DeviceIdentifier(pub String);

impl View for DeviceIdentifier {
    type V = Seq<char>;

    open spec fn view(&self) -> Seq<char> {
        self.0@
    }
}

impl DeviceIdentifier {
    /// The identifier that `id` writes.
    pub fn new(id: String) -> (d: DeviceIdentifier)
        ensures
            d@ == id@,
    {
        DeviceIdentifier(id)
    }

    /// The identifier as a string.
    pub fn as_str(&self) -> (s: &str)
        ensures
            s@ == self@,
    {
        self.0.as_str()
    }
}

/// What the user calls the device. Kept in the metadata only, never in a file name.
#[derive(Debug, Clone, PartialEq, Eq, Hash)]
pub struct DeviceName(pub String);

impl View for DeviceName {
    type V = Seq<char>;

    open spec fn view(&self) -> Seq<char> {
        self.0@
    }
}

impl DeviceName {
    /// The name that `name` writes.
    pub fn new(name: String) -> (d: DeviceName)
        ensures
            d@ == name@,
    {
        DeviceName(name)
    }

    /// The name as a string.
    pub fn as_str(&self) -> (s: &str)
        ensures
            s@ == self@,
    {
        self.0.as_str()
    }
}

/// The operating systems that a backup can come from.
#[derive(Debug, Clone, Copy, PartialEq, Eq, Hash, Structural)]
pub enum OperatingSystem {
    Android,
    Ios,
    Linux,
    MacOs,
    Windows,
}

impl OperatingSystem {
    /// The tag that stands for the operating system in file names and metadata.
    pub open spec fn tag(self) -> Seq<char> {
        match self {
            OperatingSystem::Android => "android"@,
            OperatingSystem::Ios => "ios"@,
            OperatingSystem::Linux => "linux"@,
            OperatingSystem::MacOs => "macos"@,
            OperatingSystem::Windows => "windows"@,
        }
    }

    /// The operating system that a tag stands for, if any.
    pub open spec fn of_tag(tag: Seq<char>) -> Option<OperatingSystem> {
        if tag == "android"@ {
            Some(OperatingSystem::Android)
        } else if tag == "ios"@ {
            Some(OperatingSystem::Ios)
        } else if tag == "linux"@ {
            Some(OperatingSystem::Linux)
        } else if tag == "macos"@ {
            Some(OperatingSystem::MacOs)
        } else if tag == "windows"@ {
            Some(OperatingSystem::Windows)
        } else {
            None
        }
    }

    /// What `from_tag` says of a tag that stands for no operating system.
    pub open spec fn unknown_tag_message(tag: Seq<char>) -> Seq<char> {
        "Unknown operating system: '"@ + tag + "'"@
    }

    /// The tag of the operating system.
    pub fn as_str(&self) -> (s: &'static str)
        ensures
            s@ == self.tag(),
    {
        match self {
            OperatingSystem::Android => "android",
            OperatingSystem::Ios => "ios",
            OperatingSystem::Linux => "linux",
            OperatingSystem::MacOs => "macos",
            OperatingSystem::Windows => "windows",
        }
    }

    /// Reads an operating system from its tag. Any other string is a fatal error.
    pub fn from_tag(tag: &str) -> (r: Result<OperatingSystem, Error>)
        ensures
            match r {
                Ok(os) => Self::of_tag(tag@) == Some(os),
                Err(e) => Self::of_tag(tag@) is None && e@ == (ErrorView::Fatal {
                    error: Self::unknown_tag_message(tag@),
                }),
            },
    {
        let owned = String::from_str(tag);
        if owned == String::from_str("android") {
            Ok(OperatingSystem::Android)
        } else if owned == String::from_str("ios") {
            Ok(OperatingSystem::Ios)
        } else if owned == String::from_str("linux") {
            Ok(OperatingSystem::Linux)
        } else if owned == String::from_str("macos") {
            Ok(OperatingSystem::MacOs)
        } else if owned == String::from_str("windows") {
            Ok(OperatingSystem::Windows)
        } else {
            let mut message = String::from_str("Unknown operating system: '");
            message.append(tag);
            message.append("'");
            Err(Error::Fatal { error: message })
        }
    }

    /// Every tag is a token of the file-name grammar.
    pub proof fn lemma_tag_is_token(self)
        ensures
            is_token(self.tag()),
    {
        reveal_strlit("android");
        reveal_strlit("ios");
        reveal_strlit("linux");
        reveal_strlit("macos");
        reveal_strlit("windows");
    }

    /// A tag stands for the operating system that it was made from, and for no other.
    pub proof fn lemma_of_tag_inverts_tag(self)
        ensures
            Self::of_tag(self.tag()) == Some(self),
    {
        reveal_strlit("android");
        reveal_strlit("ios");
        reveal_strlit("linux");
        reveal_strlit("macos");
        reveal_strlit("windows");
        assert("linux"@[0] == 'l');
        assert("macos"@[0] == 'm');
        assert("android"@[0] == 'a');
        assert("windows"@[0] == 'w');
    }
}

} // verus!
