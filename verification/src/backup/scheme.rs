//! The backup scheme: which edition of the backup format an archive follows.

use vstd::prelude::*;
use vstd::string::*;

use crate::error::{Error, ErrorView};
use crate::text::is_token;

verus! {

/// The editions of the backup format. There is one so far.
#[derive(Debug, Clone, Copy, PartialEq, Eq, Hash, Structural)]
pub enum BackupScheme {
    V1,
}

impl BackupScheme {
    /// The tag that stands for the scheme in file names and metadata.
    pub open spec fn tag(self) -> Seq<char> {
        match self {
            BackupScheme::V1 => "v1"@,
        }
    }

    /// The scheme that a tag stands for, if any.
    pub open spec fn of_tag(tag: Seq<char>) -> Option<BackupScheme> {
        if tag == "v1"@ {
            Some(BackupScheme::V1)
        } else {
            None
        }
    }

    /// What `from_tag` says of a tag that stands for no scheme.
    pub open spec fn unknown_tag_message(tag: Seq<char>) -> Seq<char> {
        "Unknown backup scheme: '"@ + tag + "'"@
    }

    /// The tag of the scheme.
    pub fn as_str(&self) -> (s: &'static str)
        ensures
            s@ == self.tag(),
    {
        match self {
            BackupScheme::V1 => "v1",
        }
    }

    /// Reads a scheme from its tag. Any other string is a fatal error.
    pub fn from_tag(tag: &str) -> (r: Result<BackupScheme, Error>)
        ensures
            match r {
                Ok(scheme) => Self::of_tag(tag@) == Some(scheme),
                Err(e) => Self::of_tag(tag@) is None && e@ == (ErrorView::Fatal {
                    error: Self::unknown_tag_message(tag@),
                }),
            },
    {
        if String::from_str(tag) == String::from_str("v1") {
            Ok(BackupScheme::V1)
        } else {
            let mut message = String::from_str("Unknown backup scheme: '");
            message.append(tag);
            message.append("'");
            Err(Error::Fatal { error: message })
        }
    }

    /// Every tag is a token of the file-name grammar.
    pub proof fn lemma_tag_is_token(self)
        ensures
            is_token(self.tag()),
    {
        reveal_strlit("v1");
    }

    /// A tag stands for the scheme that it was made from.
    pub proof fn lemma_of_tag_inverts_tag(self)
        ensures
            Self::of_tag(self.tag()) == Some(self),
    {
    }
}

} // verus!
