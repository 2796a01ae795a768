//! The backup version: a counter that grows with each backup of one device.

use core::cmp::Ordering;
use vstd::prelude::*;
use vstd::std_specs::cmp::PartialOrdSpec;
use vstd::std_specs::convert::TryFromSpecImpl;
use vstd::string::*;

use crate::error::{Error, ErrorView};
use crate::text::{decimal, i64_literal, parse_i64, push_decimal, IntegerLiteralError};

verus! {

/// A backup version. It is never negative: the store that keeps it has signed
/// 64-bit integers only, so the range is narrowed here, when a value is made.
#[derive(Debug, Clone, Copy, PartialEq, Eq, Ord, Hash, Structural)]
pub struct BackupVersion(i64);

impl View for BackupVersion {
    type V = int;

    closed spec fn view(&self) -> int {
        self.0 as int
    }
}

/// What `try_from` makes of an integer.
pub open spec fn version_of_integer(value: int) -> Result<int, ErrorView> {
    if value < 0 {
        Err(ErrorView::Fatal { error: "Negative backup version"@ })
    } else {
        Ok(value)
    }
}

/// What `from_str` says of a string that is no integer literal.
pub open spec fn not_a_version_message(reason: IntegerLiteralError) -> Seq<char> {
    "Failed to parse str to backup version with error '"@ + reason.message() + "'"@
}

/// What `from_str` makes of a string: a retriable error where it is no integer
/// literal, else what `try_from` makes of the integer.
pub open spec fn version_of_string(s: Seq<char>) -> Result<int, ErrorView> {
    match i64_literal(s) {
        Ok(value) => version_of_integer(value as int),
        Err(reason) => Err(ErrorView::Retriable { error: not_a_version_message(reason) }),
    }
}

/// A result as contracts speak of it.
pub open spec fn version_result_view(r: Result<BackupVersion, Error>) -> Result<int, ErrorView> {
    match r {
        Ok(version) => Ok(version@),
        Err(e) => Err(e@),
    }
}

impl BackupVersion {
    #[verifier::type_invariant]
    spec fn not_negative(self) -> bool {
        self.0 >= 0
    }

    /// A version from an integer that was validated elsewhere: negative ones are
    /// refused for good.
    pub fn try_from(value: i64) -> (r: Result<BackupVersion, Error>)
        ensures
            version_result_view(r) == version_of_integer(value as int),
    {
        if value < 0 {
            Err(Error::fatal("Negative backup version"))
        } else {
            Ok(BackupVersion(value))
        }
    }

    /// A version from its decimal notation.
    pub fn from_str(s: &str) -> (r: Result<BackupVersion, Error>)
        ensures
            version_result_view(r) == version_of_string(s@),
    {
        match parse_i64(s) {
            Ok(value) => Self::try_from(value),
            Err(reason) => {
                let mut message = String::from_str(
                    "Failed to parse str to backup version with error '",
                );
                message.append(reason.description());
                message.append("'");
                Err(Error::Retriable { error: message })
            },
        }
    }

    /// The version as an integer.
    pub fn value(&self) -> (v: i64)
        ensures
            v == self@,
            v >= 0,
    {
        proof {
            use_type_invariant(self);
        }
        self.0
    }

    /// The version in decimal notation.
    pub fn to_string(&self) -> (s: String)
        ensures
            s@ == decimal(self@ as nat),
    {
        let mut s = String::new();
        push_decimal(&mut s, self.value() as u64);
        s
    }

    /// Two versions with the same value are the same version.
    pub proof fn lemma_same_value_same_version(self, other: BackupVersion)
        requires
            self@ == other@,
        ensures
            self == other,
    {
    }

    /// How two versions compare: as their values do.
    pub open spec fn compare(self, other: BackupVersion) -> Ordering {
        if self@ < other@ {
            Ordering::Less
        } else if self@ > other@ {
            Ordering::Greater
        } else {
            Ordering::Equal
        }
    }
}

impl TryFrom<i64> for BackupVersion {
    type Error = Error;

    fn try_from(value: i64) -> (r: Result<BackupVersion, Error>)
        ensures
            version_result_view(r) == version_of_integer(value as int),
    {
        BackupVersion::try_from(value)
    }
}

/// What the conversion returns is stated in its own `ensures`. An error holds
/// a string, which no spec function can make, so `try_from_spec` is left open.
impl TryFromSpecImpl<i64> for BackupVersion {
    open spec fn obeys_try_from_spec() -> bool {
        false
    }

    open spec fn try_from_spec(value: i64) -> Result<BackupVersion, Error> {
        arbitrary()
    }
}

impl core::str::FromStr for BackupVersion {
    type Err = Error;

    fn from_str(s: &str) -> (r: Result<BackupVersion, Error>)
        ensures
            version_result_view(r) == version_of_string(s@),
    {
        BackupVersion::from_str(s)
    }
}

impl PartialOrd for BackupVersion {
    fn partial_cmp(&self, other: &BackupVersion) -> (r: Option<Ordering>) {
        if self.0 < other.0 {
            Some(Ordering::Less)
        } else if self.0 > other.0 {
            Some(Ordering::Greater)
        } else {
            Some(Ordering::Equal)
        }
    }
}

impl vstd::std_specs::cmp::PartialOrdSpecImpl for BackupVersion {
    open spec fn obeys_partial_cmp_spec() -> bool {
        true
    }

    open spec fn partial_cmp_spec(&self, other: &BackupVersion) -> Option<Ordering> {
        Some(self.compare(*other))
    }
}

/// Versions are ordered as their values are: `<` and `partial_cmp` on two
/// versions say what `<` says of the two integers.
pub proof fn lemma_versions_ordered_by_value(a: BackupVersion, b: BackupVersion)
    ensures
        BackupVersion::obeys_partial_cmp_spec(),
        a.partial_cmp_spec(&b) == Some(Ordering::Less) <==> a@ < b@,
        a.partial_cmp_spec(&b) == Some(Ordering::Equal) <==> a@ == b@,
        a.partial_cmp_spec(&b) == Some(Ordering::Greater) <==> a@ > b@,
        a@ == b@ <==> a == b,
{
}

} // verus!
