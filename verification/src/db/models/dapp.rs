//! Dapps: the sites that a profile has been connected to.

use vstd::prelude::*;
use vstd::string::*;
use vstd::utf8::{encode_utf8, encode_utf8_decode_utf8};

use crate::db::deterministic_id::{
    derived_id, hash_input, is_hash_collision, lemma_same_id_of_two_keys_is_a_collision,
    lemma_same_id_of_two_kinds_is_a_collision, DeriveDeterministicId, DeterministicId,
    EntityName, UniqueColumns,
};
use crate::error::{Error, ErrorView};
use crate::text::chars_of;

verus! {

/// The ASCII serialisation of the origin of a URL, or `None` for a string that
/// is no URL.
pub uninterp spec fn url_origin(url: Seq<char>) -> Option<Seq<char>>;

/// How many colons a URL may hold.
pub const MAX_URL_COLONS: usize = 64;

/// How many colons a string holds.
pub open spec fn colons(url: Seq<char>) -> nat
    decreases url.len(),
{
    if url.len() == 0 {
        0
    } else {
        colons(url.drop_last()) + if url.last() == ':' {
            1nat
        } else {
            0nat
        }
    }
}

/// The origin of a URL.
///
/// Trusted: stands for `url::Url::parse`, `Url::origin` and
/// `Origin::ascii_serialization`: the string is parsed, and the origin of the
/// URL is written in ASCII, or as `null` where the URL has an opaque origin.
/// `None` where the string does not parse. The result depends on the string
/// alone.
///
/// Left out: strings with more colons than `MAX_URL_COLONS`. The origin of a
/// `blob:` URL is that of the URL in its path, for which `Url::origin` calls
/// itself. Each such step takes a scheme and its colon off the string, so
/// the calls are nested no deeper than the string has colons.
#[verifier::external_body]
fn origin_of(url: &str) -> (origin: Option<String>)
    requires
        colons(url@) <= MAX_URL_COLONS,
    ensures
        match origin {
            Some(origin) => url_origin(url@) == Some(origin@),
            None => url_origin(url@) is None,
        },
{
    match url::Url::parse(url) {
        Ok(parsed) => Some(parsed.origin().ascii_serialization()),
        Err(_) => None,
    }
}

/// Whether a string holds more colons than a URL may.
fn has_too_many_colons(url: &str) -> (b: bool)
    ensures
        b == (colons(url@) > MAX_URL_COLONS),
{
    let chars = chars_of(url);
    let mut count: usize = 0;
    let mut i: usize = 0;
    assert(chars@.take(0) =~= Seq::<char>::empty());
    while i < chars.len()
        invariant
            chars@ == url@,
            i <= chars.len(),
            count == colons(chars@.take(i as int)),
            count <= i,
            count <= MAX_URL_COLONS,
        decreases chars.len() - i,
    {
        assert(chars@.take(i + 1).drop_last() =~= chars@.take(i as int));
        if chars[i] == ':' {
            count += 1;
        }
        i += 1;
        assert(count == colons(chars@.take(i as int)));
        if count > MAX_URL_COLONS {
            proof {
                lemma_colons_of_prefix(chars@, i as int);
            }
            return true;
        }
    }
    assert(chars@.take(i as int) =~= chars@);
    false
}

/// A string holds at least as many colons as each of its prefixes.
proof fn lemma_colons_of_prefix(url: Seq<char>, i: int)
    requires
        0 <= i <= url.len(),
    ensures
        colons(url.take(i)) <= colons(url),
    decreases url.len() - i,
{
    if i < url.len() {
        lemma_colons_of_prefix(url, i + 1);
        assert(url.take(i + 1).drop_last() =~= url.take(i));
    } else {
        assert(url.take(i) =~= url);
    }
}

/// A dapp as the database keeps it.
#[derive(Debug, Clone, PartialEq, Eq)]
pub struct Dapp {
    pub deterministic_id: DeterministicId,
    pub identifier: String,
    pub url: String,
    pub created_at: String,
    pub updated_at: Option<String>,
}

/// What names a dapp for a person: the registrable domain of its origin where
/// the public suffix list knows one, else the origin itself.
pub open spec fn identifier_of(origin: Seq<char>, registrable_domain: Option<Seq<char>>) -> Seq<
    char,
> {
    match registrable_domain {
        Some(domain) => domain,
        None => origin,
    }
}

/// What is said of a string that is no URL.
pub open spec fn invalid_url_message(url: Seq<char>) -> Seq<char> {
    "Invalid URL: '"@ + url + "'"@
}

/// What is said of a string with more colons than a URL may hold.
pub open spec fn too_many_colons_message() -> Seq<char> {
    "URL holds too many colons"@
}

/// What names the dapp at a URL, given the registrable domain that the public
/// suffix list has for the URL's origin. A string with more colons than a URL
/// may hold, and a string that is no URL, are retriable errors.
pub open spec fn dapp_identifier_of(
    url: Seq<char>,
    registrable_domain: Option<Seq<char>>,
) -> Result<Seq<char>, ErrorView> {
    if colons(url) > MAX_URL_COLONS {
        Err(ErrorView::Retriable { error: too_many_colons_message() })
    } else {
        match url_origin(url) {
            Some(origin) => Ok(identifier_of(origin, registrable_domain)),
            None => Err(ErrorView::Retriable { error: invalid_url_message(url) }),
        }
    }
}

/// A registrable domain as contracts speak of it.
pub open spec fn domain_view(registrable_domain: Option<String>) -> Option<Seq<char>> {
    match registrable_domain {
        Some(domain) => Some(domain@),
        None => None,
    }
}

/// A dapp before it is kept: what identifies it, and where it was found.
#[derive(Debug, Clone, PartialEq, Eq)]
pub struct DappEntity {
    pub identifier: String,
    pub url: String,
}

impl DappEntity {
    /// The dapp at `url`, whose origin is `origin`.
    pub fn new(url: String, origin: String, registrable_domain: Option<String>) -> (entity:
        DappEntity)
        ensures
            entity.identifier@ == identifier_of(origin@, domain_view(registrable_domain)),
            entity.url@ == url@,
    {
        let identifier = match registrable_domain {
            Some(domain) => domain,
            None => origin,
        };
        DappEntity { identifier, url }
    }

    /// The dapp at `url`. A string that is no URL is a retriable error, and so
    /// is one with more colons than a URL may hold.
    pub fn from_url(url: &str, registrable_domain: Option<String>) -> (r: Result<
        DappEntity,
        Error,
    >)
        ensures
            match dapp_identifier_of(url@, domain_view(registrable_domain)) {
                Ok(identifier) => r matches Ok(entity) && entity.identifier@ == identifier
                    && entity.url@ == url@,
                Err(e) => r matches Err(failure) && failure@ == e,
            },
    {
        if has_too_many_colons(url) {
            return Err(Error::retriable("URL holds too many colons"));
        }
        match origin_of(url) {
            Some(origin) => Ok(DappEntity::new(String::from_str(url), origin, registrable_domain)),
            None => {
                let mut message = String::from_str("Invalid URL: '");
                message.append(url);
                message.append("'");
                Err(Error::Retriable { error: message })
            },
        }
    }

    /// The dapp's id, if the dapp has been added to the profile that was
    /// asked about: `maybe_exists` is what the database answered.
    pub fn fetch_id_for_profile(&self, maybe_exists: Option<bool>) -> (id: Option<
        DeterministicId,
    >)
        ensures
            match id {
                Some(id) => maybe_exists == Some(true) && id@ == derived_id(
                    self.kind(),
                    self.unique_keys(),
                ),
                None => maybe_exists != Some(true),
            },
    {
        match maybe_exists {
            Some(true) => Some(self.deterministic_id()),
            _ => None,
        }
    }

    /// The row to insert for this dapp, unless one with its id is there already.
    pub fn create_if_not_exists(&self, created_at: String) -> (row: Dapp)
        ensures
            row.deterministic_id@ == derived_id(self.kind(), self.unique_keys()),
            row.identifier@ == self.identifier@,
            row.url@ == self.url@,
            row.created_at@ == created_at@,
            row.updated_at is None,
    {
        Dapp {
            deterministic_id: self.deterministic_id(),
            identifier: self.identifier.clone(),
            url: self.url.clone(),
            created_at,
            updated_at: None,
        }
    }
}

impl DeriveDeterministicId for DappEntity {
    open spec fn kind(&self) -> EntityName {
        EntityName::Dapp
    }

    open spec fn unique_keys(&self) -> Seq<Seq<u8>> {
        seq![encode_utf8(self.identifier@)]
    }

    fn entity_name(&self) -> (name: EntityName) {
        EntityName::Dapp
    }

    fn unique_columns(&self) -> (columns: UniqueColumns) {
        UniqueColumns::one(self.identifier.as_str().as_bytes_vec())
    }
}

/// The identifier of the dapp that a person knows under `identifier`.
pub open spec fn dapp_id(identifier: Seq<char>) -> Seq<char> {
    derived_id(EntityName::Dapp, seq![encode_utf8(identifier)])
}

impl Dapp {
    /// The human-readable identifier of the dapp at a URL.
    pub fn dapp_identifier(url: &str, registrable_domain: Option<String>) -> (r: Result<
        String,
        Error,
    >)
        ensures
            match dapp_identifier_of(url@, domain_view(registrable_domain)) {
                Ok(identifier) => r matches Ok(found) && found@ == identifier,
                Err(e) => r matches Err(failure) && failure@ == e,
            },
    {
        match DappEntity::from_url(url, registrable_domain) {
            Ok(entity) => Ok(entity.identifier),
            Err(e) => Err(e),
        }
    }

    /// The row to insert for the dapp at a URL, unless one with its id is
    /// there already: creating a dapp twice keeps one row.
    pub fn create_if_not_exists(
        url: &str,
        registrable_domain: Option<String>,
        created_at: String,
    ) -> (r: Result<Dapp, Error>)
        ensures
            match dapp_identifier_of(url@, domain_view(registrable_domain)) {
                Ok(identifier) => r matches Ok(row) && (Dapp::is_new_row(
                    row,
                    identifier,
                    url@,
                    created_at@,
                )),
                Err(e) => r matches Err(failure) && failure@ == e,
            },
    {
        match DappEntity::from_url(url, registrable_domain) {
            Ok(entity) => Ok(entity.create_if_not_exists(created_at)),
            Err(e) => Err(e),
        }
    }

    /// Whether `row` is the row of a dapp that was just made.
    pub open spec fn is_new_row(
        row: Dapp,
        identifier: Seq<char>,
        url: Seq<char>,
        created_at: Seq<char>,
    ) -> bool {
        &&& row.deterministic_id@ == dapp_id(identifier)
        &&& row.identifier@ == identifier
        &&& row.url@ == url
        &&& row.created_at@ == created_at
        &&& row.updated_at is None
    }

    /// The id of the dapp at a URL, if the dapp has been added to the profile
    /// that was asked about: `maybe_exists` is what the database answered.
    pub fn fetch_id_for_profile(
        url: &str,
        registrable_domain: Option<String>,
        maybe_exists: Option<bool>,
    ) -> (r: Result<Option<DeterministicId>, Error>)
        ensures
            match dapp_identifier_of(url@, domain_view(registrable_domain)) {
                Ok(identifier) => r matches Ok(found) && (match found {
                    Some(id) => maybe_exists == Some(true) && id@ == dapp_id(identifier),
                    None => maybe_exists != Some(true),
                }),
                Err(e) => r matches Err(failure) && failure@ == e,
            },
    {
        match DappEntity::from_url(url, registrable_domain) {
            Ok(entity) => Ok(entity.fetch_id_for_profile(maybe_exists)),
            Err(e) => Err(e),
        }
    }
}

/// Two dapps with different identifiers have the same id only where their
/// hash inputs are a collision of the hash.
pub proof fn lemma_same_dapp_id_is_a_collision(identifier: Seq<char>, other: Seq<char>)
    requires
        identifier != other,
    ensures
        dapp_id(identifier) == dapp_id(other) <==> is_hash_collision(
            hash_input(EntityName::Dapp, seq![encode_utf8(identifier)]),
            hash_input(EntityName::Dapp, seq![encode_utf8(other)]),
        ),
{
    encode_utf8_decode_utf8(identifier);
    encode_utf8_decode_utf8(other);
    lemma_same_id_of_two_keys_is_a_collision(
        EntityName::Dapp,
        encode_utf8(identifier),
        encode_utf8(other),
    );
}

/// A dapp and an account picture with the same key have the same id only
/// where their hash inputs are a collision of the hash.
pub proof fn lemma_same_id_of_dapp_and_picture_is_a_collision(key: Seq<u8>)
    ensures
        derived_id(EntityName::Dapp, seq![key]) == derived_id(
            EntityName::AccountPicture,
            seq![key],
        ) <==> is_hash_collision(
            hash_input(EntityName::Dapp, seq![key]),
            hash_input(EntityName::AccountPicture, seq![key]),
        ),
{
    lemma_same_id_of_two_kinds_is_a_collision(
        EntityName::Dapp,
        EntityName::AccountPicture,
        seq![key],
    );
}

} // verus!
