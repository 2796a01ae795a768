//! Account pictures: the images that stand for an account.

use vstd::prelude::*;
use vstd::slice::slice_to_vec;
use vstd::string::*;

use crate::db::deterministic_id::{
    blake3_digest, blake3_hash, derived_id, DeriveDeterministicId, DeterministicId, EntityName,
    UniqueColumns,
};

verus! {

/// An account picture as the database keeps it.
#[derive(Debug, Clone, PartialEq, Eq)]
pub struct AccountPicture {
    pub deterministic_id: DeterministicId,
    pub image_name: Option<String>,
    pub image_hash: Vec<u8>,
    pub image: Vec<u8>,
    pub created_at: String,
    pub updated_at: Option<String>,
}

/// An account picture before it is kept: the hash of its image identifies it.
#[derive(Debug, Clone, Copy)]
pub struct AccountPictureEntity<'a> {
    pub image_hash: &'a [u8],
}

impl<'a> DeriveDeterministicId for AccountPictureEntity<'a> {
    open spec fn kind(&self) -> EntityName {
        EntityName::AccountPicture
    }

    open spec fn unique_keys(&self) -> Seq<Seq<u8>> {
        seq![self.image_hash@]
    }

    fn entity_name(&self) -> (name: EntityName) {
        EntityName::AccountPicture
    }

    fn unique_columns(&self) -> (columns: UniqueColumns) {
        UniqueColumns::one(slice_to_vec(self.image_hash))
    }
}

/// The identifier of the account picture with a given image.
pub open spec fn picture_id(image: Seq<u8>) -> Seq<char> {
    derived_id(EntityName::AccountPicture, seq![blake3_digest(image)])
}

impl<'a> AccountPictureEntity<'a> {
    /// The row to insert for this picture.
    pub fn create(&self, image: &[u8], image_name: Option<&str>, created_at: String) -> (row:
        AccountPicture)
        ensures
            row.deterministic_id@ == derived_id(self.kind(), self.unique_keys()),
            row.image_hash@ == self.image_hash@,
            row.image@ == image@,
            match image_name {
                Some(name) => row.image_name matches Some(kept) && kept@ == name@,
                None => row.image_name is None,
            },
            row.created_at@ == created_at@,
            row.updated_at is None,
    {
        let image_name = match image_name {
            Some(name) => Some(String::from_str(name)),
            None => None,
        };
        AccountPicture {
            deterministic_id: self.deterministic_id(),
            image_name,
            image_hash: slice_to_vec(self.image_hash),
            image: slice_to_vec(image),
            created_at,
            updated_at: None,
        }
    }
}

impl AccountPicture {
    /// The row to insert for a picture that comes with the application: the
    /// image is identified by its hash, so the same image gets the same id
    /// under every name.
    pub fn insert_bundled(image: &[u8], image_name: &str, created_at: String) -> (row:
        AccountPicture)
        ensures
            row.deterministic_id@ == picture_id(image@),
            row.image_hash@ == blake3_digest(image@),
            row.image@ == image@,
            row.image_name matches Some(kept) && kept@ == image_name@,
            row.created_at@ == created_at@,
            row.updated_at is None,
    {
        let image_hash = blake3_hash(image);
        let entity = AccountPictureEntity { image_hash: image_hash.as_slice() };
        entity.create(image, Some(image_name), created_at)
    }
}

} // verus!
