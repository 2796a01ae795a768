use sealvault_core::db::deterministic_id;
use sealvault_core::db::deterministic_id::{
    blake3_hash, DeriveDeterministicId, DeterministicId, EntityName, UniqueColumns,
};
use sealvault_core::db::models::account_picture::{AccountPicture, AccountPictureEntity};
use sealvault_core::db::models::dapp::DappEntity;
use sealvault_core::hex::to_hex;

const KINDS: [EntityName; 5] = [
    EntityName::AccountPicture,
    EntityName::AsymmetricKey,
    EntityName::Dapp,
    EntityName::Profile,
    EntityName::ProfilePicture,
];

fn keys(parts: &[&[u8]]) -> Vec<Vec<u8>> {
    parts.iter().map(|part| part.to_vec()).collect()
}

#[test]
fn hash_of_known_inputs() {
    assert_eq!(
        to_hex(&blake3_hash(b"")),
        "af1349b9f5f9a1a6a0404dea36dcc9499bcb25c9adc112b7cc9a93cae41f3262"
    );
    assert_eq!(
        to_hex(&blake3_hash(b"abc")),
        "6437b3ac38465133ffb63b75273a8db548c558465d79db03fd359c6cd5bd9d85"
    );
}

#[test]
fn id_is_the_hash_of_tag_and_keys() {
    let id = deterministic_id::derive(EntityName::Dapp, &keys(&[b"example.com"]));
    assert_eq!(id.as_str(), blake3::hash(b"Dappexample.com").to_hex().as_str());
    let id = deterministic_id::derive(EntityName::AccountPicture, &keys(&[b"ab", b"", b"cd"]));
    assert_eq!(id.as_str(), blake3::hash(b"AccountPictureabcd").to_hex().as_str());
    let id = deterministic_id::derive(EntityName::Profile, &Vec::new());
    assert_eq!(id.as_str(), blake3::hash(b"Profile").to_hex().as_str());
}

#[test]
fn id_is_what_a_hasher_gives_that_is_fed_piece_by_piece() {
    let mut hasher = blake3::Hasher::new();
    hasher.update(b"AsymmetricKey");
    hasher.update(b"first");
    hasher.update(b"second");
    let expected = hasher.finalize().to_hex();
    let id = deterministic_id::derive(EntityName::AsymmetricKey, &keys(&[b"first", b"second"]));
    assert_eq!(id.as_str(), expected.as_str());
}

#[test]
fn id_is_sixty_four_lowercase_hexadecimal_digits() {
    for kind in KINDS {
        let id = deterministic_id::derive(kind, &keys(&[b"\x00\xff", b"key"]));
        assert_eq!(id.as_str().len(), 64);
        assert!(id
            .as_str()
            .chars()
            .all(|c| c.is_ascii_digit() || ('a'..='f').contains(&c)));
    }
}

#[test]
fn same_input_gives_the_same_id() {
    for kind in KINDS {
        let first = deterministic_id::derive(kind, &keys(&[b"one", b"two"]));
        let second = deterministic_id::derive(kind, &keys(&[b"one", b"two"]));
        assert_eq!(first, second);
    }
}

#[test]
fn different_kinds_give_different_ids() {
    let unique_keys = keys(&[b"one", b"two"]);
    for a in KINDS {
        for b in KINDS {
            if a != b {
                assert_ne!(deterministic_id::derive(a, &unique_keys), deterministic_id::derive(b, &unique_keys));
            }
        }
    }
}

#[test]
fn different_keys_give_different_ids() {
    let corpus: Vec<Vec<Vec<u8>>> = vec![
        keys(&[b"one"]),
        keys(&[b"two"]),
        keys(&[b"onf"]),
        keys(&[b"one", b"two"]),
        keys(&[b"two", b"one"]),
        keys(&[b"one", b"twp"]),
        keys(&[b""]),
        keys(&[b"\x00"]),
        keys(&[b"example.com"]),
        keys(&[b"example.org"]),
    ];
    for kind in KINDS {
        for (i, a) in corpus.iter().enumerate() {
            for (j, b) in corpus.iter().enumerate() {
                if i != j {
                    assert_ne!(deterministic_id::derive(kind, a), deterministic_id::derive(kind, b));
                }
            }
        }
    }
}

#[test]
fn keys_are_hashed_one_after_the_other_without_a_mark_between_them() {
    let split_early = deterministic_id::derive(EntityName::Dapp, &keys(&[b"a", b"bc"]));
    let split_late = deterministic_id::derive(EntityName::Dapp, &keys(&[b"ab", b"c"]));
    assert_eq!(split_early, split_late);
    let short_tag = deterministic_id::derive(EntityName::Profile, &keys(&[b"Picturex"]));
    let long_tag = deterministic_id::derive(EntityName::ProfilePicture, &keys(&[b"x"]));
    assert_eq!(short_tag, long_tag);
}

#[test]
fn order_of_the_keys_matters() {
    let forward = deterministic_id::derive(EntityName::Dapp, &keys(&[b"one", b"two"]));
    let backward = deterministic_id::derive(EntityName::Dapp, &keys(&[b"two", b"one"]));
    assert_ne!(forward, backward);
}

#[test]
fn tags_are_the_names_of_the_kinds() {
    assert_eq!(EntityName::AccountPicture.as_str(), "AccountPicture");
    assert_eq!(EntityName::AsymmetricKey.as_str(), "AsymmetricKey");
    assert_eq!(EntityName::Dapp.as_str(), "Dapp");
    assert_eq!(EntityName::Profile.as_str(), "Profile");
    assert_eq!(EntityName::ProfilePicture.as_str(), "ProfilePicture");
}

#[test]
fn dapp_entity_is_identified_by_its_identifier() {
    let entity = DappEntity::new(
        "https://www.example.com/page".to_string(),
        "https://www.example.com".to_string(),
        Some("example.com".to_string()),
    );
    assert_eq!(entity.entity_name(), EntityName::Dapp);
    assert_eq!(entity.unique_columns().as_slice(), [b"example.com".to_vec()]);
    assert_eq!(
        entity.deterministic_id(),
        deterministic_id::derive(EntityName::Dapp, &keys(&[b"example.com"]))
    );
}

#[test]
fn account_picture_entity_is_identified_by_the_hash_of_its_image() {
    let image = b"not really an image";
    let hash = blake3_hash(image);
    let entity = AccountPictureEntity { image_hash: &hash };
    assert_eq!(entity.entity_name(), EntityName::AccountPicture);
    assert_eq!(entity.unique_columns().as_slice(), [hash.to_vec()]);
    let id: DeterministicId = entity.deterministic_id();
    assert_eq!(id, deterministic_id::derive(EntityName::AccountPicture, &vec![hash.to_vec()]));
}

#[test]
fn bundled_picture_row_holds_image_hash_and_id() {
    let image = b"not really an image";
    let row = AccountPicture::insert_bundled(image, "cat.png", "2023-11-14T22:13:20Z".to_string());
    assert_eq!(row.image, image.to_vec());
    assert_eq!(row.image_hash, blake3::hash(image).as_bytes().to_vec());
    assert_eq!(row.image_name, Some("cat.png".to_string()));
    assert_eq!(row.created_at, "2023-11-14T22:13:20Z");
    assert_eq!(row.updated_at, None);
    assert_eq!(
        row.deterministic_id,
        deterministic_id::derive(EntityName::AccountPicture, &vec![row.image_hash.clone()])
    );
    let again = AccountPicture::insert_bundled(image, "dog.png", "2024-01-01T00:00:00Z".to_string());
    assert_eq!(again.deterministic_id, row.deterministic_id);
    let other = AccountPicture::insert_bundled(b"another image", "cat.png", "2023-11-14T22:13:20Z".to_string());
    assert_ne!(other.deterministic_id, row.deterministic_id);
}

#[test]
fn picture_row_without_a_name() {
    let hash = blake3_hash(b"image");
    let entity = AccountPictureEntity { image_hash: &hash };
    let row = entity.create(b"image", None, "2023-11-14T22:13:20Z".to_string());
    assert_eq!(row.image_name, None);
    assert_eq!(row.image_hash, hash.to_vec());
    assert_eq!(row.deterministic_id, entity.deterministic_id());
}

#[test]
fn hexadecimal_notation_of_bytes() {
    assert_eq!(to_hex(&[]), "");
    assert_eq!(to_hex(&[0x00]), "00");
    assert_eq!(to_hex(&[0x0f, 0xf0, 0xff]), "0ff0ff");
    assert_eq!(to_hex(&[0x12, 0x9a, 0xbc, 0xde]), "129abcde");
    let all: Vec<u8> = (0..=255u8).collect();
    let expected: String = all.iter().map(|b| format!("{b:02x}")).collect();
    assert_eq!(to_hex(&all), expected);
}

#[test]
fn columns_hold_the_one_key() {
    let columns = UniqueColumns::one(vec![1, 2, 3]);
    assert_eq!(columns.as_slice(), [vec![1u8, 2, 3]]);
    let id = deterministic_id::derive(EntityName::Profile, columns.as_slice());
    assert_eq!(id.as_str(), blake3::hash(b"Profile\x01\x02\x03").to_hex().as_str());
}
