//! Identifiers that are derived from what an entity is: the hash of its kind's
//! tag followed by its unique keys.

use vstd::prelude::*;
use vstd::utf8::{encode_utf8, encode_utf8_decode_utf8};

use crate::hex::{hex_of, is_hex_digit, lemma_hex_injective, lemma_hex_shape, to_hex};

verus! {

/// The BLAKE3 hash of a byte string: 32 bytes.
pub uninterp spec fn blake3_digest(input: Seq<u8>) -> Seq<u8>;

/// Hashes a byte string.
///
/// Trusted: stands for `blake3::hash` and for `Hash::as_bytes`, which hands out
/// the 32 bytes of the hash. The hash depends on the input alone.
#[verifier::external_body]
fn digest(input: &[u8]) -> (hash: [u8; 32])
    ensures
        hash@ == blake3_digest(input@),
{
    *blake3::hash(input).as_bytes()
}

/// The BLAKE3 hash of a byte string.
pub fn blake3_hash(input: &[u8]) -> (hash: [u8; 32])
    ensures
        hash@ == blake3_digest(input@),
        hash@.len() == 32,
{
    digest(input)
}

/// The kinds of entity that have a derived identifier. Each kind has one tag,
/// which goes into the hash before the keys, so that two entities of different
/// kinds get different hash inputs even where their keys are the same bytes.
#[derive(Debug, Clone, Copy, PartialEq, Eq, Hash, Structural)]
pub enum EntityName {
    AccountPicture,
    AsymmetricKey,
    Dapp,
    Profile,
    ProfilePicture,
}

impl EntityName {
    /// The tag of the kind.
    pub open spec fn tag(self) -> Seq<char> {
        match self {
            EntityName::AccountPicture => "AccountPicture"@,
            EntityName::AsymmetricKey => "AsymmetricKey"@,
            EntityName::Dapp => "Dapp"@,
            EntityName::Profile => "Profile"@,
            EntityName::ProfilePicture => "ProfilePicture"@,
        }
    }

    /// The tag as bytes: its UTF-8 encoding.
    pub open spec fn tag_bytes(self) -> Seq<u8> {
        encode_utf8(self.tag())
    }

    /// The tag of the kind.
    pub fn as_str(&self) -> (tag: &'static str)
        ensures
            tag@ == self.tag(),
    {
        match self {
            EntityName::AccountPicture => "AccountPicture",
            EntityName::AsymmetricKey => "AsymmetricKey",
            EntityName::Dapp => "Dapp",
            EntityName::Profile => "Profile",
            EntityName::ProfilePicture => "ProfilePicture",
        }
    }

    /// No two kinds share a tag.
    pub proof fn lemma_tags_differ(self, other: EntityName)
        requires
            self != other,
        ensures
            self.tag() != other.tag(),
            self.tag_bytes() != other.tag_bytes(),
    {
        reveal_strlit("AccountPicture");
        reveal_strlit("AsymmetricKey");
        reveal_strlit("Dapp");
        reveal_strlit("Profile");
        reveal_strlit("ProfilePicture");
        encode_utf8_decode_utf8(self.tag());
        encode_utf8_decode_utf8(other.tag());
    }
}

/// The keys of an entity, one after the other.
pub open spec fn joined(keys: Seq<Seq<u8>>) -> Seq<u8>
    decreases keys.len(),
{
    if keys.len() == 0 {
        Seq::<u8>::empty()
    } else {
        joined(keys.drop_last()) + keys.last()
    }
}

/// What is hashed: the kind's tag, then the keys in their order.
pub open spec fn hash_input(namespace: EntityName, unique_keys: Seq<Seq<u8>>) -> Seq<u8> {
    namespace.tag_bytes() + joined(unique_keys)
}

/// The identifier of an entity: the hash of its kind's tag and its keys, in
/// lowercase hexadecimal.
pub open spec fn derived_id(namespace: EntityName, unique_keys: Seq<Seq<u8>>) -> Seq<char> {
    hex_of(blake3_digest(hash_input(namespace, unique_keys)))
}

/// A derived identifier.
#[derive(Debug, Clone, PartialEq, Eq, Hash)]
pub struct DeterministicId(pub String);

impl View for DeterministicId {
    type V = Seq<char>;

    open spec fn view(&self) -> Seq<char> {
        self.0@
    }
}

impl DeterministicId {
    /// The identifier as a string.
    pub fn as_str(&self) -> (s: &str)
        ensures
            s@ == self@,
    {
        self.0.as_str()
    }
}

fn append_bytes(out: &mut Vec<u8>, bytes: &[u8])
    ensures
        final(out)@ == old(out)@ + bytes@,
{
    let mut i: usize = 0;
    while i < bytes.len()
        invariant
            i <= bytes.len(),
            out@ == old(out)@ + bytes@.take(i as int),
        decreases bytes.len() - i,
    {
        out.push(bytes[i]);
        i += 1;
    }
}

/// Derives the identifier of an entity from its kind and its unique keys. The
/// keys are hashed in the order given: an entity kind gives them always in
/// the same order.
pub fn derive(namespace: EntityName, unique_keys: &[Vec<u8>]) -> (id: DeterministicId)
    ensures
        id@ == derived_id(namespace, unique_keys.deep_view()),
        id@.len() == 64,
        forall|i: int| 0 <= i < 64 ==> is_hex_digit(#[trigger] id@[i]),
{
    let mut input: Vec<u8> = Vec::new();
    append_bytes(&mut input, namespace.as_str().as_bytes());
    let ghost keys = unique_keys.deep_view();
    let mut i: usize = 0;
    while i < unique_keys.len()
        invariant
            i <= unique_keys.len(),
            keys == unique_keys.deep_view(),
            input@ == namespace.tag_bytes() + joined(keys.take(i as int)),
        decreases unique_keys.len() - i,
    {
        append_bytes(&mut input, unique_keys[i].as_slice());
        proof {
            assert(keys.take(i + 1).drop_last() =~= keys.take(i as int));
        }
        i += 1;
    }
    assert(keys.take(i as int) =~= keys);
    let hash = digest(input.as_slice());
    proof {
        lemma_hex_shape(hash@);
    }
    DeterministicId(to_hex(hash.as_slice()))
}

/// The unique columns of an entity that is identified by one column: an array
/// of one byte string.
#[verifier::external_body]
pub struct UniqueColumns {
    array: generic_array::GenericArray<Vec<u8>, generic_array::typenum::U1>,
}

/// The byte strings that the array holds, in their order.
pub uninterp spec fn columns_of(columns: UniqueColumns) -> Seq<Seq<u8>>;

/// An array of one column.
///
/// Trusted: stands for the conversion of `[T; 1]` into a `GenericArray` of
/// length one, which keeps the item.
#[verifier::external_body]
fn array_of_one(column: Vec<u8>) -> (columns: UniqueColumns)
    ensures
        columns_of(columns) == seq![column@],
{
    UniqueColumns { array: [column].into() }
}

/// The columns as a slice.
///
/// Trusted: stands for `GenericArray::as_slice`, which hands out the items in
/// their order.
#[verifier::external_body]
fn slice_of(columns: &UniqueColumns) -> (slice: &[Vec<u8>])
    ensures
        slice.deep_view() == columns_of(*columns),
{
    columns.array.as_slice()
}

impl UniqueColumns {
    /// The columns of an entity that is identified by `column`.
    pub fn one(column: Vec<u8>) -> (columns: UniqueColumns)
        ensures
            columns_of(columns) == seq![column@],
    {
        array_of_one(column)
    }

    /// The columns, in their order.
    pub fn as_slice(&self) -> (slice: &[Vec<u8>])
        ensures
            slice.deep_view() == columns_of(*self),
    {
        slice_of(self)
    }
}

/// An entity that has a derived identifier: it names its kind and gives its
/// unique columns.
pub trait DeriveDeterministicId {
    /// The kind of the entity.
    spec fn kind(&self) -> EntityName;

    /// The unique keys of the entity, in the order of its kind.
    spec fn unique_keys(&self) -> Seq<Seq<u8>>;

    fn entity_name(&self) -> (name: EntityName)
        ensures
            name == self.kind(),
    ;

    fn unique_columns(&self) -> (columns: UniqueColumns)
        ensures
            columns_of(columns) == self.unique_keys(),
    ;

    /// The identifier of the entity.
    fn deterministic_id(&self) -> (id: DeterministicId)
        ensures
            id@ == derived_id(self.kind(), self.unique_keys()),
    {
        let columns = self.unique_columns();
        derive(self.entity_name(), columns.as_slice())
    }
}

/// The same kind and the same keys give the same identifier.
pub proof fn lemma_derived_id_is_a_function(
    namespace: EntityName,
    unique_keys: Seq<Seq<u8>>,
    other_namespace: EntityName,
    other_keys: Seq<Seq<u8>>,
)
    requires
        namespace == other_namespace,
        unique_keys == other_keys,
    ensures
        derived_id(namespace, unique_keys) == derived_id(other_namespace, other_keys),
{
}

/// Two identifiers are the same exactly where the two hashes are.
pub proof fn lemma_same_id_same_hash(
    namespace: EntityName,
    unique_keys: Seq<Seq<u8>>,
    other_namespace: EntityName,
    other_keys: Seq<Seq<u8>>,
)
    ensures
        derived_id(namespace, unique_keys) == derived_id(other_namespace, other_keys)
            <==> blake3_digest(hash_input(namespace, unique_keys)) == blake3_digest(
            hash_input(other_namespace, other_keys),
        ),
{
    if derived_id(namespace, unique_keys) == derived_id(other_namespace, other_keys) {
        lemma_hex_injective(
            blake3_digest(hash_input(namespace, unique_keys)),
            blake3_digest(hash_input(other_namespace, other_keys)),
        );
    }
}

/// Two kinds never hash the same input for the same keys.
pub proof fn lemma_hash_input_differs_by_namespace(
    namespace: EntityName,
    other_namespace: EntityName,
    unique_keys: Seq<Seq<u8>>,
)
    requires
        namespace != other_namespace,
    ensures
        hash_input(namespace, unique_keys) != hash_input(other_namespace, unique_keys),
{
    namespace.lemma_tags_differ(other_namespace);
    let a = namespace.tag_bytes();
    let b = other_namespace.tag_bytes();
    let k = joined(unique_keys);
    if a + k == b + k {
        assert(a.len() == b.len()) by {
            assert((a + k).len() == a.len() + k.len());
            assert((b + k).len() == b.len() + k.len());
        }
        assert forall|i: int| 0 <= i < a.len() implies a[i] == b[i] by {
            assert((a + k)[i] == a[i]);
            assert((b + k)[i] == b[i]);
        }
        assert(a =~= b);
    }
}

/// Whether two key sequences have as many keys, each as long as the other's.
pub open spec fn same_shape(keys: Seq<Seq<u8>>, other: Seq<Seq<u8>>) -> bool {
    keys.len() == other.len() && forall|i: int|
        0 <= i < keys.len() ==> (#[trigger] keys[i]).len() == other[i].len()
}

proof fn lemma_joined_len(keys: Seq<Seq<u8>>, other: Seq<Seq<u8>>)
    requires
        same_shape(keys, other),
    ensures
        joined(keys).len() == joined(other).len(),
    decreases keys.len(),
{
    if keys.len() > 0 {
        lemma_joined_len(keys.drop_last(), other.drop_last());
        assert(keys.last().len() == other.last().len());
    }
}

proof fn lemma_joined_injective(keys: Seq<Seq<u8>>, other: Seq<Seq<u8>>)
    requires
        same_shape(keys, other),
        joined(keys) == joined(other),
    ensures
        keys == other,
    decreases keys.len(),
{
    if keys.len() > 0 {
        let a = joined(keys.drop_last());
        let b = joined(other.drop_last());
        lemma_joined_len(keys.drop_last(), other.drop_last());
        assert(keys.last().len() == other.last().len());
        assert forall|i: int| 0 <= i < a.len() implies a[i] == b[i] by {
            assert((a + keys.last())[i] == a[i]);
            assert((b + other.last())[i] == b[i]);
        }
        assert(a =~= b);
        assert forall|i: int| 0 <= i < keys.last().len() implies keys.last()[i]
            == other.last()[i] by {
            assert((a + keys.last())[a.len() + i] == keys.last()[i]);
            assert((b + other.last())[b.len() + i] == other.last()[i]);
        }
        assert(keys.last() =~= other.last());
        lemma_joined_injective(keys.drop_last(), other.drop_last());
        assert forall|i: int| 0 <= i < keys.len() implies keys[i] == other[i] by {
            if i < keys.len() - 1 {
                assert(keys.drop_last()[i] == keys[i]);
                assert(other.drop_last()[i] == other[i]);
            }
        }
    }
    assert(keys =~= other);
}

/// One kind never hashes the same input for two different key sequences of
/// the same shape.
pub proof fn lemma_hash_input_differs_by_keys(
    namespace: EntityName,
    unique_keys: Seq<Seq<u8>>,
    other_keys: Seq<Seq<u8>>,
)
    requires
        same_shape(unique_keys, other_keys),
        unique_keys != other_keys,
    ensures
        hash_input(namespace, unique_keys) != hash_input(namespace, other_keys),
{
    let t = namespace.tag_bytes();
    let a = joined(unique_keys);
    let b = joined(other_keys);
    if t + a == t + b {
        lemma_joined_len(unique_keys, other_keys);
        assert forall|i: int| 0 <= i < a.len() implies a[i] == b[i] by {
            assert((t + a)[t.len() + i] == a[i]);
            assert((t + b)[t.len() + i] == b[i]);
        }
        assert(a =~= b);
        lemma_joined_injective(unique_keys, other_keys);
    }
}

/// Two different byte strings with the same hash: what a strong hash makes
/// hard to find, and what no proof can rule out.
pub open spec fn is_hash_collision(a: Seq<u8>, b: Seq<u8>) -> bool {
    a != b && blake3_digest(a) == blake3_digest(b)
}

/// Two kinds give the same identifier for the same keys only where their
/// hash inputs are a collision of the hash.
pub proof fn lemma_same_id_of_two_kinds_is_a_collision(
    namespace: EntityName,
    other_namespace: EntityName,
    unique_keys: Seq<Seq<u8>>,
)
    requires
        namespace != other_namespace,
    ensures
        derived_id(namespace, unique_keys) == derived_id(other_namespace, unique_keys)
            <==> is_hash_collision(
            hash_input(namespace, unique_keys),
            hash_input(other_namespace, unique_keys),
        ),
{
    lemma_hash_input_differs_by_namespace(namespace, other_namespace, unique_keys);
    lemma_same_id_same_hash(namespace, unique_keys, other_namespace, unique_keys);
}

/// One kind gives the same identifier for two different key sequences of the
/// same shape only where their hash inputs are a collision of the hash.
pub proof fn lemma_same_id_of_two_key_sequences_is_a_collision(
    namespace: EntityName,
    unique_keys: Seq<Seq<u8>>,
    other_keys: Seq<Seq<u8>>,
)
    requires
        same_shape(unique_keys, other_keys),
        unique_keys != other_keys,
    ensures
        derived_id(namespace, unique_keys) == derived_id(namespace, other_keys)
            <==> is_hash_collision(
            hash_input(namespace, unique_keys),
            hash_input(namespace, other_keys),
        ),
{
    lemma_hash_input_differs_by_keys(namespace, unique_keys, other_keys);
    lemma_same_id_same_hash(namespace, unique_keys, namespace, other_keys);
}

proof fn lemma_joined_single(key: Seq<u8>)
    ensures
        joined(seq![key]) == key,
{
    let keys = seq![key];
    assert(keys.drop_last() =~= Seq::<Seq<u8>>::empty());
    assert(joined(keys.drop_last()) =~= Seq::<u8>::empty());
    assert(keys.last() == key);
    assert(joined(keys) =~= key);
}

/// One kind never hashes the same input for two entities that have one key
/// each, and not the same.
pub proof fn lemma_hash_input_differs_by_single_key(
    namespace: EntityName,
    key: Seq<u8>,
    other_key: Seq<u8>,
)
    requires
        key != other_key,
    ensures
        hash_input(namespace, seq![key]) != hash_input(namespace, seq![other_key]),
{
    let t = namespace.tag_bytes();
    lemma_joined_single(key);
    lemma_joined_single(other_key);
    if t + key == t + other_key {
        assert(key.len() == other_key.len()) by {
            assert((t + key).len() == t.len() + key.len());
            assert((t + other_key).len() == t.len() + other_key.len());
        }
        assert forall|i: int| 0 <= i < key.len() implies key[i] == other_key[i] by {
            assert((t + key)[t.len() + i] == key[i]);
            assert((t + other_key)[t.len() + i] == other_key[i]);
        }
        assert(key =~= other_key);
    }
}

/// One kind gives the same identifier for two entities with one key each,
/// and not the same, only where their hash inputs are a collision of the
/// hash.
pub proof fn lemma_same_id_of_two_keys_is_a_collision(
    namespace: EntityName,
    key: Seq<u8>,
    other_key: Seq<u8>,
)
    requires
        key != other_key,
    ensures
        derived_id(namespace, seq![key]) == derived_id(namespace, seq![other_key])
            <==> is_hash_collision(
            hash_input(namespace, seq![key]),
            hash_input(namespace, seq![other_key]),
        ),
{
    lemma_hash_input_differs_by_single_key(namespace, key, other_key);
    lemma_same_id_same_hash(namespace, seq![key], namespace, seq![other_key]);
}

} // verus!
