//! The JSON values and objects of `serde_json`, as far as the client needs them.
//!
//! Nothing in this module is proved: each item states what `serde_json` does,
//! and the rest of the library is verified against these statements. The crate
//! is built without `preserve_order`, so an object keeps its members sorted by
//! key and its text depends on the members alone.

use vstd::prelude::*;

verus! {

/// `serde_json::Value`, a parsed JSON document. The library only carries it.
#[verifier::external_type_specification]
#[verifier::external_body]
pub struct ExJsonValue(serde_json::Value);

/// `serde_json::Map`, the object type of `serde_json`.
#[verifier::external_type_specification]
#[verifier::external_body]
#[verifier::reject_recursive_types(K)]
#[verifier::reject_recursive_types(V)]
pub struct ExJsonObject<K, V>(serde_json::Map<K, V>);

/// What a member of a flat object holds: a string or an unsigned integer.
#[derive(Clone, Debug, PartialEq, Eq)]
pub enum Scalar {
    Text(String),
    Number(u64),
}

/// The mathematical content of a [`Scalar`].
pub ghost enum ScalarView {
    Text(Seq<char>),
    Number(nat),
}

impl View for Scalar {
    type V = ScalarView;

    open spec fn view(&self) -> ScalarView {
        match self {
            Scalar::Text(text) => ScalarView::Text(text@),
            Scalar::Number(n) => ScalarView::Number(*n as nat),
        }
    }
}

/// The document that `serde_json::from_slice` reads from `body`, or `None`
/// where it reports an error.
pub uninterp spec fn parsed_document(body: Seq<u8>) -> Option<serde_json::Value>;

/// Whether every member of `object` is a string or an integer from 0 to
/// `u64::MAX`.
pub uninterp spec fn object_is_flat(object: serde_json::Map<String, serde_json::Value>) -> bool;

/// The members of `object` that are strings or integers from 0 to `u64::MAX`,
/// by key.
pub uninterp spec fn object_members(object: serde_json::Map<String, serde_json::Value>) -> Map<
    Seq<char>,
    ScalarView,
>;

/// The compact JSON text that `serde_json::to_string` writes for a flat object
/// with these members.
pub uninterp spec fn encoded_object(members: Map<Seq<char>, ScalarView>) -> Seq<char>;

/// Calls `serde_json::from_slice` for a `serde_json::Value`. The parser reads
/// nothing but the bytes it is given, so its answer is a function of them; an
/// error of any kind is reported as `None`.
#[verifier::external_body]
pub(crate) fn parse_document(body: &[u8]) -> (document: Option<serde_json::Value>)
    ensures
        document == parsed_document(body@),
{
    serde_json::from_slice::<serde_json::Value>(body).ok()
}

/// Calls `serde_json::Map::new`, which makes an object without members.
#[verifier::external_body]
pub(crate) fn new_object() -> (object: serde_json::Map<String, serde_json::Value>)
    ensures
        object_is_flat(object),
        object_members(object).dom() == Set::<Seq<char>>::empty(),
{
    serde_json::Map::new()
}

/// Calls `serde_json::Map::insert` with `value` as a JSON string or number.
/// The object then holds `value` under `key`, in place of what it held there
/// before, and its other members are untouched.
#[verifier::external_body]
pub(crate) fn insert_member(
    object: &mut serde_json::Map<String, serde_json::Value>,
    key: &str,
    value: Scalar,
)
    ensures
        object_is_flat(*old(object)) ==> object_is_flat(*final(object)),
        object_members(*final(object)) == object_members(*old(object)).insert(key@, value@),
{
    let member = match value {
        Scalar::Text(text) => serde_json::Value::String(text),
        Scalar::Number(n) => serde_json::Value::from(n),
    };
    object.insert(key.to_string(), member);
}

/// Calls `serde_json::to_string` on a flat object. `serde_json` documents two
/// ways for it to fail, a `Serialize` impl that fails and a key that is no
/// string; an object with string keys over strings and unsigned integers
/// offers neither, so the text is always there.
#[verifier::external_body]
pub(crate) fn encode_object(object: &serde_json::Map<String, serde_json::Value>) -> (text: Option<String>)
    requires
        object_is_flat(*object),
    ensures
        text is Some,
        text matches Some(written) ==> written@ == encoded_object(object_members(*object)),
{
    serde_json::to_string(object).ok()
}

} // verus!
