use std::collections::BTreeMap;

use k8s_openapi::apimachinery::pkg::apis::meta::v1::ObjectMeta;
use k8s_openapi::ByteString;
use vstd::prelude::*;

verus! {

/// A `Secret`, with its fields visible: the logic reads its `data` section.
#[verifier::external_type_specification]
pub struct ExSecret(k8s_openapi::api::core::v1::Secret);

/// Object metadata: carried along, never read here.
#[verifier::external_type_specification]
#[verifier::external_body]
pub struct ExObjectMeta(ObjectMeta);

/// A byte payload: a list of bytes in its public field.
#[verifier::external_type_specification]
pub struct ExByteString(ByteString);

/// What a `Secret`'s data section holds: each entry's payload, keyed by the
/// text of its field name.
pub uninterp spec fn text_entries(m: BTreeMap<String, ByteString>) -> Map<Seq<char>, Seq<u8>>;

/// Relies on `BTreeMap::get` with a `&str` key: `String` keys are ordered and
/// compared by their text, so the entry found is the one whose name reads
/// `field`, and none is found when no name does.
#[verifier::external_body]
pub(crate) fn lookup<'a>(data: &'a BTreeMap<String, ByteString>, field: &str) -> (r: Option<
    &'a ByteString,
>)
    ensures
        match r {
            Some(v) => text_entries(*data).contains_key(field@) && text_entries(*data)[field@]
                == v.0@,
            None => !text_entries(*data).contains_key(field@),
        },
{
    data.get(field)
}

/// The payload that `s` holds under `field`: none when it has no data
/// section, or when the section has no such field.
pub open spec fn field_bytes(s: k8s_openapi::api::core::v1::Secret, field: Seq<char>) -> Option<Seq<u8>> {
    match s.data {
        Some(m) => if text_entries(m).contains_key(field) {
            Some(text_entries(m)[field])
        } else {
            None
        },
        None => None,
    }
}

} // verus!
