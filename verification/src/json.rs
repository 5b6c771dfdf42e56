//! Reading the objects that describe virtual machines out of JSON documents.
//!
//! A document is held as a `serde_json::Value`, which the verifier cannot
//! look into. What the watcher reads of it is named here, by the JSON pointer
//! that leads to each value, and read through three trusted functions.

use vstd::prelude::*;
use crate::vm_watcher::VmObject;

verus! {

/// Pointer to an object's metadata.
pub const METADATA_POINTER: &'static str = "/metadata";

/// Pointer to the name in the metadata.
pub const NAME_POINTER: &'static str = "/metadata/name";

/// Pointer to the namespace in the metadata.
pub const NAMESPACE_POINTER: &'static str = "/metadata/namespace";

/// Pointer to the uid in the metadata.
pub const UID_POINTER: &'static str = "/metadata/uid";

/// Pointer to the annotation that carries the context id.
pub const CID_POINTER: &'static str = "/metadata/annotations/vsock.stackrox.io~1cid";

/// Pointer to the context id of the machine's socket device.
pub const CONTEXT_ID_POINTER: &'static str = "/spec/template/spec/domain/devices/vsock/contextId";

#[verifier::external_type_specification]
#[verifier::external_body]
pub struct ExJsonValue(serde_json::Value);

/// The pointers that lead to a value of the document.
pub uninterp spec fn json_members(v: serde_json::Value) -> Set<Seq<char>>;

/// The strings of the document, each under the pointer that leads to it.
pub uninterp spec fn json_strings(v: serde_json::Value) -> Map<Seq<char>, Seq<char>>;

/// The unsigned integers of the document that fit 64 bits, each under the
/// pointer that leads to it.
pub uninterp spec fn json_numbers(v: serde_json::Value) -> Map<Seq<char>, u64>;

/// Whether `pointer` leads to a value of the document.
///
/// Trusted: wraps `serde_json::Value::pointer`. The claim is only that the
/// answer is the same for the same document and pointer, under the name
/// `json_members`.
#[verifier::external_body]
pub(crate) fn has_member(v: &serde_json::Value, pointer: &str) -> (r: bool)
    ensures
        r == json_members(*v).contains(pointer@),
{
    v.pointer(pointer).is_some()
}

/// The string that `pointer` leads to, if it leads to a string.
///
/// Trusted: wraps `serde_json::Value::pointer` followed by
/// `serde_json::Value::as_str`. The claim is only that the answer is the same
/// for the same document and pointer, under the name `json_strings`.
#[verifier::external_body]
pub(crate) fn string_at(v: &serde_json::Value, pointer: &str) -> (r: Option<String>)
    ensures
        r is Some <==> json_strings(*v).dom().contains(pointer@),
        r matches Some(s) ==> s@ == json_strings(*v)[pointer@],
{
    v.pointer(pointer).and_then(|x| x.as_str()).map(|s| s.to_owned())
}

/// The unsigned integer that `pointer` leads to, if it leads to one.
///
/// Trusted: wraps `serde_json::Value::pointer` followed by
/// `serde_json::Value::as_u64`. The claim is only that the answer is the same
/// for the same document and pointer, under the name `json_numbers`.
#[verifier::external_body]
pub(crate) fn number_at(v: &serde_json::Value, pointer: &str) -> (r: Option<u64>)
    ensures
        r is Some <==> json_numbers(*v).dom().contains(pointer@),
        r matches Some(n) ==> n == json_numbers(*v)[pointer@],
{
    v.pointer(pointer).and_then(|x| x.as_u64())
}

/// The string under `pointer`, if the document has one there.
pub open spec fn spec_string(v: serde_json::Value, pointer: Seq<char>) -> Option<Seq<char>> {
    if json_strings(v).dom().contains(pointer) {
        Some(json_strings(v)[pointer])
    } else {
        None
    }
}

/// The text of an optional string.
pub open spec fn text_of(s: Option<String>) -> Option<Seq<char>> {
    match s {
        Some(t) => Some(t@),
        None => None,
    }
}

/// `obj` is what the watcher reads of the document `v`.
pub open spec fn reads(v: serde_json::Value, obj: VmObject) -> bool {
    &&& obj.has_metadata == json_members(v).contains(METADATA_POINTER@)
    &&& text_of(obj.name) == spec_string(v, NAME_POINTER@)
    &&& text_of(obj.namespace) == spec_string(v, NAMESPACE_POINTER@)
    &&& text_of(obj.uid) == spec_string(v, UID_POINTER@)
    &&& text_of(obj.cid_annotation) == spec_string(v, CID_POINTER@)
    &&& obj.context_id == if json_numbers(v).dom().contains(CONTEXT_ID_POINTER@) {
        Some(json_numbers(v)[CONTEXT_ID_POINTER@])
    } else {
        None
    }
}

/// Reads out of a document what the watcher needs of it.
pub fn read_vm_object(v: &serde_json::Value) -> (r: VmObject)
    ensures
        reads(*v, r),
{
    VmObject {
        has_metadata: has_member(v, METADATA_POINTER),
        name: string_at(v, NAME_POINTER),
        namespace: string_at(v, NAMESPACE_POINTER),
        uid: string_at(v, UID_POINTER),
        cid_annotation: string_at(v, CID_POINTER),
        context_id: number_at(v, CONTEXT_ID_POINTER),
    }
}

} // verus!
