//! What discovery reports for one type.
use vstd::prelude::*;
use crate::json::JsonValue;

verus! {

/// An example for constructing a new instance, with a description.
#[derive(Debug)]
pub struct SpawnInfo {
    pub example: JsonValue,
    pub description: String,
}

/// One addressable sub-path of an instance, with an example value for it.
#[derive(Debug)]
pub struct FieldInfo {
    pub path: String,
    pub value_type: String,
    pub example: JsonValue,
    pub description: String,
}

/// The mutation paths of a type, in the order generated; each entry is
/// keyed by its `path`.
#[derive(Debug)]
pub struct MutationInfo {
    pub fields: Vec<FieldInfo>,
    pub description: String,
}

/// Everything discovered about one type.
#[derive(Debug)]
pub struct FormatInfo {
    pub type_path: String,
    pub spawn_format: SpawnInfo,
    pub mutation_info: MutationInfo,
}

} // verus!
