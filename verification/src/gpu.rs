//! The graphics report: the descriptors of the detected adapters.

use crate::json::{
    document, documents, list_value, new_object, no_members, object_insert, object_value, Json,
};
use vstd::prelude::*;

verus! {

/// The document of the graphics report.
pub open spec fn gpu_document(adapters: Seq<Json>) -> Json {
    Json::Object(no_members().insert("gpus"@, Json::List(adapters)))
}

/// The graphics report: one object whose member `gpus` lists the descriptor
/// of each adapter, in the order given.
pub fn gpu_report(adapters: Vec<serde_json::Value>) -> (report: serde_json::Value)
    ensures
        document(report) == gpu_document(documents(adapters@)),
{
    let mut members = new_object();
    object_insert(&mut members, "gpus", list_value(adapters));
    object_value(members)
}

} // verus!
