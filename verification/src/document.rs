//! Documents and the bulk-edit request the client constructs for them.

use vstd::prelude::*;
use vstd::string::StringExecFns;

use crate::text::{i32_to_string, spec_decimal_i32};

verus! {

/// One document, as the server lists it.
#[derive(Debug)]
pub struct Document {
    /// The document's title.
    pub title: String,
    /// The server-assigned id.
    pub id: i32,
    /// The ids of the tags on this document.
    pub tags: Vec<i32>,
}

/// One bulk edit: a named method applied with parameters to a set of
/// document ids at once. Constructed by the client, never parsed.
#[derive(Debug)]
pub struct DocumentBulkEdit {
    /// The ids of the documents the edit applies to.
    pub documents: Vec<i32>,
    /// The server-side method to apply.
    pub method: String,
    /// The method's parameters, as key–value pairs with distinct keys.
    pub parameters: Vec<(String, String)>,
}

impl DocumentBulkEdit {
    /// The edit that assigns the correspondent with `correspondent_id`
    /// to every document in `doc_ids`: method `set_correspondent` with
    /// the one parameter `correspondent`, the id rendered in decimal.
    pub fn set_correspondent(doc_ids: Vec<i32>, correspondent_id: i32) -> (e: DocumentBulkEdit)
        ensures
            e.documents@ == doc_ids@,
            e.method@ == "set_correspondent"@,
            e.parameters@.len() == 1,
            e.parameters@[0].0@ == "correspondent"@,
            e.parameters@[0].1@ == spec_decimal_i32(correspondent_id as int),
    {
        let mut parameters: Vec<(String, String)> = Vec::new();
        parameters.push((String::from_str("correspondent"), i32_to_string(correspondent_id)));
        DocumentBulkEdit { documents: doc_ids, method: String::from_str("set_correspondent"), parameters }
    }
}

} // verus!
