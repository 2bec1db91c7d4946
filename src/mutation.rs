use vstd::prelude::*;

use crate::clock::Timestamp;

verus! {

/// `serde_json::Value`, carried through as an opaque JSON value.
#[verifier::external_type_specification]
#[verifier::external_body]
pub struct ExJsonValue(serde_json::Value);

/// `serde_json::Map`, carried through as an opaque JSON object.
#[verifier::external_type_specification]
#[verifier::external_body]
#[verifier::reject_recursive_types(K)]
#[verifier::reject_recursive_types(V)]
pub struct ExJsonMap<K, V>(serde_json::Map<K, V>);

/// Relies on the `Clone` that `serde_json::Value` derives: the copy is the
/// same JSON value.
#[verifier::external_body]
fn clone_json(v: &serde_json::Value) -> (r: serde_json::Value)
    ensures
        r == *v,
{
    v.clone()
}

/// An index configuration change. The core stores and forwards it and never
/// reads inside it.
#[derive(Debug)]
pub struct SettingsUpdate {
    pub body: serde_json::Value,
}

impl SettingsUpdate {
    /// A copy of this change.
    pub fn duplicate(&self) -> (r: SettingsUpdate)
        ensures
            r == *self,
    {
        SettingsUpdate { body: clone_json(&self.body) }
    }
}

/// One JSON document: field names mapped to values.
pub type Document = serde_json::Map<String, serde_json::Value>;

/// What a mutation asks the index to do.
#[derive(Debug)]
pub enum UpdateData {
    /// Remove every document.
    ClearAll,
    /// An engine-specific operation with an opaque payload.
    Customs(Vec<u8>),
    /// Insert or replace whole documents.
    DocumentsAddition { primary_key: Option<String>, documents: Vec<Document> },
    /// Merge fields into documents, creating those that are absent.
    DocumentsPartial { primary_key: Option<String>, documents: Vec<Document> },
    /// Delete the documents with these identifiers.
    DocumentsDeletion(Vec<String>),
    /// Change the index configuration.
    Settings(Box<SettingsUpdate>),
}

/// The summary of a mutation that status records echo back: counts in place
/// of document payloads, the whole change for settings.
#[derive(Debug)]
pub enum UpdateType {
    ClearAll,
    Customs,
    DocumentsAddition { number: usize },
    DocumentsPartial { number: usize },
    DocumentsDeletion { number: usize },
    Settings { settings: Box<SettingsUpdate> },
}

impl UpdateType {
    /// A copy of this summary.
    pub fn duplicate(&self) -> (r: UpdateType)
        ensures
            r == *self,
    {
        match self {
            UpdateType::ClearAll => UpdateType::ClearAll,
            UpdateType::Customs => UpdateType::Customs,
            UpdateType::DocumentsAddition { number } => UpdateType::DocumentsAddition {
                number: *number,
            },
            UpdateType::DocumentsPartial { number } => UpdateType::DocumentsPartial {
                number: *number,
            },
            UpdateType::DocumentsDeletion { number } => UpdateType::DocumentsDeletion {
                number: *number,
            },
            UpdateType::Settings { settings } => UpdateType::Settings {
                settings: Box::new(settings.duplicate()),
            },
        }
    }
}

/// The summary that a mutation's data projects to.
pub open spec fn type_of(data: UpdateData) -> UpdateType {
    match data {
        UpdateData::ClearAll => UpdateType::ClearAll,
        UpdateData::Customs(_) => UpdateType::Customs,
        UpdateData::DocumentsAddition { documents, .. } => UpdateType::DocumentsAddition {
            number: documents.len(),
        },
        UpdateData::DocumentsPartial { documents, .. } => UpdateType::DocumentsPartial {
            number: documents.len(),
        },
        UpdateData::DocumentsDeletion(ids) => UpdateType::DocumentsDeletion { number: ids.len() },
        UpdateData::Settings(update) => UpdateType::Settings { settings: update },
    }
}

impl UpdateData {
    /// The summary of this mutation: the number of documents or identifiers it
    /// carries, or a copy of the settings change.
    pub fn update_type(&self) -> (r: UpdateType)
        ensures
            r == type_of(*self),
            self matches UpdateData::DocumentsAddition { documents, .. } ==> (
            r matches UpdateType::DocumentsAddition { number } && number == documents.len()),
            self matches UpdateData::DocumentsPartial { documents, .. } ==> (
            r matches UpdateType::DocumentsPartial { number } && number == documents.len()),
            self matches UpdateData::DocumentsDeletion(ids) ==> (
            r matches UpdateType::DocumentsDeletion { number } && number == ids.len()),
    {
        match self {
            UpdateData::ClearAll => UpdateType::ClearAll,
            UpdateData::Customs(_) => UpdateType::Customs,
            UpdateData::DocumentsAddition { documents, .. } => UpdateType::DocumentsAddition {
                number: documents.len(),
            },
            UpdateData::DocumentsPartial { documents, .. } => UpdateType::DocumentsPartial {
                number: documents.len(),
            },
            UpdateData::DocumentsDeletion(ids) => UpdateType::DocumentsDeletion {
                number: ids.len(),
            },
            UpdateData::Settings(update) => UpdateType::Settings {
                settings: Box::new(update.duplicate()),
            },
        }
    }
}

/// A mutation as the queue holds it: what to do and when it was enqueued.
#[derive(Debug)]
pub struct Update {
    pub data: UpdateData,
    pub enqueued_at: Timestamp,
}

} // verus!
