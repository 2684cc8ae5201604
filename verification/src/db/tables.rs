use vstd::prelude::*;
use crate::schemas::dictionary_index::TagMetaValue;
use crate::schemas::dictionary_term_bank_v3::Definition;

verus! {

/// One persisted dictionary release. `format` is resolved from the index
/// document; `tag_meta` keeps the obsolete inline tag information.
pub struct Dictionary {
    pub id: i32,
    pub title: String,
    pub revision: String,
    pub author: Option<String>,
    pub description: Option<String>,
    pub attribution: Option<String>,
    pub url: Option<String>,
    pub source_language: Option<String>,
    pub target_language: Option<String>,
    pub frequency_mode: Option<String>,
    pub format: i32,
    pub sequenced: bool,
    pub minimum_yomitan_version: Option<String>,
    pub is_updatable: bool,
    pub index_url: Option<String>,
    pub download_url: Option<String>,
    pub tag_meta: Option<Vec<(String, TagMetaValue)>>,
}

/// One persisted term entry; `score` keeps its number token verbatim and
/// `sequence` its source value as a merge-group key.
pub struct DictionaryEntry {
    pub id: i32,
    pub dictionary_id: i32,
    pub expression: String,
    pub reading: String,
    pub definitions: Vec<Definition>,
    pub rules: String,
    pub score: String,
    pub sequence: i32,
    pub definition_tags: String,
    pub expression_tags: String,
}

/// One persisted tag; the numeric cells keep their number tokens.
pub struct DefinitionTag {
    pub id: i32,
    pub dictionary_id: i32,
    pub name: String,
    pub category: String,
    pub order: String,
    pub notes: String,
    pub score: String,
}

} // verus!
