pub mod query;
pub mod tables;

use vstd::prelude::*;
use crate::db::tables::{DefinitionTag, Dictionary, DictionaryEntry};

verus! {

/// The dictionary store: three tables with generated identifiers. Writes
/// are all-or-nothing; readers only ever see committed rows.
pub struct Db {
    pub dictionaries: Vec<Dictionary>,
    pub entries: Vec<DictionaryEntry>,
    pub tags: Vec<DefinitionTag>,
    pub next_dictionary_id: i32,
    pub next_entry_id: i32,
    pub next_tag_id: i32,
}

impl Db {
    /// Well-formedness: the generated-identifier counters are positive.
    /// `new` establishes it and every write preserves it.
    pub open spec fn wf(self) -> bool {
        self.next_dictionary_id >= 1 && self.next_entry_id >= 1 && self.next_tag_id >= 1
    }

    /// An empty store; generated identifiers start at 1.
    pub fn new() -> (r: Db)
        ensures
            r.wf(),
            r.dictionaries@.len() == 0,
            r.entries@.len() == 0,
            r.tags@.len() == 0,
            r.next_dictionary_id == 1,
            r.next_entry_id == 1,
            r.next_tag_id == 1,
    {
        Db {
            dictionaries: Vec::new(),
            entries: Vec::new(),
            tags: Vec::new(),
            next_dictionary_id: 1,
            next_entry_id: 1,
            next_tag_id: 1,
        }
    }
}

} // verus!
