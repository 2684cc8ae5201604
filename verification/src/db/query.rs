use vstd::prelude::*;
use crate::db::Db;
use crate::db::tables::{DefinitionTag, Dictionary, DictionaryEntry};
use crate::error::DictError;
use crate::schemas::dictionary_index::{DictionaryIndex, IndexView, spec_get_format};
use crate::schemas::dictionary_tag_bank_v3::{DictionaryTagBankV3, DictionaryTagBankV3Row, TagRowView};
use crate::schemas::dictionary_term_bank_v3::{DictionaryTermBankV3, DictionaryTermBankV3Row, TermRowView};
use vstd::string::StringExecFns;

verus! {

/// How many entry rows one insert statement carries.
pub const ENTRY_CHUNK_SIZE: usize = 100;

/// The persisted dictionary row that an index document yields, with the
/// given generated identifier.
pub open spec fn spec_dictionary_from_index(dict: DictionaryIndex, id: i32, d: Dictionary) -> bool {
    &&& d.id == id
    &&& d.title == dict.title
    &&& d.revision == dict.revision
    &&& d.author == dict.author
    &&& d.description == dict.description
    &&& d.attribution == dict.attribution
    &&& d.url == dict.url
    &&& d.source_language == dict.source_language
    &&& d.target_language == dict.target_language
    &&& d.frequency_mode == dict.frequency_mode
    &&& d.format == spec_get_format(dict.deep_view()) as i32
    &&& d.sequenced == dict.sequenced
    &&& d.minimum_yomitan_version == dict.minimum_yomitan_version
    &&& d.is_updatable == match dict.is_updatable {
        Some(b) => b,
        None => false,
    }
    &&& d.index_url == dict.index_url
    &&& d.download_url == dict.download_url
    &&& d.tag_meta == dict.tag_meta
}

/// The persisted entry row that a term row yields, with the given
/// generated identifier and owning dictionary.
pub open spec fn spec_entry_from_row(
    row: DictionaryTermBankV3Row,
    id: i32,
    dictionary_id: i32,
    e: DictionaryEntry,
) -> bool {
    &&& e.id == id
    &&& e.dictionary_id == dictionary_id
    &&& e.expression == row.expression
    &&& e.reading == row.reading
    &&& e.definitions == row.definitions
    &&& e.rules == row.rules
    &&& e.score == row.score
    &&& e.sequence == row.sequence
    &&& e.definition_tags@ == match row.definition_tags {
        Some(s) => s@,
        None => Seq::<char>::empty(),
    }
    &&& e.expression_tags == row.expression_tags
}

/// The persisted tag row that a tag-bank row yields.
pub open spec fn spec_tag_from_row(
    row: DictionaryTagBankV3Row,
    id: i32,
    dictionary_id: i32,
    t: DefinitionTag,
) -> bool {
    &&& t.id == id
    &&& t.dictionary_id == dictionary_id
    &&& t.name == row.name
    &&& t.category == row.category
    &&& t.order == row.order
    &&& t.notes == row.notes
    &&& t.score == row.score
}

/// `spec_dictionary_from_index`, stated over the index's mathematical
/// shape rather than the parsed value.
pub open spec fn spec_dictionary_from_index_view(ix: IndexView, id: i32, d: Dictionary) -> bool {
    &&& d.id == id
    &&& d.title@ == ix.title
    &&& d.revision@ == ix.revision
    &&& d.author.deep_view() == ix.author
    &&& d.description.deep_view() == ix.description
    &&& d.attribution.deep_view() == ix.attribution
    &&& d.url.deep_view() == ix.url
    &&& d.source_language.deep_view() == ix.source_language
    &&& d.target_language.deep_view() == ix.target_language
    &&& d.frequency_mode.deep_view() == ix.frequency_mode
    &&& d.format == spec_get_format(ix) as i32
    &&& d.sequenced == ix.sequenced
    &&& d.minimum_yomitan_version.deep_view() == ix.minimum_yomitan_version
    &&& d.is_updatable == match ix.is_updatable {
        Some(b) => b,
        None => false,
    }
    &&& d.index_url.deep_view() == ix.index_url
    &&& d.download_url.deep_view() == ix.download_url
    &&& d.tag_meta.deep_view() == ix.tag_meta
}

/// `spec_entry_from_row`, stated over the row's mathematical shape.
pub open spec fn spec_entry_from_row_view(
    row: TermRowView,
    id: i32,
    dictionary_id: i32,
    e: DictionaryEntry,
) -> bool {
    &&& e.id == id
    &&& e.dictionary_id == dictionary_id
    &&& e.expression@ == row.expression
    &&& e.reading@ == row.reading
    &&& e.definitions.deep_view() == row.definitions
    &&& e.rules@ == row.rules
    &&& e.score@ == row.score
    &&& e.sequence == row.sequence
    &&& e.definition_tags@ == match row.definition_tags {
        Some(s) => s,
        None => Seq::<char>::empty(),
    }
    &&& e.expression_tags@ == row.expression_tags
}

/// `spec_tag_from_row`, stated over the tag row's mathematical shape.
pub open spec fn spec_tag_from_row_view(
    row: TagRowView,
    id: i32,
    dictionary_id: i32,
    t: DefinitionTag,
) -> bool {
    &&& t.id == id
    &&& t.dictionary_id == dictionary_id
    &&& t.name@ == row.name
    &&& t.category@ == row.category
    &&& t.order@ == row.order
    &&& t.notes@ == row.notes
    &&& t.score@ == row.score
}

/// `spec_inserted`, stated over the parsed data's mathematical shapes, so
/// that callers can speak of what a text denotes rather than of a value.
pub open spec fn spec_inserted_view(
    old_db: Db,
    new_db: Db,
    ix: IndexView,
    entries: Seq<TermRowView>,
    tags: Seq<TagRowView>,
) -> bool {
    let did = old_db.next_dictionary_id;
    &&& new_db.dictionaries@.len() == old_db.dictionaries@.len() + 1
    &&& forall|k: int|
        0 <= k < old_db.dictionaries@.len() ==> #[trigger] new_db.dictionaries@[k]
            == old_db.dictionaries@[k]
    &&& spec_dictionary_from_index_view(ix, did, new_db.dictionaries@.last())
    &&& new_db.entries@.len() == old_db.entries@.len() + entries.len()
    &&& forall|k: int|
        0 <= k < old_db.entries@.len() ==> #[trigger] new_db.entries@[k] == old_db.entries@[k]
    &&& forall|k: int|
        0 <= k < entries.len() ==> spec_entry_from_row_view(
            entries[k],
            (old_db.next_entry_id + k) as i32,
            did,
            #[trigger] new_db.entries@[old_db.entries@.len() + k],
        )
    &&& new_db.tags@.len() == old_db.tags@.len() + tags.len()
    &&& forall|k: int|
        0 <= k < old_db.tags@.len() ==> #[trigger] new_db.tags@[k] == old_db.tags@[k]
    &&& forall|k: int|
        0 <= k < tags.len() ==> spec_tag_from_row_view(
            tags[k],
            (old_db.next_tag_id + k) as i32,
            did,
            #[trigger] new_db.tags@[old_db.tags@.len() + k],
        )
    &&& new_db.next_dictionary_id == old_db.next_dictionary_id + 1
    &&& new_db.next_entry_id == old_db.next_entry_id + entries.len()
    &&& new_db.next_tag_id == old_db.next_tag_id + tags.len()
}

/// What was inserted from parsed values was inserted from their shapes.
pub proof fn lemma_inserted_view(
    old_db: Db,
    new_db: Db,
    dict: DictionaryIndex,
    entries: Vec<DictionaryTermBankV3Row>,
    tags: Vec<DictionaryTagBankV3Row>,
)
    requires
        spec_inserted(old_db, new_db, dict, entries@, tags@),
    ensures
        spec_inserted_view(
            old_db,
            new_db,
            dict.deep_view(),
            entries.deep_view(),
            tags.deep_view(),
        ),
{
    assert(entries.deep_view().len() == entries@.len());
    assert(tags.deep_view().len() == tags@.len());
    assert forall|k: int| 0 <= k < entries@.len() implies spec_entry_from_row_view(
        entries.deep_view()[k],
        (old_db.next_entry_id + k) as i32,
        old_db.next_dictionary_id,
        #[trigger] new_db.entries@[old_db.entries@.len() + k],
    ) by {
        assert(spec_entry_from_row(
            entries@[k],
            (old_db.next_entry_id + k) as i32,
            old_db.next_dictionary_id,
            new_db.entries@[old_db.entries@.len() + k],
        ));
        assert(entries.deep_view()[k] == entries@[k].deep_view());
    }
    assert forall|k: int| 0 <= k < tags@.len() implies spec_tag_from_row_view(
        tags.deep_view()[k],
        (old_db.next_tag_id + k) as i32,
        old_db.next_dictionary_id,
        #[trigger] new_db.tags@[old_db.tags@.len() + k],
    ) by {
        assert(spec_tag_from_row(
            tags@[k],
            (old_db.next_tag_id + k) as i32,
            old_db.next_dictionary_id,
            new_db.tags@[old_db.tags@.len() + k],
        ));
        assert(tags.deep_view()[k] == tags@[k].deep_view());
    }
    assert(spec_dictionary_from_index(dict, old_db.next_dictionary_id, new_db.dictionaries@.last()));
}

/// Whether one insert invocation has room for its generated identifiers.
pub open spec fn spec_insert_fits(db: Db, n_entries: nat, n_tags: nat) -> bool {
    &&& (db.next_dictionary_id as int) < 2147483647
    &&& n_entries <= 2147483647 - db.next_entry_id as int
    &&& n_tags <= 2147483647 - db.next_tag_id as int
}

/// Everything `insert_dictionary_data` promises on success: the
/// dictionary row is appended first, then every entry and tag row, each
/// with consecutive generated identifiers and the dictionary's id as
/// foreign key; nothing else changes.
pub open spec fn spec_inserted(
    old_db: Db,
    new_db: Db,
    dict: DictionaryIndex,
    entries: Seq<DictionaryTermBankV3Row>,
    tags: Seq<DictionaryTagBankV3Row>,
) -> bool {
    let did = old_db.next_dictionary_id;
    &&& new_db.dictionaries@.len() == old_db.dictionaries@.len() + 1
    &&& forall|k: int|
        0 <= k < old_db.dictionaries@.len() ==> #[trigger] new_db.dictionaries@[k]
            == old_db.dictionaries@[k]
    &&& spec_dictionary_from_index(dict, did, new_db.dictionaries@.last())
    &&& new_db.entries@.len() == old_db.entries@.len() + entries.len()
    &&& forall|k: int|
        0 <= k < old_db.entries@.len() ==> #[trigger] new_db.entries@[k] == old_db.entries@[k]
    &&& forall|k: int|
        0 <= k < entries.len() ==> spec_entry_from_row(
            entries[k],
            (old_db.next_entry_id + k) as i32,
            did,
            #[trigger] new_db.entries@[old_db.entries@.len() + k],
        )
    &&& new_db.tags@.len() == old_db.tags@.len() + tags.len()
    &&& forall|k: int|
        0 <= k < old_db.tags@.len() ==> #[trigger] new_db.tags@[k] == old_db.tags@[k]
    &&& forall|k: int|
        0 <= k < tags.len() ==> spec_tag_from_row(
            tags[k],
            (old_db.next_tag_id + k) as i32,
            did,
            #[trigger] new_db.tags@[old_db.tags@.len() + k],
        )
    &&& new_db.next_dictionary_id == old_db.next_dictionary_id + 1
    &&& new_db.next_entry_id == old_db.next_entry_id + entries.len()
    &&& new_db.next_tag_id == old_db.next_tag_id + tags.len()
}

impl Db {
    /// Persists one parsed dictionary atomically: the dictionary row
    /// first, then every entry (in batches of `chunk` rows) and every
    /// tag. Fails, leaving the store untouched, exactly when a generated
    /// identifier would not fit. The batch size has no observable effect.
    #[verifier::loop_isolation(false)]
    pub fn insert_dictionary_data_chunked(
        &mut self,
        dict: DictionaryIndex,
        entries: DictionaryTermBankV3,
        tags: DictionaryTagBankV3,
        chunk: usize,
    ) -> (r: Result<(), DictError>)
        requires
            chunk >= 1,
            old(self).wf(),
        ensures
            final(self).wf(),
            (r is Ok) == spec_insert_fits(*old(self), entries@.len(), tags@.len()),
            r is Err ==> *final(self) == *old(self),
            r is Ok ==> spec_inserted(*old(self), *final(self), dict, entries@, tags@),
    {
        if self.next_dictionary_id >= 2147483647 {
            return Err(DictError::Store(String::from_str("dictionary id space exhausted")));
        }
        let room_e: u64 = (2147483647u64 - self.next_entry_id as u64);
        if entries.len() as u64 > room_e {
            return Err(DictError::Store(String::from_str("entry id space exhausted")));
        }
        let room_t: u64 = (2147483647u64 - self.next_tag_id as u64);
        if tags.len() as u64 > room_t {
            return Err(DictError::Store(String::from_str("tag id space exhausted")));
        }
        let ghost old_db = *self;
        let ghost entries0 = entries@;
        let ghost tags0 = tags@;
        let did = self.next_dictionary_id;
        let format = dict.get_format();
        let is_updatable = match dict.is_updatable {
            Some(b) => b,
            None => false,
        };
        let d = Dictionary {
            id: did,
            title: dict.title,
            revision: dict.revision,
            author: dict.author,
            description: dict.description,
            attribution: dict.attribution,
            url: dict.url,
            source_language: dict.source_language,
            target_language: dict.target_language,
            frequency_mode: dict.frequency_mode,
            format: format as i32,
            sequenced: dict.sequenced,
            minimum_yomitan_version: dict.minimum_yomitan_version,
            is_updatable,
            index_url: dict.index_url,
            download_url: dict.download_url,
            tag_meta: dict.tag_meta,
        };
        self.dictionaries.push(d);
        self.next_dictionary_id = self.next_dictionary_id + 1;
        let ghost db1 = *self;

        let n_entries = entries.len();
        let mut rev: Vec<DictionaryTermBankV3Row> = Vec::new();
        let mut entries = entries;
        while entries.len() > 0
            invariant
                rev@.len() + entries@.len() == n_entries as int,
                entries@ == entries0.take(entries@.len() as int),
                forall|k: int|
                    0 <= k < rev@.len() ==> #[trigger] rev@[k] == entries0[n_entries - 1 - k],
            decreases entries@.len(),
        {
            match entries.pop() {
                Some(x) => {
                    proof {
                        let m = entries@.len() as int;
                        assert(entries0.take(m + 1)[m] == entries0[m]);
                        assert(entries0.take(m + 1).drop_last() =~= entries0.take(m));
                    }
                    rev.push(x);
                },
                None => {
                    break ;
                },
            }
        }
        let base = self.entries.len();
        let next_e0 = self.next_entry_id;
        let mut p: usize = 0;
        while p < n_entries
            invariant
                p <= n_entries,
                rev@.len() == n_entries - p,
                forall|k: int|
                    0 <= k < rev@.len() ==> #[trigger] rev@[k] == entries0[n_entries - 1 - k],
                n_entries == entries0.len(),
                next_e0 == old_db.next_entry_id,
                (next_e0 as int) + (n_entries as int) <= 2147483647,
                next_e0 >= 1,
                base == old_db.entries@.len(),
                self.entries@.len() == base + p,
                forall|k: int|
                    0 <= k < base ==> #[trigger] self.entries@[k] == old_db.entries@[k],
                forall|k: int|
                    0 <= k < p ==> spec_entry_from_row(
                        entries0[k],
                        (next_e0 + k) as i32,
                        did,
                        #[trigger] self.entries@[base + k],
                    ),
                self.dictionaries == db1.dictionaries,
                self.tags == db1.tags,
                self.next_dictionary_id == db1.next_dictionary_id,
                self.next_entry_id == db1.next_entry_id,
                self.next_tag_id == db1.next_tag_id,
            decreases n_entries - p,
        {
            let ghost p0 = p as int;
            let mut c: usize = 0;
            while c < chunk && p < n_entries
                invariant
                    p0 <= p as int,
                    p as int - p0 == c as int,
                    p <= n_entries,
                    rev@.len() == n_entries - p,
                    forall|k: int|
                        0 <= k < rev@.len() ==> #[trigger] rev@[k] == entries0[n_entries - 1 - k],
                    n_entries == entries0.len(),
                    next_e0 == old_db.next_entry_id,
                    (next_e0 as int) + (n_entries as int) <= 2147483647,
                    next_e0 >= 1,
                    base == old_db.entries@.len(),
                    self.entries@.len() == base + p,
                    forall|k: int|
                        0 <= k < base ==> #[trigger] self.entries@[k] == old_db.entries@[k],
                    forall|k: int|
                        0 <= k < p ==> spec_entry_from_row(
                            entries0[k],
                            (next_e0 + k) as i32,
                            did,
                            #[trigger] self.entries@[base + k],
                        ),
                    self.dictionaries == db1.dictionaries,
                    self.tags == db1.tags,
                    self.next_dictionary_id == db1.next_dictionary_id,
                    self.next_entry_id == db1.next_entry_id,
                    self.next_tag_id == db1.next_tag_id,
                decreases n_entries - p,
            {
                let row = match rev.pop() {
                    Some(x) => x,
                    None => {
                        proof {
                            assert(false);
                        }
                        break ;
                    },
                };
                proof {
                    assert(row == entries0[p as int]);
                }
                let definition_tags = match row.definition_tags {
                    Some(s) => s,
                    None => String::new(),
                };
                let e = DictionaryEntry {
                    id: (next_e0 as i64 + p as i64) as i32,
                    dictionary_id: did,
                    expression: row.expression,
                    reading: row.reading,
                    definitions: row.definitions,
                    rules: row.rules,
                    score: row.score,
                    sequence: row.sequence,
                    definition_tags,
                    expression_tags: row.expression_tags,
                };
                self.entries.push(e);
                p = p + 1;
                c = c + 1;
            }
        }
        self.next_entry_id = (next_e0 as i64 + n_entries as i64) as i32;
        let ghost db2 = *self;

        let n_tags = tags.len();
        let mut trev: Vec<DictionaryTagBankV3Row> = Vec::new();
        let mut tags = tags;
        while tags.len() > 0
            invariant
                trev@.len() + tags@.len() == n_tags as int,
                tags@ == tags0.take(tags@.len() as int),
                forall|k: int| 0 <= k < trev@.len() ==> #[trigger] trev@[k] == tags0[n_tags - 1 - k],
            decreases tags@.len(),
        {
            match tags.pop() {
                Some(x) => {
                    proof {
                        let m = tags@.len() as int;
                        assert(tags0.take(m + 1)[m] == tags0[m]);
                        assert(tags0.take(m + 1).drop_last() =~= tags0.take(m));
                    }
                    trev.push(x);
                },
                None => {
                    break ;
                },
            }
        }
        let tbase = self.tags.len();
        let next_t0 = self.next_tag_id;
        let mut q: usize = 0;
        while q < n_tags
            invariant
                q <= n_tags,
                trev@.len() == n_tags - q,
                forall|k: int| 0 <= k < trev@.len() ==> #[trigger] trev@[k] == tags0[n_tags - 1 - k],
                n_tags == tags0.len(),
                next_t0 == old_db.next_tag_id,
                (next_t0 as int) + (n_tags as int) <= 2147483647,
                next_t0 >= 1,
                tbase == old_db.tags@.len(),
                self.tags@.len() == tbase + q,
                forall|k: int| 0 <= k < tbase ==> #[trigger] self.tags@[k] == old_db.tags@[k],
                forall|k: int|
                    0 <= k < q ==> spec_tag_from_row(
                        tags0[k],
                        (next_t0 + k) as i32,
                        did,
                        #[trigger] self.tags@[tbase + k],
                    ),
                self.dictionaries == db2.dictionaries,
                self.entries == db2.entries,
                self.next_dictionary_id == db2.next_dictionary_id,
                self.next_entry_id == db2.next_entry_id,
                self.next_tag_id == db2.next_tag_id,
            decreases n_tags - q,
        {
            let row = match trev.pop() {
                Some(x) => x,
                None => {
                    proof {
                        assert(false);
                    }
                    break ;
                },
            };
            proof {
                assert(row == tags0[q as int]);
            }
            let t = DefinitionTag {
                id: (next_t0 as i64 + q as i64) as i32,
                dictionary_id: did,
                name: row.name,
                category: row.category,
                order: row.order,
                notes: row.notes,
                score: row.score,
            };
            self.tags.push(t);
            q = q + 1;
        }
        self.next_tag_id = (next_t0 as i64 + n_tags as i64) as i32;
        Ok(())
    }

    /// Persists one parsed dictionary atomically with the fixed batch
    /// size of `ENTRY_CHUNK_SIZE` rows per statement.
    pub fn insert_dictionary_data(
        &mut self,
        dict: DictionaryIndex,
        entries: DictionaryTermBankV3,
        tags: DictionaryTagBankV3,
    ) -> (r: Result<(), DictError>)
        requires
            old(self).wf(),
        ensures
            final(self).wf(),
            (r is Ok) == spec_insert_fits(*old(self), entries@.len(), tags@.len()),
            r is Err ==> *final(self) == *old(self),
            r is Ok ==> spec_inserted(*old(self), *final(self), dict, entries@, tags@),
    {
        self.insert_dictionary_data_chunked(dict, entries, tags, ENTRY_CHUNK_SIZE)
    }
}

/// The entries whose expression is exactly `q`, in store order.
pub open spec fn spec_entries_with_expression(s: Seq<DictionaryEntry>, q: Seq<char>) -> Seq<
    DictionaryEntry,
>
    decreases s.len(),
{
    if s.len() == 0 {
        Seq::empty()
    } else {
        let pre = spec_entries_with_expression(s.drop_last(), q);
        if s.last().expression@ == q {
            pre.push(s.last())
        } else {
            pre
        }
    }
}

/// The tags whose name is exactly `q`, in store order.
pub open spec fn spec_tags_with_name(s: Seq<DefinitionTag>, q: Seq<char>) -> Seq<DefinitionTag>
    decreases s.len(),
{
    if s.len() == 0 {
        Seq::empty()
    } else {
        let pre = spec_tags_with_name(s.drop_last(), q);
        if s.last().name@ == q {
            pre.push(s.last())
        } else {
            pre
        }
    }
}

impl Db {
    /// All committed entries for an expression, in store order.
    pub fn query_dictionary_entry_by<'a>(&'a self, expression: &str) -> (r: Vec<
        &'a DictionaryEntry,
    >)
        ensures
            r@.len() == spec_entries_with_expression(self.entries@, expression@).len(),
            forall|k: int|
                0 <= k < r@.len() ==> *(#[trigger] r@[k]) == spec_entries_with_expression(
                    self.entries@,
                    expression@,
                )[k],
    {
        let ghost all = self.entries@;
        let mut r: Vec<&'a DictionaryEntry> = Vec::new();
        let mut i: usize = 0;
        while i < self.entries.len()
            invariant
                i <= self.entries@.len(),
                all == self.entries@,
                r@.len() == spec_entries_with_expression(all.take(i as int), expression@).len(),
                forall|k: int|
                    0 <= k < r@.len() ==> *(#[trigger] r@[k]) == spec_entries_with_expression(
                        all.take(i as int),
                        expression@,
                    )[k],
            decreases self.entries@.len() - i,
        {
            proof {
                assert(all.take(i + 1).drop_last() =~= all.take(i as int));
                assert(all.take(i + 1).last() == all[i as int]);
            }
            if crate::ext::str_eq(self.entries[i].expression.as_str(), expression) {
                r.push(&self.entries[i]);
            }
            i += 1;
        }
        proof {
            assert(all.take(all.len() as int) =~= all);
        }
        r
    }

    /// The committed dictionary with this identifier, or an explicit
    /// absence; never an error.
    pub fn query_dictionary<'a>(&'a self, dictionary_id: i32) -> (r: Option<&'a Dictionary>)
        ensures
            (r is Some) == (exists|k: int|
                0 <= k < self.dictionaries@.len() && (#[trigger] self.dictionaries@[k]).id
                    == dictionary_id),
            r is Some ==> r->0.id == dictionary_id && self.dictionaries@.contains(*r->0),
    {
        let mut i: usize = 0;
        while i < self.dictionaries.len()
            invariant
                i <= self.dictionaries@.len(),
                forall|k: int|
                    0 <= k < i ==> (#[trigger] self.dictionaries@[k]).id != dictionary_id,
            decreases self.dictionaries@.len() - i,
        {
            if self.dictionaries[i].id == dictionary_id {
                return Some(&self.dictionaries[i]);
            }
            i += 1;
        }
        None
    }

    /// All committed tags with this name, in store order.
    pub fn query_definition_tag_by<'a>(&'a self, name: &str) -> (r: Vec<&'a DefinitionTag>)
        ensures
            r@.len() == spec_tags_with_name(self.tags@, name@).len(),
            forall|k: int|
                0 <= k < r@.len() ==> *(#[trigger] r@[k]) == spec_tags_with_name(
                    self.tags@,
                    name@,
                )[k],
    {
        let ghost all = self.tags@;
        let mut r: Vec<&'a DefinitionTag> = Vec::new();
        let mut i: usize = 0;
        while i < self.tags.len()
            invariant
                i <= self.tags@.len(),
                all == self.tags@,
                r@.len() == spec_tags_with_name(all.take(i as int), name@).len(),
                forall|k: int|
                    0 <= k < r@.len() ==> *(#[trigger] r@[k]) == spec_tags_with_name(
                        all.take(i as int),
                        name@,
                    )[k],
            decreases self.tags@.len() - i,
        {
            proof {
                assert(all.take(i + 1).drop_last() =~= all.take(i as int));
                assert(all.take(i + 1).last() == all[i as int]);
            }
            if crate::ext::str_eq(self.tags[i].name.as_str(), name) {
                r.push(&self.tags[i]);
            }
            i += 1;
        }
        proof {
            assert(all.take(all.len() as int) =~= all);
        }
        r
    }

    /// All committed dictionaries, in store order.
    pub fn query_all_dictionaries<'a>(&'a self) -> (r: &'a Vec<Dictionary>)
        ensures
            r@ == self.dictionaries@,
    {
        &self.dictionaries
    }
}


/// The dictionaries that survive deleting an identifier.
pub open spec fn spec_dictionaries_without(s: Seq<Dictionary>, id: i32) -> Seq<Dictionary>
    decreases s.len(),
{
    if s.len() == 0 {
        Seq::empty()
    } else {
        let pre = spec_dictionaries_without(s.drop_last(), id);
        if s.last().id == id {
            pre
        } else {
            pre.push(s.last())
        }
    }
}

/// The entries that survive deleting a dictionary.
pub open spec fn spec_entries_without(s: Seq<DictionaryEntry>, id: i32) -> Seq<DictionaryEntry>
    decreases s.len(),
{
    if s.len() == 0 {
        Seq::empty()
    } else {
        let pre = spec_entries_without(s.drop_last(), id);
        if s.last().dictionary_id == id {
            pre
        } else {
            pre.push(s.last())
        }
    }
}

/// The tags that survive deleting a dictionary.
pub open spec fn spec_tags_without(s: Seq<DefinitionTag>, id: i32) -> Seq<DefinitionTag>
    decreases s.len(),
{
    if s.len() == 0 {
        Seq::empty()
    } else {
        let pre = spec_tags_without(s.drop_last(), id);
        if s.last().dictionary_id == id {
            pre
        } else {
            pre.push(s.last())
        }
    }
}

impl Db {
    /// Removes the dictionary with this identifier and, cascading, every
    /// entry and tag that belonged to it; everything else, the generated-
    /// identifier counters included, stays as it was. Removing an absent
    /// identifier removes nothing.
    #[verifier::loop_isolation(false)]
    pub fn delete_dictionary(&mut self, dictionary_id: i32)
        requires
            old(self).wf(),
        ensures
            final(self).wf(),
            final(self).dictionaries@ == spec_dictionaries_without(
                old(self).dictionaries@,
                dictionary_id,
            ),
            final(self).entries@ == spec_entries_without(old(self).entries@, dictionary_id),
            final(self).tags@ == spec_tags_without(old(self).tags@, dictionary_id),
            final(self).next_dictionary_id == old(self).next_dictionary_id,
            final(self).next_entry_id == old(self).next_entry_id,
            final(self).next_tag_id == old(self).next_tag_id,
    {
        let ghost d0 = self.dictionaries@;
        let n = self.dictionaries.len();
        let mut rev: Vec<Dictionary> = Vec::new();
        while self.dictionaries.len() > 0
            invariant
                rev@.len() + self.dictionaries@.len() == n as int,
                self.dictionaries@ == d0.take(self.dictionaries@.len() as int),
                forall|k: int| 0 <= k < rev@.len() ==> #[trigger] rev@[k] == d0[n - 1 - k],
                self.entries == old(self).entries,
                self.tags == old(self).tags,
                self.next_dictionary_id == old(self).next_dictionary_id,
                self.next_entry_id == old(self).next_entry_id,
                self.next_tag_id == old(self).next_tag_id,
            decreases self.dictionaries@.len(),
        {
            match self.dictionaries.pop() {
                Some(x) => {
                    proof {
                        let m = self.dictionaries@.len() as int;
                        assert(d0.take(m + 1)[m] == d0[m]);
                        assert(d0.take(m + 1).drop_last() =~= d0.take(m));
                    }
                    rev.push(x);
                },
                None => {
                    break ;
                },
            }
        }
        let mut p: usize = 0;
        while p < n
            invariant
                p <= n,
                rev@.len() == n - p,
                forall|k: int| 0 <= k < rev@.len() ==> #[trigger] rev@[k] == d0[n - 1 - k],
                n == d0.len(),
                self.dictionaries@ == spec_dictionaries_without(d0.take(p as int), dictionary_id),
                self.entries == old(self).entries,
                self.tags == old(self).tags,
                self.next_dictionary_id == old(self).next_dictionary_id,
                self.next_entry_id == old(self).next_entry_id,
                self.next_tag_id == old(self).next_tag_id,
            decreases n - p,
        {
            let d = match rev.pop() {
                Some(x) => x,
                None => {
                    proof {
                        assert(false);
                    }
                    break ;
                },
            };
            proof {
                assert(d == d0[p as int]);
                assert(d0.take(p + 1).drop_last() =~= d0.take(p as int));
                assert(d0.take(p + 1).last() == d0[p as int]);
            }
            if d.id != dictionary_id {
                self.dictionaries.push(d);
            }
            p = p + 1;
        }
        proof {
            assert(d0.take(n as int) =~= d0);
        }

        let ghost e0 = self.entries@;
        let ne = self.entries.len();
        let mut erev: Vec<DictionaryEntry> = Vec::new();
        while self.entries.len() > 0
            invariant
                erev@.len() + self.entries@.len() == ne as int,
                self.entries@ == e0.take(self.entries@.len() as int),
                forall|k: int| 0 <= k < erev@.len() ==> #[trigger] erev@[k] == e0[ne - 1 - k],
                self.dictionaries@ == spec_dictionaries_without(d0, dictionary_id),
                self.tags == old(self).tags,
                self.next_dictionary_id == old(self).next_dictionary_id,
                self.next_entry_id == old(self).next_entry_id,
                self.next_tag_id == old(self).next_tag_id,
            decreases self.entries@.len(),
        {
            match self.entries.pop() {
                Some(x) => {
                    proof {
                        let m = self.entries@.len() as int;
                        assert(e0.take(m + 1)[m] == e0[m]);
                        assert(e0.take(m + 1).drop_last() =~= e0.take(m));
                    }
                    erev.push(x);
                },
                None => {
                    break ;
                },
            }
        }
        let mut q: usize = 0;
        while q < ne
            invariant
                q <= ne,
                erev@.len() == ne - q,
                forall|k: int| 0 <= k < erev@.len() ==> #[trigger] erev@[k] == e0[ne - 1 - k],
                ne == e0.len(),
                self.entries@ == spec_entries_without(e0.take(q as int), dictionary_id),
                self.dictionaries@ == spec_dictionaries_without(d0, dictionary_id),
                self.tags == old(self).tags,
                self.next_dictionary_id == old(self).next_dictionary_id,
                self.next_entry_id == old(self).next_entry_id,
                self.next_tag_id == old(self).next_tag_id,
            decreases ne - q,
        {
            let e = match erev.pop() {
                Some(x) => x,
                None => {
                    proof {
                        assert(false);
                    }
                    break ;
                },
            };
            proof {
                assert(e == e0[q as int]);
                assert(e0.take(q + 1).drop_last() =~= e0.take(q as int));
                assert(e0.take(q + 1).last() == e0[q as int]);
            }
            if e.dictionary_id != dictionary_id {
                self.entries.push(e);
            }
            q = q + 1;
        }
        proof {
            assert(e0.take(ne as int) =~= e0);
        }

        let ghost t0 = self.tags@;
        let nt = self.tags.len();
        let mut trev: Vec<DefinitionTag> = Vec::new();
        while self.tags.len() > 0
            invariant
                trev@.len() + self.tags@.len() == nt as int,
                self.tags@ == t0.take(self.tags@.len() as int),
                forall|k: int| 0 <= k < trev@.len() ==> #[trigger] trev@[k] == t0[nt - 1 - k],
                self.dictionaries@ == spec_dictionaries_without(d0, dictionary_id),
                self.entries@ == spec_entries_without(e0, dictionary_id),
                self.next_dictionary_id == old(self).next_dictionary_id,
                self.next_entry_id == old(self).next_entry_id,
                self.next_tag_id == old(self).next_tag_id,
            decreases self.tags@.len(),
        {
            match self.tags.pop() {
                Some(x) => {
                    proof {
                        let m = self.tags@.len() as int;
                        assert(t0.take(m + 1)[m] == t0[m]);
                        assert(t0.take(m + 1).drop_last() =~= t0.take(m));
                    }
                    trev.push(x);
                },
                None => {
                    break ;
                },
            }
        }
        let mut w: usize = 0;
        while w < nt
            invariant
                w <= nt,
                trev@.len() == nt - w,
                forall|k: int| 0 <= k < trev@.len() ==> #[trigger] trev@[k] == t0[nt - 1 - k],
                nt == t0.len(),
                self.tags@ == spec_tags_without(t0.take(w as int), dictionary_id),
                self.dictionaries@ == spec_dictionaries_without(d0, dictionary_id),
                self.entries@ == spec_entries_without(e0, dictionary_id),
                self.next_dictionary_id == old(self).next_dictionary_id,
                self.next_entry_id == old(self).next_entry_id,
                self.next_tag_id == old(self).next_tag_id,
            decreases nt - w,
        {
            let t = match trev.pop() {
                Some(x) => x,
                None => {
                    proof {
                        assert(false);
                    }
                    break ;
                },
            };
            proof {
                assert(t == t0[w as int]);
                assert(t0.take(w + 1).drop_last() =~= t0.take(w as int));
                assert(t0.take(w + 1).last() == t0[w as int]);
            }
            if t.dictionary_id != dictionary_id {
                self.tags.push(t);
            }
            w = w + 1;
        }
        proof {
            assert(t0.take(nt as int) =~= t0);
        }
    }
}

} // verus!
