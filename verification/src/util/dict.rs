use vstd::prelude::*;
use vstd::string::StringExecFns;
use crate::db::Db;
use crate::error::DictError;
use crate::ext::json_doc_of;
use crate::json::parse_json_text;
use crate::schemas::dictionary_index::{DictionaryIndex, IndexView, decode_index, spec_decode_index};
use crate::schemas::dictionary_tag_bank_v3::{DictionaryTagBankV3, TagRowView, decode_tag_bank, spec_decode_tag_bank};
use crate::schemas::dictionary_term_bank_v3::{DictionaryTermBankV3, TermRowView};
use crate::schemas::term_bank_codec::{decode_term_bank, spec_decode_term_bank};
use crate::text::{chars_vec, starts_with_chars, ends_with_chars, spec_starts_with, spec_ends_with};
use crate::util::config::Config;

verus! {

/// The import pipeline around one configuration: selects bank files,
/// parses the index and the banks, and commits them in one transaction.
/// Reading the archive from disk is its caller's concern; the pipeline
/// works on file names and file contents.
pub struct Dict<'a> {
    pub config: &'a Config,
}

/// The file names that belong to a bank category: `{prefix}*.json`, in
/// the order given (the caller's listing order; no order is promised).
pub open spec fn spec_bank_files(names: Seq<String>, prefix: Seq<char>) -> Seq<String>
    decreases names.len(),
{
    if names.len() == 0 {
        Seq::empty()
    } else {
        let pre = spec_bank_files(names.drop_last(), prefix);
        if spec_starts_with(names.last()@, prefix) && spec_ends_with(names.last()@, ".json"@) {
            pre.push(names.last())
        } else {
            pre
        }
    }
}

/// The index that an index text denotes: the document the reader yields
/// for it, decoded; `None` where either step fails.
pub open spec fn spec_index_of(text: Seq<char>) -> Option<IndexView> {
    match json_doc_of(text) {
        Some(v) => spec_decode_index(v),
        None => None,
    }
}

/// The rows that one term-bank text denotes.
pub open spec fn spec_term_bank_of(text: Seq<char>) -> Option<Seq<TermRowView>> {
    match json_doc_of(text) {
        Some(v) => spec_decode_term_bank(v),
        None => None,
    }
}

/// The rows that one tag-bank text denotes.
pub open spec fn spec_tag_bank_of(text: Seq<char>) -> Option<Seq<TagRowView>> {
    match json_doc_of(text) {
        Some(v) => spec_decode_tag_bank(v),
        None => None,
    }
}

/// The in-order concatenation of every file's term rows, duplicates
/// preserved; `None` as soon as any file fails.
pub open spec fn spec_parse_term_files(files: Seq<(String, String)>) -> Option<Seq<TermRowView>>
    decreases files.len(),
{
    if files.len() == 0 {
        Some(Seq::empty())
    } else {
        match (spec_parse_term_files(files.drop_last()), spec_term_bank_of(files.last().1@)) {
            (Some(pre), Some(rows)) => Some(pre + rows),
            _ => None,
        }
    }
}

/// The in-order concatenation of every file's tag rows; `None` as soon as
/// any file fails.
pub open spec fn spec_parse_tag_files(files: Seq<(String, String)>) -> Option<Seq<TagRowView>>
    decreases files.len(),
{
    if files.len() == 0 {
        Some(Seq::empty())
    } else {
        match (spec_parse_tag_files(files.drop_last()), spec_tag_bank_of(files.last().1@)) {
            (Some(pre), Some(rows)) => Some(pre + rows),
            _ => None,
        }
    }
}

/// One failing file fails the whole selection.
proof fn lemma_term_files_elem_none(files: Seq<(String, String)>, i: int)
    requires
        0 <= i < files.len(),
        spec_term_bank_of(files[i].1@) is None,
    ensures
        spec_parse_term_files(files) is None,
    decreases files.len(),
{
    if i < files.len() - 1 {
        assert(files.drop_last()[i] == files[i]);
        lemma_term_files_elem_none(files.drop_last(), i);
    } else {
        assert(files.last() == files[i]);
    }
}

/// One failing file fails the whole selection.
proof fn lemma_tag_files_elem_none(files: Seq<(String, String)>, i: int)
    requires
        0 <= i < files.len(),
        spec_tag_bank_of(files[i].1@) is None,
    ensures
        spec_parse_tag_files(files) is None,
    decreases files.len(),
{
    if i < files.len() - 1 {
        assert(files.drop_last()[i] == files[i]);
        lemma_tag_files_elem_none(files.drop_last(), i);
    } else {
        assert(files.last() == files[i]);
    }
}

impl<'a> Dict<'a> {
    pub fn new(config: &'a Config) -> (r: Self)
        ensures
            r.config == config,
    {
        Dict { config }
    }

    /// Selects, from a directory listing, the file names of one bank
    /// category.
    pub fn get_entries(&self, names: &Vec<String>, prefix: &str) -> (r: Vec<String>)
        ensures
            r@.len() == spec_bank_files(names@, prefix@).len(),
            forall|k: int|
                0 <= k < r@.len() ==> #[trigger] r@[k] == spec_bank_files(names@, prefix@)[k],
    {
        let p = chars_vec(prefix);
        let suffix = chars_vec(".json");
        let ghost all = names@;
        let mut r: Vec<String> = Vec::new();
        let mut i: usize = 0;
        while i < names.len()
            invariant
                i <= names@.len(),
                all == names@,
                p@ == prefix@,
                suffix@ == ".json"@,
                r@.len() == spec_bank_files(all.take(i as int), prefix@).len(),
                forall|k: int|
                    0 <= k < r@.len() ==> #[trigger] r@[k] == spec_bank_files(
                        all.take(i as int),
                        prefix@,
                    )[k],
            decreases names@.len() - i,
        {
            proof {
                assert(all.take(i + 1).drop_last() =~= all.take(i as int));
                assert(all.take(i + 1).last() == all[i as int]);
            }
            let cs = chars_vec(names[i].as_str());
            if starts_with_chars(&cs, &p) && ends_with_chars(&cs, &suffix) {
                r.push(names[i].clone());
            }
            i += 1;
        }
        proof {
            assert(all.take(all.len() as int) =~= all);
        }
        r
    }

    /// Parses the index document: succeeds exactly when the text reads as
    /// a JSON document of the index shape, and then yields exactly that
    /// index. Fails with a schema error naming `index.json` otherwise;
    /// the constrained fields are checked separately by `validate`.
    pub fn parse_index(&self, text: &str) -> (r: Result<DictionaryIndex, DictError>)
        ensures
            (r is Ok) == (spec_index_of(text@) is Some),
            r is Ok ==> Some(r->Ok_0.deep_view()) == spec_index_of(text@),
            r is Err ==> r->Err_0 is Schema,
    {
        match parse_json_text(text) {
            Ok(j) => match decode_index(&j) {
                Some(ix) => Ok(ix),
                None => Err(
                    DictError::Schema {
                        file: String::from_str("index.json"),
                        message: String::from_str("not a dictionary index document"),
                    },
                ),
            },
            Err(e) => Err(name_schema_file(e, "index.json")),
        }
    }

    /// Parses every term-bank file and appends their rows in the order the
    /// files were given, duplicates preserved: succeeds exactly when every
    /// file reads as a term-bank document, and then yields exactly their
    /// concatenation; any malformed file aborts the whole import.
    pub fn parse_term_bank(&self, files: &Vec<(String, String)>) -> (r: Result<
        DictionaryTermBankV3,
        DictError,
    >)
        ensures
            (r is Ok) == (spec_parse_term_files(files@) is Some),
            r is Ok ==> r->Ok_0.deep_view() == spec_parse_term_files(files@)->0,
            r is Err ==> r->Err_0 is Schema,
    {
        let ghost fv = files@;
        let mut all: DictionaryTermBankV3 = Vec::new();
        let mut i: usize = 0;
        while i < files.len()
            invariant
                i <= files@.len(),
                fv == files@,
                spec_parse_term_files(fv.take(i as int)) == Some(all.deep_view()),
            decreases files@.len() - i,
        {
            proof {
                assert(fv.take(i + 1).drop_last() =~= fv.take(i as int));
                assert(fv.take(i + 1).last() == fv[i as int]);
            }
            let rows = match parse_json_text(files[i].1.as_str()) {
                Ok(j) => match decode_term_bank(&j) {
                    Some(rows) => {
                        proof {
                            assert(spec_term_bank_of(fv[i as int].1@) == Some(rows.deep_view()));
                        }
                        rows
                    },
                    None => {
                        proof {
                            assert(spec_term_bank_of(fv[i as int].1@) is None);
                            lemma_term_files_elem_none(fv, i as int);
                        }
                        return Err(
                            DictError::Schema {
                                file: files[i].0.clone(),
                                message: String::from_str("not a term-bank document"),
                            },
                        );
                    },
                },
                Err(e) => {
                    proof {
                        assert(spec_term_bank_of(fv[i as int].1@) is None);
                        lemma_term_files_elem_none(fv, i as int);
                    }
                    return Err(name_schema_file(e, files[i].0.as_str()));
                },
            };
            let ghost prev = all;
            let mut rows = rows;
            let ghost rows0 = rows;
            all.append(&mut rows);
            proof {
                crate::json::lemma_vec_dv_concat(prev, rows0, all);
            }
            i += 1;
        }
        proof {
            assert(fv.take(files@.len() as int) =~= fv);
        }
        Ok(all)
    }

    /// Parses every tag-bank file and appends their rows in the order the
    /// files were given: succeeds exactly when every file reads as a
    /// tag-bank document, and then yields exactly their concatenation;
    /// any malformed file aborts the whole import.
    pub fn parse_tag_bank(&self, files: &Vec<(String, String)>) -> (r: Result<
        DictionaryTagBankV3,
        DictError,
    >)
        ensures
            (r is Ok) == (spec_parse_tag_files(files@) is Some),
            r is Ok ==> r->Ok_0.deep_view() == spec_parse_tag_files(files@)->0,
            r is Err ==> r->Err_0 is Schema,
    {
        let ghost fv = files@;
        let mut all: DictionaryTagBankV3 = Vec::new();
        let mut i: usize = 0;
        while i < files.len()
            invariant
                i <= files@.len(),
                fv == files@,
                spec_parse_tag_files(fv.take(i as int)) == Some(all.deep_view()),
            decreases files@.len() - i,
        {
            proof {
                assert(fv.take(i + 1).drop_last() =~= fv.take(i as int));
                assert(fv.take(i + 1).last() == fv[i as int]);
            }
            let rows = match parse_json_text(files[i].1.as_str()) {
                Ok(j) => match decode_tag_bank(&j) {
                    Some(rows) => {
                        proof {
                            assert(spec_tag_bank_of(fv[i as int].1@) == Some(rows.deep_view()));
                        }
                        rows
                    },
                    None => {
                        proof {
                            assert(spec_tag_bank_of(fv[i as int].1@) is None);
                            lemma_tag_files_elem_none(fv, i as int);
                        }
                        return Err(
                            DictError::Schema {
                                file: files[i].0.clone(),
                                message: String::from_str("not a tag-bank document"),
                            },
                        );
                    },
                },
                Err(e) => {
                    proof {
                        assert(spec_tag_bank_of(fv[i as int].1@) is None);
                        lemma_tag_files_elem_none(fv, i as int);
                    }
                    return Err(name_schema_file(e, files[i].0.as_str()));
                },
            };
            let ghost prev = all;
            let mut rows = rows;
            let ghost rows0 = rows;
            all.append(&mut rows);
            proof {
                crate::json::lemma_vec_dv_concat(prev, rows0, all);
            }
            i += 1;
        }
        proof {
            assert(fv.take(files@.len() as int) =~= fv);
        }
        Ok(all)
    }

    /// One import invocation on extracted file contents: parse the index
    /// and both banks, then commit everything in one transaction. It
    /// succeeds exactly when the index and every bank file denote
    /// well-formed documents and the generated identifiers fit, and then
    /// the store has gained exactly the denoted dictionary, entry and tag
    /// rows. On any failure — a malformed file as much as a full store —
    /// the store is left exactly as it was: partial ingestion is never
    /// observable.
    pub fn parse_dict(
        &self,
        db: &mut Db,
        index_text: &str,
        term_files: &Vec<(String, String)>,
        tag_files: &Vec<(String, String)>,
    ) -> (r: Result<(), DictError>)
        requires
            old(db).wf(),
        ensures
            final(db).wf(),
            r is Err ==> *final(db) == *old(db),
            (r is Ok) == ({
                &&& spec_index_of(index_text@) is Some
                &&& spec_parse_term_files(term_files@) is Some
                &&& spec_parse_tag_files(tag_files@) is Some
                &&& crate::db::query::spec_insert_fits(
                    *old(db),
                    spec_parse_term_files(term_files@)->0.len(),
                    spec_parse_tag_files(tag_files@)->0.len(),
                )
            }),
            r is Ok ==> crate::db::query::spec_inserted_view(
                *old(db),
                *final(db),
                spec_index_of(index_text@)->0,
                spec_parse_term_files(term_files@)->0,
                spec_parse_tag_files(tag_files@)->0,
            ),
    {
        let index = match self.parse_index(index_text) {
            Ok(ix) => ix,
            Err(e) => { return Err(e) },
        };
        let terms = match self.parse_term_bank(term_files) {
            Ok(t) => t,
            Err(e) => { return Err(e) },
        };
        let tags = match self.parse_tag_bank(tag_files) {
            Ok(t) => t,
            Err(e) => { return Err(e) },
        };
        let ghost db0 = *db;
        let ghost index0 = index;
        let ghost terms0 = terms;
        let ghost tags0 = tags;
        let r = db.insert_dictionary_data(index, terms, tags);
        proof {
            if r is Ok {
                crate::db::query::lemma_inserted_view(db0, *db, index0, terms0, tags0);
            }
        }
        r
    }
}

/// Puts the offending file's name on a schema error that does not carry
/// one yet.
fn name_schema_file(e: DictError, file: &str) -> (r: DictError)
    ensures
        r is Schema,
{
    match e {
        DictError::Schema { file: f, message } => keep_or_name(f, message, file),
        DictError::Io(m) => DictError::Schema { file: file.to_owned(), message: m },
        DictError::Archive(m) => DictError::Schema { file: file.to_owned(), message: m },
        DictError::Store(m) => DictError::Schema { file: file.to_owned(), message: m },
    }
}

fn keep_or_name(f: String, message: String, file: &str) -> (r: DictError)
    ensures
        r is Schema,
{
    if f.as_str().is_empty() {
        DictError::Schema { file: file.to_owned(), message }
    } else {
        DictError::Schema { file: f, message }
    }
}

} // verus!
