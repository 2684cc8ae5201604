use vstd::prelude::*;
use crate::json::{
    Json, JsonView, spec_obj_get, sget_req_str, sget_opt_str, sget_opt_bool, sget_bool_or,
    sget_opt_int, sget_opt_num, obj_find, get_req_str, get_opt_str, get_opt_bool, get_bool_or,
    get_opt_int, get_opt_num,
};
use crate::schemas::term_bank_codec::{
    OmSpec, omembers, opt_member, omap_str, omap_num, push_member, push_opt_str_member,
    push_opt_num_member,
};
use crate::text::chars_vec;
use vstd::string::StringExecFns;

verus! {

/// Top-level metadata of one dictionary release. Parsing is structural
/// only; `validate` checks the constrained fields separately.
pub struct DictionaryIndex {
    pub title: String,
    pub revision: String,
    pub minimum_yomitan_version: Option<String>,
    pub sequenced: bool,
    pub format: Option<u8>,
    pub version: Option<u8>,
    pub author: Option<String>,
    pub is_updatable: Option<bool>,
    pub index_url: Option<String>,
    pub download_url: Option<String>,
    pub url: Option<String>,
    pub description: Option<String>,
    pub attribution: Option<String>,
    pub source_language: Option<String>,
    pub target_language: Option<String>,
    pub frequency_mode: Option<String>,
    pub tag_meta: Option<Vec<(String, TagMetaValue)>>,
}

/// Obsolete inline tag information, kept for compatibility: per tag name a
/// category, sorting order, notes, and score, each optional. Numeric
/// members keep their number tokens.
pub struct TagMetaValue {
    pub category: Option<String>,
    pub order: Option<String>,
    pub notes: Option<String>,
    pub score: Option<String>,
}

pub struct TagMetaValueView {
    pub category: Option<Seq<char>>,
    pub order: Option<Seq<char>>,
    pub notes: Option<Seq<char>>,
    pub score: Option<Seq<char>>,
}

pub struct IndexView {
    pub title: Seq<char>,
    pub revision: Seq<char>,
    pub minimum_yomitan_version: Option<Seq<char>>,
    pub sequenced: bool,
    pub format: Option<u8>,
    pub version: Option<u8>,
    pub author: Option<Seq<char>>,
    pub is_updatable: Option<bool>,
    pub index_url: Option<Seq<char>>,
    pub download_url: Option<Seq<char>>,
    pub url: Option<Seq<char>>,
    pub description: Option<Seq<char>>,
    pub attribution: Option<Seq<char>>,
    pub source_language: Option<Seq<char>>,
    pub target_language: Option<Seq<char>>,
    pub frequency_mode: Option<Seq<char>>,
    pub tag_meta: Option<Seq<(Seq<char>, TagMetaValueView)>>,
}

impl DeepView for TagMetaValue {
    type V = TagMetaValueView;

    open spec fn deep_view(&self) -> TagMetaValueView {
        TagMetaValueView {
            category: self.category.deep_view(),
            order: self.order.deep_view(),
            notes: self.notes.deep_view(),
            score: self.score.deep_view(),
        }
    }
}

impl DeepView for DictionaryIndex {
    type V = IndexView;

    open spec fn deep_view(&self) -> IndexView {
        IndexView {
            title: self.title@,
            revision: self.revision@,
            minimum_yomitan_version: self.minimum_yomitan_version.deep_view(),
            sequenced: self.sequenced,
            format: self.format,
            version: self.version,
            author: self.author.deep_view(),
            is_updatable: self.is_updatable,
            index_url: self.index_url.deep_view(),
            download_url: self.download_url.deep_view(),
            url: self.url.deep_view(),
            description: self.description.deep_view(),
            attribution: self.attribution.deep_view(),
            source_language: self.source_language.deep_view(),
            target_language: self.target_language.deep_view(),
            frequency_mode: self.frequency_mode.deep_view(),
            tag_meta: self.tag_meta.deep_view(),
        }
    }
}

/// Structural shape of one tag-meta entry value.
pub open spec fn spec_decode_tag_meta_value(j: JsonView) -> Option<TagMetaValueView> {
    match j {
        JsonView::Obj(o) => {
            if sget_opt_str(o, "category"@) is Some && sget_opt_num(o, "order"@) is Some
                && sget_opt_str(o, "notes"@) is Some && sget_opt_num(o, "score"@) is Some {
                Some(
                    TagMetaValueView {
                        category: sget_opt_str(o, "category"@)->0,
                        order: sget_opt_num(o, "order"@)->0,
                        notes: sget_opt_str(o, "notes"@)->0,
                        score: sget_opt_num(o, "score"@)->0,
                    },
                )
            } else {
                None
            }
        },
        _ => None,
    }
}

/// Structural shape of the optional `tagMeta` member: an object whose
/// every value is a tag-meta entry.
pub open spec fn spec_decode_tag_meta(o: Seq<(Seq<char>, JsonView)>) -> Option<
    Option<Seq<(Seq<char>, TagMetaValueView)>>,
> {
    match spec_obj_get(o, "tagMeta"@) {
        None => Some(None),
        Some(JsonView::Obj(m)) => {
            if forall|i: int|
                0 <= i < m.len() ==> #[trigger] spec_decode_tag_meta_value(m[i].1) is Some {
                Some(
                    Some(
                        Seq::new(m.len(), |i: int| (m[i].0, spec_decode_tag_meta_value(m[i].1)->0)),
                    ),
                )
            } else {
                None
            }
        },
        Some(_) => None,
    }
}

/// Structural shape of the index document: `title` and `revision` are
/// required strings; everything else is optional, with `sequenced`
/// defaulting to false; `format` and `version` must be whole numbers that
/// fit a byte. Unknown members are ignored.
pub open spec fn spec_decode_index(j: JsonView) -> Option<IndexView> {
    match j {
        JsonView::Obj(o) => {
            if sget_req_str(o, "title"@) is Some && sget_req_str(o, "revision"@) is Some
                && sget_opt_str(o, "minimumYomitanVersion"@) is Some && sget_bool_or(
                o,
                "sequenced"@,
                false,
            ) is Some && sget_opt_int(o, "format"@, 0, 255) is Some && sget_opt_int(
                o,
                "version"@,
                0,
                255,
            ) is Some && sget_opt_str(o, "author"@) is Some && sget_opt_bool(o, "isUpdatable"@)
                is Some && sget_opt_str(o, "indexUrl"@) is Some && sget_opt_str(o, "downloadUrl"@)
                is Some && sget_opt_str(o, "url"@) is Some && sget_opt_str(o, "description"@)
                is Some && sget_opt_str(o, "attribution"@) is Some && sget_opt_str(
                o,
                "sourceLanguage"@,
            ) is Some && sget_opt_str(o, "targetLanguage"@) is Some && sget_opt_str(
                o,
                "frequencyMode"@,
            ) is Some && spec_decode_tag_meta(o) is Some {
                Some(
                    IndexView {
                        title: sget_req_str(o, "title"@)->0,
                        revision: sget_req_str(o, "revision"@)->0,
                        minimum_yomitan_version: sget_opt_str(o, "minimumYomitanVersion"@)->0,
                        sequenced: sget_bool_or(o, "sequenced"@, false)->0,
                        format: match sget_opt_int(o, "format"@, 0, 255)->0 {
                            Some(v) => Some(v as u8),
                            None => None,
                        },
                        version: match sget_opt_int(o, "version"@, 0, 255)->0 {
                            Some(v) => Some(v as u8),
                            None => None,
                        },
                        author: sget_opt_str(o, "author"@)->0,
                        is_updatable: sget_opt_bool(o, "isUpdatable"@)->0,
                        index_url: sget_opt_str(o, "indexUrl"@)->0,
                        download_url: sget_opt_str(o, "downloadUrl"@)->0,
                        url: sget_opt_str(o, "url"@)->0,
                        description: sget_opt_str(o, "description"@)->0,
                        attribution: sget_opt_str(o, "attribution"@)->0,
                        source_language: sget_opt_str(o, "sourceLanguage"@)->0,
                        target_language: sget_opt_str(o, "targetLanguage"@)->0,
                        frequency_mode: sget_opt_str(o, "frequencyMode"@)->0,
                        tag_meta: spec_decode_tag_meta(o)->0,
                    },
                )
            } else {
                None
            }
        },
        _ => None,
    }
}

fn decode_tag_meta_value(j: &Json) -> (r: Option<TagMetaValue>)
    ensures
        r.deep_view() == spec_decode_tag_meta_value(j.deep_view()),
{
    match j {
        Json::Obj(o) => {
            proof {
                crate::json::lemma_obj_view(*j);
            }
            let category = match get_opt_str(o, "category") {
                Some(v) => v,
                None => { return None },
            };
            let order = match get_opt_num(o, "order") {
                Some(v) => v,
                None => { return None },
            };
            let notes = match get_opt_str(o, "notes") {
                Some(v) => v,
                None => { return None },
            };
            let score = match get_opt_num(o, "score") {
                Some(v) => v,
                None => { return None },
            };
            Some(TagMetaValue { category, order, notes, score })
        },
        _ => None,
    }
}

fn decode_tag_meta(o: &Vec<(String, Json)>) -> (r: Option<Option<Vec<(String, TagMetaValue)>>>)
    ensures
        match r {
            Some(v) => spec_decode_tag_meta(o.deep_view()) == Some(v.deep_view()),
            None => spec_decode_tag_meta(o.deep_view()) is None,
        },
{
    let idx = match obj_find(o, "tagMeta") {
        Some(i) => i,
        None => { return Some(None) },
    };
    let target: &Json = &o[idx].1;
    proof {
        assert(*target == o@[idx as int].1);
    }
    match target {
        Json::Obj(m) => {
            proof {
                assert(o@[idx as int].1 is Obj);
                assert(o@[idx as int].1->Obj_0@ == m@);
            }
            let ghost mv = m.deep_view();
            proof {
                crate::json::lemma_obj_view(o@[idx as int].1);
                crate::json::lemma_members_view(*m);
            }
            let mut out: Vec<(String, TagMetaValue)> = Vec::new();
            let mut i: usize = 0;
            while i < m.len()
                invariant
                    i <= m.len(),
                    mv.len() == m.len(),
                    o@[idx as int].1.deep_view() == JsonView::Obj(mv),
                    idx < o@.len(),
                    spec_obj_get(o.deep_view(), "tagMeta"@) == Some(o@[idx as int].1.deep_view()),
                    forall|k: int|
                        0 <= k < m@.len() ==> mv[k] == (m@[k].0@, #[trigger] m@[k].1.deep_view()),
                    forall|k: int|
                        0 <= k < i ==> #[trigger] spec_decode_tag_meta_value(mv[k].1) is Some,
                    out@.len() == i as int,
                    forall|k: int|
                        0 <= k < i ==> #[trigger] out@[k].deep_view() == (
                            mv[k].0,
                            spec_decode_tag_meta_value(mv[k].1)->0,
                        ),
                decreases m.len() - i,
            {
                match decode_tag_meta_value(&m[i].1) {
                    Some(v) => {
                        proof {
                            assert(spec_decode_tag_meta_value(mv[i as int].1) == Some(
                                v.deep_view(),
                            ));
                        }
                        let key = m[i].0.clone();
                        out.push((key, v));
                    },
                    None => {
                        proof {
                            assert(spec_decode_tag_meta_value(mv[i as int].1) is None);
                        }
                        return None;
                    },
                }
                i += 1;
            }
            proof {
                assert(forall|k: int|
                    0 <= k < out@.len() ==> #[trigger] out.deep_view()[k] == out@[k].deep_view());
                assert(out.deep_view() =~= Seq::new(
                    mv.len(),
                    |k: int| (mv[k].0, spec_decode_tag_meta_value(mv[k].1)->0),
                ));
            }
            Some(Some(out))
        },
        _ => None,
    }
}

/// Reads an index document. Returns `None` exactly when the document is
/// not the shape `spec_decode_index` describes.
pub fn decode_index(j: &Json) -> (r: Option<DictionaryIndex>)
    ensures
        r.deep_view() == spec_decode_index(j.deep_view()),
{
    match j {
        Json::Obj(o) => {
            proof {
                crate::json::lemma_obj_view(*j);
            }
            let title = match get_req_str(o, "title") {
                Some(v) => v,
                None => { return None },
            };
            let revision = match get_req_str(o, "revision") {
                Some(v) => v,
                None => { return None },
            };
            let minimum_yomitan_version = match get_opt_str(o, "minimumYomitanVersion") {
                Some(v) => v,
                None => { return None },
            };
            let sequenced = match get_bool_or(o, "sequenced", false) {
                Some(v) => v,
                None => { return None },
            };
            let format = match get_opt_int(o, "format", 0, 255) {
                Some(Some(v)) => Some(v as u8),
                Some(None) => None,
                None => { return None },
            };
            let version = match get_opt_int(o, "version", 0, 255) {
                Some(Some(v)) => Some(v as u8),
                Some(None) => None,
                None => { return None },
            };
            let author = match get_opt_str(o, "author") {
                Some(v) => v,
                None => { return None },
            };
            let is_updatable = match get_opt_bool(o, "isUpdatable") {
                Some(v) => v,
                None => { return None },
            };
            let index_url = match get_opt_str(o, "indexUrl") {
                Some(v) => v,
                None => { return None },
            };
            let download_url = match get_opt_str(o, "downloadUrl") {
                Some(v) => v,
                None => { return None },
            };
            let url = match get_opt_str(o, "url") {
                Some(v) => v,
                None => { return None },
            };
            let description = match get_opt_str(o, "description") {
                Some(v) => v,
                None => { return None },
            };
            let attribution = match get_opt_str(o, "attribution") {
                Some(v) => v,
                None => { return None },
            };
            let source_language = match get_opt_str(o, "sourceLanguage") {
                Some(v) => v,
                None => { return None },
            };
            let target_language = match get_opt_str(o, "targetLanguage") {
                Some(v) => v,
                None => { return None },
            };
            let frequency_mode = match get_opt_str(o, "frequencyMode") {
                Some(v) => v,
                None => { return None },
            };
            let tag_meta = match decode_tag_meta(o) {
                Some(v) => v,
                None => { return None },
            };
            Some(
                DictionaryIndex {
                    title,
                    revision,
                    minimum_yomitan_version,
                    sequenced,
                    format,
                    version,
                    author,
                    is_updatable,
                    index_url,
                    download_url,
                    url,
                    description,
                    attribution,
                    source_language,
                    target_language,
                    frequency_mode,
                    tag_meta,
                },
            )
        },
        _ => None,
    }
}

/// The resolved data-file format: the `version` alias wins over `format`,
/// and both default to 3.
pub open spec fn spec_get_format(v: IndexView) -> u8 {
    match v.version {
        Some(ver) => ver,
        None => match v.format {
            Some(f) => f,
            None => 3,
        },
    }
}

impl DictionaryIndex {
    pub fn get_format(&self) -> (r: u8)
        ensures
            r == spec_get_format(self.deep_view()),
    {
        if let Some(version) = self.version {
            version
        } else {
            match self.format {
                Some(f) => f,
                None => 3,
            }
        }
    }

    /// Checks the constrained fields: `format` and `version` must be 1, 2
    /// or 3, the language codes two or three lowercase letters, and
    /// `frequencyMode` one of its two values. Returns the offending field
    /// name on failure.
    pub fn validate(&self) -> (r: Result<(), String>)
        ensures
            (r is Ok) == spec_valid_index(self.deep_view()),
    {
        if let Some(f) = self.format {
            if !(f >= 1 && f <= 3) {
                return Err(String::from_str("format"));
            }
        }
        if let Some(v) = self.version {
            if !(v >= 1 && v <= 3) {
                return Err(String::from_str("version"));
            }
        }
        if let Some(s) = &self.source_language {
            if !is_lang_code(s.as_str()) {
                return Err(String::from_str("sourceLanguage"));
            }
        }
        if let Some(s) = &self.target_language {
            if !is_lang_code(s.as_str()) {
                return Err(String::from_str("targetLanguage"));
            }
        }
        if let Some(s) = &self.frequency_mode {
            let ok = crate::ext::str_eq(s.as_str(), "occurrence-based") || crate::ext::str_eq(
                s.as_str(),
                "rank-based",
            );
            if !ok {
                return Err(String::from_str("frequencyMode"));
            }
        }
        Ok(())
    }
}

/// A language code: two or three lowercase ASCII letters.
pub open spec fn spec_is_lang_code(s: Seq<char>) -> bool {
    (s.len() == 2 || s.len() == 3) && (forall|i: int|
        0 <= i < s.len() ==> 'a' <= #[trigger] s[i] && s[i] <= 'z')
}

pub fn is_lang_code(s: &str) -> (r: bool)
    ensures
        r == spec_is_lang_code(s@),
{
    let cs = chars_vec(s);
    if !(cs.len() == 2 || cs.len() == 3) {
        return false;
    }
    let mut i: usize = 0;
    while i < cs.len()
        invariant
            i <= cs.len(),
            cs@ == s@,
            forall|k: int| 0 <= k < i ==> 'a' <= #[trigger] s@[k] && s@[k] <= 'z',
        decreases cs.len() - i,
    {
        let c = cs[i];
        if c < 'a' || c > 'z' {
            return false;
        }
        i += 1;
    }
    true
}

/// The validation rule of the index document.
pub open spec fn spec_valid_index(v: IndexView) -> bool {
    &&& match v.format {
        Some(f) => 1 <= f <= 3,
        None => true,
    }
    &&& match v.version {
        Some(f) => 1 <= f <= 3,
        None => true,
    }
    &&& match v.source_language {
        Some(s) => spec_is_lang_code(s),
        None => true,
    }
    &&& match v.target_language {
        Some(s) => spec_is_lang_code(s),
        None => true,
    }
    &&& match v.frequency_mode {
        Some(s) => s == "occurrence-based"@ || s == "rank-based"@,
        None => true,
    }
}


/// The members of one tag-meta entry value, each written only when
/// present.
pub open spec fn tag_meta_value_mspec(v: TagMetaValueView) -> OmSpec {
    Seq::empty().push(("category"@, omap_str(v.category))).push(("order"@, omap_num(v.order))).push(
        ("notes"@, omap_str(v.notes)),
    ).push(("score"@, omap_num(v.score)))
}

pub open spec fn spec_encode_tag_meta_value(v: TagMetaValueView) -> JsonView {
    JsonView::Obj(omembers(tag_meta_value_mspec(v)))
}

/// The document that the obsolete inline tag information is persisted
/// as: null when absent, else per tag name its entry value.
pub open spec fn spec_encode_tag_meta(tm: Option<Seq<(Seq<char>, TagMetaValueView)>>) -> JsonView {
    match tm {
        None => JsonView::Null,
        Some(es) => JsonView::Obj(
            Seq::new(es.len(), |i: int| (es[i].0, spec_encode_tag_meta_value(es[i].1))),
        ),
    }
}

pub fn encode_tag_meta_value(x: &TagMetaValue) -> (r: Json)
    ensures
        r.deep_view() == spec_encode_tag_meta_value(x.deep_view()),
{
    let ghost fv = x.deep_view();
    let mut members: Vec<(String, Json)> = Vec::new();
    let ghost mut acc: OmSpec = Seq::empty();
    proof {
        assert(omembers(acc) =~= Seq::<(Seq<char>, JsonView)>::empty());
        assert(members.deep_view() =~= omembers(acc));
    }
    push_opt_str_member(&mut members, "category", &x.category);
    proof {
        let e = ("category"@, omap_str(fv.category));
        let acc1 = acc.push(e);
        assert(acc1.drop_last() =~= acc);
        assert(acc1.last() == e);
        assert(omembers(acc1) == omembers(acc) + opt_member(e.0, e.1));
        assert(members.deep_view() =~= omembers(acc1));
        acc = acc1;
    }
    push_opt_num_member(&mut members, "order", &x.order);
    proof {
        let e = ("order"@, omap_num(fv.order));
        let acc1 = acc.push(e);
        assert(acc1.drop_last() =~= acc);
        assert(acc1.last() == e);
        assert(omembers(acc1) == omembers(acc) + opt_member(e.0, e.1));
        assert(members.deep_view() =~= omembers(acc1));
        acc = acc1;
    }
    push_opt_str_member(&mut members, "notes", &x.notes);
    proof {
        let e = ("notes"@, omap_str(fv.notes));
        let acc1 = acc.push(e);
        assert(acc1.drop_last() =~= acc);
        assert(acc1.last() == e);
        assert(omembers(acc1) == omembers(acc) + opt_member(e.0, e.1));
        assert(members.deep_view() =~= omembers(acc1));
        acc = acc1;
    }
    push_opt_num_member(&mut members, "score", &x.score);
    proof {
        let e = ("score"@, omap_num(fv.score));
        let acc1 = acc.push(e);
        assert(acc1.drop_last() =~= acc);
        assert(acc1.last() == e);
        assert(omembers(acc1) == omembers(acc) + opt_member(e.0, e.1));
        assert(members.deep_view() =~= omembers(acc1));
        acc = acc1;
    }
    let r = Json::Obj(members);
    proof {
        crate::json::lemma_obj_view(r);
        assert(acc == tag_meta_value_mspec(fv));
    }
    r
}

/// Writes the obsolete inline tag information as one document.
pub fn encode_tag_meta(tm: &Option<Vec<(String, TagMetaValue)>>) -> (r: Json)
    ensures
        r.deep_view() == spec_encode_tag_meta(tm.deep_view()),
{
    match tm {
        None => Json::Null,
        Some(es) => {
            let ghost ev = es.deep_view();
            proof {
                assert(forall|k: int|
                    0 <= k < es@.len() ==> #[trigger] ev[k] == (es@[k].0@, es@[k].1.deep_view()));
            }
            let mut members: Vec<(String, Json)> = Vec::new();
            let mut i: usize = 0;
            while i < es.len()
                invariant
                    i <= es@.len(),
                    ev == es.deep_view(),
                    ev.len() == es@.len(),
                    forall|k: int|
                        0 <= k < es@.len() ==> #[trigger] ev[k] == (es@[k].0@, es@[k].1.deep_view()),
                    members@.len() == i as int,
                    forall|k: int|
                        0 <= k < i ==> #[trigger] members@[k].deep_view() == (
                            ev[k].0,
                            spec_encode_tag_meta_value(ev[k].1),
                        ),
                decreases es@.len() - i,
            {
                let v = encode_tag_meta_value(&es[i].1);
                members.push((es[i].0.clone(), v));
                proof {
                    assert(members@[i as int].deep_view() == (
                        ev[i as int].0,
                        spec_encode_tag_meta_value(ev[i as int].1),
                    ));
                }
                i += 1;
            }
            let r = Json::Obj(members);
            proof {
                crate::json::lemma_obj_view(r);
                crate::json::lemma_members_view(members);
                assert(r.deep_view()->Obj_0 =~= Seq::new(
                    ev.len(),
                    |k: int| (ev[k].0, spec_encode_tag_meta_value(ev[k].1)),
                ));
            }
            r
        },
    }
}

} // verus!
