use vstd::prelude::*;
use crate::json::{Json, JsonView};

verus! {

/// A data file holding tag information for terms: a JSON array of
/// five-element rows. Numeric cells keep their number tokens verbatim.
pub type DictionaryTagBankV3 = Vec<DictionaryTagBankV3Row>;

/// One tag row: name, category, sorting order, notes, and popularity
/// score, in that order in the source file.
pub struct DictionaryTagBankV3Row {
    pub name: String,
    pub category: String,
    pub order: String,
    pub notes: String,
    pub score: String,
}

/// The mathematical shape of a tag row.
pub struct TagRowView {
    pub name: Seq<char>,
    pub category: Seq<char>,
    pub order: Seq<char>,
    pub notes: Seq<char>,
    pub score: Seq<char>,
}

impl DeepView for DictionaryTagBankV3Row {
    type V = TagRowView;

    open spec fn deep_view(&self) -> TagRowView {
        TagRowView {
            name: self.name@,
            category: self.category@,
            order: self.order@,
            notes: self.notes@,
            score: self.score@,
        }
    }
}

/// What a well-formed tag row looks like as a document: exactly five
/// cells, strings and number tokens in their fixed positions.
pub open spec fn spec_decode_tag_row(j: JsonView) -> Option<TagRowView> {
    match j {
        JsonView::Arr(a) => {
            if a.len() == 5 {
                match (a[0], a[1], a[2], a[3], a[4]) {
                    (
                        JsonView::Str(name),
                        JsonView::Str(category),
                        JsonView::Num(order),
                        JsonView::Str(notes),
                        JsonView::Num(score),
                    ) => Some(TagRowView { name, category, order, notes, score }),
                    _ => None,
                }
            } else {
                None
            }
        },
        _ => None,
    }
}

/// The document written for a tag row.
pub open spec fn spec_encode_tag_row(t: TagRowView) -> JsonView {
    JsonView::Arr(
        seq![
            JsonView::Str(t.name),
            JsonView::Str(t.category),
            JsonView::Num(t.order),
            JsonView::Str(t.notes),
            JsonView::Num(t.score),
        ],
    )
}

/// Reading back the document written for any tag row yields that row.
pub proof fn lemma_tag_row_round_trip(t: TagRowView)
    ensures
        spec_decode_tag_row(spec_encode_tag_row(t)) == Some(t),
{
}

pub fn decode_tag_row(j: &Json) -> (r: Option<DictionaryTagBankV3Row>)
    ensures
        r.deep_view() == spec_decode_tag_row(j.deep_view()),
{
    match j {
        Json::Arr(a) => {
            if a.len() != 5 {
                return None;
            }
            proof {
                assert(j.deep_view()->Arr_0[0] == a@[0].deep_view());
                assert(j.deep_view()->Arr_0[1] == a@[1].deep_view());
                assert(j.deep_view()->Arr_0[2] == a@[2].deep_view());
                assert(j.deep_view()->Arr_0[3] == a@[3].deep_view());
                assert(j.deep_view()->Arr_0[4] == a@[4].deep_view());
            }
            let name = match &a[0] {
                Json::Str(s) => s.clone(),
                _ => { return None },
            };
            let category = match &a[1] {
                Json::Str(s) => s.clone(),
                _ => { return None },
            };
            let order = match &a[2] {
                Json::Num(s) => s.clone(),
                _ => { return None },
            };
            let notes = match &a[3] {
                Json::Str(s) => s.clone(),
                _ => { return None },
            };
            let score = match &a[4] {
                Json::Num(s) => s.clone(),
                _ => { return None },
            };
            Some(DictionaryTagBankV3Row { name, category, order, notes, score })
        },
        _ => None,
    }
}

pub fn encode_tag_row(t: &DictionaryTagBankV3Row) -> (r: Json)
    ensures
        r.deep_view() == spec_encode_tag_row(t.deep_view()),
{
    let mut a: Vec<Json> = Vec::new();
    a.push(Json::Str(t.name.clone()));
    a.push(Json::Str(t.category.clone()));
    a.push(Json::Num(t.order.clone()));
    a.push(Json::Str(t.notes.clone()));
    a.push(Json::Num(t.score.clone()));
    let r = Json::Arr(a);
    proof {
        let want = spec_encode_tag_row(t.deep_view());
        let av = r.deep_view()->Arr_0;
        assert(a@.len() == 5);
        assert(a@[0].deep_view() == JsonView::Str(t.name@));
        assert(a@[1].deep_view() == JsonView::Str(t.category@));
        assert(a@[2].deep_view() == JsonView::Num(t.order@));
        assert(a@[3].deep_view() == JsonView::Str(t.notes@));
        assert(a@[4].deep_view() == JsonView::Num(t.score@));
        assert(av =~= want->Arr_0);
        assert(r.deep_view() == want);
    }
    r
}

/// Decodes a whole tag-bank file: a JSON array whose every element is a
/// tag row. Fails on the first malformed row.
pub open spec fn spec_decode_tag_bank(j: JsonView) -> Option<Seq<TagRowView>> {
    match j {
        JsonView::Arr(a) => {
            if forall|i: int| 0 <= i < a.len() ==> #[trigger] spec_decode_tag_row(a[i]) is Some {
                Some(Seq::new(a.len(), |i: int| spec_decode_tag_row(a[i])->0))
            } else {
                None
            }
        },
        _ => None,
    }
}

pub fn decode_tag_bank(j: &Json) -> (r: Option<Vec<DictionaryTagBankV3Row>>)
    ensures
        r.deep_view() == spec_decode_tag_bank(j.deep_view()),
{
    match j {
        Json::Arr(a) => {
            let ghost av = j.deep_view()->Arr_0;
            let mut out: Vec<DictionaryTagBankV3Row> = Vec::new();
            let mut i: usize = 0;
            while i < a.len()
                invariant
                    i <= a.len(),
                    av.len() == a.len(),
                    j.deep_view() == JsonView::Arr(av),
                    forall|k: int| 0 <= k < a@.len() ==> av[k] == #[trigger] a@[k].deep_view(),
                    forall|k: int| 0 <= k < i ==> #[trigger] spec_decode_tag_row(av[k]) is Some,
                    out@.len() == i as int,
                    forall|k: int|
                        0 <= k < i ==> #[trigger] out@[k].deep_view() == spec_decode_tag_row(
                            av[k],
                        )->0,
                decreases a.len() - i,
            {
                match decode_tag_row(&a[i]) {
                    Some(row) => {
                        proof {
                            assert(spec_decode_tag_row(av[i as int]) == Some(row.deep_view()));
                        }
                        out.push(row);
                    },
                    None => {
                        proof {
                            assert(spec_decode_tag_row(av[i as int]) is None);
                            assert(spec_decode_tag_bank(j.deep_view()) is None);
                        }
                        return None;
                    },
                }
                i += 1;
            }
            proof {
                assert(forall|k: int|
                    0 <= k < out@.len() ==> #[trigger] out.deep_view()[k] == out@[k].deep_view());
                assert(out.deep_view() =~= Seq::new(av.len(), |k: int| spec_decode_tag_row(av[k])->0));
            }
            Some(out)
        },
        _ => None,
    }
}

} // verus!
