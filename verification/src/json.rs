use vstd::prelude::*;
use vstd::string::StringExecFns;
use crate::error::DictError;
use crate::ext::JsonNode;

verus! {

/// A JSON document tree owned by the crate. Numbers are kept verbatim as
/// their number tokens (see `crate::num`), and objects keep their entries
/// in the order in which they were handed over.
pub enum Json {
    Null,
    Bool(bool),
    Num(String),
    Str(String),
    Arr(Vec<Json>),
    Obj(Vec<(String, Json)>),
}

/// The mathematical shape of a `Json` tree.
pub enum JsonView {
    Null,
    Bool(bool),
    Num(Seq<char>),
    Str(Seq<char>),
    Arr(Seq<JsonView>),
    Obj(Seq<(Seq<char>, JsonView)>),
}

/// One object member as key text and value shape.
pub open spec fn json_member_view(p: (String, Json)) -> (Seq<char>, JsonView)
    decreases p,
{
    (p.0@, p.1.deep_view())
}

impl DeepView for Json {
    type V = JsonView;

    open spec fn deep_view(&self) -> JsonView
        decreases self,
    {
        match self {
            Json::Null => JsonView::Null,
            Json::Bool(b) => JsonView::Bool(*b),
            Json::Num(s) => JsonView::Num(s@),
            Json::Str(s) => JsonView::Str(s@),
            Json::Arr(a) => JsonView::Arr(
                Seq::new(
                    a@.len(),
                    |i: int|
                        if 0 <= i < a@.len() {
                            a@[i].deep_view()
                        } else {
                            JsonView::Null
                        },
                ),
            ),
            Json::Obj(o) => JsonView::Obj(
                Seq::new(
                    o@.len(),
                    |i: int|
                        if 0 <= i < o@.len() {
                            json_member_view(o@[i])
                        } else {
                            (Seq::<char>::empty(), JsonView::Null)
                        },
                ),
            ),
        }
    }
}

/// Looks a key up among an object's entries; on a duplicate key the entry
/// written last wins, as it does in the readers this crate relies on.
pub open spec fn spec_obj_get(o: Seq<(Seq<char>, JsonView)>, key: Seq<char>) -> Option<JsonView>
    decreases o.len(),
{
    if o.len() == 0 {
        None
    } else if o.last().0 == key {
        Some(o.last().1)
    } else {
        spec_obj_get(o.drop_last(), key)
    }
}

/// Finds the index of the entry that `spec_obj_get` resolves a key to.
pub fn obj_find(o: &Vec<(String, Json)>, key: &str) -> (r: Option<usize>)
    ensures
        match r {
            Some(i) => i < o.len() && o@[i as int].0@ == key@ && spec_obj_get(
                o.deep_view(),
                key@,
            ) == Some(o@[i as int].1.deep_view()),
            None => spec_obj_get(o.deep_view(), key@) is None,
        },
{
    let ghost dv = o.deep_view();
    let mut i: usize = o.len();
    assert(dv.take(i as int) =~= dv);
    loop
        invariant
            i <= o.len(),
            dv == o.deep_view(),
            dv.len() == o.len(),
            forall|j: int| 0 <= j < dv.len() ==> #[trigger] dv[j] == (o@[j].0@, o@[j].1.deep_view()),
            spec_obj_get(dv, key@) == spec_obj_get(dv.take(i as int), key@),
        ensures
            i == 0,
            spec_obj_get(dv, key@) is None,
        decreases i,
    {
        if i == 0 {
            break ;
        }
        let j = i - 1;
        if crate::ext::str_eq(o[j].0.as_str(), key) {
            assert(dv.take(j + 1).last() == dv[j as int]);
            assert(spec_obj_get(dv.take(j + 1), key@) == Some(dv[j as int].1));
            return Some(j);
        }
        assert(dv.take(i as int).last() == dv[i - 1]);
        assert(dv.take(i as int).drop_last() =~= dv.take(i as int - 1));
        i = j;
    }
    assert(dv.take(0) =~= Seq::<(Seq<char>, JsonView)>::empty());
    None
}

/// Pointwise description of the view of an object's member list.
pub proof fn lemma_members_view(o: Vec<(String, Json)>)
    ensures
        o.deep_view().len() == o@.len(),
        forall|k: int|
            0 <= k < o@.len() ==> #[trigger] o.deep_view()[k] == (o@[k].0@, o@[k].1.deep_view()),
{
    assert forall|k: int|
        0 <= k < o@.len() implies #[trigger] o.deep_view()[k] == (
        o@[k].0@,
        o@[k].1.deep_view(),
    ) by {
        assert(o.deep_view()[k] == o@[k].deep_view());
        assert(o@[k].deep_view() == (o@[k].0.deep_view(), o@[k].1.deep_view()));
        assert(o@[k].0.deep_view() == o@[k].0@);
    }
}

/// The view of an object node is the view of its member list.
pub proof fn lemma_obj_view(j: Json)
    requires
        j is Obj,
    ensures
        j.deep_view() is Obj,
        j.deep_view()->Obj_0 == (j->Obj_0).deep_view(),
{
    let o = j->Obj_0;
    lemma_members_view(o);
    assert forall|k: int| 0 <= k < o@.len() implies j.deep_view()->Obj_0[k] == o.deep_view()[k] by {
        assert(j.deep_view()->Obj_0[k] == json_member_view(o@[k]));
        assert(json_member_view(o@[k]) == (o@[k].0@, o@[k].1.deep_view()));
    }
    assert(j.deep_view()->Obj_0 =~= o.deep_view());
}

/// The view of an array node is the view of its element list.
pub proof fn lemma_arr_view(j: Json)
    requires
        j is Arr,
    ensures
        j.deep_view() is Arr,
        j.deep_view()->Arr_0 == (j->Arr_0).deep_view(),
        forall|k: int|
            0 <= k < (j->Arr_0)@.len() ==> #[trigger] (j->Arr_0).deep_view()[k]
                == (j->Arr_0)@[k].deep_view(),
{
    let a = j->Arr_0;
    assert forall|k: int| 0 <= k < a@.len() implies j.deep_view()->Arr_0[k] == a.deep_view()[k] by {
        assert(j.deep_view()->Arr_0[k] == a@[k].deep_view());
        assert(a.deep_view()[k] == a@[k].deep_view());
    }
    assert(j.deep_view()->Arr_0 =~= a.deep_view());
}

/// Pointwise description of the view of a list of text pairs.
pub proof fn lemma_members_view_pairs(o: Vec<(String, String)>)
    ensures
        o.deep_view().len() == o@.len(),
        forall|k: int|
            0 <= k < o@.len() ==> #[trigger] o.deep_view()[k] == (o@[k].0@, o@[k].1@),
{
    assert forall|k: int| 0 <= k < o@.len() implies #[trigger] o.deep_view()[k] == (
        o@[k].0@,
        o@[k].1@,
    ) by {
        assert(o.deep_view()[k] == o@[k].deep_view());
        assert(o@[k].deep_view() == (o@[k].0.deep_view(), o@[k].1.deep_view()));
    }
}

/// Pushing onto a vector appends to its view.
pub proof fn lemma_vec_dv_push<T: DeepView>(v1: Vec<T>, v2: Vec<T>, x: T)
    requires
        v2@ == v1@.push(x),
    ensures
        v2.deep_view() == v1.deep_view().push(x.deep_view()),
{
    assert forall|k: int| 0 <= k < v2@.len() implies v2.deep_view()[k]
        == v1.deep_view().push(x.deep_view())[k] by {
        assert(v2.deep_view()[k] == v2@[k].deep_view());
        if k < v1@.len() {
            assert(v2@[k] == v1@[k]);
            assert(v1.deep_view()[k] == v1@[k].deep_view());
        } else {
            assert(v2@[k] == x);
        }
    }
    assert(v2.deep_view() =~= v1.deep_view().push(x.deep_view()));
}

/// Concatenating vectors concatenates their views.
pub proof fn lemma_vec_dv_concat<T: DeepView>(a: Vec<T>, b: Vec<T>, c: Vec<T>)
    requires
        c@ == a@ + b@,
    ensures
        c.deep_view() == a.deep_view() + b.deep_view(),
{
    assert forall|k: int| 0 <= k < c@.len() implies c.deep_view()[k] == (a.deep_view()
        + b.deep_view())[k] by {
        assert(c.deep_view()[k] == c@[k].deep_view());
        if k < a@.len() {
            assert(c@[k] == a@[k]);
            assert(a.deep_view()[k] == a@[k].deep_view());
        } else {
            assert(c@[k] == b@[k - a@.len()]);
            assert(b.deep_view()[k - a@.len()] == b@[k - a@.len()].deep_view());
        }
    }
    assert(c.deep_view() =~= a.deep_view() + b.deep_view());
}

/// A required string member: `None` when the key is absent or not a
/// string.
pub open spec fn sget_req_str(o: Seq<(Seq<char>, JsonView)>, key: Seq<char>) -> Option<Seq<char>> {
    match spec_obj_get(o, key) {
        Some(JsonView::Str(s)) => Some(s),
        _ => None,
    }
}

/// An optional string member: the outer `None` reports a value of the
/// wrong shape, the inner `None` an absent key.
pub open spec fn sget_opt_str(o: Seq<(Seq<char>, JsonView)>, key: Seq<char>) -> Option<
    Option<Seq<char>>,
> {
    match spec_obj_get(o, key) {
        None => Some(None),
        Some(JsonView::Str(s)) => Some(Some(s)),
        Some(_) => None,
    }
}

/// An optional boolean member.
pub open spec fn sget_opt_bool(o: Seq<(Seq<char>, JsonView)>, key: Seq<char>) -> Option<
    Option<bool>,
> {
    match spec_obj_get(o, key) {
        None => Some(None),
        Some(JsonView::Bool(b)) => Some(Some(b)),
        Some(_) => None,
    }
}

/// A boolean member that falls back to a default when absent.
pub open spec fn sget_bool_or(o: Seq<(Seq<char>, JsonView)>, key: Seq<char>, d: bool) -> Option<
    bool,
> {
    match sget_opt_bool(o, key) {
        Some(None) => Some(d),
        Some(Some(b)) => Some(b),
        None => None,
    }
}

/// A string member that falls back to a default when absent.
pub open spec fn sget_str_or(o: Seq<(Seq<char>, JsonView)>, key: Seq<char>, d: Seq<char>) -> Option<
    Seq<char>,
> {
    match sget_opt_str(o, key) {
        Some(None) => Some(d),
        Some(Some(s)) => Some(s),
        None => None,
    }
}

/// An optional whole-number member within `lo ..= hi`: the value must be
/// an integer token in range, as the readers this crate mirrors demand.
pub open spec fn sget_opt_int(
    o: Seq<(Seq<char>, JsonView)>,
    key: Seq<char>,
    lo: int,
    hi: int,
) -> Option<Option<int>> {
    match spec_obj_get(o, key) {
        None => Some(None),
        Some(JsonView::Num(s)) => if crate::num::is_int_lit(s) && lo <= crate::num::int_lit_value(s)
            && crate::num::int_lit_value(s) <= hi {
            Some(Some(crate::num::int_lit_value(s)))
        } else {
            None
        },
        Some(_) => None,
    }
}

/// An optional number member, kept as its number token.
pub open spec fn sget_opt_num(o: Seq<(Seq<char>, JsonView)>, key: Seq<char>) -> Option<
    Option<Seq<char>>,
> {
    match spec_obj_get(o, key) {
        None => Some(None),
        Some(JsonView::Num(s)) => Some(Some(s)),
        Some(_) => None,
    }
}

pub fn get_req_str(o: &Vec<(String, Json)>, key: &str) -> (r: Option<String>)
    ensures
        r.deep_view() == sget_req_str(o.deep_view(), key@),
{
    match obj_find(o, key) {
        Some(i) => match &o[i].1 {
            Json::Str(s) => Some(s.clone()),
            _ => None,
        },
        None => None,
    }
}

pub fn get_opt_str(o: &Vec<(String, Json)>, key: &str) -> (r: Option<Option<String>>)
    ensures
        r.deep_view() == sget_opt_str(o.deep_view(), key@),
{
    match obj_find(o, key) {
        Some(i) => match &o[i].1 {
            Json::Str(s) => Some(Some(s.clone())),
            _ => None,
        },
        None => Some(None),
    }
}

pub fn get_opt_bool(o: &Vec<(String, Json)>, key: &str) -> (r: Option<Option<bool>>)
    ensures
        r.deep_view() == sget_opt_bool(o.deep_view(), key@),
{
    match obj_find(o, key) {
        Some(i) => match &o[i].1 {
            Json::Bool(b) => Some(Some(*b)),
            _ => None,
        },
        None => Some(None),
    }
}

pub fn get_bool_or(o: &Vec<(String, Json)>, key: &str, d: bool) -> (r: Option<bool>)
    ensures
        match r {
            Some(b) => sget_bool_or(o.deep_view(), key@, d) == Some(b),
            None => sget_bool_or(o.deep_view(), key@, d) is None,
        },
{
    match get_opt_bool(o, key) {
        Some(Some(b)) => Some(b),
        Some(None) => Some(d),
        None => None,
    }
}

pub fn get_str_or(o: &Vec<(String, Json)>, key: &str, d: &str) -> (r: Option<String>)
    ensures
        match r {
            Some(s) => sget_str_or(o.deep_view(), key@, d@) == Some(s@),
            None => sget_str_or(o.deep_view(), key@, d@) is None,
        },
{
    match get_opt_str(o, key) {
        Some(Some(s)) => Some(s),
        Some(None) => Some(d.to_owned()),
        None => None,
    }
}

pub fn get_opt_int(o: &Vec<(String, Json)>, key: &str, lo: i64, hi: i64) -> (r: Option<
    Option<i64>,
>)
    requires
        -1000000000000000000 < lo as int,
        lo as int <= hi as int,
        (hi as int) < 1000000000000000000,
    ensures
        match r {
            Some(Some(v)) => sget_opt_int(o.deep_view(), key@, lo as int, hi as int) == Some(
                Some(v as int),
            ),
            Some(None) => sget_opt_int(o.deep_view(), key@, lo as int, hi as int) == Some(
                None::<int>,
            ),
            None => sget_opt_int(o.deep_view(), key@, lo as int, hi as int) is None,
        },
{
    match obj_find(o, key) {
        Some(i) => match &o[i].1 {
            Json::Num(s) => {
                let cs = crate::text::chars_vec(s.as_str());
                match crate::num::parse_int_lit(&cs, lo, hi) {
                    Some(v) => Some(Some(v)),
                    None => None,
                }
            },
            _ => None,
        },
        None => Some(None),
    }
}

pub fn get_opt_num(o: &Vec<(String, Json)>, key: &str) -> (r: Option<Option<String>>)
    ensures
        r.deep_view() == sget_opt_num(o.deep_view(), key@),
{
    match obj_find(o, key) {
        Some(i) => match &o[i].1 {
            Json::Num(s) => Some(Some(s.clone())),
            _ => None,
        },
        None => Some(None),
    }
}

/// Largest nesting depth accepted when a freshly read document is brought
/// into the crate's own tree; guards the stack against pathological input.
pub const MAX_JSON_DEPTH: u32 = 512;

/// Brings one document from the reader's representation into the crate's
/// own tree. Fails only on nesting deeper than `depth` levels.
pub(crate) fn to_json(v: serde_json::Value, depth: u32) -> (r: Result<Json, DictError>)
    decreases depth,
{
    if depth == 0 {
        return Err(
            DictError::Schema {
                file: String::new(),
                message: String::from_str("JSON nesting is too deep"),
            },
        );
    }
    match crate::ext::json_node(v) {
        JsonNode::Null => Ok(Json::Null),
        JsonNode::Bool(b) => Ok(Json::Bool(b)),
        JsonNode::Num(n) => Ok(Json::Num(crate::ext::number_text(&n))),
        JsonNode::Str(s) => Ok(Json::Str(s)),
        JsonNode::Arr(a) => {
            let mut a = a;
            let mut tmp: Vec<Json> = Vec::new();
            loop
                invariant
                    depth >= 1,
                decreases a.len(),
            {
                match a.pop() {
                    Some(x) => {
                        let j = to_json(x, depth - 1)?;
                        tmp.push(j);
                    },
                    None => {
                        break ;
                    },
                }
            }
            let mut out: Vec<Json> = Vec::new();
            loop
                decreases tmp.len(),
            {
                match tmp.pop() {
                    Some(j) => {
                        out.push(j);
                    },
                    None => {
                        break ;
                    },
                }
            }
            Ok(Json::Arr(out))
        },
        JsonNode::Obj(o) => {
            let mut o = o;
            let mut tmp: Vec<(String, Json)> = Vec::new();
            loop
                invariant
                    depth >= 1,
                decreases o.len(),
            {
                match o.pop() {
                    Some(kv) => {
                        let j = to_json(kv.1, depth - 1)?;
                        tmp.push((kv.0, j));
                    },
                    None => {
                        break ;
                    },
                }
            }
            let mut out: Vec<(String, Json)> = Vec::new();
            loop
                decreases tmp.len(),
            {
                match tmp.pop() {
                    Some(kv) => {
                        out.push(kv);
                    },
                    None => {
                        break ;
                    },
                }
            }
            Ok(Json::Obj(out))
        },
    }
}

/// Reads one JSON document from text into the crate's own tree: `Ok`
/// exactly when the reader accepts the text, and then exactly the
/// document it yields.
pub fn parse_json_text(s: &str) -> (r: Result<Json, DictError>)
    ensures
        (r is Ok) == (crate::ext::json_doc_of(s@) is Some),
        r is Ok ==> r->Ok_0.deep_view() == crate::ext::json_doc_of(s@)->0,
        r is Err ==> r->Err_0 is Schema,
{
    match crate::ext::read_json(s) {
        Ok(j) => Ok(j),
        Err(m) => Err(DictError::Schema { file: String::new(), message: m }),
    }
}


// --- The compact document text of a tree ---

pub open spec fn spec_hex_digit(d: int) -> char {
    if d == 0 {
        '0'
    } else if d == 1 {
        '1'
    } else if d == 2 {
        '2'
    } else if d == 3 {
        '3'
    } else if d == 4 {
        '4'
    } else if d == 5 {
        '5'
    } else if d == 6 {
        '6'
    } else if d == 7 {
        '7'
    } else if d == 8 {
        '8'
    } else if d == 9 {
        '9'
    } else if d == 10 {
        'a'
    } else if d == 11 {
        'b'
    } else if d == 12 {
        'c'
    } else if d == 13 {
        'd'
    } else if d == 14 {
        'e'
    } else {
        'f'
    }
}

/// How one character of a string is written: quotes, backslashes and
/// control characters are escaped, everything else stands as itself.
pub open spec fn spec_escape_char(c: char) -> Seq<char> {
    if c == '"' {
        seq!['\\', '"']
    } else if c == '\\' {
        seq!['\\', '\\']
    } else if c == '\n' {
        seq!['\\', 'n']
    } else if c == '\t' {
        seq!['\\', 't']
    } else if c == '\r' {
        seq!['\\', 'r']
    } else if c == '\u{8}' {
        seq!['\\', 'b']
    } else if c == '\u{c}' {
        seq!['\\', 'f']
    } else if (c as u32) < 32 {
        seq!['\\', 'u', '0', '0', spec_hex_digit((c as u32) as int / 16), spec_hex_digit(
            (c as u32) as int % 16,
        )]
    } else {
        seq![c]
    }
}

pub open spec fn spec_escaped(s: Seq<char>) -> Seq<char>
    decreases s.len(),
{
    if s.len() == 0 {
        Seq::empty()
    } else {
        spec_escaped(s.drop_last()) + spec_escape_char(s.last())
    }
}

/// The compact document text of a tree: no spaces, members and elements
/// comma-separated, strings quoted and escaped, number tokens verbatim.
pub open spec fn spec_json_text(v: JsonView) -> Seq<char>
    decreases v, 1int,
{
    match v {
        JsonView::Null => "null"@,
        JsonView::Bool(b) => if b {
            "true"@
        } else {
            "false"@
        },
        JsonView::Num(s) => s,
        JsonView::Str(s) => seq!['"'] + spec_escaped(s) + seq!['"'],
        JsonView::Arr(a) => seq!['['] + spec_json_text_list(a) + seq![']'],
        JsonView::Obj(m) => seq!['{'] + spec_json_text_members(m) + seq!['}'],
    }
}

pub open spec fn spec_json_text_list(a: Seq<JsonView>) -> Seq<char>
    decreases a, 2int,
{
    if a.len() == 0 {
        Seq::empty()
    } else if a.len() == 1 {
        spec_json_text(a.last())
    } else {
        spec_json_text_list(a.drop_last()) + seq![','] + spec_json_text(a.last())
    }
}

pub open spec fn spec_json_text_members(m: Seq<(Seq<char>, JsonView)>) -> Seq<char>
    decreases m, 2int,
{
    if m.len() == 0 {
        Seq::empty()
    } else if m.len() == 1 {
        spec_member_text(m.last())
    } else {
        spec_json_text_members(m.drop_last()) + seq![','] + spec_member_text(m.last())
    }
}

pub open spec fn spec_member_text(p: (Seq<char>, JsonView)) -> Seq<char>
    decreases p, 1int,
{
    seq!['"'] + spec_escaped(p.0) + seq!['"', ':'] + spec_json_text(p.1)
}

fn hex_digit(d: u32) -> (c: char)
    requires
        d < 16,
    ensures
        c == spec_hex_digit(d as int),
{
    if d == 0 {
        '0'
    } else if d == 1 {
        '1'
    } else if d == 2 {
        '2'
    } else if d == 3 {
        '3'
    } else if d == 4 {
        '4'
    } else if d == 5 {
        '5'
    } else if d == 6 {
        '6'
    } else if d == 7 {
        '7'
    } else if d == 8 {
        '8'
    } else if d == 9 {
        '9'
    } else if d == 10 {
        'a'
    } else if d == 11 {
        'b'
    } else if d == 12 {
        'c'
    } else if d == 13 {
        'd'
    } else if d == 14 {
        'e'
    } else {
        'f'
    }
}

/// Appends one string's escaped, quoted form.
fn write_quoted(out: &mut String, s: &str)
    ensures
        final(out)@ == old(out)@ + seq!['"'] + spec_escaped(s@) + seq!['"'],
{
    crate::ext::push_char(out, '"');
    let cs = crate::text::chars_vec(s);
    let ghost base = out@;
    let mut i: usize = 0;
    while i < cs.len()
        invariant
            i <= cs@.len(),
            cs@ == s@,
            out@ == base + spec_escaped(s@.take(i as int)),
        decreases cs@.len() - i,
    {
        let ghost prev = out@;
        let c = cs[i];
        if c == '"' {
            crate::ext::push_char(out, '\\');
            crate::ext::push_char(out, '"');
        } else if c == '\\' {
            crate::ext::push_char(out, '\\');
            crate::ext::push_char(out, '\\');
        } else if c == '\n' {
            crate::ext::push_char(out, '\\');
            crate::ext::push_char(out, 'n');
        } else if c == '\t' {
            crate::ext::push_char(out, '\\');
            crate::ext::push_char(out, 't');
        } else if c == '\r' {
            crate::ext::push_char(out, '\\');
            crate::ext::push_char(out, 'r');
        } else if c == '\u{8}' {
            crate::ext::push_char(out, '\\');
            crate::ext::push_char(out, 'b');
        } else if c == '\u{c}' {
            crate::ext::push_char(out, '\\');
            crate::ext::push_char(out, 'f');
        } else if (c as u32) < 32 {
            let code = c as u32;
            crate::ext::push_char(out, '\\');
            crate::ext::push_char(out, 'u');
            crate::ext::push_char(out, '0');
            crate::ext::push_char(out, '0');
            crate::ext::push_char(out, hex_digit(code / 16));
            crate::ext::push_char(out, hex_digit(code % 16));
        } else {
            crate::ext::push_char(out, c);
        }
        proof {
            assert(out@ =~= prev + spec_escape_char(c));
            assert(s@.take(i + 1).drop_last() =~= s@.take(i as int));
            assert(s@.take(i + 1).last() == s@[i as int]);
            assert(out@ =~= base + spec_escaped(s@.take(i + 1)));
        }
        i += 1;
    }
    proof {
        assert(s@.take(s@.len() as int) =~= s@);
    }
    crate::ext::push_char(out, '"');
    proof {
        assert(out@ =~= old(out)@ + seq!['"'] + spec_escaped(s@) + seq!['"']);
    }
}

/// Appends the compact document text of a tree.
#[verifier::loop_isolation(false)]
fn write_json(out: &mut String, j: &Json)
    ensures
        final(out)@ == old(out)@ + spec_json_text(j.deep_view()),
    decreases j, 1int,
{
    match j {
        Json::Null => {
            out.append("null");
        },
        Json::Bool(b) => {
            if *b {
                out.append("true");
            } else {
                out.append("false");
            }
        },
        Json::Num(s) => {
            out.append(s.as_str());
        },
        Json::Str(s) => {
            write_quoted(out, s.as_str());
            proof {
                assert(final(out)@ =~= old(out)@ + spec_json_text(j.deep_view()));
            }
        },
        Json::Arr(a) => {
            proof {
                lemma_arr_view(*j);
            }
            let ghost adv = j.deep_view()->Arr_0;
            crate::ext::push_char(out, '[');
            let ghost base = out@;
            let mut i: usize = 0;
            while i < a.len()
                invariant
                    i <= a@.len(),
                    out@ == base + spec_json_text_list(adv.take(i as int)),
                decreases a@.len() - i,
            {
                let ghost prev = out@;
                if i > 0 {
                    crate::ext::push_char(out, ',');
                }
                write_json(out, &a[i]);
                proof {
                    assert(adv.take(i + 1).drop_last() =~= adv.take(i as int));
                    assert(adv.take(i + 1).last() == adv[i as int]);
                    assert(out@ =~= base + spec_json_text_list(adv.take(i + 1)));
                }
                i += 1;
            }
            proof {
                assert(adv.take(a@.len() as int) =~= adv);
            }
            crate::ext::push_char(out, ']');
            proof {
                assert(final(out)@ =~= old(out)@ + spec_json_text(j.deep_view()));
            }
        },
        Json::Obj(o) => {
            proof {
                lemma_obj_view(*j);
                lemma_members_view(*o);
            }
            let ghost mdv = j.deep_view()->Obj_0;
            crate::ext::push_char(out, '{');
            let ghost base = out@;
            let mut i: usize = 0;
            while i < o.len()
                invariant
                    i <= o@.len(),
                    out@ == base + spec_json_text_members(mdv.take(i as int)),
                decreases o@.len() - i,
            {
                let ghost prev = out@;
                if i > 0 {
                    crate::ext::push_char(out, ',');
                }
                write_quoted(out, o[i].0.as_str());
                crate::ext::push_char(out, ':');
                write_json(out, &o[i].1);
                proof {
                    assert(mdv.take(i + 1).drop_last() =~= mdv.take(i as int));
                    assert(mdv.take(i + 1).last() == mdv[i as int]);
                    assert(mdv[i as int] == (o@[i as int].0@, o@[i as int].1.deep_view()));
                    assert(spec_member_text(mdv[i as int]) =~= seq!['"'] + spec_escaped(
                        o@[i as int].0@,
                    ) + seq!['"', ':'] + spec_json_text(o@[i as int].1.deep_view()));
                    assert(out@ =~= base + spec_json_text_members(mdv.take(i + 1)));
                }
                i += 1;
            }
            proof {
                assert(mdv.take(o@.len() as int) =~= mdv);
            }
            crate::ext::push_char(out, '}');
            proof {
                assert(final(out)@ =~= old(out)@ + spec_json_text(j.deep_view()));
            }
        },
    }
}

/// The compact document text of a tree.
pub fn json_text(j: &Json) -> (r: String)
    ensures
        r@ == spec_json_text(j.deep_view()),
{
    let mut out = String::new();
    write_json(&mut out, j);
    proof {
        assert(out@ =~= spec_json_text(j.deep_view()));
    }
    out
}

} // verus!
