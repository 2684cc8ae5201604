use vstd::prelude::*;
use crate::json::{
    Json, JsonView, spec_obj_get, sget_req_str, sget_opt_str, sget_opt_bool, sget_bool_or,
    sget_str_or, sget_opt_int, sget_opt_num, get_req_str, get_opt_str, get_opt_bool, get_bool_or,
    get_str_or, get_opt_int, get_opt_num,
};
use vstd::string::StringExecFns;
use crate::num::{is_int_lit, int_lit_value, spec_int_lit_of};
use crate::schemas::dictionary_term_bank_v3::{
    DictionaryTermBankV3Row, Definition, DetailedDefinition, Deinflection, TextDefinition,
    ImageDefinition, StructuredContentDefinition, StructuredContent, StructuredContentObject,
    BreakFields, ContainerFields, TableElementFields, StyledContainerFields, ImageFields,
    LinkFields, StructuredContentStyle, StructuredContentData, TextDecorationLine, NumberOrString, TermRowView,
    DefinitionView, DetailedDefinitionView, DeinflectionView, TextDefinitionView,
    ImageDefinitionView, SCDefinitionView, SCView, SCObjectView, SCDataView, BreakFieldsView,
    ContainerFieldsView, TableElementFieldsView, StyledContainerFieldsView, ImageFieldsView,
    LinkFieldsView, StyleView, TextDecorationLineView, NumberOrStringView, sc_view,
    sc_object_view, container_fields_view, table_element_fields_view, styled_container_fields_view,
    link_fields_view,
};

verus! {

// The decoders below mirror, member for member, how the exchange format
// disambiguates its tagged unions: a plain string, an array, or an object
// with a discriminant member. Unknown members are ignored throughout.
type Members = Seq<(Seq<char>, JsonView)>;

/// One or several text-decoration line names: a string or an array of
/// strings.
pub open spec fn spec_decode_tdl(v: JsonView) -> Option<TextDecorationLineView> {
    match v {
        JsonView::Str(s) => Some(TextDecorationLineView::Single(s)),
        JsonView::Arr(a) => {
            if forall|i: int| 0 <= i < a.len() ==> a[i] is Str {
                Some(TextDecorationLineView::Multiple(Seq::new(a.len(), |i: int| a[i]->Str_0)))
            } else {
                None
            }
        },
        _ => None,
    }
}

pub open spec fn sget_tdl(m: Members, key: Seq<char>) -> Option<TextDecorationLineView> {
    match spec_obj_get(m, key) {
        None => Some(TextDecorationLineView::Single("none"@)),
        Some(v) => spec_decode_tdl(v),
    }
}

/// A numeric or textual measure.
pub open spec fn spec_decode_nos(v: JsonView) -> Option<NumberOrStringView> {
    match v {
        JsonView::Num(s) => Some(NumberOrStringView::Number(s)),
        JsonView::Str(s) => Some(NumberOrStringView::Str(s)),
        _ => None,
    }
}

pub open spec fn sget_nos(m: Members, key: Seq<char>) -> Option<NumberOrStringView> {
    match spec_obj_get(m, key) {
        None => Some(NumberOrStringView::Number("0.0"@)),
        Some(v) => spec_decode_nos(v),
    }
}

/// Free-form data attributes: an object whose values are all strings.
pub open spec fn spec_decode_sc_data(v: JsonView) -> Option<SCDataView> {
    match v {
        JsonView::Obj(m) => {
            if forall|i: int| 0 <= i < m.len() ==> (#[trigger] m[i].1) is Str {
                Some(Seq::new(m.len(), |i: int| (m[i].0, m[i].1->Str_0)))
            } else {
                None
            }
        },
        _ => None,
    }
}

pub open spec fn sget_opt_data(m: Members, key: Seq<char>) -> Option<Option<SCDataView>> {
    match spec_obj_get(m, key) {
        None => Some(None),
        Some(v) => match spec_decode_sc_data(v) {
            Some(d) => Some(Some(d)),
            None => None,
        },
    }
}

/// The style block, every member optional with its own default.
pub open spec fn spec_decode_style(v: JsonView) -> Option<StyleView> {
    match v {
        JsonView::Obj(m) => {
            if sget_str_or(m, "fontStyle"@, "normal"@) is Some && sget_str_or(
                m,
                "fontWeight"@,
                "normal"@,
            ) is Some && sget_str_or(m, "fontSize"@, "medium"@) is Some && sget_opt_str(m, "color"@)
                is Some && sget_opt_str(m, "background"@) is Some && sget_opt_str(
                m,
                "backgroundColor"@,
            ) is Some && sget_tdl(m, "textDecorationLine"@) is Some && sget_str_or(
                m,
                "textDecorationStyle"@,
                "solid"@,
            ) is Some && sget_opt_str(m, "textDecorationColor"@) is Some && sget_opt_str(
                m,
                "borderColor"@,
            ) is Some && sget_opt_str(m, "borderStyle"@) is Some && sget_opt_str(m, "borderRadius"@)
                is Some && sget_opt_str(m, "borderWidth"@) is Some && sget_opt_str(m, "clipPath"@)
                is Some && sget_str_or(m, "verticalAlign"@, "baseline"@) is Some && sget_str_or(
                m,
                "textAlign"@,
                "start"@,
            ) is Some && sget_opt_str(m, "textEmphasis"@) is Some && sget_opt_str(m, "textShadow"@)
                is Some && sget_opt_str(m, "margin"@) is Some && sget_nos(m, "marginTop"@) is Some
                && sget_nos(m, "marginLeft"@) is Some && sget_nos(m, "marginRight"@) is Some
                && sget_nos(m, "marginBottom"@) is Some && sget_opt_str(m, "padding"@) is Some
                && sget_opt_str(m, "paddingTop"@) is Some && sget_opt_str(m, "paddingLeft"@)
                is Some && sget_opt_str(m, "paddingRight"@) is Some && sget_opt_str(
                m,
                "paddingBottom"@,
            ) is Some && sget_str_or(m, "wordBreak"@, "normal"@) is Some && sget_str_or(
                m,
                "whiteSpace"@,
                "normal"@,
            ) is Some && sget_str_or(m, "cursor"@, "auto"@) is Some && sget_str_or(
                m,
                "listStyleType"@,
                "disc"@,
            ) is Some {
                Some(
                    StyleView {
                        font_style: sget_str_or(m, "fontStyle"@, "normal"@)->0,
                        font_weight: sget_str_or(m, "fontWeight"@, "normal"@)->0,
                        font_size: sget_str_or(m, "fontSize"@, "medium"@)->0,
                        color: sget_opt_str(m, "color"@)->0,
                        background: sget_opt_str(m, "background"@)->0,
                        background_color: sget_opt_str(m, "backgroundColor"@)->0,
                        text_decoration_line: sget_tdl(m, "textDecorationLine"@)->0,
                        text_decoration_style: sget_str_or(m, "textDecorationStyle"@, "solid"@)->0,
                        text_decoration_color: sget_opt_str(m, "textDecorationColor"@)->0,
                        border_color: sget_opt_str(m, "borderColor"@)->0,
                        border_style: sget_opt_str(m, "borderStyle"@)->0,
                        border_radius: sget_opt_str(m, "borderRadius"@)->0,
                        border_width: sget_opt_str(m, "borderWidth"@)->0,
                        clip_path: sget_opt_str(m, "clipPath"@)->0,
                        vertical_align: sget_str_or(m, "verticalAlign"@, "baseline"@)->0,
                        text_align: sget_str_or(m, "textAlign"@, "start"@)->0,
                        text_emphasis: sget_opt_str(m, "textEmphasis"@)->0,
                        text_shadow: sget_opt_str(m, "textShadow"@)->0,
                        margin: sget_opt_str(m, "margin"@)->0,
                        margin_top: sget_nos(m, "marginTop"@)->0,
                        margin_left: sget_nos(m, "marginLeft"@)->0,
                        margin_right: sget_nos(m, "marginRight"@)->0,
                        margin_bottom: sget_nos(m, "marginBottom"@)->0,
                        padding: sget_opt_str(m, "padding"@)->0,
                        padding_top: sget_opt_str(m, "paddingTop"@)->0,
                        padding_left: sget_opt_str(m, "paddingLeft"@)->0,
                        padding_right: sget_opt_str(m, "paddingRight"@)->0,
                        padding_bottom: sget_opt_str(m, "paddingBottom"@)->0,
                        word_break: sget_str_or(m, "wordBreak"@, "normal"@)->0,
                        white_space: sget_str_or(m, "whiteSpace"@, "normal"@)->0,
                        cursor: sget_str_or(m, "cursor"@, "auto"@)->0,
                        list_style_type: sget_str_or(m, "listStyleType"@, "disc"@)->0,
                    },
                )
            } else {
                None
            }
        },
        _ => None,
    }
}

pub open spec fn sget_opt_style(m: Members, key: Seq<char>) -> Option<Option<StyleView>> {
    match spec_obj_get(m, key) {
        None => Some(None),
        Some(v) => match spec_decode_style(v) {
            Some(st) => Some(Some(st)),
            None => None,
        },
    }
}

pub open spec fn spec_decode_break_fields(m: Members) -> Option<BreakFieldsView> {
    match sget_opt_data(m, "data"@) {
        Some(d) => Some(BreakFieldsView { data: d }),
        None => None,
    }
}

pub open spec fn spec_decode_image_fields(m: Members) -> Option<ImageFieldsView> {
    if sget_req_str(m, "path"@) is Some && sget_opt_data(m, "data"@) is Some && sget_opt_num(
        m,
        "width"@,
    ) is Some && sget_opt_num(m, "height"@) is Some && sget_opt_str(m, "title"@) is Some
        && sget_opt_str(m, "alt"@) is Some && sget_opt_str(m, "description"@) is Some
        && sget_bool_or(m, "pixelated"@, false) is Some && sget_str_or(
        m,
        "imageRendering"@,
        "auto"@,
    ) is Some && sget_str_or(m, "appearance"@, "auto"@) is Some && sget_bool_or(
        m,
        "background"@,
        true,
    ) is Some && sget_bool_or(m, "collapsed"@, false) is Some && sget_bool_or(
        m,
        "collapsible"@,
        true,
    ) is Some && sget_opt_str(m, "verticalAlign"@) is Some && sget_opt_str(m, "border"@) is Some
        && sget_opt_str(m, "borderRadius"@) is Some && sget_opt_str(m, "sizeUnits"@) is Some {
        Some(
            ImageFieldsView {
                path: sget_req_str(m, "path"@)->0,
                data: sget_opt_data(m, "data"@)->0,
                width: sget_opt_num(m, "width"@)->0,
                height: sget_opt_num(m, "height"@)->0,
                title: sget_opt_str(m, "title"@)->0,
                alt: sget_opt_str(m, "alt"@)->0,
                description: sget_opt_str(m, "description"@)->0,
                pixelated: sget_bool_or(m, "pixelated"@, false)->0,
                image_rendering: sget_str_or(m, "imageRendering"@, "auto"@)->0,
                appearance: sget_str_or(m, "appearance"@, "auto"@)->0,
                background: sget_bool_or(m, "background"@, true)->0,
                collapsed: sget_bool_or(m, "collapsed"@, false)->0,
                collapsible: sget_bool_or(m, "collapsible"@, true)->0,
                vertical_align: sget_opt_str(m, "verticalAlign"@)->0,
                border: sget_opt_str(m, "border"@)->0,
                border_radius: sget_opt_str(m, "borderRadius"@)->0,
                size_units: sget_opt_str(m, "sizeUnits"@)->0,
            },
        )
    } else {
        None
    }
}

/// Termination helper: a member found by lookup is one of the object's
/// entries.
pub proof fn lemma_obj_get_member(m: Members, k: Seq<char>)
    requires
        spec_obj_get(m, k) is Some,
    ensures
        exists|i: int| 0 <= i < m.len() && #[trigger] m[i].1 == spec_obj_get(m, k)->0,
    decreases m.len(),
{
    if m.last().0 == k {
        assert(m[m.len() - 1].1 == spec_obj_get(m, k)->0);
    } else {
        lemma_obj_get_member(m.drop_last(), k);
        let i = choose|i: int|
            0 <= i < m.drop_last().len() && #[trigger] m.drop_last()[i].1 == spec_obj_get(
                m.drop_last(),
                k,
            )->0;
        assert(m[i].1 == spec_obj_get(m, k)->0);
    }
}

/// The recursive decoders of the content tree. The measure pairs the
/// document piece with a tier so that same-object calls still descend.
pub open spec fn spec_decode_sc(v: JsonView) -> Option<SCView>
    decreases v, 3int,
{
    match v {
        JsonView::Str(s) => Some(SCView::Text(s)),
        JsonView::Arr(a) => {
            match spec_decode_sc_list(a) {
                Some(xs) => Some(SCView::Array(xs)),
                None => None,
            }
        },
        JsonView::Obj(m) => match spec_decode_sc_object(m) {
            Some(o) => Some(SCView::Object(Box::new(o))),
            None => None,
        },
        _ => None,
    }
}

/// Decodes the elements of an array of content, failing if any element
/// fails.
pub open spec fn spec_decode_sc_list(a: Seq<JsonView>) -> Option<Seq<SCView>>
    decreases a, 4int,
{
    if a.len() == 0 {
        Some(Seq::empty())
    } else {
        match (spec_decode_sc_list(a.drop_last()), spec_decode_sc(a.last())) {
            (Some(xs), Some(x)) => Some(xs.push(x)),
            _ => None,
        }
    }
}

pub open spec fn spec_decode_sc_object(m: Members) -> Option<SCObjectView>
    decreases m, 2int,
{
    match sget_req_str(m, "tag"@) {
        Some(tag) => {
            if tag == "br"@ {
                match spec_decode_break_fields(m) {
                    Some(f) => Some(SCObjectView::Br(f)),
                    None => None,
                }
            } else if tag == "ruby"@ {
                match spec_decode_container_fields(m) {
                    Some(f) => Some(SCObjectView::Ruby(f)),
                    None => None,
                }
            } else if tag == "rt"@ {
                match spec_decode_container_fields(m) {
                    Some(f) => Some(SCObjectView::Rt(f)),
                    None => None,
                }
            } else if tag == "rp"@ {
                match spec_decode_container_fields(m) {
                    Some(f) => Some(SCObjectView::Rp(f)),
                    None => None,
                }
            } else if tag == "table"@ {
                match spec_decode_container_fields(m) {
                    Some(f) => Some(SCObjectView::Table(f)),
                    None => None,
                }
            } else if tag == "thead"@ {
                match spec_decode_container_fields(m) {
                    Some(f) => Some(SCObjectView::Thead(f)),
                    None => None,
                }
            } else if tag == "tbody"@ {
                match spec_decode_container_fields(m) {
                    Some(f) => Some(SCObjectView::Tbody(f)),
                    None => None,
                }
            } else if tag == "tfoot"@ {
                match spec_decode_container_fields(m) {
                    Some(f) => Some(SCObjectView::Tfoot(f)),
                    None => None,
                }
            } else if tag == "tr"@ {
                match spec_decode_container_fields(m) {
                    Some(f) => Some(SCObjectView::Tr(f)),
                    None => None,
                }
            } else if tag == "td"@ {
                match spec_decode_table_element_fields(m) {
                    Some(f) => Some(SCObjectView::Td(f)),
                    None => None,
                }
            } else if tag == "th"@ {
                match spec_decode_table_element_fields(m) {
                    Some(f) => Some(SCObjectView::Th(f)),
                    None => None,
                }
            } else if tag == "span"@ {
                match spec_decode_styled_fields(m) {
                    Some(f) => Some(SCObjectView::Span(f)),
                    None => None,
                }
            } else if tag == "div"@ {
                match spec_decode_styled_fields(m) {
                    Some(f) => Some(SCObjectView::Div(f)),
                    None => None,
                }
            } else if tag == "ol"@ {
                match spec_decode_styled_fields(m) {
                    Some(f) => Some(SCObjectView::Ol(f)),
                    None => None,
                }
            } else if tag == "ul"@ {
                match spec_decode_styled_fields(m) {
                    Some(f) => Some(SCObjectView::Ul(f)),
                    None => None,
                }
            } else if tag == "li"@ {
                match spec_decode_styled_fields(m) {
                    Some(f) => Some(SCObjectView::Li(f)),
                    None => None,
                }
            } else if tag == "details"@ {
                match spec_decode_styled_fields(m) {
                    Some(f) => Some(SCObjectView::Details(f)),
                    None => None,
                }
            } else if tag == "summary"@ {
                match spec_decode_styled_fields(m) {
                    Some(f) => Some(SCObjectView::Summary(f)),
                    None => None,
                }
            } else if tag == "img"@ {
                match spec_decode_image_fields(m) {
                    Some(f) => Some(SCObjectView::Img(f)),
                    None => None,
                }
            } else if tag == "a"@ {
                match spec_decode_link_fields(m) {
                    Some(f) => Some(SCObjectView::A(f)),
                    None => None,
                }
            } else {
                None
            }
        },
        None => None,
    }
}

/// The nested content member of an element, absent or a content tree.
pub open spec fn sget_opt_content(m: Members) -> Option<Option<SCView>>
    decreases m, 0int,
    via sget_opt_content_decreases
{
    match spec_obj_get(m, "content"@) {
        None => Some(None),
        Some(v) => match spec_decode_sc(v) {
            Some(c) => Some(Some(c)),
            None => None,
        },
    }
}

#[via_fn]
proof fn sget_opt_content_decreases(m: Members) {
    if spec_obj_get(m, "content"@) is Some {
        lemma_obj_get_member(m, "content"@);
        let i = choose|i: int|
            0 <= i < m.len() && #[trigger] m[i].1 == spec_obj_get(m, "content"@)->0;
        assert(decreases_to!(m => m[i].1));
    }
}

pub open spec fn spec_decode_container_fields(m: Members) -> Option<ContainerFieldsView>
    decreases m, 1int,
{
    if sget_opt_content(m) is Some && sget_opt_data(m, "data"@) is Some && sget_opt_str(m, "lang"@)
        is Some {
        Some(
            ContainerFieldsView {
                content: sget_opt_content(m)->0,
                data: sget_opt_data(m, "data"@)->0,
                lang: sget_opt_str(m, "lang"@)->0,
            },
        )
    } else {
        None
    }
}

pub open spec fn spec_decode_table_element_fields(m: Members) -> Option<TableElementFieldsView>
    decreases m, 1int,
{
    if sget_opt_content(m) is Some && sget_opt_data(m, "data"@) is Some && sget_opt_int(
        m,
        "colSpan"@,
        -2147483648,
        2147483647,
    ) is Some && sget_opt_int(m, "rowSpan"@, -2147483648, 2147483647) is Some && sget_opt_style(
        m,
        "style"@,
    ) is Some && sget_opt_str(m, "lang"@) is Some {
        Some(
            TableElementFieldsView {
                content: sget_opt_content(m)->0,
                data: sget_opt_data(m, "data"@)->0,
                col_span: match sget_opt_int(m, "colSpan"@, -2147483648, 2147483647)->0 {
                    Some(v) => Some(v as i32),
                    None => None,
                },
                row_span: match sget_opt_int(m, "rowSpan"@, -2147483648, 2147483647)->0 {
                    Some(v) => Some(v as i32),
                    None => None,
                },
                style: sget_opt_style(m, "style"@)->0,
                lang: sget_opt_str(m, "lang"@)->0,
            },
        )
    } else {
        None
    }
}

pub open spec fn spec_decode_styled_fields(m: Members) -> Option<StyledContainerFieldsView>
    decreases m, 1int,
{
    if sget_opt_content(m) is Some && sget_opt_data(m, "data"@) is Some && sget_opt_style(
        m,
        "style"@,
    ) is Some && sget_opt_str(m, "title"@) is Some && sget_opt_bool(m, "open"@) is Some
        && sget_opt_str(m, "lang"@) is Some {
        Some(
            StyledContainerFieldsView {
                content: sget_opt_content(m)->0,
                data: sget_opt_data(m, "data"@)->0,
                style: sget_opt_style(m, "style"@)->0,
                title: sget_opt_str(m, "title"@)->0,
                open: sget_opt_bool(m, "open"@)->0,
                lang: sget_opt_str(m, "lang"@)->0,
            },
        )
    } else {
        None
    }
}

pub open spec fn spec_decode_link_fields(m: Members) -> Option<LinkFieldsView>
    decreases m, 1int,
{
    if sget_req_str(m, "href"@) is Some && sget_opt_content(m) is Some && sget_opt_str(m, "lang"@)
        is Some {
        Some(
            LinkFieldsView {
                href: sget_req_str(m, "href"@)->0,
                content: sget_opt_content(m)->0,
                lang: sget_opt_str(m, "lang"@)->0,
            },
        )
    } else {
        None
    }
}

/// An image definition object: `width` and `height` must be whole numbers
/// that fit the row's integer type.
pub open spec fn spec_decode_image_definition(m: Members) -> Option<ImageDefinitionView> {
    if sget_req_str(m, "path"@) is Some && sget_opt_int(m, "width"@, -2147483648, 2147483647)
        is Some && sget_opt_int(m, "height"@, -2147483648, 2147483647) is Some && sget_opt_str(
        m,
        "title"@,
    ) is Some && sget_opt_str(m, "alt"@) is Some && sget_opt_str(m, "description"@) is Some
        && sget_bool_or(m, "pixelated"@, false) is Some && sget_str_or(
        m,
        "imageRendering"@,
        "auto"@,
    ) is Some && sget_str_or(m, "appearance"@, "auto"@) is Some && sget_bool_or(
        m,
        "background"@,
        true,
    ) is Some && sget_bool_or(m, "collapsed"@, false) is Some && sget_bool_or(
        m,
        "collapsible"@,
        true,
    ) is Some {
        Some(
            ImageDefinitionView {
                path: sget_req_str(m, "path"@)->0,
                width: match sget_opt_int(m, "width"@, -2147483648, 2147483647)->0 {
                    Some(v) => Some(v as i32),
                    None => None,
                },
                height: match sget_opt_int(m, "height"@, -2147483648, 2147483647)->0 {
                    Some(v) => Some(v as i32),
                    None => None,
                },
                title: sget_opt_str(m, "title"@)->0,
                alt: sget_opt_str(m, "alt"@)->0,
                description: sget_opt_str(m, "description"@)->0,
                pixelated: sget_bool_or(m, "pixelated"@, false)->0,
                image_rendering: sget_str_or(m, "imageRendering"@, "auto"@)->0,
                appearance: sget_str_or(m, "appearance"@, "auto"@)->0,
                background: sget_bool_or(m, "background"@, true)->0,
                collapsed: sget_bool_or(m, "collapsed"@, false)->0,
                collapsible: sget_bool_or(m, "collapsible"@, true)->0,
            },
        )
    } else {
        None
    }
}

/// A detailed definition object, discriminated by its `type` member.
pub open spec fn spec_decode_detailed(m: Members) -> Option<DetailedDefinitionView> {
    match sget_req_str(m, "type"@) {
        Some(t) => {
            if t == "text"@ {
                match sget_req_str(m, "text"@) {
                    Some(s) => Some(
                        DetailedDefinitionView::Text(TextDefinitionView { text: s }),
                    ),
                    None => None,
                }
            } else if t == "image"@ {
                match spec_decode_image_definition(m) {
                    Some(f) => Some(DetailedDefinitionView::Image(f)),
                    None => None,
                }
            } else if t == "structured-content"@ {
                match spec_obj_get(m, "content"@) {
                    Some(v) => match spec_decode_sc(v) {
                        Some(c) => Some(
                            DetailedDefinitionView::StructuredContent(
                                SCDefinitionView { content: c },
                            ),
                        ),
                        None => None,
                    },
                    None => None,
                }
            } else {
                None
            }
        },
        None => None,
    }
}

/// A single definition: a plain string, a detailed definition object, or
/// a two-element deinflection array.
pub open spec fn spec_decode_definition(v: JsonView) -> Option<DefinitionView> {
    match v {
        JsonView::Str(s) => Some(DefinitionView::Text(s)),
        JsonView::Obj(m) => match spec_decode_detailed(m) {
            Some(d) => Some(DefinitionView::Detailed(Box::new(d))),
            None => None,
        },
        JsonView::Arr(a) => {
            if a.len() == 2 && a[0] is Str && a[1] is Arr && (forall|i: int|
                0 <= i < a[1]->Arr_0.len() ==> (#[trigger] a[1]->Arr_0[i]) is Str) {
                Some(
                    DefinitionView::Deinflection(
                        DeinflectionView {
                            uninflected: a[0]->Str_0,
                            inflection_rules: Seq::new(
                                a[1]->Arr_0.len(),
                                |i: int| a[1]->Arr_0[i]->Str_0,
                            ),
                        },
                    ),
                )
            } else {
                None
            }
        },
        _ => None,
    }
}

/// One term row: exactly eight cells with the fixed positional types. The
/// third cell may be null for absent definition tags; the seventh must be
/// a whole number fitting the sequence type.
pub open spec fn spec_decode_term_row(v: JsonView) -> Option<TermRowView> {
    match v {
        JsonView::Arr(a) => {
            if a.len() == 8 && a[0] is Str && a[1] is Str && (a[2] is Null || a[2] is Str) && a[3]
                is Str && a[4] is Num && a[5] is Arr && (forall|i: int|
                0 <= i < a[5]->Arr_0.len() ==> #[trigger] spec_decode_definition(
                    a[5]->Arr_0[i],
                ) is Some) && a[6] is Num && is_int_lit(a[6]->Num_0) && -2147483648
                <= int_lit_value(a[6]->Num_0) && int_lit_value(a[6]->Num_0) <= 2147483647 && a[7]
                is Str {
                Some(
                    TermRowView {
                        expression: a[0]->Str_0,
                        reading: a[1]->Str_0,
                        definition_tags: if a[2] is Null {
                            None
                        } else {
                            Some(a[2]->Str_0)
                        },
                        rules: a[3]->Str_0,
                        score: a[4]->Num_0,
                        definitions: Seq::new(
                            a[5]->Arr_0.len(),
                            |i: int| spec_decode_definition(a[5]->Arr_0[i])->0,
                        ),
                        sequence: int_lit_value(a[6]->Num_0) as i32,
                        expression_tags: a[7]->Str_0,
                    },
                )
            } else {
                None
            }
        },
        _ => None,
    }
}

/// A whole term-bank file: an array whose every element is a term row.
pub open spec fn spec_decode_term_bank(v: JsonView) -> Option<Seq<TermRowView>> {
    match v {
        JsonView::Arr(a) => {
            if forall|i: int| 0 <= i < a.len() ==> #[trigger] spec_decode_term_row(a[i]) is Some {
                Some(Seq::new(a.len(), |i: int| spec_decode_term_row(a[i])->0))
            } else {
                None
            }
        },
        _ => None,
    }
}

// --- Serialization ---

/// A member that is written only when the value is present.
pub open spec fn opt_member(k: Seq<char>, v: Option<JsonView>) -> Members {
    match v {
        Some(jv) => seq![(k, jv)],
        None => Seq::empty(),
    }
}

pub open spec fn omap_str(v: Option<Seq<char>>) -> Option<JsonView> {
    match v {
        Some(s) => Some(JsonView::Str(s)),
        None => None,
    }
}

pub open spec fn omap_num(v: Option<Seq<char>>) -> Option<JsonView> {
    match v {
        Some(s) => Some(JsonView::Num(s)),
        None => None,
    }
}

pub open spec fn omap_bool(v: Option<bool>) -> Option<JsonView> {
    match v {
        Some(b) => Some(JsonView::Bool(b)),
        None => None,
    }
}

pub open spec fn omap_int(v: Option<i32>) -> Option<JsonView> {
    match v {
        Some(n) => Some(JsonView::Num(spec_int_lit_of(n as int))),
        None => None,
    }
}


/// Description of an object's members in writing order: per key either a
/// value or nothing. Members with nothing are not written.
pub type OmSpec = Seq<(Seq<char>, Option<JsonView>)>;

pub open spec fn omembers(s: OmSpec) -> Members
    decreases s.len(),
{
    if s.len() == 0 {
        Seq::empty()
    } else {
        omembers(s.drop_last()) + opt_member(s.last().0, s.last().1)
    }
}

/// Lookup distributes over concatenation, with the right part winning.
pub proof fn lemma_sget_concat(a: Members, b: Members, k: Seq<char>)
    ensures
        spec_obj_get(a + b, k) == if spec_obj_get(b, k) is Some {
            spec_obj_get(b, k)
        } else {
            spec_obj_get(a, k)
        },
    decreases b.len(),
{
    if b.len() == 0 {
        assert(a + b =~= a);
    } else {
        assert((a + b).last() == b.last());
        if b.last().0 == k {
        } else {
            assert((a + b).drop_last() =~= a + b.drop_last());
            lemma_sget_concat(a, b.drop_last(), k);
        }
    }
}

/// Looking a key up in a written member list yields exactly what the
/// member description holds for it, provided no other entry uses the key.
pub proof fn lemma_omembers_at(s: OmSpec, j: int, k: Seq<char>)
    requires
        0 <= j < s.len(),
        s[j].0 == k,
        forall|i: int| 0 <= i < s.len() && i != j ==> (#[trigger] s[i]).0 != k,
    ensures
        spec_obj_get(omembers(s), k) == s[j].1,
    decreases s.len(),
{
    let a = omembers(s.drop_last());
    let b = opt_member(s.last().0, s.last().1);
    lemma_sget_concat(a, b, k);
    if j == s.len() - 1 {
        match s.last().1 {
            Some(v) => {
                assert(spec_obj_get(b, k) == Some(v)) by {
                    assert(b.last() == (s.last().0, v));
                }
            },
            None => {
                assert(b =~= Seq::<(Seq<char>, JsonView)>::empty());
                lemma_omembers_none(s.drop_last(), k);
            },
        }
    } else {
        assert(s.last().0 != k);
        assert(spec_obj_get(b, k) is None) by {
            match s.last().1 {
                Some(v) => {
                    assert(b.len() == 1);
                    assert(b.last().0 != k);
                    let bd = b.drop_last();
                    assert(bd.len() == 0);
                    assert(spec_obj_get(bd, k) is None);
                    assert(spec_obj_get(b, k) == spec_obj_get(bd, k));
                },
                None => {
                    assert(b.len() == 0);
                },
            }
        }
        assert(s.drop_last()[j] == s[j]);
        lemma_omembers_at(s.drop_last(), j, k);
    }
}

/// A key that no entry uses is not found.
pub proof fn lemma_omembers_none(s: OmSpec, k: Seq<char>)
    requires
        forall|i: int| 0 <= i < s.len() ==> (#[trigger] s[i]).0 != k,
    ensures
        spec_obj_get(omembers(s), k) is None,
    decreases s.len(),
{
    if s.len() == 0 {
        assert(omembers(s) =~= Seq::<(Seq<char>, JsonView)>::empty());
    } else {
        let a = omembers(s.drop_last());
        let b = opt_member(s.last().0, s.last().1);
        lemma_sget_concat(a, b, k);
        assert(s.last() == s[s.len() - 1]);
        assert(spec_obj_get(b, k) is None) by {
            match s.last().1 {
                Some(v) => {
                    assert(b.len() == 1);
                    assert(b.last().0 != k);
                    let bd = b.drop_last();
                    assert(bd.len() == 0);
                    assert(spec_obj_get(bd, k) is None);
                    assert(spec_obj_get(b, k) == spec_obj_get(bd, k));
                },
                None => {
                    assert(b.len() == 0);
                },
            }
        }
        lemma_omembers_none(s.drop_last(), k);
    }
}

pub open spec fn spec_encode_sc_data(d: SCDataView) -> JsonView {
    JsonView::Obj(Seq::new(d.len(), |i: int| (d[i].0, JsonView::Str(d[i].1))))
}

pub open spec fn omap_data(v: Option<SCDataView>) -> Option<JsonView> {
    match v {
        Some(d) => Some(spec_encode_sc_data(d)),
        None => None,
    }
}

pub open spec fn spec_encode_tdl(t: TextDecorationLineView) -> JsonView {
    match t {
        TextDecorationLineView::Single(s) => JsonView::Str(s),
        TextDecorationLineView::Multiple(v) => JsonView::Arr(
            Seq::new(v.len(), |i: int| JsonView::Str(v[i])),
        ),
    }
}

pub open spec fn spec_encode_nos(n: NumberOrStringView) -> JsonView {
    match n {
        NumberOrStringView::Number(s) => JsonView::Num(s),
        NumberOrStringView::Str(s) => JsonView::Str(s),
    }
}

/// The style block written member by member in its declared order;
/// optional members are skipped when absent.
pub open spec fn style_mspec(v: StyleView) -> OmSpec {
    Seq::empty()
        .push(("fontStyle"@, Some(JsonView::Str(v.font_style))))
        .push(("fontWeight"@, Some(JsonView::Str(v.font_weight))))
        .push(("fontSize"@, Some(JsonView::Str(v.font_size))))
        .push(("color"@, omap_str(v.color)))
        .push(("background"@, omap_str(v.background)))
        .push(("backgroundColor"@, omap_str(v.background_color)))
        .push(("textDecorationLine"@, Some(spec_encode_tdl(v.text_decoration_line))))
        .push(("textDecorationStyle"@, Some(JsonView::Str(v.text_decoration_style))))
        .push(("textDecorationColor"@, omap_str(v.text_decoration_color)))
        .push(("borderColor"@, omap_str(v.border_color)))
        .push(("borderStyle"@, omap_str(v.border_style)))
        .push(("borderRadius"@, omap_str(v.border_radius)))
        .push(("borderWidth"@, omap_str(v.border_width)))
        .push(("clipPath"@, omap_str(v.clip_path)))
        .push(("verticalAlign"@, Some(JsonView::Str(v.vertical_align))))
        .push(("textAlign"@, Some(JsonView::Str(v.text_align))))
        .push(("textEmphasis"@, omap_str(v.text_emphasis)))
        .push(("textShadow"@, omap_str(v.text_shadow)))
        .push(("margin"@, omap_str(v.margin)))
        .push(("marginTop"@, Some(spec_encode_nos(v.margin_top))))
        .push(("marginLeft"@, Some(spec_encode_nos(v.margin_left))))
        .push(("marginRight"@, Some(spec_encode_nos(v.margin_right))))
        .push(("marginBottom"@, Some(spec_encode_nos(v.margin_bottom))))
        .push(("padding"@, omap_str(v.padding)))
        .push(("paddingTop"@, omap_str(v.padding_top)))
        .push(("paddingLeft"@, omap_str(v.padding_left)))
        .push(("paddingRight"@, omap_str(v.padding_right)))
        .push(("paddingBottom"@, omap_str(v.padding_bottom)))
        .push(("wordBreak"@, Some(JsonView::Str(v.word_break))))
        .push(("whiteSpace"@, Some(JsonView::Str(v.white_space))))
        .push(("cursor"@, Some(JsonView::Str(v.cursor))))
        .push(("listStyleType"@, Some(JsonView::Str(v.list_style_type))))
}

pub open spec fn spec_encode_style(v: StyleView) -> JsonView {
    JsonView::Obj(omembers(style_mspec(v)))
}

pub open spec fn omap_style(v: Option<StyleView>) -> Option<JsonView> {
    match v {
        Some(st) => Some(spec_encode_style(st)),
        None => None,
    }
}

/// The recursive writers of the content tree.
pub open spec fn spec_encode_sc(t: SCView) -> JsonView
    decreases t,
{
    match t {
        SCView::Text(s) => JsonView::Str(s),
        SCView::Array(a) => JsonView::Arr(spec_encode_sc_list(a)),
        SCView::Object(b) => spec_encode_sc_object(*b),
    }
}

/// Writes the elements of an array of content in order.
pub open spec fn spec_encode_sc_list(a: Seq<SCView>) -> Seq<JsonView>
    decreases a,
{
    if a.len() == 0 {
        Seq::empty()
    } else {
        spec_encode_sc_list(a.drop_last()).push(spec_encode_sc(a.last()))
    }
}

pub open spec fn omap_content(v: Option<SCView>) -> Option<JsonView>
    decreases v,
{
    match v {
        Some(c) => Some(spec_encode_sc(c)),
        None => None,
    }
}

pub open spec fn container_mspec(tag: Seq<char>, f: ContainerFieldsView) -> OmSpec
    decreases f,
{
    Seq::empty()
        .push(("tag"@, Some(JsonView::Str(tag))))
        .push(("content"@, omap_content(f.content)))
        .push(("data"@, omap_data(f.data)))
        .push(("lang"@, omap_str(f.lang)))
}

pub open spec fn table_element_mspec(tag: Seq<char>, f: TableElementFieldsView) -> OmSpec
    decreases f,
{
    Seq::empty()
        .push(("tag"@, Some(JsonView::Str(tag))))
        .push(("content"@, omap_content(f.content)))
        .push(("data"@, omap_data(f.data)))
        .push(("colSpan"@, omap_int(f.col_span)))
        .push(("rowSpan"@, omap_int(f.row_span)))
        .push(("style"@, omap_style(f.style)))
        .push(("lang"@, omap_str(f.lang)))
}

pub open spec fn styled_mspec(tag: Seq<char>, f: StyledContainerFieldsView) -> OmSpec
    decreases f,
{
    Seq::empty()
        .push(("tag"@, Some(JsonView::Str(tag))))
        .push(("content"@, omap_content(f.content)))
        .push(("data"@, omap_data(f.data)))
        .push(("style"@, omap_style(f.style)))
        .push(("title"@, omap_str(f.title)))
        .push(("open"@, omap_bool(f.open)))
        .push(("lang"@, omap_str(f.lang)))
}

pub open spec fn break_mspec(tag: Seq<char>, f: BreakFieldsView) -> OmSpec {
    Seq::empty()
        .push(("tag"@, Some(JsonView::Str(tag))))
        .push(("data"@, omap_data(f.data)))
}

pub open spec fn image_mspec(tag: Seq<char>, f: ImageFieldsView) -> OmSpec {
    Seq::empty()
        .push(("tag"@, Some(JsonView::Str(tag))))
        .push(("path"@, Some(JsonView::Str(f.path))))
        .push(("data"@, omap_data(f.data)))
        .push(("width"@, omap_num(f.width)))
        .push(("height"@, omap_num(f.height)))
        .push(("title"@, omap_str(f.title)))
        .push(("alt"@, omap_str(f.alt)))
        .push(("description"@, omap_str(f.description)))
        .push(("pixelated"@, Some(JsonView::Bool(f.pixelated))))
        .push(("imageRendering"@, Some(JsonView::Str(f.image_rendering))))
        .push(("appearance"@, Some(JsonView::Str(f.appearance))))
        .push(("background"@, Some(JsonView::Bool(f.background))))
        .push(("collapsed"@, Some(JsonView::Bool(f.collapsed))))
        .push(("collapsible"@, Some(JsonView::Bool(f.collapsible))))
        .push(("verticalAlign"@, omap_str(f.vertical_align)))
        .push(("border"@, omap_str(f.border)))
        .push(("borderRadius"@, omap_str(f.border_radius)))
        .push(("sizeUnits"@, omap_str(f.size_units)))
}

pub open spec fn link_mspec(tag: Seq<char>, f: LinkFieldsView) -> OmSpec
    decreases f,
{
    Seq::empty()
        .push(("tag"@, Some(JsonView::Str(tag))))
        .push(("href"@, Some(JsonView::Str(f.href))))
        .push(("content"@, omap_content(f.content)))
        .push(("lang"@, omap_str(f.lang)))
}

pub open spec fn spec_encode_sc_object(o: SCObjectView) -> JsonView
    decreases o,
{
    match o {
        SCObjectView::Br(f) => JsonView::Obj(omembers(break_mspec("br"@, f))),
        SCObjectView::Ruby(f) => JsonView::Obj(omembers(container_mspec("ruby"@, f))),
        SCObjectView::Rt(f) => JsonView::Obj(omembers(container_mspec("rt"@, f))),
        SCObjectView::Rp(f) => JsonView::Obj(omembers(container_mspec("rp"@, f))),
        SCObjectView::Table(f) => JsonView::Obj(omembers(container_mspec("table"@, f))),
        SCObjectView::Thead(f) => JsonView::Obj(omembers(container_mspec("thead"@, f))),
        SCObjectView::Tbody(f) => JsonView::Obj(omembers(container_mspec("tbody"@, f))),
        SCObjectView::Tfoot(f) => JsonView::Obj(omembers(container_mspec("tfoot"@, f))),
        SCObjectView::Tr(f) => JsonView::Obj(omembers(container_mspec("tr"@, f))),
        SCObjectView::Td(f) => JsonView::Obj(omembers(table_element_mspec("td"@, f))),
        SCObjectView::Th(f) => JsonView::Obj(omembers(table_element_mspec("th"@, f))),
        SCObjectView::Span(f) => JsonView::Obj(omembers(styled_mspec("span"@, f))),
        SCObjectView::Div(f) => JsonView::Obj(omembers(styled_mspec("div"@, f))),
        SCObjectView::Ol(f) => JsonView::Obj(omembers(styled_mspec("ol"@, f))),
        SCObjectView::Ul(f) => JsonView::Obj(omembers(styled_mspec("ul"@, f))),
        SCObjectView::Li(f) => JsonView::Obj(omembers(styled_mspec("li"@, f))),
        SCObjectView::Details(f) => JsonView::Obj(omembers(styled_mspec("details"@, f))),
        SCObjectView::Summary(f) => JsonView::Obj(omembers(styled_mspec("summary"@, f))),
        SCObjectView::Img(f) => JsonView::Obj(omembers(image_mspec("img"@, f))),
        SCObjectView::A(f) => JsonView::Obj(omembers(link_mspec("a"@, f))),
    }
}

pub open spec fn image_definition_mspec(f: ImageDefinitionView) -> OmSpec {
    Seq::empty()
        .push(("type"@, Some(JsonView::Str("image"@))))
        .push(("path"@, Some(JsonView::Str(f.path))))
        .push(("width"@, omap_int(f.width)))
        .push(("height"@, omap_int(f.height)))
        .push(("title"@, omap_str(f.title)))
        .push(("alt"@, omap_str(f.alt)))
        .push(("description"@, omap_str(f.description)))
        .push(("pixelated"@, Some(JsonView::Bool(f.pixelated))))
        .push(("imageRendering"@, Some(JsonView::Str(f.image_rendering))))
        .push(("appearance"@, Some(JsonView::Str(f.appearance))))
        .push(("background"@, Some(JsonView::Bool(f.background))))
        .push(("collapsed"@, Some(JsonView::Bool(f.collapsed))))
        .push(("collapsible"@, Some(JsonView::Bool(f.collapsible))))
}

pub open spec fn detailed_text_mspec(t: TextDefinitionView) -> OmSpec {
    Seq::empty()
        .push(("type"@, Some(JsonView::Str("text"@))))
        .push(("text"@, Some(JsonView::Str(t.text))))
}

pub open spec fn detailed_sc_mspec(c: SCDefinitionView) -> OmSpec {
    Seq::empty()
        .push(("type"@, Some(JsonView::Str("structured-content"@))))
        .push(("content"@, Some(spec_encode_sc(c.content))))
}

/// A detailed definition written with its `type` discriminant first.
pub open spec fn spec_encode_detailed(d: DetailedDefinitionView) -> JsonView {
    match d {
        DetailedDefinitionView::Text(t) => JsonView::Obj(omembers(detailed_text_mspec(t))),
        DetailedDefinitionView::Image(f) => JsonView::Obj(omembers(image_definition_mspec(f))),
        DetailedDefinitionView::StructuredContent(c) => JsonView::Obj(omembers(detailed_sc_mspec(c))),
    }
}

pub open spec fn spec_encode_definition(d: DefinitionView) -> JsonView {
    match d {
        DefinitionView::Text(s) => JsonView::Str(s),
        DefinitionView::Detailed(b) => spec_encode_detailed(*b),
        DefinitionView::Deinflection(di) => JsonView::Arr(
            seq![
                JsonView::Str(di.uninflected),
                JsonView::Arr(
                    Seq::new(di.inflection_rules.len(), |i: int| JsonView::Str(di.inflection_rules[i])),
                ),
            ],
        ),
    }
}

/// One term row as its eight positional cells.
pub open spec fn spec_encode_term_row(t: TermRowView) -> JsonView {
    JsonView::Arr(
        seq![
            JsonView::Str(t.expression),
            JsonView::Str(t.reading),
            match t.definition_tags {
                Some(s) => JsonView::Str(s),
                None => JsonView::Null,
            },
            JsonView::Str(t.rules),
            JsonView::Num(t.score),
            JsonView::Arr(
                Seq::new(t.definitions.len(), |i: int| spec_encode_definition(t.definitions[i])),
            ),
            JsonView::Num(spec_int_lit_of(t.sequence as int)),
            JsonView::Str(t.expression_tags),
        ],
    )
}

// --- Round trips: reading back what was written yields the same value ---

proof fn lemma_sc_data_round_trip(d: SCDataView)
    ensures
        spec_decode_sc_data(spec_encode_sc_data(d)) == Some(d),
{
    let m = spec_encode_sc_data(d)->Obj_0;
    assert(forall|i: int| 0 <= i < m.len() ==> (#[trigger] m[i].1) is Str);
    let r = spec_decode_sc_data(spec_encode_sc_data(d))->0;
    assert forall|i: int| 0 <= i < d.len() implies r[i] == d[i] by {
        assert(m[i] == (d[i].0, JsonView::Str(d[i].1)));
        assert(r[i] == (d[i].0, d[i].1));
    }
    assert(r =~= d);
}

proof fn lemma_tdl_round_trip(t: TextDecorationLineView)
    ensures
        spec_decode_tdl(spec_encode_tdl(t)) == Some(t),
{
    match t {
        TextDecorationLineView::Single(s) => {},
        TextDecorationLineView::Multiple(v) => {
            let a = spec_encode_tdl(t)->Arr_0;
            assert(forall|i: int| 0 <= i < a.len() ==> a[i] is Str);
            let r = spec_decode_tdl(spec_encode_tdl(t))->0->Multiple_0;
            assert forall|i: int| 0 <= i < v.len() implies r[i] == v[i] by {
                assert(a[i] == JsonView::Str(v[i]));
            }
            assert(r =~= v);
        },
    }
}

proof fn lemma_nos_round_trip(n: NumberOrStringView)
    ensures
        spec_decode_nos(spec_encode_nos(n)) == Some(n),
{
}

#[verifier::spinoff_prover]
#[verifier::rlimit(100)]
proof fn lemma_style_lookup_front(v: StyleView)
    ensures
        sget_str_or(omembers(style_mspec(v)), "fontStyle"@, "normal"@) == Some(v.font_style),
        sget_str_or(omembers(style_mspec(v)), "fontWeight"@, "normal"@) == Some(v.font_weight),
        sget_str_or(omembers(style_mspec(v)), "fontSize"@, "medium"@) == Some(v.font_size),
        sget_opt_str(omembers(style_mspec(v)), "color"@) == Some(v.color),
        sget_opt_str(omembers(style_mspec(v)), "background"@) == Some(v.background),
        sget_opt_str(omembers(style_mspec(v)), "backgroundColor"@) == Some(v.background_color),
        sget_tdl(omembers(style_mspec(v)), "textDecorationLine"@) == Some(v.text_decoration_line),
        sget_str_or(omembers(style_mspec(v)), "textDecorationStyle"@, "solid"@) == Some(v.text_decoration_style),
        sget_opt_str(omembers(style_mspec(v)), "textDecorationColor"@) == Some(v.text_decoration_color),
        sget_opt_str(omembers(style_mspec(v)), "borderColor"@) == Some(v.border_color),
        sget_opt_str(omembers(style_mspec(v)), "borderStyle"@) == Some(v.border_style),
        sget_opt_str(omembers(style_mspec(v)), "borderRadius"@) == Some(v.border_radius),
        sget_opt_str(omembers(style_mspec(v)), "borderWidth"@) == Some(v.border_width),
        sget_opt_str(omembers(style_mspec(v)), "clipPath"@) == Some(v.clip_path),
        sget_str_or(omembers(style_mspec(v)), "verticalAlign"@, "baseline"@) == Some(v.vertical_align),
        sget_str_or(omembers(style_mspec(v)), "textAlign"@, "start"@) == Some(v.text_align),
{
    reveal_strlit("fontStyle");
    reveal_strlit("fontWeight");
    reveal_strlit("fontSize");
    reveal_strlit("color");
    reveal_strlit("background");
    reveal_strlit("backgroundColor");
    reveal_strlit("textDecorationLine");
    reveal_strlit("textDecorationStyle");
    reveal_strlit("textDecorationColor");
    reveal_strlit("borderColor");
    reveal_strlit("borderStyle");
    reveal_strlit("borderRadius");
    reveal_strlit("borderWidth");
    reveal_strlit("clipPath");
    reveal_strlit("verticalAlign");
    reveal_strlit("textAlign");
    reveal_strlit("textEmphasis");
    reveal_strlit("textShadow");
    reveal_strlit("margin");
    reveal_strlit("marginTop");
    reveal_strlit("marginLeft");
    reveal_strlit("marginRight");
    reveal_strlit("marginBottom");
    reveal_strlit("padding");
    reveal_strlit("paddingTop");
    reveal_strlit("paddingLeft");
    reveal_strlit("paddingRight");
    reveal_strlit("paddingBottom");
    reveal_strlit("wordBreak");
    reveal_strlit("whiteSpace");
    reveal_strlit("cursor");
    reveal_strlit("listStyleType");
    assert(("fontStyle"@).len() == 9);
    assert(("fontWeight"@).len() == 10);
    assert(("fontSize"@).len() == 8);
    assert(("color"@).len() == 5);
    assert(("background"@).len() == 10);
    assert(("backgroundColor"@).len() == 15);
    assert(("textDecorationLine"@).len() == 18);
    assert(("textDecorationStyle"@).len() == 19);
    assert(("textDecorationColor"@).len() == 19);
    assert(("borderColor"@).len() == 11);
    assert(("borderStyle"@).len() == 11);
    assert(("borderRadius"@).len() == 12);
    assert(("borderWidth"@).len() == 11);
    assert(("clipPath"@).len() == 8);
    assert(("verticalAlign"@).len() == 13);
    assert(("textAlign"@).len() == 9);
    assert(("textEmphasis"@).len() == 12);
    assert(("textShadow"@).len() == 10);
    assert(("margin"@).len() == 6);
    assert(("marginTop"@).len() == 9);
    assert(("marginLeft"@).len() == 10);
    assert(("marginRight"@).len() == 11);
    assert(("marginBottom"@).len() == 12);
    assert(("padding"@).len() == 7);
    assert(("paddingTop"@).len() == 10);
    assert(("paddingLeft"@).len() == 11);
    assert(("paddingRight"@).len() == 12);
    assert(("paddingBottom"@).len() == 13);
    assert(("wordBreak"@).len() == 9);
    assert(("whiteSpace"@).len() == 10);
    assert(("cursor"@).len() == 6);
    assert(("listStyleType"@).len() == 13);
    assert(("fontStyle"@)[0] != ("textAlign"@)[0]);
    assert(("fontStyle"@)[0] != ("marginTop"@)[0]);
    assert(("fontStyle"@)[0] != ("wordBreak"@)[0]);
    assert(("fontWeight"@)[0] != ("textShadow"@)[0]);
    assert(("fontWeight"@)[0] != ("marginLeft"@)[0]);
    assert(("fontWeight"@)[0] != ("paddingTop"@)[0]);
    assert(("fontWeight"@)[0] != ("whiteSpace"@)[0]);
    assert(("background"@)[0] != ("fontWeight"@)[0]);
    assert(("background"@)[0] != ("textShadow"@)[0]);
    assert(("background"@)[0] != ("marginLeft"@)[0]);
    assert(("background"@)[0] != ("paddingTop"@)[0]);
    assert(("background"@)[0] != ("whiteSpace"@)[0]);
    assert(("textDecorationColor"@)[14] != ("textDecorationStyle"@)[14]);
    assert(("borderColor"@)[6] != ("borderStyle"@)[6]);
    assert(("borderColor"@)[6] != ("borderWidth"@)[6]);
    assert(("borderColor"@)[0] != ("marginRight"@)[0]);
    assert(("borderColor"@)[0] != ("paddingLeft"@)[0]);
    assert(("borderStyle"@)[6] != ("borderWidth"@)[6]);
    assert(("borderStyle"@)[0] != ("marginRight"@)[0]);
    assert(("borderStyle"@)[0] != ("paddingLeft"@)[0]);
    assert(("borderRadius"@)[0] != ("textEmphasis"@)[0]);
    assert(("borderRadius"@)[0] != ("marginBottom"@)[0]);
    assert(("borderRadius"@)[0] != ("paddingRight"@)[0]);
    assert(("borderWidth"@)[0] != ("marginRight"@)[0]);
    assert(("borderWidth"@)[0] != ("paddingLeft"@)[0]);
    assert(("clipPath"@)[0] != ("fontSize"@)[0]);
    assert(("textAlign"@)[0] != ("wordBreak"@)[0]);
    assert(("textShadow"@)[0] != ("whiteSpace"@)[0]);
    assert(("marginTop"@)[0] != ("textAlign"@)[0]);
    assert(("marginTop"@)[0] != ("wordBreak"@)[0]);
    assert(("marginLeft"@)[0] != ("textShadow"@)[0]);
    assert(("marginLeft"@)[0] != ("paddingTop"@)[0]);
    assert(("marginLeft"@)[0] != ("whiteSpace"@)[0]);
    assert(("marginRight"@)[0] != ("paddingLeft"@)[0]);
    assert(("marginBottom"@)[0] != ("textEmphasis"@)[0]);
    assert(("marginBottom"@)[0] != ("paddingRight"@)[0]);
    assert(("paddingTop"@)[0] != ("textShadow"@)[0]);
    assert(("paddingTop"@)[0] != ("whiteSpace"@)[0]);
    assert(("paddingRight"@)[0] != ("textEmphasis"@)[0]);
    assert(("paddingBottom"@)[0] != ("verticalAlign"@)[0]);
    assert(("cursor"@)[0] != ("margin"@)[0]);
    assert(("listStyleType"@)[0] != ("verticalAlign"@)[0]);
    assert(("listStyleType"@)[0] != ("paddingBottom"@)[0]);
    let s = style_mspec(v);
    assert(s.len() == 32);
    assert(s[0].0 == "fontStyle"@);
    assert(s[1].0 == "fontWeight"@);
    assert(s[2].0 == "fontSize"@);
    assert(s[3].0 == "color"@);
    assert(s[4].0 == "background"@);
    assert(s[5].0 == "backgroundColor"@);
    assert(s[6].0 == "textDecorationLine"@);
    assert(s[7].0 == "textDecorationStyle"@);
    assert(s[8].0 == "textDecorationColor"@);
    assert(s[9].0 == "borderColor"@);
    assert(s[10].0 == "borderStyle"@);
    assert(s[11].0 == "borderRadius"@);
    assert(s[12].0 == "borderWidth"@);
    assert(s[13].0 == "clipPath"@);
    assert(s[14].0 == "verticalAlign"@);
    assert(s[15].0 == "textAlign"@);
    assert(s[16].0 == "textEmphasis"@);
    assert(s[17].0 == "textShadow"@);
    assert(s[18].0 == "margin"@);
    assert(s[19].0 == "marginTop"@);
    assert(s[20].0 == "marginLeft"@);
    assert(s[21].0 == "marginRight"@);
    assert(s[22].0 == "marginBottom"@);
    assert(s[23].0 == "padding"@);
    assert(s[24].0 == "paddingTop"@);
    assert(s[25].0 == "paddingLeft"@);
    assert(s[26].0 == "paddingRight"@);
    assert(s[27].0 == "paddingBottom"@);
    assert(s[28].0 == "wordBreak"@);
    assert(s[29].0 == "whiteSpace"@);
    assert(s[30].0 == "cursor"@);
    assert(s[31].0 == "listStyleType"@);
    lemma_omembers_at(s, 0, "fontStyle"@);
    lemma_omembers_at(s, 1, "fontWeight"@);
    lemma_omembers_at(s, 2, "fontSize"@);
    lemma_omembers_at(s, 3, "color"@);
    lemma_omembers_at(s, 4, "background"@);
    lemma_omembers_at(s, 5, "backgroundColor"@);
    lemma_omembers_at(s, 6, "textDecorationLine"@);
    lemma_omembers_at(s, 7, "textDecorationStyle"@);
    lemma_omembers_at(s, 8, "textDecorationColor"@);
    lemma_omembers_at(s, 9, "borderColor"@);
    lemma_omembers_at(s, 10, "borderStyle"@);
    lemma_omembers_at(s, 11, "borderRadius"@);
    lemma_omembers_at(s, 12, "borderWidth"@);
    lemma_omembers_at(s, 13, "clipPath"@);
    lemma_omembers_at(s, 14, "verticalAlign"@);
    lemma_omembers_at(s, 15, "textAlign"@);
    lemma_tdl_round_trip(v.text_decoration_line);
}

#[verifier::spinoff_prover]
#[verifier::rlimit(100)]
proof fn lemma_style_lookup_back(v: StyleView)
    ensures
        sget_opt_str(omembers(style_mspec(v)), "textEmphasis"@) == Some(v.text_emphasis),
        sget_opt_str(omembers(style_mspec(v)), "textShadow"@) == Some(v.text_shadow),
        sget_opt_str(omembers(style_mspec(v)), "margin"@) == Some(v.margin),
        sget_nos(omembers(style_mspec(v)), "marginTop"@) == Some(v.margin_top),
        sget_nos(omembers(style_mspec(v)), "marginLeft"@) == Some(v.margin_left),
        sget_nos(omembers(style_mspec(v)), "marginRight"@) == Some(v.margin_right),
        sget_nos(omembers(style_mspec(v)), "marginBottom"@) == Some(v.margin_bottom),
        sget_opt_str(omembers(style_mspec(v)), "padding"@) == Some(v.padding),
        sget_opt_str(omembers(style_mspec(v)), "paddingTop"@) == Some(v.padding_top),
        sget_opt_str(omembers(style_mspec(v)), "paddingLeft"@) == Some(v.padding_left),
        sget_opt_str(omembers(style_mspec(v)), "paddingRight"@) == Some(v.padding_right),
        sget_opt_str(omembers(style_mspec(v)), "paddingBottom"@) == Some(v.padding_bottom),
        sget_str_or(omembers(style_mspec(v)), "wordBreak"@, "normal"@) == Some(v.word_break),
        sget_str_or(omembers(style_mspec(v)), "whiteSpace"@, "normal"@) == Some(v.white_space),
        sget_str_or(omembers(style_mspec(v)), "cursor"@, "auto"@) == Some(v.cursor),
        sget_str_or(omembers(style_mspec(v)), "listStyleType"@, "disc"@) == Some(v.list_style_type),
{
    reveal_strlit("fontStyle");
    reveal_strlit("fontWeight");
    reveal_strlit("fontSize");
    reveal_strlit("color");
    reveal_strlit("background");
    reveal_strlit("backgroundColor");
    reveal_strlit("textDecorationLine");
    reveal_strlit("textDecorationStyle");
    reveal_strlit("textDecorationColor");
    reveal_strlit("borderColor");
    reveal_strlit("borderStyle");
    reveal_strlit("borderRadius");
    reveal_strlit("borderWidth");
    reveal_strlit("clipPath");
    reveal_strlit("verticalAlign");
    reveal_strlit("textAlign");
    reveal_strlit("textEmphasis");
    reveal_strlit("textShadow");
    reveal_strlit("margin");
    reveal_strlit("marginTop");
    reveal_strlit("marginLeft");
    reveal_strlit("marginRight");
    reveal_strlit("marginBottom");
    reveal_strlit("padding");
    reveal_strlit("paddingTop");
    reveal_strlit("paddingLeft");
    reveal_strlit("paddingRight");
    reveal_strlit("paddingBottom");
    reveal_strlit("wordBreak");
    reveal_strlit("whiteSpace");
    reveal_strlit("cursor");
    reveal_strlit("listStyleType");
    assert(("fontStyle"@).len() == 9);
    assert(("fontWeight"@).len() == 10);
    assert(("fontSize"@).len() == 8);
    assert(("color"@).len() == 5);
    assert(("background"@).len() == 10);
    assert(("backgroundColor"@).len() == 15);
    assert(("textDecorationLine"@).len() == 18);
    assert(("textDecorationStyle"@).len() == 19);
    assert(("textDecorationColor"@).len() == 19);
    assert(("borderColor"@).len() == 11);
    assert(("borderStyle"@).len() == 11);
    assert(("borderRadius"@).len() == 12);
    assert(("borderWidth"@).len() == 11);
    assert(("clipPath"@).len() == 8);
    assert(("verticalAlign"@).len() == 13);
    assert(("textAlign"@).len() == 9);
    assert(("textEmphasis"@).len() == 12);
    assert(("textShadow"@).len() == 10);
    assert(("margin"@).len() == 6);
    assert(("marginTop"@).len() == 9);
    assert(("marginLeft"@).len() == 10);
    assert(("marginRight"@).len() == 11);
    assert(("marginBottom"@).len() == 12);
    assert(("padding"@).len() == 7);
    assert(("paddingTop"@).len() == 10);
    assert(("paddingLeft"@).len() == 11);
    assert(("paddingRight"@).len() == 12);
    assert(("paddingBottom"@).len() == 13);
    assert(("wordBreak"@).len() == 9);
    assert(("whiteSpace"@).len() == 10);
    assert(("cursor"@).len() == 6);
    assert(("listStyleType"@).len() == 13);
    assert(("fontStyle"@)[0] != ("textAlign"@)[0]);
    assert(("fontStyle"@)[0] != ("marginTop"@)[0]);
    assert(("fontStyle"@)[0] != ("wordBreak"@)[0]);
    assert(("fontWeight"@)[0] != ("textShadow"@)[0]);
    assert(("fontWeight"@)[0] != ("marginLeft"@)[0]);
    assert(("fontWeight"@)[0] != ("paddingTop"@)[0]);
    assert(("fontWeight"@)[0] != ("whiteSpace"@)[0]);
    assert(("background"@)[0] != ("fontWeight"@)[0]);
    assert(("background"@)[0] != ("textShadow"@)[0]);
    assert(("background"@)[0] != ("marginLeft"@)[0]);
    assert(("background"@)[0] != ("paddingTop"@)[0]);
    assert(("background"@)[0] != ("whiteSpace"@)[0]);
    assert(("textDecorationColor"@)[14] != ("textDecorationStyle"@)[14]);
    assert(("borderColor"@)[6] != ("borderStyle"@)[6]);
    assert(("borderColor"@)[6] != ("borderWidth"@)[6]);
    assert(("borderColor"@)[0] != ("marginRight"@)[0]);
    assert(("borderColor"@)[0] != ("paddingLeft"@)[0]);
    assert(("borderStyle"@)[6] != ("borderWidth"@)[6]);
    assert(("borderStyle"@)[0] != ("marginRight"@)[0]);
    assert(("borderStyle"@)[0] != ("paddingLeft"@)[0]);
    assert(("borderRadius"@)[0] != ("textEmphasis"@)[0]);
    assert(("borderRadius"@)[0] != ("marginBottom"@)[0]);
    assert(("borderRadius"@)[0] != ("paddingRight"@)[0]);
    assert(("borderWidth"@)[0] != ("marginRight"@)[0]);
    assert(("borderWidth"@)[0] != ("paddingLeft"@)[0]);
    assert(("clipPath"@)[0] != ("fontSize"@)[0]);
    assert(("textAlign"@)[0] != ("wordBreak"@)[0]);
    assert(("textShadow"@)[0] != ("whiteSpace"@)[0]);
    assert(("marginTop"@)[0] != ("textAlign"@)[0]);
    assert(("marginTop"@)[0] != ("wordBreak"@)[0]);
    assert(("marginLeft"@)[0] != ("textShadow"@)[0]);
    assert(("marginLeft"@)[0] != ("paddingTop"@)[0]);
    assert(("marginLeft"@)[0] != ("whiteSpace"@)[0]);
    assert(("marginRight"@)[0] != ("paddingLeft"@)[0]);
    assert(("marginBottom"@)[0] != ("textEmphasis"@)[0]);
    assert(("marginBottom"@)[0] != ("paddingRight"@)[0]);
    assert(("paddingTop"@)[0] != ("textShadow"@)[0]);
    assert(("paddingTop"@)[0] != ("whiteSpace"@)[0]);
    assert(("paddingRight"@)[0] != ("textEmphasis"@)[0]);
    assert(("paddingBottom"@)[0] != ("verticalAlign"@)[0]);
    assert(("cursor"@)[0] != ("margin"@)[0]);
    assert(("listStyleType"@)[0] != ("verticalAlign"@)[0]);
    assert(("listStyleType"@)[0] != ("paddingBottom"@)[0]);
    let s = style_mspec(v);
    assert(s.len() == 32);
    assert(s[0].0 == "fontStyle"@);
    assert(s[1].0 == "fontWeight"@);
    assert(s[2].0 == "fontSize"@);
    assert(s[3].0 == "color"@);
    assert(s[4].0 == "background"@);
    assert(s[5].0 == "backgroundColor"@);
    assert(s[6].0 == "textDecorationLine"@);
    assert(s[7].0 == "textDecorationStyle"@);
    assert(s[8].0 == "textDecorationColor"@);
    assert(s[9].0 == "borderColor"@);
    assert(s[10].0 == "borderStyle"@);
    assert(s[11].0 == "borderRadius"@);
    assert(s[12].0 == "borderWidth"@);
    assert(s[13].0 == "clipPath"@);
    assert(s[14].0 == "verticalAlign"@);
    assert(s[15].0 == "textAlign"@);
    assert(s[16].0 == "textEmphasis"@);
    assert(s[17].0 == "textShadow"@);
    assert(s[18].0 == "margin"@);
    assert(s[19].0 == "marginTop"@);
    assert(s[20].0 == "marginLeft"@);
    assert(s[21].0 == "marginRight"@);
    assert(s[22].0 == "marginBottom"@);
    assert(s[23].0 == "padding"@);
    assert(s[24].0 == "paddingTop"@);
    assert(s[25].0 == "paddingLeft"@);
    assert(s[26].0 == "paddingRight"@);
    assert(s[27].0 == "paddingBottom"@);
    assert(s[28].0 == "wordBreak"@);
    assert(s[29].0 == "whiteSpace"@);
    assert(s[30].0 == "cursor"@);
    assert(s[31].0 == "listStyleType"@);
    lemma_omembers_at(s, 16, "textEmphasis"@);
    lemma_omembers_at(s, 17, "textShadow"@);
    lemma_omembers_at(s, 18, "margin"@);
    lemma_omembers_at(s, 19, "marginTop"@);
    lemma_omembers_at(s, 20, "marginLeft"@);
    lemma_omembers_at(s, 21, "marginRight"@);
    lemma_omembers_at(s, 22, "marginBottom"@);
    lemma_omembers_at(s, 23, "padding"@);
    lemma_omembers_at(s, 24, "paddingTop"@);
    lemma_omembers_at(s, 25, "paddingLeft"@);
    lemma_omembers_at(s, 26, "paddingRight"@);
    lemma_omembers_at(s, 27, "paddingBottom"@);
    lemma_omembers_at(s, 28, "wordBreak"@);
    lemma_omembers_at(s, 29, "whiteSpace"@);
    lemma_omembers_at(s, 30, "cursor"@);
    lemma_omembers_at(s, 31, "listStyleType"@);
    lemma_nos_round_trip(v.margin_top);
    lemma_nos_round_trip(v.margin_left);
    lemma_nos_round_trip(v.margin_right);
    lemma_nos_round_trip(v.margin_bottom);
}

#[verifier::spinoff_prover]
#[verifier::rlimit(100)]
proof fn lemma_style_round_trip(v: StyleView)
    ensures
        spec_decode_style(spec_encode_style(v)) == Some(v),
{
    lemma_style_lookup_front(v);
    lemma_style_lookup_back(v);
    assert(spec_decode_style(spec_encode_style(v)) == Some(v));
}

proof fn lemma_break_fields_round_trip(f: BreakFieldsView, tag: Seq<char>)
    requires
        tag != "data"@,
    ensures
        spec_decode_break_fields(omembers(break_mspec(tag, f))) == Some(f),
        sget_req_str(omembers(break_mspec(tag, f)), "tag"@) == Some(tag),
{
    reveal_strlit("tag");
    reveal_strlit("data");

    assert(("tag"@).len() == 3);
    assert(("data"@).len() == 4);
    let s = break_mspec(tag, f);
    
    assert(s.len() == 2);
    assert(s[0].0 == "tag"@);
    assert(s[1].0 == "data"@);
    lemma_omembers_at(s, 0, "tag"@);
    lemma_omembers_at(s, 1, "data"@);
    match f.data {
        Some(d) => {
            lemma_sc_data_round_trip(d);
        },
        None => {},
    }
}

#[verifier::rlimit(100)]
proof fn lemma_image_fields_round_trip(f: ImageFieldsView, tag: Seq<char>)
    requires
        tag == "img"@,
    ensures
        spec_decode_image_fields(omembers(image_mspec(tag, f))) == Some(f),
        sget_req_str(omembers(image_mspec(tag, f)), "tag"@) == Some(tag),
{
    reveal_strlit("tag");
    reveal_strlit("path");
    reveal_strlit("data");
    reveal_strlit("width");
    reveal_strlit("height");
    reveal_strlit("title");
    reveal_strlit("alt");
    reveal_strlit("description");
    reveal_strlit("pixelated");
    reveal_strlit("imageRendering");
    reveal_strlit("appearance");
    reveal_strlit("background");
    reveal_strlit("collapsed");
    reveal_strlit("collapsible");
    reveal_strlit("verticalAlign");
    reveal_strlit("border");
    reveal_strlit("borderRadius");
    reveal_strlit("sizeUnits");

    assert(("tag"@).len() == 3);
    assert(("path"@).len() == 4);
    assert(("data"@).len() == 4);
    assert(("width"@).len() == 5);
    assert(("height"@).len() == 6);
    assert(("title"@).len() == 5);
    assert(("alt"@).len() == 3);
    assert(("description"@).len() == 11);
    assert(("pixelated"@).len() == 9);
    assert(("imageRendering"@).len() == 14);
    assert(("appearance"@).len() == 10);
    assert(("background"@).len() == 10);
    assert(("collapsed"@).len() == 9);
    assert(("collapsible"@).len() == 11);
    assert(("verticalAlign"@).len() == 13);
    assert(("border"@).len() == 6);
    assert(("borderRadius"@).len() == 12);
    assert(("sizeUnits"@).len() == 9);
    assert(("data"@)[0] != ("path"@)[0]);
    assert(("title"@)[0] != ("width"@)[0]);
    assert(("alt"@)[0] != ("tag"@)[0]);
    assert(("pixelated"@)[0] != ("sizeUnits"@)[0]);
    assert(("appearance"@)[0] != ("background"@)[0]);
    assert(("collapsed"@)[0] != ("pixelated"@)[0]);
    assert(("collapsed"@)[0] != ("sizeUnits"@)[0]);
    assert(("collapsible"@)[0] != ("description"@)[0]);
    assert(("border"@)[0] != ("height"@)[0]);
    let s = image_mspec(tag, f);
    assert(s.len() == 18);
    assert(s[0].0 == "tag"@);
    assert(s[1].0 == "path"@);
    assert(s[2].0 == "data"@);
    assert(s[3].0 == "width"@);
    assert(s[4].0 == "height"@);
    assert(s[5].0 == "title"@);
    assert(s[6].0 == "alt"@);
    assert(s[7].0 == "description"@);
    assert(s[8].0 == "pixelated"@);
    assert(s[9].0 == "imageRendering"@);
    assert(s[10].0 == "appearance"@);
    assert(s[11].0 == "background"@);
    assert(s[12].0 == "collapsed"@);
    assert(s[13].0 == "collapsible"@);
    assert(s[14].0 == "verticalAlign"@);
    assert(s[15].0 == "border"@);
    assert(s[16].0 == "borderRadius"@);
    assert(s[17].0 == "sizeUnits"@);
    lemma_omembers_at(s, 0, "tag"@);
    lemma_omembers_at(s, 1, "path"@);
    lemma_omembers_at(s, 2, "data"@);
    lemma_omembers_at(s, 3, "width"@);
    lemma_omembers_at(s, 4, "height"@);
    lemma_omembers_at(s, 5, "title"@);
    lemma_omembers_at(s, 6, "alt"@);
    lemma_omembers_at(s, 7, "description"@);
    lemma_omembers_at(s, 8, "pixelated"@);
    lemma_omembers_at(s, 9, "imageRendering"@);
    lemma_omembers_at(s, 10, "appearance"@);
    lemma_omembers_at(s, 11, "background"@);
    lemma_omembers_at(s, 12, "collapsed"@);
    lemma_omembers_at(s, 13, "collapsible"@);
    lemma_omembers_at(s, 14, "verticalAlign"@);
    lemma_omembers_at(s, 15, "border"@);
    lemma_omembers_at(s, 16, "borderRadius"@);
    lemma_omembers_at(s, 17, "sizeUnits"@);
    match f.data {
        Some(d) => {
            lemma_sc_data_round_trip(d);
        },
        None => {},
    }
}

#[verifier::rlimit(100)]
proof fn lemma_image_definition_round_trip(f: ImageDefinitionView)
    ensures
        spec_decode_image_definition(omembers(image_definition_mspec(f))) == Some(f),
        sget_req_str(omembers(image_definition_mspec(f)), "type"@) == Some("image"@),
{
    reveal_strlit("type");
    reveal_strlit("path");
    reveal_strlit("width");
    reveal_strlit("height");
    reveal_strlit("title");
    reveal_strlit("alt");
    reveal_strlit("description");
    reveal_strlit("pixelated");
    reveal_strlit("imageRendering");
    reveal_strlit("appearance");
    reveal_strlit("background");
    reveal_strlit("collapsed");
    reveal_strlit("collapsible");

    assert(("type"@).len() == 4);
    assert(("path"@).len() == 4);
    assert(("width"@).len() == 5);
    assert(("height"@).len() == 6);
    assert(("title"@).len() == 5);
    assert(("alt"@).len() == 3);
    assert(("description"@).len() == 11);
    assert(("pixelated"@).len() == 9);
    assert(("imageRendering"@).len() == 14);
    assert(("appearance"@).len() == 10);
    assert(("background"@).len() == 10);
    assert(("collapsed"@).len() == 9);
    assert(("collapsible"@).len() == 11);
    assert(("path"@)[0] != ("type"@)[0]);
    assert(("title"@)[0] != ("width"@)[0]);
    assert(("appearance"@)[0] != ("background"@)[0]);
    assert(("collapsed"@)[0] != ("pixelated"@)[0]);
    assert(("collapsible"@)[0] != ("description"@)[0]);
    let s = image_definition_mspec(f);
    
    assert(s.len() == 13);
    assert(s[0].0 == "type"@);
    assert(s[1].0 == "path"@);
    assert(s[2].0 == "width"@);
    assert(s[3].0 == "height"@);
    assert(s[4].0 == "title"@);
    assert(s[5].0 == "alt"@);
    assert(s[6].0 == "description"@);
    assert(s[7].0 == "pixelated"@);
    assert(s[8].0 == "imageRendering"@);
    assert(s[9].0 == "appearance"@);
    assert(s[10].0 == "background"@);
    assert(s[11].0 == "collapsed"@);
    assert(s[12].0 == "collapsible"@);
    lemma_omembers_at(s, 0, "type"@);
    lemma_omembers_at(s, 1, "path"@);
    lemma_omembers_at(s, 2, "width"@);
    lemma_omembers_at(s, 3, "height"@);
    lemma_omembers_at(s, 4, "title"@);
    lemma_omembers_at(s, 5, "alt"@);
    lemma_omembers_at(s, 6, "description"@);
    lemma_omembers_at(s, 7, "pixelated"@);
    lemma_omembers_at(s, 8, "imageRendering"@);
    lemma_omembers_at(s, 9, "appearance"@);
    lemma_omembers_at(s, 10, "background"@);
    lemma_omembers_at(s, 11, "collapsed"@);
    lemma_omembers_at(s, 12, "collapsible"@);
    match f.width {
        Some(w) => {
            crate::num::lemma_int_lit_round_trip(w as int);
        },
        None => {},
    }
    match f.height {
        Some(h) => {
            crate::num::lemma_int_lit_round_trip(h as int);
        },
        None => {},
    }
}

/// Reading back the document written for any content tree yields that
/// tree.
pub proof fn lemma_structured_content_round_trip(t: SCView)
    ensures
        spec_decode_sc(spec_encode_sc(t)) == Some(t),
    decreases t, 3int,
{
    match t {
        SCView::Text(s) => {},
        SCView::Array(a) => {
            lemma_sc_list_round_trip(a);
        },
        SCView::Object(b) => {
            lemma_sc_object_round_trip(*b);
        },
    }
}

proof fn lemma_sc_list_round_trip(a: Seq<SCView>)
    ensures
        spec_decode_sc_list(spec_encode_sc_list(a)) == Some(a),
    decreases a, 4int,
{
    let e = spec_encode_sc_list(a);
    if a.len() == 0 {
        assert(e.len() == 0);
    } else {
        lemma_sc_list_round_trip(a.drop_last());
        lemma_structured_content_round_trip(a.last());
        assert(e.len() > 0);
        assert(e.drop_last() =~= spec_encode_sc_list(a.drop_last()));
        assert(e.last() == spec_encode_sc(a.last()));
        assert(spec_decode_sc_list(e) == Some(a.drop_last().push(a.last())));
        assert(a.drop_last().push(a.last()) =~= a);
    }
}

proof fn lemma_container_fields_round_trip(f: ContainerFieldsView, tag: Seq<char>)
    requires
        tag != "content"@,
        tag != "data"@,
        tag != "lang"@,
    ensures
        spec_decode_container_fields(omembers(container_mspec(tag, f))) == Some(f),
        sget_req_str(omembers(container_mspec(tag, f)), "tag"@) == Some(tag),
    decreases f, 1int,
{
    reveal_strlit("tag");
    reveal_strlit("content");
    reveal_strlit("data");
    reveal_strlit("lang");

    assert(("tag"@).len() == 3);
    assert(("content"@).len() == 7);
    assert(("data"@).len() == 4);
    assert(("lang"@).len() == 4);
    assert(("data"@)[0] != ("lang"@)[0]);
    let s = container_mspec(tag, f);
    assert(s.len() == 4);
    assert(s[0].0 == "tag"@);
    assert(s[1].0 == "content"@);
    assert(s[2].0 == "data"@);
    assert(s[3].0 == "lang"@);
    lemma_omembers_at(s, 0, "tag"@);
    lemma_omembers_at(s, 1, "content"@);
    lemma_omembers_at(s, 2, "data"@);
    lemma_omembers_at(s, 3, "lang"@);
    match f.content {
        Some(c) => {
            lemma_structured_content_round_trip(c);
        },
        None => {},
    }
    match f.data {
        Some(d) => {
            lemma_sc_data_round_trip(d);
        },
        None => {},
    }
}

#[verifier::rlimit(60)]
proof fn lemma_table_element_fields_round_trip(f: TableElementFieldsView, tag: Seq<char>)
    requires
        tag != "content"@,
        tag != "data"@,
        tag != "colSpan"@,
        tag != "rowSpan"@,
        tag != "style"@,
        tag != "lang"@,
    ensures
        spec_decode_table_element_fields(omembers(table_element_mspec(tag, f))) == Some(f),
        sget_req_str(omembers(table_element_mspec(tag, f)), "tag"@) == Some(tag),
    decreases f, 1int,
{
    reveal_strlit("tag");
    reveal_strlit("content");
    reveal_strlit("data");
    reveal_strlit("colSpan");
    reveal_strlit("rowSpan");
    reveal_strlit("style");
    reveal_strlit("lang");

    assert(("tag"@).len() == 3);
    assert(("content"@).len() == 7);
    assert(("data"@).len() == 4);
    assert(("colSpan"@).len() == 7);
    assert(("rowSpan"@).len() == 7);
    assert(("style"@).len() == 5);
    assert(("lang"@).len() == 4);
    assert(("content"@)[0] != ("rowSpan"@)[0]);
    assert(("data"@)[0] != ("lang"@)[0]);
    assert(("colSpan"@)[2] != ("content"@)[2]);
    assert(("colSpan"@)[0] != ("rowSpan"@)[0]);
    let s = table_element_mspec(tag, f);
    assert(s.len() == 7);
    assert(s[0].0 == "tag"@);
    assert(s[1].0 == "content"@);
    assert(s[2].0 == "data"@);
    assert(s[3].0 == "colSpan"@);
    assert(s[4].0 == "rowSpan"@);
    assert(s[5].0 == "style"@);
    assert(s[6].0 == "lang"@);
    lemma_omembers_at(s, 0, "tag"@);
    lemma_omembers_at(s, 1, "content"@);
    lemma_omembers_at(s, 2, "data"@);
    lemma_omembers_at(s, 3, "colSpan"@);
    lemma_omembers_at(s, 4, "rowSpan"@);
    lemma_omembers_at(s, 5, "style"@);
    lemma_omembers_at(s, 6, "lang"@);
    match f.content {
        Some(c) => {
            lemma_structured_content_round_trip(c);
        },
        None => {},
    }
    match f.data {
        Some(d) => {
            lemma_sc_data_round_trip(d);
        },
        None => {},
    }
    match f.col_span {
        Some(w) => {
            crate::num::lemma_int_lit_round_trip(w as int);
        },
        None => {},
    }
    match f.row_span {
        Some(w) => {
            crate::num::lemma_int_lit_round_trip(w as int);
        },
        None => {},
    }
    match f.style {
        Some(st) => {
            lemma_style_round_trip(st);
        },
        None => {},
    }
}

#[verifier::rlimit(60)]
proof fn lemma_styled_fields_round_trip(f: StyledContainerFieldsView, tag: Seq<char>)
    requires
        tag != "content"@,
        tag != "data"@,
        tag != "style"@,
        tag != "title"@,
        tag != "open"@,
        tag != "lang"@,
    ensures
        spec_decode_styled_fields(omembers(styled_mspec(tag, f))) == Some(f),
        sget_req_str(omembers(styled_mspec(tag, f)), "tag"@) == Some(tag),
    decreases f, 1int,
{
    reveal_strlit("tag");
    reveal_strlit("content");
    reveal_strlit("data");
    reveal_strlit("style");
    reveal_strlit("title");
    reveal_strlit("open");
    reveal_strlit("lang");

    assert(("tag"@).len() == 3);
    assert(("content"@).len() == 7);
    assert(("data"@).len() == 4);
    assert(("style"@).len() == 5);
    assert(("title"@).len() == 5);
    assert(("open"@).len() == 4);
    assert(("lang"@).len() == 4);
    assert(("data"@)[0] != ("open"@)[0]);
    assert(("data"@)[0] != ("lang"@)[0]);
    assert(("style"@)[0] != ("title"@)[0]);
    assert(("lang"@)[0] != ("open"@)[0]);
    let s = styled_mspec(tag, f);
    assert(s.len() == 7);
    assert(s[0].0 == "tag"@);
    assert(s[1].0 == "content"@);
    assert(s[2].0 == "data"@);
    assert(s[3].0 == "style"@);
    assert(s[4].0 == "title"@);
    assert(s[5].0 == "open"@);
    assert(s[6].0 == "lang"@);
    lemma_omembers_at(s, 0, "tag"@);
    lemma_omembers_at(s, 1, "content"@);
    lemma_omembers_at(s, 2, "data"@);
    lemma_omembers_at(s, 3, "style"@);
    lemma_omembers_at(s, 4, "title"@);
    lemma_omembers_at(s, 5, "open"@);
    lemma_omembers_at(s, 6, "lang"@);
    match f.content {
        Some(c) => {
            lemma_structured_content_round_trip(c);
        },
        None => {},
    }
    match f.data {
        Some(d) => {
            lemma_sc_data_round_trip(d);
        },
        None => {},
    }
    match f.style {
        Some(st) => {
            lemma_style_round_trip(st);
        },
        None => {},
    }
}

proof fn lemma_link_fields_round_trip(f: LinkFieldsView)
    ensures
        spec_decode_link_fields(omembers(link_mspec("a"@, f))) == Some(f),
        sget_req_str(omembers(link_mspec("a"@, f)), "tag"@) == Some("a"@),
    decreases f, 1int,
{
    reveal_strlit("tag");
    reveal_strlit("href");
    reveal_strlit("content");
    reveal_strlit("lang");
    reveal_strlit("a");

    assert(("tag"@).len() == 3);
    assert(("href"@).len() == 4);
    assert(("content"@).len() == 7);
    assert(("lang"@).len() == 4);
    assert(("href"@)[0] != ("lang"@)[0]);
    let s = link_mspec("a"@, f);
    assert(s.len() == 4);
    assert(s[0].0 == "tag"@);
    assert(s[1].0 == "href"@);
    assert(s[2].0 == "content"@);
    assert(s[3].0 == "lang"@);
    lemma_omembers_at(s, 0, "tag"@);
    lemma_omembers_at(s, 1, "href"@);
    lemma_omembers_at(s, 2, "content"@);
    lemma_omembers_at(s, 3, "lang"@);
    match f.content {
        Some(c) => {
            lemma_structured_content_round_trip(c);
        },
        None => {},
    }
}

#[verifier::rlimit(100)]
proof fn lemma_sc_object_round_trip(o: SCObjectView)
    ensures
        spec_encode_sc_object(o) is Obj,
        spec_decode_sc_object(spec_encode_sc_object(o)->Obj_0) == Some(o),
    decreases o, 2int,
{
    reveal_strlit("alt");
    reveal_strlit("appearance");
    reveal_strlit("background");
    reveal_strlit("border");
    reveal_strlit("borderRadius");
    reveal_strlit("colSpan");
    reveal_strlit("collapsed");
    reveal_strlit("collapsible");
    reveal_strlit("content");
    reveal_strlit("data");
    reveal_strlit("description");
    reveal_strlit("height");
    reveal_strlit("href");
    reveal_strlit("imageRendering");
    reveal_strlit("lang");
    reveal_strlit("open");
    reveal_strlit("path");
    reveal_strlit("pixelated");
    reveal_strlit("rowSpan");
    reveal_strlit("sizeUnits");
    reveal_strlit("style");
    reveal_strlit("tag");
    reveal_strlit("title");
    reveal_strlit("verticalAlign");
    reveal_strlit("width");
    reveal_strlit("br");
    reveal_strlit("ruby");
    reveal_strlit("rt");
    reveal_strlit("rp");
    reveal_strlit("table");
    reveal_strlit("thead");
    reveal_strlit("tbody");
    reveal_strlit("tfoot");
    reveal_strlit("tr");
    reveal_strlit("td");
    reveal_strlit("th");
    reveal_strlit("span");
    reveal_strlit("div");
    reveal_strlit("ol");
    reveal_strlit("ul");
    reveal_strlit("li");
    reveal_strlit("details");
    reveal_strlit("summary");
    reveal_strlit("img");
    reveal_strlit("a");

    assert(("br"@).len() == 2);
    assert(("ruby"@).len() == 4);
    assert(("rt"@).len() == 2);
    assert(("rp"@).len() == 2);
    assert(("table"@).len() == 5);
    assert(("thead"@).len() == 5);
    assert(("tbody"@).len() == 5);
    assert(("tfoot"@).len() == 5);
    assert(("tr"@).len() == 2);
    assert(("td"@).len() == 2);
    assert(("th"@).len() == 2);
    assert(("span"@).len() == 4);
    assert(("div"@).len() == 3);
    assert(("ol"@).len() == 2);
    assert(("ul"@).len() == 2);
    assert(("li"@).len() == 2);
    assert(("details"@).len() == 7);
    assert(("summary"@).len() == 7);
    assert(("img"@).len() == 3);
    assert(("a"@).len() == 1);
    assert(("tag"@).len() == 3);
    assert(("br"@)[0] != ("rt"@)[0]);
    assert(("br"@)[0] != ("rp"@)[0]);
    assert(("br"@)[0] != ("tr"@)[0]);
    assert(("br"@)[0] != ("td"@)[0]);
    assert(("br"@)[0] != ("th"@)[0]);
    assert(("br"@)[0] != ("ol"@)[0]);
    assert(("br"@)[0] != ("ul"@)[0]);
    assert(("br"@)[0] != ("li"@)[0]);
    assert(("ruby"@)[0] != ("span"@)[0]);
    assert(("rt"@)[0] != ("tr"@)[0]);
    assert(("rt"@)[0] != ("td"@)[0]);
    assert(("rt"@)[0] != ("th"@)[0]);
    assert(("rt"@)[0] != ("ul"@)[0]);
    assert(("rp"@)[1] != ("rt"@)[1]);
    assert(("rp"@)[0] != ("tr"@)[0]);
    assert(("rp"@)[0] != ("td"@)[0]);
    assert(("rp"@)[0] != ("th"@)[0]);
    assert(("rp"@)[0] != ("ul"@)[0]);
    assert(("table"@)[1] != ("thead"@)[1]);
    assert(("table"@)[1] != ("tbody"@)[1]);
    assert(("table"@)[1] != ("tfoot"@)[1]);
    assert(("tbody"@)[1] != ("thead"@)[1]);
    assert(("tbody"@)[1] != ("tfoot"@)[1]);
    assert(("tfoot"@)[1] != ("thead"@)[1]);
    assert(("tr"@)[0] != ("ul"@)[0]);
    assert(("td"@)[1] != ("tr"@)[1]);
    assert(("td"@)[1] != ("th"@)[1]);
    assert(("td"@)[0] != ("ul"@)[0]);
    assert(("th"@)[1] != ("tr"@)[1]);
    assert(("th"@)[0] != ("ul"@)[0]);
    assert(("div"@)[0] != ("img"@)[0]);
    assert(("div"@)[0] != ("tag"@)[0]);
    assert(("ol"@)[0] != ("rt"@)[0]);
    assert(("ol"@)[0] != ("rp"@)[0]);
    assert(("ol"@)[0] != ("tr"@)[0]);
    assert(("ol"@)[0] != ("td"@)[0]);
    assert(("ol"@)[0] != ("th"@)[0]);
    assert(("ol"@)[0] != ("ul"@)[0]);
    assert(("li"@)[0] != ("rt"@)[0]);
    assert(("li"@)[0] != ("rp"@)[0]);
    assert(("li"@)[0] != ("tr"@)[0]);
    assert(("li"@)[0] != ("td"@)[0]);
    assert(("li"@)[0] != ("th"@)[0]);
    assert(("li"@)[0] != ("ol"@)[0]);
    assert(("li"@)[0] != ("ul"@)[0]);
    assert(("details"@)[0] != ("summary"@)[0]);
    assert(("img"@)[0] != ("tag"@)[0]);
    match o {
        SCObjectView::Br(f) => {
            lemma_break_fields_round_trip(f, "br"@);
        },
        SCObjectView::Ruby(f) => {
            lemma_container_fields_round_trip(f, "ruby"@);
        },
        SCObjectView::Rt(f) => {
            lemma_container_fields_round_trip(f, "rt"@);
        },
        SCObjectView::Rp(f) => {
            lemma_container_fields_round_trip(f, "rp"@);
        },
        SCObjectView::Table(f) => {
            lemma_container_fields_round_trip(f, "table"@);
        },
        SCObjectView::Thead(f) => {
            lemma_container_fields_round_trip(f, "thead"@);
        },
        SCObjectView::Tbody(f) => {
            lemma_container_fields_round_trip(f, "tbody"@);
        },
        SCObjectView::Tfoot(f) => {
            lemma_container_fields_round_trip(f, "tfoot"@);
        },
        SCObjectView::Tr(f) => {
            lemma_container_fields_round_trip(f, "tr"@);
        },
        SCObjectView::Td(f) => {
            lemma_table_element_fields_round_trip(f, "td"@);
        },
        SCObjectView::Th(f) => {
            lemma_table_element_fields_round_trip(f, "th"@);
        },
        SCObjectView::Span(f) => {
            lemma_styled_fields_round_trip(f, "span"@);
        },
        SCObjectView::Div(f) => {
            lemma_styled_fields_round_trip(f, "div"@);
        },
        SCObjectView::Ol(f) => {
            lemma_styled_fields_round_trip(f, "ol"@);
        },
        SCObjectView::Ul(f) => {
            lemma_styled_fields_round_trip(f, "ul"@);
        },
        SCObjectView::Li(f) => {
            lemma_styled_fields_round_trip(f, "li"@);
        },
        SCObjectView::Details(f) => {
            lemma_styled_fields_round_trip(f, "details"@);
        },
        SCObjectView::Summary(f) => {
            lemma_styled_fields_round_trip(f, "summary"@);
        },
        SCObjectView::Img(f) => {
            lemma_image_fields_round_trip(f, "img"@);
        },
        SCObjectView::A(f) => {
            lemma_link_fields_round_trip(f);
        },
    }
}

proof fn lemma_detailed_round_trip(d: DetailedDefinitionView)
    ensures
        spec_encode_detailed(d) is Obj,
        spec_decode_detailed(spec_encode_detailed(d)->Obj_0) == Some(d),
{
    reveal_strlit("type");
    reveal_strlit("text");
    reveal_strlit("content");
    reveal_strlit("image");
    reveal_strlit("structured-content");

    assert(("type"@).len() == 4);
    assert(("text"@).len() == 4);
    assert(("content"@).len() == 7);
    assert(("image"@).len() == 5);
    assert(("structured-content"@).len() == 18);
    assert(("text"@)[1] != ("type"@)[1]);
    match d {
        DetailedDefinitionView::Text(t) => {
            let s = detailed_text_mspec(t);
            assert(s.len() == 2);
            assert(s[0].0 == "type"@);
            assert(s[1].0 == "text"@);
            lemma_omembers_at(s, 0, "type"@);
            lemma_omembers_at(s, 1, "text"@);
        },
        DetailedDefinitionView::Image(f) => {
            lemma_image_definition_round_trip(f);
        },
        DetailedDefinitionView::StructuredContent(sc) => {
            let s = detailed_sc_mspec(sc);
            assert(s.len() == 2);
            assert(s[0].0 == "type"@);
            assert(s[1].0 == "content"@);
            lemma_omembers_at(s, 0, "type"@);
            lemma_omembers_at(s, 1, "content"@);
            lemma_structured_content_round_trip(sc.content);
        },
    }
}

proof fn lemma_definition_round_trip(d: DefinitionView)
    ensures
        spec_decode_definition(spec_encode_definition(d)) == Some(d),
{
    match d {
        DefinitionView::Text(s) => {},
        DefinitionView::Detailed(b) => {
            lemma_detailed_round_trip(*b);
        },
        DefinitionView::Deinflection(di) => {
            let a = spec_encode_definition(d)->Arr_0;
            assert(a.len() == 2);
            assert(a[0] == JsonView::Str(di.uninflected));
            assert(a[1]->Arr_0.len() == di.inflection_rules.len());
            assert(forall|i: int|
                0 <= i < a[1]->Arr_0.len() ==> (#[trigger] a[1]->Arr_0[i]) == JsonView::Str(
                    di.inflection_rules[i],
                ));
            let r = spec_decode_definition(spec_encode_definition(d))->0->Deinflection_0;
            assert(r.inflection_rules =~= di.inflection_rules);
        },
    }
}

/// Reading back the row written for any term row yields that row.
pub proof fn lemma_term_row_round_trip(t: TermRowView)
    ensures
        spec_decode_term_row(spec_encode_term_row(t)) == Some(t),
{
    let a = spec_encode_term_row(t)->Arr_0;
    assert(a.len() == 8);
    crate::num::lemma_int_lit_round_trip(t.sequence as int);
    let defs = a[5]->Arr_0;
    assert forall|i: int| 0 <= i < defs.len() implies #[trigger] spec_decode_definition(defs[i])
        == Some(t.definitions[i]) by {
        assert(defs[i] == spec_encode_definition(t.definitions[i]));
        lemma_definition_round_trip(t.definitions[i]);
    }
    let r = spec_decode_term_row(spec_encode_term_row(t))->0;
    assert(r.definitions =~= t.definitions);
}





// --- Executable readers ---

pub fn decode_sc_data(j: &Json) -> (r: Option<StructuredContentData>)
    ensures
        r.deep_view() == spec_decode_sc_data(j.deep_view()),
{
    match j {
        Json::Obj(m) => {
            proof {
                crate::json::lemma_obj_view(*j);
                crate::json::lemma_members_view(*m);
            }
            let ghost mv = j.deep_view()->Obj_0;
            let mut out: Vec<(String, String)> = Vec::new();
            let mut i: usize = 0;
            while i < m.len()
                invariant
                    i <= m.len(),
                    j.deep_view() == JsonView::Obj(mv),
                    mv.len() == m@.len(),
                    forall|k: int|
                        0 <= k < m@.len() ==> mv[k] == (m@[k].0@, #[trigger] m@[k].1.deep_view()),
                    forall|k: int| 0 <= k < i ==> (#[trigger] mv[k].1) is Str,
                    out@.len() == i as int,
                    forall|k: int|
                        0 <= k < i ==> #[trigger] out@[k].deep_view() == (mv[k].0, mv[k].1->Str_0),
                decreases m.len() - i,
            {
                let v = match &m[i].1 {
                    Json::Str(t) => {
                        proof {
                            assert(m@[i as int].1.deep_view() == JsonView::Str(t@));
                            assert(mv[i as int].1 == JsonView::Str(t@));
                        }
                        t.clone()
                    },
                    _ => {
                        proof {
                            assert(!(m@[i as int].1.deep_view() is Str));
                            assert(!(mv[i as int].1 is Str));
                        }
                        return None;
                    },
                };
                let key = m[i].0.clone();
                out.push((key, v));
                proof {
                    assert(out@[i as int].0 == m@[i as int].0);
                    assert(out@[i as int].0@ == mv[i as int].0);
                    assert(out@[i as int].1@ == mv[i as int].1->Str_0);
                    assert(out@[i as int].deep_view() == (mv[i as int].0, mv[i as int].1->Str_0));
                }
                i += 1;
            }
            proof {
                assert(forall|k: int|
                    0 <= k < out@.len() ==> #[trigger] out.deep_view()[k] == out@[k].deep_view());
                assert(out.deep_view() =~= Seq::new(mv.len(), |k: int| (mv[k].0, mv[k].1->Str_0)));
            }
            Some(out)
        },
        _ => None,
    }
}

pub fn get_opt_data(o: &Vec<(String, Json)>, key: &str) -> (r: Option<
    Option<StructuredContentData>,
>)
    ensures
        match r {
            Some(d) => sget_opt_data(o.deep_view(), key@) == Some(d.deep_view()),
            None => sget_opt_data(o.deep_view(), key@) is None,
        },
{
    match crate::json::obj_find(o, key) {
        Some(i) => match decode_sc_data(&o[i].1) {
            Some(d) => Some(Some(d)),
            None => None,
        },
        None => Some(None),
    }
}

pub fn decode_tdl(j: &Json) -> (r: Option<TextDecorationLine>)
    ensures
        r.deep_view() == spec_decode_tdl(j.deep_view()),
{
    match j {
        Json::Str(t) => Some(TextDecorationLine::Single(t.clone())),
        Json::Arr(a) => {
            proof {
                crate::json::lemma_arr_view(*j);
            }
            let ghost av = j.deep_view()->Arr_0;
            let mut out: Vec<String> = Vec::new();
            let mut i: usize = 0;
            while i < a.len()
                invariant
                    i <= a.len(),
                    j.deep_view() == JsonView::Arr(av),
                    av.len() == a@.len(),
                    forall|k: int| 0 <= k < a@.len() ==> av[k] == #[trigger] a@[k].deep_view(),
                    forall|k: int| 0 <= k < i ==> (#[trigger] av[k]) is Str,
                    out@.len() == i as int,
                    forall|k: int| 0 <= k < i ==> #[trigger] out@[k]@ == av[k]->Str_0,
                decreases a.len() - i,
            {
                let v = match &a[i] {
                    Json::Str(t) => {
                        proof {
                            assert(a@[i as int].deep_view() == JsonView::Str(t@));
                            assert(av[i as int] == JsonView::Str(t@));
                        }
                        t.clone()
                    },
                    _ => {
                        proof {
                            assert(!(a@[i as int].deep_view() is Str));
                            assert(!(av[i as int] is Str));
                        }
                        return None;
                    },
                };
                out.push(v);
                proof {
                    assert(out@[i as int]@ == av[i as int]->Str_0);
                }
                i += 1;
            }
            proof {
                assert(forall|k: int|
                    0 <= k < out@.len() ==> #[trigger] out.deep_view()[k] == out@[k]@);
                assert(out.deep_view() =~= Seq::new(av.len(), |k: int| av[k]->Str_0));
            }
            Some(TextDecorationLine::Multiple(out))
        },
        _ => None,
    }
}

pub fn get_tdl(o: &Vec<(String, Json)>, key: &str) -> (r: Option<TextDecorationLine>)
    ensures
        match r {
            Some(t) => sget_tdl(o.deep_view(), key@) == Some(t.deep_view()),
            None => sget_tdl(o.deep_view(), key@) is None,
        },
{
    match crate::json::obj_find(o, key) {
        Some(i) => decode_tdl(&o[i].1),
        None => Some(TextDecorationLine::Single(String::from_str("none"))),
    }
}

pub fn get_nos(o: &Vec<(String, Json)>, key: &str) -> (r: Option<NumberOrString>)
    ensures
        match r {
            Some(n) => sget_nos(o.deep_view(), key@) == Some(n.deep_view()),
            None => sget_nos(o.deep_view(), key@) is None,
        },
{
    match crate::json::obj_find(o, key) {
        Some(i) => match &o[i].1 {
            Json::Num(t) => Some(NumberOrString::Number(t.clone())),
            Json::Str(t) => Some(NumberOrString::Str(t.clone())),
            _ => None,
        },
        None => Some(NumberOrString::Number(String::from_str("0.0"))),
    }
}

/// Reads a style block; `None` exactly when some member has the wrong
/// shape.
pub fn decode_style(j: &Json) -> (r: Option<StructuredContentStyle>)
    ensures
        r.deep_view() == spec_decode_style(j.deep_view()),
{
    match j {
        Json::Obj(o) => {
            proof {
                crate::json::lemma_obj_view(*j);
                crate::json::lemma_members_view(*o);
            }
            let font_style = match get_str_or(o, "fontStyle", "normal") {
                Some(v) => v,
                None => { return None },
            };
            let font_weight = match get_str_or(o, "fontWeight", "normal") {
                Some(v) => v,
                None => { return None },
            };
            let font_size = match get_str_or(o, "fontSize", "medium") {
                Some(v) => v,
                None => { return None },
            };
            let color = match get_opt_str(o, "color") {
                Some(v) => v,
                None => { return None },
            };
            let background = match get_opt_str(o, "background") {
                Some(v) => v,
                None => { return None },
            };
            let background_color = match get_opt_str(o, "backgroundColor") {
                Some(v) => v,
                None => { return None },
            };
            let text_decoration_line = match get_tdl(o, "textDecorationLine") {
                Some(v) => v,
                None => { return None },
            };
            let text_decoration_style = match get_str_or(o, "textDecorationStyle", "solid") {
                Some(v) => v,
                None => { return None },
            };
            let text_decoration_color = match get_opt_str(o, "textDecorationColor") {
                Some(v) => v,
                None => { return None },
            };
            let border_color = match get_opt_str(o, "borderColor") {
                Some(v) => v,
                None => { return None },
            };
            let border_style = match get_opt_str(o, "borderStyle") {
                Some(v) => v,
                None => { return None },
            };
            let border_radius = match get_opt_str(o, "borderRadius") {
                Some(v) => v,
                None => { return None },
            };
            let border_width = match get_opt_str(o, "borderWidth") {
                Some(v) => v,
                None => { return None },
            };
            let clip_path = match get_opt_str(o, "clipPath") {
                Some(v) => v,
                None => { return None },
            };
            let vertical_align = match get_str_or(o, "verticalAlign", "baseline") {
                Some(v) => v,
                None => { return None },
            };
            let text_align = match get_str_or(o, "textAlign", "start") {
                Some(v) => v,
                None => { return None },
            };
            let text_emphasis = match get_opt_str(o, "textEmphasis") {
                Some(v) => v,
                None => { return None },
            };
            let text_shadow = match get_opt_str(o, "textShadow") {
                Some(v) => v,
                None => { return None },
            };
            let margin = match get_opt_str(o, "margin") {
                Some(v) => v,
                None => { return None },
            };
            let margin_top = match get_nos(o, "marginTop") {
                Some(v) => v,
                None => { return None },
            };
            let margin_left = match get_nos(o, "marginLeft") {
                Some(v) => v,
                None => { return None },
            };
            let margin_right = match get_nos(o, "marginRight") {
                Some(v) => v,
                None => { return None },
            };
            let margin_bottom = match get_nos(o, "marginBottom") {
                Some(v) => v,
                None => { return None },
            };
            let padding = match get_opt_str(o, "padding") {
                Some(v) => v,
                None => { return None },
            };
            let padding_top = match get_opt_str(o, "paddingTop") {
                Some(v) => v,
                None => { return None },
            };
            let padding_left = match get_opt_str(o, "paddingLeft") {
                Some(v) => v,
                None => { return None },
            };
            let padding_right = match get_opt_str(o, "paddingRight") {
                Some(v) => v,
                None => { return None },
            };
            let padding_bottom = match get_opt_str(o, "paddingBottom") {
                Some(v) => v,
                None => { return None },
            };
            let word_break = match get_str_or(o, "wordBreak", "normal") {
                Some(v) => v,
                None => { return None },
            };
            let white_space = match get_str_or(o, "whiteSpace", "normal") {
                Some(v) => v,
                None => { return None },
            };
            let cursor = match get_str_or(o, "cursor", "auto") {
                Some(v) => v,
                None => { return None },
            };
            let list_style_type = match get_str_or(o, "listStyleType", "disc") {
                Some(v) => v,
                None => { return None },
            };
            Some(
                StructuredContentStyle {
                    font_style,
                    font_weight,
                    font_size,
                    color,
                    background,
                    background_color,
                    text_decoration_line,
                    text_decoration_style,
                    text_decoration_color,
                    border_color,
                    border_style,
                    border_radius,
                    border_width,
                    clip_path,
                    vertical_align,
                    text_align,
                    text_emphasis,
                    text_shadow,
                    margin,
                    margin_top,
                    margin_left,
                    margin_right,
                    margin_bottom,
                    padding,
                    padding_top,
                    padding_left,
                    padding_right,
                    padding_bottom,
                    word_break,
                    white_space,
                    cursor,
                    list_style_type,
                },
            )
        },
        _ => None,
    }
}

pub fn get_opt_style(o: &Vec<(String, Json)>, key: &str) -> (r: Option<
    Option<StructuredContentStyle>,
>)
    ensures
        match r {
            Some(st) => sget_opt_style(o.deep_view(), key@) == Some(st.deep_view()),
            None => sget_opt_style(o.deep_view(), key@) is None,
        },
{
    match crate::json::obj_find(o, key) {
        Some(i) => match decode_style(&o[i].1) {
            Some(st) => Some(Some(st)),
            None => None,
        },
        None => Some(None),
    }
}

pub fn decode_break_fields(o: &Vec<(String, Json)>) -> (r: Option<BreakFields>)
    ensures
        r.deep_view() == spec_decode_break_fields(o.deep_view()),
{
    let data = match get_opt_data(o, "data") {
        Some(v) => v,
        None => { return None },
    };
    Some(BreakFields { data })
}

pub fn decode_image_fields(o: &Vec<(String, Json)>) -> (r: Option<ImageFields>)
    ensures
        r.deep_view() == spec_decode_image_fields(o.deep_view()),
{
    let path = match get_req_str(o, "path") {
        Some(v) => v,
        None => { return None },
    };
    let data = match get_opt_data(o, "data") {
        Some(v) => v,
        None => { return None },
    };
    let width = match get_opt_num(o, "width") {
        Some(v) => v,
        None => { return None },
    };
    let height = match get_opt_num(o, "height") {
        Some(v) => v,
        None => { return None },
    };
    let title = match get_opt_str(o, "title") {
        Some(v) => v,
        None => { return None },
    };
    let alt = match get_opt_str(o, "alt") {
        Some(v) => v,
        None => { return None },
    };
    let description = match get_opt_str(o, "description") {
        Some(v) => v,
        None => { return None },
    };
    let pixelated = match get_bool_or(o, "pixelated", false) {
        Some(v) => v,
        None => { return None },
    };
    let image_rendering = match get_str_or(o, "imageRendering", "auto") {
        Some(v) => v,
        None => { return None },
    };
    let appearance = match get_str_or(o, "appearance", "auto") {
        Some(v) => v,
        None => { return None },
    };
    let background = match get_bool_or(o, "background", true) {
        Some(v) => v,
        None => { return None },
    };
    let collapsed = match get_bool_or(o, "collapsed", false) {
        Some(v) => v,
        None => { return None },
    };
    let collapsible = match get_bool_or(o, "collapsible", true) {
        Some(v) => v,
        None => { return None },
    };
    let vertical_align = match get_opt_str(o, "verticalAlign") {
        Some(v) => v,
        None => { return None },
    };
    let border = match get_opt_str(o, "border") {
        Some(v) => v,
        None => { return None },
    };
    let border_radius = match get_opt_str(o, "borderRadius") {
        Some(v) => v,
        None => { return None },
    };
    let size_units = match get_opt_str(o, "sizeUnits") {
        Some(v) => v,
        None => { return None },
    };
    Some(
        ImageFields {
            path,
            data,
            width,
            height,
            title,
            alt,
            description,
            pixelated,
            image_rendering,
            appearance,
            background,
            collapsed,
            collapsible,
            vertical_align,
            border,
            border_radius,
            size_units,
        },
    )
}

pub fn decode_image_definition(o: &Vec<(String, Json)>) -> (r: Option<ImageDefinition>)
    ensures
        r.deep_view() == spec_decode_image_definition(o.deep_view()),
{
    let path = match get_req_str(o, "path") {
        Some(v) => v,
        None => { return None },
    };
    let width = match get_opt_int(o, "width", -2147483648, 2147483647) {
        Some(Some(v)) => Some(v as i32),
        Some(None) => None,
        None => { return None },
    };
    let height = match get_opt_int(o, "height", -2147483648, 2147483647) {
        Some(Some(v)) => Some(v as i32),
        Some(None) => None,
        None => { return None },
    };
    let title = match get_opt_str(o, "title") {
        Some(v) => v,
        None => { return None },
    };
    let alt = match get_opt_str(o, "alt") {
        Some(v) => v,
        None => { return None },
    };
    let description = match get_opt_str(o, "description") {
        Some(v) => v,
        None => { return None },
    };
    let pixelated = match get_bool_or(o, "pixelated", false) {
        Some(v) => v,
        None => { return None },
    };
    let image_rendering = match get_str_or(o, "imageRendering", "auto") {
        Some(v) => v,
        None => { return None },
    };
    let appearance = match get_str_or(o, "appearance", "auto") {
        Some(v) => v,
        None => { return None },
    };
    let background = match get_bool_or(o, "background", true) {
        Some(v) => v,
        None => { return None },
    };
    let collapsed = match get_bool_or(o, "collapsed", false) {
        Some(v) => v,
        None => { return None },
    };
    let collapsible = match get_bool_or(o, "collapsible", true) {
        Some(v) => v,
        None => { return None },
    };
    Some(
        ImageDefinition {
            path,
            width,
            height,
            title,
            alt,
            description,
            pixelated,
            image_rendering,
            appearance,
            background,
            collapsed,
            collapsible,
        },
    )
}


/// A single failing element fails the whole list.
proof fn lemma_sc_list_elem_none(a: Seq<JsonView>, i: int)
    requires
        0 <= i < a.len(),
        spec_decode_sc(a[i]) is None,
    ensures
        spec_decode_sc_list(a) is None,
    decreases a.len(),
{
    if i == a.len() - 1 {
        assert(a.last() == a[i]);
    } else {
        assert(a.drop_last()[i] == a[i]);
        lemma_sc_list_elem_none(a.drop_last(), i);
    }
}

/// Reads a content tree; `None` exactly when the document is not the
/// shape `spec_decode_sc` describes.
pub fn decode_sc(j: &Json) -> (r: Option<StructuredContent>)
    ensures
        r.deep_view() == spec_decode_sc(j.deep_view()),
    decreases j, 3int,
{
    match j {
        Json::Str(t) => Some(StructuredContent::Text(t.clone())),
        Json::Arr(a) => {
            proof {
                crate::json::lemma_arr_view(*j);
            }
            let ghost av = j.deep_view()->Arr_0;
            let mut out: Vec<StructuredContent> = Vec::new();
            let mut i: usize = 0;
            while i < a.len()
                invariant
                    i <= a.len(),
                    j.deep_view() == JsonView::Arr(av),
                    *j is Arr,
                    a == j->Arr_0,
                    av.len() == a@.len(),
                    forall|k: int| 0 <= k < a@.len() ==> av[k] == #[trigger] a@[k].deep_view(),
                    out@.len() == i as int,
                    spec_decode_sc_list(av.take(i as int)) == Some(out.deep_view()),
                decreases a.len() - i,
            {
                let ghost prev = out;
                match decode_sc(&a[i]) {
                    Some(c) => {
                        proof {
                            assert(spec_decode_sc(av[i as int]) == Some(c.deep_view()));
                        }
                        out.push(c);
                        proof {
                            crate::json::lemma_vec_dv_push(prev, out, out@[i as int]);
                            assert(av.take(i + 1).drop_last() =~= av.take(i as int));
                            assert(av.take(i + 1).last() == av[i as int]);
                        }
                    },
                    None => {
                        proof {
                            assert(spec_decode_sc(av[i as int]) is None);
                            lemma_sc_list_elem_none(av, i as int);
                        }
                        return None;
                    },
                }
                i += 1;
            }
            proof {
                assert(av.take(a@.len() as int) =~= av);
                crate::schemas::dictionary_term_bank_v3::lemma_sc_array_view(out);
            }
            Some(StructuredContent::Array(out))
        },
        Json::Obj(o) => {
            proof {
                crate::json::lemma_obj_view(*j);
            }
            match decode_sc_object(o) {
                Some(x) => Some(StructuredContent::Object(Box::new(x))),
                None => None,
            }
        },
        _ => None,
    }
}

/// Reads one tagged element, dispatching on its `tag` member.
pub fn decode_sc_object(o: &Vec<(String, Json)>) -> (r: Option<StructuredContentObject>)
    ensures
        r.deep_view() == spec_decode_sc_object(o.deep_view()),
    decreases o, 2int,
{
    let tag = match get_req_str(o, "tag") {
        Some(t) => t,
        None => { return None },
    };
    if crate::ext::str_eq(tag.as_str(), "br") {
        match decode_break_fields(o) {
            Some(f) => Some(StructuredContentObject::Br(f)),
            None => None,
        }
    } else if crate::ext::str_eq(tag.as_str(), "ruby") {
        match decode_container_fields(o) {
            Some(f) => Some(StructuredContentObject::Ruby(f)),
            None => None,
        }
    } else if crate::ext::str_eq(tag.as_str(), "rt") {
        match decode_container_fields(o) {
            Some(f) => Some(StructuredContentObject::Rt(f)),
            None => None,
        }
    } else if crate::ext::str_eq(tag.as_str(), "rp") {
        match decode_container_fields(o) {
            Some(f) => Some(StructuredContentObject::Rp(f)),
            None => None,
        }
    } else if crate::ext::str_eq(tag.as_str(), "table") {
        match decode_container_fields(o) {
            Some(f) => Some(StructuredContentObject::Table(f)),
            None => None,
        }
    } else if crate::ext::str_eq(tag.as_str(), "thead") {
        match decode_container_fields(o) {
            Some(f) => Some(StructuredContentObject::Thead(f)),
            None => None,
        }
    } else if crate::ext::str_eq(tag.as_str(), "tbody") {
        match decode_container_fields(o) {
            Some(f) => Some(StructuredContentObject::Tbody(f)),
            None => None,
        }
    } else if crate::ext::str_eq(tag.as_str(), "tfoot") {
        match decode_container_fields(o) {
            Some(f) => Some(StructuredContentObject::Tfoot(f)),
            None => None,
        }
    } else if crate::ext::str_eq(tag.as_str(), "tr") {
        match decode_container_fields(o) {
            Some(f) => Some(StructuredContentObject::Tr(f)),
            None => None,
        }
    } else if crate::ext::str_eq(tag.as_str(), "td") {
        match decode_table_element_fields(o) {
            Some(f) => Some(StructuredContentObject::Td(f)),
            None => None,
        }
    } else if crate::ext::str_eq(tag.as_str(), "th") {
        match decode_table_element_fields(o) {
            Some(f) => Some(StructuredContentObject::Th(f)),
            None => None,
        }
    } else if crate::ext::str_eq(tag.as_str(), "span") {
        match decode_styled_fields(o) {
            Some(f) => Some(StructuredContentObject::Span(f)),
            None => None,
        }
    } else if crate::ext::str_eq(tag.as_str(), "div") {
        match decode_styled_fields(o) {
            Some(f) => Some(StructuredContentObject::Div(f)),
            None => None,
        }
    } else if crate::ext::str_eq(tag.as_str(), "ol") {
        match decode_styled_fields(o) {
            Some(f) => Some(StructuredContentObject::Ol(f)),
            None => None,
        }
    } else if crate::ext::str_eq(tag.as_str(), "ul") {
        match decode_styled_fields(o) {
            Some(f) => Some(StructuredContentObject::Ul(f)),
            None => None,
        }
    } else if crate::ext::str_eq(tag.as_str(), "li") {
        match decode_styled_fields(o) {
            Some(f) => Some(StructuredContentObject::Li(f)),
            None => None,
        }
    } else if crate::ext::str_eq(tag.as_str(), "details") {
        match decode_styled_fields(o) {
            Some(f) => Some(StructuredContentObject::Details(f)),
            None => None,
        }
    } else if crate::ext::str_eq(tag.as_str(), "summary") {
        match decode_styled_fields(o) {
            Some(f) => Some(StructuredContentObject::Summary(f)),
            None => None,
        }
    } else if crate::ext::str_eq(tag.as_str(), "img") {
        match decode_image_fields(o) {
            Some(f) => Some(StructuredContentObject::Img(f)),
            None => None,
        }
    } else if crate::ext::str_eq(tag.as_str(), "a") {
        match decode_link_fields(o) {
            Some(f) => Some(StructuredContentObject::A(f)),
            None => None,
        }
    } else {
        None
    }
}

/// Reads the optional nested content of an element.
pub fn get_opt_content(o: &Vec<(String, Json)>) -> (r: Option<Option<StructuredContent>>)
    ensures
        match r {
            Some(c) => sget_opt_content(o.deep_view()) == Some(c.deep_view()),
            None => sget_opt_content(o.deep_view()) is None,
        },
    decreases o, 0int,
{
    match crate::json::obj_find(o, "content") {
        Some(i) => {
            match decode_sc(&o[i].1) {
                Some(c) => Some(Some(c)),
                None => None,
            }
        },
        None => Some(None),
    }
}

pub fn decode_container_fields(o: &Vec<(String, Json)>) -> (r: Option<ContainerFields>)
    ensures
        r.deep_view() == spec_decode_container_fields(o.deep_view()),
    decreases o, 1int,
{
    let content = match get_opt_content(o) {
        Some(v) => v,
        None => { return None },
    };
    let data = match get_opt_data(o, "data") {
        Some(v) => v,
        None => { return None },
    };
    let lang = match get_opt_str(o, "lang") {
        Some(v) => v,
        None => { return None },
    };
    Some(ContainerFields { content, data, lang })
}

pub fn decode_table_element_fields(o: &Vec<(String, Json)>) -> (r: Option<TableElementFields>)
    ensures
        r.deep_view() == spec_decode_table_element_fields(o.deep_view()),
    decreases o, 1int,
{
    let content = match get_opt_content(o) {
        Some(v) => v,
        None => { return None },
    };
    let data = match get_opt_data(o, "data") {
        Some(v) => v,
        None => { return None },
    };
    let col_span = match get_opt_int(o, "colSpan", -2147483648, 2147483647) {
        Some(Some(v)) => Some(v as i32),
        Some(None) => None,
        None => { return None },
    };
    let row_span = match get_opt_int(o, "rowSpan", -2147483648, 2147483647) {
        Some(Some(v)) => Some(v as i32),
        Some(None) => None,
        None => { return None },
    };
    let style = match get_opt_style(o, "style") {
        Some(v) => v,
        None => { return None },
    };
    let lang = match get_opt_str(o, "lang") {
        Some(v) => v,
        None => { return None },
    };
    Some(TableElementFields { content, data, col_span, row_span, style, lang })
}

pub fn decode_styled_fields(o: &Vec<(String, Json)>) -> (r: Option<StyledContainerFields>)
    ensures
        r.deep_view() == spec_decode_styled_fields(o.deep_view()),
    decreases o, 1int,
{
    let content = match get_opt_content(o) {
        Some(v) => v,
        None => { return None },
    };
    let data = match get_opt_data(o, "data") {
        Some(v) => v,
        None => { return None },
    };
    let style = match get_opt_style(o, "style") {
        Some(v) => v,
        None => { return None },
    };
    let title = match get_opt_str(o, "title") {
        Some(v) => v,
        None => { return None },
    };
    let open = match get_opt_bool(o, "open") {
        Some(v) => v,
        None => { return None },
    };
    let lang = match get_opt_str(o, "lang") {
        Some(v) => v,
        None => { return None },
    };
    Some(StyledContainerFields { content, data, style, title, open, lang })
}

pub fn decode_link_fields(o: &Vec<(String, Json)>) -> (r: Option<LinkFields>)
    ensures
        r.deep_view() == spec_decode_link_fields(o.deep_view()),
    decreases o, 1int,
{
    let href = match get_req_str(o, "href") {
        Some(v) => v,
        None => { return None },
    };
    let content = match get_opt_content(o) {
        Some(v) => v,
        None => { return None },
    };
    let lang = match get_opt_str(o, "lang") {
        Some(v) => v,
        None => { return None },
    };
    Some(LinkFields { href, content, lang })
}

/// Reads a detailed definition, dispatching on its `type` member.
pub fn decode_detailed(o: &Vec<(String, Json)>) -> (r: Option<DetailedDefinition>)
    ensures
        r.deep_view() == spec_decode_detailed(o.deep_view()),
{
    let ty = match get_req_str(o, "type") {
        Some(t) => t,
        None => { return None },
    };
    if crate::ext::str_eq(ty.as_str(), "text") {
        match get_req_str(o, "text") {
            Some(t) => Some(DetailedDefinition::Text(TextDefinition { text: t })),
            None => None,
        }
    } else if crate::ext::str_eq(ty.as_str(), "image") {
        match decode_image_definition(o) {
            Some(f) => Some(DetailedDefinition::Image(f)),
            None => None,
        }
    } else if crate::ext::str_eq(ty.as_str(), "structured-content") {
        match crate::json::obj_find(o, "content") {
            Some(i) => match decode_sc(&o[i].1) {
                Some(c) => Some(
                    DetailedDefinition::StructuredContent(
                        StructuredContentDefinition { content: Box::new(c) },
                    ),
                ),
                None => None,
            },
            None => None,
        }
    } else {
        None
    }
}

/// Reads one definition: a string, a detailed definition object, or a
/// two-element deinflection array.
pub fn decode_definition(j: &Json) -> (r: Option<Definition>)
    ensures
        r.deep_view() == spec_decode_definition(j.deep_view()),
{
    match j {
        Json::Str(t) => Some(Definition::Text(t.clone())),
        Json::Obj(o) => {
            proof {
                crate::json::lemma_obj_view(*j);
            }
            match decode_detailed(o) {
                Some(d) => Some(Definition::Detailed(Box::new(d))),
                None => None,
            }
        },
        Json::Arr(a) => {
            proof {
                crate::json::lemma_arr_view(*j);
            }
            let ghost av = j.deep_view()->Arr_0;
            if a.len() != 2 {
                return None;
            }
            let uninflected = match &a[0] {
                Json::Str(t) => {
                    proof {
                        assert(a@[0].deep_view() == JsonView::Str(t@));
                    }
                    t.clone()
                },
                _ => {
                    proof {
                        assert(!(a@[0].deep_view() is Str));
                    }
                    return None;
                },
            };
            let rules_json = match &a[1] {
                Json::Arr(r) => {
                    proof {
                        assert(a@[1].deep_view() is Arr);
                        crate::json::lemma_arr_view(a@[1]);
                    }
                    r
                },
                _ => {
                    proof {
                        assert(!(a@[1].deep_view() is Arr));
                    }
                    return None;
                },
            };
            let ghost rv = av[1]->Arr_0;
            let mut rules: Vec<String> = Vec::new();
            let mut i: usize = 0;
            while i < rules_json.len()
                invariant
                    i <= rules_json.len(),
                    j.deep_view() == JsonView::Arr(av),
                    av.len() == 2,
                    av[1] is Arr,
                    rv == av[1]->Arr_0,
                    rv.len() == rules_json@.len(),
                    forall|k: int|
                        0 <= k < rules_json@.len() ==> rv[k]
                            == #[trigger] rules_json@[k].deep_view(),
                    forall|k: int| 0 <= k < i ==> (#[trigger] rv[k]) is Str,
                    rules@.len() == i as int,
                    forall|k: int| 0 <= k < i ==> #[trigger] rules@[k]@ == rv[k]->Str_0,
                decreases rules_json.len() - i,
            {
                match &rules_json[i] {
                    Json::Str(t) => {
                        proof {
                            assert(rules_json@[i as int].deep_view() == JsonView::Str(t@));
                        }
                        rules.push(t.clone());
                        proof {
                            assert(rules@[i as int]@ == rv[i as int]->Str_0);
                        }
                    },
                    _ => {
                        proof {
                            assert(!(rules_json@[i as int].deep_view() is Str));
                            assert(!(rv[i as int] is Str));
                        }
                        return None;
                    },
                }
                i += 1;
            }
            proof {
                assert(forall|k: int|
                    0 <= k < rules@.len() ==> #[trigger] rules.deep_view()[k] == rules@[k]@);
                assert(rules.deep_view() =~= Seq::new(rv.len(), |k: int| rv[k]->Str_0));
            }
            Some(Definition::Deinflection(Deinflection { uninflected, inflection_rules: rules }))
        },
        _ => None,
    }
}

/// Reads one term row: exactly eight cells with their fixed positional
/// types.
pub fn decode_term_row(j: &Json) -> (r: Option<DictionaryTermBankV3Row>)
    ensures
        r.deep_view() == spec_decode_term_row(j.deep_view()),
{
    match j {
        Json::Arr(a) => {
            proof {
                crate::json::lemma_arr_view(*j);
            }
            let ghost av = j.deep_view()->Arr_0;
            if a.len() != 8 {
                return None;
            }
            proof {
                assert(av[0] == a@[0].deep_view());
                assert(av[1] == a@[1].deep_view());
                assert(av[2] == a@[2].deep_view());
                assert(av[3] == a@[3].deep_view());
                assert(av[4] == a@[4].deep_view());
                assert(av[5] == a@[5].deep_view());
                assert(av[6] == a@[6].deep_view());
                assert(av[7] == a@[7].deep_view());
            }
            let expression = match &a[0] {
                Json::Str(t) => t.clone(),
                _ => { return None },
            };
            let reading = match &a[1] {
                Json::Str(t) => t.clone(),
                _ => { return None },
            };
            let definition_tags = match &a[2] {
                Json::Null => None,
                Json::Str(t) => Some(t.clone()),
                _ => { return None },
            };
            let rules = match &a[3] {
                Json::Str(t) => t.clone(),
                _ => { return None },
            };
            let score = match &a[4] {
                Json::Num(t) => t.clone(),
                _ => { return None },
            };
            let defs_json = match &a[5] {
                Json::Arr(d) => {
                    proof {
                        crate::json::lemma_arr_view(a@[5]);
                    }
                    d
                },
                _ => { return None },
            };
            let ghost dv = av[5]->Arr_0;
            let mut definitions: Vec<Definition> = Vec::new();
            let mut i: usize = 0;
            while i < defs_json.len()
                invariant
                    i <= defs_json.len(),
                    j.deep_view() == JsonView::Arr(av),
                    av.len() == 8,
                    av[5] is Arr,
                    dv == av[5]->Arr_0,
                    dv.len() == defs_json@.len(),
                    forall|k: int|
                        0 <= k < defs_json@.len() ==> dv[k]
                            == #[trigger] defs_json@[k].deep_view(),
                    forall|k: int|
                        0 <= k < i ==> #[trigger] spec_decode_definition(dv[k]) is Some,
                    definitions@.len() == i as int,
                    forall|k: int|
                        0 <= k < i ==> #[trigger] definitions@[k].deep_view()
                            == spec_decode_definition(dv[k])->0,
                decreases defs_json.len() - i,
            {
                match decode_definition(&defs_json[i]) {
                    Some(d) => {
                        proof {
                            assert(spec_decode_definition(dv[i as int]) == Some(d.deep_view()));
                        }
                        definitions.push(d);
                    },
                    None => {
                        proof {
                            assert(spec_decode_definition(dv[i as int]) is None);
                        }
                        return None;
                    },
                }
                i += 1;
            }
            let sequence: i32 = match &a[6] {
                Json::Num(t) => {
                    let cs = crate::text::chars_vec(t.as_str());
                    match crate::num::parse_int_lit(&cs, -2147483648, 2147483647) {
                        Some(v) => v as i32,
                        None => { return None },
                    }
                },
                _ => { return None },
            };
            let expression_tags = match &a[7] {
                Json::Str(t) => t.clone(),
                _ => { return None },
            };
            let row = DictionaryTermBankV3Row {
                expression,
                reading,
                definition_tags,
                rules,
                score,
                definitions,
                sequence,
                expression_tags,
            };
            proof {
                assert(forall|k: int|
                    0 <= k < row.definitions@.len() ==> #[trigger] row.definitions.deep_view()[k]
                        == row.definitions@[k].deep_view());
                assert(row.definitions.deep_view() =~= Seq::new(
                    dv.len(),
                    |k: int| spec_decode_definition(dv[k])->0,
                ));
            }
            Some(row)
        },
        _ => None,
    }
}

/// Reads a whole term-bank file, failing on the first malformed row.
pub fn decode_term_bank(j: &Json) -> (r: Option<Vec<DictionaryTermBankV3Row>>)
    ensures
        r.deep_view() == spec_decode_term_bank(j.deep_view()),
{
    match j {
        Json::Arr(a) => {
            proof {
                crate::json::lemma_arr_view(*j);
            }
            let ghost av = j.deep_view()->Arr_0;
            let mut out: Vec<DictionaryTermBankV3Row> = Vec::new();
            let mut i: usize = 0;
            while i < a.len()
                invariant
                    i <= a.len(),
                    j.deep_view() == JsonView::Arr(av),
                    av.len() == a@.len(),
                    forall|k: int| 0 <= k < a@.len() ==> av[k] == #[trigger] a@[k].deep_view(),
                    forall|k: int| 0 <= k < i ==> #[trigger] spec_decode_term_row(av[k]) is Some,
                    out@.len() == i as int,
                    forall|k: int|
                        0 <= k < i ==> #[trigger] out@[k].deep_view() == spec_decode_term_row(
                            av[k],
                        )->0,
                decreases a.len() - i,
            {
                match decode_term_row(&a[i]) {
                    Some(row) => {
                        proof {
                            assert(spec_decode_term_row(av[i as int]) == Some(row.deep_view()));
                        }
                        out.push(row);
                    },
                    None => {
                        proof {
                            assert(spec_decode_term_row(av[i as int]) is None);
                        }
                        return None;
                    },
                }
                i += 1;
            }
            proof {
                assert(forall|k: int|
                    0 <= k < out@.len() ==> #[trigger] out.deep_view()[k] == out@[k].deep_view());
                assert(out.deep_view() =~= Seq::new(av.len(), |k: int| spec_decode_term_row(av[k])->0));
            }
            Some(out)
        },
        _ => None,
    }
}


// --- Executable writers ---

/// Appends one member to an object under construction.
pub(crate) fn push_member(m: &mut Vec<(String, Json)>, key: &str, v: Json)
    ensures
        final(m).deep_view() == old(m).deep_view().push((key@, v.deep_view())),
        final(m)@.len() == old(m)@.len() + 1,
{
    let ghost prev = *m;
    let k = key.to_owned();
    m.push((k, v));
    proof {
        crate::json::lemma_vec_dv_push(prev, *m, m@[m@.len() - 1]);
        assert(m@[m@.len() - 1].deep_view() == (key@, v.deep_view()));
    }
}

/// Appends a string member when present.
pub(crate) fn push_opt_str_member(m: &mut Vec<(String, Json)>, key: &str, v: &Option<String>)
    ensures
        final(m).deep_view() == old(m).deep_view() + opt_member(key@, omap_str(v.deep_view())),
{
    match v {
        Some(t) => {
            push_member(m, key, Json::Str(t.clone()));
            proof {
                assert(final(m).deep_view() =~= old(m).deep_view() + opt_member(
                    key@,
                    omap_str(v.deep_view()),
                ));
            }
        },
        None => {
            proof {
                assert(final(m).deep_view() =~= old(m).deep_view() + opt_member(
                    key@,
                    omap_str(v.deep_view()),
                ));
            }
        },
    }
}

/// Appends a boolean member when present.
fn push_opt_bool_member(m: &mut Vec<(String, Json)>, key: &str, v: &Option<bool>)
    ensures
        final(m).deep_view() == old(m).deep_view() + opt_member(key@, omap_bool(v.deep_view())),
{
    match v {
        Some(b) => {
            push_member(m, key, Json::Bool(*b));
            proof {
                assert(final(m).deep_view() =~= old(m).deep_view() + opt_member(
                    key@,
                    omap_bool(v.deep_view()),
                ));
            }
        },
        None => {
            proof {
                assert(final(m).deep_view() =~= old(m).deep_view() + opt_member(
                    key@,
                    omap_bool(v.deep_view()),
                ));
            }
        },
    }
}

/// Appends a number-token member when present.
pub(crate) fn push_opt_num_member(m: &mut Vec<(String, Json)>, key: &str, v: &Option<String>)
    ensures
        final(m).deep_view() == old(m).deep_view() + opt_member(key@, omap_num(v.deep_view())),
{
    match v {
        Some(t) => {
            push_member(m, key, Json::Num(t.clone()));
            proof {
                assert(final(m).deep_view() =~= old(m).deep_view() + opt_member(
                    key@,
                    omap_num(v.deep_view()),
                ));
            }
        },
        None => {
            proof {
                assert(final(m).deep_view() =~= old(m).deep_view() + opt_member(
                    key@,
                    omap_num(v.deep_view()),
                ));
            }
        },
    }
}

/// Appends a whole-number member when present, as its integer token.
fn push_opt_int_member(m: &mut Vec<(String, Json)>, key: &str, v: &Option<i32>)
    ensures
        final(m).deep_view() == old(m).deep_view() + opt_member(key@, omap_int(*v)),
{
    match v {
        Some(w) => {
            push_member(m, key, Json::Num(crate::num::int_lit_of(*w as i64)));
            proof {
                assert(final(m).deep_view() =~= old(m).deep_view() + opt_member(
                    key@,
                    omap_int(*v),
                ));
            }
        },
        None => {
            proof {
                assert(final(m).deep_view() =~= old(m).deep_view() + opt_member(
                    key@,
                    omap_int(*v),
                ));
            }
        },
    }
}

/// Appends a data-attribute member when present.
fn push_opt_data_member(m: &mut Vec<(String, Json)>, key: &str, v: &Option<StructuredContentData>)
    ensures
        final(m).deep_view() == old(m).deep_view() + opt_member(key@, omap_data(v.deep_view())),
{
    match v {
        Some(d) => {
            push_member(m, key, encode_sc_data(d));
            proof {
                assert(final(m).deep_view() =~= old(m).deep_view() + opt_member(
                    key@,
                    omap_data(v.deep_view()),
                ));
            }
        },
        None => {
            proof {
                assert(final(m).deep_view() =~= old(m).deep_view() + opt_member(
                    key@,
                    omap_data(v.deep_view()),
                ));
            }
        },
    }
}

/// Appends a style member when present.
fn push_opt_style_member(
    m: &mut Vec<(String, Json)>,
    key: &str,
    v: &Option<StructuredContentStyle>,
)
    ensures
        final(m).deep_view() == old(m).deep_view() + opt_member(key@, omap_style(v.deep_view())),
{
    match v {
        Some(st) => {
            push_member(m, key, encode_style(st));
            proof {
                assert(final(m).deep_view() =~= old(m).deep_view() + opt_member(
                    key@,
                    omap_style(v.deep_view()),
                ));
            }
        },
        None => {
            proof {
                assert(final(m).deep_view() =~= old(m).deep_view() + opt_member(
                    key@,
                    omap_style(v.deep_view()),
                ));
            }
        },
    }
}

/// Appends a nested-content member when present.
fn push_opt_content_member(
    m: &mut Vec<(String, Json)>,
    key: &str,
    v: &Option<StructuredContent>,
)
    ensures
        final(m).deep_view() == old(m).deep_view() + opt_member(key@, omap_content(match v {
            Some(c) => Some(sc_view(*c)),
            None => None,
        })),
    decreases v, 0int,
{
    match v {
        Some(c) => {
            let j = encode_sc(c);
            push_member(m, key, j);
            proof {
                assert(final(m).deep_view() =~= old(m).deep_view() + opt_member(
                    key@,
                    omap_content(Some(sc_view(*c))),
                ));
            }
        },
        None => {
            proof {
                assert(final(m).deep_view() =~= old(m).deep_view() + opt_member(
                    key@,
                    omap_content(None::<SCView>),
                ));
            }
        },
    }
}

pub fn encode_tdl(t: &TextDecorationLine) -> (r: Json)
    ensures
        r.deep_view() == spec_encode_tdl(t.deep_view()),
{
    match t {
        TextDecorationLine::Single(s) => Json::Str(s.clone()),
        TextDecorationLine::Multiple(v) => {
            let ghost vv = v.deep_view();
            let mut arr: Vec<Json> = Vec::new();
            let mut i: usize = 0;
            while i < v.len()
                invariant
                    i <= v@.len(),
                    vv == v.deep_view(),
                    vv.len() == v@.len(),
                    forall|k: int| 0 <= k < v@.len() ==> vv[k] == #[trigger] v@[k]@,
                    arr@.len() == i as int,
                    forall|k: int|
                        0 <= k < i ==> #[trigger] arr@[k].deep_view() == JsonView::Str(vv[k]),
                decreases v@.len() - i,
            {
                arr.push(Json::Str(v[i].clone()));
                i += 1;
            }
            let r = Json::Arr(arr);
            proof {
                crate::json::lemma_arr_view(r);
                assert(r.deep_view()->Arr_0 =~= Seq::new(vv.len(), |k: int| JsonView::Str(vv[k])));
            }
            r
        },
    }
}

pub fn encode_nos(n: &NumberOrString) -> (r: Json)
    ensures
        r.deep_view() == spec_encode_nos(n.deep_view()),
{
    match n {
        NumberOrString::Number(s) => Json::Num(s.clone()),
        NumberOrString::Str(s) => Json::Str(s.clone()),
    }
}

pub fn encode_sc_data(d: &StructuredContentData) -> (r: Json)
    ensures
        r.deep_view() == spec_encode_sc_data(d.deep_view()),
{
    let ghost ddv = d.deep_view();
    proof {
        crate::json::lemma_members_view_pairs(*d);
    }
    let mut members: Vec<(String, Json)> = Vec::new();
    let mut i: usize = 0;
    while i < d.len()
        invariant
            i <= d@.len(),
            ddv == d.deep_view(),
            ddv.len() == d@.len(),
            forall|k: int| 0 <= k < d@.len() ==> ddv[k] == (#[trigger] d@[k].0@, d@[k].1@),
            members@.len() == i as int,
            forall|k: int|
                0 <= k < i ==> #[trigger] members@[k].deep_view() == (
                    ddv[k].0,
                    JsonView::Str(ddv[k].1),
                ),
        decreases d@.len() - i,
    {
        members.push((d[i].0.clone(), Json::Str(d[i].1.clone())));
        proof {
            assert(members@[i as int].deep_view() == (ddv[i as int].0, JsonView::Str(ddv[i as int].1)));
        }
        i += 1;
    }
    let r = Json::Obj(members);
    proof {
        crate::json::lemma_obj_view(r);
        crate::json::lemma_members_view(members);
        assert(r.deep_view()->Obj_0 =~= Seq::new(
            ddv.len(),
            |k: int| (ddv[k].0, JsonView::Str(ddv[k].1)),
        ));
    }
    r
}

/// Writes a style block.
#[verifier::rlimit(100)]
pub fn encode_style(x: &StructuredContentStyle) -> (r: Json)
    ensures
        r.deep_view() == spec_encode_style(x.deep_view()),
{
    let ghost fv = x.deep_view();
    let mut members: Vec<(String, Json)> = Vec::new();
    let ghost mut acc: OmSpec = Seq::empty();
    proof {
        assert(omembers(acc) =~= Seq::<(Seq<char>, JsonView)>::empty());
        assert(members.deep_view() =~= omembers(acc));
    }
    push_member(&mut members, "fontStyle", Json::Str(x.font_style.clone()));
    proof {
        let e = ("fontStyle"@, Some(JsonView::Str(fv.font_style)));
        let acc1 = acc.push(e);
        assert(acc1.drop_last() =~= acc);
        assert(acc1.last() == e);
        assert(omembers(acc1) == omembers(acc) + opt_member(e.0, e.1));
        assert(members.deep_view() =~= omembers(acc1));
        acc = acc1;
    }
    push_member(&mut members, "fontWeight", Json::Str(x.font_weight.clone()));
    proof {
        let e = ("fontWeight"@, Some(JsonView::Str(fv.font_weight)));
        let acc1 = acc.push(e);
        assert(acc1.drop_last() =~= acc);
        assert(acc1.last() == e);
        assert(omembers(acc1) == omembers(acc) + opt_member(e.0, e.1));
        assert(members.deep_view() =~= omembers(acc1));
        acc = acc1;
    }
    push_member(&mut members, "fontSize", Json::Str(x.font_size.clone()));
    proof {
        let e = ("fontSize"@, Some(JsonView::Str(fv.font_size)));
        let acc1 = acc.push(e);
        assert(acc1.drop_last() =~= acc);
        assert(acc1.last() == e);
        assert(omembers(acc1) == omembers(acc) + opt_member(e.0, e.1));
        assert(members.deep_view() =~= omembers(acc1));
        acc = acc1;
    }
    push_opt_str_member(&mut members, "color", &x.color);
    proof {
        let e = ("color"@, omap_str(fv.color));
        let acc1 = acc.push(e);
        assert(acc1.drop_last() =~= acc);
        assert(acc1.last() == e);
        assert(omembers(acc1) == omembers(acc) + opt_member(e.0, e.1));
        assert(members.deep_view() =~= omembers(acc1));
        acc = acc1;
    }
    push_opt_str_member(&mut members, "background", &x.background);
    proof {
        let e = ("background"@, omap_str(fv.background));
        let acc1 = acc.push(e);
        assert(acc1.drop_last() =~= acc);
        assert(acc1.last() == e);
        assert(omembers(acc1) == omembers(acc) + opt_member(e.0, e.1));
        assert(members.deep_view() =~= omembers(acc1));
        acc = acc1;
    }
    push_opt_str_member(&mut members, "backgroundColor", &x.background_color);
    proof {
        let e = ("backgroundColor"@, omap_str(fv.background_color));
        let acc1 = acc.push(e);
        assert(acc1.drop_last() =~= acc);
        assert(acc1.last() == e);
        assert(omembers(acc1) == omembers(acc) + opt_member(e.0, e.1));
        assert(members.deep_view() =~= omembers(acc1));
        acc = acc1;
    }
    push_member(&mut members, "textDecorationLine", encode_tdl(&x.text_decoration_line));
    proof {
        let e = ("textDecorationLine"@, Some(spec_encode_tdl(fv.text_decoration_line)));
        let acc1 = acc.push(e);
        assert(acc1.drop_last() =~= acc);
        assert(acc1.last() == e);
        assert(omembers(acc1) == omembers(acc) + opt_member(e.0, e.1));
        assert(members.deep_view() =~= omembers(acc1));
        acc = acc1;
    }
    push_member(&mut members, "textDecorationStyle", Json::Str(x.text_decoration_style.clone()));
    proof {
        let e = ("textDecorationStyle"@, Some(JsonView::Str(fv.text_decoration_style)));
        let acc1 = acc.push(e);
        assert(acc1.drop_last() =~= acc);
        assert(acc1.last() == e);
        assert(omembers(acc1) == omembers(acc) + opt_member(e.0, e.1));
        assert(members.deep_view() =~= omembers(acc1));
        acc = acc1;
    }
    push_opt_str_member(&mut members, "textDecorationColor", &x.text_decoration_color);
    proof {
        let e = ("textDecorationColor"@, omap_str(fv.text_decoration_color));
        let acc1 = acc.push(e);
        assert(acc1.drop_last() =~= acc);
        assert(acc1.last() == e);
        assert(omembers(acc1) == omembers(acc) + opt_member(e.0, e.1));
        assert(members.deep_view() =~= omembers(acc1));
        acc = acc1;
    }
    push_opt_str_member(&mut members, "borderColor", &x.border_color);
    proof {
        let e = ("borderColor"@, omap_str(fv.border_color));
        let acc1 = acc.push(e);
        assert(acc1.drop_last() =~= acc);
        assert(acc1.last() == e);
        assert(omembers(acc1) == omembers(acc) + opt_member(e.0, e.1));
        assert(members.deep_view() =~= omembers(acc1));
        acc = acc1;
    }
    push_opt_str_member(&mut members, "borderStyle", &x.border_style);
    proof {
        let e = ("borderStyle"@, omap_str(fv.border_style));
        let acc1 = acc.push(e);
        assert(acc1.drop_last() =~= acc);
        assert(acc1.last() == e);
        assert(omembers(acc1) == omembers(acc) + opt_member(e.0, e.1));
        assert(members.deep_view() =~= omembers(acc1));
        acc = acc1;
    }
    push_opt_str_member(&mut members, "borderRadius", &x.border_radius);
    proof {
        let e = ("borderRadius"@, omap_str(fv.border_radius));
        let acc1 = acc.push(e);
        assert(acc1.drop_last() =~= acc);
        assert(acc1.last() == e);
        assert(omembers(acc1) == omembers(acc) + opt_member(e.0, e.1));
        assert(members.deep_view() =~= omembers(acc1));
        acc = acc1;
    }
    push_opt_str_member(&mut members, "borderWidth", &x.border_width);
    proof {
        let e = ("borderWidth"@, omap_str(fv.border_width));
        let acc1 = acc.push(e);
        assert(acc1.drop_last() =~= acc);
        assert(acc1.last() == e);
        assert(omembers(acc1) == omembers(acc) + opt_member(e.0, e.1));
        assert(members.deep_view() =~= omembers(acc1));
        acc = acc1;
    }
    push_opt_str_member(&mut members, "clipPath", &x.clip_path);
    proof {
        let e = ("clipPath"@, omap_str(fv.clip_path));
        let acc1 = acc.push(e);
        assert(acc1.drop_last() =~= acc);
        assert(acc1.last() == e);
        assert(omembers(acc1) == omembers(acc) + opt_member(e.0, e.1));
        assert(members.deep_view() =~= omembers(acc1));
        acc = acc1;
    }
    push_member(&mut members, "verticalAlign", Json::Str(x.vertical_align.clone()));
    proof {
        let e = ("verticalAlign"@, Some(JsonView::Str(fv.vertical_align)));
        let acc1 = acc.push(e);
        assert(acc1.drop_last() =~= acc);
        assert(acc1.last() == e);
        assert(omembers(acc1) == omembers(acc) + opt_member(e.0, e.1));
        assert(members.deep_view() =~= omembers(acc1));
        acc = acc1;
    }
    push_member(&mut members, "textAlign", Json::Str(x.text_align.clone()));
    proof {
        let e = ("textAlign"@, Some(JsonView::Str(fv.text_align)));
        let acc1 = acc.push(e);
        assert(acc1.drop_last() =~= acc);
        assert(acc1.last() == e);
        assert(omembers(acc1) == omembers(acc) + opt_member(e.0, e.1));
        assert(members.deep_view() =~= omembers(acc1));
        acc = acc1;
    }
    push_opt_str_member(&mut members, "textEmphasis", &x.text_emphasis);
    proof {
        let e = ("textEmphasis"@, omap_str(fv.text_emphasis));
        let acc1 = acc.push(e);
        assert(acc1.drop_last() =~= acc);
        assert(acc1.last() == e);
        assert(omembers(acc1) == omembers(acc) + opt_member(e.0, e.1));
        assert(members.deep_view() =~= omembers(acc1));
        acc = acc1;
    }
    push_opt_str_member(&mut members, "textShadow", &x.text_shadow);
    proof {
        let e = ("textShadow"@, omap_str(fv.text_shadow));
        let acc1 = acc.push(e);
        assert(acc1.drop_last() =~= acc);
        assert(acc1.last() == e);
        assert(omembers(acc1) == omembers(acc) + opt_member(e.0, e.1));
        assert(members.deep_view() =~= omembers(acc1));
        acc = acc1;
    }
    push_opt_str_member(&mut members, "margin", &x.margin);
    proof {
        let e = ("margin"@, omap_str(fv.margin));
        let acc1 = acc.push(e);
        assert(acc1.drop_last() =~= acc);
        assert(acc1.last() == e);
        assert(omembers(acc1) == omembers(acc) + opt_member(e.0, e.1));
        assert(members.deep_view() =~= omembers(acc1));
        acc = acc1;
    }
    push_member(&mut members, "marginTop", encode_nos(&x.margin_top));
    proof {
        let e = ("marginTop"@, Some(spec_encode_nos(fv.margin_top)));
        let acc1 = acc.push(e);
        assert(acc1.drop_last() =~= acc);
        assert(acc1.last() == e);
        assert(omembers(acc1) == omembers(acc) + opt_member(e.0, e.1));
        assert(members.deep_view() =~= omembers(acc1));
        acc = acc1;
    }
    push_member(&mut members, "marginLeft", encode_nos(&x.margin_left));
    proof {
        let e = ("marginLeft"@, Some(spec_encode_nos(fv.margin_left)));
        let acc1 = acc.push(e);
        assert(acc1.drop_last() =~= acc);
        assert(acc1.last() == e);
        assert(omembers(acc1) == omembers(acc) + opt_member(e.0, e.1));
        assert(members.deep_view() =~= omembers(acc1));
        acc = acc1;
    }
    push_member(&mut members, "marginRight", encode_nos(&x.margin_right));
    proof {
        let e = ("marginRight"@, Some(spec_encode_nos(fv.margin_right)));
        let acc1 = acc.push(e);
        assert(acc1.drop_last() =~= acc);
        assert(acc1.last() == e);
        assert(omembers(acc1) == omembers(acc) + opt_member(e.0, e.1));
        assert(members.deep_view() =~= omembers(acc1));
        acc = acc1;
    }
    push_member(&mut members, "marginBottom", encode_nos(&x.margin_bottom));
    proof {
        let e = ("marginBottom"@, Some(spec_encode_nos(fv.margin_bottom)));
        let acc1 = acc.push(e);
        assert(acc1.drop_last() =~= acc);
        assert(acc1.last() == e);
        assert(omembers(acc1) == omembers(acc) + opt_member(e.0, e.1));
        assert(members.deep_view() =~= omembers(acc1));
        acc = acc1;
    }
    push_opt_str_member(&mut members, "padding", &x.padding);
    proof {
        let e = ("padding"@, omap_str(fv.padding));
        let acc1 = acc.push(e);
        assert(acc1.drop_last() =~= acc);
        assert(acc1.last() == e);
        assert(omembers(acc1) == omembers(acc) + opt_member(e.0, e.1));
        assert(members.deep_view() =~= omembers(acc1));
        acc = acc1;
    }
    push_opt_str_member(&mut members, "paddingTop", &x.padding_top);
    proof {
        let e = ("paddingTop"@, omap_str(fv.padding_top));
        let acc1 = acc.push(e);
        assert(acc1.drop_last() =~= acc);
        assert(acc1.last() == e);
        assert(omembers(acc1) == omembers(acc) + opt_member(e.0, e.1));
        assert(members.deep_view() =~= omembers(acc1));
        acc = acc1;
    }
    push_opt_str_member(&mut members, "paddingLeft", &x.padding_left);
    proof {
        let e = ("paddingLeft"@, omap_str(fv.padding_left));
        let acc1 = acc.push(e);
        assert(acc1.drop_last() =~= acc);
        assert(acc1.last() == e);
        assert(omembers(acc1) == omembers(acc) + opt_member(e.0, e.1));
        assert(members.deep_view() =~= omembers(acc1));
        acc = acc1;
    }
    push_opt_str_member(&mut members, "paddingRight", &x.padding_right);
    proof {
        let e = ("paddingRight"@, omap_str(fv.padding_right));
        let acc1 = acc.push(e);
        assert(acc1.drop_last() =~= acc);
        assert(acc1.last() == e);
        assert(omembers(acc1) == omembers(acc) + opt_member(e.0, e.1));
        assert(members.deep_view() =~= omembers(acc1));
        acc = acc1;
    }
    push_opt_str_member(&mut members, "paddingBottom", &x.padding_bottom);
    proof {
        let e = ("paddingBottom"@, omap_str(fv.padding_bottom));
        let acc1 = acc.push(e);
        assert(acc1.drop_last() =~= acc);
        assert(acc1.last() == e);
        assert(omembers(acc1) == omembers(acc) + opt_member(e.0, e.1));
        assert(members.deep_view() =~= omembers(acc1));
        acc = acc1;
    }
    push_member(&mut members, "wordBreak", Json::Str(x.word_break.clone()));
    proof {
        let e = ("wordBreak"@, Some(JsonView::Str(fv.word_break)));
        let acc1 = acc.push(e);
        assert(acc1.drop_last() =~= acc);
        assert(acc1.last() == e);
        assert(omembers(acc1) == omembers(acc) + opt_member(e.0, e.1));
        assert(members.deep_view() =~= omembers(acc1));
        acc = acc1;
    }
    push_member(&mut members, "whiteSpace", Json::Str(x.white_space.clone()));
    proof {
        let e = ("whiteSpace"@, Some(JsonView::Str(fv.white_space)));
        let acc1 = acc.push(e);
        assert(acc1.drop_last() =~= acc);
        assert(acc1.last() == e);
        assert(omembers(acc1) == omembers(acc) + opt_member(e.0, e.1));
        assert(members.deep_view() =~= omembers(acc1));
        acc = acc1;
    }
    push_member(&mut members, "cursor", Json::Str(x.cursor.clone()));
    proof {
        let e = ("cursor"@, Some(JsonView::Str(fv.cursor)));
        let acc1 = acc.push(e);
        assert(acc1.drop_last() =~= acc);
        assert(acc1.last() == e);
        assert(omembers(acc1) == omembers(acc) + opt_member(e.0, e.1));
        assert(members.deep_view() =~= omembers(acc1));
        acc = acc1;
    }
    push_member(&mut members, "listStyleType", Json::Str(x.list_style_type.clone()));
    proof {
        let e = ("listStyleType"@, Some(JsonView::Str(fv.list_style_type)));
        let acc1 = acc.push(e);
        assert(acc1.drop_last() =~= acc);
        assert(acc1.last() == e);
        assert(omembers(acc1) == omembers(acc) + opt_member(e.0, e.1));
        assert(members.deep_view() =~= omembers(acc1));
        acc = acc1;
    }
    let r = Json::Obj(members);
    proof {
        crate::json::lemma_obj_view(r);
        assert(acc == style_mspec(fv));
    }
    r
}

#[verifier::rlimit(100)]
fn encode_container_obj(tag: &str, x: &ContainerFields) -> (r: Json)
    ensures
        r.deep_view() == JsonView::Obj(omembers(container_mspec(tag@, x.deep_view()))),
    decreases x, 1int,
{
    let ghost fv = x.deep_view();
    let mut members: Vec<(String, Json)> = Vec::new();
    let ghost mut acc: OmSpec = Seq::empty();
    proof {
        assert(omembers(acc) =~= Seq::<(Seq<char>, JsonView)>::empty());
        assert(members.deep_view() =~= omembers(acc));
    }
    push_member(&mut members, "tag", Json::Str(tag.to_owned()));
    proof {
        let e = ("tag"@, Some(JsonView::Str(tag@)));
        let acc1 = acc.push(e);
        assert(acc1.drop_last() =~= acc);
        assert(acc1.last() == e);
        assert(omembers(acc1) == omembers(acc) + opt_member(e.0, e.1));
        assert(members.deep_view() =~= omembers(acc1));
        acc = acc1;
    }
    push_opt_content_member(&mut members, "content", &x.content);
    proof {
        let e = ("content"@, omap_content(fv.content));
        let acc1 = acc.push(e);
        assert(acc1.drop_last() =~= acc);
        assert(acc1.last() == e);
        assert(omembers(acc1) == omembers(acc) + opt_member(e.0, e.1));
        assert(members.deep_view() =~= omembers(acc1));
        acc = acc1;
    }
    push_opt_data_member(&mut members, "data", &x.data);
    proof {
        let e = ("data"@, omap_data(fv.data));
        let acc1 = acc.push(e);
        assert(acc1.drop_last() =~= acc);
        assert(acc1.last() == e);
        assert(omembers(acc1) == omembers(acc) + opt_member(e.0, e.1));
        assert(members.deep_view() =~= omembers(acc1));
        acc = acc1;
    }
    push_opt_str_member(&mut members, "lang", &x.lang);
    proof {
        let e = ("lang"@, omap_str(fv.lang));
        let acc1 = acc.push(e);
        assert(acc1.drop_last() =~= acc);
        assert(acc1.last() == e);
        assert(omembers(acc1) == omembers(acc) + opt_member(e.0, e.1));
        assert(members.deep_view() =~= omembers(acc1));
        acc = acc1;
    }
    let r = Json::Obj(members);
    proof {
        crate::json::lemma_obj_view(r);
        assert(acc == container_mspec(tag@, fv));
    }
    r
}

#[verifier::rlimit(100)]
fn encode_table_obj(tag: &str, x: &TableElementFields) -> (r: Json)
    ensures
        r.deep_view() == JsonView::Obj(omembers(table_element_mspec(tag@, x.deep_view()))),
    decreases x, 1int,
{
    let ghost fv = x.deep_view();
    let mut members: Vec<(String, Json)> = Vec::new();
    let ghost mut acc: OmSpec = Seq::empty();
    proof {
        assert(omembers(acc) =~= Seq::<(Seq<char>, JsonView)>::empty());
        assert(members.deep_view() =~= omembers(acc));
    }
    push_member(&mut members, "tag", Json::Str(tag.to_owned()));
    proof {
        let e = ("tag"@, Some(JsonView::Str(tag@)));
        let acc1 = acc.push(e);
        assert(acc1.drop_last() =~= acc);
        assert(acc1.last() == e);
        assert(omembers(acc1) == omembers(acc) + opt_member(e.0, e.1));
        assert(members.deep_view() =~= omembers(acc1));
        acc = acc1;
    }
    push_opt_content_member(&mut members, "content", &x.content);
    proof {
        let e = ("content"@, omap_content(fv.content));
        let acc1 = acc.push(e);
        assert(acc1.drop_last() =~= acc);
        assert(acc1.last() == e);
        assert(omembers(acc1) == omembers(acc) + opt_member(e.0, e.1));
        assert(members.deep_view() =~= omembers(acc1));
        acc = acc1;
    }
    push_opt_data_member(&mut members, "data", &x.data);
    proof {
        let e = ("data"@, omap_data(fv.data));
        let acc1 = acc.push(e);
        assert(acc1.drop_last() =~= acc);
        assert(acc1.last() == e);
        assert(omembers(acc1) == omembers(acc) + opt_member(e.0, e.1));
        assert(members.deep_view() =~= omembers(acc1));
        acc = acc1;
    }
    push_opt_int_member(&mut members, "colSpan", &x.col_span);
    proof {
        let e = ("colSpan"@, omap_int(fv.col_span));
        let acc1 = acc.push(e);
        assert(acc1.drop_last() =~= acc);
        assert(acc1.last() == e);
        assert(omembers(acc1) == omembers(acc) + opt_member(e.0, e.1));
        assert(members.deep_view() =~= omembers(acc1));
        acc = acc1;
    }
    push_opt_int_member(&mut members, "rowSpan", &x.row_span);
    proof {
        let e = ("rowSpan"@, omap_int(fv.row_span));
        let acc1 = acc.push(e);
        assert(acc1.drop_last() =~= acc);
        assert(acc1.last() == e);
        assert(omembers(acc1) == omembers(acc) + opt_member(e.0, e.1));
        assert(members.deep_view() =~= omembers(acc1));
        acc = acc1;
    }
    push_opt_style_member(&mut members, "style", &x.style);
    proof {
        let e = ("style"@, omap_style(fv.style));
        let acc1 = acc.push(e);
        assert(acc1.drop_last() =~= acc);
        assert(acc1.last() == e);
        assert(omembers(acc1) == omembers(acc) + opt_member(e.0, e.1));
        assert(members.deep_view() =~= omembers(acc1));
        acc = acc1;
    }
    push_opt_str_member(&mut members, "lang", &x.lang);
    proof {
        let e = ("lang"@, omap_str(fv.lang));
        let acc1 = acc.push(e);
        assert(acc1.drop_last() =~= acc);
        assert(acc1.last() == e);
        assert(omembers(acc1) == omembers(acc) + opt_member(e.0, e.1));
        assert(members.deep_view() =~= omembers(acc1));
        acc = acc1;
    }
    let r = Json::Obj(members);
    proof {
        crate::json::lemma_obj_view(r);
        assert(acc == table_element_mspec(tag@, fv));
    }
    r
}

#[verifier::rlimit(100)]
fn encode_styled_obj(tag: &str, x: &StyledContainerFields) -> (r: Json)
    ensures
        r.deep_view() == JsonView::Obj(omembers(styled_mspec(tag@, x.deep_view()))),
    decreases x, 1int,
{
    let ghost fv = x.deep_view();
    let mut members: Vec<(String, Json)> = Vec::new();
    let ghost mut acc: OmSpec = Seq::empty();
    proof {
        assert(omembers(acc) =~= Seq::<(Seq<char>, JsonView)>::empty());
        assert(members.deep_view() =~= omembers(acc));
    }
    push_member(&mut members, "tag", Json::Str(tag.to_owned()));
    proof {
        let e = ("tag"@, Some(JsonView::Str(tag@)));
        let acc1 = acc.push(e);
        assert(acc1.drop_last() =~= acc);
        assert(acc1.last() == e);
        assert(omembers(acc1) == omembers(acc) + opt_member(e.0, e.1));
        assert(members.deep_view() =~= omembers(acc1));
        acc = acc1;
    }
    push_opt_content_member(&mut members, "content", &x.content);
    proof {
        let e = ("content"@, omap_content(fv.content));
        let acc1 = acc.push(e);
        assert(acc1.drop_last() =~= acc);
        assert(acc1.last() == e);
        assert(omembers(acc1) == omembers(acc) + opt_member(e.0, e.1));
        assert(members.deep_view() =~= omembers(acc1));
        acc = acc1;
    }
    push_opt_data_member(&mut members, "data", &x.data);
    proof {
        let e = ("data"@, omap_data(fv.data));
        let acc1 = acc.push(e);
        assert(acc1.drop_last() =~= acc);
        assert(acc1.last() == e);
        assert(omembers(acc1) == omembers(acc) + opt_member(e.0, e.1));
        assert(members.deep_view() =~= omembers(acc1));
        acc = acc1;
    }
    push_opt_style_member(&mut members, "style", &x.style);
    proof {
        let e = ("style"@, omap_style(fv.style));
        let acc1 = acc.push(e);
        assert(acc1.drop_last() =~= acc);
        assert(acc1.last() == e);
        assert(omembers(acc1) == omembers(acc) + opt_member(e.0, e.1));
        assert(members.deep_view() =~= omembers(acc1));
        acc = acc1;
    }
    push_opt_str_member(&mut members, "title", &x.title);
    proof {
        let e = ("title"@, omap_str(fv.title));
        let acc1 = acc.push(e);
        assert(acc1.drop_last() =~= acc);
        assert(acc1.last() == e);
        assert(omembers(acc1) == omembers(acc) + opt_member(e.0, e.1));
        assert(members.deep_view() =~= omembers(acc1));
        acc = acc1;
    }
    push_opt_bool_member(&mut members, "open", &x.open);
    proof {
        let e = ("open"@, omap_bool(fv.open));
        let acc1 = acc.push(e);
        assert(acc1.drop_last() =~= acc);
        assert(acc1.last() == e);
        assert(omembers(acc1) == omembers(acc) + opt_member(e.0, e.1));
        assert(members.deep_view() =~= omembers(acc1));
        acc = acc1;
    }
    push_opt_str_member(&mut members, "lang", &x.lang);
    proof {
        let e = ("lang"@, omap_str(fv.lang));
        let acc1 = acc.push(e);
        assert(acc1.drop_last() =~= acc);
        assert(acc1.last() == e);
        assert(omembers(acc1) == omembers(acc) + opt_member(e.0, e.1));
        assert(members.deep_view() =~= omembers(acc1));
        acc = acc1;
    }
    let r = Json::Obj(members);
    proof {
        crate::json::lemma_obj_view(r);
        assert(acc == styled_mspec(tag@, fv));
    }
    r
}

#[verifier::rlimit(100)]
fn encode_break_obj(tag: &str, x: &BreakFields) -> (r: Json)
    ensures
        r.deep_view() == JsonView::Obj(omembers(break_mspec(tag@, x.deep_view()))),
    decreases x, 1int,
{
    let ghost fv = x.deep_view();
    let mut members: Vec<(String, Json)> = Vec::new();
    let ghost mut acc: OmSpec = Seq::empty();
    proof {
        assert(omembers(acc) =~= Seq::<(Seq<char>, JsonView)>::empty());
        assert(members.deep_view() =~= omembers(acc));
    }
    push_member(&mut members, "tag", Json::Str(tag.to_owned()));
    proof {
        let e = ("tag"@, Some(JsonView::Str(tag@)));
        let acc1 = acc.push(e);
        assert(acc1.drop_last() =~= acc);
        assert(acc1.last() == e);
        assert(omembers(acc1) == omembers(acc) + opt_member(e.0, e.1));
        assert(members.deep_view() =~= omembers(acc1));
        acc = acc1;
    }
    push_opt_data_member(&mut members, "data", &x.data);
    proof {
        let e = ("data"@, omap_data(fv.data));
        let acc1 = acc.push(e);
        assert(acc1.drop_last() =~= acc);
        assert(acc1.last() == e);
        assert(omembers(acc1) == omembers(acc) + opt_member(e.0, e.1));
        assert(members.deep_view() =~= omembers(acc1));
        acc = acc1;
    }
    let r = Json::Obj(members);
    proof {
        crate::json::lemma_obj_view(r);
        assert(acc == break_mspec(tag@, fv));
    }
    r
}

#[verifier::rlimit(100)]
fn encode_image_obj(tag: &str, x: &ImageFields) -> (r: Json)
    ensures
        r.deep_view() == JsonView::Obj(omembers(image_mspec(tag@, x.deep_view()))),
    decreases x, 1int,
{
    let ghost fv = x.deep_view();
    let mut members: Vec<(String, Json)> = Vec::new();
    let ghost mut acc: OmSpec = Seq::empty();
    proof {
        assert(omembers(acc) =~= Seq::<(Seq<char>, JsonView)>::empty());
        assert(members.deep_view() =~= omembers(acc));
    }
    push_member(&mut members, "tag", Json::Str(tag.to_owned()));
    proof {
        let e = ("tag"@, Some(JsonView::Str(tag@)));
        let acc1 = acc.push(e);
        assert(acc1.drop_last() =~= acc);
        assert(acc1.last() == e);
        assert(omembers(acc1) == omembers(acc) + opt_member(e.0, e.1));
        assert(members.deep_view() =~= omembers(acc1));
        acc = acc1;
    }
    push_member(&mut members, "path", Json::Str(x.path.clone()));
    proof {
        let e = ("path"@, Some(JsonView::Str(fv.path)));
        let acc1 = acc.push(e);
        assert(acc1.drop_last() =~= acc);
        assert(acc1.last() == e);
        assert(omembers(acc1) == omembers(acc) + opt_member(e.0, e.1));
        assert(members.deep_view() =~= omembers(acc1));
        acc = acc1;
    }
    push_opt_data_member(&mut members, "data", &x.data);
    proof {
        let e = ("data"@, omap_data(fv.data));
        let acc1 = acc.push(e);
        assert(acc1.drop_last() =~= acc);
        assert(acc1.last() == e);
        assert(omembers(acc1) == omembers(acc) + opt_member(e.0, e.1));
        assert(members.deep_view() =~= omembers(acc1));
        acc = acc1;
    }
    push_opt_num_member(&mut members, "width", &x.width);
    proof {
        let e = ("width"@, omap_num(fv.width));
        let acc1 = acc.push(e);
        assert(acc1.drop_last() =~= acc);
        assert(acc1.last() == e);
        assert(omembers(acc1) == omembers(acc) + opt_member(e.0, e.1));
        assert(members.deep_view() =~= omembers(acc1));
        acc = acc1;
    }
    push_opt_num_member(&mut members, "height", &x.height);
    proof {
        let e = ("height"@, omap_num(fv.height));
        let acc1 = acc.push(e);
        assert(acc1.drop_last() =~= acc);
        assert(acc1.last() == e);
        assert(omembers(acc1) == omembers(acc) + opt_member(e.0, e.1));
        assert(members.deep_view() =~= omembers(acc1));
        acc = acc1;
    }
    push_opt_str_member(&mut members, "title", &x.title);
    proof {
        let e = ("title"@, omap_str(fv.title));
        let acc1 = acc.push(e);
        assert(acc1.drop_last() =~= acc);
        assert(acc1.last() == e);
        assert(omembers(acc1) == omembers(acc) + opt_member(e.0, e.1));
        assert(members.deep_view() =~= omembers(acc1));
        acc = acc1;
    }
    push_opt_str_member(&mut members, "alt", &x.alt);
    proof {
        let e = ("alt"@, omap_str(fv.alt));
        let acc1 = acc.push(e);
        assert(acc1.drop_last() =~= acc);
        assert(acc1.last() == e);
        assert(omembers(acc1) == omembers(acc) + opt_member(e.0, e.1));
        assert(members.deep_view() =~= omembers(acc1));
        acc = acc1;
    }
    push_opt_str_member(&mut members, "description", &x.description);
    proof {
        let e = ("description"@, omap_str(fv.description));
        let acc1 = acc.push(e);
        assert(acc1.drop_last() =~= acc);
        assert(acc1.last() == e);
        assert(omembers(acc1) == omembers(acc) + opt_member(e.0, e.1));
        assert(members.deep_view() =~= omembers(acc1));
        acc = acc1;
    }
    push_member(&mut members, "pixelated", Json::Bool(x.pixelated));
    proof {
        let e = ("pixelated"@, Some(JsonView::Bool(fv.pixelated)));
        let acc1 = acc.push(e);
        assert(acc1.drop_last() =~= acc);
        assert(acc1.last() == e);
        assert(omembers(acc1) == omembers(acc) + opt_member(e.0, e.1));
        assert(members.deep_view() =~= omembers(acc1));
        acc = acc1;
    }
    push_member(&mut members, "imageRendering", Json::Str(x.image_rendering.clone()));
    proof {
        let e = ("imageRendering"@, Some(JsonView::Str(fv.image_rendering)));
        let acc1 = acc.push(e);
        assert(acc1.drop_last() =~= acc);
        assert(acc1.last() == e);
        assert(omembers(acc1) == omembers(acc) + opt_member(e.0, e.1));
        assert(members.deep_view() =~= omembers(acc1));
        acc = acc1;
    }
    push_member(&mut members, "appearance", Json::Str(x.appearance.clone()));
    proof {
        let e = ("appearance"@, Some(JsonView::Str(fv.appearance)));
        let acc1 = acc.push(e);
        assert(acc1.drop_last() =~= acc);
        assert(acc1.last() == e);
        assert(omembers(acc1) == omembers(acc) + opt_member(e.0, e.1));
        assert(members.deep_view() =~= omembers(acc1));
        acc = acc1;
    }
    push_member(&mut members, "background", Json::Bool(x.background));
    proof {
        let e = ("background"@, Some(JsonView::Bool(fv.background)));
        let acc1 = acc.push(e);
        assert(acc1.drop_last() =~= acc);
        assert(acc1.last() == e);
        assert(omembers(acc1) == omembers(acc) + opt_member(e.0, e.1));
        assert(members.deep_view() =~= omembers(acc1));
        acc = acc1;
    }
    push_member(&mut members, "collapsed", Json::Bool(x.collapsed));
    proof {
        let e = ("collapsed"@, Some(JsonView::Bool(fv.collapsed)));
        let acc1 = acc.push(e);
        assert(acc1.drop_last() =~= acc);
        assert(acc1.last() == e);
        assert(omembers(acc1) == omembers(acc) + opt_member(e.0, e.1));
        assert(members.deep_view() =~= omembers(acc1));
        acc = acc1;
    }
    push_member(&mut members, "collapsible", Json::Bool(x.collapsible));
    proof {
        let e = ("collapsible"@, Some(JsonView::Bool(fv.collapsible)));
        let acc1 = acc.push(e);
        assert(acc1.drop_last() =~= acc);
        assert(acc1.last() == e);
        assert(omembers(acc1) == omembers(acc) + opt_member(e.0, e.1));
        assert(members.deep_view() =~= omembers(acc1));
        acc = acc1;
    }
    push_opt_str_member(&mut members, "verticalAlign", &x.vertical_align);
    proof {
        let e = ("verticalAlign"@, omap_str(fv.vertical_align));
        let acc1 = acc.push(e);
        assert(acc1.drop_last() =~= acc);
        assert(acc1.last() == e);
        assert(omembers(acc1) == omembers(acc) + opt_member(e.0, e.1));
        assert(members.deep_view() =~= omembers(acc1));
        acc = acc1;
    }
    push_opt_str_member(&mut members, "border", &x.border);
    proof {
        let e = ("border"@, omap_str(fv.border));
        let acc1 = acc.push(e);
        assert(acc1.drop_last() =~= acc);
        assert(acc1.last() == e);
        assert(omembers(acc1) == omembers(acc) + opt_member(e.0, e.1));
        assert(members.deep_view() =~= omembers(acc1));
        acc = acc1;
    }
    push_opt_str_member(&mut members, "borderRadius", &x.border_radius);
    proof {
        let e = ("borderRadius"@, omap_str(fv.border_radius));
        let acc1 = acc.push(e);
        assert(acc1.drop_last() =~= acc);
        assert(acc1.last() == e);
        assert(omembers(acc1) == omembers(acc) + opt_member(e.0, e.1));
        assert(members.deep_view() =~= omembers(acc1));
        acc = acc1;
    }
    push_opt_str_member(&mut members, "sizeUnits", &x.size_units);
    proof {
        let e = ("sizeUnits"@, omap_str(fv.size_units));
        let acc1 = acc.push(e);
        assert(acc1.drop_last() =~= acc);
        assert(acc1.last() == e);
        assert(omembers(acc1) == omembers(acc) + opt_member(e.0, e.1));
        assert(members.deep_view() =~= omembers(acc1));
        acc = acc1;
    }
    let r = Json::Obj(members);
    proof {
        crate::json::lemma_obj_view(r);
        assert(acc == image_mspec(tag@, fv));
    }
    r
}

#[verifier::rlimit(100)]
fn encode_link_obj(tag: &str, x: &LinkFields) -> (r: Json)
    ensures
        r.deep_view() == JsonView::Obj(omembers(link_mspec(tag@, x.deep_view()))),
    decreases x, 1int,
{
    let ghost fv = x.deep_view();
    let mut members: Vec<(String, Json)> = Vec::new();
    let ghost mut acc: OmSpec = Seq::empty();
    proof {
        assert(omembers(acc) =~= Seq::<(Seq<char>, JsonView)>::empty());
        assert(members.deep_view() =~= omembers(acc));
    }
    push_member(&mut members, "tag", Json::Str(tag.to_owned()));
    proof {
        let e = ("tag"@, Some(JsonView::Str(tag@)));
        let acc1 = acc.push(e);
        assert(acc1.drop_last() =~= acc);
        assert(acc1.last() == e);
        assert(omembers(acc1) == omembers(acc) + opt_member(e.0, e.1));
        assert(members.deep_view() =~= omembers(acc1));
        acc = acc1;
    }
    push_member(&mut members, "href", Json::Str(x.href.clone()));
    proof {
        let e = ("href"@, Some(JsonView::Str(fv.href)));
        let acc1 = acc.push(e);
        assert(acc1.drop_last() =~= acc);
        assert(acc1.last() == e);
        assert(omembers(acc1) == omembers(acc) + opt_member(e.0, e.1));
        assert(members.deep_view() =~= omembers(acc1));
        acc = acc1;
    }
    push_opt_content_member(&mut members, "content", &x.content);
    proof {
        let e = ("content"@, omap_content(fv.content));
        let acc1 = acc.push(e);
        assert(acc1.drop_last() =~= acc);
        assert(acc1.last() == e);
        assert(omembers(acc1) == omembers(acc) + opt_member(e.0, e.1));
        assert(members.deep_view() =~= omembers(acc1));
        acc = acc1;
    }
    push_opt_str_member(&mut members, "lang", &x.lang);
    proof {
        let e = ("lang"@, omap_str(fv.lang));
        let acc1 = acc.push(e);
        assert(acc1.drop_last() =~= acc);
        assert(acc1.last() == e);
        assert(omembers(acc1) == omembers(acc) + opt_member(e.0, e.1));
        assert(members.deep_view() =~= omembers(acc1));
        acc = acc1;
    }
    let r = Json::Obj(members);
    proof {
        crate::json::lemma_obj_view(r);
        assert(acc == link_mspec(tag@, fv));
    }
    r
}

#[verifier::rlimit(100)]
fn encode_image_definition_obj(x: &ImageDefinition) -> (r: Json)
    ensures
        r.deep_view() == JsonView::Obj(omembers(image_definition_mspec(x.deep_view()))),
{
    let ghost fv = x.deep_view();
    let mut members: Vec<(String, Json)> = Vec::new();
    let ghost mut acc: OmSpec = Seq::empty();
    proof {
        assert(omembers(acc) =~= Seq::<(Seq<char>, JsonView)>::empty());
        assert(members.deep_view() =~= omembers(acc));
    }
    push_member(&mut members, "type", Json::Str(String::from_str("image")));
    proof {
        let e = ("type"@, Some(JsonView::Str("image"@)));
        let acc1 = acc.push(e);
        assert(acc1.drop_last() =~= acc);
        assert(acc1.last() == e);
        assert(omembers(acc1) == omembers(acc) + opt_member(e.0, e.1));
        assert(members.deep_view() =~= omembers(acc1));
        acc = acc1;
    }
    push_member(&mut members, "path", Json::Str(x.path.clone()));
    proof {
        let e = ("path"@, Some(JsonView::Str(fv.path)));
        let acc1 = acc.push(e);
        assert(acc1.drop_last() =~= acc);
        assert(acc1.last() == e);
        assert(omembers(acc1) == omembers(acc) + opt_member(e.0, e.1));
        assert(members.deep_view() =~= omembers(acc1));
        acc = acc1;
    }
    push_opt_int_member(&mut members, "width", &x.width);
    proof {
        let e = ("width"@, omap_int(fv.width));
        let acc1 = acc.push(e);
        assert(acc1.drop_last() =~= acc);
        assert(acc1.last() == e);
        assert(omembers(acc1) == omembers(acc) + opt_member(e.0, e.1));
        assert(members.deep_view() =~= omembers(acc1));
        acc = acc1;
    }
    push_opt_int_member(&mut members, "height", &x.height);
    proof {
        let e = ("height"@, omap_int(fv.height));
        let acc1 = acc.push(e);
        assert(acc1.drop_last() =~= acc);
        assert(acc1.last() == e);
        assert(omembers(acc1) == omembers(acc) + opt_member(e.0, e.1));
        assert(members.deep_view() =~= omembers(acc1));
        acc = acc1;
    }
    push_opt_str_member(&mut members, "title", &x.title);
    proof {
        let e = ("title"@, omap_str(fv.title));
        let acc1 = acc.push(e);
        assert(acc1.drop_last() =~= acc);
        assert(acc1.last() == e);
        assert(omembers(acc1) == omembers(acc) + opt_member(e.0, e.1));
        assert(members.deep_view() =~= omembers(acc1));
        acc = acc1;
    }
    push_opt_str_member(&mut members, "alt", &x.alt);
    proof {
        let e = ("alt"@, omap_str(fv.alt));
        let acc1 = acc.push(e);
        assert(acc1.drop_last() =~= acc);
        assert(acc1.last() == e);
        assert(omembers(acc1) == omembers(acc) + opt_member(e.0, e.1));
        assert(members.deep_view() =~= omembers(acc1));
        acc = acc1;
    }
    push_opt_str_member(&mut members, "description", &x.description);
    proof {
        let e = ("description"@, omap_str(fv.description));
        let acc1 = acc.push(e);
        assert(acc1.drop_last() =~= acc);
        assert(acc1.last() == e);
        assert(omembers(acc1) == omembers(acc) + opt_member(e.0, e.1));
        assert(members.deep_view() =~= omembers(acc1));
        acc = acc1;
    }
    push_member(&mut members, "pixelated", Json::Bool(x.pixelated));
    proof {
        let e = ("pixelated"@, Some(JsonView::Bool(fv.pixelated)));
        let acc1 = acc.push(e);
        assert(acc1.drop_last() =~= acc);
        assert(acc1.last() == e);
        assert(omembers(acc1) == omembers(acc) + opt_member(e.0, e.1));
        assert(members.deep_view() =~= omembers(acc1));
        acc = acc1;
    }
    push_member(&mut members, "imageRendering", Json::Str(x.image_rendering.clone()));
    proof {
        let e = ("imageRendering"@, Some(JsonView::Str(fv.image_rendering)));
        let acc1 = acc.push(e);
        assert(acc1.drop_last() =~= acc);
        assert(acc1.last() == e);
        assert(omembers(acc1) == omembers(acc) + opt_member(e.0, e.1));
        assert(members.deep_view() =~= omembers(acc1));
        acc = acc1;
    }
    push_member(&mut members, "appearance", Json::Str(x.appearance.clone()));
    proof {
        let e = ("appearance"@, Some(JsonView::Str(fv.appearance)));
        let acc1 = acc.push(e);
        assert(acc1.drop_last() =~= acc);
        assert(acc1.last() == e);
        assert(omembers(acc1) == omembers(acc) + opt_member(e.0, e.1));
        assert(members.deep_view() =~= omembers(acc1));
        acc = acc1;
    }
    push_member(&mut members, "background", Json::Bool(x.background));
    proof {
        let e = ("background"@, Some(JsonView::Bool(fv.background)));
        let acc1 = acc.push(e);
        assert(acc1.drop_last() =~= acc);
        assert(acc1.last() == e);
        assert(omembers(acc1) == omembers(acc) + opt_member(e.0, e.1));
        assert(members.deep_view() =~= omembers(acc1));
        acc = acc1;
    }
    push_member(&mut members, "collapsed", Json::Bool(x.collapsed));
    proof {
        let e = ("collapsed"@, Some(JsonView::Bool(fv.collapsed)));
        let acc1 = acc.push(e);
        assert(acc1.drop_last() =~= acc);
        assert(acc1.last() == e);
        assert(omembers(acc1) == omembers(acc) + opt_member(e.0, e.1));
        assert(members.deep_view() =~= omembers(acc1));
        acc = acc1;
    }
    push_member(&mut members, "collapsible", Json::Bool(x.collapsible));
    proof {
        let e = ("collapsible"@, Some(JsonView::Bool(fv.collapsible)));
        let acc1 = acc.push(e);
        assert(acc1.drop_last() =~= acc);
        assert(acc1.last() == e);
        assert(omembers(acc1) == omembers(acc) + opt_member(e.0, e.1));
        assert(members.deep_view() =~= omembers(acc1));
        acc = acc1;
    }
    let r = Json::Obj(members);
    proof {
        crate::json::lemma_obj_view(r);
        assert(acc == image_definition_mspec(fv));
    }
    r
}

fn encode_detailed_text_obj(x: &TextDefinition) -> (r: Json)
    ensures
        r.deep_view() == JsonView::Obj(omembers(detailed_text_mspec(x.deep_view()))),
{
    let ghost fv = x.deep_view();
    let mut members: Vec<(String, Json)> = Vec::new();
    let ghost mut acc: OmSpec = Seq::empty();
    proof {
        assert(omembers(acc) =~= Seq::<(Seq<char>, JsonView)>::empty());
        assert(members.deep_view() =~= omembers(acc));
    }
    push_member(&mut members, "type", Json::Str(String::from_str("text")));
    proof {
        let e = ("type"@, Some(JsonView::Str("text"@)));
        let acc1 = acc.push(e);
        assert(acc1.drop_last() =~= acc);
        assert(acc1.last() == e);
        assert(omembers(acc1) == omembers(acc) + opt_member(e.0, e.1));
        assert(members.deep_view() =~= omembers(acc1));
        acc = acc1;
    }
    push_member(&mut members, "text", Json::Str(x.text.clone()));
    proof {
        let e = ("text"@, Some(JsonView::Str(fv.text)));
        let acc1 = acc.push(e);
        assert(acc1.drop_last() =~= acc);
        assert(acc1.last() == e);
        assert(omembers(acc1) == omembers(acc) + opt_member(e.0, e.1));
        assert(members.deep_view() =~= omembers(acc1));
        acc = acc1;
    }
    let r = Json::Obj(members);
    proof {
        crate::json::lemma_obj_view(r);
        assert(acc == detailed_text_mspec(fv));
    }
    r
}

/// Writes a content tree.
#[verifier::loop_isolation(false)]
pub fn encode_sc(x: &StructuredContent) -> (r: Json)
    ensures
        r.deep_view() == spec_encode_sc(sc_view(*x)),
    decreases x, 3int,
{
    match x {
        StructuredContent::Text(t) => Json::Str(t.clone()),
        StructuredContent::Array(a) => {
            proof {
                crate::schemas::dictionary_term_bank_v3::lemma_sc_array_view(*a);
            }
            let ghost adv = a.deep_view();
            let mut arr: Vec<Json> = Vec::new();
            let mut i: usize = 0;
            while i < a.len()
                invariant
                    i <= a@.len(),
                    arr@.len() == i as int,
                    arr.deep_view() == spec_encode_sc_list(adv.take(i as int)),
                decreases a@.len() - i,
            {
                let ghost prev = arr;
                let j = encode_sc(&a[i]);
                arr.push(j);
                proof {
                    crate::json::lemma_vec_dv_push(prev, arr, arr@[i as int]);
                    assert(adv.take(i + 1).drop_last() =~= adv.take(i as int));
                    assert(adv.take(i + 1).last() == adv[i as int]);
                }
                i += 1;
            }
            let r = Json::Arr(arr);
            proof {
                crate::json::lemma_arr_view(r);
                assert(adv.take(a@.len() as int) =~= adv);
            }
            r
        },
        StructuredContent::Object(b) => encode_sc_object(&**b),
    }
}

/// Writes one tagged element.
pub fn encode_sc_object(x: &StructuredContentObject) -> (r: Json)
    ensures
        r.deep_view() == spec_encode_sc_object(sc_object_view(*x)),
    decreases x, 2int,
{
    match x {
        StructuredContentObject::Br(f) => encode_break_obj("br", f),
        StructuredContentObject::Ruby(f) => encode_container_obj("ruby", f),
        StructuredContentObject::Rt(f) => encode_container_obj("rt", f),
        StructuredContentObject::Rp(f) => encode_container_obj("rp", f),
        StructuredContentObject::Table(f) => encode_container_obj("table", f),
        StructuredContentObject::Thead(f) => encode_container_obj("thead", f),
        StructuredContentObject::Tbody(f) => encode_container_obj("tbody", f),
        StructuredContentObject::Tfoot(f) => encode_container_obj("tfoot", f),
        StructuredContentObject::Tr(f) => encode_container_obj("tr", f),
        StructuredContentObject::Td(f) => encode_table_obj("td", f),
        StructuredContentObject::Th(f) => encode_table_obj("th", f),
        StructuredContentObject::Span(f) => encode_styled_obj("span", f),
        StructuredContentObject::Div(f) => encode_styled_obj("div", f),
        StructuredContentObject::Ol(f) => encode_styled_obj("ol", f),
        StructuredContentObject::Ul(f) => encode_styled_obj("ul", f),
        StructuredContentObject::Li(f) => encode_styled_obj("li", f),
        StructuredContentObject::Details(f) => encode_styled_obj("details", f),
        StructuredContentObject::Summary(f) => encode_styled_obj("summary", f),
        StructuredContentObject::Img(f) => encode_image_obj("img", f),
        StructuredContentObject::A(f) => encode_link_obj("a", f),
    }
}

/// Writes a detailed definition with its `type` discriminant first.
pub fn encode_detailed(x: &DetailedDefinition) -> (r: Json)
    ensures
        r.deep_view() == spec_encode_detailed(x.deep_view()),
{
    match x {
        DetailedDefinition::Text(t) => encode_detailed_text_obj(t),
        DetailedDefinition::Image(f) => encode_image_definition_obj(f),
        DetailedDefinition::StructuredContent(c) => {
            let ghost fv = c.deep_view();
            let mut members: Vec<(String, Json)> = Vec::new();
            let ghost mut acc: OmSpec = Seq::empty();
            proof {
                assert(omembers(acc) =~= Seq::<(Seq<char>, JsonView)>::empty());
                assert(members.deep_view() =~= omembers(acc));
            }
            push_member(&mut members, "type", Json::Str(String::from_str("structured-content")));
            proof {
                let e = ("type"@, Some(JsonView::Str("structured-content"@)));
                let acc1 = acc.push(e);
                assert(acc1.drop_last() =~= acc);
                assert(acc1.last() == e);
                assert(omembers(acc1) == omembers(acc) + opt_member(e.0, e.1));
                assert(members.deep_view() =~= omembers(acc1));
                acc = acc1;
            }
            let j = encode_sc(&*c.content);
            push_member(&mut members, "content", j);
            proof {
                let e = ("content"@, Some(spec_encode_sc(fv.content)));
                let acc1 = acc.push(e);
                assert(acc1.drop_last() =~= acc);
                assert(acc1.last() == e);
                assert(omembers(acc1) == omembers(acc) + opt_member(e.0, e.1));
                assert(members.deep_view() =~= omembers(acc1));
                acc = acc1;
            }
            let r = Json::Obj(members);
            proof {
                crate::json::lemma_obj_view(r);
                assert(acc == detailed_sc_mspec(fv));
            }
            r
        },
    }
}

/// Writes one definition.
pub fn encode_definition(x: &Definition) -> (r: Json)
    ensures
        r.deep_view() == spec_encode_definition(x.deep_view()),
{
    match x {
        Definition::Text(t) => Json::Str(t.clone()),
        Definition::Detailed(b) => encode_detailed(&**b),
        Definition::Deinflection(d) => {
            let ghost rv = d.inflection_rules.deep_view();
            let mut rules: Vec<Json> = Vec::new();
            let mut i: usize = 0;
            while i < d.inflection_rules.len()
                invariant
                    i <= d.inflection_rules@.len(),
                    rv == d.inflection_rules.deep_view(),
                    rv.len() == d.inflection_rules@.len(),
                    forall|k: int|
                        0 <= k < d.inflection_rules@.len() ==> rv[k]
                            == #[trigger] d.inflection_rules@[k]@,
                    rules@.len() == i as int,
                    forall|k: int|
                        0 <= k < i ==> #[trigger] rules@[k].deep_view() == JsonView::Str(rv[k]),
                decreases d.inflection_rules@.len() - i,
            {
                rules.push(Json::Str(d.inflection_rules[i].clone()));
                i += 1;
            }
            let rules_json = Json::Arr(rules);
            proof {
                crate::json::lemma_arr_view(rules_json);
                assert(rules_json.deep_view()->Arr_0 =~= Seq::new(
                    rv.len(),
                    |k: int| JsonView::Str(rv[k]),
                ));
            }
            let mut cells: Vec<Json> = Vec::new();
            cells.push(Json::Str(d.uninflected.clone()));
            cells.push(rules_json);
            let r = Json::Arr(cells);
            proof {
                crate::json::lemma_arr_view(r);
                assert(r.deep_view()->Arr_0 =~= spec_encode_definition(x.deep_view())->Arr_0);
            }
            r
        },
    }
}

/// The document holding a row's definitions: an array of the encoded
/// definitions, in order.
pub open spec fn spec_encode_definitions(defs: Seq<DefinitionView>) -> JsonView {
    JsonView::Arr(Seq::new(defs.len(), |i: int| spec_encode_definition(defs[i])))
}

/// Writes a row's definitions as one document.
pub fn encode_definitions(defs: &Vec<Definition>) -> (r: Json)
    ensures
        r.deep_view() == spec_encode_definitions(defs.deep_view()),
{
    let ghost dv = defs.deep_view();
    let mut out: Vec<Json> = Vec::new();
    let mut i: usize = 0;
    while i < defs.len()
        invariant
            i <= defs@.len(),
            dv == defs.deep_view(),
            dv.len() == defs@.len(),
            forall|k: int|
                0 <= k < defs@.len() ==> dv[k] == #[trigger] defs@[k].deep_view(),
            out@.len() == i as int,
            forall|k: int|
                0 <= k < i ==> #[trigger] out@[k].deep_view() == spec_encode_definition(dv[k]),
        decreases defs@.len() - i,
    {
        let j = encode_definition(&defs[i]);
        out.push(j);
        i += 1;
    }
    let r = Json::Arr(out);
    proof {
        crate::json::lemma_arr_view(r);
        assert(r.deep_view()->Arr_0 =~= Seq::new(dv.len(), |k: int| spec_encode_definition(dv[k])));
    }
    r
}

/// The compact document text that an entry's definitions are persisted
/// as.
pub fn definitions_json_text(defs: &Vec<Definition>) -> (r: String)
    ensures
        r@ == crate::json::spec_json_text(spec_encode_definitions(defs.deep_view())),
{
    let j = encode_definitions(defs);
    crate::json::json_text(&j)
}

/// Writes one term row as its eight positional cells.
pub fn encode_term_row(x: &DictionaryTermBankV3Row) -> (r: Json)
    ensures
        r.deep_view() == spec_encode_term_row(x.deep_view()),
{
    let ghost dv = x.definitions.deep_view();
    let defs_json = encode_definitions(&x.definitions);
    proof {
        assert(defs_json.deep_view()->Arr_0 =~= Seq::new(
            dv.len(),
            |k: int| spec_encode_definition(dv[k]),
        ));
    }
    let mut cells: Vec<Json> = Vec::new();
    cells.push(Json::Str(x.expression.clone()));
    cells.push(Json::Str(x.reading.clone()));
    match &x.definition_tags {
        Some(t) => {
            cells.push(Json::Str(t.clone()));
        },
        None => {
            cells.push(Json::Null);
        },
    }
    cells.push(Json::Str(x.rules.clone()));
    cells.push(Json::Num(x.score.clone()));
    cells.push(defs_json);
    cells.push(Json::Num(crate::num::int_lit_of(x.sequence as i64)));
    cells.push(Json::Str(x.expression_tags.clone()));
    let r = Json::Arr(cells);
    proof {
        crate::json::lemma_arr_view(r);
        assert(r.deep_view()->Arr_0 =~= spec_encode_term_row(x.deep_view())->Arr_0);
    }
    r
}

} // verus!
