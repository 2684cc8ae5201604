use vstd::prelude::*;
use vstd::string::StringExecFns;

verus! {

/// A data file holding term information: a JSON array of eight-element
/// rows. Each row's definitions form a tagged-union document tree.
pub type DictionaryTermBankV3 = Vec<DictionaryTermBankV3Row>;

/// One term row. The eight cells are positional in the file; here they
/// carry names. `score` keeps its number token verbatim.
pub struct DictionaryTermBankV3Row {
    pub expression: String,
    pub reading: String,
    pub definition_tags: Option<String>,
    pub rules: String,
    pub score: String,
    pub definitions: Vec<Definition>,
    pub sequence: i32,
    pub expression_tags: String,
}

/// A single definition: plain text, a detailed definition object, or a
/// deinflection pair.
pub enum Definition {
    Text(String),
    Detailed(Box<DetailedDefinition>),
    Deinflection(Deinflection),
}

/// A detailed definition, discriminated by its explicit `type` member.
pub enum DetailedDefinition {
    Text(TextDefinition),
    Image(ImageDefinition),
    StructuredContent(StructuredContentDefinition),
}

/// An inflected term reduced to its uninflected form, with the chain of
/// inflection rules applied.
pub struct Deinflection {
    pub uninflected: String,
    pub inflection_rules: Vec<String>,
}

pub struct TextDefinition {
    pub text: String,
}

/// An image definition. `width` and `height` must be at least 1 to pass
/// validation; parsing itself accepts any whole number.
pub struct ImageDefinition {
    pub path: String,
    pub width: Option<i32>,
    pub height: Option<i32>,
    pub title: Option<String>,
    pub alt: Option<String>,
    pub description: Option<String>,
    pub pixelated: bool,
    pub image_rendering: String,
    pub appearance: String,
    pub background: bool,
    pub collapsed: bool,
    pub collapsible: bool,
}

pub struct StructuredContentDefinition {
    pub content: Box<StructuredContent>,
}

/// The recursive rich-definition document: a text node, an ordered list
/// of children, or a tagged element.
pub enum StructuredContent {
    Text(String),
    Array(Vec<StructuredContent>),
    Object(Box<StructuredContentObject>),
}

/// A tagged element, discriminated by its `tag` member.
pub enum StructuredContentObject {
    Br(BreakFields),
    Ruby(ContainerFields),
    Rt(ContainerFields),
    Rp(ContainerFields),
    Table(ContainerFields),
    Thead(ContainerFields),
    Tbody(ContainerFields),
    Tfoot(ContainerFields),
    Tr(ContainerFields),
    Td(TableElementFields),
    Th(TableElementFields),
    Span(StyledContainerFields),
    Div(StyledContainerFields),
    Ol(StyledContainerFields),
    Ul(StyledContainerFields),
    Li(StyledContainerFields),
    Details(StyledContainerFields),
    Summary(StyledContainerFields),
    Img(ImageFields),
    A(LinkFields),
}

/// Free-form string-keyed data attributes of an element.
pub type StructuredContentData = Vec<(String, String)>;

/// Elements with no own content.
pub struct BreakFields {
    pub data: Option<StructuredContentData>,
}

/// Generic container elements.
pub struct ContainerFields {
    pub content: Option<StructuredContent>,
    pub data: Option<StructuredContentData>,
    pub lang: Option<String>,
}

/// Table cell elements; `colSpan` and `rowSpan` must be at least 1 to
/// pass validation.
pub struct TableElementFields {
    pub content: Option<StructuredContent>,
    pub data: Option<StructuredContentData>,
    pub col_span: Option<i32>,
    pub row_span: Option<i32>,
    pub style: Option<StructuredContentStyle>,
    pub lang: Option<String>,
}

/// Container elements supporting configurable styles.
pub struct StyledContainerFields {
    pub content: Option<StructuredContent>,
    pub data: Option<StructuredContentData>,
    pub style: Option<StructuredContentStyle>,
    pub title: Option<String>,
    pub open: Option<bool>,
    pub lang: Option<String>,
}

/// The image element. `width` and `height` keep their number tokens and
/// must not be negative to pass validation.
pub struct ImageFields {
    pub path: String,
    pub data: Option<StructuredContentData>,
    pub width: Option<String>,
    pub height: Option<String>,
    pub title: Option<String>,
    pub alt: Option<String>,
    pub description: Option<String>,
    pub pixelated: bool,
    pub image_rendering: String,
    pub appearance: String,
    pub background: bool,
    pub collapsed: bool,
    pub collapsible: bool,
    pub vertical_align: Option<String>,
    pub border: Option<String>,
    pub border_radius: Option<String>,
    pub size_units: Option<String>,
}

/// The link element; `href` must start with `http:`, `https:` or `?` to
/// pass validation.
pub struct LinkFields {
    pub href: String,
    pub content: Option<StructuredContent>,
    pub lang: Option<String>,
}

/// The style block of a styled element.
pub struct StructuredContentStyle {
    pub font_style: String,
    pub font_weight: String,
    pub font_size: String,
    pub color: Option<String>,
    pub background: Option<String>,
    pub background_color: Option<String>,
    pub text_decoration_line: TextDecorationLine,
    pub text_decoration_style: String,
    pub text_decoration_color: Option<String>,
    pub border_color: Option<String>,
    pub border_style: Option<String>,
    pub border_radius: Option<String>,
    pub border_width: Option<String>,
    pub clip_path: Option<String>,
    pub vertical_align: String,
    pub text_align: String,
    pub text_emphasis: Option<String>,
    pub text_shadow: Option<String>,
    pub margin: Option<String>,
    pub margin_top: NumberOrString,
    pub margin_left: NumberOrString,
    pub margin_right: NumberOrString,
    pub margin_bottom: NumberOrString,
    pub padding: Option<String>,
    pub padding_top: Option<String>,
    pub padding_left: Option<String>,
    pub padding_right: Option<String>,
    pub padding_bottom: Option<String>,
    pub word_break: String,
    pub white_space: String,
    pub cursor: String,
    pub list_style_type: String,
}

/// One or several text-decoration line names.
pub enum TextDecorationLine {
    Single(String),
    Multiple(Vec<String>),
}

/// A numeric or textual measure; the number keeps its token.
pub enum NumberOrString {
    Number(String),
    Str(String),
}

// --- Mathematical shapes of the above ---

pub struct TermRowView {
    pub expression: Seq<char>,
    pub reading: Seq<char>,
    pub definition_tags: Option<Seq<char>>,
    pub rules: Seq<char>,
    pub score: Seq<char>,
    pub definitions: Seq<DefinitionView>,
    pub sequence: i32,
    pub expression_tags: Seq<char>,
}

pub enum DefinitionView {
    Text(Seq<char>),
    Detailed(Box<DetailedDefinitionView>),
    Deinflection(DeinflectionView),
}

pub enum DetailedDefinitionView {
    Text(TextDefinitionView),
    Image(ImageDefinitionView),
    StructuredContent(SCDefinitionView),
}

pub struct DeinflectionView {
    pub uninflected: Seq<char>,
    pub inflection_rules: Seq<Seq<char>>,
}

pub struct TextDefinitionView {
    pub text: Seq<char>,
}

pub struct ImageDefinitionView {
    pub path: Seq<char>,
    pub width: Option<i32>,
    pub height: Option<i32>,
    pub title: Option<Seq<char>>,
    pub alt: Option<Seq<char>>,
    pub description: Option<Seq<char>>,
    pub pixelated: bool,
    pub image_rendering: Seq<char>,
    pub appearance: Seq<char>,
    pub background: bool,
    pub collapsed: bool,
    pub collapsible: bool,
}

pub struct SCDefinitionView {
    pub content: SCView,
}

pub enum SCView {
    Text(Seq<char>),
    Array(Seq<SCView>),
    Object(Box<SCObjectView>),
}

pub enum SCObjectView {
    Br(BreakFieldsView),
    Ruby(ContainerFieldsView),
    Rt(ContainerFieldsView),
    Rp(ContainerFieldsView),
    Table(ContainerFieldsView),
    Thead(ContainerFieldsView),
    Tbody(ContainerFieldsView),
    Tfoot(ContainerFieldsView),
    Tr(ContainerFieldsView),
    Td(TableElementFieldsView),
    Th(TableElementFieldsView),
    Span(StyledContainerFieldsView),
    Div(StyledContainerFieldsView),
    Ol(StyledContainerFieldsView),
    Ul(StyledContainerFieldsView),
    Li(StyledContainerFieldsView),
    Details(StyledContainerFieldsView),
    Summary(StyledContainerFieldsView),
    Img(ImageFieldsView),
    A(LinkFieldsView),
}

pub type SCDataView = Seq<(Seq<char>, Seq<char>)>;

pub struct BreakFieldsView {
    pub data: Option<SCDataView>,
}

pub struct ContainerFieldsView {
    pub content: Option<SCView>,
    pub data: Option<SCDataView>,
    pub lang: Option<Seq<char>>,
}

pub struct TableElementFieldsView {
    pub content: Option<SCView>,
    pub data: Option<SCDataView>,
    pub col_span: Option<i32>,
    pub row_span: Option<i32>,
    pub style: Option<StyleView>,
    pub lang: Option<Seq<char>>,
}

pub struct StyledContainerFieldsView {
    pub content: Option<SCView>,
    pub data: Option<SCDataView>,
    pub style: Option<StyleView>,
    pub title: Option<Seq<char>>,
    pub open: Option<bool>,
    pub lang: Option<Seq<char>>,
}

pub struct ImageFieldsView {
    pub path: Seq<char>,
    pub data: Option<SCDataView>,
    pub width: Option<Seq<char>>,
    pub height: Option<Seq<char>>,
    pub title: Option<Seq<char>>,
    pub alt: Option<Seq<char>>,
    pub description: Option<Seq<char>>,
    pub pixelated: bool,
    pub image_rendering: Seq<char>,
    pub appearance: Seq<char>,
    pub background: bool,
    pub collapsed: bool,
    pub collapsible: bool,
    pub vertical_align: Option<Seq<char>>,
    pub border: Option<Seq<char>>,
    pub border_radius: Option<Seq<char>>,
    pub size_units: Option<Seq<char>>,
}

pub struct LinkFieldsView {
    pub href: Seq<char>,
    pub content: Option<SCView>,
    pub lang: Option<Seq<char>>,
}

pub struct StyleView {
    pub font_style: Seq<char>,
    pub font_weight: Seq<char>,
    pub font_size: Seq<char>,
    pub color: Option<Seq<char>>,
    pub background: Option<Seq<char>>,
    pub background_color: Option<Seq<char>>,
    pub text_decoration_line: TextDecorationLineView,
    pub text_decoration_style: Seq<char>,
    pub text_decoration_color: Option<Seq<char>>,
    pub border_color: Option<Seq<char>>,
    pub border_style: Option<Seq<char>>,
    pub border_radius: Option<Seq<char>>,
    pub border_width: Option<Seq<char>>,
    pub clip_path: Option<Seq<char>>,
    pub vertical_align: Seq<char>,
    pub text_align: Seq<char>,
    pub text_emphasis: Option<Seq<char>>,
    pub text_shadow: Option<Seq<char>>,
    pub margin: Option<Seq<char>>,
    pub margin_top: NumberOrStringView,
    pub margin_left: NumberOrStringView,
    pub margin_right: NumberOrStringView,
    pub margin_bottom: NumberOrStringView,
    pub padding: Option<Seq<char>>,
    pub padding_top: Option<Seq<char>>,
    pub padding_left: Option<Seq<char>>,
    pub padding_right: Option<Seq<char>>,
    pub padding_bottom: Option<Seq<char>>,
    pub word_break: Seq<char>,
    pub white_space: Seq<char>,
    pub cursor: Seq<char>,
    pub list_style_type: Seq<char>,
}

pub enum TextDecorationLineView {
    Single(Seq<char>),
    Multiple(Seq<Seq<char>>),
}

pub enum NumberOrStringView {
    Number(Seq<char>),
    Str(Seq<char>),
}

impl DeepView for TextDecorationLine {
    type V = TextDecorationLineView;

    open spec fn deep_view(&self) -> TextDecorationLineView {
        match self {
            TextDecorationLine::Single(s) => TextDecorationLineView::Single(s@),
            TextDecorationLine::Multiple(v) => TextDecorationLineView::Multiple(v.deep_view()),
        }
    }
}

impl DeepView for NumberOrString {
    type V = NumberOrStringView;

    open spec fn deep_view(&self) -> NumberOrStringView {
        match self {
            NumberOrString::Number(s) => NumberOrStringView::Number(s@),
            NumberOrString::Str(s) => NumberOrStringView::Str(s@),
        }
    }
}

impl DeepView for StructuredContentStyle {
    type V = StyleView;

    open spec fn deep_view(&self) -> StyleView {
        StyleView {
            font_style: self.font_style@,
            font_weight: self.font_weight@,
            font_size: self.font_size@,
            color: self.color.deep_view(),
            background: self.background.deep_view(),
            background_color: self.background_color.deep_view(),
            text_decoration_line: self.text_decoration_line.deep_view(),
            text_decoration_style: self.text_decoration_style@,
            text_decoration_color: self.text_decoration_color.deep_view(),
            border_color: self.border_color.deep_view(),
            border_style: self.border_style.deep_view(),
            border_radius: self.border_radius.deep_view(),
            border_width: self.border_width.deep_view(),
            clip_path: self.clip_path.deep_view(),
            vertical_align: self.vertical_align@,
            text_align: self.text_align@,
            text_emphasis: self.text_emphasis.deep_view(),
            text_shadow: self.text_shadow.deep_view(),
            margin: self.margin.deep_view(),
            margin_top: self.margin_top.deep_view(),
            margin_left: self.margin_left.deep_view(),
            margin_right: self.margin_right.deep_view(),
            margin_bottom: self.margin_bottom.deep_view(),
            padding: self.padding.deep_view(),
            padding_top: self.padding_top.deep_view(),
            padding_left: self.padding_left.deep_view(),
            padding_right: self.padding_right.deep_view(),
            padding_bottom: self.padding_bottom.deep_view(),
            word_break: self.word_break@,
            white_space: self.white_space@,
            cursor: self.cursor@,
            list_style_type: self.list_style_type@,
        }
    }
}

impl DeepView for BreakFields {
    type V = BreakFieldsView;

    open spec fn deep_view(&self) -> BreakFieldsView {
        BreakFieldsView { data: self.data.deep_view() }
    }
}

impl DeepView for ImageFields {
    type V = ImageFieldsView;

    open spec fn deep_view(&self) -> ImageFieldsView {
        ImageFieldsView {
            path: self.path@,
            data: self.data.deep_view(),
            width: self.width.deep_view(),
            height: self.height.deep_view(),
            title: self.title.deep_view(),
            alt: self.alt.deep_view(),
            description: self.description.deep_view(),
            pixelated: self.pixelated,
            image_rendering: self.image_rendering@,
            appearance: self.appearance@,
            background: self.background,
            collapsed: self.collapsed,
            collapsible: self.collapsible,
            vertical_align: self.vertical_align.deep_view(),
            border: self.border.deep_view(),
            border_radius: self.border_radius.deep_view(),
            size_units: self.size_units.deep_view(),
        }
    }
}

/// Views of the mutually recursive content types, written as free
/// functions so that the recursion is carried entirely by them.
pub open spec fn sc_view(c: StructuredContent) -> SCView
    decreases c,
{
    match c {
        StructuredContent::Text(s) => SCView::Text(s@),
        StructuredContent::Array(a) => SCView::Array(
            Seq::new(
                a@.len(),
                |i: int|
                    if 0 <= i < a@.len() {
                        sc_view(a@[i])
                    } else {
                        SCView::Text(Seq::<char>::empty())
                    },
            ),
        ),
        StructuredContent::Object(b) => SCView::Object(Box::new(sc_object_view(*b))),
    }
}

pub open spec fn sc_object_view(o: StructuredContentObject) -> SCObjectView
    decreases o,
{
    match o {
        StructuredContentObject::Br(f) => SCObjectView::Br(f.deep_view()),
        StructuredContentObject::Ruby(f) => SCObjectView::Ruby(container_fields_view(f)),
        StructuredContentObject::Rt(f) => SCObjectView::Rt(container_fields_view(f)),
        StructuredContentObject::Rp(f) => SCObjectView::Rp(container_fields_view(f)),
        StructuredContentObject::Table(f) => SCObjectView::Table(container_fields_view(f)),
        StructuredContentObject::Thead(f) => SCObjectView::Thead(container_fields_view(f)),
        StructuredContentObject::Tbody(f) => SCObjectView::Tbody(container_fields_view(f)),
        StructuredContentObject::Tfoot(f) => SCObjectView::Tfoot(container_fields_view(f)),
        StructuredContentObject::Tr(f) => SCObjectView::Tr(container_fields_view(f)),
        StructuredContentObject::Td(f) => SCObjectView::Td(table_element_fields_view(f)),
        StructuredContentObject::Th(f) => SCObjectView::Th(table_element_fields_view(f)),
        StructuredContentObject::Span(f) => SCObjectView::Span(styled_container_fields_view(f)),
        StructuredContentObject::Div(f) => SCObjectView::Div(styled_container_fields_view(f)),
        StructuredContentObject::Ol(f) => SCObjectView::Ol(styled_container_fields_view(f)),
        StructuredContentObject::Ul(f) => SCObjectView::Ul(styled_container_fields_view(f)),
        StructuredContentObject::Li(f) => SCObjectView::Li(styled_container_fields_view(f)),
        StructuredContentObject::Details(f) => SCObjectView::Details(
            styled_container_fields_view(f),
        ),
        StructuredContentObject::Summary(f) => SCObjectView::Summary(
            styled_container_fields_view(f),
        ),
        StructuredContentObject::Img(f) => SCObjectView::Img(f.deep_view()),
        StructuredContentObject::A(f) => SCObjectView::A(link_fields_view(f)),
    }
}

pub open spec fn container_fields_view(f: ContainerFields) -> ContainerFieldsView
    decreases f,
{
    ContainerFieldsView {
        content: match f.content {
            Some(c) => Some(sc_view(c)),
            None => None,
        },
        data: f.data.deep_view(),
        lang: f.lang.deep_view(),
    }
}

pub open spec fn table_element_fields_view(f: TableElementFields) -> TableElementFieldsView
    decreases f,
{
    TableElementFieldsView {
        content: match f.content {
            Some(c) => Some(sc_view(c)),
            None => None,
        },
        data: f.data.deep_view(),
        col_span: f.col_span,
        row_span: f.row_span,
        style: f.style.deep_view(),
        lang: f.lang.deep_view(),
    }
}

pub open spec fn styled_container_fields_view(f: StyledContainerFields) -> StyledContainerFieldsView
    decreases f,
{
    StyledContainerFieldsView {
        content: match f.content {
            Some(c) => Some(sc_view(c)),
            None => None,
        },
        data: f.data.deep_view(),
        style: f.style.deep_view(),
        title: f.title.deep_view(),
        open: f.open,
        lang: f.lang.deep_view(),
    }
}

pub open spec fn link_fields_view(f: LinkFields) -> LinkFieldsView
    decreases f,
{
    LinkFieldsView {
        href: f.href@,
        content: match f.content {
            Some(c) => Some(sc_view(c)),
            None => None,
        },
        lang: f.lang.deep_view(),
    }
}

impl DeepView for StructuredContent {
    type V = SCView;

    open spec fn deep_view(&self) -> SCView {
        sc_view(*self)
    }
}

impl DeepView for StructuredContentObject {
    type V = SCObjectView;

    open spec fn deep_view(&self) -> SCObjectView {
        sc_object_view(*self)
    }
}

impl DeepView for ContainerFields {
    type V = ContainerFieldsView;

    open spec fn deep_view(&self) -> ContainerFieldsView {
        container_fields_view(*self)
    }
}

impl DeepView for TableElementFields {
    type V = TableElementFieldsView;

    open spec fn deep_view(&self) -> TableElementFieldsView {
        table_element_fields_view(*self)
    }
}

impl DeepView for StyledContainerFields {
    type V = StyledContainerFieldsView;

    open spec fn deep_view(&self) -> StyledContainerFieldsView {
        styled_container_fields_view(*self)
    }
}

impl DeepView for LinkFields {
    type V = LinkFieldsView;

    open spec fn deep_view(&self) -> LinkFieldsView {
        link_fields_view(*self)
    }
}

impl DeepView for TextDefinition {
    type V = TextDefinitionView;

    open spec fn deep_view(&self) -> TextDefinitionView {
        TextDefinitionView { text: self.text@ }
    }
}

impl DeepView for ImageDefinition {
    type V = ImageDefinitionView;

    open spec fn deep_view(&self) -> ImageDefinitionView {
        ImageDefinitionView {
            path: self.path@,
            width: self.width,
            height: self.height,
            title: self.title.deep_view(),
            alt: self.alt.deep_view(),
            description: self.description.deep_view(),
            pixelated: self.pixelated,
            image_rendering: self.image_rendering@,
            appearance: self.appearance@,
            background: self.background,
            collapsed: self.collapsed,
            collapsible: self.collapsible,
        }
    }
}

impl DeepView for StructuredContentDefinition {
    type V = SCDefinitionView;

    open spec fn deep_view(&self) -> SCDefinitionView {
        SCDefinitionView { content: sc_view(*self.content) }
    }
}

impl DeepView for Deinflection {
    type V = DeinflectionView;

    open spec fn deep_view(&self) -> DeinflectionView {
        DeinflectionView {
            uninflected: self.uninflected@,
            inflection_rules: self.inflection_rules.deep_view(),
        }
    }
}

impl DeepView for DetailedDefinition {
    type V = DetailedDefinitionView;

    open spec fn deep_view(&self) -> DetailedDefinitionView {
        match self {
            DetailedDefinition::Text(t) => DetailedDefinitionView::Text(t.deep_view()),
            DetailedDefinition::Image(t) => DetailedDefinitionView::Image(t.deep_view()),
            DetailedDefinition::StructuredContent(t) => DetailedDefinitionView::StructuredContent(
                t.deep_view(),
            ),
        }
    }
}

impl DeepView for Definition {
    type V = DefinitionView;

    open spec fn deep_view(&self) -> DefinitionView {
        match self {
            Definition::Text(s) => DefinitionView::Text(s@),
            Definition::Detailed(b) => DefinitionView::Detailed(Box::new((**b).deep_view())),
            Definition::Deinflection(d) => DefinitionView::Deinflection(d.deep_view()),
        }
    }
}

impl DeepView for DictionaryTermBankV3Row {
    type V = TermRowView;

    open spec fn deep_view(&self) -> TermRowView {
        TermRowView {
            expression: self.expression@,
            reading: self.reading@,
            definition_tags: self.definition_tags.deep_view(),
            rules: self.rules@,
            score: self.score@,
            definitions: self.definitions.deep_view(),
            sequence: self.sequence,
            expression_tags: self.expression_tags@,
        }
    }
}


/// The view of an array node is the element-wise view of its children.
pub proof fn lemma_sc_array_view(v: Vec<StructuredContent>)
    ensures
        sc_view(StructuredContent::Array(v)) == SCView::Array(v.deep_view()),
{
    let a = sc_view(StructuredContent::Array(v))->Array_0;
    assert forall|k: int| 0 <= k < v@.len() implies a[k] == v.deep_view()[k] by {
        assert(a[k] == sc_view(v@[k]));
        assert(v.deep_view()[k] == v@[k].deep_view());
    }
    assert(a =~= v.deep_view());
}


// --- Validation: a separate, explicitly invoked pass over parsed values ---

/// A link target: `http:`, `https:`, or a query reference.
pub open spec fn spec_valid_href(s: Seq<char>) -> bool {
    crate::text::spec_starts_with(s, "http:"@) || crate::text::spec_starts_with(s, "https:"@) || (
    s.len() >= 1 && s[0] == '?')
}

pub open spec fn spec_valid_image_definition(v: ImageDefinitionView) -> bool {
    &&& match v.width {
        Some(w) => w >= 1,
        None => true,
    }
    &&& match v.height {
        Some(h) => h >= 1,
        None => true,
    }
    &&& (v.image_rendering == "auto"@ || v.image_rendering == "pixelated"@ || v.image_rendering
        == "crisp-edges"@)
    &&& (v.appearance == "auto"@ || v.appearance == "monochrome"@)
}

pub open spec fn spec_valid_image_fields(v: ImageFieldsView) -> bool {
    &&& match v.width {
        Some(w) => !crate::num::num_lit_is_negative(w),
        None => true,
    }
    &&& match v.height {
        Some(h) => !crate::num::num_lit_is_negative(h),
        None => true,
    }
    &&& (v.image_rendering == "auto"@ || v.image_rendering == "pixelated"@ || v.image_rendering
        == "crisp-edges"@)
    &&& (v.appearance == "auto"@ || v.appearance == "monochrome"@)
    &&& match v.vertical_align {
        Some(a) => spec_valign(a),
        None => true,
    }
    &&& match v.size_units {
        Some(u) => u == "px"@ || u == "em"@,
        None => true,
    }
}

pub open spec fn spec_valign(a: Seq<char>) -> bool {
    ||| a == "baseline"@
    ||| a == "sub"@
    ||| a == "super"@
    ||| a == "text-top"@
    ||| a == "text-bottom"@
    ||| a == "middle"@
    ||| a == "top"@
    ||| a == "bottom"@
}

pub open spec fn spec_valid_style(v: StyleView) -> bool {
    &&& (v.font_style == "normal"@ || v.font_style == "italic"@)
    &&& (v.font_weight == "normal"@ || v.font_weight == "bold"@)
    &&& (v.text_decoration_style == "solid"@ || v.text_decoration_style == "double"@
        || v.text_decoration_style == "dotted"@ || v.text_decoration_style == "dashed"@
        || v.text_decoration_style == "wavy"@)
    &&& spec_valign(v.vertical_align)
    &&& (v.text_align == "start"@ || v.text_align == "end"@ || v.text_align == "left"@
        || v.text_align == "right"@ || v.text_align == "center"@ || v.text_align == "justify"@
        || v.text_align == "justify-all"@ || v.text_align == "match-parent"@)
    &&& (v.word_break == "normal"@ || v.word_break == "break-all"@ || v.word_break == "keep-all"@)
}

pub open spec fn spec_valid_opt_style(v: Option<StyleView>) -> bool {
    match v {
        Some(st) => spec_valid_style(st),
        None => true,
    }
}

/// The recursive validation of a content tree: per-element constraints,
/// applied to every nested level.
pub open spec fn spec_valid_sc(t: SCView) -> bool
    decreases t, 3int,
{
    match t {
        SCView::Text(s) => true,
        SCView::Array(a) => spec_valid_sc_list(a),
        SCView::Object(b) => spec_valid_sc_object(*b),
    }
}

pub open spec fn spec_valid_sc_list(a: Seq<SCView>) -> bool
    decreases a, 4int,
{
    if a.len() == 0 {
        true
    } else {
        spec_valid_sc_list(a.drop_last()) && spec_valid_sc(a.last())
    }
}

pub open spec fn spec_valid_opt_sc(c: Option<SCView>) -> bool
    decreases c, 1int,
{
    match c {
        Some(x) => spec_valid_sc(x),
        None => true,
    }
}

pub open spec fn spec_valid_sc_object(o: SCObjectView) -> bool
    decreases o, 2int,
{
    match o {
        SCObjectView::Br(f) => true,
        SCObjectView::Ruby(f) => spec_valid_opt_sc(f.content),
        SCObjectView::Rt(f) => spec_valid_opt_sc(f.content),
        SCObjectView::Rp(f) => spec_valid_opt_sc(f.content),
        SCObjectView::Table(f) => spec_valid_opt_sc(f.content),
        SCObjectView::Thead(f) => spec_valid_opt_sc(f.content),
        SCObjectView::Tbody(f) => spec_valid_opt_sc(f.content),
        SCObjectView::Tfoot(f) => spec_valid_opt_sc(f.content),
        SCObjectView::Tr(f) => spec_valid_opt_sc(f.content),
        SCObjectView::Td(f) => spec_valid_table_element(f) && spec_valid_opt_sc(f.content),
        SCObjectView::Th(f) => spec_valid_table_element(f) && spec_valid_opt_sc(f.content),
        SCObjectView::Span(f) => spec_valid_opt_style(f.style) && spec_valid_opt_sc(f.content),
        SCObjectView::Div(f) => spec_valid_opt_style(f.style) && spec_valid_opt_sc(f.content),
        SCObjectView::Ol(f) => spec_valid_opt_style(f.style) && spec_valid_opt_sc(f.content),
        SCObjectView::Ul(f) => spec_valid_opt_style(f.style) && spec_valid_opt_sc(f.content),
        SCObjectView::Li(f) => spec_valid_opt_style(f.style) && spec_valid_opt_sc(f.content),
        SCObjectView::Details(f) => spec_valid_opt_style(f.style) && spec_valid_opt_sc(f.content),
        SCObjectView::Summary(f) => spec_valid_opt_style(f.style) && spec_valid_opt_sc(f.content),
        SCObjectView::Img(f) => spec_valid_image_fields(f),
        SCObjectView::A(f) => spec_valid_href(f.href) && spec_valid_opt_sc(f.content),
    }
}

pub open spec fn spec_valid_table_element(f: TableElementFieldsView) -> bool {
    &&& match f.col_span {
        Some(w) => w >= 1,
        None => true,
    }
    &&& match f.row_span {
        Some(w) => w >= 1,
        None => true,
    }
    &&& spec_valid_opt_style(f.style)
}

pub open spec fn spec_valid_definition(d: DefinitionView) -> bool {
    match d {
        DefinitionView::Text(s) => true,
        DefinitionView::Detailed(b) => match *b {
            DetailedDefinitionView::Text(t) => true,
            DetailedDefinitionView::Image(f) => spec_valid_image_definition(f),
            DetailedDefinitionView::StructuredContent(c) => spec_valid_sc(c.content),
        },
        DefinitionView::Deinflection(di) => true,
    }
}

pub open spec fn spec_valid_definition_list(a: Seq<DefinitionView>) -> bool
    decreases a.len(),
{
    if a.len() == 0 {
        true
    } else {
        spec_valid_definition_list(a.drop_last()) && spec_valid_definition(a.last())
    }
}

pub open spec fn spec_valid_term_row(t: TermRowView) -> bool {
    spec_valid_definition_list(t.definitions)
}

fn is_render_value(s: &str) -> (r: bool)
    ensures
        r == (s@ == "auto"@ || s@ == "pixelated"@ || s@ == "crisp-edges"@),
{
    crate::ext::str_eq(s, "auto") || crate::ext::str_eq(s, "pixelated") || crate::ext::str_eq(
        s,
        "crisp-edges",
    )
}

fn is_appearance_value(s: &str) -> (r: bool)
    ensures
        r == (s@ == "auto"@ || s@ == "monochrome"@),
{
    crate::ext::str_eq(s, "auto") || crate::ext::str_eq(s, "monochrome")
}

fn is_valign_value(s: &str) -> (r: bool)
    ensures
        r == spec_valign(s@),
{
    crate::ext::str_eq(s, "baseline") || crate::ext::str_eq(s, "sub") || crate::ext::str_eq(
        s,
        "super",
    ) || crate::ext::str_eq(s, "text-top") || crate::ext::str_eq(s, "text-bottom")
        || crate::ext::str_eq(s, "middle") || crate::ext::str_eq(s, "top") || crate::ext::str_eq(
        s,
        "bottom",
    )
}

impl ImageDefinition {
    /// Checks the constrained members: `width` and `height` at least 1,
    /// and the two enumerated members. Returns the offending member name
    /// on failure.
    pub fn validate(&self) -> (r: Result<(), String>)
        ensures
            (r is Ok) == spec_valid_image_definition(self.deep_view()),
    {
        if let Some(w) = self.width {
            if w < 1 {
                return Err(String::from_str("width"));
            }
        }
        if let Some(h) = self.height {
            if h < 1 {
                return Err(String::from_str("height"));
            }
        }
        if !is_render_value(self.image_rendering.as_str()) {
            return Err(String::from_str("imageRendering"));
        }
        if !is_appearance_value(self.appearance.as_str()) {
            return Err(String::from_str("appearance"));
        }
        Ok(())
    }
}

impl ImageFields {
    /// Checks the constrained members: `width` and `height` not below
    /// zero, and the enumerated members. Returns the offending member
    /// name on failure; the structural parse itself is permissive.
    pub fn validate(&self) -> (r: Result<(), String>)
        ensures
            (r is Ok) == spec_valid_image_fields(self.deep_view()),
    {
        if let Some(w) = &self.width {
            let cs = crate::text::chars_vec(w.as_str());
            if crate::num::lit_is_negative(&cs) {
                return Err(String::from_str("width"));
            }
        }
        if let Some(h) = &self.height {
            let cs = crate::text::chars_vec(h.as_str());
            if crate::num::lit_is_negative(&cs) {
                return Err(String::from_str("height"));
            }
        }
        if !is_render_value(self.image_rendering.as_str()) {
            return Err(String::from_str("imageRendering"));
        }
        if !is_appearance_value(self.appearance.as_str()) {
            return Err(String::from_str("appearance"));
        }
        if let Some(a) = &self.vertical_align {
            if !is_valign_value(a.as_str()) {
                return Err(String::from_str("verticalAlign"));
            }
        }
        if let Some(u) = &self.size_units {
            if !(crate::ext::str_eq(u.as_str(), "px") || crate::ext::str_eq(u.as_str(), "em")) {
                return Err(String::from_str("sizeUnits"));
            }
        }
        Ok(())
    }
}

impl StructuredContentStyle {
    /// Checks the enumerated members. Returns the offending member name
    /// on failure.
    pub fn validate(&self) -> (r: Result<(), String>)
        ensures
            (r is Ok) == spec_valid_style(self.deep_view()),
    {
        if !(crate::ext::str_eq(self.font_style.as_str(), "normal") || crate::ext::str_eq(
            self.font_style.as_str(),
            "italic",
        )) {
            return Err(String::from_str("fontStyle"));
        }
        if !(crate::ext::str_eq(self.font_weight.as_str(), "normal") || crate::ext::str_eq(
            self.font_weight.as_str(),
            "bold",
        )) {
            return Err(String::from_str("fontWeight"));
        }
        let tds = self.text_decoration_style.as_str();
        if !(crate::ext::str_eq(tds, "solid") || crate::ext::str_eq(tds, "double")
            || crate::ext::str_eq(tds, "dotted") || crate::ext::str_eq(tds, "dashed")
            || crate::ext::str_eq(tds, "wavy")) {
            return Err(String::from_str("textDecorationStyle"));
        }
        if !is_valign_value(self.vertical_align.as_str()) {
            return Err(String::from_str("verticalAlign"));
        }
        let ta = self.text_align.as_str();
        if !(crate::ext::str_eq(ta, "start") || crate::ext::str_eq(ta, "end")
            || crate::ext::str_eq(ta, "left") || crate::ext::str_eq(ta, "right")
            || crate::ext::str_eq(ta, "center") || crate::ext::str_eq(ta, "justify")
            || crate::ext::str_eq(ta, "justify-all") || crate::ext::str_eq(ta, "match-parent")) {
            return Err(String::from_str("textAlign"));
        }
        let wb = self.word_break.as_str();
        if !(crate::ext::str_eq(wb, "normal") || crate::ext::str_eq(wb, "break-all")
            || crate::ext::str_eq(wb, "keep-all")) {
            return Err(String::from_str("wordBreak"));
        }
        Ok(())
    }
}

fn validate_opt_style(style: &Option<StructuredContentStyle>) -> (r: bool)
    ensures
        r == spec_valid_opt_style(style.deep_view()),
{
    match style {
        Some(st) => st.validate().is_ok(),
        None => true,
    }
}

/// A list with an invalid element is invalid.
proof fn lemma_valid_sc_list_elem_false(a: Seq<SCView>, i: int)
    requires
        0 <= i < a.len(),
        !spec_valid_sc(a[i]),
    ensures
        !spec_valid_sc_list(a),
    decreases a.len(),
{
    if i < a.len() - 1 {
        assert(a.drop_last()[i] == a[i]);
        lemma_valid_sc_list_elem_false(a.drop_last(), i);
    }
}

impl StructuredContent {
    /// The recursive validation pass over a whole content tree.
    #[verifier::loop_isolation(false)]
    pub fn validate(&self) -> (r: bool)
        ensures
            r == spec_valid_sc(sc_view(*self)),
        decreases self, 3int,
    {
        match self {
            StructuredContent::Text(_) => true,
            StructuredContent::Array(a) => {
                proof {
                    lemma_sc_array_view(*a);
                }
                let ghost av = a.deep_view();
                let mut i: usize = 0;
                while i < a.len()
                    invariant
                        i <= a@.len(),
                        av == a.deep_view(),
                        av.len() == a@.len(),
                        forall|k: int| 0 <= k < a@.len() ==> av[k] == #[trigger] a@[k].deep_view(),
                        spec_valid_sc_list(av.take(i as int)),
                    decreases a@.len() - i,
                {
                    proof {
                        assert(av.take(i + 1).drop_last() =~= av.take(i as int));
                        assert(av.take(i + 1).last() == av[i as int]);
                    }
                    if !a[i].validate() {
                        proof {
                            lemma_valid_sc_list_elem_false(av, i as int);
                        }
                        return false;
                    }
                    i += 1;
                }
                proof {
                    assert(av.take(a@.len() as int) =~= av);
                }
                true
            },
            StructuredContent::Object(b) => (&**b).validate_object(),
        }
    }
}

fn validate_opt_content(c: &Option<StructuredContent>) -> (r: bool)
    ensures
        r == spec_valid_opt_sc(match c {
            Some(x) => Some(sc_view(*x)),
            None => None,
        }),
    decreases c, 1int,
{
    match c {
        Some(x) => x.validate(),
        None => true,
    }
}

impl StructuredContentObject {
    /// The per-element constraints, applied recursively to the nested
    /// content.
    pub fn validate_object(&self) -> (r: bool)
        ensures
            r == spec_valid_sc_object(sc_object_view(*self)),
        decreases self, 2int,
    {
        match self {
            StructuredContentObject::Br(_) => true,
            StructuredContentObject::Ruby(f) => validate_opt_content(&f.content),
            StructuredContentObject::Rt(f) => validate_opt_content(&f.content),
            StructuredContentObject::Rp(f) => validate_opt_content(&f.content),
            StructuredContentObject::Table(f) => validate_opt_content(&f.content),
            StructuredContentObject::Thead(f) => validate_opt_content(&f.content),
            StructuredContentObject::Tbody(f) => validate_opt_content(&f.content),
            StructuredContentObject::Tfoot(f) => validate_opt_content(&f.content),
            StructuredContentObject::Tr(f) => validate_opt_content(&f.content),
            StructuredContentObject::Td(f) => f.validate().is_ok() && validate_opt_content(
                &f.content,
            ),
            StructuredContentObject::Th(f) => f.validate().is_ok() && validate_opt_content(
                &f.content,
            ),
            StructuredContentObject::Span(f) => validate_opt_style(&f.style) && validate_opt_content(
                &f.content,
            ),
            StructuredContentObject::Div(f) => validate_opt_style(&f.style) && validate_opt_content(
                &f.content,
            ),
            StructuredContentObject::Ol(f) => validate_opt_style(&f.style) && validate_opt_content(
                &f.content,
            ),
            StructuredContentObject::Ul(f) => validate_opt_style(&f.style) && validate_opt_content(
                &f.content,
            ),
            StructuredContentObject::Li(f) => validate_opt_style(&f.style) && validate_opt_content(
                &f.content,
            ),
            StructuredContentObject::Details(f) => validate_opt_style(&f.style)
                && validate_opt_content(&f.content),
            StructuredContentObject::Summary(f) => validate_opt_style(&f.style)
                && validate_opt_content(&f.content),
            StructuredContentObject::Img(f) => f.validate().is_ok(),
            StructuredContentObject::A(f) => {
                let cs = crate::text::chars_vec(f.href.as_str());
                let http = crate::text::chars_vec("http:");
                let https = crate::text::chars_vec("https:");
                let href_ok = crate::text::starts_with_chars(&cs, &http)
                    || crate::text::starts_with_chars(&cs, &https) || (cs.len() >= 1 && cs[0]
                    == '?');
                href_ok && validate_opt_content(&f.content)
            },
        }
    }
}

impl TableElementFields {
    /// Checks `colSpan` and `rowSpan` (at least 1) and the style block;
    /// the nested content is the tree validator's concern.
    pub fn validate(&self) -> (r: Result<(), String>)
        ensures
            (r is Ok) == spec_valid_table_element(table_element_fields_view(*self)),
    {
        if let Some(w) = self.col_span {
            if w < 1 {
                return Err(String::from_str("colSpan"));
            }
        }
        if let Some(w) = self.row_span {
            if w < 1 {
                return Err(String::from_str("rowSpan"));
            }
        }
        if !validate_opt_style(&self.style) {
            return Err(String::from_str("style"));
        }
        Ok(())
    }
}

/// A definition list with an invalid element is invalid.
proof fn lemma_valid_definition_list_elem_false(a: Seq<DefinitionView>, i: int)
    requires
        0 <= i < a.len(),
        !spec_valid_definition(a[i]),
    ensures
        !spec_valid_definition_list(a),
    decreases a.len(),
{
    if i < a.len() - 1 {
        assert(a.drop_last()[i] == a[i]);
        lemma_valid_definition_list_elem_false(a.drop_last(), i);
    }
}

impl Definition {
    pub fn validate(&self) -> (r: bool)
        ensures
            r == spec_valid_definition(self.deep_view()),
    {
        match self {
            Definition::Text(_) => true,
            Definition::Deinflection(_) => true,
            Definition::Detailed(b) => match &**b {
                DetailedDefinition::Text(_) => true,
                DetailedDefinition::Image(f) => f.validate().is_ok(),
                DetailedDefinition::StructuredContent(c) => (&*c.content).validate(),
            },
        }
    }
}

impl DictionaryTermBankV3Row {
    /// The validation pass over one row: every definition, including its
    /// whole content tree, meets its constraints.
    #[verifier::loop_isolation(false)]
    pub fn validate(&self) -> (r: bool)
        ensures
            r == spec_valid_term_row(self.deep_view()),
    {
        let ghost dv = self.definitions.deep_view();
        let mut i: usize = 0;
        while i < self.definitions.len()
            invariant
                i <= self.definitions@.len(),
                dv == self.definitions.deep_view(),
                dv.len() == self.definitions@.len(),
                forall|k: int|
                    0 <= k < self.definitions@.len() ==> dv[k]
                        == #[trigger] self.definitions@[k].deep_view(),
                spec_valid_definition_list(dv.take(i as int)),
            decreases self.definitions@.len() - i,
        {
            proof {
                assert(dv.take(i + 1).drop_last() =~= dv.take(i as int));
                assert(dv.take(i + 1).last() == dv[i as int]);
            }
            if !self.definitions[i].validate() {
                proof {
                    lemma_valid_definition_list_elem_false(dv, i as int);
                }
                return false;
            }
            i += 1;
        }
        proof {
            assert(dv.take(self.definitions@.len() as int) =~= dv);
        }
        true
    }
}

} // verus!
