//! The button: a form control or a link with the look of one.
use crate::class_list::{lemma_word_alone, lemma_words_of_spaced, spaced, words, words_of_each};
use crate::html::html;
use crate::markup::{
    attr_views, flag_attr, no_attrs, no_nodes, node_views, optional_attr, push_node,
    push_optional_attr, push_text_attr, same_text, text_attr, text_or_empty, Attr, AttrView,
    Markup, Node,
};
use vstd::prelude::*;
use vstd::string::*;

verus! {

/// The colour of a button.
#[derive(Copy, Clone, Debug, PartialEq, Eq, Structural)]
pub enum BtnColor {
    Neutral,
    Primary,
    Secondary,
    Accent,
    Info,
    Success,
    Warning,
    Error,
}

impl Default for BtnColor {
    fn default() -> (r: Self)
        ensures
            r == BtnColor::Neutral,
    {
        BtnColor::Neutral
    }
}

impl BtnColor {
    /// The class token of the colour.
    pub open spec fn spec_token(self) -> Seq<char> {
        match self {
            BtnColor::Neutral => "btn-neutral"@,
            BtnColor::Primary => "btn-primary"@,
            BtnColor::Secondary => "btn-secondary"@,
            BtnColor::Accent => "btn-accent"@,
            BtnColor::Info => "btn-info"@,
            BtnColor::Success => "btn-success"@,
            BtnColor::Warning => "btn-warning"@,
            BtnColor::Error => "btn-error"@,
        }
    }

    /// The given value, or `Neutral` where none is given.
    pub open spec fn spec_or_default(value: Option<BtnColor>) -> BtnColor {
        match value {
            Some(v) => v,
            None => BtnColor::Neutral,
        }
    }

    /// The class token of the colour.
    pub fn token(self) -> (s: &'static str)
        ensures
            s@ == self.spec_token(),
    {
        match self {
            BtnColor::Neutral => "btn-neutral",
            BtnColor::Primary => "btn-primary",
            BtnColor::Secondary => "btn-secondary",
            BtnColor::Accent => "btn-accent",
            BtnColor::Info => "btn-info",
            BtnColor::Success => "btn-success",
            BtnColor::Warning => "btn-warning",
            BtnColor::Error => "btn-error",
        }
    }

    /// The given value, or `Neutral` where none is given.
    pub fn or_default(value: Option<BtnColor>) -> (r: BtnColor)
        ensures
            r == BtnColor::spec_or_default(value),
    {
        match value {
            Some(v) => v,
            None => BtnColor::Neutral,
        }
    }
}

/// Two values of [`BtnColor`] have the same token only where they are the
/// same value.
pub proof fn lemma_button_color_tokens(a: BtnColor, b: BtnColor)
    ensures
        a.spec_token() == b.spec_token() <==> a == b,
{
    reveal_strlit("btn-neutral");
    reveal_strlit("btn-primary");
    reveal_strlit("btn-secondary");
    reveal_strlit("btn-accent");
    reveal_strlit("btn-info");
    reveal_strlit("btn-success");
    reveal_strlit("btn-warning");
    reveal_strlit("btn-error");
    // Tokens are told apart by their length and by the characters named.
    let s = a.spec_token();
    let t = b.spec_token();
    assert(s == t ==> s.len() == t.len());
    assert(s == t ==> s[4] == t[4]);
}

/// What a button is: a form control of one of three types, or a link.
#[derive(Copy, Clone, Debug, PartialEq, Eq, Structural)]
pub enum BtnType {
    Submit,
    Reset,
    Link,
    Button,
}

impl Default for BtnType {
    fn default() -> (r: Self)
        ensures
            r == BtnType::Button,
    {
        BtnType::Button
    }
}

impl BtnType {
    /// The value of the control's `type` attribute. A link has the type of a plain button.
    pub open spec fn spec_token(self) -> Seq<char> {
        match self {
            BtnType::Submit => "submit"@,
            BtnType::Reset => "reset"@,
            BtnType::Link => "button"@,
            BtnType::Button => "button"@,
        }
    }

    /// The given value, or `Button` where none is given.
    pub open spec fn spec_or_default(value: Option<BtnType>) -> BtnType {
        match value {
            Some(v) => v,
            None => BtnType::Button,
        }
    }

    /// The value of the control's `type` attribute. A link has the type of a plain button.
    pub fn token(self) -> (s: &'static str)
        ensures
            s@ == self.spec_token(),
    {
        match self {
            BtnType::Submit => "submit",
            BtnType::Reset => "reset",
            BtnType::Link => "button",
            BtnType::Button => "button",
        }
    }

    /// The given value, or `Button` where none is given.
    pub fn or_default(value: Option<BtnType>) -> (r: BtnType)
        ensures
            r == BtnType::spec_or_default(value),
    {
        match value {
            Some(v) => v,
            None => BtnType::Button,
        }
    }
}

/// Two values of [`BtnType`] have the same token only where they are the
/// same value, or are `Link` and `Button`, which share one.
pub proof fn lemma_button_type_tokens(a: BtnType, b: BtnType)
    ensures
        a.spec_token() == b.spec_token() <==> a == b
            || (a == BtnType::Link && b == BtnType::Button)
            || (a == BtnType::Button && b == BtnType::Link),
{
    reveal_strlit("submit");
    reveal_strlit("reset");
    reveal_strlit("button");
    // Tokens are told apart by their length and by the characters named.
    let s = a.spec_token();
    let t = b.spec_token();
    assert(s == t ==> s.len() == t.len());
    assert(s == t ==> s[0] == t[0]);
}

/// The size of a button.
#[derive(Copy, Clone, Debug, PartialEq, Eq, Structural)]
pub enum BtnSize {
    Default,
    Small,
    ExtraSmall,
    Large,
    Medium,
}

impl Default for BtnSize {
    fn default() -> (r: Self)
        ensures
            r == BtnSize::Default,
    {
        BtnSize::Default
    }
}

impl BtnSize {
    /// The class token of the size. The default size is the small one.
    pub open spec fn spec_token(self) -> Seq<char> {
        match self {
            BtnSize::Default => "btn-sm"@,
            BtnSize::Small => "btn-sm"@,
            BtnSize::ExtraSmall => "btn-xs"@,
            BtnSize::Large => "btn-lg"@,
            BtnSize::Medium => "btn-md"@,
        }
    }

    /// The given value, or `Default` where none is given.
    pub open spec fn spec_or_default(value: Option<BtnSize>) -> BtnSize {
        match value {
            Some(v) => v,
            None => BtnSize::Default,
        }
    }

    /// The class token of the size. The default size is the small one.
    pub fn token(self) -> (s: &'static str)
        ensures
            s@ == self.spec_token(),
    {
        match self {
            BtnSize::Default => "btn-sm",
            BtnSize::Small => "btn-sm",
            BtnSize::ExtraSmall => "btn-xs",
            BtnSize::Large => "btn-lg",
            BtnSize::Medium => "btn-md",
        }
    }

    /// The given value, or `Default` where none is given.
    pub fn or_default(value: Option<BtnSize>) -> (r: BtnSize)
        ensures
            r == BtnSize::spec_or_default(value),
    {
        match value {
            Some(v) => v,
            None => BtnSize::Default,
        }
    }
}

/// Two values of [`BtnSize`] have the same token only where they are the
/// same value, or are `Default` and `Small`, which share one.
pub proof fn lemma_button_size_tokens(a: BtnSize, b: BtnSize)
    ensures
        a.spec_token() == b.spec_token() <==> a == b
            || (a == BtnSize::Default && b == BtnSize::Small)
            || (a == BtnSize::Small && b == BtnSize::Default),
{
    reveal_strlit("btn-sm");
    reveal_strlit("btn-xs");
    reveal_strlit("btn-lg");
    reveal_strlit("btn-md");
    // Tokens are told apart by their length and by the characters named.
    let s = a.spec_token();
    let t = b.spec_token();
    assert(s == t ==> s.len() == t.len());
    assert(s == t ==> s[4] == t[4]);
}

/// The shape of a button.
#[derive(Copy, Clone, Debug, PartialEq, Eq, Structural)]
pub enum BtnShape {
    Plain,
    Circle,
    Square,
}

impl Default for BtnShape {
    fn default() -> (r: Self)
        ensures
            r == BtnShape::Plain,
    {
        BtnShape::Plain
    }
}

impl BtnShape {
    /// The class token of the shape: empty for no shape.
    pub open spec fn spec_token(self) -> Seq<char> {
        match self {
            BtnShape::Plain => ""@,
            BtnShape::Circle => "btn-circle"@,
            BtnShape::Square => "btn-square"@,
        }
    }

    /// The given value, or `Plain` where none is given.
    pub open spec fn spec_or_default(value: Option<BtnShape>) -> BtnShape {
        match value {
            Some(v) => v,
            None => BtnShape::Plain,
        }
    }

    /// The class token of the shape: empty for no shape.
    pub fn token(self) -> (s: &'static str)
        ensures
            s@ == self.spec_token(),
    {
        match self {
            BtnShape::Plain => "",
            BtnShape::Circle => "btn-circle",
            BtnShape::Square => "btn-square",
        }
    }

    /// The given value, or `Plain` where none is given.
    pub fn or_default(value: Option<BtnShape>) -> (r: BtnShape)
        ensures
            r == BtnShape::spec_or_default(value),
    {
        match value {
            Some(v) => v,
            None => BtnShape::Plain,
        }
    }
}

/// Two values of [`BtnShape`] have the same token only where they are the
/// same value.
pub proof fn lemma_button_shape_tokens(a: BtnShape, b: BtnShape)
    ensures
        a.spec_token() == b.spec_token() <==> a == b,
{
    reveal_strlit("");
    reveal_strlit("btn-circle");
    reveal_strlit("btn-square");
    // Tokens are told apart by their length and by the characters named.
    let s = a.spec_token();
    let t = b.spec_token();
    assert(s == t ==> s.len() == t.len());
    assert(s == t && s.len() > 4 ==> s[4] == t[4]);
}

/// The emphasis of a button.
#[derive(Copy, Clone, Debug, PartialEq, Eq, Structural)]
pub enum BtnStyle {
    Plain,
    Outline,
    Dash,
    Soft,
    Transparent,
    Link,
}

impl Default for BtnStyle {
    fn default() -> (r: Self)
        ensures
            r == BtnStyle::Plain,
    {
        BtnStyle::Plain
    }
}

impl BtnStyle {
    /// The class token of the emphasis: empty for none.
    pub open spec fn spec_token(self) -> Seq<char> {
        match self {
            BtnStyle::Plain => ""@,
            BtnStyle::Outline => "btn-outline"@,
            BtnStyle::Dash => "btn-dash"@,
            BtnStyle::Soft => "btn-soft"@,
            BtnStyle::Transparent => "btn-ghost"@,
            BtnStyle::Link => "btn-link"@,
        }
    }

    /// The given value, or `Plain` where none is given.
    pub open spec fn spec_or_default(value: Option<BtnStyle>) -> BtnStyle {
        match value {
            Some(v) => v,
            None => BtnStyle::Plain,
        }
    }

    /// The class token of the emphasis: empty for none.
    pub fn token(self) -> (s: &'static str)
        ensures
            s@ == self.spec_token(),
    {
        match self {
            BtnStyle::Plain => "",
            BtnStyle::Outline => "btn-outline",
            BtnStyle::Dash => "btn-dash",
            BtnStyle::Soft => "btn-soft",
            BtnStyle::Transparent => "btn-ghost",
            BtnStyle::Link => "btn-link",
        }
    }

    /// The given value, or `Plain` where none is given.
    pub fn or_default(value: Option<BtnStyle>) -> (r: BtnStyle)
        ensures
            r == BtnStyle::spec_or_default(value),
    {
        match value {
            Some(v) => v,
            None => BtnStyle::Plain,
        }
    }
}

/// Two values of [`BtnStyle`] have the same token only where they are the
/// same value.
pub proof fn lemma_button_style_tokens(a: BtnStyle, b: BtnStyle)
    ensures
        a.spec_token() == b.spec_token() <==> a == b,
{
    reveal_strlit("");
    reveal_strlit("btn-outline");
    reveal_strlit("btn-dash");
    reveal_strlit("btn-soft");
    reveal_strlit("btn-ghost");
    reveal_strlit("btn-link");
    // Tokens are told apart by their length and by the characters named.
    let s = a.spec_token();
    let t = b.spec_token();
    assert(s == t ==> s.len() == t.len());
    assert(s == t && s.len() > 4 ==> s[4] == t[4]);
}

/// The options of a button. Only `children` has to be filled in.
#[derive(Clone, Debug, PartialEq)]
pub struct BtnProps {
    pub children: Node,
    pub id: Option<String>,
    pub disabled: Option<bool>,
    pub class: Option<String>,
    pub href: Option<String>,
    pub target: Option<String>,
    pub prefix_image_src: Option<String>,
    pub suffix_image_src: Option<String>,
    pub btn_type: Option<BtnType>,
    pub btn_size: Option<BtnSize>,
    pub btn_color: Option<BtnColor>,
    pub popover_target: Option<String>,
    pub popover_target_action: Option<String>,
    pub disabled_text: Option<String>,
    pub btn_shape: Option<BtnShape>,
    pub btn_style: Option<BtnStyle>,
}

impl BtnProps {
    /// The options of a button that holds `children`, with nothing else
    /// chosen.
    pub fn new(children: Node) -> (p: BtnProps)
        ensures
            p.children == children,
            p.id is None,
            p.disabled is None,
            p.class is None,
            p.href is None,
            p.target is None,
            p.prefix_image_src is None,
            p.suffix_image_src is None,
            p.btn_type is None,
            p.btn_size is None,
            p.btn_color is None,
            p.popover_target is None,
            p.popover_target_action is None,
            p.disabled_text is None,
            p.btn_shape is None,
            p.btn_style is None,
    {
        BtnProps {
            children,
            id: None,
            disabled: None,
            class: None,
            href: None,
            target: None,
            prefix_image_src: None,
            suffix_image_src: None,
            btn_type: None,
            btn_size: None,
            btn_color: None,
            popover_target: None,
            popover_target_action: None,
            disabled_text: None,
            btn_shape: None,
            btn_style: None,
        }
    }
}

/// The class of a button: the root token, the caller's class, then the
/// tokens of colour, size, shape and emphasis, each after one space.
pub open spec fn button_class(p: &BtnProps) -> Seq<char> {
    "btn "@ + text_or_empty(p.class) + " "@ + BtnColor::spec_or_default(p.btn_color).spec_token()
        + " "@ + BtnSize::spec_or_default(p.btn_size).spec_token() + " "@
        + BtnShape::spec_or_default(p.btn_shape).spec_token() + " "@ + BtnStyle::spec_or_default(
        p.btn_style,
    ).spec_token()
}

/// An icon: an image sixteen pixels wide.
pub open spec fn icon(src: Seq<char>) -> Markup {
    Markup::Element {
        tag: "img"@,
        attrs: seq![text_attr("src"@, src), text_attr("width"@, "16"@)],
        children: Seq::empty(),
    }
}

/// The icon of `src` where a source is given, nothing otherwise.
pub open spec fn optional_icon(src: Option<String>) -> Seq<Markup> {
    match src {
        Some(s) => seq![icon(s@)],
        None => Seq::empty(),
    }
}

/// What stands inside a button: the leading icon, the content, the
/// trailing icon.
pub open spec fn button_children(p: &BtnProps) -> Seq<Markup> {
    optional_icon(p.prefix_image_src).push(p.children@) + optional_icon(p.suffix_image_src)
}

/// Whether the button is rendered as a link.
pub open spec fn is_link(p: &BtnProps) -> bool {
    p.btn_type == Some(BtnType::Link)
}

/// The `disabled` flag, present only where the button is disabled.
pub open spec fn disabled_attr(disabled: Option<bool>) -> Seq<AttrView> {
    if disabled == Some(true) {
        seq![flag_attr("disabled"@)]
    } else {
        Seq::empty()
    }
}

/// The attributes of a button rendered as a link.
pub open spec fn link_attrs(p: &BtnProps) -> Seq<AttrView> {
    seq![text_attr("class"@, button_class(p))] + optional_attr("id"@, p.id) + optional_attr(
        "href"@,
        p.href,
    ) + optional_attr("target"@, p.target)
}

/// The attributes of a button rendered as a form control.
pub open spec fn control_attrs(p: &BtnProps) -> Seq<AttrView> {
    seq![text_attr("class"@, button_class(p))] + optional_attr("id"@, p.id) + disabled_attr(
        p.disabled,
    ) + optional_attr("data-target"@, p.popover_target) + seq![
        text_attr("type"@, BtnType::spec_or_default(p.btn_type).spec_token()),
    ] + optional_attr("data-disabled-text"@, p.disabled_text)
}

/// The markup of a button.
pub open spec fn button_markup(p: &BtnProps) -> Markup {
    if is_link(p) {
        Markup::Element { tag: "a"@, attrs: link_attrs(p), children: button_children(p) }
    } else {
        Markup::Element { tag: "button"@, attrs: control_attrs(p), children: button_children(p) }
    }
}

fn class_text(p: &BtnProps) -> (s: String)
    ensures
        s@ == button_class(p),
{
    let mut s = String::from_str("btn ");
    match &p.class {
        Some(c) => {
            s.append(c.as_str());
        },
        None => {},
    }
    s.append(" ");
    s.append(BtnColor::or_default(p.btn_color).token());
    s.append(" ");
    s.append(BtnSize::or_default(p.btn_size).token());
    s.append(" ");
    s.append(BtnShape::or_default(p.btn_shape).token());
    s.append(" ");
    s.append(BtnStyle::or_default(p.btn_style).token());
    proof {
        assert(s@ =~= button_class(p));
    }
    s
}

/// Adds the icon of `src` at the end of `nodes` where a source is given.
pub fn push_optional_icon(nodes: &mut Vec<Node>, src: &Option<String>)
    ensures
        node_views(final(nodes)@) == node_views(old(nodes)@) + optional_icon(*src),
{
    match src {
        Some(s) => {
            let mut attrs = no_attrs();
            push_text_attr(&mut attrs, "src", s.as_str());
            push_text_attr(&mut attrs, "width", "16");
            let img = Node::element("img", attrs, no_nodes());
            proof {
                assert(attr_views(attrs@) =~= seq![
                    text_attr("src"@, s@),
                    text_attr("width"@, "16"@),
                ]);
                assert(img@ == icon(s@));
            }
            push_node(nodes, img);
        },
        None => {},
    }
    proof {
        assert(node_views(nodes@) =~= node_views(old(nodes)@) + optional_icon(*src));
    }
}

/// Renders a button. With the type `Link` it is an anchor that carries
/// the destination and the target; otherwise it is a form control that
/// carries its type, the disabled flag and the two data attributes. An
/// attribute whose option is absent is left out, and so is an icon
/// without a source.
pub fn Button(props: BtnProps) -> (n: Node)
    ensures
        n@ == button_markup(&props),
{
    let class = class_text(&props);
    let mut attrs = no_attrs();
    push_text_attr(&mut attrs, "class", class.as_str());
    push_optional_attr(&mut attrs, "id", &props.id);
    let link = match props.btn_type {
        Some(BtnType::Link) => true,
        _ => false,
    };
    if link {
        push_optional_attr(&mut attrs, "href", &props.href);
        push_optional_attr(&mut attrs, "target", &props.target);
    } else {
        match props.disabled {
            Some(true) => {
                attrs.push(Attr::flag("disabled"));
            },
            _ => {},
        }
        let ghost with_disabled = attrs@;
        push_optional_attr(&mut attrs, "data-target", &props.popover_target);
        push_text_attr(&mut attrs, "type", BtnType::or_default(props.btn_type).token());
        push_optional_attr(&mut attrs, "data-disabled-text", &props.disabled_text);
        proof {
            assert(attr_views(with_disabled) =~= seq![text_attr("class"@, button_class(&props))]
                + optional_attr("id"@, props.id) + disabled_attr(props.disabled));
            assert(attr_views(attrs@) =~= control_attrs(&props));
        }
    }
    proof {
        assert(link ==> attr_views(attrs@) =~= link_attrs(&props));
    }
    let mut children = no_nodes();
    push_optional_icon(&mut children, &props.prefix_image_src);
    let BtnProps { children: inner, suffix_image_src, .. } = props;
    push_node(&mut children, inner);
    push_optional_icon(&mut children, &suffix_image_src);
    proof {
        assert(node_views(children@) =~= button_children(&props));
    }
    if link {
        Node::element("a", attrs, children)
    } else {
        Node::element("button", attrs, children)
    }
}

/// Whether two option records choose the same button: the same content,
/// and in every option the same text or value.
pub open spec fn same_options(p: &BtnProps, q: &BtnProps) -> bool {
    &&& p.children@ == q.children@
    &&& same_text(p.id, q.id)
    &&& p.disabled == q.disabled
    &&& same_text(p.class, q.class)
    &&& same_text(p.href, q.href)
    &&& same_text(p.target, q.target)
    &&& same_text(p.prefix_image_src, q.prefix_image_src)
    &&& same_text(p.suffix_image_src, q.suffix_image_src)
    &&& p.btn_type == q.btn_type
    &&& p.btn_size == q.btn_size
    &&& p.btn_color == q.btn_color
    &&& same_text(p.popover_target, q.popover_target)
    &&& same_text(p.disabled_text, q.disabled_text)
    &&& p.btn_shape == q.btn_shape
    &&& p.btn_style == q.btn_style
}

/// A button of type `Link` is an anchor whose first attribute is the
/// composed class. Where a destination is given the anchor carries it,
/// and it carries nothing of a form control. Inside stands the content, with one icon before it exactly where a
/// leading source is given and one after it exactly where a trailing
/// source is given.
pub proof fn lemma_link_is_anchor(p: &BtnProps)
    requires
        p.btn_type == Some(BtnType::Link),
    ensures
        button_markup(p) is Element,
        button_markup(p)->Element_tag == "a"@,
        button_markup(p)->Element_attrs[0] == text_attr("class"@, button_class(p)),
        p.href is Some ==> button_markup(p)->Element_attrs.contains(
            text_attr("href"@, p.href->Some_0@),
        ),
        p.href is None ==> forall|a: AttrView| #[trigger]
            button_markup(p)->Element_attrs.contains(a) ==> a.name != "href"@,
        forall|a: AttrView| #[trigger]
            button_markup(p)->Element_attrs.contains(a) ==> a.name == "class"@ || a.name == "id"@
                || a.name == "href"@ || a.name == "target"@,
        button_markup(p)->Element_children == match (p.prefix_image_src, p.suffix_image_src) {
            (None, None) => seq![p.children@],
            (Some(a), None) => seq![icon(a@), p.children@],
            (None, Some(b)) => seq![p.children@, icon(b@)],
            (Some(a), Some(b)) => seq![icon(a@), p.children@, icon(b@)],
        },
{
    reveal_strlit("href");
    reveal_strlit("class");
    reveal_strlit("id");
    reveal_strlit("target");
    assert("class"@.len() == 5 && "id"@.len() == 2 && "target"@.len() == 6 && "href"@.len() == 4);
    let attrs = button_markup(p)->Element_attrs;
    let head = seq![text_attr("class"@, button_class(p))] + optional_attr("id"@, p.id);
    assert(attrs =~= head + optional_attr("href"@, p.href) + optional_attr("target"@, p.target));
    if p.href is Some {
        assert(attrs[head.len() as int] == text_attr("href"@, p.href->Some_0@));
    }
    assert(button_markup(p)->Element_children =~= match (p.prefix_image_src, p.suffix_image_src) {
        (None, None) => seq![p.children@],
        (Some(a), None) => seq![icon(a@), p.children@],
        (None, Some(b)) => seq![p.children@, icon(b@)],
        (Some(a), Some(b)) => seq![icon(a@), p.children@, icon(b@)],
    });
}

/// A button of another type than `Link` is a form control that carries
/// its type. It carries the `disabled` flag exactly where it is disabled,
/// and the reason, as it was given, in `data-disabled-text` as its last
/// attribute exactly where a reason is given.
pub proof fn lemma_disabled_control(p: &BtnProps)
    requires
        p.btn_type != Some(BtnType::Link),
    ensures
        button_markup(p) is Element,
        button_markup(p)->Element_tag == "button"@,
        button_markup(p)->Element_attrs[0] == text_attr("class"@, button_class(p)),
        p.disabled == Some(true) ==> button_markup(p)->Element_attrs.contains(
            flag_attr("disabled"@),
        ),
        p.disabled_text is Some ==> button_markup(p)->Element_attrs.last() == text_attr(
            "data-disabled-text"@,
            p.disabled_text->Some_0@,
        ),
        button_markup(p)->Element_attrs.contains(
            text_attr("type"@, BtnType::spec_or_default(p.btn_type).spec_token()),
        ),
        p.disabled != Some(true) ==> forall|a: AttrView| #[trigger]
            button_markup(p)->Element_attrs.contains(a) ==> a.name != "disabled"@,
        p.disabled_text is None ==> forall|a: AttrView| #[trigger]
            button_markup(p)->Element_attrs.contains(a) ==> a.name != "data-disabled-text"@,
{
    reveal_strlit("class");
    reveal_strlit("id");
    reveal_strlit("disabled");
    reveal_strlit("data-target");
    reveal_strlit("type");
    reveal_strlit("data-disabled-text");
    assert("class"@.len() == 5 && "id"@.len() == 2 && "disabled"@.len() == 8 && "type"@.len() == 4
        && "data-target"@.len() == 11 && "data-disabled-text"@.len() == 18);
    let attrs = button_markup(p)->Element_attrs;
    let head = seq![text_attr("class"@, button_class(p))] + optional_attr("id"@, p.id);
    let mid = head + disabled_attr(p.disabled) + optional_attr("data-target"@, p.popover_target);
    assert(attrs =~= mid + seq![
        text_attr("type"@, BtnType::spec_or_default(p.btn_type).spec_token()),
    ] + optional_attr("data-disabled-text"@, p.disabled_text));
    assert(attrs[mid.len() as int] == text_attr(
        "type"@,
        BtnType::spec_or_default(p.btn_type).spec_token(),
    ));
    if p.disabled == Some(true) {
        assert(attrs[head.len() as int] == flag_attr("disabled"@));
    }
}

/// The class of a button is its six tokens in their fixed order, each but
/// the first after one space. Read as a list of words it holds the words
/// of each token in that order, so an empty token leaves its space behind
/// and nothing else.
pub proof fn lemma_button_class_order(p: &BtnProps)
    ensures
        button_class(p) == spaced(
            seq![
                "btn"@,
                text_or_empty(p.class),
                BtnColor::spec_or_default(p.btn_color).spec_token(),
                BtnSize::spec_or_default(p.btn_size).spec_token(),
                BtnShape::spec_or_default(p.btn_shape).spec_token(),
                BtnStyle::spec_or_default(p.btn_style).spec_token(),
            ],
            6,
        ),
        words(button_class(p)) == words_of_each(
            seq![
                "btn"@,
                text_or_empty(p.class),
                BtnColor::spec_or_default(p.btn_color).spec_token(),
                BtnSize::spec_or_default(p.btn_size).spec_token(),
                BtnShape::spec_or_default(p.btn_shape).spec_token(),
                BtnStyle::spec_or_default(p.btn_style).spec_token(),
            ],
            6,
        ),
{
    reveal_strlit("btn ");
    reveal_strlit("btn");
    reveal_strlit(" ");
    assert("btn "@ =~= "btn"@ + " "@);
    reveal_with_fuel(spaced, 7);
    let parts = seq![
        "btn"@,
        text_or_empty(p.class),
        BtnColor::spec_or_default(p.btn_color).spec_token(),
        BtnSize::spec_or_default(p.btn_size).spec_token(),
        BtnShape::spec_or_default(p.btn_shape).spec_token(),
        BtnStyle::spec_or_default(p.btn_style).spec_token(),
    ];
    assert(button_class(p) =~= spaced(parts, 6));
    lemma_words_of_spaced(parts, 6);
}

/// Two records of the same options give the same button, in the same
/// bytes.
pub proof fn lemma_button_is_determined(p: &BtnProps, q: &BtnProps)
    requires
        same_options(p, q),
    ensures
        button_markup(p) == button_markup(q),
        html(button_markup(p)) == html(button_markup(q)),
{
    assert(text_or_empty(p.class) == text_or_empty(q.class));
    assert(button_class(p) == button_class(q));
    assert(link_attrs(p) =~= link_attrs(q));
    assert(control_attrs(p) =~= control_attrs(q));
    assert(button_children(p) =~= button_children(q));
}

/// The root token and every token of a button's colour and size is one
/// word; the tokens of shape and emphasis are one word or, for `Plain`,
/// none.
pub proof fn lemma_button_tokens_are_words(
    color: BtnColor,
    size: BtnSize,
    shape: BtnShape,
    style: BtnStyle,
)
    ensures
        words("btn"@) == seq!["btn"@],
        words(color.spec_token()) == seq![color.spec_token()],
        words(size.spec_token()) == seq![size.spec_token()],
        words(shape.spec_token()) == if shape == BtnShape::Plain {
            Seq::<Seq<char>>::empty()
        } else {
            seq![shape.spec_token()]
        },
        words(style.spec_token()) == if style == BtnStyle::Plain {
            Seq::<Seq<char>>::empty()
        } else {
            seq![style.spec_token()]
        },
{
    reveal_strlit("btn");
    reveal_strlit("");
    reveal_strlit("btn-neutral");
    reveal_strlit("btn-primary");
    reveal_strlit("btn-secondary");
    reveal_strlit("btn-accent");
    reveal_strlit("btn-info");
    reveal_strlit("btn-success");
    reveal_strlit("btn-warning");
    reveal_strlit("btn-error");
    reveal_strlit("btn-sm");
    reveal_strlit("btn-xs");
    reveal_strlit("btn-lg");
    reveal_strlit("btn-md");
    reveal_strlit("btn-circle");
    reveal_strlit("btn-square");
    reveal_strlit("btn-outline");
    reveal_strlit("btn-dash");
    reveal_strlit("btn-soft");
    reveal_strlit("btn-ghost");
    reveal_strlit("btn-link");
    lemma_word_alone("btn"@);
    lemma_word_alone(color.spec_token());
    lemma_word_alone(size.spec_token());
    if shape != BtnShape::Plain {
        lemma_word_alone(shape.spec_token());
    }
    if style != BtnStyle::Plain {
        lemma_word_alone(style.spec_token());
    }
}

/// The words of `token`: the token itself, or nothing where it is empty.
pub open spec fn token_words(token: Seq<char>) -> Seq<Seq<char>> {
    if token.len() == 0 {
        Seq::empty()
    } else {
        seq![token]
    }
}

/// Read as a list of words, the class of a button is the root token, the
/// words of the caller's class, the tokens of colour and size, and then
/// the tokens of shape and emphasis where these are not empty.
pub proof fn lemma_button_class_words(p: &BtnProps)
    ensures
        words(button_class(p)) == seq!["btn"@] + words(text_or_empty(p.class)) + seq![
            BtnColor::spec_or_default(p.btn_color).spec_token(),
            BtnSize::spec_or_default(p.btn_size).spec_token(),
        ] + token_words(BtnShape::spec_or_default(p.btn_shape).spec_token()) + token_words(
            BtnStyle::spec_or_default(p.btn_style).spec_token(),
        ),
{
    let color = BtnColor::spec_or_default(p.btn_color);
    let size = BtnSize::spec_or_default(p.btn_size);
    let shape = BtnShape::spec_or_default(p.btn_shape);
    let style = BtnStyle::spec_or_default(p.btn_style);
    let parts = seq![
        "btn"@,
        text_or_empty(p.class),
        color.spec_token(),
        size.spec_token(),
        shape.spec_token(),
        style.spec_token(),
    ];
    lemma_button_class_order(p);
    lemma_button_tokens_are_words(color, size, shape, style);
    reveal_with_fuel(words_of_each, 7);
    reveal_strlit("");
    reveal_strlit("btn-circle");
    reveal_strlit("btn-square");
    reveal_strlit("btn-outline");
    reveal_strlit("btn-dash");
    reveal_strlit("btn-soft");
    reveal_strlit("btn-ghost");
    reveal_strlit("btn-link");
    assert(words_of_each(parts, 6) =~= seq!["btn"@] + words(text_or_empty(p.class)) + seq![
        color.spec_token(),
        size.spec_token(),
    ] + token_words(shape.spec_token()) + token_words(style.spec_token()));
}

} // verus!
