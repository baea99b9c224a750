//! The dropdown: a container with a trigger and a menu, and the links
//! that stand in such a menu.
use crate::class_list::{lemma_words_of_spaced, spaced, words, words_of_each};
use crate::html::html;
use crate::markup::{
    attr_views, element, no_attrs, no_nodes, one_attr, one_node, optional_attr,
    push_optional_attr, push_text_attr, same_text, text_attr, text_element, text_node,
    text_or_empty, three_attrs, three_nodes, two_attrs, two_nodes, AttrView, Markup, Node,
};
use vstd::prelude::*;
use vstd::string::*;

verus! {

/// Where a dropdown opens.
#[derive(Copy, Clone, Debug, PartialEq, Eq, Structural)]
pub enum Direction {
    Unset,
    Start,
    Center,
    End,
    Top,
    Bottom,
    Left,
    Right,
}

impl Default for Direction {
    fn default() -> (r: Self)
        ensures
            r == Direction::Unset,
    {
        Direction::Unset
    }
}

impl Direction {
    /// The class token of the direction. With no direction the dropdown opens downwards.
    pub open spec fn spec_token(self) -> Seq<char> {
        match self {
            Direction::Unset => "dropdown-bottom"@,
            Direction::Start => "dropdown-start"@,
            Direction::Center => "dropdown-center"@,
            Direction::End => "dropdown-end"@,
            Direction::Top => "dropdown-top"@,
            Direction::Bottom => "dropdown-bottom"@,
            Direction::Left => "dropdown-left"@,
            Direction::Right => "dropdown-right"@,
        }
    }

    /// The given value, or `Unset` where none is given.
    pub open spec fn spec_or_default(value: Option<Direction>) -> Direction {
        match value {
            Some(v) => v,
            None => Direction::Unset,
        }
    }

    /// The class token of the direction. With no direction the dropdown opens downwards.
    pub fn token(self) -> (s: &'static str)
        ensures
            s@ == self.spec_token(),
    {
        match self {
            Direction::Unset => "dropdown-bottom",
            Direction::Start => "dropdown-start",
            Direction::Center => "dropdown-center",
            Direction::End => "dropdown-end",
            Direction::Top => "dropdown-top",
            Direction::Bottom => "dropdown-bottom",
            Direction::Left => "dropdown-left",
            Direction::Right => "dropdown-right",
        }
    }

    /// The given value, or `Unset` where none is given.
    pub fn or_default(value: Option<Direction>) -> (r: Direction)
        ensures
            r == Direction::spec_or_default(value),
    {
        match value {
            Some(v) => v,
            None => Direction::Unset,
        }
    }
}

/// Two values of [`Direction`] have the same token only where they are the
/// same value, or are `Unset` and `Bottom`, which share one.
pub proof fn lemma_direction_tokens(a: Direction, b: Direction)
    ensures
        a.spec_token() == b.spec_token() <==> a == b
            || (a == Direction::Unset && b == Direction::Bottom)
            || (a == Direction::Bottom && b == Direction::Unset),
{
    reveal_strlit("dropdown-bottom");
    reveal_strlit("dropdown-start");
    reveal_strlit("dropdown-center");
    reveal_strlit("dropdown-end");
    reveal_strlit("dropdown-top");
    reveal_strlit("dropdown-left");
    reveal_strlit("dropdown-right");
    // Tokens are told apart by their length and by the characters named.
    let s = a.spec_token();
    let t = b.spec_token();
    assert(s == t ==> s.len() == t.len());
    assert(s == t ==> s[9] == t[9]);
}

/// The options of a dropdown.
#[derive(Clone, Debug, PartialEq)]
pub struct DropDownProps {
    pub child: Node,
    pub haver: Option<bool>,
    pub carat: Option<bool>,
    pub btn_text: String,
    pub class: Option<String>,
    pub direction: Option<Direction>,
    pub prefix_image_src: Option<String>,
    pub suffix_image_src: Option<String>,
}

impl DropDownProps {
    /// The options of a dropdown with the given label and content, with
    /// nothing else chosen.
    pub fn new(btn_text: String, child: Node) -> (p: DropDownProps)
        ensures
            p.btn_text == btn_text,
            p.child == child,
            p.haver is None,
            p.carat is None,
            p.class is None,
            p.direction is None,
            p.prefix_image_src is None,
            p.suffix_image_src is None,
    {
        DropDownProps {
            child,
            haver: None,
            carat: None,
            btn_text,
            class: None,
            direction: None,
            prefix_image_src: None,
            suffix_image_src: None,
        }
    }
}

/// The token that lets a dropdown open on hover: present only where the
/// option is set and true.
pub open spec fn hover_token(haver: Option<bool>) -> Seq<char> {
    if haver == Some(true) {
        "dropdown-hover"@
    } else {
        ""@
    }
}

/// The class of a dropdown: the root token, the caller's class, the hover
/// token and the direction token, in this order. The caller's class and
/// the hover token stand between spaces of their own, so the class holds
/// runs of spaces where either is empty.
pub open spec fn dropdown_class(p: &DropDownProps) -> Seq<char> {
    "dropdown  "@ + text_or_empty(p.class) + " "@ + hover_token(p.haver) + "  "@
        + Direction::spec_or_default(p.direction).spec_token()
}

/// One entry of the menu.
pub open spec fn menu_item(label: Seq<char>) -> Markup {
    element("li"@, Seq::empty(), seq![text_element("a"@, Seq::empty(), label)])
}

/// The trigger of a dropdown.
pub open spec fn dropdown_trigger() -> Markup {
    text_element(
        "div"@,
        seq![
            text_attr("tabindex"@, "0"@),
            text_attr("role"@, "button"@),
            text_attr("class"@, "btn m-1"@),
        ],
        "Click"@,
    )
}

/// The menu of a dropdown.
pub open spec fn dropdown_menu() -> Markup {
    element(
        "ul"@,
        seq![
            text_attr("tabindex"@, "0"@),
            text_attr(
                "class"@,
                "dropdown-content menu bg-base-100 rounded-box z-1 w-52 p-2 shadow-sm"@,
            ),
        ],
        seq![menu_item("Item 1"@), menu_item("Item 2"@), menu_item("Item 3"@)],
    )
}

/// The markup of a dropdown.
pub open spec fn dropdown_markup(p: &DropDownProps) -> Markup {
    element(
        "div"@,
        seq![text_attr("class"@, dropdown_class(p))],
        seq![dropdown_trigger(), dropdown_menu()],
    )
}

fn class_text(p: &DropDownProps) -> (s: String)
    ensures
        s@ == dropdown_class(p),
{
    let mut s = String::from_str("dropdown  ");
    match &p.class {
        Some(c) => {
            s.append(c.as_str());
        },
        None => {},
    }
    s.append(" ");
    match p.haver {
        Some(true) => {
            s.append("dropdown-hover");
        },
        _ => {
            s.append("");
        },
    }
    s.append("  ");
    s.append(Direction::or_default(p.direction).token());
    proof {
        assert(s@ =~= dropdown_class(p));
    }
    s
}

fn item(label: &str) -> (n: Node)
    ensures
        n@ == menu_item(label@),
{
    Node::element("li", no_attrs(), one_node(text_node("a", no_attrs(), label)))
}

/// Renders a dropdown: a container whose class is composed from the
/// options, holding the fixed trigger and the fixed menu.
pub fn DropDown(props: DropDownProps) -> (n: Node)
    ensures
        n@ == dropdown_markup(&props),
{
    let class = class_text(&props);
    let trigger = text_node("div", three_attrs("tabindex", "0", "role", "button", "class", "btn m-1"), "Click");
    let menu = Node::element(
        "ul",
        two_attrs(
            "tabindex",
            "0",
            "class",
            "dropdown-content menu bg-base-100 rounded-box z-1 w-52 p-2 shadow-sm",
        ),
        three_nodes(item("Item 1"), item("Item 2"), item("Item 3")),
    );
    Node::element("div", one_attr("class", class.as_str()), two_nodes(trigger, menu))
}

/// Renders nothing, whatever the options.
pub fn DropDown1(props: DropDownProps) -> (n: Node)
    ensures
        n@ == Markup::Fragment(Seq::empty()),
{
    Node::fragment(no_nodes())
}

/// The options of a link in a dropdown's menu.
#[derive(Clone, Debug, PartialEq)]
pub struct DropDownLinkProps {
    pub href: String,
    pub target: Option<String>,
    pub popover_target: Option<String>,
    pub class: Option<String>,
    pub children: Node,
}

impl DropDownLinkProps {
    /// The options of a menu link to `href` that holds `children`, with
    /// nothing else chosen.
    pub fn new(href: String, children: Node) -> (p: DropDownLinkProps)
        ensures
            p.href == href,
            p.children == children,
            p.target is None,
            p.popover_target is None,
            p.class is None,
    {
        DropDownLinkProps { href, target: None, popover_target: None, class: None, children }
    }
}

/// The class of a menu link: the item token, one space, the caller's class.
pub open spec fn dropdown_link_class(p: &DropDownLinkProps) -> Seq<char> {
    "dropdown-item "@ + text_or_empty(p.class)
}

/// The attributes of a menu link. The trigger's target is carried only
/// where one is given, and so is the window target.
pub open spec fn dropdown_link_attrs(p: &DropDownLinkProps) -> Seq<AttrView> {
    seq![text_attr("class"@, dropdown_link_class(p))] + optional_attr(
        "data-target"@,
        p.popover_target,
    ) + optional_attr("target"@, p.target) + seq![text_attr("href"@, p.href@)]
}

/// The markup of a menu link: a list item around an anchor around the
/// content.
pub open spec fn dropdown_link_markup(p: &DropDownLinkProps) -> Markup {
    element(
        "li"@,
        Seq::empty(),
        seq![element("a"@, dropdown_link_attrs(p), seq![p.children@])],
    )
}

/// Renders a link of a dropdown's menu.
pub fn DropDownLink(props: DropDownLinkProps) -> (n: Node)
    ensures
        n@ == dropdown_link_markup(&props),
{
    let mut class = String::from_str("dropdown-item ");
    match &props.class {
        Some(c) => {
            class.append(c.as_str());
        },
        None => {},
    }
    proof {
        assert(class@ =~= dropdown_link_class(&props));
    }
    let mut attrs = one_attr("class", class.as_str());
    push_optional_attr(&mut attrs, "data-target", &props.popover_target);
    push_optional_attr(&mut attrs, "target", &props.target);
    push_text_attr(&mut attrs, "href", props.href.as_str());
    proof {
        assert(attr_views(attrs@) =~= dropdown_link_attrs(&props));
    }
    let anchor = Node::element("a", attrs, one_node(props.children));
    Node::element("li", no_attrs(), one_node(anchor))
}

/// The class of a dropdown is the root token, the caller's class, the
/// hover token and the direction token in this order, with an empty token
/// before and after the middle two, and one space between neighbours.
/// Read as a list of words it holds the words of the four and no others.
pub proof fn lemma_dropdown_class_order(p: &DropDownProps)
    ensures
        dropdown_class(p) == spaced(
            seq![
                "dropdown"@,
                Seq::<char>::empty(),
                text_or_empty(p.class),
                hover_token(p.haver),
                Seq::<char>::empty(),
                Direction::spec_or_default(p.direction).spec_token(),
            ],
            6,
        ),
        words(dropdown_class(p)) == words("dropdown"@) + words(text_or_empty(p.class)) + words(
            hover_token(p.haver),
        ) + words(Direction::spec_or_default(p.direction).spec_token()),
{
    reveal_strlit("dropdown  ");
    reveal_strlit("dropdown");
    reveal_strlit("  ");
    reveal_strlit(" ");
    assert("dropdown  "@ =~= "dropdown"@ + " "@ + Seq::<char>::empty() + " "@);
    assert("  "@ =~= " "@ + Seq::<char>::empty() + " "@);
    reveal_with_fuel(spaced, 7);
    let parts = seq![
        "dropdown"@,
        Seq::<char>::empty(),
        text_or_empty(p.class),
        hover_token(p.haver),
        Seq::<char>::empty(),
        Direction::spec_or_default(p.direction).spec_token(),
    ];
    assert(dropdown_class(p) =~= spaced(parts, 6));
    lemma_words_of_spaced(parts, 6);
    reveal_with_fuel(words_of_each, 7);
    assert(words(Seq::<char>::empty()) =~= Seq::<Seq<char>>::empty());
    assert(words_of_each(parts, 6) =~= words("dropdown"@) + words(text_or_empty(p.class)) + words(
        hover_token(p.haver),
    ) + words(Direction::spec_or_default(p.direction).spec_token()));
}

/// A menu link carries the trigger's target exactly where one is given.
pub proof fn lemma_dropdown_link_target(p: &DropDownLinkProps)
    ensures
        dropdown_link_attrs(p)[0] == text_attr("class"@, dropdown_link_class(p)),
        dropdown_link_attrs(p).last() == text_attr("href"@, p.href@),
        p.popover_target is Some ==> dropdown_link_attrs(p)[1] == text_attr(
            "data-target"@,
            p.popover_target->Some_0@,
        ),
        p.popover_target is None ==> forall|a: AttrView| #[trigger]
            dropdown_link_attrs(p).contains(a) ==> a.name != "data-target"@,
{
    reveal_strlit("data-target");
    reveal_strlit("class");
    reveal_strlit("target");
    reveal_strlit("href");
    assert("class"@.len() == 5 && "href"@.len() == 4 && "target"@.len() == 6 && "data-target"@.len()
        == 11);
}

/// Two records that agree in class, hover flag and direction give the
/// same dropdown, in the same bytes: nothing else is read.
pub proof fn lemma_dropdown_is_determined(p: &DropDownProps, q: &DropDownProps)
    requires
        same_text(p.class, q.class),
        p.haver == q.haver,
        p.direction == q.direction,
    ensures
        dropdown_markup(p) == dropdown_markup(q),
        html(dropdown_markup(p)) == html(dropdown_markup(q)),
{
    assert(text_or_empty(p.class) == text_or_empty(q.class));
    assert(dropdown_class(p) == dropdown_class(q));
}

} // verus!
