//! The markup tree that the widgets produce, and its mathematical model.
use vstd::prelude::*;
use vstd::string::*;

verus! {

/// The value of an attribute: quoted text, or a flag that is set.
#[derive(Debug, PartialEq, Eq)]
pub enum AttrValue {
    Text(String),
    /// A flag that is set. A flag that is not set is no attribute at all.
    Flag,
}

/// One attribute of an element.
#[derive(Debug, PartialEq, Eq)]
pub struct Attr {
    pub name: String,
    pub value: AttrValue,
}

/// A markup tree: text, an element, or a run of sibling trees.
#[derive(Debug, PartialEq, Eq)]
pub enum Node {
    Text(String),
    Element { tag: String, attrs: Vec<Attr>, children: Vec<Node> },
    Fragment(Vec<Node>),
    /// A place left open for content that the embedding host supplies.
    Slot,
}

/// Model of [`AttrValue`].
pub enum AttrValueView {
    Text(Seq<char>),
    Flag,
}

/// Model of [`Attr`].
pub struct AttrView {
    pub name: Seq<char>,
    pub value: AttrValueView,
}

/// Model of [`Node`].
pub enum Markup {
    Text(Seq<char>),
    Element { tag: Seq<char>, attrs: Seq<AttrView>, children: Seq<Markup> },
    Fragment(Seq<Markup>),
    Slot,
}

impl View for AttrValue {
    type V = AttrValueView;

    open spec fn view(&self) -> AttrValueView {
        match self {
            AttrValue::Text(s) => AttrValueView::Text(s@),
            AttrValue::Flag => AttrValueView::Flag,
        }
    }
}

impl View for Attr {
    type V = AttrView;

    open spec fn view(&self) -> AttrView {
        AttrView { name: self.name@, value: self.value@ }
    }
}

/// The models of the attributes in `attrs`, in order.
pub open spec fn attr_views(attrs: Seq<Attr>) -> Seq<AttrView> {
    Seq::new(attrs.len(), |i: int| attrs[i]@)
}

/// The models of the trees in `nodes`, in order.
pub open spec fn node_views(nodes: Seq<Node>) -> Seq<Markup> {
    Seq::new(nodes.len(), |i: int| nodes[i]@)
}

impl View for Node {
    type V = Markup;

    open spec fn view(&self) -> Markup
        decreases self,
    {
        match self {
            Node::Text(s) => Markup::Text(s@),
            Node::Element { tag, attrs, children } => Markup::Element {
                tag: tag@,
                attrs: attr_views(attrs@),
                children: Seq::new(
                    children.len() as nat,
                    |i: int|
                        if 0 <= i < children.len() {
                            children[i].view()
                        } else {
                            Markup::Fragment(Seq::empty())
                        },
                ),
            },
            Node::Slot => Markup::Slot,
            Node::Fragment(nodes) => Markup::Fragment(
                Seq::new(
                    nodes.len() as nat,
                    |i: int|
                        if 0 <= i < nodes.len() {
                            nodes[i].view()
                        } else {
                            Markup::Fragment(Seq::empty())
                        },
                ),
            ),
        }
    }
}

/// The model of a text attribute.
pub open spec fn text_attr(name: Seq<char>, value: Seq<char>) -> AttrView {
    AttrView { name, value: AttrValueView::Text(value) }
}

/// The model of a flag that is set.
pub open spec fn flag_attr(name: Seq<char>) -> AttrView {
    AttrView { name, value: AttrValueView::Flag }
}

/// The model of an element.
pub open spec fn element(tag: Seq<char>, attrs: Seq<AttrView>, children: Seq<Markup>) -> Markup {
    Markup::Element { tag, attrs, children }
}

/// The model of an element that holds nothing but `text`.
pub open spec fn text_element(tag: Seq<char>, attrs: Seq<AttrView>, text: Seq<char>) -> Markup {
    Markup::Element { tag, attrs, children: seq![Markup::Text(text)] }
}

/// The text of `value`, or no text where there is none.
pub open spec fn text_or_empty(value: Option<String>) -> Seq<char> {
    match value {
        Some(s) => s@,
        None => Seq::empty(),
    }
}

/// A text attribute named `name` where `value` is present, nothing otherwise.
pub open spec fn optional_attr(name: Seq<char>, value: Option<String>) -> Seq<AttrView> {
    match value {
        Some(s) => seq![text_attr(name, s@)],
        None => Seq::empty(),
    }
}

/// Whether two optional texts are both absent, or both present and the
/// same.
pub open spec fn same_text(a: Option<String>, b: Option<String>) -> bool {
    match (a, b) {
        (Some(x), Some(y)) => x@ == y@,
        (None, None) => true,
        _ => false,
    }
}

impl Attr {
    /// An attribute with a text value.
    pub fn text(name: &str, value: String) -> (a: Attr)
        ensures
            a@ == (AttrView { name: name@, value: AttrValueView::Text(value@) }),
    {
        Attr { name: String::from_str(name), value: AttrValue::Text(value) }
    }

    /// A flag that is set.
    pub fn flag(name: &str) -> (a: Attr)
        ensures
            a@ == (AttrView { name: name@, value: AttrValueView::Flag }),
    {
        Attr { name: String::from_str(name), value: AttrValue::Flag }
    }
}

impl Node {
    /// A text node that reads `text`.
    pub fn text(text: &str) -> (n: Node)
        ensures
            n@ == Markup::Text(text@),
    {
        Node::Text(String::from_str(text))
    }

    /// An element with the given tag, attributes and children.
    pub fn element(tag: &str, attrs: Vec<Attr>, children: Vec<Node>) -> (n: Node)
        ensures
            n@ == (Markup::Element {
                tag: tag@,
                attrs: attr_views(attrs@),
                children: node_views(children@),
            }),
    {
        let n = Node::Element { tag: String::from_str(tag), attrs, children };
        proof {
            assert(n@->Element_children =~= node_views(children@));
        }
        n
    }

    /// The trees of `nodes` as siblings.
    pub fn fragment(nodes: Vec<Node>) -> (n: Node)
        ensures
            n@ == Markup::Fragment(node_views(nodes@)),
    {
        let n = Node::Fragment(nodes);
        proof {
            assert(n@->Fragment_0 =~= node_views(nodes@));
        }
        n
    }
}

/// An element that holds nothing but `text`.
pub fn text_node(tag: &str, attrs: Vec<Attr>, text: &str) -> (n: Node)
    ensures
        n@ == text_element(tag@, attr_views(attrs@), text@),
{
    Node::element(tag, attrs, one_node(Node::text(text)))
}

/// An empty list of attributes.
pub fn no_attrs() -> (attrs: Vec<Attr>)
    ensures
        attrs@.len() == 0,
        attr_views(attrs@) == Seq::<AttrView>::empty(),
{
    let attrs = Vec::new();
    proof {
        assert(attr_views(attrs@) =~= Seq::<AttrView>::empty());
    }
    attrs
}

/// Adds the text attribute `name="value"` at the end of `attrs`.
pub fn push_text_attr(attrs: &mut Vec<Attr>, name: &str, value: &str)
    ensures
        attr_views(final(attrs)@) == attr_views(old(attrs)@).push(text_attr(name@, value@)),
{
    attrs.push(Attr::text(name, String::from_str(value)));
    proof {
        assert(attr_views(attrs@) =~= attr_views(old(attrs)@).push(text_attr(name@, value@)));
    }
}

/// Adds the text attribute `name` at the end of `attrs` where `value` is
/// present, and leaves `attrs` as it is otherwise.
pub fn push_optional_attr(attrs: &mut Vec<Attr>, name: &str, value: &Option<String>)
    ensures
        attr_views(final(attrs)@) == attr_views(old(attrs)@) + optional_attr(name@, *value),
{
    match value {
        Some(s) => {
            attrs.push(Attr::text(name, s.clone()));
        },
        None => {},
    }
    proof {
        assert(attr_views(attrs@) =~= attr_views(old(attrs)@) + optional_attr(name@, *value));
    }
}

/// A list of one text attribute.
pub fn one_attr(name: &str, value: &str) -> (attrs: Vec<Attr>)
    ensures
        attr_views(attrs@) == seq![text_attr(name@, value@)],
{
    let mut attrs = no_attrs();
    push_text_attr(&mut attrs, name, value);
    attrs
}

/// A list of two text attributes.
pub fn two_attrs(name0: &str, value0: &str, name1: &str, value1: &str) -> (attrs: Vec<Attr>)
    ensures
        attr_views(attrs@) == seq![text_attr(name0@, value0@), text_attr(name1@, value1@)],
{
    let mut attrs = one_attr(name0, value0);
    push_text_attr(&mut attrs, name1, value1);
    attrs
}

/// A list of three text attributes.
pub fn three_attrs(
    name0: &str,
    value0: &str,
    name1: &str,
    value1: &str,
    name2: &str,
    value2: &str,
) -> (attrs: Vec<Attr>)
    ensures
        attr_views(attrs@) == seq![
            text_attr(name0@, value0@),
            text_attr(name1@, value1@),
            text_attr(name2@, value2@),
        ],
{
    let mut attrs = two_attrs(name0, value0, name1, value1);
    push_text_attr(&mut attrs, name2, value2);
    attrs
}

/// An empty list of trees.
pub fn no_nodes() -> (nodes: Vec<Node>)
    ensures
        nodes@.len() == 0,
        node_views(nodes@) == Seq::<Markup>::empty(),
{
    let nodes = Vec::new();
    proof {
        assert(node_views(nodes@) =~= Seq::<Markup>::empty());
    }
    nodes
}

/// Adds `node` at the end of `nodes`.
pub fn push_node(nodes: &mut Vec<Node>, node: Node)
    ensures
        node_views(final(nodes)@) == node_views(old(nodes)@).push(node@),
{
    nodes.push(node);
    proof {
        assert(node_views(nodes@) =~= node_views(old(nodes)@).push(node@));
    }
}

/// A list of one tree.
pub fn one_node(first: Node) -> (nodes: Vec<Node>)
    ensures
        node_views(nodes@) == seq![first@],
{
    let mut nodes = no_nodes();
    push_node(&mut nodes, first);
    nodes
}

/// A list of two trees.
pub fn two_nodes(first: Node, second: Node) -> (nodes: Vec<Node>)
    ensures
        node_views(nodes@) == seq![first@, second@],
{
    let mut nodes = one_node(first);
    push_node(&mut nodes, second);
    nodes
}

/// A list of three trees.
pub fn three_nodes(first: Node, second: Node, third: Node) -> (nodes: Vec<Node>)
    ensures
        node_views(nodes@) == seq![first@, second@, third@],
{
    let mut nodes = two_nodes(first, second);
    push_node(&mut nodes, third);
    nodes
}

impl Clone for AttrValue {
    fn clone(&self) -> (res: Self)
        ensures
            res@ == self@,
    {
        match self {
            AttrValue::Text(s) => AttrValue::Text(s.clone()),
            AttrValue::Flag => AttrValue::Flag,
        }
    }
}

impl Clone for Attr {
    fn clone(&self) -> (res: Self)
        ensures
            res@ == self@,
    {
        Attr { name: self.name.clone(), value: self.value.clone() }
    }
}

/// A copy of the attributes, in order.
fn clone_attrs(attrs: &Vec<Attr>) -> (res: Vec<Attr>)
    ensures
        attr_views(res@) == attr_views(attrs@),
{
    let mut res: Vec<Attr> = Vec::new();
    let mut i: usize = 0;
    while i < attrs.len()
        invariant
            i <= attrs.len(),
            res@.len() == i,
            forall|j: int| 0 <= j < i ==> res@[j]@ == attrs@[j]@,
        decreases attrs.len() - i,
    {
        res.push(attrs[i].clone());
        i += 1;
    }
    proof {
        assert(attr_views(res@) =~= attr_views(attrs@));
    }
    res
}

/// A copy of the trees, in order.
fn clone_nodes(nodes: &Vec<Node>) -> (res: Vec<Node>)
    ensures
        node_views(res@) == node_views(nodes@),
    decreases nodes, 0nat,
{
    let mut res: Vec<Node> = Vec::new();
    let mut i: usize = 0;
    while i < nodes.len()
        invariant
            i <= nodes.len(),
            res@.len() == i,
            forall|j: int| 0 <= j < i ==> res@[j]@ == nodes@[j]@,
        decreases nodes.len() - i,
    {
        res.push(nodes[i].clone());
        i += 1;
    }
    proof {
        assert(node_views(res@) =~= node_views(nodes@));
    }
    res
}

impl Clone for Node {
    fn clone(&self) -> (res: Self)
        ensures
            res@ == self@,
        decreases self, 1nat,
    {
        match self {
            Node::Text(s) => Node::Text(s.clone()),
            Node::Element { tag, attrs, children } => {
                let res = Node::Element {
                    tag: tag.clone(),
                    attrs: clone_attrs(attrs),
                    children: clone_nodes(children),
                };
                proof {
                    assert(self@->Element_children =~= node_views(children@));
                    assert(res@->Element_children =~= node_views(children@));
                }
                res
            },
            Node::Fragment(nodes) => {
                let res = Node::Fragment(clone_nodes(nodes));
                proof {
                    assert(self@->Fragment_0 =~= node_views(nodes@));
                    assert(res@->Fragment_0 =~= node_views(nodes@));
                }
                res
            },
            Node::Slot => Node::Slot,
        }
    }
}

} // verus!
