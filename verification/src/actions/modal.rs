//! The dialog, in its three forms, and the two wrappers that stand in one.
use crate::actions::button::BtnColor;
use crate::markup::{
    element, no_attrs, no_nodes, one_attr, one_node, text_attr, text_element, text_node,
    text_or_empty, three_attrs, three_nodes, two_attrs, two_nodes, Markup, Node,
};
use vstd::prelude::*;
use vstd::string::*;

verus! {

/// How a dialog is opened and closed.
#[derive(Copy, Clone, Debug, PartialEq, Eq, Structural)]
pub enum DialogType {
    /// A native dialog element, opened and closed by the host.
    Default,
    /// A hidden checkbox holds the state, and two labels toggle it.
    Checkbox,
    /// The dialog shows while the address names it.
    AnchorLink,
}

impl Default for DialogType {
    fn default() -> (r: Self)
        ensures
            r == DialogType::Default,
    {
        DialogType::Default
    }
}

/// The options of a dialog.
#[derive(Clone, Debug, PartialEq)]
pub struct ModalProps {
    pub trigger_id: String,
    pub submit_action: String,
    pub class: String,
    pub btn_color: BtnColor,
    pub modal_type: DialogType,
    pub children: Node,
}

impl ModalProps {
    /// The options with nothing chosen: empty texts, the colour `Info`,
    /// and the checkbox form.
    pub fn new(children: Node) -> (p: ModalProps)
        ensures
            p.trigger_id@ == Seq::<char>::empty(),
            p.submit_action@ == Seq::<char>::empty(),
            p.class@ == Seq::<char>::empty(),
            p.btn_color == BtnColor::Info,
            p.modal_type == DialogType::Checkbox,
            p.children == children,
            modal_markup(p.modal_type) == checkbox_dialog(),
    {
        ModalProps {
            trigger_id: String::new(),
            submit_action: String::new(),
            class: String::new(),
            btn_color: BtnColor::Info,
            modal_type: DialogType::Checkbox,
            children,
        }
    }
}

/// The heading of a dialog's box.
pub open spec fn heading_markup(title: Seq<char>) -> Markup {
    text_element("h3"@, seq![text_attr("class"@, "text-lg font-bold"@)], title)
}

/// A paragraph of a dialog's box.
pub open spec fn paragraph_markup(body: Seq<char>) -> Markup {
    text_element("p"@, seq![text_attr("class"@, "py-4"@)], body)
}

/// The native form: a dialog element with its box, and a form whose
/// button dismisses it.
pub open spec fn native_dialog() -> Markup {
    element(
        "dialog"@,
        seq![text_attr("id"@, "my_modal_2"@), text_attr("class"@, "modal"@)],
        seq![
            element(
                "div"@,
                seq![text_attr("class"@, "modal-box"@)],
                seq![
                    heading_markup("Hello!"@),
                    paragraph_markup("Press ESC key or click outside to close"@),
                ],
            ),
            element(
                "form"@,
                seq![text_attr("method"@, "dialog"@), text_attr("class"@, "modal-backdrop"@)],
                seq![text_element("button"@, Seq::empty(), "close"@)],
            ),
        ],
    )
}

/// The checkbox form: a label that opens, the hidden checkbox, and the
/// dialog with a label that closes.
pub open spec fn checkbox_dialog() -> Markup {
    Markup::Fragment(
        seq![
            text_element(
                "label"@,
                seq![text_attr("for"@, "my_modal_7"@), text_attr("class"@, "btn"@)],
                "Open"@,
            ),
            element(
                "input"@,
                seq![
                    text_attr("type"@, "checkbox"@),
                    text_attr("class"@, "modal-toggle"@),
                    text_attr("id"@, "my_modal_7"@),
                ],
                Seq::empty(),
            ),
            element(
                "div"@,
                seq![text_attr("role"@, "dialog"@), text_attr("class"@, "modal"@)],
                seq![
                    element(
                        "div"@,
                        seq![text_attr("class"@, "modal-box"@)],
                        seq![heading_markup("Title"@), paragraph_markup("content ....."@)],
                    ),
                    text_element(
                        "label"@,
                        seq![
                            text_attr("for"@, "my_modal_7"@),
                            text_attr("class"@, "modal-backdrop"@),
                        ],
                        "Close"@,
                    ),
                ],
            ),
        ],
    )
}

/// The anchor form: a link to the dialog's fragment, and the dialog that
/// carries the fragment's identifier and a link that leaves it.
pub open spec fn anchor_dialog() -> Markup {
    Markup::Fragment(
        seq![
            text_element(
                "a"@,
                seq![text_attr("href"@, "#my_modal_8"@), text_attr("class"@, "btn"@)],
                "Open"@,
            ),
            element(
                "div"@,
                seq![
                    text_attr("role"@, "dialog"@),
                    text_attr("class"@, "modal"@),
                    text_attr("id"@, "my_modal_8"@),
                ],
                seq![
                    element(
                        "div"@,
                        seq![text_attr("class"@, "modal-box"@)],
                        seq![
                            heading_markup("Title"@),
                            paragraph_markup("This modal works with anchor links"@),
                            element(
                                "div"@,
                                seq![text_attr("class"@, "modal-action"@)],
                                seq![
                                    text_element(
                                        "a"@,
                                        seq![
                                            text_attr("href"@, "#"@),
                                            text_attr("class"@, "btn"@),
                                        ],
                                        "Yal!"@,
                                    ),
                                ],
                            ),
                        ],
                    ),
                ],
            ),
        ],
    )
}

/// The markup of a dialog of the given form.
pub open spec fn modal_markup(modal_type: DialogType) -> Markup {
    match modal_type {
        DialogType::Default => native_dialog(),
        DialogType::Checkbox => checkbox_dialog(),
        DialogType::AnchorLink => anchor_dialog(),
    }
}

fn heading(title: &str) -> (n: Node)
    ensures
        n@ == heading_markup(title@),
{
    text_node("h3", one_attr("class", "text-lg font-bold"), title)
}

fn paragraph(body: &str) -> (n: Node)
    ensures
        n@ == paragraph_markup(body@),
{
    text_node("p", one_attr("class", "py-4"), body)
}

/// Renders a dialog in the form that the options choose.
pub fn Modal(props: ModalProps) -> (n: Node)
    ensures
        n@ == modal_markup(props.modal_type),
{
    match props.modal_type {
        DialogType::Default => Default(props),
        DialogType::AnchorLink => AnchorLink(props),
        DialogType::Checkbox => Checkbox(props),
    }
}

/// Renders the native form.
pub fn Default(props: ModalProps) -> (n: Node)
    ensures
        n@ == native_dialog(),
{
    let inner = Node::element(
        "div",
        one_attr("class", "modal-box"),
        two_nodes(heading("Hello!"), paragraph("Press ESC key or click outside to close")),
    );
    let dismiss = Node::element(
        "form",
        two_attrs("method", "dialog", "class", "modal-backdrop"),
        one_node(text_node("button", no_attrs(), "close")),
    );
    Node::element(
        "dialog",
        two_attrs("id", "my_modal_2", "class", "modal"),
        two_nodes(inner, dismiss),
    )
}

/// Renders the checkbox form.
pub fn Checkbox(props: ModalProps) -> (n: Node)
    ensures
        n@ == checkbox_dialog(),
{
    let opener = text_node("label", two_attrs("for", "my_modal_7", "class", "btn"), "Open");
    let toggle = Node::element(
        "input",
        three_attrs("type", "checkbox", "class", "modal-toggle", "id", "my_modal_7"),
        no_nodes(),
    );
    let inner = Node::element(
        "div",
        one_attr("class", "modal-box"),
        two_nodes(heading("Title"), paragraph("content .....")),
    );
    let closer = text_node(
        "label",
        two_attrs("for", "my_modal_7", "class", "modal-backdrop"),
        "Close",
    );
    let dialog = Node::element(
        "div",
        two_attrs("role", "dialog", "class", "modal"),
        two_nodes(inner, closer),
    );
    Node::fragment(three_nodes(opener, toggle, dialog))
}

/// Renders the anchor form.
pub fn AnchorLink(props: ModalProps) -> (n: Node)
    ensures
        n@ == anchor_dialog(),
{
    let opener = text_node("a", two_attrs("href", "#my_modal_8", "class", "btn"), "Open");
    let leave = Node::element(
        "div",
        one_attr("class", "modal-action"),
        one_node(text_node("a", two_attrs("href", "#", "class", "btn"), "Yal!")),
    );
    let inner = Node::element(
        "div",
        one_attr("class", "modal-box"),
        three_nodes(heading("Title"), paragraph("This modal works with anchor links"), leave),
    );
    let dialog = Node::element(
        "div",
        three_attrs("role", "dialog", "class", "modal", "id", "my_modal_8"),
        one_node(inner),
    );
    Node::fragment(two_nodes(opener, dialog))
}

/// Renders nothing, whatever the options.
pub fn Modal_1(props: ModalProps) -> (n: Node)
    ensures
        n@ == Markup::Fragment(Seq::empty()),
{
    Node::fragment(no_nodes())
}

/// The options of a dialog's body.
#[derive(Clone, Debug, PartialEq)]
pub struct ModalBodyProps {
    pub children: Node,
    pub class: Option<String>,
}

/// The options of a dialog's row of actions.
#[derive(Clone, Debug, PartialEq)]
pub struct ModalActionProps {
    pub children: Node,
    pub class: Option<String>,
}

/// A block whose class is `token`, one space and the caller's class, and
/// which holds the content unchanged.
pub open spec fn wrapper_markup(token: Seq<char>, class: Option<String>, content: Markup) -> Markup {
    element(
        "div"@,
        seq![text_attr("class"@, token + " "@ + text_or_empty(class))],
        seq![content],
    )
}

fn wrapper(token: &str, class: &Option<String>, content: Node) -> (n: Node)
    ensures
        n@ == wrapper_markup(token@, *class, content@),
{
    let mut text = String::from_str(token);
    text.append(" ");
    match class {
        Some(c) => {
            text.append(c.as_str());
        },
        None => {},
    }
    proof {
        assert(text@ =~= token@ + " "@ + text_or_empty(*class));
    }
    Node::element("div", one_attr("class", text.as_str()), one_node(content))
}

/// Renders the body of a dialog around the content.
pub fn ModalBody(props: ModalBodyProps) -> (n: Node)
    ensures
        n@ == wrapper_markup("modal-box"@, props.class, props.children@),
{
    let ModalBodyProps { children, class } = props;
    wrapper("modal-box", &class, children)
}

/// Renders the row of actions of a dialog around the content.
pub fn ModalAction(props: ModalActionProps) -> (n: Node)
    ensures
        n@ == wrapper_markup("modal-action"@, props.class, props.children@),
{
    let ModalActionProps { children, class } = props;
    wrapper("modal-action", &class, children)
}

/// Each form of dialog has a markup of its own: what is rendered for
/// one form is the markup of that form and of no other.
pub proof fn lemma_dialog_forms_differ(modal_type: DialogType)
    ensures
        modal_markup(modal_type) == native_dialog() <==> modal_type == DialogType::Default,
        modal_markup(modal_type) == checkbox_dialog() <==> modal_type == DialogType::Checkbox,
        modal_markup(modal_type) == anchor_dialog() <==> modal_type == DialogType::AnchorLink,
{
    assert(native_dialog() is Element);
    assert(checkbox_dialog() is Fragment);
    assert(anchor_dialog() is Fragment);
    assert(checkbox_dialog()->Fragment_0.len() == 3);
    assert(anchor_dialog()->Fragment_0.len() == 2);
}

} // verus!
