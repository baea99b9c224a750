use daisy_markup::markup::Node;
use daisy_markup::{
    BtnColor, DialogType, Modal, ModalAction, ModalActionProps, ModalBody, ModalBodyProps,
    ModalProps, Modal_1,
};

const NATIVE: &str = r#"<dialog id="my_modal_2" class="modal"><div class="modal-box"><h3 class="text-lg font-bold">Hello!</h3><p class="py-4">Press ESC key or click outside to close</p></div><form method="dialog" class="modal-backdrop"><button>close</button></form></dialog>"#;

const CHECKBOX: &str = r#"<label for="my_modal_7" class="btn">Open</label><input type="checkbox" class="modal-toggle" id="my_modal_7"/><div role="dialog" class="modal"><div class="modal-box"><h3 class="text-lg font-bold">Title</h3><p class="py-4">content .....</p></div><label for="my_modal_7" class="modal-backdrop">Close</label></div>"#;

const ANCHOR: &str = r##"<a href="#my_modal_8" class="btn">Open</a><div role="dialog" class="modal" id="my_modal_8"><div class="modal-box"><h3 class="text-lg font-bold">Title</h3><p class="py-4">This modal works with anchor links</p><div class="modal-action"><a href="#" class="btn">Yal!</a></div></div></div>"##;

#[test]
fn new_modal_options_have_the_declared_defaults() {
    let props = ModalProps::new(Node::Text("x".to_string()));
    assert_eq!(props.trigger_id, "");
    assert_eq!(props.submit_action, "");
    assert_eq!(props.class, "");
    assert_eq!(props.btn_color, BtnColor::Info);
    assert_eq!(props.modal_type, DialogType::Checkbox);
    assert_eq!(props.children, Node::Text("x".to_string()));
    assert_eq!(DialogType::default(), DialogType::Default);
}

fn of_type(t: DialogType) -> String {
    let mut props = ModalProps::new(Node::Text("ignored".to_string()));
    props.modal_type = t;
    Modal(props).to_html()
}

#[test]
fn each_dialog_form_has_its_own_markup() {
    assert_eq!(of_type(DialogType::Default), NATIVE);
    assert_eq!(of_type(DialogType::Checkbox), CHECKBOX);
    assert_eq!(of_type(DialogType::AnchorLink), ANCHOR);
    assert_ne!(NATIVE, CHECKBOX);
    assert_ne!(NATIVE, ANCHOR);
    assert_ne!(CHECKBOX, ANCHOR);
}

#[test]
fn dialog_roots_match_their_form() {
    let mut p = ModalProps::new(Node::Slot);
    p.modal_type = DialogType::Default;
    match Modal(p) {
        Node::Element { tag, children, .. } => {
            assert_eq!(tag, "dialog");
            assert_eq!(children.len(), 2);
        }
        other => panic!("expected one element, got {:?}", other),
    }
    let p = ModalProps::new(Node::Slot);
    match Modal(p) {
        Node::Fragment(roots) => assert_eq!(roots.len(), 3),
        other => panic!("expected three roots, got {:?}", other),
    }
    let mut p = ModalProps::new(Node::Slot);
    p.modal_type = DialogType::AnchorLink;
    match Modal(p) {
        Node::Fragment(roots) => assert_eq!(roots.len(), 2),
        other => panic!("expected two roots, got {:?}", other),
    }
}

#[test]
fn second_modal_renders_nothing() {
    let n = Modal_1(ModalProps::new(Node::Text("Hello".to_string())));
    assert_eq!(n, Node::Fragment(vec![]));
    assert_eq!(n.to_html(), "");
}

#[test]
fn modal_body_wraps_content_unchanged() {
    let props = ModalBodyProps {
        children: Node::Fragment(vec![
            Node::Text("a < b".to_string()),
            Node::Element { tag: "br".to_string(), attrs: vec![], children: vec![] },
        ]),
        class: Some("w-96".to_string()),
    };
    assert_eq!(ModalBody(props).to_html(), r#"<div class="modal-box w-96">a &lt; b<br/></div>"#);
    let props = ModalBodyProps { children: Node::Text("x".to_string()), class: None };
    assert_eq!(ModalBody(props).to_html(), r#"<div class="modal-box ">x</div>"#);
}

#[test]
fn modal_action_wraps_content_unchanged() {
    let props = ModalActionProps {
        children: Node::Text("ok".to_string()),
        class: Some("justify-end".to_string()),
    };
    let n = ModalAction(props);
    match &n {
        Node::Element { tag, children, .. } => {
            assert_eq!(tag, "div");
            assert_eq!(children, &vec![Node::Text("ok".to_string())]);
        }
        other => panic!("expected one element, got {:?}", other),
    }
    assert_eq!(n.to_html(), r#"<div class="modal-action justify-end">ok</div>"#);
    let props = ModalActionProps { children: Node::Text("ok".to_string()), class: None };
    assert_eq!(ModalAction(props).to_html(), r#"<div class="modal-action ">ok</div>"#);
}
