use daisy_markup::markup::{Attr, AttrValue, Node};
use daisy_markup::{
    BtnColor, BtnProps, BtnShape, BtnSize, BtnStyle, BtnType, Button, DialogType, Direction,
    DropDown, DropDownLink, DropDownLinkProps, DropDownProps, Loading, LoadingColor, LoadingProps,
    LoadingSize, LoadingStyle, Modal, ModalAction, ModalActionProps, ModalBody, ModalBodyProps,
    ModalProps, Progress, ProgressColor, ProgressProps, RadialProgress,
};
use dioxus::dioxus_core::{
    Attribute, DynamicNode, Template, TemplateAttribute, TemplateNode, VNode, VText,
};

fn kept<T>(items: Vec<T>) -> &'static [T] {
    Box::leak(items.into_boxed_slice())
}

fn kept_str(s: &str) -> &'static str {
    Box::leak(s.to_owned().into_boxed_str())
}

fn attribute(attr: &Attr) -> Attribute {
    match &attr.value {
        AttrValue::Text(text) => Attribute::new(kept_str(&attr.name), text.clone(), None, false),
        AttrValue::Flag => Attribute::new(kept_str(&attr.name), true, None, false),
    }
}

fn hole() -> Template {
    Template {
        roots: kept(vec![TemplateNode::Dynamic { id: 0 }]),
        node_paths: kept(vec![kept(vec![0u8])]),
        attr_paths: kept(vec![]),
    }
}

fn vnode(node: &Node) -> VNode {
    match node {
        Node::Text(text) => {
            VNode::new(None, hole(), Box::new([DynamicNode::Text(VText::new(text))]), Box::new([]))
        }
        Node::Slot => {
            VNode::new(None, hole(), Box::new([DynamicNode::Fragment(vec![])]), Box::new([]))
        }
        Node::Fragment(nodes) => VNode::new(
            None,
            hole(),
            Box::new([DynamicNode::Fragment(nodes.iter().map(vnode).collect())]),
            Box::new([]),
        ),
        Node::Element { tag, attrs, children } => {
            let attrs: Vec<Attribute> = attrs.iter().map(attribute).collect();
            let empty = children.is_empty();
            let template = Template {
                roots: kept(vec![TemplateNode::Element {
                    tag: kept_str(tag),
                    namespace: None,
                    attrs: kept(vec![TemplateAttribute::Dynamic { id: 0 }]),
                    children: if empty {
                        kept(vec![])
                    } else {
                        kept(vec![TemplateNode::Dynamic { id: 0 }])
                    },
                }]),
                node_paths: if empty { kept(vec![]) } else { kept(vec![kept(vec![0u8, 0u8])]) },
                attr_paths: kept(vec![kept(vec![0u8])]),
            };
            let kids: Box<[DynamicNode]> = if empty {
                Box::new([])
            } else {
                Box::new([DynamicNode::Fragment(children.iter().map(vnode).collect())])
            };
            VNode::new(None, template, kids, Box::new([attrs.into_boxed_slice()]))
        }
    }
}

/// What the server-side renderer makes of the tree; the library's own
/// text of the tree has to be the same.
fn rendered(node: Node) -> String {
    let result = dioxus_ssr::render_element(Ok(vnode(&node)));
    assert_eq!(node.to_html(), result);
    result
}

const MENU: &str = r#"<div tabindex="0" role="button" class="btn m-1">Click</div><ul tabindex="0" class="dropdown-content menu bg-base-100 rounded-box z-1 w-52 p-2 shadow-sm"><li><a>Item 1</a></li><li><a>Item 2</a></li><li><a>Item 3</a></li></ul>"#;

const CHECKBOX: &str = r#"<label for="my_modal_7" class="btn">Open</label><input type="checkbox" class="modal-toggle" id="my_modal_7"/><div role="dialog" class="modal"><div class="modal-box"><h3 class="text-lg font-bold">Title</h3><p class="py-4">content .....</p></div><label for="my_modal_7" class="modal-backdrop">Close</label></div>"#;

#[test]
fn test_button() {
    let props = BtnProps {
        children: Node::Text("Hello".to_string()),
        class: Some("test".to_string()),
        href: None,
        target: None,
        btn_color: Some(BtnColor::Primary),
        btn_size: Some(BtnSize::Large),
        btn_type: Some(BtnType::Button),
        btn_shape: None,
        btn_style: None,
        id: Some("id".to_string()),
        disabled: Some(false),
        prefix_image_src: None,
        suffix_image_src: None,
        disabled_text: None,
        popover_target: None,
        popover_target_action: None,
    };

    let expected =
        r#"<button class="btn test btn-primary btn-lg  " id="id" type="button">Hello</button>"#;
    let result = rendered(Button(props));
    assert_eq!(expected, result);
}

#[test]
fn test_button_with_images() {
    let props = BtnProps {
        children: Node::Text("Hello".to_string()),
        class: Some("test".to_string()),
        href: None,
        target: None,
        btn_color: Some(BtnColor::Primary),
        btn_size: Some(BtnSize::Large),
        btn_type: Some(BtnType::Button),
        btn_shape: None,
        btn_style: None,
        id: Some("id".to_string()),
        disabled: Some(false),
        prefix_image_src: Some("prefix.png".to_string()),
        suffix_image_src: Some("suffix.png".to_string()),
        disabled_text: None,
        popover_target: None,
        popover_target_action: None,
    };

    let expected = r#"<button class="btn test btn-primary btn-lg  " id="id" type="button"><img src="prefix.png" width="16"/>Hello<img src="suffix.png" width="16"/></button>"#;
    let result = rendered(Button(props));
    assert_eq!(expected, result);
}

#[test]
fn test_all_button_schemes() {
    let schemes = [
        (BtnColor::Neutral, "btn-neutral"),
        (BtnColor::Primary, "btn-primary"),
        (BtnColor::Secondary, "btn-secondary"),
        (BtnColor::Accent, "btn-accent"),
        (BtnColor::Info, "btn-info"),
        (BtnColor::Success, "btn-success"),
        (BtnColor::Warning, "btn-warning"),
        (BtnColor::Error, "btn-error"),
    ];

    for (scheme, expected_class) in schemes {
        let props = BtnProps {
            children: Node::Text("Test".to_string()),
            class: None,
            href: None,
            target: None,
            btn_color: Some(scheme),
            btn_size: None,
            btn_type: None,
            btn_shape: None,
            btn_style: None,
            id: None,
            disabled: None,
            prefix_image_src: None,
            suffix_image_src: None,
            disabled_text: None,
            popover_target: None,
            popover_target_action: None,
        };

        let result = rendered(Button(props));
        assert!(
            result.contains(expected_class),
            "Expected '{}' to contain '{}', but got: {}",
            result,
            expected_class,
            result
        );
    }
}

#[test]
fn test_default_button_scheme() {
    let props = BtnProps {
        children: Node::Text("Default".to_string()),
        class: None,
        href: None,
        target: None,
        btn_color: None,
        btn_size: None,
        btn_type: None,
        btn_shape: None,
        btn_style: None,
        id: None,
        disabled: None,
        prefix_image_src: None,
        suffix_image_src: None,
        disabled_text: None,
        popover_target: None,
        popover_target_action: None,
    };

    let result = rendered(Button(props));
    assert!(
        result.contains("btn-neutral"),
        "Expected default scheme to be 'btn-neutral', but got: {}",
        result
    );
}

#[test]
fn drop_down_test_modal() {
    let props = DropDownProps {
        child: Node::Text("Hello".to_string()),
        haver: Some(true),
        carat: Some(true),
        btn_text: "".to_string(),
        class: Some(String::new()),
        direction: Some(Direction::Start),
        prefix_image_src: Some(String::new()),
        suffix_image_src: Some(String::new()),
    };

    let expected = format!(
        "{}{}{}",
        r#"<div class="dropdown   dropdown-hover  dropdown-start">"#, MENU, "</div>"
    );
    let result = rendered(DropDown(props));
    assert_eq!(expected, result);
}

#[test]
fn modal_test_modal() {
    let mut props = ModalProps::new(Node::Text("Hello".to_string()));
    props.class = "test".to_string();
    props.submit_action = "test".to_string();
    props.trigger_id = "id".to_string();

    let result = rendered(Modal(props));
    assert_eq!(CHECKBOX, result);
}

#[test]
fn test_modal_without_submit_action() {
    let mut props = ModalProps::new(Node::Text("Hello".to_string()));
    props.class = "test".to_string();
    props.trigger_id = "id".to_string();

    let result = rendered(Modal(props));
    assert_eq!(CHECKBOX, result);
}

fn some(s: &str) -> Option<String> {
    Some(s.to_string())
}

#[test]
fn dioxus_renders_the_button_alike() {
    let props = BtnProps {
        children: Node::Text("Hello".to_string()),
        class: some("test"),
        href: None,
        target: None,
        btn_color: Some(BtnColor::Primary),
        btn_size: Some(BtnSize::Large),
        btn_type: Some(BtnType::Button),
        btn_shape: None,
        btn_style: None,
        id: some("id"),
        disabled: Some(false),
        prefix_image_src: some("prefix.png"),
        suffix_image_src: some("suffix.png"),
        disabled_text: None,
        popover_target: None,
        popover_target_action: None,
    };
    let expected = r#"<button class="btn test btn-primary btn-lg  " id="id" type="button"><img src="prefix.png" width="16"/>Hello<img src="suffix.png" width="16"/></button>"#;
    assert_eq!(rendered(Button(props)), expected);
}

#[test]
fn dioxus_renders_the_disabled_button_alike() {
    let props = BtnProps {
        children: Node::Text("a < b & c".to_string()),
        class: None,
        href: some("/ignored"),
        target: None,
        btn_color: Some(BtnColor::Error),
        btn_size: Some(BtnSize::ExtraSmall),
        btn_type: Some(BtnType::Submit),
        btn_shape: Some(BtnShape::Square),
        btn_style: Some(BtnStyle::Outline),
        id: None,
        disabled: Some(true),
        prefix_image_src: None,
        suffix_image_src: None,
        disabled_text: some("Not now"),
        popover_target: some("dlg"),
        popover_target_action: None,
    };
    let expected = r#"<button class="btn  btn-error btn-xs btn-square btn-outline" disabled=true data-target="dlg" type="submit" data-disabled-text="Not now">a &lt; b &amp; c</button>"#;
    assert_eq!(rendered(Button(props)), expected);
}

#[test]
fn dioxus_renders_the_link_button_alike() {
    let props = BtnProps {
        children: Node::Fragment(vec![Node::Text("Go".to_string()), Node::Text("!".to_string())]),
        class: some("x"),
        href: some("/home"),
        target: some("_blank"),
        btn_color: None,
        btn_size: None,
        btn_type: Some(BtnType::Link),
        btn_shape: None,
        btn_style: Some(BtnStyle::Transparent),
        id: some("l"),
        disabled: Some(true),
        prefix_image_src: None,
        suffix_image_src: some("s.png"),
        disabled_text: None,
        popover_target: None,
        popover_target_action: None,
    };
    let expected = r#"<a class="btn x btn-neutral btn-sm  btn-ghost" id="l" href="/home" target="_blank">Go!<img src="s.png" width="16"/></a>"#;
    assert_eq!(rendered(Button(props)), expected);
}

#[test]
fn dioxus_renders_the_dropdown_alike() {
    let props = DropDownProps {
        child: Node::Text("Hello".to_string()),
        haver: Some(true),
        carat: Some(true),
        btn_text: "".to_string(),
        class: Some(String::new()),
        direction: Some(Direction::Start),
        prefix_image_src: Some(String::new()),
        suffix_image_src: Some(String::new()),
    };
    let out = rendered(DropDown(props));
    assert!(out.starts_with(r#"<div class="dropdown   dropdown-hover  dropdown-start"><div tabindex="0" role="button" class="btn m-1">Click</div><ul "#));
    let props = DropDownLinkProps {
        href: "/a?b=1&c=2".to_string(),
        target: None,
        popover_target: some("t"),
        class: None,
        children: Node::Text("A".to_string()),
    };
    assert_eq!(
        rendered(DropDownLink(props)),
        r#"<li><a class="dropdown-item " data-target="t" href="/a?b=1&c=2">A</a></li>"#
    );
}

#[test]
fn dioxus_renders_the_dialogs_alike() {
    for form in [DialogType::Default, DialogType::Checkbox, DialogType::AnchorLink] {
        let mut props = ModalProps::new(Node::Text("Hello".to_string()));
        props.modal_type = form;
        let out = rendered(Modal(props));
        assert!(out.contains(r#"class="modal""#));
    }
    let body = ModalBodyProps { children: Node::Text("'q'".to_string()), class: some("w") };
    assert_eq!(rendered(ModalBody(body)), r#"<div class="modal-box w">&#x27;q&#x27;</div>"#);
    let row = ModalActionProps { children: Node::Slot, class: None };
    assert_eq!(rendered(ModalAction(row)), r#"<div class="modal-action "></div>"#);
}

#[test]
fn dioxus_renders_the_indicators_alike() {
    let props = LoadingProps {
        ui_size: Some(LoadingSize::Medium),
        ui_style: Some(LoadingStyle::Ring),
        ui_color: Some(LoadingColor::Success),
        name: String::new(),
        id: None,
        label_class: None,
        value: None,
    };
    assert_eq!(rendered(Loading(props)), r#"<span class="loading-md loading-ring text-success"></span>"#);
    let props = ProgressProps {
        ui_color: Some(ProgressColor::Primary),
        name: String::new(),
        id: None,
        value: 40,
        max: 100,
    };
    assert_eq!(
        rendered(Progress(props.clone())),
        r#"<progress class="progress-primary" value="40" max="100"></progress>"#
    );
    assert_eq!(
        rendered(RadialProgress(props)),
        r#"<div class="radial-progress bg-primary text-primary-content border-primary border-4" style="--value:40;" aria-valuenow="40" role="progressbar">40%</div>"#
    );
}
