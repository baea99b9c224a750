use daisy_markup::markup::Node;
use daisy_markup::{Direction, DropDown, DropDown1, DropDownLink, DropDownLinkProps, DropDownProps};

const MENU: &str = r#"<div tabindex="0" role="button" class="btn m-1">Click</div><ul tabindex="0" class="dropdown-content menu bg-base-100 rounded-box z-1 w-52 p-2 shadow-sm"><li><a>Item 1</a></li><li><a>Item 2</a></li><li><a>Item 3</a></li></ul>"#;

fn plain() -> DropDownProps {
    DropDownProps {
        child: Node::Fragment(vec![]),
        haver: None,
        carat: None,
        btn_text: String::new(),
        class: None,
        direction: None,
        prefix_image_src: None,
        suffix_image_src: None,
    }
}

#[test]
fn drop_down_without_options_opens_downwards() {
    let result = DropDown(plain()).to_html();
    let expected = format!("{}{}{}", r#"<div class="dropdown     dropdown-bottom">"#, MENU, "</div>");
    assert_eq!(expected, result);
}

#[test]
fn drop_down_hover_needs_a_true_flag() {
    let mut p = plain();
    p.haver = Some(false);
    p.class = Some("w-full".to_string());
    p.direction = Some(Direction::Top);
    let result = DropDown(p).to_html();
    let expected = format!("{}{}{}", r#"<div class="dropdown  w-full   dropdown-top">"#, MENU, "</div>");
    assert_eq!(expected, result);
}

#[test]
fn direction_tokens_are_exact() {
    assert_eq!(Direction::Unset.token(), "dropdown-bottom");
    assert_eq!(Direction::Start.token(), "dropdown-start");
    assert_eq!(Direction::Center.token(), "dropdown-center");
    assert_eq!(Direction::End.token(), "dropdown-end");
    assert_eq!(Direction::Top.token(), "dropdown-top");
    assert_eq!(Direction::Bottom.token(), "dropdown-bottom");
    assert_eq!(Direction::Left.token(), "dropdown-left");
    assert_eq!(Direction::Right.token(), "dropdown-right");
    assert_eq!(Direction::default(), Direction::Unset);
    assert_eq!(Direction::or_default(None), Direction::Unset);
    assert_eq!(Direction::or_default(Some(Direction::Left)), Direction::Left);
}

#[test]
fn second_drop_down_renders_nothing() {
    let mut p = plain();
    p.class = Some("x".to_string());
    let n = DropDown1(p);
    assert_eq!(n, Node::Fragment(vec![]));
    assert_eq!(n.to_html(), "");
}

#[test]
fn drop_down_link_with_trigger_carries_data_target() {
    let props = DropDownLinkProps {
        href: "/settings".to_string(),
        target: Some("_self".to_string()),
        popover_target: Some("menu-1".to_string()),
        class: Some("wide".to_string()),
        children: Node::Text("Settings".to_string()),
    };
    assert_eq!(
        DropDownLink(props).to_html(),
        r#"<li><a class="dropdown-item wide" data-target="menu-1" target="_self" href="/settings">Settings</a></li>"#
    );
}

#[test]
fn drop_down_link_without_trigger_omits_data_target() {
    let props = DropDownLinkProps {
        href: "/a".to_string(),
        target: None,
        popover_target: None,
        class: None,
        children: Node::Text("A".to_string()),
    };
    assert_eq!(DropDownLink(props).to_html(), r#"<li><a class="dropdown-item " href="/a">A</a></li>"#);
}

#[test]
fn new_drop_down_options_choose_nothing() {
    let p = DropDownProps::new(String::new(), Node::Fragment(vec![]));
    assert_eq!(p, plain());
    let l = DropDownLinkProps::new("/a".to_string(), Node::Text("A".to_string()));
    assert_eq!(l.href, "/a");
    assert_eq!(l.target, None);
    assert_eq!(l.popover_target, None);
    assert_eq!(l.class, None);
    assert_eq!(l.children, Node::Text("A".to_string()));
}
