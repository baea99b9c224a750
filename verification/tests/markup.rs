use daisy_markup::html::escape;
use daisy_markup::markup::{
    no_attrs, no_nodes, one_attr, one_node, push_node, push_optional_attr, push_text_attr,
    text_node, three_attrs, three_nodes, two_attrs, two_nodes, Attr, AttrValue, Node,
};
use daisy_markup::text::{decimal_text, write_decimal};

#[test]
fn escape_replaces_the_five_characters() {
    assert_eq!(escape("<&>"), "&lt;&amp;&gt;");
    assert_eq!(escape("\"q\" 'a'"), "&quot;q&quot; &#x27;a&#x27;");
    assert_eq!(escape("plain text 100%"), "plain text 100%");
    assert_eq!(escape(""), "");
    assert_eq!(escape("é<ü"), "é&lt;ü");
}

#[test]
fn text_nodes_are_escaped_and_attributes_are_not() {
    let n = Node::element(
        "p",
        one_attr("title", "a&b"),
        one_node(Node::text("1 < 2")),
    );
    assert_eq!(n.to_html(), r#"<p title="a&b">1 &lt; 2</p>"#);
}

#[test]
fn void_elements_close_in_place_only_when_empty() {
    for tag in [
        "area", "base", "br", "col", "embed", "hr", "img", "input", "link", "meta", "param",
        "source", "track", "wbr",
    ] {
        let n = Node::element(tag, no_attrs(), no_nodes());
        assert_eq!(n.to_html(), format!("<{}/>", tag));
    }
    let n = Node::element("div", no_attrs(), no_nodes());
    assert_eq!(n.to_html(), "<div></div>");
    let n = Node::element("br", no_attrs(), one_node(Node::text("x")));
    assert_eq!(n.to_html(), "<br>x</br>");
}

#[test]
fn flags_are_written_bare() {
    let n = Node::element(
        "input",
        vec![Attr::flag("disabled"), Attr::text("id", "i".to_string())],
        vec![],
    );
    assert_eq!(n.to_html(), r#"<input disabled=true id="i"/>"#);
    assert_eq!(Attr::flag("x").value, AttrValue::Flag);
    assert_eq!(Attr::text("x", "y".to_string()).name, "x");
}

#[test]
fn fragments_and_slots() {
    let n = Node::fragment(three_nodes(Node::text("a"), Node::Slot, Node::text("b")));
    assert_eq!(n.to_html(), "ab");
    assert_eq!(Node::Slot.to_html(), "");
    assert_eq!(Node::fragment(no_nodes()).to_html(), "");
}

#[test]
fn list_helpers_keep_order() {
    let attrs = three_attrs("a", "1", "b", "2", "c", "3");
    assert_eq!(
        attrs,
        vec![
            Attr::text("a", "1".to_string()),
            Attr::text("b", "2".to_string()),
            Attr::text("c", "3".to_string())
        ]
    );
    let mut attrs = two_attrs("a", "1", "b", "2");
    push_optional_attr(&mut attrs, "c", &None);
    push_optional_attr(&mut attrs, "d", &Some("4".to_string()));
    push_text_attr(&mut attrs, "e", "5");
    let mut kids = two_nodes(Node::text("x"), text_node("b", no_attrs(), "y"));
    push_node(&mut kids, Node::text("z"));
    let n = Node::element("p", attrs, kids);
    assert_eq!(n.to_html(), r#"<p a="1" b="2" d="4" e="5">x<b>y</b>z</p>"#);
}

#[test]
fn decimal_text_of_numbers() {
    assert_eq!(decimal_text(0), "0");
    assert_eq!(decimal_text(7), "7");
    assert_eq!(decimal_text(10), "10");
    assert_eq!(decimal_text(109), "109");
    assert_eq!(decimal_text(-1), "-1");
    assert_eq!(decimal_text(-120), "-120");
    assert_eq!(decimal_text(i16::MAX), "32767");
    assert_eq!(decimal_text(i16::MIN), "-32768");
    for v in [i16::MIN, -1000, -99, -10, -9, 0, 9, 10, 99, 100, 12345, i16::MAX] {
        assert_eq!(decimal_text(v), v.to_string());
    }
    let mut s = "v=".to_string();
    write_decimal(42, &mut s);
    assert_eq!(s, "v=42");
}

#[test]
fn clones_are_equal_trees() {
    let n = Node::element(
        "p",
        vec![Attr::flag("hidden"), Attr::text("id", "i".to_string())],
        vec![Node::text("a"), Node::Slot, Node::fragment(vec![Node::text("b")])],
    );
    let m = n.clone();
    assert_eq!(m, n);
    assert_eq!(m.to_html(), r#"<p hidden=true id="i">ab</p>"#);
}
