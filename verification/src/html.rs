//! Markup as text: what a tree is serialized to, and the code that
//! writes it.
use crate::markup::{
    attr_views, node_views, Attr, AttrValue, AttrValueView, AttrView, Markup, Node,
};
use vstd::prelude::*;
use vstd::string::*;

verus! {

/// What one character of text becomes in serialized markup.
pub open spec fn escaped_char(c: char) -> Seq<char> {
    if c == '<' {
        "&lt;"@
    } else if c == '>' {
        "&gt;"@
    } else if c == '&' {
        "&amp;"@
    } else if c == '"' {
        "&quot;"@
    } else if c == '\'' {
        "&#x27;"@
    } else {
        seq![c]
    }
}

/// Text with each of its characters escaped, in order.
pub open spec fn escaped(s: Seq<char>) -> Seq<char>
    decreases s.len(),
{
    if s.len() == 0 {
        Seq::empty()
    } else {
        escaped(s.drop_last()) + escaped_char(s.last())
    }
}

/// Whether a character opens or closes a tag or a quoted value.
pub open spec fn is_delimiter(c: char) -> bool {
    c == '<' || c == '>' || c == '"' || c == '\''
}

/// Escaped text holds no character that opens or closes a tag or a quoted
/// value, whatever the text held.
pub proof fn lemma_escaped_has_no_delimiter(s: Seq<char>)
    ensures
        forall|i: int| 0 <= i < escaped(s).len() ==> !is_delimiter(#[trigger] escaped(s)[i]),
    decreases s.len(),
{
    if s.len() > 0 {
        lemma_escaped_has_no_delimiter(s.drop_last());
        reveal_strlit("&lt;");
        reveal_strlit("&gt;");
        reveal_strlit("&amp;");
        reveal_strlit("&quot;");
        reveal_strlit("&#x27;");
        let head = escaped(s.drop_last());
        let tail = escaped_char(s.last());
        assert forall|j: int| 0 <= j < tail.len() implies !is_delimiter(#[trigger] tail[j]) by {}
        assert forall|i: int| 0 <= i < escaped(s).len() implies !is_delimiter(
            #[trigger] escaped(s)[i],
        ) by {
            if i >= head.len() {
                assert(escaped(s)[i] == tail[i - head.len()]);
            }
        }
    }
}

/// Text without a character that is escaped is written as it is.
pub proof fn lemma_escaped_plain(s: Seq<char>)
    requires
        forall|i: int| 0 <= i < s.len() ==> !is_delimiter(#[trigger] s[i]) && s[i] != '&',
    ensures
        escaped(s) == s,
    decreases s.len(),
{
    if s.len() > 0 {
        lemma_escaped_plain(s.drop_last());
        assert(escaped(s) =~= s);
    }
}

/// Tags that are written without a closing tag when they have no children.
pub open spec fn is_void_tag(tag: Seq<char>) -> bool {
    ||| tag == "area"@
    ||| tag == "base"@
    ||| tag == "br"@
    ||| tag == "col"@
    ||| tag == "embed"@
    ||| tag == "hr"@
    ||| tag == "img"@
    ||| tag == "input"@
    ||| tag == "link"@
    ||| tag == "meta"@
    ||| tag == "param"@
    ||| tag == "source"@
    ||| tag == "track"@
    ||| tag == "wbr"@
}

/// One serialized attribute, with its leading space. A text value stands
/// between quotes, written as it is; a flag is written as a bare `true`.
pub open spec fn attr_html(a: AttrView) -> Seq<char> {
    match a.value {
        AttrValueView::Text(v) => " "@ + a.name + "=\""@ + v + "\""@,
        AttrValueView::Flag => " "@ + a.name + "=true"@,
    }
}

/// The first `k` attributes of `attrs`, serialized in order.
pub open spec fn attrs_html(attrs: Seq<AttrView>, k: nat) -> Seq<char>
    decreases k,
{
    if k == 0 || k > attrs.len() {
        Seq::empty()
    } else {
        attrs_html(attrs, (k - 1) as nat) + attr_html(attrs[k - 1])
    }
}

/// The serialized form of a markup tree.
pub open spec fn html(m: Markup) -> Seq<char>
    decreases m, 0nat,
{
    match m {
        Markup::Text(s) => escaped(s),
        Markup::Element { tag, attrs, children } => {
            let open = "<"@ + tag + attrs_html(attrs, attrs.len());
            if children.len() == 0 && is_void_tag(tag) {
                open + "/>"@
            } else {
                open + ">"@ + html_run(children, children.len()) + "</"@ + tag + ">"@
            }
        },
        Markup::Fragment(nodes) => html_run(nodes, nodes.len()),
        Markup::Slot => Seq::empty(),
    }
}

/// The first `k` trees of `nodes`, serialized one after another.
pub open spec fn html_run(nodes: Seq<Markup>, k: nat) -> Seq<char>
    decreases nodes, k,
{
    if k == 0 || k > nodes.len() {
        Seq::empty()
    } else {
        html_run(nodes, (k - 1) as nat) + html(nodes[k - 1])
    }
}

/// Whether `s` reads exactly as `word`.
fn reads_as(s: &String, word: &str) -> (r: bool)
    ensures
        r == (s@ == word@),
{
    let w = String::from_str(word);
    *s == w
}

fn is_void(tag: &String) -> (r: bool)
    ensures
        r == is_void_tag(tag@),
{
    reads_as(tag, "area") || reads_as(tag, "base") || reads_as(tag, "br") || reads_as(tag, "col")
        || reads_as(tag, "embed") || reads_as(tag, "hr") || reads_as(tag, "img") || reads_as(
        tag,
        "input",
    ) || reads_as(tag, "link") || reads_as(tag, "meta") || reads_as(tag, "param") || reads_as(
        tag,
        "source",
    ) || reads_as(tag, "track") || reads_as(tag, "wbr")
}

/// Appends the escaped form of `s` to `out`.
fn write_escaped(s: &str, out: &mut String)
    ensures
        final(out)@ == old(out)@ + escaped(s@),
{
    let n = s.unicode_len();
    let mut i: usize = 0;
    while i < n
        invariant
            i <= n,
            n == s@.len(),
            out@ == old(out)@ + escaped(s@.subrange(0, i as int)),
        decreases n - i,
    {
        let c = s.get_char(i);
        let ghost before = out@;
        proof {
            let t = s@.subrange(0, i + 1);
            assert(t.drop_last() =~= s@.subrange(0, i as int));
            assert(t.last() == c);
            assert(s@.subrange(i as int, i + 1) =~= seq![c]);
        }
        if c == '<' {
            out.append("&lt;");
        } else if c == '>' {
            out.append("&gt;");
        } else if c == '&' {
            out.append("&amp;");
        } else if c == '"' {
            out.append("&quot;");
        } else if c == '\'' {
            out.append("&#x27;");
        } else {
            out.append(s.substring_char(i, i + 1));
        }
        assert(out@ == before + escaped_char(c));
        assert(out@ =~= old(out)@ + escaped(s@.subrange(0, i + 1)));
        i += 1;
    }
    proof {
        assert(s@.subrange(0, n as int) =~= s@);
    }
}

/// The escaped form of `s`.
pub fn escape(s: &str) -> (out: String)
    ensures
        out@ == escaped(s@),
{
    let mut out = String::new();
    write_escaped(s, &mut out);
    out
}

/// Appends the serialized attribute to `out`.
fn write_attr(attr: &Attr, out: &mut String)
    ensures
        final(out)@ == old(out)@ + attr_html(attr@),
{
    out.append(" ");
    out.append(attr.name.as_str());
    match &attr.value {
        AttrValue::Text(v) => {
            out.append("=\"");
            out.append(v.as_str());
            out.append("\"");
        },
        AttrValue::Flag => {
            out.append("=true");
        },
    }
    assert(out@ =~= old(out)@ + attr_html(attr@));
}

/// Appends the serialized attributes to `out`, in order.
fn write_attrs(attrs: &Vec<Attr>, out: &mut String)
    ensures
        final(out)@ == old(out)@ + attrs_html(attr_views(attrs@), attrs@.len()),
{
    let mut i: usize = 0;
    while i < attrs.len()
        invariant
            i <= attrs.len(),
            out@ == old(out)@ + attrs_html(attr_views(attrs@), i as nat),
        decreases attrs.len() - i,
    {
        write_attr(&attrs[i], out);
        i += 1;
        assert(out@ =~= old(out)@ + attrs_html(attr_views(attrs@), i as nat));
    }
}

/// Appends the serialized trees to `out`, in order.
fn write_run(nodes: &Vec<Node>, out: &mut String)
    ensures
        final(out)@ == old(out)@ + html_run(node_views(nodes@), nodes@.len()),
    decreases nodes, 0nat,
{
    let mut i: usize = 0;
    while i < nodes.len()
        invariant
            i <= nodes.len(),
            out@ == old(out)@ + html_run(node_views(nodes@), i as nat),
        decreases nodes.len() - i,
    {
        nodes[i].write_html(out);
        i += 1;
        assert(out@ =~= old(out)@ + html_run(node_views(nodes@), i as nat));
    }
}

impl Node {
    /// Appends the serialized tree to `out`.
    fn write_html(&self, out: &mut String)
        ensures
            final(out)@ == old(out)@ + html(self@),
        decreases self, 1nat,
    {
        match self {
            Node::Text(s) => {
                write_escaped(s.as_str(), out);
            },
            Node::Element { tag, attrs, children } => {
                out.append("<");
                out.append(tag.as_str());
                write_attrs(attrs, out);
                if children.len() == 0 && is_void(tag) {
                    out.append("/>");
                } else {
                    out.append(">");
                    write_run(children, out);
                    out.append("</");
                    out.append(tag.as_str());
                    out.append(">");
                }
                proof {
                    assert(self@->Element_children =~= node_views(children@));
                    assert(out@ =~= old(out)@ + html(self@));
                }
            },
            Node::Fragment(nodes) => {
                write_run(nodes, out);
                proof {
                    assert(self@->Fragment_0 =~= node_views(nodes@));
                }
            },
            Node::Slot => {
                assert(out@ =~= old(out)@ + html(self@));
            },
        }
    }

    /// The tree as markup text: text nodes escaped, attributes in order,
    /// void elements closed in place.
    pub fn to_html(&self) -> (out: String)
        ensures
            out@ == html(self@),
    {
        let mut out = String::new();
        self.write_html(&mut out);
        out
    }
}

} // verus!
