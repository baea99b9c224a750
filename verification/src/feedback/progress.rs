//! The progress bar and the radial progress indicator.
use crate::markup::{
    attr_views, element, no_nodes, one_attr, push_text_attr, text_attr, text_element, text_node,
    Markup, Node,
};
use crate::text::{decimal, decimal_text, write_decimal};
use vstd::prelude::*;
use vstd::string::*;

verus! {

/// The colour of a progress bar.
#[derive(Copy, Clone, Debug, PartialEq, Eq, Structural)]
pub enum ProgressColor {
    Default,
    Neutral,
    Primary,
    Secondary,
    Accent,
    Info,
    Success,
    Warning,
    Error,
}

impl Default for ProgressColor {
    fn default() -> (r: Self)
        ensures
            r == ProgressColor::Default,
    {
        ProgressColor::Default
    }
}

impl ProgressColor {
    /// The class token of the colour. The default is neutral.
    pub open spec fn spec_token(self) -> Seq<char> {
        match self {
            ProgressColor::Default => "progress-neutral"@,
            ProgressColor::Neutral => "progress-neutral"@,
            ProgressColor::Primary => "progress-primary"@,
            ProgressColor::Secondary => "progress-secondary"@,
            ProgressColor::Accent => "progress-accent"@,
            ProgressColor::Info => "progress-info"@,
            ProgressColor::Success => "progress-success"@,
            ProgressColor::Warning => "progress-warning"@,
            ProgressColor::Error => "progress-error"@,
        }
    }

    /// The given value, or `Default` where none is given.
    pub open spec fn spec_or_default(value: Option<ProgressColor>) -> ProgressColor {
        match value {
            Some(v) => v,
            None => ProgressColor::Default,
        }
    }

    /// The class token of the colour. The default is neutral.
    pub fn token(self) -> (s: &'static str)
        ensures
            s@ == self.spec_token(),
    {
        match self {
            ProgressColor::Default => "progress-neutral",
            ProgressColor::Neutral => "progress-neutral",
            ProgressColor::Primary => "progress-primary",
            ProgressColor::Secondary => "progress-secondary",
            ProgressColor::Accent => "progress-accent",
            ProgressColor::Info => "progress-info",
            ProgressColor::Success => "progress-success",
            ProgressColor::Warning => "progress-warning",
            ProgressColor::Error => "progress-error",
        }
    }

    /// The given value, or `Default` where none is given.
    pub fn or_default(value: Option<ProgressColor>) -> (r: ProgressColor)
        ensures
            r == ProgressColor::spec_or_default(value),
    {
        match value {
            Some(v) => v,
            None => ProgressColor::Default,
        }
    }
}

/// Two values of [`ProgressColor`] have the same token only where they are the
/// same value, or are `Default` and `Neutral`, which share one.
pub proof fn lemma_progress_color_tokens(a: ProgressColor, b: ProgressColor)
    ensures
        a.spec_token() == b.spec_token() <==> a == b
            || (a == ProgressColor::Default && b == ProgressColor::Neutral)
            || (a == ProgressColor::Neutral && b == ProgressColor::Default),
{
    reveal_strlit("progress-neutral");
    reveal_strlit("progress-primary");
    reveal_strlit("progress-secondary");
    reveal_strlit("progress-accent");
    reveal_strlit("progress-info");
    reveal_strlit("progress-success");
    reveal_strlit("progress-warning");
    reveal_strlit("progress-error");
    // Tokens are told apart by their length and by the characters named.
    let s = a.spec_token();
    let t = b.spec_token();
    assert(s == t ==> s.len() == t.len());
    assert(s == t ==> s[9] == t[9]);
}

/// The options of a progress indicator. Value and maximum are carried
/// as they are given: neither is held to a range or to the other.
#[derive(Clone, Debug, PartialEq)]
pub struct ProgressProps {
    pub ui_color: Option<ProgressColor>,
    pub name: String,
    pub id: Option<String>,
    pub value: i16,
    pub max: i16,
}

impl ProgressProps {
    /// The options of a progress indicator called `name` that stands at
    /// `value` of `max`, with nothing else chosen.
    pub fn new(name: String, value: i16, max: i16) -> (p: ProgressProps)
        ensures
            p.name == name,
            p.value == value,
            p.max == max,
            p.ui_color is None,
            p.id is None,
    {
        ProgressProps { ui_color: None, name, id: None, value, max }
    }
}

/// The markup of a progress bar: an empty element that carries the
/// colour's token as its class, and value and maximum in decimal.
pub open spec fn progress_markup(p: &ProgressProps) -> Markup {
    element(
        "progress"@,
        seq![
            text_attr("class"@, ProgressColor::spec_or_default(p.ui_color).spec_token()),
            text_attr("value"@, decimal(p.value as int)),
            text_attr("max"@, decimal(p.max as int)),
        ],
        Seq::empty(),
    )
}

/// Renders a progress bar.
pub fn Progress(props: ProgressProps) -> (n: Node)
    ensures
        n@ == progress_markup(&props),
{
    let value = decimal_text(props.value);
    let max = decimal_text(props.max);
    let mut attrs = one_attr("class", ProgressColor::or_default(props.ui_color).token());
    push_text_attr(&mut attrs, "value", value.as_str());
    push_text_attr(&mut attrs, "max", max.as_str());
    proof {
        assert(attr_views(attrs@) =~= progress_markup(&props)->Element_attrs);
    }
    Node::element("progress", attrs, no_nodes())
}

/// The markup of a radial progress indicator: a block with a fixed class
/// that carries the value as a style variable and as the current value
/// of a progress bar, and shows it as a percentage.
pub open spec fn radial_progress_markup(value: int) -> Markup {
    text_element(
        "div"@,
        seq![
            text_attr(
                "class"@,
                "radial-progress bg-primary text-primary-content border-primary border-4"@,
            ),
            text_attr("style"@, "--value:"@ + decimal(value) + ";"@),
            text_attr("aria-valuenow"@, decimal(value)),
            text_attr("role"@, "progressbar"@),
        ],
        decimal(value) + "%"@,
    )
}

/// Renders a radial progress indicator. Only the value is read.
pub fn RadialProgress(props: ProgressProps) -> (n: Node)
    ensures
        n@ == radial_progress_markup(props.value as int),
{
    let value = decimal_text(props.value);
    let mut style = String::from_str("--value:");
    write_decimal(props.value, &mut style);
    style.append(";");
    let mut label = decimal_text(props.value);
    label.append("%");
    let mut attrs = one_attr(
        "class",
        "radial-progress bg-primary text-primary-content border-primary border-4",
    );
    push_text_attr(&mut attrs, "style", style.as_str());
    push_text_attr(&mut attrs, "aria-valuenow", value.as_str());
    push_text_attr(&mut attrs, "role", "progressbar");
    proof {
        assert(style@ =~= "--value:"@ + decimal(props.value as int) + ";"@);
        assert(label@ =~= decimal(props.value as int) + "%"@);
        assert(attr_views(attrs@) =~= radial_progress_markup(props.value as int)->Element_attrs);
    }
    text_node("div", attrs, label.as_str())
}

} // verus!
