//! The loading indicator.
use crate::class_list::{lemma_words_of_spaced, spaced, words, words_of_each};
use crate::html::html;
use crate::markup::{element, no_nodes, one_attr, text_attr, Markup, Node};
use vstd::prelude::*;
use vstd::string::*;

verus! {

/// The size of a loading indicator.
#[derive(Copy, Clone, Debug, PartialEq, Eq, Structural)]
pub enum LoadingSize {
    Default,
    Small,
    ExtraSmall,
    Large,
    Medium,
}

impl Default for LoadingSize {
    fn default() -> (r: Self)
        ensures
            r == LoadingSize::Default,
    {
        LoadingSize::Default
    }
}

impl LoadingSize {
    /// The class token of the size. The default's token is capitalised.
    pub open spec fn spec_token(self) -> Seq<char> {
        match self {
            LoadingSize::Default => "Loading-sm"@,
            LoadingSize::Small => "loading-sm"@,
            LoadingSize::ExtraSmall => "loading-xs"@,
            LoadingSize::Large => "loading-lg"@,
            LoadingSize::Medium => "loading-md"@,
        }
    }

    /// The given value, or `Default` where none is given.
    pub open spec fn spec_or_default(value: Option<LoadingSize>) -> LoadingSize {
        match value {
            Some(v) => v,
            None => LoadingSize::Default,
        }
    }

    /// The class token of the size. The default's token is capitalised.
    pub fn token(self) -> (s: &'static str)
        ensures
            s@ == self.spec_token(),
    {
        match self {
            LoadingSize::Default => "Loading-sm",
            LoadingSize::Small => "loading-sm",
            LoadingSize::ExtraSmall => "loading-xs",
            LoadingSize::Large => "loading-lg",
            LoadingSize::Medium => "loading-md",
        }
    }

    /// The given value, or `Default` where none is given.
    pub fn or_default(value: Option<LoadingSize>) -> (r: LoadingSize)
        ensures
            r == LoadingSize::spec_or_default(value),
    {
        match value {
            Some(v) => v,
            None => LoadingSize::Default,
        }
    }
}

/// Two values of [`LoadingSize`] have the same token only where they are the
/// same value.
pub proof fn lemma_loading_size_tokens(a: LoadingSize, b: LoadingSize)
    ensures
        a.spec_token() == b.spec_token() <==> a == b,
{
    reveal_strlit("Loading-sm");
    reveal_strlit("loading-sm");
    reveal_strlit("loading-xs");
    reveal_strlit("loading-lg");
    reveal_strlit("loading-md");
    // Tokens are told apart by their length and by the characters named.
    let s = a.spec_token();
    let t = b.spec_token();
    assert(s == t ==> s.len() == t.len());
    assert(s == t ==> s[0] == t[0]);
    assert(s == t ==> s[8] == t[8]);
}

/// The animation of a loading indicator.
#[derive(Copy, Clone, Debug, PartialEq, Eq, Structural)]
pub enum LoadingStyle {
    Default,
    Spinner,
    Dots,
    Ring,
    Ball,
    Bars,
    Infinity,
}

impl Default for LoadingStyle {
    fn default() -> (r: Self)
        ensures
            r == LoadingStyle::Default,
    {
        LoadingStyle::Default
    }
}

impl LoadingStyle {
    /// The class token of the animation. The default is the spinner.
    pub open spec fn spec_token(self) -> Seq<char> {
        match self {
            LoadingStyle::Default => "loading-spinner"@,
            LoadingStyle::Spinner => "loading-spinner"@,
            LoadingStyle::Dots => "loading-dots"@,
            LoadingStyle::Ring => "loading-ring"@,
            LoadingStyle::Ball => "loading-ball"@,
            LoadingStyle::Bars => "loading-bars"@,
            LoadingStyle::Infinity => "loading-infinity"@,
        }
    }

    /// The given value, or `Default` where none is given.
    pub open spec fn spec_or_default(value: Option<LoadingStyle>) -> LoadingStyle {
        match value {
            Some(v) => v,
            None => LoadingStyle::Default,
        }
    }

    /// The class token of the animation. The default is the spinner.
    pub fn token(self) -> (s: &'static str)
        ensures
            s@ == self.spec_token(),
    {
        match self {
            LoadingStyle::Default => "loading-spinner",
            LoadingStyle::Spinner => "loading-spinner",
            LoadingStyle::Dots => "loading-dots",
            LoadingStyle::Ring => "loading-ring",
            LoadingStyle::Ball => "loading-ball",
            LoadingStyle::Bars => "loading-bars",
            LoadingStyle::Infinity => "loading-infinity",
        }
    }

    /// The given value, or `Default` where none is given.
    pub fn or_default(value: Option<LoadingStyle>) -> (r: LoadingStyle)
        ensures
            r == LoadingStyle::spec_or_default(value),
    {
        match value {
            Some(v) => v,
            None => LoadingStyle::Default,
        }
    }
}

/// Two values of [`LoadingStyle`] have the same token only where they are the
/// same value, or are `Default` and `Spinner`, which share one.
pub proof fn lemma_loading_style_tokens(a: LoadingStyle, b: LoadingStyle)
    ensures
        a.spec_token() == b.spec_token() <==> a == b
            || (a == LoadingStyle::Default && b == LoadingStyle::Spinner)
            || (a == LoadingStyle::Spinner && b == LoadingStyle::Default),
{
    reveal_strlit("loading-spinner");
    reveal_strlit("loading-dots");
    reveal_strlit("loading-ring");
    reveal_strlit("loading-ball");
    reveal_strlit("loading-bars");
    reveal_strlit("loading-infinity");
    // Tokens are told apart by their length and by the characters named.
    let s = a.spec_token();
    let t = b.spec_token();
    assert(s == t ==> s.len() == t.len());
    assert(s == t ==> s[10] == t[10]);
}

/// The colour of a loading indicator.
#[derive(Copy, Clone, Debug, PartialEq, Eq, Structural)]
pub enum LoadingColor {
    Default,
    Neutral,
    Primary,
    Secondary,
    Accent,
    Info,
    Success,
    Warning,
    Error,
}

impl Default for LoadingColor {
    fn default() -> (r: Self)
        ensures
            r == LoadingColor::Default,
    {
        LoadingColor::Default
    }
}

impl LoadingColor {
    /// The class token of the colour. The default is neutral.
    pub open spec fn spec_token(self) -> Seq<char> {
        match self {
            LoadingColor::Default => "text-neutral"@,
            LoadingColor::Neutral => "text-neutral"@,
            LoadingColor::Primary => "text-primary"@,
            LoadingColor::Secondary => "text-secondary"@,
            LoadingColor::Accent => "text-accent"@,
            LoadingColor::Info => "text-info"@,
            LoadingColor::Success => "text-success"@,
            LoadingColor::Warning => "text-waring"@,
            LoadingColor::Error => "text-error"@,
        }
    }

    /// The given value, or `Default` where none is given.
    pub open spec fn spec_or_default(value: Option<LoadingColor>) -> LoadingColor {
        match value {
            Some(v) => v,
            None => LoadingColor::Default,
        }
    }

    /// The class token of the colour. The default is neutral.
    pub fn token(self) -> (s: &'static str)
        ensures
            s@ == self.spec_token(),
    {
        match self {
            LoadingColor::Default => "text-neutral",
            LoadingColor::Neutral => "text-neutral",
            LoadingColor::Primary => "text-primary",
            LoadingColor::Secondary => "text-secondary",
            LoadingColor::Accent => "text-accent",
            LoadingColor::Info => "text-info",
            LoadingColor::Success => "text-success",
            LoadingColor::Warning => "text-waring",
            LoadingColor::Error => "text-error",
        }
    }

    /// The given value, or `Default` where none is given.
    pub fn or_default(value: Option<LoadingColor>) -> (r: LoadingColor)
        ensures
            r == LoadingColor::spec_or_default(value),
    {
        match value {
            Some(v) => v,
            None => LoadingColor::Default,
        }
    }
}

/// Two values of [`LoadingColor`] have the same token only where they are the
/// same value, or are `Default` and `Neutral`, which share one.
pub proof fn lemma_loading_color_tokens(a: LoadingColor, b: LoadingColor)
    ensures
        a.spec_token() == b.spec_token() <==> a == b
            || (a == LoadingColor::Default && b == LoadingColor::Neutral)
            || (a == LoadingColor::Neutral && b == LoadingColor::Default),
{
    reveal_strlit("text-neutral");
    reveal_strlit("text-primary");
    reveal_strlit("text-secondary");
    reveal_strlit("text-accent");
    reveal_strlit("text-info");
    reveal_strlit("text-success");
    reveal_strlit("text-waring");
    reveal_strlit("text-error");
    // Tokens are told apart by their length and by the characters named.
    let s = a.spec_token();
    let t = b.spec_token();
    assert(s == t ==> s.len() == t.len());
    assert(s == t ==> s[5] == t[5]);
}

/// The options of a loading indicator. Only size, animation and colour
/// bear on what is rendered.
#[derive(Clone, Debug, PartialEq)]
pub struct LoadingProps {
    pub ui_size: Option<LoadingSize>,
    pub ui_style: Option<LoadingStyle>,
    pub ui_color: Option<LoadingColor>,
    pub name: String,
    pub id: Option<String>,
    pub label_class: Option<String>,
    pub value: Option<String>,
}

impl LoadingProps {
    /// The options of a loading indicator called `name`, with nothing
    /// else chosen.
    pub fn new(name: String) -> (p: LoadingProps)
        ensures
            p.name == name,
            p.ui_size is None,
            p.ui_style is None,
            p.ui_color is None,
            p.id is None,
            p.label_class is None,
            p.value is None,
    {
        LoadingProps {
            ui_size: None,
            ui_style: None,
            ui_color: None,
            name,
            id: None,
            label_class: None,
            value: None,
        }
    }
}

/// The class of a loading indicator: the tokens of size, animation and
/// colour, with one space between them.
pub open spec fn loading_class(p: &LoadingProps) -> Seq<char> {
    LoadingSize::spec_or_default(p.ui_size).spec_token() + " "@ + LoadingStyle::spec_or_default(
        p.ui_style,
    ).spec_token() + " "@ + LoadingColor::spec_or_default(p.ui_color).spec_token()
}

/// The markup of a loading indicator: an empty span that carries the class.
pub open spec fn loading_markup(p: &LoadingProps) -> Markup {
    element("span"@, seq![text_attr("class"@, loading_class(p))], Seq::empty())
}

/// Renders a loading indicator.
pub fn Loading(props: LoadingProps) -> (n: Node)
    ensures
        n@ == loading_markup(&props),
{
    let mut class = String::from_str(LoadingSize::or_default(props.ui_size).token());
    class.append(" ");
    class.append(LoadingStyle::or_default(props.ui_style).token());
    class.append(" ");
    class.append(LoadingColor::or_default(props.ui_color).token());
    Node::element("span", one_attr("class", class.as_str()), no_nodes())
}

/// The class of a loading indicator is its three tokens in their fixed
/// order, with one space between neighbours, and its words are theirs.
pub proof fn lemma_loading_class_order(p: &LoadingProps)
    ensures
        loading_class(p) == spaced(
            seq![
                LoadingSize::spec_or_default(p.ui_size).spec_token(),
                LoadingStyle::spec_or_default(p.ui_style).spec_token(),
                LoadingColor::spec_or_default(p.ui_color).spec_token(),
            ],
            3,
        ),
        words(loading_class(p)) == words(LoadingSize::spec_or_default(p.ui_size).spec_token())
            + words(LoadingStyle::spec_or_default(p.ui_style).spec_token()) + words(
            LoadingColor::spec_or_default(p.ui_color).spec_token(),
        ),
{
    reveal_with_fuel(spaced, 4);
    let parts = seq![
        LoadingSize::spec_or_default(p.ui_size).spec_token(),
        LoadingStyle::spec_or_default(p.ui_style).spec_token(),
        LoadingColor::spec_or_default(p.ui_color).spec_token(),
    ];
    assert(loading_class(p) =~= spaced(parts, 3));
    lemma_words_of_spaced(parts, 3);
    reveal_with_fuel(words_of_each, 4);
    assert(words_of_each(parts, 3) =~= words(parts[0]) + words(parts[1]) + words(parts[2]));
}

/// Two records that agree in size, animation and colour give the same
/// indicator, in the same bytes: nothing else is read.
pub proof fn lemma_loading_is_determined(p: &LoadingProps, q: &LoadingProps)
    requires
        p.ui_size == q.ui_size,
        p.ui_style == q.ui_style,
        p.ui_color == q.ui_color,
    ensures
        loading_markup(p) == loading_markup(q),
        html(loading_markup(p)) == html(loading_markup(q)),
{
}

} // verus!
