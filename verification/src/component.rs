//! Renderable page components: a text fragment and an image tag,
//! unified under one tagged [`Component`] type whose rendering is pure
//! and total.

use vstd::prelude::*;
use vstd::string::StringExecFns;

verus! {

/// The mathematical value of a component: which variant it is and the
/// payload it carries.
pub enum ComponentModel {
    Text(Seq<char>),
    Image(Seq<char>),
}

/// What a component renders to, as a function of its model alone.
///
/// A text fragment is its payload unchanged (no escaping: the caller
/// guarantees the safety of embedded content). An image is a
/// self-closing tag with the stored URL interpolated into its `src`
/// attribute, again without escaping.
pub open spec fn render_of(c: ComponentModel) -> Seq<char> {
    match c {
        ComponentModel::Text(content) => content,
        ComponentModel::Image(src) => "<img src=\""@ + src + "\" />"@,
    }
}

/// A fragment of literal page text.
pub struct Text {
    content: String,
}

impl View for Text {
    type V = Seq<char>;

    closed spec fn view(&self) -> Seq<char> {
        self.content@
    }
}

impl Text {
    pub fn new(content: &str) -> (t: Text)
        ensures
            t@ == content@,
    {
        Text { content: content.to_owned() }
    }

    /// Renders the fragment: the stored content, unchanged.
    pub fn render(&self) -> (r: String)
        ensures
            r@ == render_of(ComponentModel::Text(self@)),
    {
        self.content.clone()
    }
}

/// An image reference, rendered as a self-closing `<img>` tag.
pub struct Image {
    src: String,
}

impl View for Image {
    type V = Seq<char>;

    closed spec fn view(&self) -> Seq<char> {
        self.src@
    }
}

impl Image {
    pub fn new(src: &str) -> (img: Image)
        ensures
            img@ == src@,
    {
        Image { src: src.to_owned() }
    }

    /// Renders the tag with the stored URL in its `src` attribute.
    pub fn render(&self) -> (r: String)
        ensures
            r@ == render_of(ComponentModel::Image(self@)),
    {
        let mut buf = String::new();
        buf.append("<img src=\"");
        buf.append(self.src.as_str());
        buf.append("\" />");
        proof {
            assert(buf@ =~= render_of(ComponentModel::Image(self@)));
        }
        buf
    }
}

/// A renderable unit of page content: the closed set of variants a
/// document can hold.
pub enum Component {
    Text(Text),
    Image(Image),
}

impl View for Component {
    type V = ComponentModel;

    open spec fn view(&self) -> ComponentModel {
        match self {
            Component::Text(t) => ComponentModel::Text(t@),
            Component::Image(img) => ComponentModel::Image(img@),
        }
    }
}

impl Component {
    /// Renders this component; pure and total, never fails.
    pub fn render(&self) -> (r: String)
        ensures
            r@ == render_of(self@),
    {
        match self {
            Component::Text(t) => t.render(),
            Component::Image(img) => img.render(),
        }
    }
}

} // verus!
