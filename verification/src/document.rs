//! An HTML document: an ordered sequence of components, rendered as a
//! fixed doctype line followed by each component's fragment in
//! insertion order.

use vstd::prelude::*;
use vstd::string::StrSliceExecFns;
use vstd::string::StringExecFns;
use vstd::utf8::encode_utf8;

use crate::component::Component;
use crate::component::ComponentModel;
use crate::component::render_of;
use crate::resource::Resource;

verus! {

/// The fixed declaration that opens every rendered document.
pub open spec fn doctype() -> Seq<char> {
    "<!DOCTYPE html>\n"@
}

/// The concatenation of the fragments of `cs`, in order, with no
/// separators.
pub open spec fn render_seq(cs: Seq<ComponentModel>) -> Seq<char>
    decreases cs.len(),
{
    if cs.len() == 0 {
        Seq::<char>::empty()
    } else {
        render_seq(cs.drop_last()) + render_of(cs.last())
    }
}

/// The full rendered page of a component sequence: the doctype line,
/// then every fragment in insertion order.
pub open spec fn page_of(cs: Seq<ComponentModel>) -> Seq<char> {
    doctype() + render_seq(cs)
}

/// Rendering is deterministic: the page is a function of the component
/// sequence alone, so two renderings of equal sequences are identical.
pub proof fn lemma_render_deterministic(a: Seq<ComponentModel>, b: Seq<ComponentModel>)
    requires
        a == b,
    ensures
        page_of(a) == page_of(b),
{
}

/// Rendering is order-sensitive: a text component inserted before an
/// image renders with the text fragment first, and reversing the
/// insertion order reverses the fragments.
pub proof fn lemma_render_order_sensitive(t: Seq<char>, u: Seq<char>)
    ensures
        page_of(seq![ComponentModel::Text(t), ComponentModel::Image(u)])
            == doctype() + render_of(ComponentModel::Text(t)) + render_of(ComponentModel::Image(u)),
        page_of(seq![ComponentModel::Image(u), ComponentModel::Text(t)])
            == doctype() + render_of(ComponentModel::Image(u)) + render_of(ComponentModel::Text(t)),
{
    let tc = ComponentModel::Text(t);
    let ic = ComponentModel::Image(u);
    lemma_render_seq_pair(tc, ic);
    lemma_render_seq_pair(ic, tc);
    assert(page_of(seq![tc, ic]) =~= doctype() + render_of(tc) + render_of(ic));
    assert(page_of(seq![ic, tc]) =~= doctype() + render_of(ic) + render_of(tc));
}

/// A two-component sequence renders to the first fragment followed by
/// the second.
proof fn lemma_render_seq_pair(a: ComponentModel, b: ComponentModel)
    ensures
        render_seq(seq![a, b]) == render_of(a) + render_of(b),
{
    let pair = seq![a, b];
    assert(pair.drop_last() =~= seq![a]);
    assert(seq![a].drop_last() =~= Seq::<ComponentModel>::empty());
    assert(render_seq(Seq::<ComponentModel>::empty()) == Seq::<char>::empty());
    assert(render_seq(seq![a]) =~= render_of(a));
    assert(render_seq(pair) =~= render_of(a) + render_of(b));
}

/// An ordered collection of components forming a full page body. The
/// document owns its components exclusively; insertion order is
/// rendering order.
pub struct Document {
    components: Vec<Component>,
}

impl View for Document {
    type V = Seq<ComponentModel>;

    closed spec fn view(&self) -> Seq<ComponentModel> {
        self.components@.map_values(|c: Component| c@)
    }
}

impl Document {
    /// An empty document: nothing after the doctype line.
    pub fn new() -> (d: Document)
        ensures
            d@ == Seq::<ComponentModel>::empty(),
    {
        let d = Document { components: Vec::new() };
        proof {
            assert(d@ =~= Seq::<ComponentModel>::empty());
        }
        d
    }

    /// Appends a component; it renders after everything inserted
    /// before it.
    pub fn insert_element(&mut self, el: Component)
        ensures
            final(self)@ == old(self)@.push(el@),
    {
        self.components.push(el);
        proof {
            assert(self@ =~= old(self)@.push(el@));
        }
    }

    /// Renders the document: the doctype line, then each component's
    /// fragment in insertion order, concatenated with no separators.
    pub fn render(&self) -> (r: String)
        ensures
            r@ == page_of(self@),
    {
        let mut buf = String::new();
        buf.append("<!DOCTYPE html>\n");
        let n = self.components.len();
        proof {
            assert(self@.take(0) =~= Seq::<ComponentModel>::empty());
            assert(buf@ =~= page_of(self@.take(0)));
        }
        for i in 0..n
            invariant
                n == self.components@.len(),
                buf@ == page_of(self@.take(i as int)),
        {
            let piece = self.components[i].render();
            buf.append(piece.as_str());
            proof {
                assert(self@.take(i + 1).drop_last() =~= self@.take(i as int));
                assert(self@.take(i + 1).last() == self@[i as int]);
                assert(buf@ =~= page_of(self@.take(i + 1)));
            }
        }
        proof {
            assert(self@.take(n as int) =~= self@);
        }
        buf
    }
}

impl Resource for Document {
    open spec fn inv(&self) -> bool {
        true
    }

    /// A document always serves HTML.
    open spec fn content_type(&self) -> Seq<char> {
        "text/html"@
    }

    /// A document's body is its rendered page, UTF-8 encoded.
    open spec fn body_model(&self) -> Seq<u8> {
        encode_utf8(page_of(self@))
    }

    fn headers(&self) -> (h: Vec<(String, String)>) {
        let mut h: Vec<(String, String)> = Vec::new();
        h.push(("content-type".to_owned(), "text/html".to_owned()));
        h.push(("server".to_owned(), "bali/1.0".to_owned()));
        h
    }

    fn body(&self) -> (b: Vec<u8>) {
        let page = self.render();
        page.as_str().as_bytes_vec()
    }
}

} // verus!
