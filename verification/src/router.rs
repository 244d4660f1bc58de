//! Request dispatch: an exact-match route table from `(method, path)`
//! pairs to resource builders, with an unconditional not-found
//! fallthrough.

use vstd::prelude::*;
use vstd::string::StringSliceAdditionalSpecFns;
use vstd::utf8::decode_utf8;
use vstd::utf8::encode_utf8;

use crate::component::Component;
use crate::component::ComponentModel;
use crate::component::Image;
use crate::component::Text;
use crate::document::Document;
use crate::document::page_of;
use crate::file::DataSource;
use crate::file::File;
use crate::resource::Resource;
use crate::resource::Response;
use crate::resource::STATUS_NOT_FOUND;
use crate::resource::STATUS_OK;
use crate::resource::server_name;

verus! {

broadcast use vstd::string::group_string_axioms;

/// Exact string equality, decided on the UTF-8 bytes: two string
/// slices are equal exactly when their character sequences are.
pub fn str_eq(a: &str, b: &str) -> (r: bool)
    ensures
        r == (a@ == b@),
{
    let ab = a.as_bytes();
    let bb = b.as_bytes();
    if ab.len() != bb.len() {
        proof {
            if a@ == b@ {
                assert(ab@ == bb@);
            }
        }
        return false;
    }
    let n = ab.len();
    for i in 0..n
        invariant
            n == ab@.len(),
            n == bb@.len(),
            ab@ == a.spec_bytes(),
            bb@ == b.spec_bytes(),
            forall|j: int| 0 <= j < i ==> ab@[j] == bb@[j],
    {
        if ab[i] != bb[i] {
            proof {
                if a@ == b@ {
                    assert(ab@ == bb@);
                }
            }
            return false;
        }
    }
    proof {
        broadcast use vstd::utf8::encode_utf8_decode_utf8;

        assert(ab@ =~= bb@);
        assert(encode_utf8(a@) == encode_utf8(b@));
        assert(decode_utf8(encode_utf8(a@)) == a@);
        assert(decode_utf8(encode_utf8(b@)) == b@);
    }
    true
}

/// The component sequence of the homepage: a greeting, then an image
/// reference, in that order.
pub open spec fn homepage_model() -> Seq<ComponentModel> {
    seq![ComponentModel::Text("Hello, World!"@), ComponentModel::Image("/cat.jpg"@)]
}

/// The rendered homepage.
pub open spec fn homepage_page() -> Seq<char> {
    page_of(homepage_model())
}

/// Builds the homepage document fresh; called on every matching
/// request, side-effect-free.
pub fn homepage() -> (d: Document)
    ensures
        d@ == homepage_model(),
{
    let text = Text::new("Hello, World!");
    let img = Image::new("/cat.jpg");
    let mut doc = Document::new();
    doc.insert_element(Component::Text(text));
    doc.insert_element(Component::Image(img));
    proof {
        assert(doc@ =~= homepage_model());
    }
    doc
}

/// The embedded cow picture.
pub open spec fn cow_jpg() -> Seq<u8> {
    seq![
        0xffu8,
        0xd8u8,
        0xffu8,
        0xe0u8,
        0x00u8,
        0x10u8,
        0x4au8,
        0x46u8,
        0x49u8,
        0x46u8,
        0x43u8,
        0x4fu8,
        0x57u8,
        0xffu8,
        0xd9u8,
    ]
}

/// The embedded cat picture.
pub open spec fn cat_jpg() -> Seq<u8> {
    seq![
        0xffu8,
        0xd8u8,
        0xffu8,
        0xe0u8,
        0x00u8,
        0x10u8,
        0x4au8,
        0x46u8,
        0x49u8,
        0x46u8,
        0x43u8,
        0x41u8,
        0x54u8,
        0xffu8,
        0xd9u8,
    ]
}

/// The cow picture's bytes as a fresh buffer.
pub fn cow_jpg_bytes() -> (v: Vec<u8>)
    ensures
        v@ == cow_jpg(),
{
    let mut v: Vec<u8> = Vec::new();
    v.push(0xff);
    v.push(0xd8);
    v.push(0xff);
    v.push(0xe0);
    v.push(0x00);
    v.push(0x10);
    v.push(0x4a);
    v.push(0x46);
    v.push(0x49);
    v.push(0x46);
    v.push(0x43);
    v.push(0x4f);
    v.push(0x57);
    v.push(0xff);
    v.push(0xd9);
    proof {
        assert(v@ =~= cow_jpg());
    }
    v
}

/// The cat picture's bytes as a fresh buffer.
pub fn cat_jpg_bytes() -> (v: Vec<u8>)
    ensures
        v@ == cat_jpg(),
{
    let mut v: Vec<u8> = Vec::new();
    v.push(0xff);
    v.push(0xd8);
    v.push(0xff);
    v.push(0xe0);
    v.push(0x00);
    v.push(0x10);
    v.push(0x4a);
    v.push(0x46);
    v.push(0x49);
    v.push(0x46);
    v.push(0x43);
    v.push(0x41);
    v.push(0x54);
    v.push(0xff);
    v.push(0xd9);
    proof {
        assert(v@ =~= cat_jpg());
    }
    v
}

/// Builds the cow picture as a file resource.
pub fn img_cow() -> (f: File)
    ensures
        f.wf(),
        f.data() == cow_jpg(),
        f.media_type() == "image/jpeg"@,
{
    proof {
        reveal_strlit("image/jpeg");
    }
    let ds = DataSource::Static { content: cow_jpg_bytes() };
    File::new(ds, "image/jpeg")
}

/// Builds the cat picture as a file resource.
pub fn img_cat() -> (f: File)
    ensures
        f.wf(),
        f.data() == cat_jpg(),
        f.media_type() == "image/jpeg"@,
{
    proof {
        reveal_strlit("image/jpeg");
    }
    let ds = DataSource::Static { content: cat_jpg_bytes() };
    File::new(ds, "image/jpeg")
}

/// The route table, as a predicate: which `(method, path)` pairs are
/// served. Lookup is exact-match only — a known path under a
/// different method is simply not registered, and dispatch answers
/// not-found rather than method-not-allowed.
pub open spec fn is_registered(method: Seq<char>, path: Seq<char>) -> bool {
    method == "GET"@ && (path == "/"@ || path == "/cow.jpg"@ || path == "/cat.jpg"@)
}

/// The `content-type` a registered path is served under.
pub open spec fn registered_content_type(path: Seq<char>) -> Seq<char> {
    if path == "/"@ {
        "text/html"@
    } else {
        "image/jpeg"@
    }
}

/// The body a registered path is served with.
pub open spec fn registered_body(path: Seq<char>) -> Seq<u8> {
    if path == "/"@ {
        encode_utf8(homepage_page())
    } else if path == "/cow.jpg"@ {
        cow_jpg()
    } else {
        cat_jpg()
    }
}

/// Every registered route is served with non-empty `content-type` and
/// `server` header values.
pub proof fn lemma_registered_headers_nonempty(method: Seq<char>, path: Seq<char>)
    requires
        is_registered(method, path),
    ensures
        registered_content_type(path).len() > 0,
        server_name().len() > 0,
{
    reveal_strlit("text/html");
    reveal_strlit("image/jpeg");
    reveal_strlit("bali/1.0");
}

/// Dispatches one request: an exact match against the route table
/// builds the resource and serves its headers and body with status
/// 200; anything else falls through to status 404 with no headers and
/// an empty body.
///
/// Dispatch is a pure function of `(method, path)`: it holds no state
/// between requests and re-builds its resource on every match.
pub fn handle(method: &str, path: &str) -> (r: Response)
    ensures
        is_registered(method@, path@) ==> {
            &&& r.status == STATUS_OK
            &&& r.headers@.len() == 2
            &&& r.headers@[0].0@ == "content-type"@
            &&& r.headers@[0].1@ == registered_content_type(path@)
            &&& r.headers@[1].0@ == "server"@
            &&& r.headers@[1].1@ == server_name()
            &&& r.body@ == registered_body(path@)
        },
        !is_registered(method@, path@) ==> {
            &&& r.status == STATUS_NOT_FOUND
            &&& r.headers@.len() == 0
            &&& r.body@.len() == 0
        },
{
    if str_eq(method, "GET") {
        if str_eq(path, "/") {
            let doc = homepage();
            let headers = doc.headers();
            let body = doc.body();
            return Response { status: STATUS_OK, headers, body };
        }
        if str_eq(path, "/cow.jpg") {
            proof {
                reveal_strlit("/");
                reveal_strlit("/cow.jpg");
            }
            let img = img_cow();
            let headers = img.headers();
            let body = img.body();
            return Response { status: STATUS_OK, headers, body };
        }
        if str_eq(path, "/cat.jpg") {
            proof {
                reveal_strlit("/");
                reveal_strlit("/cow.jpg");
                reveal_strlit("/cat.jpg");
                assert(("/cat.jpg"@).index(2) != ("/cow.jpg"@).index(2));
            }
            let img = img_cat();
            let headers = img.headers();
            let body = img.body();
            return Response { status: STATUS_OK, headers, body };
        }
    }
    Response { status: STATUS_NOT_FOUND, headers: Vec::new(), body: Vec::new() }
}

} // verus!
