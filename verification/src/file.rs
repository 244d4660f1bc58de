//! Static assets: a byte provider behind a tagged variant set, and a
//! named file resource pairing those bytes with a media type.

use vstd::prelude::*;

use crate::resource::Resource;

verus! {

/// An abstract byte provider for static assets. The variant set is
/// designed for extension (a provider that reads at request time would
/// be one more variant); today every asset is an immutable buffer
/// known at build time.
pub enum DataSource {
    Static { content: Vec<u8> },
}

impl View for DataSource {
    type V = Seq<u8>;

    open spec fn view(&self) -> Seq<u8> {
        match self {
            DataSource::Static { content } => content@,
        }
    }
}

impl DataSource {
    /// The provided bytes; pure, total and deterministic.
    pub fn as_bytes(&self) -> (r: Vec<u8>)
        ensures
            r@ == self@,
    {
        match self {
            DataSource::Static { content } => {
                let mut out: Vec<u8> = Vec::new();
                let n = content.len();
                for i in 0..n
                    invariant
                        n == content@.len(),
                        out@ == content@.take(i as int),
                {
                    out.push(content[i]);
                    proof {
                        assert(out@ =~= content@.take(i + 1));
                    }
                }
                proof {
                    assert(content@.take(n as int) =~= content@);
                }
                out
            },
        }
    }
}

/// A named byte resource with an associated media type.
pub struct File {
    content: DataSource,
    mime_type: String,
}

impl File {
    /// The bytes this file serves.
    pub closed spec fn data(&self) -> Seq<u8> {
        self.content@
    }

    /// The media type this file serves its bytes under.
    pub closed spec fn media_type(&self) -> Seq<char> {
        self.mime_type@
    }

    /// The media type is never empty.
    pub open spec fn wf(&self) -> bool {
        self.media_type().len() > 0
    }

    /// Pairs a byte provider with a media type.
    pub fn new(content: DataSource, mime_type: &str) -> (f: File)
        requires
            mime_type@.len() > 0,
        ensures
            f.wf(),
            f.data() == content@,
            f.media_type() == mime_type@,
    {
        File { content, mime_type: mime_type.to_owned() }
    }
}

/// A file's response body is exactly its data source's bytes: no
/// transformation on the way out.
pub proof fn lemma_file_body_is_source(f: File)
    ensures
        f.body_model() == f.data(),
{
}

impl Resource for File {
    open spec fn inv(&self) -> bool {
        self.wf()
    }

    /// A file serves its stored media type.
    open spec fn content_type(&self) -> Seq<char> {
        self.media_type()
    }

    /// A file's body is its data source's bytes, unchanged.
    open spec fn body_model(&self) -> Seq<u8> {
        self.data()
    }

    fn headers(&self) -> (h: Vec<(String, String)>) {
        let mut h: Vec<(String, String)> = Vec::new();
        h.push(("content-type".to_owned(), self.mime_type.clone()));
        h.push(("server".to_owned(), "bali/1.0".to_owned()));
        h
    }

    fn body(&self) -> (b: Vec<u8>) {
        self.content.as_bytes()
    }
}

} // verus!
