//! The resource contract: anything servable over HTTP exposes a header
//! list and a body, and the dispatcher wraps both in a [`Response`].

use vstd::prelude::*;

verus! {

/// Status code of a successful dispatch.
pub const STATUS_OK: u16 = 200;

/// Status code of an unmatched route.
pub const STATUS_NOT_FOUND: u16 = 404;

/// The fixed server-identification header value that every resource
/// carries.
pub open spec fn server_name() -> Seq<char> {
    "bali/1.0"@
}

/// A complete HTTP response as plain values: the transport layer only
/// has to write these to a client connection.
pub struct Response {
    pub status: u16,
    pub headers: Vec<(String, String)>,
    pub body: Vec<u8>,
}

/// The unifying contract for servable entities.
///
/// An implementation fixes its `content-type` value and the byte
/// sequence of its body; `headers` always yields exactly the
/// `content-type` header followed by the fixed `server` header, and
/// `body` yields the complete payload, already materialized.
pub trait Resource {
    /// Well-formedness of the entity; both projections require it.
    spec fn inv(&self) -> bool;

    /// The value of the `content-type` header this entity serves.
    spec fn content_type(&self) -> Seq<char>;

    /// The byte sequence this entity serves as its body.
    spec fn body_model(&self) -> Seq<u8>;

    /// The response headers: an ordered, duplicate-free list, always
    /// `content-type` then `server`.
    fn headers(&self) -> (h: Vec<(String, String)>)
        requires
            self.inv(),
        ensures
            h@.len() == 2,
            h@[0].0@ == "content-type"@,
            h@[0].1@ == self.content_type(),
            h@[1].0@ == "server"@,
            h@[1].1@ == server_name(),
    ;

    /// The complete response payload.
    fn body(&self) -> (b: Vec<u8>)
        requires
            self.inv(),
        ensures
            b@ == self.body_model(),
    ;
}

} // verus!
