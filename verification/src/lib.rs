//! A minimal HTTP origin core: composable page components and static
//! assets served behind one resource contract, with an exact-match
//! request dispatcher.
//!
//! The crate is transport-agnostic: the single entry point
//! [`handle`](router::handle) maps a `(method, path)` pair to a status,
//! a header list and a body, and a surrounding server writes those to
//! the wire.

pub mod component;
pub mod document;
pub mod file;
pub mod resource;
pub mod router;

pub use component::Component;
pub use component::ComponentModel;
pub use component::Image;
pub use component::Text;
pub use document::Document;
pub use file::DataSource;
pub use file::File;
pub use resource::Resource;
pub use resource::Response;
pub use resource::STATUS_NOT_FOUND;
pub use resource::STATUS_OK;
pub use router::handle;
pub use router::homepage;
pub use router::img_cat;
pub use router::img_cow;
