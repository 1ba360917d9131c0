//! Request dispatch for a server that renders a UI tree to HTML and runs
//! remote procedures: request classification, the per-request context with
//! its response overrides, the form-post redirect and the header merge, the
//! write-once rendering cache handle, and the ambient context binding.
//!
//! Everything that waits (the rendering engine, the procedure itself) is left
//! to the caller. The functions here decide what is to be done before the
//! wait and what becomes of its result afterwards.

#![allow(unused_imports)]

pub mod bytes;
pub mod context;
pub mod headers;
pub mod procedure;
pub mod registry;
pub mod render;
pub mod render_state;
pub mod response;
pub mod scope;
