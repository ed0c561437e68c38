//! The stateful core of a language server.
//!
//! The library tracks the documents that a client has open, keeps the text
//! and version of each in step with the client's edit notifications, turns
//! positions from one encoding into another, and decides for each request
//! whether its result may still be returned once its handler has run.
//!
//! - `encoding`, `position`, `measure`, `lines`, `conversions`: positions,
//!   the three encodings of their columns, and the conversion between them.
//! - `document`, `server_state`: a document, the edits that change it, and
//!   the state that notifications act on.
//! - `document_matcher`: the configurations that claim documents by
//!   language identifier or by glob.
//! - `requests`: the request methods and the two halves of a dispatch.
//! - `scan`, `byte_range`, `range_ext`: ranges of a text and their parts.
//! - `rope`, `globs`, `store`: what is taken on trust of the `ropey`,
//!   `globset` and `dashmap` crates.

pub mod encoding;
pub mod position;
pub mod measure;
pub mod lines;
pub mod rope;
pub mod conversions;
pub mod document;
pub mod globs;
pub mod document_matcher;
pub mod store;
pub mod server_state;
pub mod requests;
pub mod scan;
pub mod byte_range;
pub mod range_ext;
