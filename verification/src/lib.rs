//! The logic of flup, a small file sharing service.
//!
//! Files are uploaded, get an id from their content, and are served under it. What talks
//! to the network, the database and the disk lives outside of this library: it performs
//! the steps that the library hands out and reports how they went.

pub mod db;
pub mod fetch;
pub mod filename;
pub mod flup;
pub mod form;
pub mod handler;
pub mod hash;
pub mod request;
pub mod response;
pub mod routes;
pub mod store;
pub mod text;
pub mod upload;
pub mod url;
pub mod world;
