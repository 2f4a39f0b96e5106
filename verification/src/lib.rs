//! Decision logic of a small file-transfer service: who may upload, which
//! file names are accepted, where files are kept, and what each request is
//! answered. The service around it reads requests and touches the disk; this
//! crate decides.

pub mod auth;
pub mod download;
pub mod filename;
pub mod headers;
pub mod laws;
pub mod reply;
pub mod storage;
pub mod upload;
