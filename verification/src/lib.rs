//! The services of a small hosting platform: migrations of project databases,
//! databases on a second server, a proxy for a Komodo server, reports of builds,
//! pages with OpenGraph tags, and answers to preflight requests.

pub mod checksum;
pub mod cors;
pub mod ingest;
pub mod ingest_laws;
pub mod komodo;
pub mod lock;
pub mod og;
pub mod ops;
pub mod password;
pub mod storage;
pub mod text;
pub mod text_map;
pub mod truenas;
pub mod truenas_laws;
