//! A small feed manager: an RSS channel held in memory, the operations that
//! add, edit, delete and prune its items, and the storage gateway through
//! which the channel is written out after every change.

pub mod api;
pub mod clock;
pub mod common;
pub mod feed;
pub mod ident;
pub mod laws;
pub mod model;
pub mod mutation;
pub mod rss_format;
pub mod storage;
pub mod sweeper;
pub mod text;
pub mod web;
