//! A small aggregation proxy, as a library: it filters the records of two
//! upstream sources against an exclusion list, renders what is left as a
//! syndication feed and keeps each rendered feed in a short-lived cache.

pub mod bilibili;
pub mod blacklist;
pub mod cache;
pub mod ddys;
pub mod error;
pub mod feed;
pub mod text;
