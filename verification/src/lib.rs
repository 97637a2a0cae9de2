//! A small self-hosted video library: content-addressed ingestion of
//! uploaded files, metadata extraction from a media probe's report, and the
//! rules that keep the files on disk and the index of records consistent.

#![allow(non_snake_case)]

pub mod authentication;
pub mod config;
pub mod digest;
pub mod error;
pub mod index;
pub mod ingest;
pub mod metadata;
pub mod paths;
pub mod pipeline;
pub mod probe;
pub mod site;
pub mod text;
pub mod thumbnail;
pub mod video;
