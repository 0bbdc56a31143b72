//! Full-text indexing and search over directories of office and text
//! documents.
//!
//! A crawl hands over the entries of a directory tree. Each entry is
//! classified and, where it is an indexable file, turned into a document
//! whose identifier is the hash of its path ([`structs`]). A document whose
//! indexed copy is as new as the file is passed over; of any other the
//! content is extracted and the indexed copy replaced in one write, and
//! writes are committed in batches ([`search`]). Searches are answered from a
//! snapshot of the index, one page of the ranking at a time.
//!
//! The index itself is kept by an embedded engine. What this library relies
//! on of it is declared, unproved, in [`engine`], and what it relies on of
//! decoders and of the hash function in [`codec`]; everything else is
//! verified against those declarations. Walking directories, reading files
//! and running the converter are left to the caller.

pub mod codec;
pub mod command_result;
pub mod config;
pub mod crawler;
pub mod engine;
pub mod launch;
pub mod model;
pub mod schema;
pub mod search;
pub mod structs;
pub mod text;
