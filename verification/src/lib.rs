//! The build of an extension, as decisions over plain values.
//!
//! An extension is a directory with a manifest, perhaps a library of its own
//! and some grammars. To build it is to fill in what the manifest leaves to
//! the disk, to compile the library into one sandboxed component and record
//! the version of the extension interface found in it, and to fetch and
//! compile each grammar.
//!
//! Nothing here touches the machine. A build is a state machine: its driver
//! hands it the answer to the last request and gets the next request back,
//! until the build asks to finish. What a build asks, in which order, and
//! what it makes of each answer is stated over models of the data and
//! proved.
//!
//! - `text`: paths and names as text.
//! - `error`: the failure of a build.
//! - `manifest`: the manifest.
//! - `config`: the two TOML files that a build reads.
//! - `layout`: what a build finds on disk.
//! - `normalize`: the normalization of a manifest.
//! - `command`: the tools that a build runs.
//! - `protocol`: requests and answers.
//! - `checkout`: the checkout of a grammar's sources.
//! - `grammar`: the build of a grammar.
//! - `library`: the build of the library.
//! - `builder`: the build of an extension.

pub mod builder;
pub mod checkout;
pub mod command;
pub mod config;
pub mod error;
pub mod grammar;
pub mod layout;
pub mod library;
pub mod manifest;
pub mod normalize;
pub mod protocol;
pub mod text;
