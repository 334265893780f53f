//! Mirrors the documentation files that a site lists in its `llms.txt`
//! manifest: parsing the manifest, resolving its references, mapping them to
//! local paths, the retry policy of the fetch client, and the accounting and
//! report of a run. The requests, the waiting and the file writes are the
//! caller's.
use vstd::prelude::*;

pub mod text;
pub mod error;
pub mod location;
pub mod manifest;
pub mod paths;
pub mod report;
pub mod result;
pub mod retry;
pub mod run;
