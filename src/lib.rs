//! Keeps an application's local build-information record in step with the
//! version that its update feed publishes.
//!
//! The library holds the data model, the JSON text of both records, and the
//! decision whether the local record must be rewritten. Reading and writing
//! the file and fetching the feed are left to the caller.

pub mod json;
pub mod record;
pub mod update;
