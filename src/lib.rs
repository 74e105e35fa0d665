//! Client-side model of the Compass Education web services.
//!
//! Every remote call follows one pattern: authenticate, attach the session
//! cookie, post a small JSON body to a fixed endpoint, unwrap the response
//! envelope and rename the fields of each record. This crate holds the parts
//! of that pattern that compute: endpoint addresses, request bodies, the
//! cookie header, and the mapping from each wire record to the public record.
//! The transport itself lives with the caller.

pub mod endpoints;
pub mod text;
