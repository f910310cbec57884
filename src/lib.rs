//! Core of a content platform: bearer-token authentication, the ownership
//! guard for mutations, threaded comments with bounded nesting, and the
//! moderation lifecycle with its audit trail.

use vstd::prelude::*;

pub mod pagination;
pub mod error;
pub mod platform;
pub mod auth;
pub mod comment;
pub mod token;
pub mod accounts;
pub mod blog;
pub mod users;

verus! {

/// The optional text is present and equals `t`.
pub open spec fn has_text(o: Option<String>, t: Seq<char>) -> bool {
    match o {
        Some(s) => s@ == t,
        None => false,
    }
}

} // verus!
