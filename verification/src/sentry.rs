//! Error reporting. Nothing is reported: the entry points are kept for
//! their callers and do nothing.

use vstd::prelude::*;

verus! {

/// Which program reports.
#[derive(Clone, Copy, Debug, PartialEq, Eq, Structural)]
pub enum SentrySource {
    Backend,
    Mcp,
}

/// Does nothing.
pub fn init_once(_source: SentrySource) {
}

/// Does nothing.
pub fn configure_user_scope(_user_id: &str, _username: Option<&str>, _email: Option<&str>) {
}

} // verus!
