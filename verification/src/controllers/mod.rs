use vstd::prelude::*;

pub mod index;

verus! {

/// How long, in seconds, a session stays locked after too many failed logins.
pub const LOGIN_LOCKED_TIME: usize = 3600;

/// The number of failed logins a session may record before it is locked.
pub const LOGIN_ERROR_MAX: usize = 3;

} // verus!
