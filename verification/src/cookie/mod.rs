//! Cookies.

use crate::cookie::cookies::Cookie;
use vstd::prelude::*;

pub mod cookies;

verus! {

/// A store of cookies by name.
pub trait CookieJar {
    /// The cookie of the given name.
    fn cookie(&self, name: &str) -> Cookie;
}

} // verus!
