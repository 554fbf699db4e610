//! Handle for an external IP-geolocation service.
//!
//! The library only carries the service's address; the lookup itself is
//! network I/O performed by the surrounding application, which hands the
//! resolved country back to the login flow as a plain value.

use vstd::prelude::*;

verus! {

/// Address of an IP-to-country lookup service.
pub struct IpDB {
    url: String,
}

impl IpDB {
    /// A handle for the service at `url`.
    pub fn new(url: String) -> (r: Self)
        ensures
            r.url() == url@,
    {
        IpDB { url }
    }

    /// The configured service address.
    pub closed spec fn url(&self) -> Seq<char> {
        self.url@
    }

    /// The configured service address, for the caller performing the
    /// lookup.
    pub fn url_str(&self) -> (r: &str)
        ensures
            r@ == self.url(),
    {
        self.url.as_str()
    }
}

impl Clone for IpDB {
    fn clone(&self) -> (r: Self)
        ensures
            r.url() == self.url(),
    {
        IpDB { url: self.url.clone() }
    }
}

} // verus!
