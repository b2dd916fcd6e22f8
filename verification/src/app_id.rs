//! Tenant identifiers. A tenant id is embedded in every resolved hostname
//! and in the tenant-identifying request header; it is never mutated after
//! construction.

use vstd::prelude::*;

verus! {

/// An owned tenant identifier.
#[derive(Clone, Debug)]
pub struct AppId(pub String);

impl View for AppId {
    type V = Seq<char>;

    open spec fn view(&self) -> Seq<char> {
        self.0@
    }
}

impl AppId {
    pub fn new(s: String) -> (r: Self)
        ensures
            r@ == s@,
    {
        AppId(s)
    }

    /// The identifier as a borrowed string.
    pub fn as_str(&self) -> (r: &str)
        ensures
            r@ == self@,
    {
        self.0.as_str()
    }

    /// A borrowed view of this identifier.
    pub fn borrowed(&self) -> (r: RefAppId<'_>)
        ensures
            r@ == self@,
    {
        RefAppId(self.0.as_str())
    }
}

/// A borrowed tenant identifier.
#[derive(Clone, Copy, Debug)]
pub struct RefAppId<'a>(pub &'a str);

impl<'a> View for RefAppId<'a> {
    type V = Seq<char>;

    open spec fn view(&self) -> Seq<char> {
        self.0@
    }
}

impl<'a> RefAppId<'a> {
    pub fn new(s: &'a str) -> (r: Self)
        ensures
            r@ == s@,
    {
        RefAppId(s)
    }

    pub fn as_str(&self) -> (r: &'a str)
        ensures
            r@ == self@,
    {
        self.0
    }
}

} // verus!
