//! The earlier name for the protocol-version triple.
//!
//! Older parts of the public surface call the version type `Api`; it
//! reads and renders the same dot-separated wire form as
//! [`crate::version::Version`].

use vstd::prelude::*;

use crate::numeral::dec_of;
use crate::version::{parse_version_triple, spec_version_of, valid_version_chars};

verus! {

/// A protocol version triple under its earlier name.
#[derive(Debug, Clone, Copy, PartialEq, Eq, Structural)]
pub struct Api(pub u8, pub u8, pub u8);

impl Api {
    /// Reads a version from its dot-separated wire form.
    pub fn from(s: &str) -> (v: Api)
        requires
            valid_version_chars(s@),
        ensures
            (v.0 as nat, v.1 as nat, v.2 as nat) == spec_version_of(s@),
    {
        let t = parse_version_triple(s);
        Api(t.0, t.1, t.2)
    }

    /// Renders the version in its dot-separated wire form.
    pub fn to_string(&self) -> (r: String)
        ensures
            r@ == dec_of(self.0 as nat) + seq!['.'] + dec_of(self.1 as nat) + seq!['.'] + dec_of(
                self.2 as nat,
            ),
    {
        crate::version::Version(self.0, self.1, self.2).to_string()
    }
}

} // verus!
