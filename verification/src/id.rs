//! The entity identifier type.
//!
//! Servers disagree on whether identifiers are numbers or strings; this
//! type carries either form and renders it for query arguments.

use vstd::prelude::*;
use vstd::string::StringExecFns;

use crate::numeral::{dec_of, u64_to_string};
use crate::query::{Arg, IntoArg};

verus! {

/// An entity identifier: numeric or free-form, depending on the server.
#[derive(Debug, Clone, PartialEq, Eq, Hash)]
pub enum Id {
    /// A numeric identifier.
    Numeric(usize),
    /// A free-form identifier.
    String(String),
}

/// The wire form of an identifier: the number in base ten, or the
/// string as given.
pub open spec fn id_chars(id: Id) -> Seq<char> {
    match id {
        Id::Numeric(n) => dec_of(n as nat),
        Id::String(s) => s@,
    }
}

impl Id {
    /// Renders the identifier in its wire form.
    pub fn to_string(&self) -> (r: String)
        ensures
            r@ == id_chars(*self),
    {
        match self {
            Id::Numeric(n) => u64_to_string(*n as u64),
            Id::String(s) => s.clone(),
        }
    }
}

impl IntoArg for Id {
    open spec fn arg_view(self) -> Option<Seq<char>> {
        Some(id_chars(self))
    }

    fn into_arg(self) -> (r: Arg) {
        Arg(Some(self.to_string()))
    }

    fn as_arg(&self) -> (r: Arg) {
        Arg(Some(self.to_string()))
    }
}

impl From<usize> for Id {
    fn from(id: usize) -> (r: Id) {
        Id::Numeric(id)
    }
}

impl vstd::std_specs::convert::FromSpecImpl<usize> for Id {
    open spec fn obeys_from_spec() -> bool {
        true
    }

    open spec fn from_spec(id: usize) -> Id {
        Id::Numeric(id)
    }
}

impl From<String> for Id {
    fn from(id: String) -> (r: Id) {
        Id::String(id)
    }
}

impl vstd::std_specs::convert::FromSpecImpl<String> for Id {
    open spec fn obeys_from_spec() -> bool {
        true
    }

    open spec fn from_spec(id: String) -> Id {
        Id::String(id)
    }
}

impl From<&str> for Id {
    fn from(id: &str) -> (r: Id)
        ensures
            r matches Id::String(s) && s@ == id@,
    {
        Id::String(id.to_owned())
    }
}

impl vstd::std_specs::convert::FromSpecImpl<&str> for Id {
    open spec fn obeys_from_spec() -> bool {
        false
    }

    open spec fn from_spec(id: &str) -> Id {
        Id::Numeric(0)
    }
}

} // verus!
